use cdumay_job::{JobResult, Message, MessageBuilder, RetVal, Status, Uid, ValueMap};

#[test]
fn status_tokens_round_trip() {
    let all = vec![Status::Pending, Status::Running, Status::Success, Status::Failed];
    let tokens = vec!["PENDING", "RUNNING", "SUCCESS", "FAILED"];
    for (status, token) in all.iter().zip(tokens.iter()) {
        assert_eq!(status.token(), *token);
        assert_eq!(Status::from_token(token), *status);
    }
}

#[test]
fn unknown_tokens_decode_to_pending() {
    assert_eq!(Status::from_token("UNKNOWN"), Status::Pending);
    assert_eq!(Status::from_token(""), Status::Pending);
    assert_eq!(Status::from_token("running"), Status::Pending);
    assert_eq!(Status::default(), Status::Pending);
}

#[test]
fn status_values_decode_leniently() {
    assert_eq!(Status::from_value(&RetVal::Text("SUCCESS".to_string())), Status::Success);
    assert_eq!(Status::from_value(&RetVal::Text("what".to_string())), Status::Pending);
    assert_eq!(Status::from_value(&RetVal::Int(3)), Status::Pending);
    match Status::Running.to_value() {
        RetVal::Text(t) => assert_eq!(t, "RUNNING"),
        _ => panic!("a status serializes to a text value"),
    }
}

#[test]
fn built_messages_fall_back_to_defaults() {
    let m = MessageBuilder::new("hello".to_string()).build();
    assert_eq!(m.entrypoint, "hello");
    assert!(m.params.is_none());
    assert_eq!(m.metadata.len(), 0);
    assert_eq!(m.result.uuid, m.uuid);
    assert_eq!(m.result.retcode, 0);
}

#[test]
fn built_messages_keep_what_was_set() {
    let mut metadata = ValueMap::new();
    metadata.insert("env".to_string(), RetVal::Text("test".to_string()));
    let mut seed = JobResult::new(Uid::new(9));
    seed.retcode = 250;
    let m = MessageBuilder::new("job".to_string())
        .uuid(Uid::new(7))
        .metadata(metadata)
        .params(RetVal::Bool(true))
        .result(seed)
        .build();
    assert_eq!(m.uuid, Uid::new(7));
    assert_eq!(m.entrypoint, "job");
    match m.params {
        Some(RetVal::Bool(b)) => assert!(b),
        _ => panic!("params must be kept"),
    }
    match m.metadata.get("env") {
        Some(RetVal::Text(t)) => assert_eq!(t, "test"),
        _ => panic!("metadata must be kept"),
    }
    assert_eq!(m.result.retcode, 250);
    assert_eq!(m.result.uuid, Uid::new(9));
}

#[test]
fn a_message_correlates_fresh_results_to_itself() {
    let m = Message::default();
    let r = m.new_result();
    assert_eq!(r.uuid, m.uuid);
    assert_eq!(r.retcode, 0);
    assert!(r.stdout.is_none());
}
