use cdumay_job::{Failure, JobResult, RetVal, Uid};

fn result_with_uid(value: u128) -> JobResult {
    JobResult::new(Uid::new(value))
}

#[test]
fn error_codes_follow_the_asymmetric_rule() {
    let mut r = result_with_uid(1);
    let cases: Vec<(u16, bool)> = vec![
        (0, false),
        (1, true),
        (2, false),
        (250, false),
        (299, false),
        (300, true),
        (301, true),
        (500, true),
        (65535, true),
    ];
    for (code, expected) in cases {
        r.retcode = code;
        assert_eq!(r.is_error(), expected);
    }
}

#[test]
fn merge_is_right_biased_on_identity_and_outputs() {
    let mut a = result_with_uid(1);
    a.retcode = 10;
    a.stdout = Some("left out".to_string());
    a.stderr = Some("left err".to_string());
    let mut b = result_with_uid(2);
    b.retcode = 7;
    b.stdout = Some("right out".to_string());

    let c = a.merged(&b);
    assert_eq!(c.uuid, Uid::new(2));
    assert_eq!(c.retcode, 10);
    assert_eq!(c.stdout.unwrap(), "right out");
    assert_eq!(c.stderr.unwrap(), "left err");
}

#[test]
fn merge_keeps_left_output_when_right_is_absent() {
    let mut a = result_with_uid(1);
    a.stdout = Some("kept".to_string());
    let b = result_with_uid(2);
    let c = a.merged(&b);
    assert_eq!(c.stdout.unwrap(), "kept");
    assert!(c.stderr.is_none());
}

#[test]
fn merge_associates_but_does_not_commute() {
    let mut a = result_with_uid(1);
    a.retcode = 5;
    a.stdout = Some("a".to_string());
    let mut b = result_with_uid(2);
    b.retcode = 350;
    b.stdout = Some("b".to_string());
    let mut c = result_with_uid(3);
    c.stderr = Some("c".to_string());

    let left = a.merged(&b).merged(&c);
    let right = a.merged(&b.merged(&c));
    assert_eq!(left.uuid, right.uuid);
    assert_eq!(left.retcode, right.retcode);
    assert_eq!(left.stdout, right.stdout);
    assert_eq!(left.stderr, right.stderr);

    let ab = a.merged(&b);
    let ba = b.merged(&a);
    assert_ne!(ab.uuid, ba.uuid);
    assert_ne!(ab.stdout, ba.stdout);
}

#[test]
fn merge_overwrites_retval_keys_from_the_right() {
    let mut a = result_with_uid(1);
    a.retval.insert("a".to_string(), RetVal::Int(1));
    let mut b = result_with_uid(2);
    b.retval.insert("a".to_string(), RetVal::Int(2));
    b.retval.insert("b".to_string(), RetVal::Int(3));

    let c = a.merged(&b);
    assert_eq!(c.retval.len(), 2);
    match c.retval.get("a") {
        Some(RetVal::Int(v)) => assert_eq!(*v, 2),
        _ => panic!("key a must hold the right value"),
    }
    match c.retval.get("b") {
        Some(RetVal::Int(v)) => assert_eq!(*v, 3),
        _ => panic!("key b must come from the right map"),
    }
}

#[test]
fn failure_converts_to_an_error_result() {
    let mut f = Failure::new(404, "not found".to_string());
    f.details.insert("key".to_string(), RetVal::Text("detail".to_string()));
    let r = JobResult::from_failure(&f);
    assert_eq!(r.retcode, 404);
    assert!(r.is_error());
    assert!(r.stdout.is_none());
    assert_eq!(r.stderr.unwrap(), "not found");
    match r.retval.get("key") {
        Some(RetVal::Text(t)) => assert_eq!(t, "detail"),
        _ => panic!("details must carry over"),
    }
}

#[test]
fn value_map_pairs_list_each_key_once() {
    let mut m = cdumay_job::ValueMap::new();
    m.insert("a".to_string(), RetVal::Int(1));
    m.insert("b".to_string(), RetVal::Int(2));
    m.insert("a".to_string(), RetVal::Int(3));
    let pairs = m.pairs();
    assert_eq!(pairs.len(), 2);
    for (key, value) in pairs {
        match (key.as_str(), value) {
            ("a", RetVal::Int(v)) => assert_eq!(v, 3),
            ("b", RetVal::Int(v)) => assert_eq!(v, 2),
            _ => panic!("unexpected pair"),
        }
    }
}

#[test]
fn value_map_insert_get_and_overwrite() {
    let mut m = cdumay_job::ValueMap::new();
    assert!(m.is_empty());
    assert!(m.get("missing").is_none());
    m.insert("k".to_string(), RetVal::Bool(true));
    m.insert("n".to_string(), RetVal::UInt(9));
    assert_eq!(m.len(), 2);
    m.insert("k".to_string(), RetVal::Int(-4));
    assert_eq!(m.len(), 2);
    match m.get("k") {
        Some(RetVal::Int(v)) => assert_eq!(*v, -4),
        _ => panic!("overwritten key must hold the new value"),
    }
    match m.get("n") {
        Some(RetVal::UInt(v)) => assert_eq!(*v, 9),
        _ => panic!("untouched key must keep its value"),
    }
}
