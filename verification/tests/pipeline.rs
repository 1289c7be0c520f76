use cdumay_job::{
    DefaultHooks, Failure, Hello, HelloParams, JobResult, RetVal, ScriptHooks, Status, Task,
    TaskInfo,
};

#[test]
fn greeting_run_yields_stdout_and_no_error() {
    let hooks = Hello::new(Some(HelloParams { user: "John".to_string() }));
    let mut task = Task::new(hooks);
    assert_eq!(task.status, Status::Pending);
    let result = task.execute(None);
    assert_eq!(result.retcode, 0);
    assert_eq!(result.stdout.unwrap(), "Hello John");
    assert_eq!(task.status, Status::Success);
    assert!(!task.result.is_error());
}

#[test]
fn failing_run_yields_failed_status_and_message() {
    let hooks = ScriptHooks::failing(Failure::new(500, "Task failed !".to_string()));
    let mut task = Task::new(hooks);
    let result = task.execute(None);
    assert_eq!(result.retcode, 500);
    assert_eq!(result.stderr.unwrap(), "Task failed !");
    assert_eq!(task.status, Status::Failed);
    assert!(task.result.is_error());
}

#[test]
fn greeting_without_parameters_uses_an_empty_name() {
    let mut task = Task::new(Hello::new(None));
    let result = task.execute(None);
    assert_eq!(result.stdout.unwrap(), "Hello ");
    assert_eq!(task.status, Status::Success);
}

#[test]
fn default_hooks_run_the_whole_pipeline_as_a_noop() {
    let mut task = Task::new(DefaultHooks);
    let result = task.execute(None);
    assert_eq!(task.status, Status::Success);
    assert_eq!(result.retcode, 0);
    assert!(result.stdout.is_none());
    assert!(result.stderr.is_none());
}

#[test]
fn execute_merges_the_seed_into_the_result() {
    let mut task = Task::new(DefaultHooks);
    let mut seed = JobResult::new(task.uuid);
    seed.stdout = Some("seeded".to_string());
    seed.retcode = 7;
    let result = task.execute(Some(seed));
    assert_eq!(task.status, Status::Success);
    assert_eq!(result.retcode, 7);
    assert!(!result.is_error());
    assert_eq!(result.stdout.unwrap(), "seeded");
}

#[test]
fn task_identity_is_kept_and_searchable() {
    let mut task = Task::new(DefaultHooks);
    task.result.retval.insert("answer".to_string(), RetVal::Int(42));
    assert_eq!(task.uuid(), task.uuid);
    assert_eq!(task.status(), Status::Pending);
    match task.search_result("answer") {
        Some(RetVal::Int(v)) => assert_eq!(v, 42),
        _ => panic!("stored return value must be found"),
    }
    assert!(task.search_result("missing").is_none());
    let fresh = task.new_result();
    assert_eq!(fresh.uuid, task.uuid);
    assert_eq!(fresh.retcode, 0);
}

#[test]
fn send_merges_the_incoming_result() {
    let mut task = Task::new(DefaultHooks);
    let mut seed = JobResult::new(task.uuid);
    seed.stdout = Some("handed over".to_string());
    let sent = task.send(Some(seed)).unwrap();
    assert_eq!(sent.stdout.unwrap(), "handed over");
    assert_eq!(task.result.stdout.as_deref(), Some("handed over"));
    let unchanged = task.send(None).unwrap();
    assert_eq!(unchanged.stdout.as_deref(), Some("handed over"));
}

#[test]
fn finalize_returns_the_current_result_by_default() {
    let mut task = Task::new(DefaultHooks);
    task.result.stdout = Some("kept".to_string());
    let r = task.finalize().unwrap();
    assert_eq!(r.stdout.unwrap(), "kept");
}

#[test]
fn set_status_changes_only_the_status() {
    let mut task = Task::new(DefaultHooks);
    task.result.retcode = 3;
    let before = task.set_status(Status::Running);
    assert_eq!(before.retcode, 3);
    assert_eq!(task.status, Status::Running);
    assert_eq!(task.result.retcode, 3);
}
