use cdumay_job::labels::{label, label_result, u16_text};
use cdumay_job::{Failure, JobResult, Uid};

#[test]
fn decimal_texts_are_exact() {
    assert_eq!(u16_text(0), "0");
    assert_eq!(u16_text(7), "7");
    assert_eq!(u16_text(10), "10");
    assert_eq!(u16_text(304), "304");
    assert_eq!(u16_text(65535), "65535");
}

#[test]
fn results_describe_their_state() {
    let mut r = JobResult::new(Uid::new(1));
    assert_eq!(r.describe(), "Ok(0, stdout: None)");
    r.stdout = Some("fine".to_string());
    r.retcode = 250;
    assert_eq!(r.describe(), "Ok(250, stdout: Some(\"fine\"))");
    r.retcode = 500;
    r.stderr = Some("broken".to_string());
    assert_eq!(r.describe(), "Err(500, stderr: Some(\"broken\"))");
    r.retcode = 1;
    assert_eq!(r.describe(), "Err(1, stderr: Some(\"broken\"))");
}

#[test]
fn failures_describe_their_code_and_message() {
    let f = Failure::new(500, "boom".to_string());
    assert_eq!(f.describe(), "error 500: boom");
}

#[test]
fn labels_carry_path_identifier_and_action() {
    let nil = Uid::new(0);
    assert_eq!(
        label("jobs::Hello", nil, None),
        "jobs::Hello[00000000-0000-0000-0000-000000000000]"
    );
    assert_eq!(
        label("jobs::Hello", nil, Some("PreRun")),
        "jobs::Hello[00000000-0000-0000-0000-000000000000] - PreRun"
    );
    let outcome: Result<JobResult, Failure> = Ok(JobResult::new(Uid::new(2)));
    assert_eq!(
        label_result("h", nil, "Run", &outcome),
        "h[00000000-0000-0000-0000-000000000000] - Run => Ok(0, stdout: None)"
    );
    let failed: Result<JobResult, Failure> = Err(Failure::new(400, "no".to_string()));
    assert_eq!(
        label_result("h", nil, "Run", &failed),
        "h[00000000-0000-0000-0000-000000000000] - Run => error 400: no"
    );
}
