use cdumay_job::{Failure, JobResult, Stage, Task, TaskExec};

pub struct User {
    pub name: String,
    pub age: i32,
}

struct Hello {
    params: User,
}

impl Hello {
    fn new(params: Option<User>, _metadata: Option<()>) -> Task<Hello> {
        let params = match params {
            Some(p) => p,
            None => User { name: String::new(), age: 0 },
        };
        Task::new(Hello { params })
    }
}

impl TaskExec for Hello {
    fn hook(&self, stage: Stage, input: JobResult) -> Result<JobResult, Failure> {
        match stage {
            Stage::Run => {
                let mut out = input;
                out.stdout = Some(format!("Hello {}", self.params.name));
                Ok(out)
            }
            _ => Ok(input),
        }
    }

    fn on_error(&self, _failure: &Failure, input: JobResult) -> Result<JobResult, Failure> {
        Ok(input)
    }
}

struct HelloError {
    params: User,
}

impl HelloError {
    fn new(params: Option<User>, _metadata: Option<()>) -> Task<HelloError> {
        let params = match params {
            Some(p) => p,
            None => User { name: String::new(), age: 0 },
        };
        Task::new(HelloError { params })
    }
}

impl TaskExec for HelloError {
    fn hook(&self, stage: Stage, input: JobResult) -> Result<JobResult, Failure> {
        match stage {
            Stage::Run => Err(Failure::new(500, "Task failed !".to_string())),
            _ => Ok(input),
        }
    }

    fn on_error(&self, _failure: &Failure, input: JobResult) -> Result<JobResult, Failure> {
        Ok(input)
    }
}

#[test]
fn job_success() {
    let params = User { name: "John".into(), age: 27 };
    let mut task = Hello::new(Some(params), None);
    let result = task.execute(None);
    assert_eq!(result.retcode, 0);
    assert_eq!(result.stdout.unwrap(), "Hello John");
}

#[test]
fn job_error() {
    let params = User { name: "John".into(), age: 27 };
    let mut task = HelloError::new(Some(params), None);
    let result = task.execute(None);
    assert_eq!(result.retcode, 500);
    assert_eq!(result.stderr.unwrap(), "Task failed !");
}
