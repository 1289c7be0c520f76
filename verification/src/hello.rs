use vstd::prelude::*;

use crate::failure::{Failure, FailureModel};
use crate::result::{JobResult, ResultModel};
use crate::task::{Stage, TaskExec};
use vstd::string::StringExecFns;

verus! {

/// Parameters of the greeting task: the name of the user to greet.
#[derive(Debug)]
pub struct HelloParams {
    pub user: String,
}

/// A small greeting task: its run hook writes `Hello <user>` to stdout and
/// every other hook returns its input unchanged.
#[derive(Debug)]
pub struct Hello {
    pub params: HelloParams,
}

impl Hello {
    /// A greeting hook state for the given parameters; without parameters
    /// the greeting falls back to an empty name.
    pub fn new(params: Option<HelloParams>) -> (h: Hello)
        ensures
            match params {
                Some(p) => h.params.user@ == p.user@,
                None => h.params.user@ == Seq::<char>::empty(),
            },
    {
        match params {
            Some(p) => Hello { params: p },
            None => Hello { params: HelloParams { user: String::new() } },
        }
    }
}

/// The greeting the run hook produces for a given user name.
pub open spec fn greeting(user: Seq<char>) -> Seq<char> {
    "Hello "@ + user
}

impl TaskExec for Hello {
    open spec fn hook_out(&self, stage: Stage, input: ResultModel) -> Result<
        ResultModel,
        FailureModel,
    > {
        if stage == Stage::Run {
            Ok(ResultModel { stdout: Some(greeting(self.params.user@)), ..input })
        } else {
            Ok(input)
        }
    }

    open spec fn on_error_out(&self, failure: FailureModel, input: ResultModel) -> Result<
        ResultModel,
        FailureModel,
    > {
        Ok(input)
    }

    fn hook(&self, stage: Stage, input: JobResult) -> (r: Result<JobResult, Failure>) {
        match stage {
            Stage::Run => {
                let ghost input0 = input@;
                let mut text = String::from_str("Hello ");
                text.append(self.params.user.as_str());
                let mut out = input;
                out.stdout = Some(text);
                proof {
                    assert(out@ =~= (ResultModel {
                        stdout: Some(greeting(self.params.user@)),
                        ..input0
                    }));
                }
                Ok(out)
            },
            _ => Ok(input),
        }
    }

    fn on_error(&self, failure: &Failure, input: JobResult) -> (r: Result<JobResult, Failure>) {
        Ok(input)
    }
}

} // verus!
