use vstd::prelude::*;

use crate::failure::{Failure, FailureModel};
use crate::operation::OperationExec;
use crate::result::{JobResult, ResultModel};
use crate::task::{Stage, Task, TaskExec};

verus! {

/// The default hook set: every hook returns its input unchanged and never
/// fails. A task built around it runs the whole pipeline as a no-op.
#[derive(Clone, Copy, PartialEq, Eq, Structural, Debug)]
pub struct DefaultHooks;

impl TaskExec for DefaultHooks {
    open spec fn hook_out(&self, stage: Stage, input: ResultModel) -> Result<
        ResultModel,
        FailureModel,
    > {
        Ok(input)
    }

    open spec fn on_error_out(&self, failure: FailureModel, input: ResultModel) -> Result<
        ResultModel,
        FailureModel,
    > {
        Ok(input)
    }

    fn hook(&self, stage: Stage, input: JobResult) -> (r: Result<JobResult, Failure>) {
        Ok(input)
    }

    fn on_error(&self, failure: &Failure, input: JobResult) -> (r: Result<JobResult, Failure>) {
        Ok(input)
    }
}

/// A hook set whose run behaviour is fixed data: either the configured
/// failure is raised, or the configured text (if any) is written to the
/// run stage's stdout. Every other stage returns its input unchanged.
#[derive(Clone, Debug)]
pub struct ScriptHooks {
    /// Text the run hook writes to stdout on success.
    pub stdout_on_run: Option<String>,
    /// Failure the run hook raises instead, when set.
    pub failure_on_run: Option<Failure>,
}

impl ScriptHooks {
    /// A hook set that succeeds without output.
    pub fn quiet() -> (h: ScriptHooks)
        ensures
            h.stdout_on_run is None,
            h.failure_on_run is None,
    {
        ScriptHooks { stdout_on_run: None, failure_on_run: None }
    }

    /// A hook set whose run succeeds and writes the given text.
    pub fn saying(text: String) -> (h: ScriptHooks)
        ensures
            h.stdout_on_run == Some(text),
            h.failure_on_run is None,
    {
        ScriptHooks { stdout_on_run: Some(text), failure_on_run: None }
    }

    /// A hook set whose run raises the given failure.
    pub fn failing(failure: Failure) -> (h: ScriptHooks)
        ensures
            h.stdout_on_run is None,
            h.failure_on_run == Some(failure),
    {
        ScriptHooks { stdout_on_run: None, failure_on_run: Some(failure) }
    }
}

impl TaskExec for ScriptHooks {
    open spec fn hook_out(&self, stage: Stage, input: ResultModel) -> Result<
        ResultModel,
        FailureModel,
    > {
        if stage == Stage::Run {
            match self.failure_on_run {
                Some(f) => Err(f@),
                None => match self.stdout_on_run {
                    Some(s) => Ok(ResultModel { stdout: Some(s@), ..input }),
                    None => Ok(input),
                },
            }
        } else {
            Ok(input)
        }
    }

    open spec fn on_error_out(&self, failure: FailureModel, input: ResultModel) -> Result<
        ResultModel,
        FailureModel,
    > {
        Ok(input)
    }

    fn hook(&self, stage: Stage, input: JobResult) -> (r: Result<JobResult, Failure>) {
        match stage {
            Stage::Run => match &self.failure_on_run {
                Some(f) => Err(f.clone()),
                None => match &self.stdout_on_run {
                    Some(s) => {
                        let ghost input0 = input@;
                        let mut out = input;
                        out.stdout = Some(s.clone());
                        proof {
                            assert(out@ =~= (ResultModel { stdout: Some(s@), ..input0 }));
                        }
                        Ok(out)
                    },
                    None => Ok(input),
                },
            },
            _ => Ok(input),
        }
    }

    fn on_error(&self, failure: &Failure, input: JobResult) -> (r: Result<JobResult, Failure>) {
        Ok(input)
    }
}

/// The hook state of an operation that fans out into one scripted child per
/// configured entry. Its own lifecycle hooks return their input unchanged,
/// and it supplies no continuation lookup.
#[derive(Debug)]
pub struct ScriptGroup {
    /// One scripted hook set per child, in execution order.
    pub scripts: Vec<ScriptHooks>,
}

impl TaskExec for ScriptGroup {
    open spec fn hook_out(&self, stage: Stage, input: ResultModel) -> Result<
        ResultModel,
        FailureModel,
    > {
        Ok(input)
    }

    open spec fn on_error_out(&self, failure: FailureModel, input: ResultModel) -> Result<
        ResultModel,
        FailureModel,
    > {
        Ok(input)
    }

    fn hook(&self, stage: Stage, input: JobResult) -> (r: Result<JobResult, Failure>) {
        Ok(input)
    }

    fn on_error(&self, failure: &Failure, input: JobResult) -> (r: Result<JobResult, Failure>) {
        Ok(input)
    }
}

impl OperationExec for ScriptGroup {
    type Child = Task<ScriptHooks>;

    fn build_tasks(&self) -> (v: Vec<Task<ScriptHooks>>) {
        let mut v: Vec<Task<ScriptHooks>> = Vec::new();
        let n = self.scripts.len();
        let mut i: usize = 0;
        while i < n
            invariant
                n == self.scripts@.len(),
            decreases n - i,
        {
            v.push(Task::new(self.scripts[i].clone()));
            i = i + 1;
        }
        v
    }

    open spec fn next_spec(&self, finished: usize) -> Option<usize> {
        None
    }

    fn next_of(&self, finished: usize) -> (r: Option<usize>) {
        None
    }
}

} // verus!
