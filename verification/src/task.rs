use vstd::prelude::*;

use crate::failure::{result_of_failure, Failure, FailureModel};
use crate::result::{empty_result, is_error_code, merge, merge_seed, JobResult, ResultModel};
use crate::status::Status;
use crate::uid::{fresh_uid, Uid};
use crate::values::RetVal;

verus! {

/// The fixed points of the execution pipeline at which a user hook runs.
#[derive(Clone, Copy, PartialEq, Eq, Structural, Debug)]
pub enum Stage {
    /// Validation of required parameters, before anything else runs.
    CheckRequiredParams,
    /// After validation passed.
    PostInit,
    /// Immediately before the run hook.
    PreRun,
    /// The user's own work; the status is `Running` while it executes.
    Run,
    /// After the run hook returned.
    PostRun,
    /// After the status was set to `Success`.
    OnSuccess,
    /// Before an operation builds its child list.
    PreBuild,
    /// When a task reacts to being attached to an operation; this hook
    /// receives the task's current result instead of a fresh one.
    Finalize,
}

/// Whether an executable hook outcome carries exactly the outcome that the
/// hook's specification promises.
pub open spec fn outcome_matches(
    r: Result<JobResult, Failure>,
    m: Result<ResultModel, FailureModel>,
) -> bool {
    match (r, m) {
        (Ok(out), Ok(spec_out)) => out@ == spec_out,
        (Err(f), Err(spec_f)) => f@ == spec_f,
        _ => false,
    }
}

/// The capability a unit of work supplies to the execution pipeline: a hook
/// for each stage, and an error hook. Hooks only read their own state (the
/// task's parameters and metadata live there); the pipeline alone owns the
/// task's identity, status and accumulated result. Each hook's outcome is
/// pinned by a specification function of the same state, so that the
/// pipeline's behaviour is an exact function of the hook set.
pub trait TaskExec: Sized {
    /// The outcome the stage hook returns for a given input result; unless
    /// an implementation says otherwise, hooks return their input unchanged.
    open spec fn hook_out(&self, stage: Stage, input: ResultModel) -> Result<
        ResultModel,
        FailureModel,
    > {
        Ok(input)
    }

    /// The outcome the error hook returns for a given failure and input;
    /// unless an implementation says otherwise, it returns its input
    /// unchanged.
    open spec fn on_error_out(&self, failure: FailureModel, input: ResultModel) -> Result<
        ResultModel,
        FailureModel,
    > {
        Ok(input)
    }

    /// Runs the hook of one stage on an input result; a hook may extend the
    /// input, replace it, or fail.
    fn hook(&self, stage: Stage, input: JobResult) -> (r: Result<JobResult, Failure>)
        ensures
            outcome_matches(r, self.hook_out(stage, input@)),
    ;

    /// Runs the error hook; it fires after a pipeline failure was recorded,
    /// and its own failure is swallowed by the pipeline.
    fn on_error(&self, failure: &Failure, input: JobResult) -> (r: Result<JobResult, Failure>)
        ensures
            outcome_matches(r, self.on_error_out(failure@, input@)),
    ;
}

/// The mathematical content of a [`Task`]: identity, status, accumulated
/// result, and the hook state.
#[verifier::ext_equal]
pub ghost struct TaskModel<H> {
    pub uuid: Uid,
    pub status: Status,
    pub result: ResultModel,
    pub hooks: H,
}

/// The identity, status and result of a task-like entity, as one record.
#[verifier::ext_equal]
pub ghost struct InfoModel {
    pub uuid: Uid,
    pub status: Status,
    pub result: ResultModel,
}

/// Read access shared by tasks and operations: identity, status, the stored
/// result, and lookups into it.
pub trait TaskInfo: Sized {
    /// The identity, status and stored result of this entity.
    spec fn info(&self) -> InfoModel;

    /// The entity's identifier.
    fn uuid(&self) -> (u: Uid)
        ensures
            u == self.info().uuid,
    ;

    /// The current status.
    fn status(&self) -> (s: Status)
        ensures
            s == self.info().status,
    ;

    /// A copy of the stored result.
    fn result(&self) -> (r: JobResult)
        ensures
            r@ == self.info().result,
    ;

    /// A fresh empty result carrying this entity's identifier.
    fn new_result(&self) -> (r: JobResult)
        ensures
            r@ == empty_result(self.info().uuid),
    {
        JobResult::new(self.uuid())
    }

    /// Looks a key up in the stored result's return value map.
    fn search_result(&self, key: &str) -> (v: Option<RetVal>)
        ensures
            match v {
                Some(x) => self.info().result.retval.contains_key(key@) && x
                    == self.info().result.retval[key@],
                None => !self.info().result.retval.contains_key(key@),
            },
    {
        let r = self.result();
        match r.retval.get(key) {
            Some(x) => Some(x.clone()),
            None => None,
        }
    }
}

/// A single unit of work: an identifier assigned once at construction, a
/// status, an accumulated result, and the user-supplied hook state.
pub struct Task<H> {
    /// Identifier, assigned at construction and never changed by the
    /// pipeline.
    pub uuid: Uid,
    /// Lifecycle status.
    pub status: Status,
    /// The task's own running accumulator.
    pub result: JobResult,
    /// The user-supplied hook state: parameters, metadata, behaviour.
    pub hooks: H,
}

impl<H> View for Task<H> {
    type V = TaskModel<H>;

    open spec fn view(&self) -> TaskModel<H> {
        TaskModel {
            uuid: self.uuid,
            status: self.status,
            result: self.result@,
            hooks: self.hooks,
        }
    }
}

/// The outcome of the hook of one pipeline stage, which always receives a
/// fresh empty result carrying the task's identifier.
pub open spec fn stage_outcome<H: TaskExec>(h: H, uuid: Uid, stage: Stage) -> Result<
    ResultModel,
    FailureModel,
> {
    h.hook_out(stage, empty_result(uuid))
}

/// The exact outcome of one unchecked execution: the final task state paired
/// with what the call returns. The stages run in the fixed order
/// `CheckRequiredParams`, `PostInit`, `PreRun`, `Run`, `PostRun`,
/// `OnSuccess`; each stage's partial result is merged into the accumulator
/// at once, the status becomes `Running` when the run stage is entered and
/// `Success` when the post-run stage completed, and the first failing stage
/// short-circuits the rest.
pub open spec fn unchecked_spec<H: TaskExec>(pre: TaskModel<H>, seed: Option<ResultModel>) -> (
    TaskModel<H>,
    Result<ResultModel, FailureModel>,
) {
    let a0 = merge_seed(pre.result, seed);
    match stage_outcome(pre.hooks, pre.uuid, Stage::CheckRequiredParams) {
        Err(f) => (TaskModel { result: a0, ..pre }, Err(f)),
        Ok(o1) => {
            let a1 = merge(a0, o1);
            match stage_outcome(pre.hooks, pre.uuid, Stage::PostInit) {
                Err(f) => (TaskModel { result: a1, ..pre }, Err(f)),
                Ok(o2) => {
                    let a2 = merge(a1, o2);
                    match stage_outcome(pre.hooks, pre.uuid, Stage::PreRun) {
                        Err(f) => (TaskModel { result: a2, ..pre }, Err(f)),
                        Ok(o3) => {
                            let a3 = merge(a2, o3);
                            match stage_outcome(pre.hooks, pre.uuid, Stage::Run) {
                                Err(f) => (
                                    TaskModel { status: Status::Running, result: a3, ..pre },
                                    Err(f),
                                ),
                                Ok(o4) => {
                                    let a4 = merge(a3, o4);
                                    match stage_outcome(pre.hooks, pre.uuid, Stage::PostRun) {
                                        Err(f) => (
                                            TaskModel {
                                                status: Status::Running,
                                                result: a4,
                                                ..pre
                                            },
                                            Err(f),
                                        ),
                                        Ok(o5) => {
                                            let a5 = merge(a4, o5);
                                            match stage_outcome(
                                                pre.hooks,
                                                pre.uuid,
                                                Stage::OnSuccess,
                                            ) {
                                                Err(f) => (
                                                    TaskModel {
                                                        status: Status::Success,
                                                        result: a5,
                                                        ..pre
                                                    },
                                                    Err(f),
                                                ),
                                                Ok(o6) => {
                                                    let a6 = merge(a5, o6);
                                                    (
                                                        TaskModel {
                                                            status: Status::Success,
                                                            result: a6,
                                                            ..pre
                                                        },
                                                        Ok(a6),
                                                    )
                                                },
                                            }
                                        },
                                    }
                                },
                            }
                        },
                    }
                },
            }
        },
    }
}

/// The state a task reaches when a pipeline failure is recorded: the status
/// becomes `Failed`, the converted failure is merged into the stored result,
/// and the error hook's own outcome is merged if it succeeds and swallowed
/// if it fails.
pub open spec fn failed_spec<H: TaskExec>(mid: TaskModel<H>, f: FailureModel) -> TaskModel<H> {
    let recorded = TaskModel {
        status: Status::Failed,
        result: merge(mid.result, result_of_failure(f)),
        ..mid
    };
    match mid.hooks.on_error_out(f, empty_result(mid.uuid)) {
        Ok(o) => TaskModel { result: merge(recorded.result, o), ..recorded },
        Err(_) => recorded,
    }
}

/// The exact state a task reaches after a full execution, failure handling
/// included.
pub open spec fn execute_spec<H: TaskExec>(pre: TaskModel<H>, seed: Option<ResultModel>) -> TaskModel<
    H,
> {
    let mid = unchecked_spec(pre, seed).0;
    match unchecked_spec(pre, seed).1 {
        Ok(_) => mid,
        Err(f) => failed_spec(mid, f),
    }
}

/// The view of an optional seed result.
pub open spec fn opt_result_view(seed: Option<JobResult>) -> Option<ResultModel> {
    match seed {
        Some(r) => Some(r@),
        None => None,
    }
}

impl<H: TaskExec> Task<H> {
    /// A fresh task around the given hook state: a new identifier, status
    /// `Pending`, and an empty result carrying that identifier.
    pub fn new(hooks: H) -> (t: Task<H>)
        ensures
            t@.status == Status::Pending,
            t@.result == empty_result(t@.uuid),
            t@.hooks == hooks,
    {
        let uuid = fresh_uid();
        Task { uuid, status: Status::Pending, result: JobResult::new(uuid), hooks }
    }

    /// Sets the status and returns a copy of the current result.
    pub fn set_status(&mut self, status: Status) -> (r: JobResult)
        ensures
            final(self)@ == (TaskModel { status, ..old(self)@ }),
            r@ == old(self)@.result,
    {
        self.status = status;
        self.result.clone()
    }

    /// Runs the hook pipeline without failure handling: the caller sees the
    /// first failure, and the task keeps the partial results accumulated up
    /// to it.
    pub fn unsafe_execute(&mut self, seed: Option<JobResult>) -> (r: Result<JobResult, Failure>)
        ensures
            final(self)@ == unchecked_spec(old(self)@, opt_result_view(seed)).0,
            outcome_matches(r, unchecked_spec(old(self)@, opt_result_view(seed)).1),
    {
        if let Some(data) = seed {
            self.result = self.result.merged(&data);
        }
        match self.hooks.hook(Stage::CheckRequiredParams, JobResult::new(self.uuid)) {
            Ok(out) => { self.result = self.result.merged(&out); },
            Err(f) => { return Err(f) },
        }
        match self.hooks.hook(Stage::PostInit, JobResult::new(self.uuid)) {
            Ok(out) => { self.result = self.result.merged(&out); },
            Err(f) => { return Err(f) },
        }
        match self.hooks.hook(Stage::PreRun, JobResult::new(self.uuid)) {
            Ok(out) => { self.result = self.result.merged(&out); },
            Err(f) => { return Err(f) },
        }
        self.status = Status::Running;
        match self.hooks.hook(Stage::Run, JobResult::new(self.uuid)) {
            Ok(out) => { self.result = self.result.merged(&out); },
            Err(f) => { return Err(f) },
        }
        match self.hooks.hook(Stage::PostRun, JobResult::new(self.uuid)) {
            Ok(out) => { self.result = self.result.merged(&out); },
            Err(f) => { return Err(f) },
        }
        self.status = Status::Success;
        match self.hooks.hook(Stage::OnSuccess, JobResult::new(self.uuid)) {
            Ok(out) => { self.result = self.result.merged(&out); },
            Err(f) => { return Err(f) },
        }
        Ok(self.result.clone())
    }

    /// The single public entry point: runs the pipeline and never fails.
    /// Any hook failure is converted into the result, the status ends as
    /// `Failed`, and the returned value is always the task's stored result.
    pub fn execute(&mut self, seed: Option<JobResult>) -> (r: JobResult)
        ensures
            final(self)@ == execute_spec(old(self)@, opt_result_view(seed)),
            r@ == final(self)@.result,
            final(self)@.status == Status::Success || final(self)@.status == Status::Failed,
    {
        match self.unsafe_execute(seed) {
            Ok(r) => r,
            Err(f) => {
                self.status = Status::Failed;
                let converted = JobResult::from_failure(&f);
                self.result = self.result.merged(&converted);
                match self.hooks.on_error(&f, JobResult::new(self.uuid)) {
                    Ok(out) => { self.result = self.result.merged(&out); },
                    Err(_) => {},
                }
                self.result.clone()
            },
        }
    }

    /// Merges an optional incoming result into the task's own result and
    /// returns it; the hand-off point used when chaining tasks across a
    /// boundary does nothing more by default.
    pub fn send(&mut self, seed: Option<JobResult>) -> (r: Result<JobResult, Failure>)
        ensures
            final(self)@ == (TaskModel {
                result: merge_seed(old(self)@.result, opt_result_view(seed)),
                ..old(self)@
            }),
            r matches Ok(out) && out@ == final(self)@.result,
    {
        if let Some(data) = seed {
            self.result = self.result.merged(&data);
        }
        Ok(self.result.clone())
    }

    /// Gives the task a chance to react to being attached to an operation:
    /// runs the finalize hook on the current result; the default hook set
    /// returns the current result unchanged.
    pub fn finalize(&self) -> (r: Result<JobResult, Failure>)
        ensures
            outcome_matches(r, self@.hooks.hook_out(Stage::Finalize, self@.result)),
    {
        self.hooks.hook(Stage::Finalize, self.result.clone())
    }
}

impl<H: TaskExec> TaskInfo for Task<H> {
    open spec fn info(&self) -> InfoModel {
        InfoModel { uuid: self.uuid, status: self.status, result: self.result@ }
    }

    fn uuid(&self) -> (u: Uid) {
        self.uuid
    }

    fn status(&self) -> (s: Status) {
        self.status
    }

    fn result(&self) -> (r: JobResult) {
        self.result.clone()
    }
}

/// Whether the hook of a stage succeeds with a partial result whose return
/// code is not an error code.
pub open spec fn stage_ok_no_error<H: TaskExec>(h: H, uuid: Uid, stage: Stage) -> bool {
    match stage_outcome(h, uuid, stage) {
        Ok(o) => !is_error_code(o.retcode),
        Err(_) => false,
    }
}

/// A task whose hooks all return without error ends with status `Success`;
/// and if no hook injects an error return code, nor the stored result or
/// the seed carries one, the final result is no error either.
pub proof fn lemma_execute_success<H: TaskExec>(pre: TaskModel<H>, seed: Option<ResultModel>)
    requires
        !is_error_code(pre.result.retcode),
        (seed matches Some(s) ==> !is_error_code(s.retcode)),
        stage_ok_no_error(pre.hooks, pre.uuid, Stage::CheckRequiredParams),
        stage_ok_no_error(pre.hooks, pre.uuid, Stage::PostInit),
        stage_ok_no_error(pre.hooks, pre.uuid, Stage::PreRun),
        stage_ok_no_error(pre.hooks, pre.uuid, Stage::Run),
        stage_ok_no_error(pre.hooks, pre.uuid, Stage::PostRun),
        stage_ok_no_error(pre.hooks, pre.uuid, Stage::OnSuccess),
    ensures
        execute_spec(pre, seed).status == Status::Success,
        !is_error_code(execute_spec(pre, seed).result.retcode),
{
}

/// An unchecked execution that succeeds always leaves the task `Success`
/// after full execution, whatever the hooks returned.
pub proof fn lemma_execute_ok_success<H: TaskExec>(pre: TaskModel<H>, seed: Option<ResultModel>)
    requires
        unchecked_spec(pre, seed).1 is Ok,
    ensures
        execute_spec(pre, seed).status == Status::Success,
{
}

/// A failed unchecked execution always leaves the task `Failed` after full
/// execution, whatever the hooks returned.
pub proof fn lemma_execute_err_failed<H: TaskExec>(pre: TaskModel<H>, seed: Option<ResultModel>)
    requires
        unchecked_spec(pre, seed).1 is Err,
    ensures
        execute_spec(pre, seed).status == Status::Failed,
{
}

/// A task whose run hook fails ends `Failed`, with the failure's message as
/// stderr, and — when the failure's code is an error code at least as large
/// as every return code accumulated before it — with a result that reports
/// an error. The error hook is assumed not to overwrite stderr or to raise
/// the return code, which holds of the default hook set.
pub proof fn lemma_run_failure<H: TaskExec>(
    pre: TaskModel<H>,
    seed: Option<ResultModel>,
    f: FailureModel,
)
    requires
        stage_outcome(pre.hooks, pre.uuid, Stage::CheckRequiredParams) is Ok,
        stage_outcome(pre.hooks, pre.uuid, Stage::PostInit) is Ok,
        stage_outcome(pre.hooks, pre.uuid, Stage::PreRun) is Ok,
        stage_outcome(pre.hooks, pre.uuid, Stage::Run) == Result::<
            ResultModel,
            FailureModel,
        >::Err(f),
        is_error_code(f.code),
        unchecked_spec(pre, seed).0.result.retcode <= f.code,
        match pre.hooks.on_error_out(f, empty_result(pre.uuid)) {
            Ok(o) => o.stderr is None && o.retcode <= f.code,
            Err(_) => true,
        },
    ensures
        execute_spec(pre, seed).status == Status::Failed,
        execute_spec(pre, seed).result.stderr == Some(f.message),
        is_error_code(execute_spec(pre, seed).result.retcode),
{
}

/// The capability an operation requires of each child in its ordered list:
/// a status, a stored result, a parameter check, a finalize hook, a
/// hand-off, and one unchecked execution — each outcome pinned by a
/// specification function over an abstract model of the child's state.
/// Tasks satisfy it, and so do operations themselves, which is what lets an
/// operation stand in another operation's child list.
pub trait Executable: Sized {
    /// The mathematical state of this entity.
    type Model;

    /// The model of the current state.
    spec fn model(&self) -> Self::Model;

    /// The status a model carries.
    spec fn model_status(m: Self::Model) -> Status;

    /// The stored result a model carries.
    spec fn model_result(m: Self::Model) -> ResultModel;

    /// The outcome of the parameter-check hook in a given state.
    spec fn check_outcome(m: Self::Model) -> Result<ResultModel, FailureModel>;

    /// The outcome of the finalize hook in a given state.
    spec fn finalize_outcome(m: Self::Model) -> Result<ResultModel, FailureModel>;

    /// The state reached when `send` absorbs an optional incoming result.
    spec fn sent_model(m: Self::Model, seed: Option<ResultModel>) -> Self::Model;

    /// The exact outcome of one unchecked execution from a given state:
    /// the state reached, paired with what the call returns.
    spec fn run_outcome(m: Self::Model, seed: Option<ResultModel>) -> (
        Self::Model,
        Result<ResultModel, FailureModel>,
    );

    /// The current status.
    fn current_status(&self) -> (s: Status)
        ensures
            s == Self::model_status(self.model()),
    ;

    /// A copy of the stored result.
    fn current_result(&self) -> (r: JobResult)
        ensures
            r@ == Self::model_result(self.model()),
    ;

    /// Runs the parameter-check hook.
    fn check_params(&self) -> (r: Result<JobResult, Failure>)
        ensures
            outcome_matches(r, Self::check_outcome(self.model())),
    ;

    /// Runs the finalize hook on the current state.
    fn finalize(&self) -> (r: Result<JobResult, Failure>)
        ensures
            outcome_matches(r, Self::finalize_outcome(self.model())),
    ;

    /// Absorbs an optional incoming result and returns the stored result.
    fn send(&mut self, seed: Option<JobResult>) -> (r: Result<JobResult, Failure>)
        ensures
            final(self).model() == Self::sent_model(old(self).model(), opt_result_view(seed)),
            r matches Ok(out) && out@ == Self::model_result(final(self).model()),
    ;

    /// Runs one unchecked execution.
    fn unsafe_execute(&mut self, seed: Option<JobResult>) -> (r: Result<JobResult, Failure>)
        ensures
            final(self).model() == Self::run_outcome(old(self).model(), opt_result_view(seed)).0,
            outcome_matches(r, Self::run_outcome(old(self).model(), opt_result_view(seed)).1),
    ;
}

impl<H: TaskExec> Executable for Task<H> {
    type Model = TaskModel<H>;

    open spec fn model(&self) -> TaskModel<H> {
        self@
    }

    open spec fn model_status(m: TaskModel<H>) -> Status {
        m.status
    }

    open spec fn model_result(m: TaskModel<H>) -> ResultModel {
        m.result
    }

    open spec fn check_outcome(m: TaskModel<H>) -> Result<ResultModel, FailureModel> {
        stage_outcome(m.hooks, m.uuid, Stage::CheckRequiredParams)
    }

    open spec fn finalize_outcome(m: TaskModel<H>) -> Result<ResultModel, FailureModel> {
        m.hooks.hook_out(Stage::Finalize, m.result)
    }

    open spec fn sent_model(m: TaskModel<H>, seed: Option<ResultModel>) -> TaskModel<H> {
        TaskModel { result: merge_seed(m.result, seed), ..m }
    }

    open spec fn run_outcome(m: TaskModel<H>, seed: Option<ResultModel>) -> (
        TaskModel<H>,
        Result<ResultModel, FailureModel>,
    ) {
        unchecked_spec(m, seed)
    }

    fn current_status(&self) -> (s: Status) {
        self.status
    }

    fn current_result(&self) -> (r: JobResult) {
        self.result.clone()
    }

    fn check_params(&self) -> (r: Result<JobResult, Failure>) {
        self.hooks.hook(Stage::CheckRequiredParams, JobResult::new(self.uuid))
    }

    fn finalize(&self) -> (r: Result<JobResult, Failure>) {
        Task::finalize(self)
    }

    fn send(&mut self, seed: Option<JobResult>) -> (r: Result<JobResult, Failure>) {
        Task::send(self, seed)
    }

    fn unsafe_execute(&mut self, seed: Option<JobResult>) -> (r: Result<JobResult, Failure>) {
        Task::unsafe_execute(self, seed)
    }
}

} // verus!
