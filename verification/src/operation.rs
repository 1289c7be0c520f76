use vstd::prelude::*;

use crate::failure::{result_of_failure, Failure, FailureModel};
use crate::result::{empty_result, merge, merge_seed, JobResult, ResultModel};
use crate::status::Status;
use crate::task::{
    opt_result_view, outcome_matches, Executable, InfoModel, Stage, TaskExec, TaskInfo,
};
use crate::uid::{fresh_uid, Uid};

verus! {

/// The extra capability an operation's hook state supplies: the type of its
/// children, the fan-out that builds the ordered child list, and the
/// optional "next child" extension point used when chaining execution
/// across a process boundary.
pub trait OperationExec: TaskExec {
    /// The type of this operation's children: anything executable — plain
    /// tasks, or operations again.
    type Child: Executable;

    /// Builds the ordered child list from the operation's own state.
    /// Nothing more is promised of the list than what an implementation
    /// states itself: freshly built children usually carry fresh
    /// identifiers.
    fn build_tasks(&self) -> (v: Vec<Self::Child>);

    /// The child (by position) that execution should continue with after
    /// the given child finished; `None` — the default — means the operation
    /// itself resumes.
    open spec fn next_spec(&self, finished: usize) -> Option<usize> {
        None
    }

    /// Looks the continuation child up; a concrete distributed scheduler
    /// supplies a real lookup, and the plain default is to return `None`.
    fn next_of(&self, finished: usize) -> (r: Option<usize>)
        ensures
            r == self.next_spec(finished),
    ;
}

/// The mathematical content of an [`Operation`]: its own task state plus
/// the models of its children, in list order.
#[verifier::ext_equal]
pub ghost struct OperationModel<H: OperationExec> {
    pub uuid: Uid,
    pub status: Status,
    pub result: ResultModel,
    pub hooks: H,
    pub tasks: Seq<<H::Child as Executable>::Model>,
}

/// The models of a list of children, in order.
pub open spec fn tasks_view<C: Executable>(tasks: Seq<C>) -> Seq<C::Model> {
    tasks.map_values(|c: C| c.model())
}

/// A task that owns and sequentially executes an ordered list of child
/// tasks, accumulating their results. The child list starts empty and is
/// meant to be populated once, by `build`, before any run.
pub struct Operation<H: OperationExec> {
    /// Identifier, assigned at construction.
    pub uuid: Uid,
    /// Lifecycle status.
    pub status: Status,
    /// The operation's own running accumulator.
    pub result: JobResult,
    /// The user-supplied hook state.
    pub hooks: H,
    /// The ordered child list.
    pub tasks: Vec<H::Child>,
}

impl<H: OperationExec> View for Operation<H> {
    type V = OperationModel<H>;

    open spec fn view(&self) -> OperationModel<H> {
        OperationModel {
            uuid: self.uuid,
            status: self.status,
            result: self.result@,
            hooks: self.hooks,
            tasks: tasks_view(self.tasks@),
        }
    }
}

/// The first failure that delegated parameter validation meets: each
/// child's parameter check runs in list order, and the first failure aborts
/// the walk.
pub open spec fn children_check_spec<C: Executable>(children: Seq<C::Model>) -> Option<
    FailureModel,
>
    decreases children.len(),
{
    if children.len() == 0 {
        None
    } else {
        match C::check_outcome(children[0]) {
            Ok(_) => children_check_spec::<C>(children.drop_first()),
            Err(f) => Some(f),
        }
    }
}

/// The exact outcome of running a child list in order, starting from an
/// accumulator: a child already `Success` is skipped and only its stored
/// result is merged; any other child runs one unchecked execution seeded
/// with the accumulator so far; the first failure aborts the walk and the
/// children after it keep their state.
pub open spec fn run_children_spec<C: Executable>(
    children: Seq<C::Model>,
    acc: ResultModel,
) -> (Seq<C::Model>, Result<ResultModel, FailureModel>)
    decreases children.len(),
{
    if children.len() == 0 {
        (children, Ok(acc))
    } else {
        let c0 = children[0];
        if C::model_status(c0) == Status::Success {
            let rest = run_children_spec::<C>(
                children.drop_first(),
                merge(acc, C::model_result(c0)),
            );
            (seq![c0] + rest.0, rest.1)
        } else {
            let stepped = C::run_outcome(c0, Some(acc));
            match stepped.1 {
                Ok(acc2) => {
                    let rest = run_children_spec::<C>(children.drop_first(), acc2);
                    (seq![stepped.0] + rest.0, rest.1)
                },
                Err(f) => (seq![stepped.0] + children.drop_first(), Err(f)),
            }
        }
    }
}

/// The outcome of folding every child's finalize hook into an accumulator,
/// in list order; the first failure aborts the fold.
pub open spec fn finalize_fold_spec<C: Executable>(
    children: Seq<C::Model>,
    acc: ResultModel,
) -> Result<ResultModel, FailureModel>
    decreases children.len(),
{
    if children.len() == 0 {
        Ok(acc)
    } else {
        match C::finalize_outcome(children[0]) {
            Ok(o) => finalize_fold_spec::<C>(children.drop_first(), merge(acc, o)),
            Err(f) => Err(f),
        }
    }
}

/// The exact outcome of one unchecked execution of an operation. The
/// pipeline is the task pipeline with two stages rebound: parameter
/// validation delegates to the children, and the run stage executes the
/// children in order, starting from a fresh result, merging what the walk
/// returns into the accumulator.
pub open spec fn op_unchecked_spec<H: OperationExec>(
    pre: OperationModel<H>,
    seed: Option<ResultModel>,
) -> (OperationModel<H>, Result<ResultModel, FailureModel>) {
    let a0 = merge_seed(pre.result, seed);
    let fresh = empty_result(pre.uuid);
    match children_check_spec::<H::Child>(pre.tasks) {
        Some(f) => (OperationModel { result: a0, ..pre }, Err(f)),
        None => match pre.hooks.hook_out(Stage::PostInit, fresh) {
            Err(f) => (OperationModel { result: a0, ..pre }, Err(f)),
            Ok(o2) => {
                let a2 = merge(a0, o2);
                match pre.hooks.hook_out(Stage::PreRun, fresh) {
                    Err(f) => (OperationModel { result: a2, ..pre }, Err(f)),
                    Ok(o3) => {
                        let a3 = merge(a2, o3);
                        let walk = run_children_spec::<H::Child>(pre.tasks, fresh);
                        match walk.1 {
                            Err(f) => (
                                OperationModel {
                                    status: Status::Running,
                                    result: a3,
                                    tasks: walk.0,
                                    ..pre
                                },
                                Err(f),
                            ),
                            Ok(out4) => {
                                let a4 = merge(a3, out4);
                                match pre.hooks.hook_out(Stage::PostRun, fresh) {
                                    Err(f) => (
                                        OperationModel {
                                            status: Status::Running,
                                            result: a4,
                                            tasks: walk.0,
                                            ..pre
                                        },
                                        Err(f),
                                    ),
                                    Ok(o5) => {
                                        let a5 = merge(a4, o5);
                                        match pre.hooks.hook_out(Stage::OnSuccess, fresh) {
                                            Err(f) => (
                                                OperationModel {
                                                    status: Status::Success,
                                                    result: a5,
                                                    tasks: walk.0,
                                                    ..pre
                                                },
                                                Err(f),
                                            ),
                                            Ok(o6) => {
                                                let a6 = merge(a5, o6);
                                                (
                                                    OperationModel {
                                                        status: Status::Success,
                                                        result: a6,
                                                        tasks: walk.0,
                                                        ..pre
                                                    },
                                                    Ok(a6),
                                                )
                                            },
                                        }
                                    },
                                }
                            },
                        }
                    },
                }
            },
        },
    }
}

/// The state an operation reaches when a pipeline failure is recorded:
/// exactly as for a task.
pub open spec fn op_failed_spec<H: OperationExec>(
    mid: OperationModel<H>,
    f: FailureModel,
) -> OperationModel<H> {
    let recorded = OperationModel {
        status: Status::Failed,
        result: merge(mid.result, result_of_failure(f)),
        ..mid
    };
    match mid.hooks.on_error_out(f, empty_result(mid.uuid)) {
        Ok(o) => OperationModel { result: merge(recorded.result, o), ..recorded },
        Err(_) => recorded,
    }
}

/// The exact state an operation reaches after a full execution, failure
/// handling included.
pub open spec fn op_execute_spec<H: OperationExec>(
    pre: OperationModel<H>,
    seed: Option<ResultModel>,
) -> OperationModel<H> {
    let mid = op_unchecked_spec(pre, seed).0;
    match op_unchecked_spec(pre, seed).1 {
        Ok(_) => mid,
        Err(f) => op_failed_spec(mid, f),
    }
}

impl<H: OperationExec> Operation<H> {
    /// A fresh operation around the given hook state: a new identifier,
    /// status `Pending`, an empty result, and no children yet.
    pub fn new(hooks: H) -> (op: Operation<H>)
        ensures
            op@.status == Status::Pending,
            op@.result == empty_result(op@.uuid),
            op@.hooks == hooks,
            op@.tasks == Seq::<<H::Child as Executable>::Model>::empty(),
    {
        let uuid = fresh_uid();
        let op = Operation {
            uuid,
            status: Status::Pending,
            result: JobResult::new(uuid),
            hooks,
            tasks: Vec::new(),
        };
        proof {
            assert(op@.tasks =~= Seq::<<H::Child as Executable>::Model>::empty());
        }
        op
    }

    /// Sets the status and returns a copy of the current result.
    pub fn set_status(&mut self, status: Status) -> (r: JobResult)
        ensures
            final(self)@ == (OperationModel { status, ..old(self)@ }),
            r@ == old(self)@.result,
    {
        self.status = status;
        self.result.clone()
    }

    /// Merges an optional incoming result into the operation's own result
    /// and returns it; the hand-off point used when chaining across a
    /// boundary does nothing more by default.
    pub fn send(&mut self, seed: Option<JobResult>) -> (r: Result<JobResult, Failure>)
        ensures
            final(self)@ == (OperationModel {
                result: merge_seed(old(self)@.result, opt_result_view(seed)),
                ..old(self)@
            }),
            r matches Ok(out) && out@ == final(self)@.result,
    {
        if let Some(data) = seed {
            self.result = self.result.merged(&data);
        }
        Ok(self.result.clone())
    }

    /// Delegates parameter validation to each child in list order, failing
    /// on the first child whose check fails; on success it returns a copy
    /// of the operation's own result.
    pub fn check_required_params(&self) -> (r: Result<JobResult, Failure>)
        ensures
            match children_check_spec::<H::Child>(self@.tasks) {
                None => r matches Ok(out) && out@ == self@.result,
                Some(f) => r matches Err(e) && e@ == f,
            },
    {
        let ghost models = self@.tasks;
        let n = self.tasks.len();
        let mut i: usize = 0;
        proof {
            assert(models.skip(0) =~= models);
        }
        while i < n
            invariant
                n == self.tasks@.len(),
                models == tasks_view(self.tasks@),
                i <= n,
                children_check_spec::<H::Child>(models) == children_check_spec::<H::Child>(
                    models.skip(i as int),
                ),
            decreases n - i,
        {
            proof {
                assert(models.skip(i as int)[0] == models[i as int]);
                assert(models.skip(i as int).drop_first() =~= models.skip(i + 1));
            }
            match self.tasks[i].check_params() {
                Ok(_) => {},
                Err(f) => {
                    return Err(f);
                },
            }
            i = i + 1;
        }
        proof {
            assert(models.skip(n as int) =~= Seq::<<H::Child as Executable>::Model>::empty());
        }
        Ok(self.result.clone())
    }

    /// Runs the children in list order, starting from the given
    /// accumulator: children already `Success` are skipped with their
    /// stored result merged, every other child runs one unchecked
    /// execution seeded with the accumulator so far, and the first failure
    /// aborts the walk.
    fn run_children(&mut self, acc: &JobResult) -> (r: Result<JobResult, Failure>)
        ensures
            final(self)@.uuid == old(self)@.uuid,
            final(self)@.status == old(self)@.status,
            final(self)@.result == old(self)@.result,
            final(self)@.hooks == old(self)@.hooks,
            final(self)@.tasks == run_children_spec::<H::Child>(old(self)@.tasks, acc@).0,
            outcome_matches(r, run_children_spec::<H::Child>(old(self)@.tasks, acc@).1),
    {
        let ghost t0 = self@.tasks;
        let ghost acc0 = acc@;
        let mut cursor = acc.clone();
        let n = self.tasks.len();
        let mut i: usize = 0;
        proof {
            assert(t0.skip(0) =~= t0);
            assert(tasks_view(self.tasks@).take(0) =~= Seq::<
                <H::Child as Executable>::Model,
            >::empty());
            assert(Seq::<<H::Child as Executable>::Model>::empty() + run_children_spec::<
                H::Child,
            >(t0, acc0).0 =~= run_children_spec::<H::Child>(t0, acc0).0);
        }
        while i < n
            invariant
                n == self.tasks@.len(),
                t0 == old(self)@.tasks,
                acc0 == acc@,
                t0.len() == n,
                i <= n,
                self@.uuid == old(self)@.uuid,
                self@.status == old(self)@.status,
                self@.result == old(self)@.result,
                self@.hooks == old(self)@.hooks,
                tasks_view(self.tasks@).skip(i as int) =~= t0.skip(i as int),
                run_children_spec::<H::Child>(t0, acc0).0 =~= tasks_view(self.tasks@).take(
                    i as int,
                ) + run_children_spec::<H::Child>(t0.skip(i as int), cursor@).0,
                run_children_spec::<H::Child>(t0, acc0).1 == run_children_spec::<H::Child>(
                    t0.skip(i as int),
                    cursor@,
                ).1,
            decreases n - i,
        {
            let ghost cur = tasks_view(self.tasks@);
            let ghost rem = t0.skip(i as int);
            let ghost acc_pre = cursor@;
            proof {
                assert(rem[0] == cur[i as int]);
                assert(rem.drop_first() =~= t0.skip(i + 1));
            }
            if self.tasks[i].current_status() == Status::Success {
                let stored = self.tasks[i].current_result();
                cursor = cursor.merged(&stored);
                proof {
                    assert(tasks_view(self.tasks@).take(i + 1) =~= tasks_view(
                        self.tasks@,
                    ).take(i as int).push(cur[i as int]));
                    assert(run_children_spec::<H::Child>(t0, acc0).0 =~= tasks_view(
                        self.tasks@,
                    ).take(i + 1) + run_children_spec::<H::Child>(t0.skip(i + 1), cursor@).0);
                }
            } else {
                let step = self.tasks[i].unsafe_execute(Some(cursor));
                let ghost stepped = <H::Child as Executable>::run_outcome(rem[0], Some(acc_pre));
                proof {
                    assert(tasks_view(self.tasks@)[i as int] == stepped.0);
                    assert(tasks_view(self.tasks@).take(i as int) =~= cur.take(i as int));
                    assert(tasks_view(self.tasks@).skip(i + 1) =~= t0.skip(i + 1));
                }
                match step {
                    Ok(out) => {
                        cursor = out;
                        proof {
                            assert(tasks_view(self.tasks@).take(i + 1) =~= cur.take(
                                i as int,
                            ).push(stepped.0));
                            assert(run_children_spec::<H::Child>(rem, acc_pre).0
                                =~= seq![stepped.0] + run_children_spec::<H::Child>(
                                t0.skip(i + 1),
                                cursor@,
                            ).0);
                            assert(run_children_spec::<H::Child>(t0, acc0).0 =~= tasks_view(
                                self.tasks@,
                            ).take(i + 1) + run_children_spec::<H::Child>(
                                t0.skip(i + 1),
                                cursor@,
                            ).0);
                        }
                    },
                    Err(f) => {
                        proof {
                            assert(run_children_spec::<H::Child>(rem, acc_pre).0
                                =~= seq![stepped.0] + t0.skip(i + 1));
                            assert(run_children_spec::<H::Child>(t0, acc0).0 =~= cur.take(
                                i as int,
                            ) + (seq![stepped.0] + t0.skip(i + 1)));
                            assert(run_children_spec::<H::Child>(t0, acc0).0 =~= tasks_view(
                                self.tasks@,
                            ));
                        }
                        return Err(f);
                    },
                }
            }
            i = i + 1;
        }
        proof {
            assert(t0.skip(n as int) =~= Seq::<<H::Child as Executable>::Model>::empty());
            assert(tasks_view(self.tasks@).take(n as int) =~= tasks_view(self.tasks@));
            assert(run_children_spec::<H::Child>(t0, acc0).0 =~= tasks_view(self.tasks@));
        }
        Ok(cursor)
    }

    /// Runs the operation pipeline without failure handling: the caller
    /// sees the first failure, and the operation keeps the partial results
    /// and child states reached up to it.
    pub fn unsafe_execute(&mut self, seed: Option<JobResult>) -> (r: Result<JobResult, Failure>)
        ensures
            final(self)@ == op_unchecked_spec(old(self)@, opt_result_view(seed)).0,
            outcome_matches(r, op_unchecked_spec(old(self)@, opt_result_view(seed)).1),
    {
        if let Some(data) = seed {
            self.result = self.result.merged(&data);
        }
        match self.check_required_params() {
            Ok(_) => {},
            Err(f) => { return Err(f) },
        }
        match self.hooks.hook(Stage::PostInit, JobResult::new(self.uuid)) {
            Ok(out) => { self.result = self.result.merged(&out); },
            Err(f) => { return Err(f) },
        }
        match self.hooks.hook(Stage::PreRun, JobResult::new(self.uuid)) {
            Ok(out) => { self.result = self.result.merged(&out); },
            Err(f) => { return Err(f) },
        }
        self.status = Status::Running;
        let fresh = JobResult::new(self.uuid);
        match self.run_children(&fresh) {
            Ok(out) => { self.result = self.result.merged(&out); },
            Err(f) => { return Err(f) },
        }
        match self.hooks.hook(Stage::PostRun, JobResult::new(self.uuid)) {
            Ok(out) => { self.result = self.result.merged(&out); },
            Err(f) => { return Err(f) },
        }
        self.status = Status::Success;
        match self.hooks.hook(Stage::OnSuccess, JobResult::new(self.uuid)) {
            Ok(out) => { self.result = self.result.merged(&out); },
            Err(f) => { return Err(f) },
        }
        Ok(self.result.clone())
    }

    /// The single public entry point: runs the pipeline over the children
    /// and never fails. Any failure is converted into the result, the
    /// status ends as `Failed`, and the returned value is always the
    /// operation's stored result.
    pub fn execute(&mut self, seed: Option<JobResult>) -> (r: JobResult)
        ensures
            final(self)@ == op_execute_spec(old(self)@, opt_result_view(seed)),
            r@ == final(self)@.result,
            final(self)@.status == Status::Success || final(self)@.status == Status::Failed,
    {
        match self.unsafe_execute(seed) {
            Ok(r) => r,
            Err(f) => {
                self.status = Status::Failed;
                let converted = JobResult::from_failure(&f);
                self.result = self.result.merged(&converted);
                match self.hooks.on_error(&f, JobResult::new(self.uuid)) {
                    Ok(out) => { self.result = self.result.merged(&out); },
                    Err(_) => {},
                }
                self.result.clone()
            },
        }
    }

    /// Folds every child's finalize output into the operation's current
    /// result, in list order, failing on the first child whose finalize
    /// hook fails. The operation itself is left unchanged.
    pub fn finalize(&self) -> (r: Result<JobResult, Failure>)
        ensures
            outcome_matches(r, finalize_fold_spec::<H::Child>(self@.tasks, self@.result)),
    {
        let ghost models = self@.tasks;
        let mut acc = self.result.clone();
        let n = self.tasks.len();
        let mut i: usize = 0;
        proof {
            assert(models.skip(0) =~= models);
        }
        while i < n
            invariant
                n == self.tasks@.len(),
                models == tasks_view(self.tasks@),
                i <= n,
                finalize_fold_spec::<H::Child>(models, self@.result) == finalize_fold_spec::<
                    H::Child,
                >(models.skip(i as int), acc@),
            decreases n - i,
        {
            proof {
                assert(models.skip(i as int)[0] == models[i as int]);
                assert(models.skip(i as int).drop_first() =~= models.skip(i + 1));
            }
            match self.tasks[i].finalize() {
                Ok(out) => { acc = acc.merged(&out); },
                Err(f) => { return Err(f) },
            }
            i = i + 1;
        }
        proof {
            assert(models.skip(n as int) =~= Seq::<<H::Child as Executable>::Model>::empty());
        }
        Ok(acc)
    }

    /// Builds the child list: runs the pre-build hook and merges its
    /// output, installs what `build_tasks` returns, then folds every
    /// child's finalize output into the operation's result and returns the
    /// fold, without storing it.
    pub fn build(&mut self) -> (r: Result<JobResult, Failure>)
        ensures
            (old(self)@.hooks.hook_out(Stage::PreBuild, empty_result(old(self)@.uuid)) matches Err(
                f,
            ) ==> final(self)@ == old(self)@ && (r matches Err(e) && e@ == f)),
            (old(self)@.hooks.hook_out(Stage::PreBuild, empty_result(old(self)@.uuid)) matches Ok(o)
                ==> {
                &&& final(self)@.uuid == old(self)@.uuid
                &&& final(self)@.status == old(self)@.status
                &&& final(self)@.hooks == old(self)@.hooks
                &&& final(self)@.result == merge(old(self)@.result, o)
                &&& outcome_matches(
                    r,
                    finalize_fold_spec::<H::Child>(final(self)@.tasks, final(self)@.result),
                )
            }),
    {
        match self.hooks.hook(Stage::PreBuild, JobResult::new(self.uuid)) {
            Ok(out) => { self.result = self.result.merged(&out); },
            Err(f) => {
                proof {
                    assert(self@ =~= old(self)@);
                }
                return Err(f);
            },
        }
        let built = self.hooks.build_tasks();
        self.tasks = built;
        self.finalize()
    }

    /// Hands execution over with no just-finished child: the first child
    /// absorbs the seed when the list is not empty; an empty operation
    /// records a dedicated "nothing to do" note on its own result.
    pub fn launch(&mut self, seed: Option<JobResult>) -> (r: Result<JobResult, Failure>)
        ensures
            final(self)@ == launch_next_spec(old(self)@, None, opt_result_view(seed)).0,
            r matches Ok(out) && out@ == launch_next_spec(
                old(self)@,
                None,
                opt_result_view(seed),
            ).1,
    {
        self.launch_next(None, seed)
    }

    /// Hands execution over after a just-finished child, given by its
    /// position. When the continuation extension point names a next child,
    /// that child absorbs the seed; when it does not, the operation merges
    /// the seed into its own result and adopts the finished child's status.
    /// With no finished child the first child absorbs the seed, and an
    /// empty operation records a dedicated "nothing to do" note.
    pub fn launch_next(&mut self, finished: Option<usize>, seed: Option<JobResult>) -> (r: Result<
        JobResult,
        Failure,
    >)
        requires
            match finished {
                Some(i) => i < old(self)@.tasks.len() && match old(self)@.hooks.next_spec(i) {
                    Some(j) => j < old(self)@.tasks.len(),
                    None => true,
                },
                None => true,
            },
        ensures
            final(self)@ == launch_next_spec(old(self)@, finished, opt_result_view(seed)).0,
            r matches Ok(out) && out@ == launch_next_spec(
                old(self)@,
                finished,
                opt_result_view(seed),
            ).1,
    {
        let ghost pre = self@;
        match finished {
            Some(i) => match self.hooks.next_of(i) {
                Some(j) => {
                    let r = self.tasks[j].send(seed);
                    proof {
                        assert(tasks_view(self.tasks@) =~= pre.tasks.update(
                            j as int,
                            tasks_view(self.tasks@)[j as int],
                        ));
                        assert(self@ =~= launch_next_spec(
                            pre,
                            finished,
                            opt_result_view(seed),
                        ).0);
                    }
                    r
                },
                None => {
                    if let Some(data) = seed {
                        self.result = self.result.merged(&data);
                    }
                    let adopted = self.tasks[i].current_status();
                    self.status = adopted;
                    proof {
                        assert(self@ =~= launch_next_spec(
                            pre,
                            finished,
                            opt_result_view(seed),
                        ).0);
                    }
                    Ok(self.result.clone())
                },
            },
            None => {
                if self.tasks.len() > 0 {
                    let r = self.tasks[0].send(seed);
                    proof {
                        assert(tasks_view(self.tasks@) =~= pre.tasks.update(
                            0,
                            tasks_view(self.tasks@)[0],
                        ));
                        assert(self@ =~= launch_next_spec(pre, None, opt_result_view(seed)).0);
                    }
                    r
                } else {
                    self.result.stderr = Some("Nothing to do, empty operation !".to_owned());
                    proof {
                        assert(self@ =~= launch_next_spec(pre, None, opt_result_view(seed)).0);
                    }
                    Ok(self.result.clone())
                }
            },
        }
    }
}

/// The exact outcome of handing execution over after a finished child: the
/// new operation state paired with the result that the call returns.
pub open spec fn launch_next_spec<H: OperationExec>(
    pre: OperationModel<H>,
    finished: Option<usize>,
    seed: Option<ResultModel>,
) -> (OperationModel<H>, ResultModel) {
    match finished {
        Some(i) => match pre.hooks.next_spec(i) {
            Some(j) => {
                let child2 = <H::Child as Executable>::sent_model(pre.tasks[j as int], seed);
                (
                    OperationModel { tasks: pre.tasks.update(j as int, child2), ..pre },
                    <H::Child as Executable>::model_result(child2),
                )
            },
            None => {
                let merged_res = merge_seed(pre.result, seed);
                (
                    OperationModel {
                        result: merged_res,
                        status: <H::Child as Executable>::model_status(pre.tasks[i as int]),
                        ..pre
                    },
                    merged_res,
                )
            },
        },
        None => {
            if pre.tasks.len() > 0 {
                let child2 = <H::Child as Executable>::sent_model(pre.tasks[0], seed);
                (
                    OperationModel { tasks: pre.tasks.update(0, child2), ..pre },
                    <H::Child as Executable>::model_result(child2),
                )
            } else {
                let noted = ResultModel {
                    stderr: Some("Nothing to do, empty operation !"@),
                    ..pre.result
                };
                (OperationModel { result: noted, ..pre }, noted)
            }
        },
    }
}

impl<H: OperationExec> TaskInfo for Operation<H> {
    open spec fn info(&self) -> InfoModel {
        InfoModel { uuid: self.uuid, status: self.status, result: self.result@ }
    }

    fn uuid(&self) -> (u: Uid) {
        self.uuid
    }

    fn status(&self) -> (s: Status) {
        self.status
    }

    fn result(&self) -> (r: JobResult) {
        self.result.clone()
    }
}

impl<H: OperationExec> Executable for Operation<H> {
    type Model = OperationModel<H>;

    open spec fn model(&self) -> OperationModel<H> {
        self@
    }

    open spec fn model_status(m: OperationModel<H>) -> Status {
        m.status
    }

    open spec fn model_result(m: OperationModel<H>) -> ResultModel {
        m.result
    }

    open spec fn check_outcome(m: OperationModel<H>) -> Result<ResultModel, FailureModel> {
        match children_check_spec::<H::Child>(m.tasks) {
            None => Ok(m.result),
            Some(f) => Err(f),
        }
    }

    open spec fn finalize_outcome(m: OperationModel<H>) -> Result<ResultModel, FailureModel> {
        finalize_fold_spec::<H::Child>(m.tasks, m.result)
    }

    open spec fn sent_model(m: OperationModel<H>, seed: Option<ResultModel>) -> OperationModel<
        H,
    > {
        OperationModel { result: merge_seed(m.result, seed), ..m }
    }

    open spec fn run_outcome(m: OperationModel<H>, seed: Option<ResultModel>) -> (
        OperationModel<H>,
        Result<ResultModel, FailureModel>,
    ) {
        op_unchecked_spec(m, seed)
    }

    fn current_status(&self) -> (s: Status) {
        self.status
    }

    fn current_result(&self) -> (r: JobResult) {
        self.result.clone()
    }

    fn check_params(&self) -> (r: Result<JobResult, Failure>) {
        Operation::check_required_params(self)
    }

    fn finalize(&self) -> (r: Result<JobResult, Failure>) {
        Operation::finalize(self)
    }

    fn send(&mut self, seed: Option<JobResult>) -> (r: Result<JobResult, Failure>) {
        Operation::send(self, seed)
    }

    fn unsafe_execute(&mut self, seed: Option<JobResult>) -> (r: Result<JobResult, Failure>) {
        Operation::unsafe_execute(self, seed)
    }
}

/// Read access to an operation's child list, shared by everything that
/// owns ordered children.
pub trait OperationInfo: TaskInfo {
    /// The type of the children.
    type Child: Executable;

    /// The models of the children, in list order.
    spec fn children(&self) -> Seq<<Self::Child as Executable>::Model>;

    /// The number of children.
    fn task_count(&self) -> (n: usize)
        ensures
            n == self.children().len(),
    ;

    /// The status of the child at a position.
    fn task_status(&self, i: usize) -> (s: Status)
        requires
            i < self.children().len(),
        ensures
            s == <Self::Child as Executable>::model_status(self.children()[i as int]),
    ;
}

impl<H: OperationExec> OperationInfo for Operation<H> {
    type Child = H::Child;

    open spec fn children(&self) -> Seq<<H::Child as Executable>::Model> {
        tasks_view(self.tasks@)
    }

    fn task_count(&self) -> (n: usize) {
        self.tasks.len()
    }

    fn task_status(&self, i: usize) -> (s: Status) {
        self.tasks[i].current_status()
    }
}

/// The child walk keeps the number of children.
pub proof fn lemma_run_children_len<C: Executable>(children: Seq<C::Model>, acc: ResultModel)
    ensures
        run_children_spec::<C>(children, acc).0.len() == children.len(),
    decreases children.len(),
{
    if children.len() > 0 {
        if C::model_status(children[0]) == Status::Success {
            lemma_run_children_len::<C>(
                children.drop_first(),
                merge(acc, C::model_result(children[0])),
            );
        } else {
            let stepped = C::run_outcome(children[0], Some(acc));
            match stepped.1 {
                Ok(acc2) => {
                    lemma_run_children_len::<C>(children.drop_first(), acc2);
                },
                Err(_) => {},
            }
        }
    }
}

/// Resumability: a leading child already `Success` is never re-executed.
/// The walk leaves it exactly as stored, merges only its stored result
/// into the accumulator, and goes on with the remaining children alone.
pub proof fn lemma_run_children_skips_success<C: Executable>(
    children: Seq<C::Model>,
    acc: ResultModel,
)
    requires
        children.len() > 0,
        C::model_status(children[0]) == Status::Success,
    ensures
        run_children_spec::<C>(children, acc).0[0] == children[0],
        run_children_spec::<C>(children, acc).0 == seq![children[0]] + run_children_spec::<C>(
            children.drop_first(),
            merge(acc, C::model_result(children[0])),
        ).0,
        run_children_spec::<C>(children, acc).1 == run_children_spec::<C>(
            children.drop_first(),
            merge(acc, C::model_result(children[0])),
        ).1,
{
    let rest = run_children_spec::<C>(
        children.drop_first(),
        merge(acc, C::model_result(children[0])),
    );
    assert((seq![children[0]] + rest.0)[0] == children[0]);
}

/// Resumability at every position: a child already `Success` when the walk
/// starts is left exactly as stored — re-running an operation re-executes
/// only the children that have not succeeded yet.
pub proof fn lemma_run_children_success_untouched<C: Executable>(
    children: Seq<C::Model>,
    acc: ResultModel,
    i: int,
)
    requires
        0 <= i < children.len(),
        C::model_status(children[i]) == Status::Success,
    ensures
        run_children_spec::<C>(children, acc).0.len() == children.len(),
        run_children_spec::<C>(children, acc).0[i] == children[i],
    decreases children.len(),
{
    lemma_run_children_len::<C>(children, acc);
    if i == 0 {
        let acc2 = merge(acc, C::model_result(children[0]));
        assert((seq![children[0]] + run_children_spec::<C>(children.drop_first(), acc2).0)[0]
            == children[0]);
    } else {
        if C::model_status(children[0]) == Status::Success {
            let acc2 = merge(acc, C::model_result(children[0]));
            lemma_run_children_success_untouched::<C>(children.drop_first(), acc2, i - 1);
            assert(children.drop_first()[i - 1] == children[i]);
            assert(run_children_spec::<C>(children, acc).0[i] == run_children_spec::<C>(
                children.drop_first(),
                acc2,
            ).0[i - 1]);
        } else {
            let stepped = C::run_outcome(children[0], Some(acc));
            match stepped.1 {
                Ok(acc2) => {
                    lemma_run_children_success_untouched::<C>(children.drop_first(), acc2, i - 1);
                    assert(children.drop_first()[i - 1] == children[i]);
                    assert(run_children_spec::<C>(children, acc).0[i] == run_children_spec::<C>(
                        children.drop_first(),
                        acc2,
                    ).0[i - 1]);
                },
                Err(_) => {
                    assert(children.drop_first()[i - 1] == children[i]);
                    assert(run_children_spec::<C>(children, acc).0[i] == children.drop_first()[i
                        - 1]);
                },
            }
        }
    }
}

/// Fail-fast: when the child walk fails, some child that was not already
/// `Success` is the failing one, and every child after it is left exactly
/// as it was — nothing past the failure executes.
pub proof fn lemma_run_children_fail_fast<C: Executable>(children: Seq<C::Model>, acc: ResultModel)
    requires
        run_children_spec::<C>(children, acc).1 is Err,
    ensures
        exists|i: int|
            0 <= i < children.len() && C::model_status(children[i]) != Status::Success
                && #[trigger] run_children_spec::<C>(children, acc).0.skip(i + 1) == children.skip(
                i + 1,
            ),
    decreases children.len(),
{
    let out = run_children_spec::<C>(children, acc);
    if C::model_status(children[0]) == Status::Success {
        let acc2 = merge(acc, C::model_result(children[0]));
        let rest = run_children_spec::<C>(children.drop_first(), acc2);
        lemma_run_children_fail_fast::<C>(children.drop_first(), acc2);
        lemma_run_children_len::<C>(children.drop_first(), acc2);
        let i0 = choose|i: int|
            0 <= i < children.drop_first().len() && C::model_status(children.drop_first()[i])
                != Status::Success && #[trigger] rest.0.skip(i + 1) == children.drop_first().skip(
                i + 1,
            );
        let w = i0 + 1;
        assert(children[w] == children.drop_first()[i0]);
        assert(out.0.skip(w + 1) =~= rest.0.skip(i0 + 1));
        assert(children.skip(w + 1) =~= children.drop_first().skip(i0 + 1));
        assert(0 <= w < children.len() && C::model_status(children[w]) != Status::Success
            && run_children_spec::<C>(children, acc).0.skip(w + 1) == children.skip(w + 1));
    } else {
        let stepped = C::run_outcome(children[0], Some(acc));
        match stepped.1 {
            Ok(acc2) => {
                let rest = run_children_spec::<C>(children.drop_first(), acc2);
                lemma_run_children_fail_fast::<C>(children.drop_first(), acc2);
                lemma_run_children_len::<C>(children.drop_first(), acc2);
                let i0 = choose|i: int|
                    0 <= i < children.drop_first().len() && C::model_status(
                        children.drop_first()[i],
                    ) != Status::Success && #[trigger] rest.0.skip(i + 1)
                        == children.drop_first().skip(i + 1);
                let w = i0 + 1;
                assert(children[w] == children.drop_first()[i0]);
                assert(out.0.skip(w + 1) =~= rest.0.skip(i0 + 1));
                assert(children.skip(w + 1) =~= children.drop_first().skip(i0 + 1));
                assert(0 <= w < children.len() && C::model_status(children[w]) != Status::Success
                    && run_children_spec::<C>(children, acc).0.skip(w + 1) == children.skip(
                    w + 1,
                ));
            },
            Err(_) => {
                let w: int = 0;
                assert(out.0.skip(w + 1) =~= children.drop_first());
                assert(children.skip(w + 1) =~= children.drop_first());
                assert(0 <= w < children.len() && C::model_status(children[w]) != Status::Success
                    && run_children_spec::<C>(children, acc).0.skip(w + 1) == children.skip(
                    w + 1,
                ));
            },
        }
    }
}

/// An operation whose child walk fails ends `Failed` after a full
/// execution, its child list is exactly what the walk left, and the
/// children after the failing one are untouched.
pub proof fn lemma_operation_fail_fast<H: OperationExec>(
    pre: OperationModel<H>,
    seed: Option<ResultModel>,
)
    requires
        children_check_spec::<H::Child>(pre.tasks) is None,
        pre.hooks.hook_out(Stage::PostInit, empty_result(pre.uuid)) is Ok,
        pre.hooks.hook_out(Stage::PreRun, empty_result(pre.uuid)) is Ok,
        run_children_spec::<H::Child>(pre.tasks, empty_result(pre.uuid)).1 is Err,
    ensures
        op_execute_spec(pre, seed).status == Status::Failed,
        op_execute_spec(pre, seed).tasks == run_children_spec::<H::Child>(
            pre.tasks,
            empty_result(pre.uuid),
        ).0,
        exists|i: int|
            0 <= i < pre.tasks.len() && <H::Child as Executable>::model_status(pre.tasks[i])
                != Status::Success && #[trigger] op_execute_spec(pre, seed).tasks.skip(i + 1)
                == pre.tasks.skip(i + 1),
{
    let fresh = empty_result(pre.uuid);
    lemma_run_children_fail_fast::<H::Child>(pre.tasks, fresh);
    let i0 = choose|i: int|
        0 <= i < pre.tasks.len() && <H::Child as Executable>::model_status(pre.tasks[i])
            != Status::Success && #[trigger] run_children_spec::<H::Child>(pre.tasks, fresh).0.skip(
            i + 1,
        ) == pre.tasks.skip(i + 1);
    assert(0 <= i0 < pre.tasks.len() && <H::Child as Executable>::model_status(pre.tasks[i0])
        != Status::Success && op_execute_spec(pre, seed).tasks.skip(i0 + 1) == pre.tasks.skip(
        i0 + 1,
    ));
}

/// An operation whose children all succeed — and whose own hooks and
/// delegated validation succeed too — ends `Success`.
pub proof fn lemma_op_execute_ok_success<H: OperationExec>(
    pre: OperationModel<H>,
    seed: Option<ResultModel>,
)
    requires
        op_unchecked_spec(pre, seed).1 is Ok,
    ensures
        op_execute_spec(pre, seed).status == Status::Success,
{
}

} // verus!
