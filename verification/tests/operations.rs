use cdumay_job::{
    Failure, JobResult, Operation, OperationExec, OperationInfo, ScriptGroup, ScriptHooks, Stage,
    Status, Task, TaskExec, TaskInfo,
};

struct GroupOfGroups;

impl TaskExec for GroupOfGroups {
    fn hook(&self, _stage: Stage, input: JobResult) -> Result<JobResult, Failure> {
        Ok(input)
    }

    fn on_error(&self, _failure: &Failure, input: JobResult) -> Result<JobResult, Failure> {
        Ok(input)
    }
}

impl OperationExec for GroupOfGroups {
    type Child = Operation<ScriptGroup>;

    fn build_tasks(&self) -> Vec<Operation<ScriptGroup>> {
        Vec::new()
    }

    fn next_of(&self, _finished: usize) -> Option<usize> {
        None
    }
}

fn empty_group() -> Operation<ScriptGroup> {
    Operation::new(ScriptGroup { scripts: Vec::new() })
}

#[test]
fn children_run_in_order_and_outputs_accumulate() {
    let mut op = empty_group();
    op.tasks.push(Task::new(ScriptHooks::saying("one".to_string())));
    op.tasks.push(Task::new(ScriptHooks::saying("two".to_string())));
    let result = op.execute(None);
    assert_eq!(op.status, Status::Success);
    assert!(!result.is_error());
    assert_eq!(result.stdout.unwrap(), "two");
    assert_eq!(op.tasks[0].status, Status::Success);
    assert_eq!(op.tasks[1].status, Status::Success);
    assert_eq!(op.tasks[0].result.stdout.as_deref(), Some("one"));
}

#[test]
fn successful_children_are_skipped_but_their_result_is_merged() {
    let mut op = empty_group();
    let mut first = Task::new(ScriptHooks::saying("never spoken".to_string()));
    first.status = Status::Success;
    first.result.stdout = Some("stored".to_string());
    op.tasks.push(first);
    op.tasks.push(Task::new(ScriptHooks::quiet()));
    op.tasks.push(Task::new(ScriptHooks::quiet()));

    let result = op.execute(None);
    assert_eq!(op.status, Status::Success);
    assert_eq!(op.tasks[0].result.stdout.as_deref(), Some("stored"));
    assert_eq!(op.tasks[1].status, Status::Success);
    assert_eq!(op.tasks[2].status, Status::Success);
    assert_eq!(result.stdout.unwrap(), "stored");
}

#[test]
fn a_failing_child_aborts_the_remaining_children() {
    let mut op = empty_group();
    op.tasks.push(Task::new(ScriptHooks::saying("one".to_string())));
    op.tasks.push(Task::new(ScriptHooks::failing(Failure::new(500, "boom".to_string()))));
    op.tasks.push(Task::new(ScriptHooks::saying("three".to_string())));

    let result = op.execute(None);
    assert_eq!(op.status, Status::Failed);
    assert!(result.is_error());
    assert_eq!(result.retcode, 500);
    assert_eq!(result.stderr.unwrap(), "boom");
    assert_eq!(op.tasks[0].status, Status::Success);
    assert_eq!(op.tasks[1].status, Status::Running);
    assert_eq!(op.tasks[2].status, Status::Pending);
    assert!(op.tasks[2].result.stdout.is_none());
}

#[test]
fn operations_nest_as_children_of_operations() {
    let mut inner_one = Operation::new(ScriptGroup {
        scripts: vec![ScriptHooks::saying("one".to_string())],
    });
    inner_one.build().unwrap();
    let mut inner_two = Operation::new(ScriptGroup {
        scripts: vec![ScriptHooks::saying("two".to_string())],
    });
    inner_two.build().unwrap();

    let mut outer: Operation<GroupOfGroups> = Operation::new(GroupOfGroups);
    outer.tasks.push(inner_one);
    outer.tasks.push(inner_two);

    let result = outer.execute(None);
    assert_eq!(outer.status, Status::Success);
    assert_eq!(result.stdout.unwrap(), "two");
    assert_eq!(outer.tasks[0].status, Status::Success);
    assert_eq!(outer.tasks[1].status, Status::Success);
    assert_eq!(outer.tasks[0].result.stdout.as_deref(), Some("one"));
}

#[test]
fn build_installs_one_child_per_script() {
    let mut op = Operation::new(ScriptGroup {
        scripts: vec![ScriptHooks::saying("hi".to_string()), ScriptHooks::quiet()],
    });
    let folded = op.build().unwrap();
    assert_eq!(op.task_count(), 2);
    assert_eq!(op.tasks.len(), 2);
    assert_eq!(op.tasks[0].status, Status::Pending);
    assert!(!folded.is_error());
}

#[test]
fn an_operation_reports_its_identity_and_children() {
    let mut op = empty_group();
    op.tasks.push(Task::new(ScriptHooks::quiet()));
    assert_eq!(op.uuid(), op.uuid);
    assert_eq!(op.status(), Status::Pending);
    assert_eq!(op.task_count(), 1);
    assert_eq!(op.task_status(0), Status::Pending);
}

#[test]
fn launching_an_empty_operation_reports_nothing_to_do() {
    let mut op = empty_group();
    let r = op.launch(None).unwrap();
    assert!(!r.is_error());
    assert_eq!(r.stderr.unwrap(), "Nothing to do, empty operation !");
}

#[test]
fn launching_forwards_the_seed_to_the_first_child() {
    let mut op = empty_group();
    op.tasks.push(Task::new(ScriptHooks::quiet()));
    let mut seed = cdumay_job::JobResult::new(op.uuid);
    seed.stdout = Some("carried".to_string());
    let r = op.launch(Some(seed)).unwrap();
    assert_eq!(r.stdout.unwrap(), "carried");
    assert_eq!(op.tasks[0].result.stdout.as_deref(), Some("carried"));
}

#[test]
fn without_a_continuation_the_operation_adopts_the_childs_status() {
    let mut op = empty_group();
    let mut child = Task::new(ScriptHooks::quiet());
    child.status = Status::Success;
    op.tasks.push(child);
    let r = op.launch_next(Some(0), None).unwrap();
    assert_eq!(op.status, Status::Success);
    assert!(!r.is_error());
}

#[test]
fn delegated_validation_passes_for_plain_children() {
    let mut op = empty_group();
    op.tasks.push(Task::new(ScriptHooks::quiet()));
    op.tasks.push(Task::new(ScriptHooks::quiet()));
    let r = op.check_required_params().unwrap();
    assert!(!r.is_error());
}
