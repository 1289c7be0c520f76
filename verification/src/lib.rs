//! A unit-of-work execution framework: tasks and composite operations run
//! through a fixed lifecycle of hooks, track their execution status, and
//! accumulate a structured, mergeable result record.

pub mod failure;
pub mod hello;
pub mod hooks;
pub mod labels;
pub mod messages;
pub mod result;
pub mod operation;
pub mod status;
pub mod task;
pub mod uid;
pub mod values;

pub use failure::Failure;
pub use hello::{Hello, HelloParams};
pub use hooks::{DefaultHooks, ScriptGroup, ScriptHooks};
pub use messages::{Message, MessageBuilder};
pub use operation::{Operation, OperationExec, OperationInfo};
pub use result::JobResult;
pub use status::Status;
pub use task::{Executable, Stage, Task, TaskExec, TaskInfo};
pub use uid::Uid;
pub use values::{RetVal, ValueMap};
