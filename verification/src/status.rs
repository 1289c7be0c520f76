use vstd::prelude::*;

use crate::values::RetVal;

verus! {

/// The four-state lifecycle marker of a task or operation.
///
/// Transition legality is enforced by the execution pipeline, not by the
/// status itself: this is a plain value type.
#[derive(Clone, Copy, PartialEq, Eq, Structural, Debug)]
pub enum Status {
    /// The work has not started yet (the default).
    Pending,
    /// The work is currently executing.
    Running,
    /// The work completed successfully.
    Success,
    /// The work encountered an error and did not complete.
    Failed,
}

/// The uppercase string token that a status serializes to.
pub open spec fn status_token(s: Status) -> Seq<char> {
    match s {
        Status::Pending => "PENDING"@,
        Status::Running => "RUNNING"@,
        Status::Success => "SUCCESS"@,
        Status::Failed => "FAILED"@,
    }
}

/// The status that a string token decodes to. Unrecognized tokens decode to
/// `Pending`: decoding is lenient and never an error.
pub open spec fn status_of_token(t: Seq<char>) -> Status {
    if t == "RUNNING"@ {
        Status::Running
    } else if t == "SUCCESS"@ {
        Status::Success
    } else if t == "FAILED"@ {
        Status::Failed
    } else {
        Status::Pending
    }
}

/// The status that a tagged value decodes to: only text values carry a
/// status token; anything else decodes to `Pending`.
pub open spec fn status_of_value(v: RetVal) -> Status {
    match v {
        RetVal::Text(s) => status_of_token(s@),
        _ => Status::Pending,
    }
}

impl Status {
    /// The uppercase string representation of this status.
    pub fn token(&self) -> (s: String)
        ensures
            s@ == status_token(*self),
    {
        match self {
            Status::Pending => "PENDING".to_owned(),
            Status::Running => "RUNNING".to_owned(),
            Status::Success => "SUCCESS".to_owned(),
            Status::Failed => "FAILED".to_owned(),
        }
    }

    /// Decodes an uppercase token; unrecognized tokens give `Pending`.
    pub fn from_token(t: &str) -> (s: Status)
        ensures
            s == status_of_token(t@),
    {
        let owned = t.to_owned();
        if owned == "RUNNING".to_owned() {
            Status::Running
        } else if owned == "SUCCESS".to_owned() {
            Status::Success
        } else if owned == "FAILED".to_owned() {
            Status::Failed
        } else {
            Status::Pending
        }
    }

    /// Decodes a tagged value; non-text or unrecognized values give `Pending`.
    pub fn from_value(v: &RetVal) -> (s: Status)
        ensures
            s == status_of_value(*v),
    {
        match v {
            RetVal::Text(data) => Self::from_token(data.as_str()),
            _ => Status::Pending,
        }
    }

    /// The tagged value that this status serializes to.
    pub fn to_value(&self) -> (v: RetVal)
        ensures
            (v matches RetVal::Text(s) && s@ == status_token(*self)),
    {
        RetVal::Text(self.token())
    }
}

impl Default for Status {
    /// A fresh status is `Pending`.
    fn default() -> (s: Self)
        ensures
            s == Status::Pending,
    {
        Status::Pending
    }
}

} // verus!
