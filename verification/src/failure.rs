use vstd::prelude::*;

use crate::result::{JobResult, ResultModel};
use crate::uid::Uid;
use crate::values::ValueMap;

verus! {

/// The mathematical content of a [`Failure`]: its numeric code, its message
/// and its detail mapping.
#[verifier::ext_equal]
pub ghost struct FailureModel {
    pub code: u16,
    pub message: Seq<char>,
    pub details: Map<Seq<char>, crate::values::RetVal>,
}

/// The single opaque failure kind a hook can raise: a numeric code, a
/// human-readable message, and a key-value detail mapping.
#[derive(Debug)]
pub struct Failure {
    /// Numeric failure code; it becomes the return code of the converted
    /// result.
    pub code: u16,
    /// Human-readable message; it becomes the converted result's stderr.
    pub message: String,
    /// Detail mapping; it becomes the converted result's return value map.
    pub details: ValueMap,
}

impl View for Failure {
    type V = FailureModel;

    open spec fn view(&self) -> FailureModel {
        FailureModel { code: self.code, message: self.message@, details: self.details@ }
    }
}

/// The result a failure object converts to: the failure's code as return
/// code, its message as stderr, its details as return values, and the
/// all-zero identifier, since a failure is not tied to any one task. The
/// conversion is total: it has no error case of its own.
pub open spec fn result_of_failure(f: FailureModel) -> ResultModel {
    ResultModel {
        uuid: Uid { value: 0 },
        retcode: f.code,
        stdout: None,
        stderr: Some(f.message),
        retval: f.details,
    }
}

impl Failure {
    /// A failure with the given code and message and no details.
    pub fn new(code: u16, message: String) -> (f: Failure)
        ensures
            f@.code == code,
            f@.message == message@,
            f@.details == Map::<Seq<char>, crate::values::RetVal>::empty(),
    {
        Failure { code, message, details: ValueMap::new() }
    }
}

impl Clone for Failure {
    /// Cloning keeps the code, the message and the details.
    fn clone(&self) -> (f: Self)
        ensures
            f@ == self@,
    {
        let f = Failure {
            code: self.code,
            message: self.message.clone(),
            details: self.details.clone(),
        };
        proof {
            assert(f@ =~= self@);
        }
        f
    }
}

impl JobResult {
    /// The result that a failure converts to.
    pub fn from_failure(f: &Failure) -> (r: JobResult)
        ensures
            r@ == result_of_failure(f@),
    {
        let r = JobResult {
            uuid: Uid { value: 0 },
            retcode: f.code,
            stdout: None,
            stderr: Some(f.message.clone()),
            retval: f.details.clone(),
        };
        proof {
            assert(r@ =~= result_of_failure(f@));
        }
        r
    }
}

} // verus!
