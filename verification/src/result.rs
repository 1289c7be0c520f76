use vstd::prelude::*;

use crate::uid::Uid;
use crate::values::{RetVal, ValueMap};

verus! {

/// The mathematical content of a [`JobResult`]: the identifier, the return
/// code, the two optional output texts and the return value mapping.
#[verifier::ext_equal]
pub ghost struct ResultModel {
    pub uuid: Uid,
    pub retcode: u16,
    pub stdout: Option<Seq<char>>,
    pub stderr: Option<Seq<char>>,
    pub retval: Map<Seq<char>, RetVal>,
}

/// Whether a return code denotes an error: HTTP-style codes from 300 up do,
/// and so does the traditional Unix exit code 1; `0` and `2..=299` do not.
pub open spec fn is_error_code(retcode: u16) -> bool {
    retcode == 1 || retcode >= 300
}

/// The empty result carrying a given identifier: return code 0, no output
/// texts, no return values.
pub open spec fn empty_result(uuid: Uid) -> ResultModel {
    ResultModel {
        uuid,
        retcode: 0,
        stdout: None,
        stderr: None,
        retval: Map::empty(),
    }
}

/// The right-biased combination of two results:
/// - the right result's identifier wins,
/// - the return code is the larger of the two,
/// - each output text is the right one if present, else the left one,
/// - the return value maps are joined; on keys present in both, the right
///   value wins.
pub open spec fn merge(a: ResultModel, b: ResultModel) -> ResultModel {
    ResultModel {
        uuid: b.uuid,
        retcode: if a.retcode > b.retcode {
            a.retcode
        } else {
            b.retcode
        },
        stdout: if b.stdout is Some {
            b.stdout
        } else {
            a.stdout
        },
        stderr: if b.stderr is Some {
            b.stderr
        } else {
            a.stderr
        },
        retval: a.retval.union_prefer_right(b.retval),
    }
}

/// An optional seed merged into a base result; no seed leaves the base.
pub open spec fn merge_seed(base: ResultModel, seed: Option<ResultModel>) -> ResultModel {
    match seed {
        Some(s) => merge(base, s),
        None => base,
    }
}

/// The structured record of a unit of work's outcome.
#[derive(Debug)]
pub struct JobResult {
    /// Identifier correlating the result to its originating task.
    pub uuid: Uid,
    /// Return code: 0 by default; 1 and codes from 300 up denote errors.
    pub retcode: u16,
    /// Optional human-readable success payload.
    pub stdout: Option<String>,
    /// Optional human-readable failure payload.
    pub stderr: Option<String>,
    /// Return values keyed by name.
    pub retval: ValueMap,
}

impl View for JobResult {
    type V = ResultModel;

    open spec fn view(&self) -> ResultModel {
        ResultModel {
            uuid: self.uuid,
            retcode: self.retcode,
            stdout: match self.stdout {
                Some(s) => Some(s@),
                None => None,
            },
            stderr: match self.stderr {
                Some(s) => Some(s@),
                None => None,
            },
            retval: self.retval@,
        }
    }
}

impl JobResult {
    /// The empty result carrying the given identifier.
    pub fn new(uuid: Uid) -> (r: JobResult)
        ensures
            r@ == empty_result(uuid),
    {
        let r = JobResult {
            uuid,
            retcode: 0,
            stdout: None,
            stderr: None,
            retval: ValueMap::new(),
        };
        proof {
            assert(r@ =~= empty_result(uuid));
        }
        r
    }

    /// Whether this result represents an error state: true exactly when the
    /// return code is 1 or at least 300.
    pub fn is_error(&self) -> (b: bool)
        ensures
            b == is_error_code(self@.retcode),
    {
        self.retcode >= 300 || self.retcode == 1
    }

    /// The right-biased combination of this result with another; the right
    /// operand stands for the more recent outcome.
    pub fn merged(&self, other: &JobResult) -> (r: JobResult)
        ensures
            r@ == merge(self@, other@),
    {
        let r = JobResult {
            uuid: other.uuid,
            retcode: if self.retcode > other.retcode {
                self.retcode
            } else {
                other.retcode
            },
            stdout: match &other.stdout {
                Some(s) => Some(s.clone()),
                None => match &self.stdout {
                    Some(s) => Some(s.clone()),
                    None => None,
                },
            },
            stderr: match &other.stderr {
                Some(s) => Some(s.clone()),
                None => match &self.stderr {
                    Some(s) => Some(s.clone()),
                    None => None,
                },
            },
            retval: self.retval.merged(&other.retval),
        };
        proof {
            assert(r@ =~= merge(self@, other@));
        }
        r
    }
}

impl Clone for JobResult {
    /// Cloning keeps the whole record.
    fn clone(&self) -> (r: Self)
        ensures
            r@ == self@,
    {
        let r = JobResult {
            uuid: self.uuid,
            retcode: self.retcode,
            stdout: match &self.stdout {
                Some(s) => Some(s.clone()),
                None => None,
            },
            stderr: match &self.stderr {
                Some(s) => Some(s.clone()),
                None => None,
            },
            retval: self.retval.clone(),
        };
        proof {
            assert(r@ =~= self@);
        }
        r
    }
}

impl Default for JobResult {
    /// The default result carries the all-zero identifier and is empty.
    fn default() -> (r: Self)
        ensures
            r@ == empty_result(Uid { value: 0 }),
    {
        JobResult::new(Uid { value: 0 })
    }
}

/// Merging is associative: folding a sequence of partial results may be
/// parenthesized freely as long as the order is kept.
pub proof fn lemma_merge_associative(a: ResultModel, b: ResultModel, c: ResultModel)
    ensures
        merge(merge(a, b), c) == merge(a, merge(b, c)),
{
    assert(merge(merge(a, b), c).retval =~= merge(a, merge(b, c)).retval);
    assert(merge(merge(a, b), c) =~= merge(a, merge(b, c)));
}

/// Merging is not commutative: whenever the two results carry different
/// identifiers, or both carry an output text and the texts differ, the two
/// orders of merging disagree.
pub proof fn lemma_merge_not_commutative(a: ResultModel, b: ResultModel)
    requires
        a.uuid != b.uuid || (a.stdout is Some && b.stdout is Some && a.stdout != b.stdout) || (
        a.stderr is Some && b.stderr is Some && a.stderr != b.stderr),
    ensures
        merge(a, b) != merge(b, a),
{
}

/// On the return value map the merge is right-biased per key: a key held by
/// the right result takes the right value, a key held only by the left
/// result keeps the left value, and no other key appears.
pub proof fn lemma_merge_retval_right_bias(a: ResultModel, b: ResultModel, k: Seq<char>)
    ensures
        b.retval.contains_key(k) ==> merge(a, b).retval[k] == b.retval[k],
        a.retval.contains_key(k) && !b.retval.contains_key(k) ==> merge(a, b).retval[k]
            == a.retval[k],
        merge(a, b).retval.contains_key(k) <==> a.retval.contains_key(k)
            || b.retval.contains_key(k),
{
}

} // verus!
