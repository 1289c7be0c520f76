use vstd::prelude::*;

use crate::failure::{Failure, FailureModel};
use crate::result::{is_error_code, JobResult, ResultModel};
use crate::uid::{uuid_hyphenated, uuid_text, Uid};
use vstd::string::StringExecFns;

verus! {

/// The decimal digit character of a value below ten.
pub open spec fn digit_char(d: nat) -> char {
    if d == 0 {
        '0'
    } else if d == 1 {
        '1'
    } else if d == 2 {
        '2'
    } else if d == 3 {
        '3'
    } else if d == 4 {
        '4'
    } else if d == 5 {
        '5'
    } else if d == 6 {
        '6'
    } else if d == 7 {
        '7'
    } else if d == 8 {
        '8'
    } else {
        '9'
    }
}

/// The decimal text of a number, most significant digit first and without
/// leading zeros.
pub open spec fn dec_text(n: nat) -> Seq<char>
    decreases n,
{
    if n < 10 {
        seq![digit_char(n)]
    } else {
        dec_text(n / 10) + seq![digit_char(n % 10)]
    }
}

/// The one-character text of a decimal digit.
fn digit_str(d: u16) -> (s: String)
    requires
        d < 10,
    ensures
        s@ == seq![digit_char(d as nat)],
{
    let s = match d {
        0 => "0".to_owned(),
        1 => "1".to_owned(),
        2 => "2".to_owned(),
        3 => "3".to_owned(),
        4 => "4".to_owned(),
        5 => "5".to_owned(),
        6 => "6".to_owned(),
        7 => "7".to_owned(),
        8 => "8".to_owned(),
        _ => "9".to_owned(),
    };
    proof {
        reveal_strlit("0");
        reveal_strlit("1");
        reveal_strlit("2");
        reveal_strlit("3");
        reveal_strlit("4");
        reveal_strlit("5");
        reveal_strlit("6");
        reveal_strlit("7");
        reveal_strlit("8");
        reveal_strlit("9");
        assert(s@ =~= seq![digit_char(d as nat)]);
    }
    s
}

/// The decimal text of a 16-bit value.
pub fn u16_text(n: u16) -> (s: String)
    ensures
        s@ == dec_text(n as nat),
    decreases n,
{
    if n < 10 {
        digit_str(n)
    } else {
        let head = u16_text(n / 10);
        let tail = digit_str(n % 10);
        let s = head.concat(tail.as_str());
        proof {
            assert(s@ =~= dec_text(n as nat));
        }
        s
    }
}

/// The text of an optional output payload: `None`, or the text wrapped in
/// `Some("...")`.
pub open spec fn opt_payload_text(o: Option<Seq<char>>) -> Seq<char> {
    match o {
        Some(s) => "Some(\""@ + s + "\")"@,
        None => "None"@,
    }
}

/// The one-line description of a result: its error or success state, its
/// return code, and the output text that matters for that state.
pub open spec fn result_text(r: ResultModel) -> Seq<char> {
    if is_error_code(r.retcode) {
        "Err("@ + dec_text(r.retcode as nat) + ", stderr: "@ + opt_payload_text(r.stderr) + ")"@
    } else {
        "Ok("@ + dec_text(r.retcode as nat) + ", stdout: "@ + opt_payload_text(r.stdout) + ")"@
    }
}

/// The one-line description of a failure: its code and its message.
pub open spec fn failure_text(f: FailureModel) -> Seq<char> {
    "error "@ + dec_text(f.code as nat) + ": "@ + f.message
}

/// The text of an optional payload.
fn opt_payload_str(o: &Option<String>) -> (s: String)
    ensures
        s@ == opt_payload_text(match o {
            Some(t) => Some(t@),
            None => None,
        }),
{
    match o {
        Some(t) => {
            let mut s = "Some(\"".to_owned();
            s.append(t.as_str());
            s.append("\")");
            proof {
                assert(s@ =~= "Some(\""@ + t@ + "\")"@);
            }
            s
        },
        None => "None".to_owned(),
    }
}

impl JobResult {
    /// A short human-readable description of this result, for logs: the
    /// error or success state, the return code, and the relevant output.
    pub fn describe(&self) -> (s: String)
        ensures
            s@ == result_text(self@),
    {
        let code = u16_text(self.retcode);
        let mut s: String;
        if self.is_error() {
            s = "Err(".to_owned();
            s.append(code.as_str());
            s.append(", stderr: ");
            let payload = opt_payload_str(&self.stderr);
            s.append(payload.as_str());
            s.append(")");
        } else {
            s = "Ok(".to_owned();
            s.append(code.as_str());
            s.append(", stdout: ");
            let payload = opt_payload_str(&self.stdout);
            s.append(payload.as_str());
            s.append(")");
        }
        proof {
            assert(s@ =~= result_text(self@));
        }
        s
    }
}

impl Failure {
    /// A short human-readable description of this failure, for logs: its
    /// code and its message.
    pub fn describe(&self) -> (s: String)
        ensures
            s@ == failure_text(self@),
    {
        let mut s = "error ".to_owned();
        let code = u16_text(self.code);
        s.append(code.as_str());
        s.append(": ");
        s.append(self.message.as_str());
        proof {
            assert(s@ =~= failure_text(self@));
        }
        s
    }
}

/// The text of a lifecycle label: `<path>[<uuid>]`, with ` - <action>`
/// appended when an action is named. The path identifies the task's class;
/// the identifier singles the instance out.
pub open spec fn label_text(path: Seq<char>, uuid_value: u128, action: Option<Seq<char>>) -> Seq<
    char,
> {
    let head = path + "["@ + uuid_text(uuid_value) + "]"@;
    match action {
        Some(a) => head + " - "@ + a,
        None => head,
    }
}

/// The label a lifecycle transition logs under.
pub fn label(path: &str, uuid: Uid, action: Option<&str>) -> (s: String)
    ensures
        s@ == label_text(
            path@,
            uuid.value,
            match action {
                Some(a) => Some(a@),
                None => None,
            },
        ),
{
    let mut s = path.to_owned();
    s.append("[");
    let u = uuid_hyphenated(uuid);
    s.append(u.as_str());
    s.append("]");
    match action {
        Some(a) => {
            s.append(" - ");
            s.append(a);
        },
        None => {},
    }
    proof {
        assert(s@ =~= label_text(
            path@,
            uuid.value,
            match action {
                Some(a) => Some(a@),
                None => None,
            },
        ));
    }
    s
}

/// The label of a completed stage together with its outcome's description.
pub fn label_result(path: &str, uuid: Uid, action: &str, outcome: &Result<JobResult, Failure>) -> (s:
    String)
    ensures
        s@ == label_text(path@, uuid.value, Some(action@)) + " => "@ + (match outcome {
            Ok(r) => result_text(r@),
            Err(f) => failure_text(f@),
        }),
{
    let mut s = label(path, uuid, Some(action));
    s.append(" => ");
    let described = match outcome {
        Ok(r) => r.describe(),
        Err(f) => f.describe(),
    };
    s.append(described.as_str());
    proof {
        assert(s@ =~= label_text(path@, uuid.value, Some(action@)) + " => "@ + (match outcome {
            Ok(r) => result_text(r@),
            Err(f) => failure_text(f@),
        }));
    }
    s
}

} // verus!
