use vstd::prelude::*;

verus! {

/// Identifier attached to tasks, operations and results.
///
/// It holds the 128-bit value of a UUID as a plain integer, so that identity
/// and equality stay visible to the verifier.
#[derive(Clone, Copy, PartialEq, Eq, Structural, Debug)]
pub struct Uid {
    pub value: u128,
}

impl Uid {
    pub fn new(value: u128) -> (u: Uid)
        ensures
            u.value == value,
    {
        Uid { value }
    }
}

/// Relies on uuid::Uuid::new_v4: draws a fresh random (version 4) identifier.
/// Nothing is promised of the value: it depends on the process's entropy.
#[verifier::external_body]
pub(crate) fn fresh_uid() -> Uid {
    Uid { value: uuid::Uuid::new_v4().as_u128() }
}

/// The hyphenated text form of an identifier's 128-bit value; what it looks
/// like depends on the value alone.
pub uninterp spec fn uuid_text(value: u128) -> Seq<char>;

/// Relies on uuid::Uuid's hyphenated formatting: renders the identifier in
/// the usual hyphenated form, a function of its value alone.
#[verifier::external_body]
pub(crate) fn uuid_hyphenated(u: Uid) -> (s: String)
    ensures
        s@ == uuid_text(u.value),
{
    uuid::Uuid::from_u128(u.value).hyphenated().to_string()
}

} // verus!
