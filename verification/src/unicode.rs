use vstd::prelude::*;

verus! {

/// Whether `c` has the Unicode property `Alphabetic`.
pub uninterp spec fn alphabetic(c: char) -> bool;

/// Whether `c` is alphabetic or numeric in the Unicode sense.
pub uninterp spec fn alphanumeric(c: char) -> bool;

/// Whether `c` has the Unicode property `White_Space`.
pub uninterp spec fn whitespace(c: char) -> bool;

/// Calls `char::is_alphabetic`. Trusted: the answer depends on `c` alone and
/// is the one that `alphabetic` names.
#[verifier::external_body]
pub(crate) fn is_alphabetic(c: char) -> (b: bool)
    ensures
        b == alphabetic(c),
{
    c.is_alphabetic()
}

/// Calls `char::is_alphanumeric`. Trusted: the answer depends on `c` alone and
/// is the one that `alphanumeric` names.
#[verifier::external_body]
pub(crate) fn is_alphanumeric(c: char) -> (b: bool)
    ensures
        b == alphanumeric(c),
{
    c.is_alphanumeric()
}

/// Calls `char::is_whitespace`. Trusted: the answer depends on `c` alone and
/// is the one that `whitespace` names.
#[verifier::external_body]
pub(crate) fn is_whitespace(c: char) -> (b: bool)
    ensures
        b == whitespace(c),
{
    c.is_whitespace()
}

/// May start or continue the head of an identifier.
pub open spec fn ident_head(c: char) -> bool {
    alphabetic(c) || c == '_'
}

/// May continue an identifier after its head.
pub open spec fn ident_tail(c: char) -> bool {
    alphanumeric(c) || c == '_'
}

} // verus!
