use vstd::prelude::*;

verus! {

/// `==` of `str`: the two texts hold the same characters.
#[verifier::external_body]
pub(crate) fn str_eq(a: &str, b: &str) -> (same: bool)
    ensures
        same == (a@ == b@),
{
    a == b
}

/// `concat` of a slice of `str`: the second text after the first.
#[verifier::external_body]
pub(crate) fn concat(a: &str, b: &str) -> (text: String)
    ensures
        text@ == a@ + b@,
{
    [a, b].concat()
}

} // verus!
