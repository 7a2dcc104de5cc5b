//! Comparing and joining text.

use vstd::prelude::*;

verus! {

/// Whether two pieces of text are the same, character for character.
pub(crate) fn same_text(a: &str, b: &str) -> (r: bool)
    ensures
        r == (a@ == b@),
{
    a.to_owned() == b.to_owned()
}

/// `a` followed by `b`.
pub(crate) fn join(a: &str, b: &str) -> (r: String)
    ensures
        r@ == a@ + b@,
{
    let mut joined = a.to_owned();
    joined.append(b);
    joined
}

} // verus!
