//! Draws from the thread-local random source of `rand`.

use vstd::prelude::*;

verus! {

/// Relies on `rand::thread_rng` with `Rng::gen_range`: a value of the half-open range
/// `lo..hi`, which panics when that range is empty.
#[verifier::external_body]
pub(crate) fn random_in_range(lo: u32, hi: u32) -> (r: u32)
    requires
        lo < hi,
    ensures
        lo <= r < hi,
{
    rand::Rng::gen_range(&mut rand::thread_rng(), lo..hi)
}

/// Relies on `rand::seq::SliceRandom::choose` with `rand::thread_rng`: `None` for an empty
/// slice, else a reference to one of its elements.
#[verifier::external_body]
pub(crate) fn choose_one(items: &Vec<String>) -> (r: Option<&String>)
    ensures
        r is None <==> items@.len() == 0,
        r matches Some(s) ==> exists|i: int| 0 <= i < items@.len() && items@[i] == *s,
{
    rand::seq::SliceRandom::choose(items.as_slice(), &mut rand::thread_rng())
}

} // verus!
