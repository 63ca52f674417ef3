//! The random draws, made by the `rand` crate from its thread-local generator.
use rand::prelude::IndexedRandom;
use vstd::prelude::*;

verus! {

/// Calls `rand::random_range` on the range from `low` to `high`, both ends in it. Trusted: the
/// number drawn lies in the range. Which one it is rests on chance, so nothing more is said. The
/// call panics on an empty range, which `requires` leaves out.
#[verifier::external_body]
pub(crate) fn random_between(low: u64, high: u64) -> (r: u64)
    requires
        low <= high,
    ensures
        low <= r <= high,
{
    rand::random_range(low..=high)
}

/// Calls `IndexedRandom::choose` on a slice with the generator that `rand::rng` gives. Trusted:
/// what it hands out is an element of the slice, and it hands out none exactly where the slice
/// is empty. Which element it is rests on chance.
#[verifier::external_body]
pub(crate) fn choose_text<'a>(items: &'a [&'static str]) -> (r: Option<&'a &'static str>)
    ensures
        r is None <==> items@.len() == 0,
        r matches Some(item) ==> items@.contains(*item),
{
    items.choose(&mut rand::rng())
}

} // verus!
