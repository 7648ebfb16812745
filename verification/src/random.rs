//! The random draws of the engine, made by the `rand` crate.
//!
//! Nothing here is proved: each contract states what the source of `rand` shows
//! about the call. A draw has no name in specifications, because two calls with the
//! same arguments may differ; callers state what holds for every outcome.

use rand::rngs::ThreadRng;
use rand::seq::SliceRandom;
use rand::Rng;
use vstd::prelude::*;

verus! {

/// `rand::rngs::ThreadRng`, the generator that each thread owns. Its state is not
/// modelled.
#[verifier::external_type_specification]
#[verifier::external_body]
pub struct ExThreadRng(ThreadRng);

/// `rand::thread_rng` hands out the calling thread's generator. Nothing is claimed
/// of it. (It panics if the operating system cannot seed the generator.)
pub assume_specification[ rand::thread_rng ]() -> (rng: ThreadRng)
;

/// `SliceRandom::choose` on a slice: `None` for an empty slice, else a reference to
/// the element at an index that the generator draws below the length.
#[verifier::external_body]
pub(crate) fn choose_from<'a, T>(items: &'a Vec<T>, rng: &mut ThreadRng) -> (picked: Option<&'a T>)
    ensures
        picked is None <==> items@.len() == 0,
        picked matches Some(item) ==> exists|i: int| 0 <= i < items@.len() && items@[i] == *item,
{
    items.choose(rng)
}

/// `Rng::gen_range` on an inclusive range of `i64`: a value within the range. The
/// call panics on an empty range, which `requires` leaves out.
#[verifier::external_body]
pub(crate) fn gen_range(rng: &mut ThreadRng, low: i64, high: i64) -> (drawn: i64)
    requires
        low <= high,
    ensures
        low <= drawn <= high,
{
    rng.gen_range(low..=high)
}

} // verus!
