//! Random choices, made by the `rand` crate.
use rand::seq::SliceRandom;

use vstd::prelude::*;

verus! {

/// Calls `SliceRandom::choose` of `rand` on `items` with the thread-local
/// generator: `None` exactly when `items` is empty, otherwise one of the
/// items. Which one is left open: it is random.
#[verifier::external_body]
pub(crate) fn choose_one(items: &[usize]) -> (r: Option<usize>)
    ensures
        items@.len() == 0 <==> r is None,
        r matches Some(x) ==> items@.contains(x),
{
    items.choose(&mut rand::thread_rng()).copied()
}

/// Calls `SliceRandom::choose_multiple` of `rand` on `items` with the
/// thread-local generator and collects the result: `min(amount, len)` items
/// taken at distinct positions of `items`, in random order. Which ones is
/// left open: it is random.
#[verifier::external_body]
pub(crate) fn choose_several(items: &[usize], amount: usize) -> (r: Vec<usize>)
    ensures
        r@.len() == if amount <= items@.len() {
            amount as nat
        } else {
            items@.len()
        },
        forall|k: int| 0 <= k < r@.len() ==> items@.contains(#[trigger] r@[k]),
        items@.no_duplicates() ==> r@.no_duplicates(),
{
    items.choose_multiple(&mut rand::thread_rng(), amount).copied().collect()
}

} // verus!
