//! Trusted wrappers around the `rand` crate. Every random draw the library
//! makes goes through one of these; each wrapper states only what `rand`'s
//! documentation promises of every outcome, never which outcome comes.

use vstd::prelude::*;

use rand::Rng;
use rand::distributions::Alphanumeric;
use rand::seq::SliceRandom;

verus! {

/// Holds exactly of the characters that `rand`'s `Alphanumeric` distribution
/// draws from: `a`-`z`, `A`-`Z` and `0`-`9`.
pub open spec fn is_alnum_char(c: char) -> bool {
    (('a' as u32) <= (c as u32) && (c as u32) <= ('z' as u32)) || (('A' as u32) <= (c as u32) && (c
        as u32) <= ('Z' as u32)) || (('0' as u32) <= (c as u32) && (c as u32) <= ('9' as u32))
}

/// Relies on rand's `Rng::gen_range(low..high)`: a value drawn uniformly from
/// the half-open range `[low, high)`; it panics on an empty range, which the
/// precondition rules out.
#[verifier::external_body]
pub(crate) fn sample_range(low: usize, high: usize) -> (r: usize)
    requires
        low < high,
    ensures
        low <= r < high,
{
    rand::thread_rng().gen_range(low..high)
}

/// Relies on rand's `Alphanumeric` distribution: every drawn byte is one of
/// `a`-`z`, `A`-`Z`, `0`-`9`, so the collected string has exactly `len` such
/// characters.
#[verifier::external_body]
pub(crate) fn sample_alphanumeric_string(len: usize) -> (r: String)
    ensures
        r@.len() == len,
        forall|i: int| 0 <= i < r@.len() ==> is_alnum_char(r@[i]),
{
    rand::thread_rng().sample_iter(Alphanumeric).take(len).map(char::from).collect()
}

/// Relies on rand's `SliceRandom::choose_multiple`: `n` elements drawn from
/// the slice without repetition. Applied to the slice `[0, 1, ..., len - 1]`,
/// whose elements are pairwise distinct, so the drawn indices are too.
#[verifier::external_body]
pub(crate) fn sample_distinct_indices(len: usize, n: usize) -> (r: Vec<usize>)
    requires
        n <= len,
    ensures
        r@.len() == n,
        forall|i: int| 0 <= i < r@.len() ==> r@[i] < len,
        forall|i: int, j: int| 0 <= i < r@.len() && 0 <= j < r@.len() && i != j ==> r@[i] != r@[j],
{
    let all: Vec<usize> = (0..len).collect();
    all.choose_multiple(&mut rand::thread_rng(), n).cloned().collect()
}

} // verus!
