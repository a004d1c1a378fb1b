//! The hash set of `rustc_hash` that holds key and button codes, with the
//! contracts of the calls the library makes on it.
use vstd::prelude::*;
use rustc_hash::{FxBuildHasher, FxHashSet};

verus! {

/// `rustc_hash::FxBuildHasher`: the hasher builder of `FxHashSet`, a unit
/// struct whose hashers start from the same fixed state every time.
#[verifier::external_type_specification]
#[verifier::external_body]
pub struct ExFxBuildHasher(FxBuildHasher);

/// Calls `std::collections::HashSet::insert` on a set built with
/// `FxBuildHasher`. Claimed: the set afterwards is the set before with `k`
/// added, and the result says whether `k` was absent before. The Fx hasher is
/// deterministic and `u32` equality agrees with its hash, so the std set
/// behaves as a mathematical set.
#[verifier::external_body]
pub(crate) fn set_insert(s: &mut FxHashSet<u32>, k: u32) -> (added: bool)
    ensures
        final(s)@ == old(s)@.insert(k),
        added == !old(s)@.contains(k),
{
    s.insert(k)
}

/// Calls `std::collections::HashSet::remove` on a set built with
/// `FxBuildHasher`. Claimed: the set afterwards is the set before without
/// `k`, and the result says whether `k` was present before.
#[verifier::external_body]
pub(crate) fn set_remove(s: &mut FxHashSet<u32>, k: u32) -> (removed: bool)
    ensures
        final(s)@ == old(s)@.remove(k),
        removed == old(s)@.contains(k),
{
    s.remove(&k)
}

/// Calls `std::collections::HashSet::contains` on a set built with
/// `FxBuildHasher`. Claimed: the result says whether `k` is in the set.
#[verifier::external_body]
pub(crate) fn set_contains(s: &FxHashSet<u32>, k: u32) -> (found: bool)
    ensures
        found == s@.contains(k),
{
    s.contains(&k)
}

} // verus!
