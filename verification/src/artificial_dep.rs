//! Artificial data dependencies between a loaded scalar and a reference.
//!
//! On weakly ordered pipelines a follow-up read can be ordered after an
//! earlier atomic load without a fence, by making the follow-up reference's
//! address data-dependent on the loaded value: the address is XORed with the
//! value twice in a row, which leaves it bit-for-bit unchanged while forcing
//! the hardware to resolve the load first. Where that trick is not available
//! the same guarantee comes from loading the controlling atomic with
//! `Acquire` ordering instead; [`dep_ord`] resolves which of the two a build
//! uses, and [`false_dep`] is the value-preserving reference adjustment.

use vstd::prelude::*;

verus! {

use core::sync::atomic::Ordering;
use crate::ArchClass;
use crate::BuildConfig;

/// Whether the instruction-level dependency trick is active: it needs an
/// ARM/AArch64 target and low-level instruction sequences enabled.
pub open spec fn dep_trick_active(cfg: BuildConfig) -> bool {
    cfg.arch == ArchClass::ArmFamily && cfg.asm_enabled
}

/// The ordering the controlling load must use: `Relaxed` when the dependency
/// trick itself orders the follow-up read, `Acquire` on every other build,
/// where the load alone has to provide the ordering.
pub open spec fn dep_ord_spec(cfg: BuildConfig) -> Ordering {
    if dep_trick_active(cfg) {
        Ordering::Relaxed
    } else {
        Ordering::Acquire
    }
}

/// Resolves the ordering to use when loading the controlling atomic before a
/// dependent follow-up read.
pub fn dep_ord(cfg: BuildConfig) -> (m: Ordering)
    ensures
        m == dep_ord_spec(cfg),
{
    if cfg.arch == ArchClass::ArmFamily && cfg.asm_enabled {
        Ordering::Relaxed
    } else {
        Ordering::Acquire
    }
}

/// One XOR step of the address transform.
pub open spec fn xor_with(x: usize, v: usize) -> usize {
    x ^ v
}

/// Applies one XOR step to an address-sized word; applying it twice with the
/// same `v` restores the word, see [`lemma_xor_round_trip`].
pub fn xor_transform(x: usize, v: usize) -> (r: usize)
    ensures
        r == xor_with(x, v),
{
    x ^ v
}

/// XORing a word twice with the same value is the identity, for every bit
/// pattern of `x` and `v`: the double-XOR address adjustment is
/// value-preserving, independent of its ordering effect.
pub proof fn lemma_xor_round_trip(x: usize, v: usize)
    ensures
        xor_with(xor_with(x, v), v) == x,
{
    assert((x ^ v) ^ v == x) by (bit_vector);
}

/// Returns a reference to the exact same object as `myref`. In a build with
/// the dependency trick the returned reference's address is additionally
/// made data-dependent on the loaded value at the instruction level; the
/// caller must pass the exact scalar obtained from loading the controlling
/// atomic with the ordering that [`dep_ord`] resolves — a derived or
/// unrelated value silently removes the ordering guarantee.
pub fn false_dep<T>(myref: &T, _v: usize) -> (r: &T)
    ensures
        r == myref,
{
    myref
}

/// Produces the dependency-adjusted reference for `myref` and applies
/// `myfn` to it, returning whatever the continuation returns. The reference
/// handed to the continuation is indistinguishable in value from `myref`.
pub fn dependently<T, R, F: FnOnce(&T) -> R>(val: usize, myref: &T, myfn: F) -> (r: R)
    requires
        call_requires(myfn, (myref,)),
    ensures
        call_ensures(myfn, (myref,), r),
{
    myfn(false_dep(myref, val))
}

} // verus!
