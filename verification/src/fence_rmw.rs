//! Fence elision around read-modify-write operations.
//!
//! When every load and store after an RMW operation must be ordered after
//! it, the cheapest correct pair of (RMW ordering, companion fence) depends
//! on the architecture class: total-store-order x86 hardware already gives
//! an acquire RMW full-fence-equivalent ordering, so the companion fence is
//! a no-op there; every other class uses a relaxed RMW upgraded by one
//! explicit sequentially consistent fence. Every RMW issued with
//! [`rmw_order`]'s ordering must be followed by a call of [`fence_rmw`]
//! before any access that must be ordered after it; omitting the call is a
//! silent correctness bug on the non-x86 classes.

use vstd::prelude::*;

verus! {

use core::sync::atomic::Ordering;
use crate::ArchClass;
use crate::BuildConfig;
use crate::FenceAction;

/// The ordering for the RMW half of the pair: `Acquire` on the x86 family,
/// `Relaxed` everywhere else.
pub open spec fn rmw_order_spec(cfg: BuildConfig) -> Ordering {
    if cfg.arch == ArchClass::X86Family {
        Ordering::Acquire
    } else {
        Ordering::Relaxed
    }
}

/// What the companion fence emits: nothing on the x86 family, exactly one
/// full sequentially consistent fence everywhere else.
pub open spec fn rmw_fence_spec(cfg: BuildConfig) -> FenceAction {
    if cfg.arch == ArchClass::X86Family {
        FenceAction::NoOp
    } else {
        FenceAction::Fence(Ordering::SeqCst)
    }
}

/// Resolves the ordering to use for an RMW operation that, together with
/// [`fence_rmw`], must act as a full sequentially consistent fence.
pub fn rmw_order(cfg: BuildConfig) -> (m: Ordering)
    ensures
        m == rmw_order_spec(cfg),
{
    if cfg.arch == ArchClass::X86Family {
        Ordering::Acquire
    } else {
        Ordering::Relaxed
    }
}

/// The resolved companion fence itself: a no-op on the x86 family, one full
/// sequentially consistent fence on every other class. Returns what it
/// emitted.
pub fn the_fence(cfg: BuildConfig) -> (a: FenceAction)
    ensures
        a == rmw_fence_spec(cfg),
{
    if cfg.arch == ArchClass::X86Family {
        FenceAction::NoOp
    } else {
        core::sync::atomic::fence(Ordering::SeqCst);
        FenceAction::Fence(Ordering::SeqCst)
    }
}

/// The companion fence to call immediately after an RMW that used
/// [`rmw_order`]'s ordering, before any subsequent access that must be
/// ordered after the RMW. Returns what it emitted.
pub fn fence_rmw(cfg: BuildConfig) -> (a: FenceAction)
    ensures
        a == rmw_fence_spec(cfg),
{
    the_fence(cfg)
}

} // verus!
