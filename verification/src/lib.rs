//! Architecture-aware memory-ordering primitives for lock-free code.
//!
//! Three independent, stateless utilities, each a policy table keyed by the
//! target architecture class and a capability flag:
//!
//! 1. `artificial_dep`: fabricates an artificial data dependency between a
//!    previously loaded scalar and a second memory reference, so a follow-up
//!    read is ordered after the first load without a hardware fence where
//!    that is profitable.
//! 2. `fence_rmw`: selects the ordering for the read-modify-write half of an
//!    RMW/fence pair and a companion fence, so the pair together act as a
//!    full sequentially consistent fence at minimum cost.
//! 3. `load_conditional_store`: selects whether an explicit acquire fence is
//!    needed after a load-link/store-conditional style retry loop.
//!
//! The architecture class and the capability flag are fixed when a build is
//! configured; they are carried here as an explicit [`BuildConfig`] value so
//! that every policy resolution is a pure function of it.

use vstd::prelude::*;

pub mod artificial_dep;
pub mod fence_rmw;
pub mod load_conditional_store;

verus! {

use core::sync::atomic::Ordering;

/// The architecture class a build targets, fixed at build configuration time.
#[derive(Clone, Copy, Debug, PartialEq, Eq, Structural)]
pub enum ArchClass {
    /// x86 or x86_64: total-store-order hardware.
    X86Family,
    /// ARM or AArch64.
    ArmFamily,
    /// PowerPC or PowerPC64.
    PowerPcFamily,
    /// Any other architecture: only conservative fallbacks apply.
    Other,
}

/// The build-time configuration every policy table is resolved against.
#[derive(Clone, Copy, Debug, PartialEq, Eq, Structural)]
pub struct BuildConfig {
    /// The architecture class of the target.
    pub arch: ArchClass,
    /// Whether architecture-specific low-level instruction sequences are
    /// enabled for this build.
    pub asm_enabled: bool,
}

/// What a fence helper emitted: nothing at all, or exactly one fence with
/// the given ordering.
#[derive(Clone, Copy, Debug, PartialEq, Eq)]
pub enum FenceAction {
    /// No fence instruction was emitted.
    NoOp,
    /// One fence with this ordering was emitted.
    Fence(Ordering),
}

/// Relies on `core::sync::atomic::fence`: emits an atomic memory fence with
/// the given ordering. Its documentation says it panics on `Relaxed`, so the
/// precondition rules that ordering out.
pub assume_specification [ core::sync::atomic::fence ](order: Ordering)
    requires
        order != Ordering::Relaxed,
;

/// The whole policy table in one place: for every build configuration, the
/// resolved controlling-load ordering, RMW ordering, RMW companion fence
/// and conditional-store fence are exactly the row of its architecture
/// class (with the dependency trick's capability flag splitting the
/// ARM/AArch64 row).
pub proof fn lemma_policy_table(cfg: BuildConfig)
    ensures
        cfg.arch == ArchClass::X86Family ==> (artificial_dep::dep_ord_spec(cfg)
            == Ordering::Acquire && fence_rmw::rmw_order_spec(cfg) == Ordering::Acquire
            && fence_rmw::rmw_fence_spec(cfg) == FenceAction::NoOp
            && load_conditional_store::load_conditional_store_fence_spec(cfg)
            == FenceAction::NoOp),
        cfg.arch == ArchClass::ArmFamily && cfg.asm_enabled ==> (artificial_dep::dep_ord_spec(cfg)
            == Ordering::Relaxed && fence_rmw::rmw_order_spec(cfg) == Ordering::Relaxed
            && fence_rmw::rmw_fence_spec(cfg) == FenceAction::Fence(Ordering::SeqCst)
            && load_conditional_store::load_conditional_store_fence_spec(cfg)
            == FenceAction::NoOp),
        cfg.arch == ArchClass::ArmFamily && !cfg.asm_enabled ==> (artificial_dep::dep_ord_spec(cfg)
            == Ordering::Acquire && fence_rmw::rmw_order_spec(cfg) == Ordering::Relaxed
            && fence_rmw::rmw_fence_spec(cfg) == FenceAction::Fence(Ordering::SeqCst)
            && load_conditional_store::load_conditional_store_fence_spec(cfg)
            == FenceAction::NoOp),
        cfg.arch == ArchClass::PowerPcFamily ==> (artificial_dep::dep_ord_spec(cfg)
            == Ordering::Acquire && fence_rmw::rmw_order_spec(cfg) == Ordering::Relaxed
            && fence_rmw::rmw_fence_spec(cfg) == FenceAction::Fence(Ordering::SeqCst)
            && load_conditional_store::load_conditional_store_fence_spec(cfg)
            == FenceAction::NoOp),
        cfg.arch == ArchClass::Other ==> (artificial_dep::dep_ord_spec(cfg) == Ordering::Acquire
            && fence_rmw::rmw_order_spec(cfg) == Ordering::Relaxed
            && fence_rmw::rmw_fence_spec(cfg) == FenceAction::Fence(Ordering::SeqCst)
            && load_conditional_store::load_conditional_store_fence_spec(cfg)
            == FenceAction::Fence(Ordering::Acquire)),
{
}

} // verus!
