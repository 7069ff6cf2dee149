//! Fence elision after load-link/store-conditional style retry loops.
//!
//! After a conditional-store retry sequence (or an equivalent
//! compare-and-swap loop) the loaded value must be acquire-ordered relative
//! to subsequent accesses. On the x86, ARM/AArch64 and PowerPC families the
//! native conditional-store primitive already implies that ordering as part
//! of its hardware contract, so no fence is needed; any other architecture
//! falls back to one explicit acquire fence.

use vstd::prelude::*;

verus! {

use core::sync::atomic::Ordering;
use crate::ArchClass;
use crate::BuildConfig;
use crate::FenceAction;

/// Whether an architecture class's native conditional-store primitive
/// already implies acquire ordering for the value it loaded.
pub open spec fn conditional_store_implies_acquire(arch: ArchClass) -> bool {
    arch == ArchClass::X86Family || arch == ArchClass::ArmFamily || arch
        == ArchClass::PowerPcFamily
}

/// What the fence after a conditional-store retry sequence emits: nothing
/// where the primitive already implies the ordering, exactly one acquire
/// fence on any other class.
pub open spec fn load_conditional_store_fence_spec(cfg: BuildConfig) -> FenceAction {
    if conditional_store_implies_acquire(cfg.arch) {
        FenceAction::NoOp
    } else {
        FenceAction::Fence(Ordering::Acquire)
    }
}

/// The fence to call after a load-link/store-conditional style retry
/// sequence, so the loaded value is acquire-ordered relative to subsequent
/// accesses. Returns what it emitted.
pub fn load_conditional_store_fence(cfg: BuildConfig) -> (a: FenceAction)
    ensures
        a == load_conditional_store_fence_spec(cfg),
{
    match cfg.arch {
        ArchClass::X86Family | ArchClass::ArmFamily | ArchClass::PowerPcFamily => FenceAction::NoOp,
        ArchClass::Other => {
            core::sync::atomic::fence(Ordering::Acquire);
            FenceAction::Fence(Ordering::Acquire)
        },
    }
}

} // verus!
