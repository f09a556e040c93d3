//! Machine-mode SBI firmware core for a multi-hart RISC-V platform, modelled
//! and verified: the trap frame contract, trap classification and dispatch,
//! the timer/IPI controller state, the boot-time hart barrier, and the
//! interrupt/exception delegation configuration.
//!
//! The hardware edges (assembly entry stubs, control-register writes,
//! memory-mapped accesses) live outside this crate; everything here is the
//! decision logic those edges drive, stated over explicit machine-state
//! models.

pub mod boot;
pub mod clint;
pub mod console;
pub mod csr;
pub mod execute;
pub mod feature;
pub mod hart;
pub mod runtime;
pub mod util;

use vstd::prelude::*;

verus! {

/// Stack space reserved for one hart, in bytes.
pub const PER_HART_STACK_SIZE: usize = 4 * 4096;

/// Number of harts the firmware serves.
pub const HART_COUNT: usize = 5;

/// Total stack space shared by all harts.
pub const SBI_STACK_SIZE: usize = HART_COUNT * PER_HART_STACK_SIZE;

/// Top of the scratch stack for one hart: each hart owns the
/// `PER_HART_STACK_SIZE` slice just below this address inside the shared
/// stack region that starts at `stack_base`.
pub fn hart_stack_top(stack_base: usize, hart_id: usize) -> (top: usize)
    requires
        hart_id < HART_COUNT,
        stack_base + SBI_STACK_SIZE <= usize::MAX,
    ensures
        top == stack_base + (hart_id + 1) * PER_HART_STACK_SIZE,
{
    stack_base + (hart_id + 1) * PER_HART_STACK_SIZE
}

} // verus!
