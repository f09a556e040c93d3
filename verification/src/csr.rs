//! Model of the machine-level control state the firmware programs: the
//! interrupt and exception delegation registers, the machine interrupt
//! enable and pending bits the dispatcher toggles, and the supervisor trap
//! registers written when a fault is handed over to the supervisor.
//!
//! The hardware registers themselves are written by the unverified shell;
//! every decision about *what* to write is made here, over this model.

use vstd::prelude::*;

verus! {

/// Exception cause: instruction address misaligned.
pub const CAUSE_INSTRUCTION_MISALIGNED: usize = 0;
/// Exception cause: instruction access fault.
pub const CAUSE_INSTRUCTION_FAULT: usize = 1;
/// Exception cause: illegal instruction.
pub const CAUSE_ILLEGAL_INSTRUCTION: usize = 2;
/// Exception cause: breakpoint.
pub const CAUSE_BREAKPOINT: usize = 3;
/// Exception cause: load access fault.
pub const CAUSE_LOAD_FAULT: usize = 5;
/// Exception cause: store access fault.
pub const CAUSE_STORE_FAULT: usize = 7;
/// Exception cause: environment call from user mode.
pub const CAUSE_USER_ENV_CALL: usize = 8;
/// Exception cause: instruction page fault.
pub const CAUSE_INSTRUCTION_PAGE_FAULT: usize = 12;
/// Exception cause: load page fault.
pub const CAUSE_LOAD_PAGE_FAULT: usize = 13;
/// Exception cause: store page fault.
pub const CAUSE_STORE_PAGE_FAULT: usize = 15;

/// Interrupts routed to supervisor mode at configuration time: the
/// supervisor and user software, timer, and external interrupt bits.
pub const MIDELEG_MASK: usize = 0x333;

/// Exceptions routed to supervisor mode at configuration time: misaligned
/// instruction, instruction fault, breakpoint, load fault, store fault,
/// user environment call, and the three page faults. Illegal instruction
/// (bit 2) is deliberately left out so it reaches the dispatcher for
/// emulation.
pub const MEDELEG_MASK: usize = 0xb1ab;

/// Machine status bit: supervisor interrupt enable.
pub const MSTATUS_SIE: usize = 0x2;
/// Machine status bit: supervisor previous interrupt enable.
pub const MSTATUS_SPIE: usize = 0x20;
/// Machine status bit: supervisor previous privilege.
pub const MSTATUS_SPP: usize = 0x100;
/// Machine status field mask: machine previous privilege (bits 11 and 12).
pub const MSTATUS_MPP_MASK: usize = 0x1800;

/// The machine-level control state this firmware owns on one hart.
#[derive(Clone, Copy, Debug, PartialEq, Eq, Structural)]
pub struct MachineState {
    /// Interrupt delegation register: a set bit routes that interrupt
    /// directly to supervisor mode.
    pub mideleg: usize,
    /// Exception delegation register: a set bit routes that exception
    /// directly to supervisor mode.
    pub medeleg: usize,
    /// Machine external interrupt listening.
    pub mie_mext: bool,
    /// Machine timer interrupt listening; toggled off by the dispatcher's
    /// timer path and back on when the supervisor reprograms its timer.
    pub mie_mtimer: bool,
    /// Machine software interrupt listening.
    pub mie_msoft: bool,
    /// Virtual supervisor timer pending bit, set when the machine timer
    /// fires on the supervisor's behalf.
    pub mip_stimer: bool,
    /// Machine software interrupt pending bit.
    pub mip_msoft: bool,
    /// Supervisor trap vector base address (direct mode).
    pub stvec: usize,
    /// Supervisor trap cause, written on hand-over to the supervisor.
    pub scause: usize,
    /// Supervisor trap value, written on hand-over to the supervisor.
    pub stval: usize,
    /// Supervisor exception program counter, written on hand-over.
    pub sepc: usize,
}

/// Where the hardware takes a trap: straight to the supervisor, or to this
/// firmware's dispatcher in machine mode.
#[derive(Clone, Copy, Debug, PartialEq, Eq, Structural)]
pub enum TrapDestination {
    /// Delivered directly to supervisor mode; the dispatcher never sees it.
    Supervisor,
    /// Delivered to machine mode, into the dispatcher.
    Machine,
}

/// Whether exception cause `cause` is delegated to supervisor mode.
pub open spec fn exception_delegated(ms: MachineState, cause: usize) -> bool {
    (ms.medeleg >> cause) & 1 == 1
}

/// Whether interrupt bit `bit` is delegated to supervisor mode.
pub open spec fn interrupt_delegated(ms: MachineState, bit: usize) -> bool {
    (ms.mideleg >> bit) & 1 == 1
}

/// The hardware delivery target of exception cause `cause`.
pub open spec fn exception_destination(ms: MachineState, cause: usize) -> TrapDestination {
    if exception_delegated(ms, cause) {
        TrapDestination::Supervisor
    } else {
        TrapDestination::Machine
    }
}

/// The delegation register values after the one-time boot configuration.
pub open spec fn spec_delegate_interrupt_exception(ms: MachineState) -> MachineState {
    MachineState {
        mideleg: ms.mideleg | MIDELEG_MASK,
        medeleg: ms.medeleg | MEDELEG_MASK,
        mie_mext: true,
        mie_msoft: true,
        ..ms
    }
}

/// One-time delegation configuration, run on every hart before its runtime
/// is constructed: route the supervisor-class interrupts and the standard
/// exception set (all but illegal instruction, which must reach the
/// dispatcher for emulation) straight to supervisor mode, and listen for
/// machine external and software interrupts. Machine timer listening is
/// deliberately left as it is: only the dispatcher's timer path turns it on.
pub fn delegate_interrupt_exception(ms: &mut MachineState)
    ensures
        *final(ms) == spec_delegate_interrupt_exception(*old(ms)),
        final(ms).mie_mtimer == old(ms).mie_mtimer,
{
    ms.mideleg = ms.mideleg | MIDELEG_MASK;
    ms.medeleg = ms.medeleg | MEDELEG_MASK;
    ms.mie_mext = true;
    ms.mie_msoft = true;
}

/// After configuration the standard exception set and the supervisor-class
/// interrupts are delegated, and the illegal-instruction exception is
/// delegated only if it already was before — with a clean start it is not,
/// so it still reaches the dispatcher.
pub proof fn lemma_delegation_config(pre: MachineState)
    ensures
        exception_delegated(spec_delegate_interrupt_exception(pre), CAUSE_BREAKPOINT),
        exception_delegated(spec_delegate_interrupt_exception(pre), CAUSE_USER_ENV_CALL),
        exception_delegated(spec_delegate_interrupt_exception(pre), CAUSE_INSTRUCTION_PAGE_FAULT),
        exception_delegated(spec_delegate_interrupt_exception(pre), CAUSE_LOAD_PAGE_FAULT),
        exception_delegated(spec_delegate_interrupt_exception(pre), CAUSE_STORE_PAGE_FAULT),
        interrupt_delegated(spec_delegate_interrupt_exception(pre), 1),
        interrupt_delegated(spec_delegate_interrupt_exception(pre), 5),
        interrupt_delegated(spec_delegate_interrupt_exception(pre), 9),
        exception_delegated(spec_delegate_interrupt_exception(pre), CAUSE_ILLEGAL_INSTRUCTION)
            == exception_delegated(pre, CAUSE_ILLEGAL_INSTRUCTION),
{
    let m = pre.medeleg;
    assert(((m | 0xb1ab) >> 3usize) & 1 == 1) by (bit_vector);
    assert(((m | 0xb1ab) >> 8usize) & 1 == 1) by (bit_vector);
    assert(((m | 0xb1ab) >> 12usize) & 1 == 1) by (bit_vector);
    assert(((m | 0xb1ab) >> 13usize) & 1 == 1) by (bit_vector);
    assert(((m | 0xb1ab) >> 15usize) & 1 == 1) by (bit_vector);
    assert(((m | 0xb1ab) >> 2usize) & 1 == (m >> 2usize) & 1) by (bit_vector);
    let i = pre.mideleg;
    assert(((i | 0x333) >> 1usize) & 1 == 1) by (bit_vector);
    assert(((i | 0x333) >> 5usize) & 1 == 1) by (bit_vector);
    assert(((i | 0x333) >> 9usize) & 1 == 1) by (bit_vector);
}

/// Delegation never loops: an exception class that is delegated is taken
/// directly in supervisor mode, so it is never delivered to the dispatcher
/// at all — and the dispatcher's own hand-over path refuses a delegated
/// class (`should_transfer_trap` tests exactly this), so the same fault can
/// never bounce between the two levels on one frame.
pub proof fn lemma_delegation_non_looping(ms: MachineState, cause: usize)
    requires
        exception_delegated(ms, cause),
    ensures
        exception_destination(ms, cause) is Supervisor,
{
}

/// The machine status snapshot rewritten as hardware would on taking an
/// exception into supervisor mode: the supervisor previous-interrupt-enable
/// bit saves the interrupt-enable bit, interrupts are disabled, the
/// supervisor-previous-privilege bit records the privilege the fault came
/// from — read off the machine-previous-privilege field the trap entry
/// saved — and machine-previous-privilege is set so the resume lands in
/// supervisor mode.
pub open spec fn mstatus_on_supervisor_entry(m: usize) -> usize {
    (m & !(MSTATUS_SIE | MSTATUS_SPIE | MSTATUS_SPP | MSTATUS_MPP_MASK))
        | (if m & MSTATUS_SIE != 0 { MSTATUS_SPIE } else { 0 })
        | (if m & MSTATUS_MPP_MASK == crate::runtime::MSTATUS_MPP_SUPERVISOR {
            MSTATUS_SPP
        } else {
            0
        })
        | crate::runtime::MSTATUS_MPP_SUPERVISOR
}

/// Align a trap-entry address up to the four-byte boundary the trap vector
/// register requires; entry addresses are at least two-byte aligned.
pub fn trap_vector_address(addr: usize) -> (r: usize)
    requires
        addr % 2 == 0,
        addr + 2 <= usize::MAX,
    ensures
        r % 4 == 0,
        r == addr || r == addr + 2,
{
    if addr % 4 != 0 {
        addr + 2
    } else {
        addr
    }
}

} // verus!
