//! The dispatcher's illegal-instruction features: emulation of the
//! read-only timer-counter instruction, and the hand-over of a
//! non-emulated fault to the supervisor's own trap vector.

use vstd::prelude::*;
use crate::runtime::{pc_plus_4, SupervisorContext};
use crate::csr::{
    exception_delegated, mstatus_on_supervisor_entry, MachineState,
    MSTATUS_MPP_MASK, MSTATUS_SIE, MSTATUS_SPIE, MSTATUS_SPP,
};

verus! {

/// Bits of an instruction word that identify the timer-counter read: all
/// fields but the destination register.
pub const RDTIME_MASK: u32 = 0xfffff07f;

/// The timer-counter read instruction with destination register zero.
pub const RDTIME_MATCH: u32 = 0xc0102073;

/// Whether `ins` is the read-only timer-counter instruction (with any
/// destination register).
pub open spec fn is_rdtime(ins: u32) -> bool {
    ins & RDTIME_MASK == RDTIME_MATCH
}

/// The destination register of a timer-counter read.
pub open spec fn rdtime_rd(ins: u32) -> int {
    ((ins >> 7) & 0x1f) as int
}

/// The frame after attempting emulation of `ins` with clock reading
/// `mtime`: on a match the destination register receives the clock and the
/// saved program counter advances over the emulated instruction; otherwise
/// the frame is untouched.
pub open spec fn spec_emulate_rdtime(ctx: SupervisorContext, ins: u32, mtime: u64) -> SupervisorContext {
    if is_rdtime(ins) {
        SupervisorContext {
            mepc: pc_plus_4(ctx.mepc),
            ..ctx.with_gpr(rdtime_rd(ins), mtime as usize)
        }
    } else {
        ctx
    }
}

/// Attempt to emulate `ins`, faulted at the frame's saved program counter,
/// against the table of emulatable instructions — the timer-counter read is
/// the one entry. `mtime` is the controller clock reading to serve.
/// Returns whether the instruction was emulated; on success the handler has
/// advanced the program counter itself.
pub fn emulate_rdtime(ctx: &mut SupervisorContext, ins: u32, mtime: u64) -> (emulated: bool)
    ensures
        emulated == is_rdtime(ins),
        *final(ctx) == spec_emulate_rdtime(*old(ctx), ins, mtime),
{
    if ins & RDTIME_MASK == RDTIME_MATCH {
        let rd = ((ins >> 7) & 0x1f) as usize;
        proof {
            assert((ins >> 7) & 0x1f < 32) by (bit_vector);
        }
        ctx.write_gpr(rd, #[verifier::truncate] (mtime as usize));
        ctx.mepc = ctx.mepc.wrapping_add(4);
        true
    } else {
        false
    }
}

/// Whether a fault of class `cause`, seen by the dispatcher, should be
/// transferred to supervisor mode: true unless that exact fault class was
/// already delegated at configuration time — a delegated class never comes
/// back to the dispatcher, which guards against delegation loops.
pub fn should_transfer_trap(ms: &MachineState, cause: usize) -> (transfer: bool)
    requires
        cause < 16,
    ensures
        transfer == !exception_delegated(*ms, cause),
{
    let transfer = (ms.medeleg >> cause) & 1 == 0;
    proof {
        let m = ms.medeleg;
        let c = cause;
        assert(((m >> c) & 1 == 0) == !((m >> c) & 1 == 1)) by (bit_vector);
    }
    transfer
}

/// The frame after hand-over to the supervisor: resumes at the supervisor's
/// trap vector with the status rewritten as for a supervisor-mode trap;
/// every general-purpose register is untouched.
pub open spec fn spec_transfer_frame(ctx: SupervisorContext, ms: MachineState) -> SupervisorContext {
    SupervisorContext {
        mepc: ms.stvec,
        mstatus: mstatus_on_supervisor_entry(ctx.mstatus),
        ..ctx
    }
}

/// The machine state after hand-over to the supervisor: the supervisor trap
/// registers describe the fault as if the hardware had taken it there.
pub open spec fn spec_transfer_machine(
    ms: MachineState,
    cause: usize,
    tval: usize,
    faulting_pc: usize,
) -> MachineState {
    MachineState { scause: cause, stval: tval, sepc: faulting_pc, ..ms }
}

/// Rewrite the frame and the supervisor trap registers so that execution
/// resumes in the supervisor's trap vector exactly as if the hardware had
/// taken exception `cause` (with trap value `tval`) in supervisor mode.
/// Only a fault class that is not delegated may be transferred here: a
/// delegated class is the hardware's to deliver.
pub fn do_transfer_trap(ctx: &mut SupervisorContext, ms: &mut MachineState, cause: usize, tval: usize)
    requires
        !exception_delegated(*old(ms), cause),
    ensures
        *final(ms) == spec_transfer_machine(*old(ms), cause, tval, old(ctx).mepc),
        *final(ctx) == spec_transfer_frame(*old(ctx), *old(ms)),
{
    ms.scause = cause;
    ms.stval = tval;
    ms.sepc = ctx.mepc;
    let m = ctx.mstatus;
    ctx.mstatus = (m & !(MSTATUS_SIE | MSTATUS_SPIE | MSTATUS_SPP | MSTATUS_MPP_MASK))
        | (if m & MSTATUS_SIE != 0 { MSTATUS_SPIE } else { 0 })
        | (if m & MSTATUS_MPP_MASK == crate::runtime::MSTATUS_MPP_SUPERVISOR {
            MSTATUS_SPP
        } else {
            0
        })
        | crate::runtime::MSTATUS_MPP_SUPERVISOR;
    ctx.mepc = ms.stvec;
}

/// Hand-over touches no general-purpose register: transferring a fault to
/// the supervisor rewrites only the resume point (to the supervisor's trap
/// vector) and the status snapshot.
pub proof fn lemma_transfer_preserves_gprs(ctx: SupervisorContext, ms: MachineState)
    ensures
        forall|r: int|
            0 <= r < 32 ==> #[trigger] spec_transfer_frame(ctx, ms).gpr(r) == ctx.gpr(r),
        spec_transfer_frame(ctx, ms).mepc == ms.stvec,
{
}

/// Emulation is idempotent: if the supervisor faults again on the same
/// emulated instruction with the same clock reading, the observable
/// register effect is identical, and each emulation advances the program
/// counter by exactly the matched instruction's width. An instruction that
/// does not match leaves the frame untouched.
pub proof fn lemma_rdtime_emulation_idempotent(ctx: SupervisorContext, ins: u32, mtime: u64)
    ensures
        !is_rdtime(ins) ==> spec_emulate_rdtime(ctx, ins, mtime) == ctx,
        is_rdtime(ins) ==> ({
            let once = spec_emulate_rdtime(ctx, ins, mtime);
            let refault = SupervisorContext { mepc: ctx.mepc, ..once };
            &&& spec_emulate_rdtime(refault, ins, mtime) == once
            &&& once.mepc == pc_plus_4(ctx.mepc)
            &&& forall|r: int|
                0 <= r < 32 && r != rdtime_rd(ins) ==> #[trigger] once.gpr(r) == ctx.gpr(r)
        }),
{
    if is_rdtime(ins) {
        let rd = rdtime_rd(ins);
        let v = mtime as usize;
        crate::runtime::lemma_with_gpr(ctx, rd, v);
        let once = spec_emulate_rdtime(ctx, ins, mtime);
        let refault = SupervisorContext { mepc: ctx.mepc, ..once };
        crate::runtime::lemma_with_gpr(refault, rd, v);
        assert(refault.with_gpr(rd, v) == ctx.with_gpr(rd, v));
    }
}

} // verus!
