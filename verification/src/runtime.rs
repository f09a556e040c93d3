//! The trap frame and the per-hart execution runtime that owns it.
//!
//! A `SupervisorContext` is the fixed-layout record of every register the
//! low-level trap entry spills when supervisor execution is suspended: the 31
//! general-purpose registers (the zero register is not stored), the machine
//! status register snapshot, and the saved program counter at the trap site.
//! The entry stub stores these words at fixed offsets on the per-hart scratch
//! stack; `frame_words` and `context_of_words` state that layout, and
//! `store_frame` / `load_frame` are the verified spill and reload.

use vstd::prelude::*;

verus! {

/// Number of words in a stored trap frame: 31 general-purpose registers,
/// the machine status snapshot, and the saved program counter.
pub const FRAME_WORDS: usize = 33;

/// The register-save record captured at every trap and consumed on resume.
///
/// Field order is the store order of the trap entry: `ra` at word 0, the
/// trapped stack pointer at word 1, then `gp` through `t6`, with the machine
/// status snapshot at word 31 and the saved program counter at word 32.
#[derive(Clone, Copy, Debug, PartialEq, Eq, Structural)]
pub struct SupervisorContext {
    pub ra: usize,
    pub sp: usize,
    pub gp: usize,
    pub tp: usize,
    pub t0: usize,
    pub t1: usize,
    pub t2: usize,
    pub s0: usize,
    pub s1: usize,
    pub a0: usize,
    pub a1: usize,
    pub a2: usize,
    pub a3: usize,
    pub a4: usize,
    pub a5: usize,
    pub a6: usize,
    pub a7: usize,
    pub s2: usize,
    pub s3: usize,
    pub s4: usize,
    pub s5: usize,
    pub s6: usize,
    pub s7: usize,
    pub s8: usize,
    pub s9: usize,
    pub s10: usize,
    pub s11: usize,
    pub t3: usize,
    pub t4: usize,
    pub t5: usize,
    pub t6: usize,
    pub mstatus: usize,
    pub mepc: usize,
}

/// The classified cause a suspended runtime hands to its dispatcher.
#[derive(Clone, Copy, Debug, PartialEq, Eq, Structural)]
pub enum MachineTrap {
    /// The supervisor executed `ecall`: an SBI service request.
    SbiCall,
    /// The CPU refused an instruction at the current privilege.
    IllegalInstruction,
    /// The machine timer comparison fired.
    MachineTimer,
    /// The machine software-interrupt flag was raised.
    MachineSoft,
}

/// The trap reason encoded in a machine cause register value: the top bit
/// distinguishes interrupts from exceptions, the rest is the code. Only the
/// four reasons the dispatcher owns classify; every other cause is either
/// delegated away before it reaches this runtime or unrecoverable.
pub open spec fn spec_classify(mcause: usize) -> Option<MachineTrap> {
    let interrupt = (mcause >> ((usize::BITS - 1) as usize)) & 1 == 1;
    let code = mcause & (usize::MAX >> 1usize);
    if interrupt {
        if code == 3 {
            Some(MachineTrap::MachineSoft)
        } else if code == 7 {
            Some(MachineTrap::MachineTimer)
        } else {
            None
        }
    } else {
        if code == 9 {
            Some(MachineTrap::SbiCall)
        } else if code == 2 {
            Some(MachineTrap::IllegalInstruction)
        } else {
            None
        }
    }
}

/// Classify a machine cause register value into the trap reason the
/// runtime yields to its dispatcher.
pub fn classify_mcause(mcause: usize) -> (trap: Option<MachineTrap>)
    ensures
        trap == spec_classify(mcause),
{
    let interrupt = (mcause >> ((usize::BITS - 1) as usize)) & 1 == 1;
    let code = mcause & (usize::MAX >> 1usize);
    if interrupt {
        if code == 3 {
            Some(MachineTrap::MachineSoft)
        } else if code == 7 {
            Some(MachineTrap::MachineTimer)
        } else {
            None
        }
    } else {
        if code == 9 {
            Some(MachineTrap::SbiCall)
        } else if code == 2 {
            Some(MachineTrap::IllegalInstruction)
        } else {
            None
        }
    }
}

impl SupervisorContext {
    /// The value of general-purpose register `x_i` as recorded in this frame.
    /// Register 0 is hardwired to zero and is not stored.
    pub open spec fn gpr(self, i: int) -> usize {
        if i == 1 { self.ra }
        else if i == 2 { self.sp }
        else if i == 3 { self.gp }
        else if i == 4 { self.tp }
        else if i == 5 { self.t0 }
        else if i == 6 { self.t1 }
        else if i == 7 { self.t2 }
        else if i == 8 { self.s0 }
        else if i == 9 { self.s1 }
        else if i == 10 { self.a0 }
        else if i == 11 { self.a1 }
        else if i == 12 { self.a2 }
        else if i == 13 { self.a3 }
        else if i == 14 { self.a4 }
        else if i == 15 { self.a5 }
        else if i == 16 { self.a6 }
        else if i == 17 { self.a7 }
        else if i == 18 { self.s2 }
        else if i == 19 { self.s3 }
        else if i == 20 { self.s4 }
        else if i == 21 { self.s5 }
        else if i == 22 { self.s6 }
        else if i == 23 { self.s7 }
        else if i == 24 { self.s8 }
        else if i == 25 { self.s9 }
        else if i == 26 { self.s10 }
        else if i == 27 { self.s11 }
        else if i == 28 { self.t3 }
        else if i == 29 { self.t4 }
        else if i == 30 { self.t5 }
        else if i == 31 { self.t6 }
        else { 0 }
    }

    /// This frame with general-purpose register `x_i` replaced by `v`.
    /// Writing register 0 has no effect.
    pub open spec fn with_gpr(self, i: int, v: usize) -> SupervisorContext {
        if i == 1 { SupervisorContext { ra: v, ..self } }
        else if i == 2 { SupervisorContext { sp: v, ..self } }
        else if i == 3 { SupervisorContext { gp: v, ..self } }
        else if i == 4 { SupervisorContext { tp: v, ..self } }
        else if i == 5 { SupervisorContext { t0: v, ..self } }
        else if i == 6 { SupervisorContext { t1: v, ..self } }
        else if i == 7 { SupervisorContext { t2: v, ..self } }
        else if i == 8 { SupervisorContext { s0: v, ..self } }
        else if i == 9 { SupervisorContext { s1: v, ..self } }
        else if i == 10 { SupervisorContext { a0: v, ..self } }
        else if i == 11 { SupervisorContext { a1: v, ..self } }
        else if i == 12 { SupervisorContext { a2: v, ..self } }
        else if i == 13 { SupervisorContext { a3: v, ..self } }
        else if i == 14 { SupervisorContext { a4: v, ..self } }
        else if i == 15 { SupervisorContext { a5: v, ..self } }
        else if i == 16 { SupervisorContext { a6: v, ..self } }
        else if i == 17 { SupervisorContext { a7: v, ..self } }
        else if i == 18 { SupervisorContext { s2: v, ..self } }
        else if i == 19 { SupervisorContext { s3: v, ..self } }
        else if i == 20 { SupervisorContext { s4: v, ..self } }
        else if i == 21 { SupervisorContext { s5: v, ..self } }
        else if i == 22 { SupervisorContext { s6: v, ..self } }
        else if i == 23 { SupervisorContext { s7: v, ..self } }
        else if i == 24 { SupervisorContext { s8: v, ..self } }
        else if i == 25 { SupervisorContext { s9: v, ..self } }
        else if i == 26 { SupervisorContext { s10: v, ..self } }
        else if i == 27 { SupervisorContext { s11: v, ..self } }
        else if i == 28 { SupervisorContext { t3: v, ..self } }
        else if i == 29 { SupervisorContext { t4: v, ..self } }
        else if i == 30 { SupervisorContext { t5: v, ..self } }
        else if i == 31 { SupervisorContext { t6: v, ..self } }
        else { self }
    }

    /// Read general-purpose register `x_i` from the frame.
    pub fn read_gpr(&self, i: usize) -> (v: usize)
        requires
            i < 32,
        ensures
            v == self.gpr(i as int),
    {
        if i == 1 { self.ra }
        else if i == 2 { self.sp }
        else if i == 3 { self.gp }
        else if i == 4 { self.tp }
        else if i == 5 { self.t0 }
        else if i == 6 { self.t1 }
        else if i == 7 { self.t2 }
        else if i == 8 { self.s0 }
        else if i == 9 { self.s1 }
        else if i == 10 { self.a0 }
        else if i == 11 { self.a1 }
        else if i == 12 { self.a2 }
        else if i == 13 { self.a3 }
        else if i == 14 { self.a4 }
        else if i == 15 { self.a5 }
        else if i == 16 { self.a6 }
        else if i == 17 { self.a7 }
        else if i == 18 { self.s2 }
        else if i == 19 { self.s3 }
        else if i == 20 { self.s4 }
        else if i == 21 { self.s5 }
        else if i == 22 { self.s6 }
        else if i == 23 { self.s7 }
        else if i == 24 { self.s8 }
        else if i == 25 { self.s9 }
        else if i == 26 { self.s10 }
        else if i == 27 { self.s11 }
        else if i == 28 { self.t3 }
        else if i == 29 { self.t4 }
        else if i == 30 { self.t5 }
        else if i == 31 { self.t6 }
        else { 0 }
    }

    /// Write general-purpose register `x_i` in the frame; writes to
    /// register 0 are discarded, as on the hardware.
    pub fn write_gpr(&mut self, i: usize, v: usize)
        requires
            i < 32,
        ensures
            *final(self) == old(self).with_gpr(i as int, v),
    {
        if i == 1 { self.ra = v; }
        else if i == 2 { self.sp = v; }
        else if i == 3 { self.gp = v; }
        else if i == 4 { self.tp = v; }
        else if i == 5 { self.t0 = v; }
        else if i == 6 { self.t1 = v; }
        else if i == 7 { self.t2 = v; }
        else if i == 8 { self.s0 = v; }
        else if i == 9 { self.s1 = v; }
        else if i == 10 { self.a0 = v; }
        else if i == 11 { self.a1 = v; }
        else if i == 12 { self.a2 = v; }
        else if i == 13 { self.a3 = v; }
        else if i == 14 { self.a4 = v; }
        else if i == 15 { self.a5 = v; }
        else if i == 16 { self.a6 = v; }
        else if i == 17 { self.a7 = v; }
        else if i == 18 { self.s2 = v; }
        else if i == 19 { self.s3 = v; }
        else if i == 20 { self.s4 = v; }
        else if i == 21 { self.s5 = v; }
        else if i == 22 { self.s6 = v; }
        else if i == 23 { self.s7 = v; }
        else if i == 24 { self.s8 = v; }
        else if i == 25 { self.s9 = v; }
        else if i == 26 { self.s10 = v; }
        else if i == 27 { self.s11 = v; }
        else if i == 28 { self.t3 = v; }
        else if i == 29 { self.t4 = v; }
        else if i == 30 { self.t5 = v; }
        else if i == 31 { self.t6 = v; }
    }
}

/// The saved program counter advanced over one four-byte instruction, with
/// the wrap-around of the hardware program counter.
pub open spec fn pc_plus_4(pc: usize) -> usize {
    vstd::wrapping::usize_specs::wrapping_add(pc, 4)
}

/// Writing one general-purpose register leaves every other register and the
/// control fields of the frame unchanged, and register 0 is immutable.
pub proof fn lemma_with_gpr(c: SupervisorContext, i: int, v: usize)
    ensures
        forall|r: int| 0 <= r < 32 && r != i ==> c.with_gpr(i, v).gpr(r) == c.gpr(r),
        1 <= i < 32 ==> c.with_gpr(i, v).gpr(i) == v,
        c.with_gpr(i, v).mepc == c.mepc,
        c.with_gpr(i, v).mstatus == c.mstatus,
        c.with_gpr(0, v) == c,
{
}

/// The words of a frame in the store order of the trap entry stub.
pub open spec fn frame_words(ctx: SupervisorContext) -> Seq<usize> {
    seq![
        ctx.ra, ctx.sp, ctx.gp, ctx.tp, ctx.t0, ctx.t1, ctx.t2, ctx.s0, ctx.s1,
        ctx.a0, ctx.a1, ctx.a2, ctx.a3, ctx.a4, ctx.a5, ctx.a6, ctx.a7,
        ctx.s2, ctx.s3, ctx.s4, ctx.s5, ctx.s6, ctx.s7, ctx.s8, ctx.s9, ctx.s10, ctx.s11,
        ctx.t3, ctx.t4, ctx.t5, ctx.t6, ctx.mstatus, ctx.mepc,
    ]
}

/// The frame reconstructed from 33 stored words, inverse of `frame_words`.
pub open spec fn context_of_words(w: Seq<usize>) -> SupervisorContext {
    SupervisorContext {
        ra: w[0], sp: w[1], gp: w[2], tp: w[3], t0: w[4], t1: w[5], t2: w[6],
        s0: w[7], s1: w[8],
        a0: w[9], a1: w[10], a2: w[11], a3: w[12], a4: w[13], a5: w[14], a6: w[15], a7: w[16],
        s2: w[17], s3: w[18], s4: w[19], s5: w[20], s6: w[21], s7: w[22], s8: w[23],
        s9: w[24], s10: w[25], s11: w[26],
        t3: w[27], t4: w[28], t5: w[29], t6: w[30],
        mstatus: w[31], mepc: w[32],
    }
}

/// Spill a frame to memory in the entry stub's store order.
pub fn store_frame(ctx: &SupervisorContext) -> (words: Vec<usize>)
    ensures
        words@ == frame_words(*ctx),
{
    let mut words: Vec<usize> = Vec::new();
    words.push(ctx.ra);
    words.push(ctx.sp);
    words.push(ctx.gp);
    words.push(ctx.tp);
    words.push(ctx.t0);
    words.push(ctx.t1);
    words.push(ctx.t2);
    words.push(ctx.s0);
    words.push(ctx.s1);
    words.push(ctx.a0);
    words.push(ctx.a1);
    words.push(ctx.a2);
    words.push(ctx.a3);
    words.push(ctx.a4);
    words.push(ctx.a5);
    words.push(ctx.a6);
    words.push(ctx.a7);
    words.push(ctx.s2);
    words.push(ctx.s3);
    words.push(ctx.s4);
    words.push(ctx.s5);
    words.push(ctx.s6);
    words.push(ctx.s7);
    words.push(ctx.s8);
    words.push(ctx.s9);
    words.push(ctx.s10);
    words.push(ctx.s11);
    words.push(ctx.t3);
    words.push(ctx.t4);
    words.push(ctx.t5);
    words.push(ctx.t6);
    words.push(ctx.mstatus);
    words.push(ctx.mepc);
    proof {
        assert(words@ =~= frame_words(*ctx));
    }
    words
}

/// Reload a frame from 33 stored words.
pub fn load_frame(words: &Vec<usize>) -> (ctx: SupervisorContext)
    requires
        words@.len() == FRAME_WORDS,
    ensures
        ctx == context_of_words(words@),
{
    SupervisorContext {
        ra: words[0], sp: words[1], gp: words[2], tp: words[3],
        t0: words[4], t1: words[5], t2: words[6],
        s0: words[7], s1: words[8],
        a0: words[9], a1: words[10], a2: words[11], a3: words[12],
        a4: words[13], a5: words[14], a6: words[15], a7: words[16],
        s2: words[17], s3: words[18], s4: words[19], s5: words[20],
        s6: words[21], s7: words[22], s8: words[23], s9: words[24],
        s10: words[25], s11: words[26],
        t3: words[27], t4: words[28], t5: words[29], t6: words[30],
        mstatus: words[31], mepc: words[32],
    }
}

/// Storing a frame and reloading the stored words reproduces every field
/// exactly: the register-save contract of the trap entry.
pub proof fn lemma_frame_round_trip(ctx: SupervisorContext)
    ensures
        context_of_words(frame_words(ctx)) == ctx,
{
}

/// The machine status snapshot a fresh runtime starts from: previous
/// privilege (the `MPP` field, bits 11 and 12) set to supervisor mode, so
/// that the first resume lands in supervisor code.
pub const MSTATUS_MPP_SUPERVISOR: usize = 0x800;

/// The frame a fresh runtime starts from: every register zero except the
/// first two argument registers, which carry the hart identity and the boot
/// opaque value into the supervisor; the saved program counter is the
/// supervisor entry address and the status snapshot resumes into
/// supervisor mode.
pub open spec fn initial_context(supervisor_mepc: usize, hart_id: usize, opaque: usize) -> SupervisorContext {
    SupervisorContext {
        ra: 0, sp: 0, gp: 0, tp: 0, t0: 0, t1: 0, t2: 0, s0: 0, s1: 0,
        a0: hart_id, a1: opaque, a2: 0, a3: 0, a4: 0, a5: 0, a6: 0, a7: 0,
        s2: 0, s3: 0, s4: 0, s5: 0, s6: 0, s7: 0, s8: 0, s9: 0, s10: 0, s11: 0,
        t3: 0, t4: 0, t5: 0, t6: 0,
        mstatus: MSTATUS_MPP_SUPERVISOR,
        mepc: supervisor_mepc,
    }
}

/// The per-hart cooperative execution runtime: owns the trap frame between
/// a suspend and the matching resume. The actual privilege switch is the
/// hardware's; this type carries the frame the switch saves and restores.
pub struct Runtime {
    /// The current trap frame.
    pub context: SupervisorContext,
    /// The identity of the hart this runtime serves.
    pub hart_id: usize,
}

impl Runtime {
    /// Construct the runtime for one hart, poised to enter supervisor code
    /// at `supervisor_mepc` with the hart identity and boot parameter in
    /// its argument registers.
    pub fn new_sbi_supervisor(supervisor_mepc: usize, hart_id: usize, opaque: usize) -> (rt: Runtime)
        ensures
            rt.context == initial_context(supervisor_mepc, hart_id, opaque),
            rt.hart_id == hart_id,
    {
        Runtime {
            context: SupervisorContext {
                ra: 0, sp: 0, gp: 0, tp: 0, t0: 0, t1: 0, t2: 0, s0: 0, s1: 0,
                a0: hart_id, a1: opaque, a2: 0, a3: 0, a4: 0, a5: 0, a6: 0, a7: 0,
                s2: 0, s3: 0, s4: 0, s5: 0, s6: 0, s7: 0, s8: 0, s9: 0, s10: 0, s11: 0,
                t3: 0, t4: 0, t5: 0, t6: 0,
                mstatus: MSTATUS_MPP_SUPERVISOR,
                mepc: supervisor_mepc,
            },
            hart_id,
        }
    }

    /// Mutable access to the current frame, valid strictly between a
    /// resume-return and the next resume-call.
    pub fn context_mut(&mut self) -> (ctx: &mut SupervisorContext)
        ensures
            *ctx == old(self).context,
            *final(self) == (Runtime { context: *final(ctx), ..*old(self) }),
    {
        &mut self.context
    }
}

} // verus!
