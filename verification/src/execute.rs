//! The trap dispatcher: consumes each trap reason yielded by a suspended
//! runtime, decides its disposition — handle in place, hand over to the
//! supervisor, or fail fatally — and mutates the trap frame and machine
//! state accordingly.
//!
//! The timer and inter-processor-interrupt services are served from the
//! verified controller model, and probes for those two extensions answer
//! that they are available; every other environment call goes to the SBI
//! value evaluator, which is external to this core (its job is only to get
//! control to and from that computation safely). The console services of
//! earlier interface revisions are deliberately not served: the console
//! belongs to the unverified shell, and a supervisor is expected to bring
//! its own driver.

use vstd::prelude::*;
use crate::clint::{clint_eq, msip_after_ipi, timer_compare_met, Clint};
use crate::csr::{exception_delegated, MachineState, CAUSE_ILLEGAL_INSTRUCTION};
use crate::feature::{
    do_transfer_trap, emulate_rdtime, is_rdtime, should_transfer_trap, spec_emulate_rdtime,
    spec_transfer_frame, spec_transfer_machine,
};
use crate::runtime::{pc_plus_4, MachineTrap, SupervisorContext};

verus! {

/// SBI base extension identity.
pub const EID_BASE: usize = 0x10;
/// SBI timer extension identity (the bytes of "TIME").
pub const EID_TIME: usize = 0x54494d45;
/// SBI inter-processor-interrupt extension identity (the bytes of "sPI").
pub const EID_SPI: usize = 0x735049;
/// Timer extension: program the supervisor timer.
pub const FID_SET_TIMER: usize = 0;
/// IPI extension: send software interrupts to a set of harts.
pub const FID_SEND_IPI: usize = 0;
/// Base extension: query the SBI specification version.
pub const FID_GET_SPEC_VERSION: usize = 0;
/// Base extension: query the SBI implementation identity.
pub const FID_GET_IMPL_ID: usize = 1;
/// Base extension: query the SBI implementation version.
pub const FID_GET_IMPL_VERSION: usize = 2;
/// Base extension: probe whether an extension is available.
pub const FID_PROBE_EXTENSION: usize = 3;
/// Base extension: query the machine vendor identity.
pub const FID_GET_MVENDORID: usize = 4;
/// Base extension: query the machine architecture identity.
pub const FID_GET_MARCHID: usize = 5;
/// Base extension: query the machine implementation identity.
pub const FID_GET_MIMPID: usize = 6;

/// SBI success error code.
pub const RET_SUCCESS: usize = 0;
/// SBI error code for an unsupported extension or function.
pub const RET_ERR_NOT_SUPPORTED: usize = usize::MAX - 1;

/// The SBI specification version the evaluator reports: major 1, minor 0.
pub const SBI_SPEC_VERSION: usize = 0x100_0000;
/// The evaluator's implementation identity.
pub const SBI_IMPL_ID: usize = 4;
/// The evaluator's implementation version.
pub const SBI_IMPL_VERSION: usize = 0x302;

/// The machine identity words the base extension reports to the supervisor.
#[derive(Clone, Copy, Debug, PartialEq, Eq, Structural)]
pub struct MachineIdent {
    /// Vendor identity register value.
    pub mvendorid: usize,
    /// Architecture identity register value.
    pub marchid: usize,
    /// Implementation identity register value.
    pub mimpid: usize,
}

/// What the external SBI evaluator returns when no platform devices are
/// attached to it: the base extension answers from the machine identity,
/// and everything else is refused as not supported.
pub open spec fn spec_eval_sbi(ext: usize, f: usize, p0: usize, ident: MachineIdent) -> (usize, usize) {
    if ext == EID_BASE {
        if f == FID_GET_SPEC_VERSION { (RET_SUCCESS, SBI_SPEC_VERSION) }
        else if f == FID_GET_IMPL_ID { (RET_SUCCESS, SBI_IMPL_ID) }
        else if f == FID_GET_IMPL_VERSION { (RET_SUCCESS, SBI_IMPL_VERSION) }
        else if f == FID_PROBE_EXTENSION {
            (RET_SUCCESS, if p0 == EID_BASE { 1usize } else { 0usize })
        }
        else if f == FID_GET_MVENDORID { (RET_SUCCESS, ident.mvendorid) }
        else if f == FID_GET_MARCHID { (RET_SUCCESS, ident.marchid) }
        else if f == FID_GET_MIMPID { (RET_SUCCESS, ident.mimpid) }
        else { (RET_ERR_NOT_SUPPORTED, 0usize) }
    } else {
        (RET_ERR_NOT_SUPPORTED, 0usize)
    }
}

/// Relies on rustsbi's `RustSBI::handle_ecall`, built by
/// `Builder::with_machine_info` with no platform devices attached: the base
/// extension answers purely from the given machine identity (spec version,
/// implementation identity and version, probes, identity registers), and
/// every other extension returns "not supported" with value zero.
#[verifier::external_body]
fn eval_sbi(
    ext: usize,
    f: usize,
    p0: usize,
    p1: usize,
    p2: usize,
    p3: usize,
    p4: usize,
    p5: usize,
    ident: MachineIdent,
) -> (r: (usize, usize))
    ensures
        r == spec_eval_sbi(ext, f, p0, ident),
{
    let info = rustsbi::MachineInfo {
        mvendorid: ident.mvendorid,
        marchid: ident.marchid,
        mimpid: ident.mimpid,
    };
    let mut sbi = rustsbi::Builder::with_machine_info(info).build();
    let ret = sbi.handle_ecall(ext, f, [p0, p1, p2, p3, p4, p5]);
    (ret.error, ret.value)
}

/// The (error, value) pair an environment call returns: the set-timer and
/// send-IPI requests served from the controller model succeed with value
/// zero, a probe for either of those two extensions answers that it is
/// available, and everything else is the external evaluator's answer.
pub open spec fn spec_ecall_result(ext: usize, f: usize, p0: usize, ident: MachineIdent) -> (usize, usize) {
    if ext == EID_TIME && f == FID_SET_TIMER {
        (RET_SUCCESS, 0usize)
    } else if ext == EID_SPI && f == FID_SEND_IPI {
        (RET_SUCCESS, 0usize)
    } else if ext == EID_BASE && f == FID_PROBE_EXTENSION && (p0 == EID_TIME || p0 == EID_SPI) {
        (RET_SUCCESS, 1usize)
    } else {
        spec_eval_sbi(ext, f, p0, ident)
    }
}

/// The frame after an environment call returns: the evaluator's error and
/// value land in the two return registers, the saved program counter steps
/// over the four-byte `ecall` instruction (it is never compressed), and
/// every other field is untouched.
pub open spec fn spec_ecall_frame(ctx: SupervisorContext, error: usize, value: usize) -> SupervisorContext {
    SupervisorContext { a0: error, a1: value, mepc: pc_plus_4(ctx.mepc), ..ctx }
}

/// Write an evaluator result pair into the frame's return registers and
/// advance the saved program counter over the `ecall` instruction.
pub fn apply_ecall_result(ctx: &mut SupervisorContext, error: usize, value: usize)
    ensures
        *final(ctx) == spec_ecall_frame(*old(ctx), error, value),
{
    ctx.a0 = error;
    ctx.a1 = value;
    ctx.mepc = ctx.mepc.wrapping_add(4);
}

/// Environment-call register discipline: after dispatch the two return
/// registers hold exactly the evaluator's error then value, the saved
/// program counter has advanced by exactly the four-byte `ecall` width —
/// whatever the extension and function were — and every other register and
/// the status snapshot are reproduced exactly.
pub proof fn lemma_ecall_dispatch(ctx: SupervisorContext, error: usize, value: usize)
    ensures
        spec_ecall_frame(ctx, error, value).a0 == error,
        spec_ecall_frame(ctx, error, value).a1 == value,
        spec_ecall_frame(ctx, error, value).mepc == pc_plus_4(ctx.mepc),
        ctx.mepc + 4 <= usize::MAX ==> spec_ecall_frame(ctx, error, value).mepc == ctx.mepc + 4,
        forall|r: int|
            0 <= r < 32 && r != 10 && r != 11
                ==> #[trigger] spec_ecall_frame(ctx, error, value).gpr(r) == ctx.gpr(r),
        spec_ecall_frame(ctx, error, value).mstatus == ctx.mstatus,
{
}

/// The machine state after the supervisor reprograms its timer: the virtual
/// supervisor timer-pending condition is withdrawn and machine timer traps
/// are listened for again.
pub open spec fn spec_set_timer_machine(ms: MachineState) -> MachineState {
    MachineState { mip_stimer: false, mie_mtimer: true, ..ms }
}

/// Serve the supervisor's set-timer request: program this hart's compare
/// register, withdraw the virtual timer-pending condition, and re-enable
/// machine timer traps so the new comparison can fire.
pub fn sbi_set_timer(ms: &mut MachineState, clint: &mut Clint, hart_id: usize, instant: u64)
    requires
        old(clint).wf(),
        hart_id < old(clint).spec_hart_count(),
    ensures
        final(clint).wf(),
        final(clint).mtimecmp@ == old(clint).mtimecmp@.update(hart_id as int, instant),
        final(clint).msip@ == old(clint).msip@,
        final(clint).mtime == old(clint).mtime,
        *final(ms) == spec_set_timer_machine(*old(ms)),
{
    clint.set_timer(hart_id, instant);
    ms.mip_stimer = false;
    ms.mie_mtimer = true;
}

/// Dispatch one environment call: read the extension, function, and six
/// argument registers from the frame; serve timer and inter-processor
/// interrupt requests from the controller model; hand anything else to the
/// external evaluator; then place the (error, value) result in the return
/// registers and step the saved program counter over the `ecall`.
pub fn handle_ecall(
    ctx: &mut SupervisorContext,
    ms: &mut MachineState,
    clint: &mut Clint,
    hart_id: usize,
    ident: MachineIdent,
) -> (ret: (usize, usize))
    requires
        old(clint).wf(),
        hart_id < old(clint).spec_hart_count(),
    ensures
        final(clint).wf(),
        final(clint).spec_hart_count() == old(clint).spec_hart_count(),
        ret == spec_ecall_result(old(ctx).a7, old(ctx).a6, old(ctx).a0, ident),
        *final(ctx) == spec_ecall_frame(*old(ctx), ret.0, ret.1),
        old(ctx).a7 == EID_TIME && old(ctx).a6 == FID_SET_TIMER ==> {
            &&& final(clint).mtimecmp@ == old(clint).mtimecmp@.update(hart_id as int, old(ctx).a0 as u64)
            &&& final(clint).msip@ == old(clint).msip@
            &&& final(clint).mtime == old(clint).mtime
            &&& *final(ms) == spec_set_timer_machine(*old(ms))
        },
        old(ctx).a7 == EID_SPI && old(ctx).a6 == FID_SEND_IPI ==> {
            &&& final(clint).msip@ == msip_after_ipi(old(clint).msip@, old(ctx).a0, old(ctx).a1)
            &&& final(clint).mtimecmp@ == old(clint).mtimecmp@
            &&& final(clint).mtime == old(clint).mtime
            &&& *final(ms) == *old(ms)
        },
        !(old(ctx).a7 == EID_TIME && old(ctx).a6 == FID_SET_TIMER)
            && !(old(ctx).a7 == EID_SPI && old(ctx).a6 == FID_SEND_IPI) ==> {
            &&& clint_eq(*final(clint), *old(clint))
            &&& *final(ms) == *old(ms)
        },
{
    let ext = ctx.a7;
    let f = ctx.a6;
    let (error, value) = if ext == EID_TIME && f == FID_SET_TIMER {
        sbi_set_timer(ms, clint, hart_id, ctx.a0 as u64);
        (RET_SUCCESS, 0)
    } else if ext == EID_SPI && f == FID_SEND_IPI {
        clint.send_ipi_many(ctx.a0, ctx.a1)
    } else if ext == EID_BASE && f == FID_PROBE_EXTENSION && (ctx.a0 == EID_TIME || ctx.a0 == EID_SPI) {
        (RET_SUCCESS, 1)
    } else {
        eval_sbi(ext, f, ctx.a0, ctx.a1, ctx.a2, ctx.a3, ctx.a4, ctx.a5, ident)
    };
    apply_ecall_result(ctx, error, value);
    (error, value)
}

/// The machine state after the dispatcher's timer path: the virtual
/// supervisor timer-pending condition is raised and machine timer traps are
/// no longer listened for, so the expired comparison cannot re-fire.
pub open spec fn spec_handle_timer(ms: MachineState) -> MachineState {
    MachineState { mip_stimer: true, mie_mtimer: false, ..ms }
}

/// Dispatch a machine timer expiry: mark the virtual supervisor timer
/// pending and disable further machine timer traps until the supervisor
/// reprograms the timer. No frame register is touched.
pub fn handle_machine_timer(ms: &mut MachineState)
    ensures
        *final(ms) == spec_handle_timer(*old(ms)),
{
    ms.mip_stimer = true;
    ms.mie_mtimer = false;
}

/// Whether a machine timer trap can be delivered on `hart_id`: the
/// comparison is satisfied and machine timer traps are listened for.
pub open spec fn timer_trap_fires(ms: MachineState, clint: Clint, hart_id: int) -> bool {
    ms.mie_mtimer && timer_compare_met(clint, hart_id)
}

/// Whether a trap is unrecoverable for the dispatcher: the software
/// interrupt has no defined disposition in this design, and an illegal
/// instruction that is neither emulatable nor transferable (its class
/// already delegated) cannot be handled.
pub open spec fn fatal_trap(trap: MachineTrap, ins: u32, ms: MachineState) -> bool {
    ||| trap is MachineSoft
    ||| (trap is IllegalInstruction && !is_rdtime(ins)
        && exception_delegated(ms, CAUSE_ILLEGAL_INSTRUCTION))
}

/// The complete effect of one non-fatal dispatch: how the frame, the
/// machine state and the controller after the dispatch (`ctx1`, `ms1`,
/// `clint1`) relate to the state before it (`ctx0`, `ms0`, `clint0`).
pub open spec fn dispatch_resume_post(
    trap: MachineTrap,
    ins: u32,
    hart_id: int,
    ident: MachineIdent,
    ctx0: SupervisorContext,
    ms0: MachineState,
    clint0: Clint,
    ctx1: SupervisorContext,
    ms1: MachineState,
    clint1: Clint,
) -> bool {
    match trap {
        MachineTrap::SbiCall => {
            let r = spec_ecall_result(ctx0.a7, ctx0.a6, ctx0.a0, ident);
            &&& ctx1 == spec_ecall_frame(ctx0, r.0, r.1)
            &&& (ctx0.a7 == EID_TIME && ctx0.a6 == FID_SET_TIMER ==> {
                &&& clint1.mtimecmp@ == clint0.mtimecmp@.update(hart_id, ctx0.a0 as u64)
                &&& clint1.msip@ == clint0.msip@
                &&& clint1.mtime == clint0.mtime
                &&& ms1 == spec_set_timer_machine(ms0)
            })
            &&& (ctx0.a7 == EID_SPI && ctx0.a6 == FID_SEND_IPI ==> {
                &&& clint1.msip@ == msip_after_ipi(clint0.msip@, ctx0.a0, ctx0.a1)
                &&& clint1.mtimecmp@ == clint0.mtimecmp@
                &&& clint1.mtime == clint0.mtime
                &&& ms1 == ms0
            })
            &&& (!(ctx0.a7 == EID_TIME && ctx0.a6 == FID_SET_TIMER)
                && !(ctx0.a7 == EID_SPI && ctx0.a6 == FID_SEND_IPI) ==> {
                &&& clint_eq(clint1, clint0)
                &&& ms1 == ms0
            })
        },
        MachineTrap::IllegalInstruction => {
            &&& clint_eq(clint1, clint0)
            &&& (is_rdtime(ins) ==> {
                &&& ctx1 == spec_emulate_rdtime(ctx0, ins, clint0.mtime)
                &&& ms1 == ms0
            })
            &&& (!is_rdtime(ins) ==> {
                &&& ctx1 == spec_transfer_frame(ctx0, ms0)
                &&& ms1 == spec_transfer_machine(
                    ms0, CAUSE_ILLEGAL_INSTRUCTION, ins as usize, ctx0.mepc)
            })
        },
        MachineTrap::MachineTimer => {
            &&& ctx1 == ctx0
            &&& ms1 == spec_handle_timer(ms0)
            &&& clint_eq(clint1, clint0)
        },
        MachineTrap::MachineSoft => false,
    }
}

/// How the dispatcher leaves one trap: resume supervisor execution, or
/// halt this hart permanently.
#[derive(Clone, Copy, Debug, PartialEq, Eq, Structural)]
pub enum Disposition {
    /// The trap was handled or handed over; resume from the frame.
    Resume,
    /// Unrecoverable: report full diagnostic context and halt the hart.
    Fatal,
}

/// Dispatch an illegal-instruction fault. `ins` is the 32-bit instruction
/// word fetched (with supervisor address translation) from the trapped
/// program counter, and `mtime` is the controller clock reading to serve if
/// the instruction is the emulatable timer read. If not emulated, the fault
/// is handed to the supervisor's trap vector unless that fault class is
/// already delegated — then it could never have reached the dispatcher
/// legitimately, and the hart fails fatally.
pub fn handle_illegal_instruction(
    ctx: &mut SupervisorContext,
    ms: &mut MachineState,
    ins: u32,
    mtime: u64,
) -> (d: Disposition)
    ensures
        is_rdtime(ins) ==> {
            &&& d is Resume
            &&& *final(ctx) == spec_emulate_rdtime(*old(ctx), ins, mtime)
            &&& *final(ms) == *old(ms)
        },
        !is_rdtime(ins) && !exception_delegated(*old(ms), CAUSE_ILLEGAL_INSTRUCTION) ==> {
            &&& d is Resume
            &&& *final(ctx) == spec_transfer_frame(*old(ctx), *old(ms))
            &&& *final(ms) == spec_transfer_machine(
                *old(ms), CAUSE_ILLEGAL_INSTRUCTION, ins as usize, old(ctx).mepc)
        },
        !is_rdtime(ins) && exception_delegated(*old(ms), CAUSE_ILLEGAL_INSTRUCTION) ==> {
            &&& d is Fatal
            &&& *final(ctx) == *old(ctx)
            &&& *final(ms) == *old(ms)
        },
{
    if emulate_rdtime(ctx, ins, mtime) {
        Disposition::Resume
    } else if should_transfer_trap(ms, CAUSE_ILLEGAL_INSTRUCTION) {
        do_transfer_trap(ctx, ms, CAUSE_ILLEGAL_INSTRUCTION, ins as usize);
        Disposition::Resume
    } else {
        Disposition::Fatal
    }
}

/// The machine-state effect of one dispatcher-level action, for reasoning
/// about whole runs of the resume/dispatch loop.
#[derive(Clone, Copy, Debug, PartialEq, Eq, Structural)]
pub enum DispatchStep {
    /// An environment call served by the external evaluator: the machine
    /// state is untouched.
    EnvironmentCallOther,
    /// The supervisor reprogrammed its timer.
    SetTimer,
    /// An illegal instruction was emulated in place.
    IllegalEmulated,
    /// A fault was handed over to the supervisor's trap vector.
    IllegalTransferred { cause: usize, tval: usize, pc: usize },
    /// The machine timer expired and was virtualized.
    TimerExpired,
}

/// The machine state after one dispatcher-level action.
pub open spec fn step_machine(ms: MachineState, s: DispatchStep) -> MachineState {
    match s {
        DispatchStep::EnvironmentCallOther => ms,
        DispatchStep::SetTimer => spec_set_timer_machine(ms),
        DispatchStep::IllegalEmulated => ms,
        DispatchStep::IllegalTransferred { cause, tval, pc } => spec_transfer_machine(ms, cause, tval, pc),
        DispatchStep::TimerExpired => spec_handle_timer(ms),
    }
}

/// The machine state after a run of dispatcher-level actions.
pub open spec fn run_machine(ms: MachineState, steps: Seq<DispatchStep>) -> MachineState
    decreases steps.len(),
{
    if steps.len() == 0 {
        ms
    } else {
        run_machine(step_machine(ms, steps[0]), steps.drop_first())
    }
}

/// Once machine timer traps are disabled, no dispatcher-level action except
/// the supervisor's own set-timer request re-enables them.
pub proof fn lemma_timer_stays_disabled(ms: MachineState, steps: Seq<DispatchStep>)
    requires
        !ms.mie_mtimer,
        forall|i: int| 0 <= i < steps.len() ==> !(#[trigger] steps[i] is SetTimer),
    ensures
        !run_machine(ms, steps).mie_mtimer,
    decreases steps.len(),
{
    if steps.len() > 0 {
        assert(forall|i: int|
            0 <= i < steps.drop_first().len() ==> #[trigger] steps.drop_first()[i] == steps[i + 1]);
        lemma_timer_stays_disabled(step_machine(ms, steps[0]), steps.drop_first());
    }
}

/// Timer virtualization: after a machine timer expiry is dispatched, the
/// virtual supervisor timer is pending, and however the clock and compare
/// registers stand, no machine timer trap can fire again across any run of
/// dispatcher actions that does not contain the supervisor reprogramming
/// its timer.
pub proof fn lemma_timer_virtualization(ms: MachineState, steps: Seq<DispatchStep>)
    requires
        forall|i: int| 0 <= i < steps.len() ==> !(#[trigger] steps[i] is SetTimer),
    ensures
        spec_handle_timer(ms).mip_stimer,
        !spec_handle_timer(ms).mie_mtimer,
        forall|clint: Clint, hart_id: int|
            !#[trigger] timer_trap_fires(run_machine(spec_handle_timer(ms), steps), clint, hart_id),
{
    lemma_timer_stays_disabled(spec_handle_timer(ms), steps);
}

/// Dispatch one yielded trap reason against the frame, the machine state,
/// and the controller. `ins` is the instruction word at the trapped program
/// counter, consulted only for illegal-instruction faults. The software
/// interrupt reason has no defined disposition in this design — an open
/// decision — and is treated as fatal rather than silently invented.
pub fn dispatch_trap(
    ctx: &mut SupervisorContext,
    ms: &mut MachineState,
    clint: &mut Clint,
    hart_id: usize,
    ident: MachineIdent,
    trap: MachineTrap,
    ins: u32,
) -> (d: Disposition)
    requires
        old(clint).wf(),
        hart_id < old(clint).spec_hart_count(),
    ensures
        final(clint).wf(),
        final(clint).spec_hart_count() == old(clint).spec_hart_count(),
        d is Fatal <==> fatal_trap(trap, ins, *old(ms)),
        d is Resume ==> dispatch_resume_post(
            trap, ins, hart_id as int, ident,
            *old(ctx), *old(ms), *old(clint),
            *final(ctx), *final(ms), *final(clint)),
        d is Fatal ==> {
            &&& *final(ctx) == *old(ctx)
            &&& *final(ms) == *old(ms)
            &&& clint_eq(*final(clint), *old(clint))
        },
        trap is SbiCall ==> final(ctx).mepc == pc_plus_4(old(ctx).mepc),
{
    match trap {
        MachineTrap::SbiCall => {
            handle_ecall(ctx, ms, clint, hart_id, ident);
            Disposition::Resume
        }
        MachineTrap::IllegalInstruction => {
            let mtime = clint.get_mtime();
            handle_illegal_instruction(ctx, ms, ins, mtime)
        }
        MachineTrap::MachineTimer => {
            handle_machine_timer(ms);
            Disposition::Resume
        }
        MachineTrap::MachineSoft => Disposition::Fatal,
    }
}

} // verus!
