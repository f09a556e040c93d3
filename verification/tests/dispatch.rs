use unmatched_sbi::clint::Clint;
use unmatched_sbi::csr::{delegate_interrupt_exception, MachineState};
use unmatched_sbi::execute::{
    dispatch_trap, handle_ecall, Disposition, MachineIdent, EID_BASE, EID_SPI, EID_TIME,
    FID_GET_IMPL_ID, FID_GET_IMPL_VERSION, FID_GET_MVENDORID, FID_GET_SPEC_VERSION,
    FID_PROBE_EXTENSION, RET_ERR_NOT_SUPPORTED, RET_SUCCESS,
};
use unmatched_sbi::feature::{emulate_rdtime, should_transfer_trap};
use unmatched_sbi::hart::{Hart, HartPhase};
use unmatched_sbi::runtime::{MachineTrap, SupervisorContext};

fn fresh_machine() -> MachineState {
    MachineState {
        mideleg: 0,
        medeleg: 0,
        mie_mext: false,
        mie_mtimer: false,
        mie_msoft: false,
        mip_stimer: false,
        mip_msoft: false,
        stvec: 0x8000_2000,
        scause: 0,
        stval: 0,
        sepc: 0,
    }
}

fn fresh_frame() -> SupervisorContext {
    SupervisorContext {
        ra: 101,
        sp: 102,
        gp: 103,
        tp: 104,
        t0: 105,
        t1: 106,
        t2: 107,
        s0: 108,
        s1: 109,
        a0: 110,
        a1: 111,
        a2: 112,
        a3: 113,
        a4: 114,
        a5: 115,
        a6: 116,
        a7: 117,
        s2: 118,
        s3: 119,
        s4: 120,
        s5: 121,
        s6: 122,
        s7: 123,
        s8: 124,
        s9: 125,
        s10: 126,
        s11: 127,
        t3: 128,
        t4: 129,
        t5: 130,
        t6: 131,
        mstatus: 0x2,
        mepc: 0x8020_0100,
    }
}

fn ident() -> MachineIdent {
    MachineIdent { mvendorid: 0x489, marchid: 7, mimpid: 9 }
}

// The encoding of the timer-counter read with destination register a0.
const RDTIME_A0: u32 = 0xc010_2573;

#[test]
fn ecall_pc_advance_any_extension() {
    for (ext, f) in [(0x10usize, 0usize), (0x999, 3), (0x4442434e, 1)] {
        let mut ctx = fresh_frame();
        ctx.a7 = ext;
        ctx.a6 = f;
        let mut ms = fresh_machine();
        let mut clint = Clint::new(5);
        let d = dispatch_trap(&mut ctx, &mut ms, &mut clint, 0, ident(), MachineTrap::SbiCall, 0);
        assert_eq!(d, Disposition::Resume);
        assert_eq!(ctx.mepc, 0x8020_0100 + 4);
    }
}

#[test]
fn ecall_result_placement() {
    let mut ctx = fresh_frame();
    ctx.a7 = 0x999; // no such extension: evaluator refuses it
    ctx.a6 = 0;
    let mut ms = fresh_machine();
    let mut clint = Clint::new(5);
    let ret = handle_ecall(&mut ctx, &mut ms, &mut clint, 0, ident());
    assert_eq!(ret, (RET_ERR_NOT_SUPPORTED, 0));
    assert_eq!(ctx.a0, RET_ERR_NOT_SUPPORTED);
    assert_eq!(ctx.a1, 0);
    // every other register round-trips unchanged
    let reference = fresh_frame();
    assert_eq!(ctx.a2, reference.a2);
    assert_eq!(ctx.a6, 0);
    assert_eq!(ctx.a7, 0x999);
    assert_eq!(ctx.ra, reference.ra);
    assert_eq!(ctx.t6, reference.t6);
    assert_eq!(ctx.mstatus, reference.mstatus);
}

#[test]
fn ecall_base_extension_values() {
    let cases = [
        (FID_GET_SPEC_VERSION, 0usize, RET_SUCCESS, 0x100_0000usize),
        (FID_GET_IMPL_ID, 0, RET_SUCCESS, 4),
        (FID_GET_IMPL_VERSION, 0, RET_SUCCESS, 0x302),
        (FID_PROBE_EXTENSION, EID_BASE, RET_SUCCESS, 1),
        (FID_PROBE_EXTENSION, EID_TIME, RET_SUCCESS, 1), // served locally, reported available
        (FID_PROBE_EXTENSION, EID_SPI, RET_SUCCESS, 1), // served locally, reported available
        (FID_PROBE_EXTENSION, 0x999, RET_SUCCESS, 0),
        (FID_GET_MVENDORID, 0, RET_SUCCESS, 0x489),
        (7, 0, RET_ERR_NOT_SUPPORTED, 0),
    ];
    for (f, p0, error, value) in cases {
        let mut ctx = fresh_frame();
        ctx.a7 = EID_BASE;
        ctx.a6 = f;
        ctx.a0 = p0;
        let mut ms = fresh_machine();
        let mut clint = Clint::new(5);
        let ret = handle_ecall(&mut ctx, &mut ms, &mut clint, 0, ident());
        assert_eq!(ret, (error, value));
        assert_eq!((ctx.a0, ctx.a1), (error, value));
    }
}

#[test]
fn ecall_set_timer_reprograms_and_reenables() {
    let mut ctx = fresh_frame();
    ctx.a7 = EID_TIME;
    ctx.a6 = 0;
    ctx.a0 = 123_456;
    let mut ms = fresh_machine();
    ms.mip_stimer = true; // pending from an earlier expiry
    let mut clint = Clint::new(5);
    let ret = handle_ecall(&mut ctx, &mut ms, &mut clint, 2, ident());
    assert_eq!(ret, (RET_SUCCESS, 0));
    assert_eq!(clint.mtimecmp[2], 123_456);
    assert!(ms.mie_mtimer);
    assert!(!ms.mip_stimer);
    assert_eq!(ctx.mepc, 0x8020_0100 + 4);
}

#[test]
fn ecall_send_ipi_raises_flags() {
    let mut ctx = fresh_frame();
    ctx.a7 = EID_SPI;
    ctx.a6 = 0;
    ctx.a0 = 0b10110; // mask
    ctx.a1 = 0; // base
    let mut ms = fresh_machine();
    let mut clint = Clint::new(5);
    let ret = handle_ecall(&mut ctx, &mut ms, &mut clint, 0, ident());
    assert_eq!(ret, (RET_SUCCESS, 0));
    assert_eq!(clint.msip, vec![0, 1, 1, 0, 1]);
}

#[test]
fn ecall_pc_advance_wraps_at_address_top() {
    let mut ctx = fresh_frame();
    ctx.mepc = usize::MAX - 1;
    unmatched_sbi::execute::apply_ecall_result(&mut ctx, 0, 0);
    assert_eq!(ctx.mepc, 2); // the program counter wraps as the hardware's does
}

#[test]
fn rdtime_to_zero_register_discards_value() {
    let mut ctx = fresh_frame();
    let before = ctx;
    // the timer-counter read with destination register zero
    let matched = emulate_rdtime(&mut ctx, 0xc010_2073, 42);
    assert!(matched);
    assert_eq!(ctx.read_gpr(0), 0);
    assert_eq!(ctx.mepc, before.mepc + 4);
    assert_eq!(ctx.a0, before.a0); // nothing else moved
}

#[test]
fn timer_trap_virtualization() {
    let mut ctx = fresh_frame();
    let before = ctx;
    let mut ms = fresh_machine();
    ms.mie_mtimer = true;
    let mut clint = Clint::new(5);
    let d = dispatch_trap(&mut ctx, &mut ms, &mut clint, 1, ident(), MachineTrap::MachineTimer, 0);
    assert_eq!(d, Disposition::Resume);
    assert_eq!(ctx, before); // no general-purpose register changes
    assert!(ms.mip_stimer);
    assert!(!ms.mie_mtimer); // cannot recur until the compare register is reprogrammed
}

#[test]
fn rdtime_emulation_serves_clock() {
    let mut ctx = fresh_frame();
    let mut ms = fresh_machine();
    let mut clint = Clint::new(5);
    clint.advance_time(0xdead_beef);
    let d =
        dispatch_trap(&mut ctx, &mut ms, &mut clint, 0, ident(), MachineTrap::IllegalInstruction, RDTIME_A0);
    assert_eq!(d, Disposition::Resume);
    assert_eq!(ctx.a0, 0xdead_beef);
    assert_eq!(ctx.mepc, 0x8020_0100 + 4);
    assert_eq!(ctx.a1, 111); // untouched
    assert_eq!(ms, fresh_machine());
}

#[test]
fn rdtime_emulation_idempotent() {
    let mut first = fresh_frame();
    let matched = emulate_rdtime(&mut first, RDTIME_A0, 42);
    assert!(matched);
    assert_eq!(first.a0, 42);
    assert_eq!(first.mepc, 0x8020_0100 + 4);

    // the same instruction faults again at the same program counter
    let mut second = first;
    second.mepc = 0x8020_0100;
    let matched_again = emulate_rdtime(&mut second, RDTIME_A0, 42);
    assert!(matched_again);
    assert_eq!(second, first); // identical observable effect, same pc advance
}

#[test]
fn non_matching_instruction_is_not_emulated() {
    let mut ctx = fresh_frame();
    let before = ctx;
    let matched = emulate_rdtime(&mut ctx, 0xffff_ffff, 42);
    assert!(!matched);
    assert_eq!(ctx, before);
}

#[test]
fn illegal_instruction_transfers_to_supervisor() {
    let mut ctx = fresh_frame();
    let mut ms = fresh_machine();
    delegate_interrupt_exception(&mut ms);
    let mut clint = Clint::new(5);
    let d = dispatch_trap(
        &mut ctx,
        &mut ms,
        &mut clint,
        0,
        ident(),
        MachineTrap::IllegalInstruction,
        0xffff_ffff,
    );
    assert_eq!(d, Disposition::Resume);
    assert_eq!(ctx.mepc, 0x8000_2000); // redirected into the supervisor trap vector
    assert_eq!(ms.scause, 2);
    assert_eq!(ms.stval, 0xffff_ffff);
    assert_eq!(ms.sepc, 0x8020_0100);
    // status: interrupt enable saved into the previous slot and cleared;
    // the fault came from user mode (previous privilege zero in the frame),
    // so the supervisor-previous-privilege bit stays clear
    assert_eq!(ctx.mstatus, 0x820);
    // no general-purpose register changes
    assert_eq!(ctx.a0, 110);
    assert_eq!(ctx.ra, 101);
    assert_eq!(ctx.t6, 131);
}

#[test]
fn transfer_records_interrupted_privilege() {
    let mut ms = fresh_machine();
    delegate_interrupt_exception(&mut ms);
    let mut clint = Clint::new(5);

    // fault taken while the supervisor was running: previous privilege is
    // supervisor in the frame, so hand-over sets the supervisor bit
    let mut from_supervisor = fresh_frame();
    from_supervisor.mstatus = 0x802; // interrupt enable set, previous privilege supervisor
    let d = dispatch_trap(
        &mut from_supervisor,
        &mut ms,
        &mut clint,
        0,
        ident(),
        MachineTrap::IllegalInstruction,
        0xffff_ffff,
    );
    assert_eq!(d, Disposition::Resume);
    assert_eq!(from_supervisor.mstatus, 0x920);

    // the same fault from user mode leaves the supervisor bit clear, so
    // the supervisor's eventual return goes back to user mode
    let mut from_user = fresh_frame();
    from_user.mstatus = 0x2;
    let d = dispatch_trap(
        &mut from_user,
        &mut ms,
        &mut clint,
        0,
        ident(),
        MachineTrap::IllegalInstruction,
        0xffff_ffff,
    );
    assert_eq!(d, Disposition::Resume);
    assert_eq!(from_user.mstatus, 0x820);
}

#[test]
fn delegation_configuration_bits() {
    let mut ms = fresh_machine();
    delegate_interrupt_exception(&mut ms);
    assert_eq!(ms.mideleg, 0x333);
    assert_eq!(ms.medeleg, 0xb1ab);
    assert!(ms.mie_mext);
    assert!(ms.mie_msoft);
    assert!(!ms.mie_mtimer); // deliberately left off
}

#[test]
fn delegated_class_is_never_transferred() {
    let mut ms = fresh_machine();
    delegate_interrupt_exception(&mut ms);
    assert!(!should_transfer_trap(&ms, 3)); // breakpoint: delegated
    assert!(!should_transfer_trap(&ms, 8)); // user environment call: delegated
    assert!(should_transfer_trap(&ms, 2)); // illegal instruction: kept for emulation
}

#[test]
fn delegated_illegal_instruction_is_fatal() {
    let mut ms = fresh_machine();
    ms.medeleg = 0x4; // illegal instruction wrongly delegated: a loop guard case
    let mut ctx = fresh_frame();
    let before = ctx;
    let mut clint = Clint::new(5);
    let d = dispatch_trap(
        &mut ctx,
        &mut ms,
        &mut clint,
        0,
        ident(),
        MachineTrap::IllegalInstruction,
        0xffff_ffff,
    );
    assert_eq!(d, Disposition::Fatal);
    assert_eq!(ctx, before);
}

#[test]
fn machine_soft_trap_is_fatal() {
    let mut clint = Clint::new(5);
    let mut hart = Hart::new(0x8020_0000, 1, 0, fresh_machine(), ident());
    let report = hart.step(&mut clint, MachineTrap::MachineSoft, 0);
    let report = report.expect("a fatal trap must be reported");
    assert_eq!(report.hart_id, 1);
    assert_eq!(report.cause, MachineTrap::MachineSoft);
    assert_eq!(hart.phase, HartPhase::Halted);
}

#[test]
fn fatal_halt_is_terminal() {
    let mut clint = Clint::new(5);
    let mut hart = Hart::new(0x8020_0000, 1, 0, fresh_machine(), ident());
    let first = hart.step(&mut clint, MachineTrap::MachineSoft, 0);
    assert!(first.is_some());
    let msip_after_halt = clint.msip.clone();
    let cmp_after_halt = clint.mtimecmp.clone();
    // once halted: no further state change, report, or controller write
    for trap in [MachineTrap::SbiCall, MachineTrap::MachineTimer, MachineTrap::MachineSoft] {
        let report = hart.step(&mut clint, trap, 0);
        assert!(report.is_none());
        assert_eq!(hart.phase, HartPhase::Halted);
        assert_eq!(clint.msip, msip_after_halt);
        assert_eq!(clint.mtimecmp, cmp_after_halt);
    }
}

#[test]
fn early_trap_reports_and_halts() {
    let mut hart = Hart::new(0x8020_0000, 4, 0, fresh_machine(), ident());
    let report = hart.early_fault(0x7, 0x1234);
    assert_eq!(report.hart_id, 4);
    assert_eq!(report.mcause, 0x7);
    assert_eq!(report.mtval, 0x1234);
    assert_eq!(report.ctx.a0, 4); // the spilled frame still carries the boot arguments
    assert_eq!(hart.phase, HartPhase::Halted);
}
