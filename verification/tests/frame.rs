use unmatched_sbi::csr::trap_vector_address;
use unmatched_sbi::runtime::{
    classify_mcause, load_frame, store_frame, MachineTrap, Runtime, SupervisorContext, FRAME_WORDS,
};
use unmatched_sbi::{hart_stack_top, HART_COUNT, PER_HART_STACK_SIZE};

fn synthetic_frame() -> SupervisorContext {
    SupervisorContext {
        ra: 1,
        sp: 2,
        gp: 3,
        tp: 4,
        t0: 5,
        t1: 6,
        t2: 7,
        s0: 8,
        s1: 9,
        a0: 10,
        a1: 11,
        a2: 12,
        a3: 13,
        a4: 14,
        a5: 15,
        a6: 16,
        a7: 17,
        s2: 18,
        s3: 19,
        s4: 20,
        s5: 21,
        s6: 22,
        s7: 23,
        s8: 24,
        s9: 25,
        s10: 26,
        s11: 27,
        t3: 28,
        t4: 29,
        t5: 30,
        t6: 31,
        mstatus: 0x920,
        mepc: 0x8020_0000,
    }
}

#[test]
fn frame_store_load_round_trip() {
    let frame = synthetic_frame();
    let words = store_frame(&frame);
    assert_eq!(words.len(), FRAME_WORDS);
    let back = load_frame(&words);
    assert_eq!(back, frame);
}

#[test]
fn frame_store_order_is_fixed() {
    let frame = synthetic_frame();
    let words = store_frame(&frame);
    assert_eq!(words[0], 1); // ra
    assert_eq!(words[1], 2); // sp
    assert_eq!(words[9], 10); // a0
    assert_eq!(words[16], 17); // a7
    assert_eq!(words[30], 31); // t6
    assert_eq!(words[31], 0x920); // mstatus
    assert_eq!(words[32], 0x8020_0000); // mepc
}

#[test]
fn gpr_read_write() {
    let mut frame = synthetic_frame();
    frame.write_gpr(10, 777);
    assert_eq!(frame.a0, 777);
    assert_eq!(frame.read_gpr(10), 777);
    assert_eq!(frame.read_gpr(17), 17);
}

#[test]
fn gpr_zero_register_is_immutable() {
    let mut frame = synthetic_frame();
    let before = frame;
    frame.write_gpr(0, 99);
    assert_eq!(frame, before);
    assert_eq!(frame.read_gpr(0), 0);
}

#[test]
fn runtime_initial_frame() {
    let rt = Runtime::new_sbi_supervisor(0x8020_0000, 3, 0x8700_0000);
    assert_eq!(rt.hart_id, 3);
    assert_eq!(rt.context.a0, 3);
    assert_eq!(rt.context.a1, 0x8700_0000);
    assert_eq!(rt.context.mepc, 0x8020_0000);
    assert_eq!(rt.context.mstatus, 0x800);
    assert_eq!(rt.context.ra, 0);
    assert_eq!(rt.context.sp, 0);
    assert_eq!(rt.context.t6, 0);
}

#[test]
fn stack_top_per_hart() {
    assert_eq!(PER_HART_STACK_SIZE, 16 * 1024);
    assert_eq!(HART_COUNT, 5);
    assert_eq!(hart_stack_top(0x1000, 0), 0x1000 + 16 * 1024);
    assert_eq!(hart_stack_top(0x1000, 2), 0x1000 + 3 * 16 * 1024);
}

#[test]
fn cause_classification() {
    let interrupt = 1usize << (usize::BITS - 1);
    assert_eq!(classify_mcause(interrupt | 7), Some(MachineTrap::MachineTimer));
    assert_eq!(classify_mcause(interrupt | 3), Some(MachineTrap::MachineSoft));
    assert_eq!(classify_mcause(9), Some(MachineTrap::SbiCall));
    assert_eq!(classify_mcause(2), Some(MachineTrap::IllegalInstruction));
    assert_eq!(classify_mcause(5), None); // a delegated exception class
    assert_eq!(classify_mcause(interrupt | 9), None);
    assert_eq!(classify_mcause(interrupt | 2), None);
}

#[test]
fn trap_vector_alignment() {
    assert_eq!(trap_vector_address(0x1000), 0x1000);
    assert_eq!(trap_vector_address(0x1002), 0x1004);
    assert_eq!(trap_vector_address(0x1004), 0x1004);
}
