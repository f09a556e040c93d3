use unmatched_sbi::boot::{BootBarrier, FollowerPhase};
use unmatched_sbi::clint::Clint;
use unmatched_sbi::console::{print, Console};
use unmatched_sbi::csr::MachineState;
use unmatched_sbi::util::AmoMutex;

fn fresh_machine() -> MachineState {
    MachineState {
        mideleg: 0,
        medeleg: 0,
        mie_mext: false,
        mie_mtimer: false,
        mie_msoft: false,
        mip_stimer: false,
        mip_msoft: false,
        stvec: 0,
        scause: 0,
        stval: 0,
        sepc: 0,
    }
}

#[test]
fn clint_out_of_reset() {
    let clint = Clint::new(5);
    assert_eq!(clint.msip, vec![0; 5]);
    assert_eq!(clint.mtimecmp, vec![0; 5]);
    assert_eq!(clint.get_mtime(), 0);
    assert_eq!(clint.hart_count(), 5);
    assert_eq!(clint.max_hart_id(), 4);
}

#[test]
fn clint_register_operations() {
    let mut clint = Clint::new(5);
    clint.set_timer(3, 999);
    assert_eq!(clint.mtimecmp, vec![0, 0, 0, 999, 0]);
    clint.send_soft(2);
    assert!(clint.soft_pending(2));
    assert!(!clint.soft_pending(1));
    clint.clear_soft(2);
    assert!(!clint.soft_pending(2));
    clint.advance_time(77);
    assert_eq!(clint.get_mtime(), 77);
}

#[test]
fn ipi_mask_with_base() {
    let mut clint = Clint::new(5);
    let ret = clint.send_ipi_many(0b101, 1);
    assert_eq!(ret, (0, 0));
    assert_eq!(clint.msip, vec![0, 1, 0, 1, 0]);
}

#[test]
fn ipi_mask_wider_than_hart_count() {
    let mut clint = Clint::new(5);
    clint.send_ipi_many(0xffff, 0); // bits past the last hart are ignored
    assert_eq!(clint.msip, vec![1, 1, 1, 1, 1]);
}

#[test]
fn ipi_mask_all_ones_base_names_every_hart() {
    let mut clint = Clint::new(5);
    clint.send_ipi_many(0, usize::MAX);
    assert_eq!(clint.msip, vec![1, 1, 1, 1, 1]);
}

#[test]
fn wake_barrier_full_boot() {
    let barrier_clint = Clint::new(5);
    let mut barrier = BootBarrier::new(barrier_clint);
    let mut machines = [fresh_machine(), fresh_machine(), fresh_machine(), fresh_machine()];

    // every follower parks: clears its own flag, saves and enables listening
    let mut saved = [false; 4];
    for hart_id in 1..5usize {
        saved[hart_id - 1] = barrier.follower_arrive(&mut machines[hart_id - 1], hart_id);
        assert_eq!(barrier.phases[hart_id], FollowerPhase::Waiting);
        assert!(machines[hart_id - 1].mie_msoft);
    }

    // before the signal no follower can observe a wake-up
    for hart_id in 1..5usize {
        assert!(!barrier.follower_poll(hart_id));
        assert_eq!(barrier.wakes[hart_id], 0);
    }

    // hart 0 finishes global initialization and releases everyone
    barrier.hart0_signal();
    for hart_id in 1..5usize {
        assert_eq!(barrier.clint.msip[hart_id], 1);
    }
    assert_eq!(barrier.clint.msip[0], 0); // hart 0 signals itself nothing

    // every follower observes exactly one wake-up and consumes its flag
    for hart_id in 1..5usize {
        barrier.pause(&mut machines[hart_id - 1], hart_id, saved[hart_id - 1]);
        assert_eq!(barrier.phases[hart_id], FollowerPhase::Running);
        assert_eq!(barrier.wakes[hart_id], 1);
        assert_eq!(barrier.clint.msip[hart_id], 0); // flag cleared before proceeding
        assert_eq!(machines[hart_id - 1].mie_msoft, saved[hart_id - 1]); // listening state restored
    }
}

#[test]
fn mutex_protocol() {
    let mut m = AmoMutex::new(5u32);
    assert!(!m.locked);
    let guard = m.lock();
    assert!(m.locked);
    assert_eq!(*m.get(), 5);
    m.set(7);
    m.unlock(guard);
    assert!(!m.locked);
    assert_eq!(m.data, 7);
}

#[test]
fn print_appends_bytes_under_the_lock() {
    let mut stdout = AmoMutex::new(Console::new());
    print(&mut stdout, &vec![b'h', b'i']);
    print(&mut stdout, &vec![b'!']);
    assert_eq!(stdout.data.output, vec![b'h', b'i', b'!']);
    assert!(!stdout.locked);
}
