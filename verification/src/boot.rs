//! The one-shot multi-hart boot barrier: hart 0 performs global
//! initialization while every other hart parks on a wait-for-interrupt
//! loop, then hart 0 releases them by raising their software-interrupt
//! flags in the controller. The flag is leveled, not edge-triggered, and a
//! hart only ever clears its own flag after observing it set, which rules
//! out lost wake-ups by construction.
//!
//! The protocol is one-shot: every follower parks (clearing its own stale
//! flag) before hart 0 signals, and hart 0 signals exactly once.

use vstd::prelude::*;
use crate::clint::{clint_eq, Clint};
use crate::csr::MachineState;

verus! {

/// Where one follower hart stands in the boot barrier.
#[derive(Clone, Copy, Debug, PartialEq, Eq, Structural)]
pub enum FollowerPhase {
    /// Not yet parked.
    Idle,
    /// Parked: flag cleared, listening, waiting for the wake-up.
    Waiting,
    /// Woken exactly once and proceeding to its own runtime.
    Running,
}

/// The boot barrier state: the controller whose software-interrupt flags
/// carry the wake-ups, each follower's phase, how many wake-ups each
/// follower has observed, and whether hart 0 has signaled yet.
pub struct BootBarrier {
    /// The timer/IPI controller, owned by the barrier during boot.
    pub clint: Clint,
    /// Per-hart phase; hart 0 is the initializer, not a follower.
    pub phases: Vec<FollowerPhase>,
    /// Per-hart count of observed wake-ups.
    pub wakes: Vec<u32>,
    /// Whether hart 0 has released the followers.
    pub signaled: bool,
}

impl BootBarrier {
    /// Number of harts taking part.
    pub open spec fn hart_count(self) -> int {
        self.clint.spec_hart_count()
    }

    /// What holds of follower `h` in every reachable barrier state: before
    /// the signal a parked follower's flag is clear (so it cannot wake
    /// early); after the signal a parked follower's flag is raised (so its
    /// wake-up cannot be lost); a follower proceeds only with its flag
    /// consumed; and it observes exactly one wake-up, exactly when it has
    /// been woken.
    pub open spec fn follower_ok(self, h: int) -> bool {
        &&& (!self.signaled && !(self.phases@[h] is Idle) ==> self.clint.msip@[h] == 0)
        &&& (self.signaled && self.phases@[h] is Waiting ==> self.clint.msip@[h] == 1)
        &&& (self.phases@[h] is Running ==> self.clint.msip@[h] == 0)
        &&& self.wakes@[h] == (if self.phases@[h] is Running { 1u32 } else { 0u32 })
    }

    /// The barrier invariant.
    pub open spec fn inv(self) -> bool {
        &&& self.clint.wf()
        &&& self.phases@.len() == self.hart_count()
        &&& self.wakes@.len() == self.hart_count()
        &&& forall|h: int| 1 <= h < self.hart_count() ==> #[trigger] self.follower_ok(h)
    }

    /// Set up the barrier around a controller whose software-interrupt
    /// flags are all clear, as they are out of reset.
    pub fn new(clint: Clint) -> (b: BootBarrier)
        requires
            clint.wf(),
            forall|h: int| 0 <= h < clint.spec_hart_count() ==> clint.msip@[h] == 0,
        ensures
            b.inv(),
            !b.signaled,
            clint_eq(b.clint, clint),
            b.hart_count() == clint.spec_hart_count(),
            forall|h: int| 1 <= h < b.hart_count() ==> b.phases@[h] is Idle,
    {
        let n = clint.hart_count();
        let mut phases: Vec<FollowerPhase> = Vec::new();
        let mut wakes: Vec<u32> = Vec::new();
        let mut i: usize = 0;
        while i < n
            invariant
                i <= n,
                phases@.len() == i,
                wakes@.len() == i,
                forall|h: int| 0 <= h < i ==> phases@[h] is Idle,
                forall|h: int| 0 <= h < i ==> wakes@[h] == 0u32,
            decreases n - i,
        {
            phases.push(FollowerPhase::Idle);
            wakes.push(0);
            i = i + 1;
        }
        BootBarrier { clint, phases, wakes, signaled: false }
    }

    /// A follower parks: it clears its own (possibly stale) flag and the
    /// matching pending bit, saves its software-interrupt listening state,
    /// starts listening, and waits. Returns the saved listening state, to
    /// be restored when the hart proceeds. Followers park before hart 0
    /// signals — the boot order this one-shot protocol is built on.
    pub fn follower_arrive(&mut self, ms: &mut MachineState, hart_id: usize) -> (prev_msoft: bool)
        requires
            old(self).inv(),
            !old(self).signaled,
            1 <= hart_id < old(self).hart_count(),
            old(self).phases@[hart_id as int] is Idle,
        ensures
            final(self).inv(),
            !final(self).signaled,
            final(self).hart_count() == old(self).hart_count(),
            final(self).phases@ == old(self).phases@.update(hart_id as int, FollowerPhase::Waiting),
            final(self).wakes@ == old(self).wakes@,
            final(self).clint.msip@ == old(self).clint.msip@.update(hart_id as int, 0u32),
            final(self).clint.mtimecmp@ == old(self).clint.mtimecmp@,
            final(self).clint.mtime == old(self).clint.mtime,
            prev_msoft == old(ms).mie_msoft,
            *final(ms) == (MachineState { mip_msoft: false, mie_msoft: true, ..*old(ms) }),
    {
        self.clint.clear_soft(hart_id);
        ms.mip_msoft = false;
        let prev_msoft = ms.mie_msoft;
        ms.mie_msoft = true;
        self.phases.set(hart_id, FollowerPhase::Waiting);
        proof {
            assert(old(self).follower_ok(hart_id as int));
            assert forall|h: int| 1 <= h < self.hart_count() implies #[trigger] self.follower_ok(h) by {
                if h != hart_id as int {
                    assert(old(self).follower_ok(h));
                }
            }
        }
        prev_msoft
    }

    /// Hart 0, its global initialization complete, releases every follower
    /// by raising each one's software-interrupt flag. Runs exactly once,
    /// after every follower has parked.
    pub fn hart0_signal(&mut self)
        requires
            old(self).inv(),
            !old(self).signaled,
            forall|h: int| 1 <= h < old(self).hart_count()
                ==> old(self).phases@[h] is Waiting,
        ensures
            final(self).inv(),
            final(self).signaled,
            final(self).hart_count() == old(self).hart_count(),
            final(self).phases@ == old(self).phases@,
            final(self).wakes@ == old(self).wakes@,
            forall|h: int| 1 <= h < final(self).hart_count() ==> final(self).clint.msip@[h] == 1,
            final(self).clint.msip@[0] == old(self).clint.msip@[0],
            final(self).clint.mtimecmp@ == old(self).clint.mtimecmp@,
            final(self).clint.mtime == old(self).clint.mtime,
    {
        let n = self.clint.hart_count();
        let mut target: usize = 1;
        while target < n
            invariant
                1 <= target <= n,
                n == self.hart_count(),
                self.clint.wf(),
                self.phases@ == old(self).phases@,
                self.wakes@ == old(self).wakes@,
                self.signaled == old(self).signaled,
                self.clint.msip@.len() == old(self).clint.msip@.len(),
                forall|h: int| 1 <= h < target ==> self.clint.msip@[h] == 1,
                self.clint.msip@[0] == old(self).clint.msip@[0],
                forall|h: int| target <= h < n ==> self.clint.msip@[h] == old(self).clint.msip@[h],
                self.clint.mtimecmp@ == old(self).clint.mtimecmp@,
                self.clint.mtime == old(self).clint.mtime,
            decreases n - target,
        {
            self.clint.send_soft(target);
            target = target + 1;
        }
        self.signaled = true;
        proof {
            assert forall|h: int| 1 <= h < self.hart_count() implies #[trigger] self.follower_ok(h) by {
                assert(old(self).follower_ok(h));
                assert(old(self).phases@[h] is Waiting);
            }
        }
    }

    /// One round of a parked follower's wait loop: observe the flag; if it
    /// is raised, consume the wake-up (clear the own flag) and proceed.
    /// Before the signal this can never wake — the flag is provably clear —
    /// and after the signal it always wakes.
    pub fn follower_poll(&mut self, hart_id: usize) -> (woken: bool)
        requires
            old(self).inv(),
            1 <= hart_id < old(self).hart_count(),
            old(self).phases@[hart_id as int] is Waiting,
        ensures
            final(self).inv(),
            final(self).hart_count() == old(self).hart_count(),
            final(self).signaled == old(self).signaled,
            woken == (old(self).clint.msip@[hart_id as int] != 0),
            old(self).signaled ==> woken,
            !old(self).signaled ==> !woken,
            woken ==> {
                &&& final(self).phases@ == old(self).phases@.update(hart_id as int, FollowerPhase::Running)
                &&& final(self).wakes@ == old(self).wakes@.update(hart_id as int, 1u32)
                &&& final(self).clint.msip@ == old(self).clint.msip@.update(hart_id as int, 0u32)
            },
            !woken ==> {
                &&& final(self).phases@ == old(self).phases@
                &&& final(self).wakes@ == old(self).wakes@
                &&& final(self).clint.msip@ == old(self).clint.msip@
            },
            final(self).clint.mtimecmp@ == old(self).clint.mtimecmp@,
            final(self).clint.mtime == old(self).clint.mtime,
    {
        proof {
            assert(old(self).follower_ok(hart_id as int));
        }
        if self.clint.soft_pending(hart_id) {
            self.clint.clear_soft(hart_id);
            self.phases.set(hart_id, FollowerPhase::Running);
            self.wakes.set(hart_id, 1);
            proof {
                assert forall|h: int| 1 <= h < self.hart_count() implies #[trigger] self.follower_ok(h) by {
                    if h != hart_id as int {
                        assert(old(self).follower_ok(h));
                    }
                }
            }
            true
        } else {
            false
        }
    }

    /// A parked follower completes the barrier once the signal is out: it
    /// observes the wake-up, consumes it, restores its saved
    /// software-interrupt listening state, and proceeds.
    pub fn pause(&mut self, ms: &mut MachineState, hart_id: usize, prev_msoft: bool)
        requires
            old(self).inv(),
            old(self).signaled,
            1 <= hart_id < old(self).hart_count(),
            old(self).phases@[hart_id as int] is Waiting,
        ensures
            final(self).inv(),
            final(self).signaled,
            final(self).hart_count() == old(self).hart_count(),
            final(self).phases@ == old(self).phases@.update(hart_id as int, FollowerPhase::Running),
            final(self).wakes@ == old(self).wakes@.update(hart_id as int, 1u32),
            final(self).clint.msip@ == old(self).clint.msip@.update(hart_id as int, 0u32),
            final(self).clint.mtimecmp@ == old(self).clint.mtimecmp@,
            final(self).clint.mtime == old(self).clint.mtime,
            *final(ms) == (MachineState { mie_msoft: prev_msoft, ..*old(ms) }),
    {
        let woken = self.follower_poll(hart_id);
        assert(woken);
        ms.mie_msoft = prev_msoft;
    }
}

/// The wake barrier guarantees, read off the invariant: a parked follower
/// cannot have observed the flag before the signal was sent; after the
/// signal its wake-up is available and cannot be lost; and a follower that
/// proceeds has observed exactly one wake-up and cleared its own flag
/// before proceeding.
pub proof fn lemma_ipi_wake_barrier(b: BootBarrier, h: int)
    requires
        b.inv(),
        1 <= h < b.hart_count(),
    ensures
        !b.signaled && b.phases@[h] is Waiting ==> b.clint.msip@[h] == 0,
        b.signaled && b.phases@[h] is Waiting ==> b.clint.msip@[h] == 1,
        b.phases@[h] is Running ==> b.wakes@[h] == 1 && b.clint.msip@[h] == 0,
        !(b.phases@[h] is Running) ==> b.wakes@[h] == 0,
{
    assert(b.follower_ok(h));
}

} // verus!
