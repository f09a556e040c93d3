//! Model of the core-local interruptor: a global free-running clock, one
//! timer-compare register per hart, and one software-interrupt (IPI) word
//! per hart. Every operation of the real peripheral is a single
//! memory-mapped load or store with no client-side state; here the register
//! file itself is the state, so that the timer virtualization and the boot
//! wake-up protocol can be reasoned about. The unverified shell performs the
//! matching memory-mapped accesses.

use vstd::prelude::*;

verus! {

/// Whether hart `i` is named by a hart mask: a base of the all-ones word
/// names every hart; otherwise the mask covers the machine-word-many harts
/// starting at `base`, one bit each.
pub open spec fn hart_in_mask(mask: usize, base: usize, i: int) -> bool {
    ||| base == usize::MAX
    ||| (base <= i < base + usize::BITS && (mask >> ((i - base) as usize)) & 1 == 1)
}

/// The IPI words after a multi-hart send: every hart named by the mask
/// becomes pending, every other word is untouched.
pub open spec fn msip_after_ipi(s: Seq<u32>, mask: usize, base: usize) -> Seq<u32> {
    Seq::new(s.len(), |i: int| if hart_in_mask(mask, base, i) { 1u32 } else { s[i] })
}

/// The timer/IPI controller register file.
///
/// The `msip` words are leveled flags: any nonzero value is "pending". The
/// timer comparison on hart `h` is satisfied whenever `mtime >= mtimecmp[h]`.
pub struct Clint {
    /// Per-hart software-interrupt words.
    pub msip: Vec<u32>,
    /// Per-hart timer-compare registers.
    pub mtimecmp: Vec<u64>,
    /// The global free-running clock.
    pub mtime: u64,
}

impl Clint {
    /// The register file is well formed: one IPI word and one compare
    /// register for each hart, and at least one hart.
    pub open spec fn wf(self) -> bool {
        self.msip@.len() == self.mtimecmp@.len() && self.msip@.len() >= 1
    }

    /// Number of harts this controller serves.
    pub open spec fn spec_hart_count(self) -> int {
        self.msip@.len() as int
    }

    /// A controller for `hart_count` harts with all flags clear, all
    /// compare registers zero and the clock at zero.
    pub fn new(hart_count: usize) -> (clint: Clint)
        requires
            hart_count >= 1,
        ensures
            clint.wf(),
            clint.spec_hart_count() == hart_count,
            clint.msip@ == Seq::new(hart_count as nat, |i: int| 0u32),
            clint.mtimecmp@ == Seq::new(hart_count as nat, |i: int| 0u64),
            clint.mtime == 0,
    {
        let mut msip: Vec<u32> = Vec::new();
        let mut mtimecmp: Vec<u64> = Vec::new();
        let mut i: usize = 0;
        while i < hart_count
            invariant
                i <= hart_count,
                msip@ =~= Seq::new(i as nat, |j: int| 0u32),
                mtimecmp@ =~= Seq::new(i as nat, |j: int| 0u64),
            decreases hart_count - i,
        {
            msip.push(0);
            mtimecmp.push(0);
            i = i + 1;
        }
        proof {
            assert(msip@ =~= Seq::new(hart_count as nat, |i: int| 0u32));
            assert(mtimecmp@ =~= Seq::new(hart_count as nat, |i: int| 0u64));
        }
        Clint { msip, mtimecmp, mtime: 0 }
    }

    /// Number of harts this controller serves.
    pub fn hart_count(&self) -> (n: usize)
        ensures
            n == self.spec_hart_count(),
    {
        self.msip.len()
    }

    /// The highest valid hart identity.
    pub fn max_hart_id(&self) -> (id: usize)
        requires
            self.wf(),
        ensures
            id == self.spec_hart_count() - 1,
    {
        self.msip.len() - 1
    }

    /// Read the global free-running clock.
    pub fn get_mtime(&self) -> (t: u64)
        ensures
            t == self.mtime,
    {
        self.mtime
    }

    /// The clock runs forward on its own; this records a later reading.
    pub fn advance_time(&mut self, now: u64)
        requires
            now >= old(self).mtime,
        ensures
            *final(self) == (Clint { mtime: now, ..*old(self) }),
    {
        self.mtime = now;
    }

    /// Program the timer-compare register of one hart.
    pub fn set_timer(&mut self, hart_id: usize, instant: u64)
        requires
            old(self).wf(),
            hart_id < old(self).spec_hart_count(),
        ensures
            final(self).wf(),
            final(self).mtimecmp@ == old(self).mtimecmp@.update(hart_id as int, instant),
            final(self).msip@ == old(self).msip@,
            final(self).mtime == old(self).mtime,
    {
        self.mtimecmp.set(hart_id, instant);
    }

    /// Raise the software-interrupt flag of one hart.
    pub fn send_soft(&mut self, hart_id: usize)
        requires
            old(self).wf(),
            hart_id < old(self).spec_hart_count(),
        ensures
            final(self).wf(),
            final(self).msip@ == old(self).msip@.update(hart_id as int, 1u32),
            final(self).mtimecmp@ == old(self).mtimecmp@,
            final(self).mtime == old(self).mtime,
    {
        self.msip.set(hart_id, 1);
    }

    /// Clear the software-interrupt flag of one hart.
    pub fn clear_soft(&mut self, hart_id: usize)
        requires
            old(self).wf(),
            hart_id < old(self).spec_hart_count(),
        ensures
            final(self).wf(),
            final(self).msip@ == old(self).msip@.update(hart_id as int, 0u32),
            final(self).mtimecmp@ == old(self).mtimecmp@,
            final(self).mtime == old(self).mtime,
    {
        self.msip.set(hart_id, 0);
    }

    /// Read the software-interrupt flag of one hart.
    pub fn soft_pending(&self, hart_id: usize) -> (pending: bool)
        requires
            self.wf(),
            hart_id < self.spec_hart_count(),
        ensures
            pending == (self.msip@[hart_id as int] != 0),
    {
        self.msip[hart_id] != 0
    }

    /// Raise the software-interrupt flag of every hart named by the hart
    /// mask, as the inter-processor-interrupt service does: `hart_mask` has
    /// one bit per hart starting at hart `hart_mask_base`, and a base of the
    /// all-ones word names every hart. Returns the (error, value) pair of a
    /// successful SBI call.
    pub fn send_ipi_many(&mut self, hart_mask: usize, hart_mask_base: usize) -> (ret: (usize, usize))
        requires
            old(self).wf(),
        ensures
            final(self).wf(),
            final(self).msip@ == msip_after_ipi(old(self).msip@, hart_mask, hart_mask_base),
            final(self).mtimecmp@ == old(self).mtimecmp@,
            final(self).mtime == old(self).mtime,
            ret == (0usize, 0usize),
    {
        let n = self.msip.len();
        let mut i: usize = 0;
        while i < n
            invariant
                self.wf(),
                i <= n,
                n == self.spec_hart_count(),
                self.mtimecmp@ == old(self).mtimecmp@,
                self.mtime == old(self).mtime,
                self.msip@.len() == old(self).msip@.len(),
                forall|j: int| 0 <= j < i
                    ==> self.msip@[j] == msip_after_ipi(old(self).msip@, hart_mask, hart_mask_base)[j],
                forall|j: int| i <= j < n ==> self.msip@[j] == old(self).msip@[j],
            decreases n - i,
        {
            let in_mask = if hart_mask_base == usize::MAX {
                true
            } else if i >= hart_mask_base {
                let off = i - hart_mask_base;
                if off < usize::BITS as usize {
                    (hart_mask >> off) & 1 == 1
                } else {
                    false
                }
            } else {
                false
            };
            if in_mask {
                self.msip.set(i, 1);
            }
            i = i + 1;
        }
        proof {
            assert(self.msip@ =~= msip_after_ipi(old(self).msip@, hart_mask, hart_mask_base));
        }
        (0, 0)
    }
}

/// The two register files hold the same state.
pub open spec fn clint_eq(a: Clint, b: Clint) -> bool {
    a.msip@ == b.msip@ && a.mtimecmp@ == b.mtimecmp@ && a.mtime == b.mtime
}

/// Whether the machine timer comparison is satisfied on hart `hart_id`.
pub open spec fn timer_compare_met(clint: Clint, hart_id: int) -> bool {
    clint.mtime >= clint.mtimecmp@[hart_id]
}

} // verus!
