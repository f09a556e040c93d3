//! A minimal mutual-exclusion primitive modelled as an explicit lock state.
//!
//! The real lock is built from an atomic swap instruction and spins until it
//! observes the lock free; acquisition therefore returns only when the lock
//! was free, which is what the contract of `lock` states. Release must
//! happen on every exit path, including the fatal-halt path, which still
//! performs one best-effort diagnostic write before the hart parks.

use vstd::prelude::*;

verus! {

/// A mutex over `T` built from atomic memory operations: the lock word is
/// explicit state here, so that the acquire/release protocol around every
/// use of the guarded data is checked.
pub struct AmoMutex<T> {
    /// Whether the lock is currently held.
    pub locked: bool,
    /// The guarded data.
    pub data: T,
}

/// Witness that the lock is held; hand it back to `unlock` on every exit
/// path when the guarded data is no longer needed.
pub struct AmoMutexGuard {
    /// Nothing is carried: exclusivity lives in the lock state itself.
    pub held: bool,
}

impl<T> AmoMutex<T> {
    /// Create a new mutex, initially free.
    pub fn new(data: T) -> (m: AmoMutex<T>)
        ensures
            !m.locked,
            m.data == data,
    {
        AmoMutex { locked: false, data }
    }

    /// Acquire the lock. The spinning acquisition returns only once the
    /// lock was observed free, so a caller that already holds it would
    /// never return: acquisition is only meaningful on a free lock.
    pub fn lock(&mut self) -> (guard: AmoMutexGuard)
        requires
            !old(self).locked,
        ensures
            final(self).locked,
            final(self).data == old(self).data,
            guard.held,
    {
        self.locked = true;
        AmoMutexGuard { held: true }
    }

    /// Read the guarded data; only meaningful while the lock is held.
    pub fn get(&self) -> (data: &T)
        requires
            self.locked,
        ensures
            *data == self.data,
    {
        &self.data
    }

    /// Write the guarded data; only meaningful while the lock is held.
    pub fn set(&mut self, data: T)
        requires
            old(self).locked,
        ensures
            final(self).locked,
            final(self).data == data,
    {
        self.data = data;
    }

    /// Release the lock, consuming the guard it was acquired with.
    pub fn unlock(&mut self, guard: AmoMutexGuard)
        requires
            old(self).locked,
            guard.held,
        ensures
            !final(self).locked,
            final(self).data == old(self).data,
    {
        let _ = guard;
        self.locked = false;
    }
}

} // verus!
