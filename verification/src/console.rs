//! The console as the byte sink the core writes diagnostics to. The
//! byte-level device driver and the text formatting live outside this core;
//! here the console is the sequence of bytes that have been written, and
//! `print` is the locked write every message goes through.

use vstd::prelude::*;
use crate::util::AmoMutex;

verus! {

/// The byte sink diagnostics are written to.
pub struct Console {
    /// Every byte written so far, in order.
    pub output: Vec<u8>,
}

impl Console {
    /// A console that has written nothing yet.
    pub fn new() -> (c: Console)
        ensures
            c.output@ == Seq::<u8>::empty(),
    {
        Console { output: Vec::new() }
    }

    /// Append bytes to the output.
    pub fn write_bytes(&mut self, data: &Vec<u8>)
        ensures
            final(self).output@ == old(self).output@ + data@,
    {
        let mut i: usize = 0;
        while i < data.len()
            invariant
                i <= data@.len(),
                self.output@ == old(self).output@ + data@.take(i as int),
            decreases data@.len() - i,
        {
            self.output.push(data[i]);
            proof {
                assert(data@.take(i + 1 as int) =~= data@.take(i as int).push(data@[i as int]));
            }
            i = i + 1;
        }
        proof {
            assert(data@.take(data@.len() as int) =~= data@);
        }
    }
}

/// Print one message: take the console lock, write the bytes, release the
/// lock. Mutual exclusion is held only for the one message, and the lock is
/// free again on return.
pub fn print(stdout: &mut AmoMutex<Console>, data: &Vec<u8>)
    requires
        !old(stdout).locked,
    ensures
        !final(stdout).locked,
        final(stdout).data.output@ == old(stdout).data.output@ + data@,
{
    let guard = stdout.lock();
    stdout.data.write_bytes(data);
    stdout.unlock(guard);
}

} // verus!
