//! The text-sink contract: an append-only byte log.
//!
//! Handlers and the harness push their diagnostics here; a serial-line or
//! character-grid collaborator transmits the appended bytes. The log only
//! grows, never reorders and never drops what was written.

use vstd::prelude::*;

verus! {

/// Append-only diagnostic output. Its view is the sequence of all bytes
/// written so far, oldest first.
pub struct Sink {
    log: Vec<u8>,
}

impl View for Sink {
    type V = Seq<u8>;

    closed spec fn view(&self) -> Seq<u8> {
        self.log@
    }
}

impl Sink {
    /// An empty sink: nothing has been written yet.
    pub fn new() -> (r: Sink)
        ensures
            r@ == Seq::<u8>::empty(),
    {
        Sink { log: Vec::new() }
    }

    /// Appends the given bytes, in order, after everything already written.
    pub fn write_bytes(&mut self, bytes: &[u8])
        ensures
            final(self)@ == old(self)@ + bytes@,
    {
        let mut i: usize = 0;
        while i < bytes.len()
            invariant
                i <= bytes.len(),
                self@ == old(self)@ + bytes@.take(i as int),
            decreases bytes.len() - i,
        {
            self.log.push(bytes[i]);
            proof {
                assert(bytes@.take(i + 1) == bytes@.take(i as int).push(bytes@[i as int]));
                assert(old(self)@ + bytes@.take(i + 1) == (old(self)@ + bytes@.take(
                    i as int,
                )).push(bytes@[i as int]));
            }
            i = i + 1;
        }
        proof {
            assert(bytes@.take(bytes@.len() as int) == bytes@);
        }
    }

    /// Everything written so far, for inspection.
    pub fn contents(&self) -> (r: &Vec<u8>)
        ensures
            r@ == self@,
    {
        &self.log
    }
}

} // verus!
