//! The console byte-sink: the output primitive that the `write` syscall
//! forwards user bytes to. It accepts every byte handed to it and
//! reports the count accepted.

use vstd::prelude::*;

verus! {

/// The byte-sink. Everything ever forwarded to the console stands in
/// `output`, in order; a surrounding program drains it to a device.
pub struct Console {
    /// Every byte accepted so far, oldest first.
    pub output: Vec<u8>,
}

impl Console {
    /// An empty sink: nothing accepted yet.
    pub fn new() -> (c: Console)
        ensures
            c.output@ == Seq::<u8>::empty(),
    {
        Console { output: Vec::new() }
    }

    /// Accept `bytes` for output. The sink never fails: it appends all
    /// of them and returns the count accepted.
    pub fn put_bytes(&mut self, bytes: &[u8]) -> (n: usize)
        ensures
            n == bytes@.len(),
            final(self).output@ == old(self).output@ + bytes@,
    {
        self.output.extend_from_slice(bytes);
        bytes.len()
    }
}

} // verus!
