//! A plain writer over a raw display buffer: owns the bytes and can blank
//! them all.

use vstd::prelude::*;

verus! {

/// Owns a raw display buffer, one byte per addressable cell.
pub struct DisplayWriter {
    pub framebuffer: Vec<u8>,
}

impl DisplayWriter {
    /// Wraps the given buffer.
    pub fn new(framebuffer: Vec<u8>) -> (w: DisplayWriter)
        ensures
            w.framebuffer == framebuffer,
    {
        DisplayWriter { framebuffer }
    }

    /// Blanks the display: every byte of the buffer becomes zero, and the
    /// buffer keeps its length.
    pub fn clear(&mut self)
        ensures
            final(self).framebuffer@.len() == old(self).framebuffer@.len(),
            forall|k: int|
                0 <= k < final(self).framebuffer@.len() ==> final(self).framebuffer@[k] == 0,
    {
        let mut i: usize = 0;
        let n = self.framebuffer.len();
        while i < n
            invariant
                i <= n,
                n == self.framebuffer@.len(),
                forall|k: int| 0 <= k < i ==> self.framebuffer@[k] == 0,
            decreases n - i,
        {
            self.framebuffer.set(i, 0);
            i += 1;
        }
    }
}

} // verus!
