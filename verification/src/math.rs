//! Plain output for the expression evaluator: a buffer that collects what is
//! written to it and knows no colours.

use vstd::prelude::*;

verus! {

/// A buffer of written bytes.
#[derive(Debug, Clone, PartialEq, Eq)]
pub struct BufferWriter {
    pub buffer: Vec<u8>,
}

impl BufferWriter {
    /// An empty buffer.
    pub fn new() -> (writer: BufferWriter)
        ensures
            writer.buffer@ == Seq::<u8>::empty(),
    {
        BufferWriter { buffer: Vec::new() }
    }

    /// Appends the bytes and says how many were taken: all of them.
    pub fn write(&mut self, bytes: &[u8]) -> (taken: usize)
        ensures
            final(self).buffer@ == old(self).buffer@ + bytes@,
            taken == bytes@.len(),
    {
        let mut i: usize = 0;
        while i < bytes.len()
            invariant
                i <= bytes.len(),
                self.buffer@ == old(self).buffer@ + bytes@.subrange(0, i as int),
            decreases bytes.len() - i,
        {
            self.buffer.push(bytes[i]);
            assert(bytes@.subrange(0, i + 1) =~= bytes@.subrange(0, i as int).push(bytes@[i as int]));
            i = i + 1;
        }
        assert(bytes@.subrange(0, bytes@.len() as int) =~= bytes@);
        bytes.len()
    }

    /// Whether the buffer shows colours: never.
    pub fn supports_color(&self) -> (supported: bool)
        ensures
            !supported,
    {
        false
    }
}

} // verus!
