//! A read position over a borrowed buffer.

use vstd::prelude::*;
use vstd::slice::slice_subrange;

verus! {

/// A buffer and the offset of the next byte to read. The offset may lie past
/// the end of the buffer; nothing can be read there.
#[derive(Clone, Copy, Debug)]
pub struct Cursor<'a> {
    pub bytes: &'a [u8],
    pub position: usize,
}

impl<'a> Cursor<'a> {
    /// How many bytes are left to read.
    pub open spec fn remaining(&self) -> int {
        if self.position <= self.bytes@.len() {
            self.bytes@.len() - self.position
        } else {
            0
        }
    }

    /// A cursor at the start of `bytes`.
    pub fn new(bytes: &'a [u8]) -> (cursor: Self)
        ensures
            cursor.bytes@ == bytes@,
            cursor.position == 0,
    {
        Cursor { bytes, position: 0 }
    }

    /// The offset of the next byte to read.
    pub fn position(&self) -> (position: usize)
        ensures
            position == self.position,
    {
        self.position
    }

    /// Moves the cursor to `position`.
    pub fn set_position(&mut self, position: usize)
        ensures
            final(self).position == position,
            final(self).bytes == old(self).bytes,
    {
        self.position = position;
    }

    /// Reads the next byte, or nothing at the end of the buffer.
    pub fn read_byte(&mut self) -> (byte: Option<u8>)
        ensures
            final(self).bytes == old(self).bytes,
            match byte {
                Some(value) => {
                    &&& old(self).position < old(self).bytes@.len()
                    &&& value == old(self).bytes@[old(self).position as int]
                    &&& final(self).position == old(self).position + 1
                },
                None => {
                    &&& old(self).position >= old(self).bytes@.len()
                    &&& final(self).position == old(self).position
                },
            },
    {
        if self.position < self.bytes.len() {
            let value = self.bytes[self.position];
            self.position += 1;
            Some(value)
        } else {
            None
        }
    }

    /// Reads exactly `count` bytes, or nothing where fewer are left. A read
    /// that fails leaves the cursor where it was.
    pub fn read_exact(&mut self, count: usize) -> (run: Option<&'a [u8]>)
        ensures
            final(self).bytes == old(self).bytes,
            match run {
                Some(taken) => {
                    &&& count <= old(self).remaining()
                    &&& old(self).position <= old(self).bytes@.len()
                    &&& taken@ == old(self).bytes@.subrange(
                        old(self).position as int,
                        old(self).position + count,
                    )
                    &&& final(self).position == old(self).position + count
                },
                None => {
                    &&& (count > old(self).remaining() || old(self).position > old(
                        self,
                    ).bytes@.len())
                    &&& final(self).position == old(self).position
                },
            },
    {
        let len: usize = self.bytes.len();
        if self.position > len || count > len - self.position {
            return None;
        }
        let taken = slice_subrange(self.bytes, self.position, self.position + count);
        self.position += count;
        Some(taken)
    }
}

} // verus!
