//! The byte source that the decoders read from: the bytes of one file held
//! in memory, with a cursor.

use vstd::prelude::*;

verus! {

/// What a [`ByteSource`] is to a contract: its bytes and where its cursor
/// stands.
pub struct SourceView {
    pub bytes: Seq<u8>,
    pub position: nat,
}

/// The bytes that a read of up to `count` bytes at `position` yields: those
/// from `position` on, as many as there are and no more than `count`.
pub open spec fn span(bytes: Seq<u8>, position: nat, count: nat) -> Seq<u8> {
    if position >= bytes.len() {
        Seq::empty()
    } else if position + count >= bytes.len() {
        bytes.subrange(position as int, bytes.len() as int)
    } else {
        bytes.subrange(position as int, (position + count) as int)
    }
}

/// A readable, seekable run of bytes of known length.
///
/// The cursor may stand anywhere, also past the end; a read there yields
/// nothing and does not move it.
#[derive(Debug)]
pub struct ByteSource {
    data: Vec<u8>,
    position: u64,
}

impl View for ByteSource {
    type V = SourceView;

    closed spec fn view(&self) -> SourceView {
        SourceView { bytes: self.data@, position: self.position as nat }
    }
}

impl ByteSource {
    /// A source over `data` with the cursor at the first byte.
    pub fn new(data: Vec<u8>) -> (source: ByteSource)
        ensures
            source@.bytes == data@,
            source@.position == 0,
    {
        ByteSource { data, position: 0 }
    }

    /// The number of bytes in the source.
    pub fn len(&self) -> (len: u64)
        ensures
            len == self@.bytes.len(),
    {
        self.data.len() as u64
    }

    /// Where the cursor stands, counted from the first byte.
    pub fn position(&self) -> (position: u64)
        ensures
            position == self@.position,
    {
        self.position
    }

    /// All the bytes of the source, wherever the cursor stands.
    pub fn as_slice(&self) -> (bytes: &[u8])
        ensures
            bytes@ == self@.bytes,
    {
        self.data.as_slice()
    }

    /// Moves the cursor to `position`, counted from the first byte.
    pub fn seek(&mut self, position: u64)
        ensures
            final(self)@.bytes == old(self)@.bytes,
            final(self)@.position == position,
    {
        self.position = position;
    }

    /// Reads up to `count` bytes at the cursor and moves the cursor past
    /// them. Fewer than `count` bytes come back where the source ends first.
    pub fn read(&mut self, count: u64) -> (bytes: Vec<u8>)
        ensures
            bytes@ == span(old(self)@.bytes, old(self)@.position, count as nat),
            final(self)@.bytes == old(self)@.bytes,
            final(self)@.position == old(self)@.position + bytes@.len(),
    {
        let len: usize = self.data.len();
        let mut bytes: Vec<u8> = Vec::new();
        if self.position >= len as u64 {
            return bytes;
        }
        let start: usize = self.position as usize;
        let end: usize = if count >= (len - start) as u64 {
            len
        } else {
            start + count as usize
        };
        let mut at: usize = start;
        while at < end
            invariant
                start <= at <= end <= len,
                len == self.data@.len(),
                bytes@ == self.data@.subrange(start as int, at as int),
            decreases end - at,
        {
            bytes.push(self.data[at]);
            at = at + 1;
        }
        self.position = end as u64;
        bytes
    }
}

} // verus!
