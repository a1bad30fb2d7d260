//! Sequential, bounds-checked decoding from a borrowed span of bytes.

use crate::byte_order::{
    u16_from_be, u16_from_be_bytes, u16_from_le, u16_from_le_bytes, u32_from_be,
    u32_from_be_bytes, u32_from_le, u32_from_le_bytes,
};
use crate::cursor::Cursor;
use crate::span::copy_all;
use core::mem::size_of;
use core::ops::Index;
use vstd::prelude::*;

verus! {

broadcast use vstd::layout::layout_of_primitives;

/// A read cursor over bytes that the caller owns.
///
/// The reader borrows the span for its whole life, never copies it and never
/// reads outside it. A read that finds too few bytes left returns zero and
/// leaves the reader as it was; only indexed access asks the caller to stay
/// inside the span.
///
/// The view `r@` is the reader's [`Cursor`]: the span, which no operation
/// changes, and the position.
pub struct StreamBufReader<'a> {
    pos: usize,
    buf: &'a [u8],
}

impl<'a> View for StreamBufReader<'a> {
    type V = Cursor;

    closed spec fn view(&self) -> Cursor {
        Cursor { span: self.buf@, position: self.pos as nat }
    }
}

impl<'a> StreamBufReader<'a> {
    /// The position never leaves the span.
    #[verifier::type_invariant]
    spec fn inv(&self) -> bool {
        self.pos <= self.buf@.len()
    }

    /// A reader at the beginning of `buf`.
    pub fn new(buf: &'a [u8]) -> (reader: Self)
        ensures
            reader@ == Cursor::start(buf@),
    {
        Self { pos: 0, buf }
    }

    /// The whole span.
    pub fn get_data(&self) -> (data: &'a [u8])
        ensures
            data@ == self@.span,
    {
        self.buf
    }

    /// The bytes read so far.
    pub fn get_data_slice(&self) -> (data: &'a [u8])
        ensures
            data@ == self@.consumed(),
            self@.wf(),
    {
        proof {
            use_type_invariant(self);
        }
        &self.buf[0..self.pos]
    }

    /// The offset of the next byte to be read.
    pub fn pos(&self) -> (pos: usize)
        ensures
            pos == self@.position,
            self@.wf(),
    {
        proof {
            use_type_invariant(self);
        }
        self.pos
    }

    /// Moves the position back to the beginning of the span.
    pub fn reset(&mut self)
        ensures
            final(self)@ == old(self)@.reset(),
            final(self)@.wf(),
    {
        self.pos = 0;
    }

    /// Whether nothing has been read yet.
    pub fn is_empty(&self) -> (empty: bool)
        ensures
            empty == (self@.position == 0),
            self@.wf(),
    {
        proof {
            use_type_invariant(self);
        }
        self.pos == 0
    }

    /// Whether the position has reached the end of the span.
    pub fn is_full(&self) -> (full: bool)
        ensures
            full == (self@.position >= self@.span.len()),
            self@.wf(),
    {
        proof {
            use_type_invariant(self);
        }
        self.pos >= self.buf.len()
    }

    /// The number of bytes not read yet.
    pub fn bytes_remaining(&self) -> (count: usize)
        ensures
            count == self@.remaining(),
            self@.wf(),
    {
        proof {
            use_type_invariant(self);
        }
        self.buf.len() - self.pos
    }

    /// Whether `size` more bytes can be read.
    pub fn is_remaining(&self, size: usize) -> (yes: bool)
        ensures
            yes == self@.fits(size as nat),
            self@.wf(),
    {
        proof {
            use_type_invariant(self);
        }
        size <= self.buf.len() - self.pos
    }

    /// The number of bytes read so far.
    pub fn bytes_read(&self) -> (count: usize)
        ensures
            count == self@.position,
            self@.wf(),
    {
        proof {
            use_type_invariant(self);
        }
        self.pos
    }

    /// Moves the position forward by `n`, stopping at the end of the span.
    pub fn advance(&mut self, n: usize)
        ensures
            final(self)@ == old(self)@.advance(n as nat),
            final(self)@.wf(),
    {
        proof {
            use_type_invariant(&*self);
        }
        if n <= self.buf.len() - self.pos {
            self.pos += n;
        } else {
            self.pos = self.buf.len();
        }
    }

    /// The bytes read so far.
    pub fn get_ref(&self) -> (data: &[u8])
        ensures
            data@ == self@.consumed(),
            self@.wf(),
    {
        proof {
            use_type_invariant(self);
        }
        &self.buf[0..self.pos]
    }

    /// The byte at `index`, counted from the beginning of the span, wherever
    /// the position is.
    pub fn at(&self, index: usize) -> (byte: u8)
        requires
            index < self@.span.len(),
        ensures
            byte == self@.span[index as int],
    {
        self.buf[index]
    }

    /// Reads one byte.
    pub fn read_u8(&mut self) -> (value: u8)
        ensures
            final(self)@ == old(self)@.skip(1),
            final(self)@.wf(),
            old(self)@.fits(1) ==> value == old(self)@.upcoming(1)[0],
            !old(self)@.fits(1) ==> value == 0,
    {
        if !self.is_remaining(size_of::<u8>()) {
            return 0;
        }
        let pos: usize = self.pos;
        self.advance(size_of::<u8>());
        self.buf[pos]
    }

    /// Reads two bytes as a number, least significant byte first.
    pub fn read_u16(&mut self) -> (value: u16)
        ensures
            final(self)@ == old(self)@.skip(2),
            final(self)@.wf(),
            old(self)@.fits(2) ==> value == u16_from_le_bytes(old(self)@.upcoming(2)),
            !old(self)@.fits(2) ==> value == 0,
    {
        if !self.is_remaining(size_of::<u16>()) {
            return 0;
        }
        let pos: usize = self.pos;
        self.advance(size_of::<u16>());
        let bytes: [u8; 2] = [self.buf[pos], self.buf[pos + 1]];
        assert(bytes@ =~= old(self)@.upcoming(2));
        u16_from_le(bytes)
    }

    /// Reads four bytes as a number, least significant byte first.
    pub fn read_u32(&mut self) -> (value: u32)
        ensures
            final(self)@ == old(self)@.skip(4),
            final(self)@.wf(),
            old(self)@.fits(4) ==> value == u32_from_le_bytes(old(self)@.upcoming(4)),
            !old(self)@.fits(4) ==> value == 0,
    {
        if !self.is_remaining(size_of::<u32>()) {
            return 0;
        }
        let pos: usize = self.pos;
        self.advance(size_of::<u32>());
        let bytes: [u8; 4] = [
            self.buf[pos],
            self.buf[pos + 1],
            self.buf[pos + 2],
            self.buf[pos + 3],
        ];
        assert(bytes@ =~= old(self)@.upcoming(4));
        u32_from_le(bytes)
    }

    /// Reads two bytes as a number, most significant byte first.
    pub fn read_u16_big_endian(&mut self) -> (value: u16)
        ensures
            final(self)@ == old(self)@.skip(2),
            final(self)@.wf(),
            old(self)@.fits(2) ==> value == u16_from_be_bytes(old(self)@.upcoming(2)),
            !old(self)@.fits(2) ==> value == 0,
    {
        if !self.is_remaining(size_of::<u16>()) {
            return 0;
        }
        let pos: usize = self.pos;
        self.advance(size_of::<u16>());
        let bytes: [u8; 2] = [self.buf[pos], self.buf[pos + 1]];
        assert(bytes@ =~= old(self)@.upcoming(2));
        u16_from_be(bytes)
    }

    /// Reads four bytes as a number, most significant byte first.
    pub fn read_u32_big_endian(&mut self) -> (value: u32)
        ensures
            final(self)@ == old(self)@.skip(4),
            final(self)@.wf(),
            old(self)@.fits(4) ==> value == u32_from_be_bytes(old(self)@.upcoming(4)),
            !old(self)@.fits(4) ==> value == 0,
    {
        if !self.is_remaining(size_of::<u32>()) {
            return 0;
        }
        let pos: usize = self.pos;
        self.advance(size_of::<u32>());
        let bytes: [u8; 4] = [
            self.buf[pos],
            self.buf[pos + 1],
            self.buf[pos + 2],
            self.buf[pos + 3],
        ];
        assert(bytes@ =~= old(self)@.upcoming(4));
        u32_from_be(bytes)
    }

    /// Fills `dst` with the next `dst.len()` bytes and returns that length, or
    /// returns 0 and leaves both `dst` and the reader as they were where fewer
    /// bytes remain.
    pub fn read(&mut self, dst: &mut [u8]) -> (count: usize)
        ensures
            final(self)@ == old(self)@.skip(old(dst)@.len()),
            final(self)@.wf(),
            old(self)@.fits(old(dst)@.len()) ==> count == old(dst)@.len(),
            old(self)@.fits(old(dst)@.len()) ==> final(dst)@ == old(self)@.upcoming(
                old(dst)@.len(),
            ),
            !old(self)@.fits(old(dst)@.len()) ==> count == 0,
            !old(self)@.fits(old(dst)@.len()) ==> final(dst)@ == old(dst)@,
    {
        let read_size: usize = dst.len();
        if !self.is_remaining(read_size) {
            return 0;
        }
        let start: usize = self.pos;
        self.advance(read_size);
        copy_all(dst, &self.buf[start..self.pos]);
        read_size
    }
}

impl<'a> Index<usize> for StreamBufReader<'a> {
    type Output = u8;

    /// The byte at `index`, counted from the beginning of the span.
    fn index(&self, index: usize) -> (byte: &u8)
        ensures
            *byte == self@.span[index as int],
    {
        &self.buf[index]
    }
}

impl<'a> vstd::std_specs::core::IndexSpecImpl<usize> for StreamBufReader<'a> {
    open spec fn index_req(&self, index: &usize) -> bool {
        *index < self@.span.len()
    }
}

} // verus!
