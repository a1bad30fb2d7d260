//! Sequential, bounds-checked encoding into a borrowed span of bytes.

use crate::byte_order::{
    u16_be_bytes, u16_le_bytes, u16_to_be, u16_to_le, u32_be_bytes, u32_le_bytes, u32_to_be,
    u32_to_le,
};
use crate::cursor::Cursor;
use crate::span::{repeat, splice};
use crate::stream_buf_reader::StreamBufReader;
use core::mem::size_of;
use core::ops::Index;
use vstd::prelude::*;
use vstd::string::StringSliceAdditionalSpecFns;

verus! {

broadcast use vstd::layout::layout_of_primitives;

/// A write cursor over bytes that the caller owns.
///
/// The writer borrows the span exclusively for its whole life and never writes
/// outside it. A write that finds too little room changes nothing: neither a
/// byte of the span nor the position. Only indexed access asks the caller to
/// stay inside the span.
///
/// The view `w@` is the writer's [`Cursor`]. What the caller finds in its own
/// buffer when the writer is gone is told by [`loan`](Self::loan): every
/// operation keeps the writer tied to the buffer it was made over, and
/// [`lemma_loan_returned`](Self::lemma_loan_returned) and the conversion to a
/// reader say that the buffer then holds the writer's span.
pub struct StreamBufWriter<'a> {
    pos: usize,
    buf: &'a mut [u8],
}

impl<'a> View for StreamBufWriter<'a> {
    type V = Cursor;

    closed spec fn view(&self) -> Cursor {
        Cursor { span: self.buf@, position: self.pos as nat }
    }
}

impl<'a> StreamBufWriter<'a> {
    /// The position never leaves the span.
    #[verifier::type_invariant]
    spec fn inv(&self) -> bool {
        self.pos <= self.buf@.len()
    }

    /// The exclusive borrow of the caller's bytes that the writer holds.
    ///
    /// `final(w.loan())@` is what the caller finds in its buffer once the
    /// borrow has ended.
    pub closed spec fn loan(&self) -> &'a mut [u8] {
        self.buf
    }

    /// A writer at the beginning of `buf`.
    pub fn new(buf: &'a mut [u8]) -> (writer: Self)
        ensures
            writer@ == Cursor::start(old(buf)@),
            final(writer.loan())@ == final(buf)@,
    {
        Self { pos: 0, buf }
    }

    /// The whole span, written or not.
    pub fn get_data(&self) -> (data: &[u8])
        ensures
            data@ == self@.span,
    {
        self.buf
    }

    /// The bytes written so far.
    pub fn get_data_slice(&self) -> (data: &[u8])
        ensures
            data@ == self@.consumed(),
            self@.wf(),
    {
        proof {
            use_type_invariant(self);
        }
        &self.buf[0..self.pos]
    }

    /// The offset of the next byte to be written.
    pub fn pos(&self) -> (pos: usize)
        ensures
            pos == self@.position,
            self@.wf(),
    {
        proof {
            use_type_invariant(self);
        }
        self.pos
    }

    /// Moves the position back to the beginning of the span. No byte changes.
    pub fn reset(&mut self)
        ensures
            final(self)@ == old(self)@.reset(),
            final(self)@.wf(),
            final(final(self).loan())@ == final(old(self).loan())@,
    {
        self.pos = 0;
    }

    /// Whether nothing has been written yet.
    pub fn is_empty(&self) -> (empty: bool)
        ensures
            empty == (self@.position == 0),
            self@.wf(),
    {
        proof {
            use_type_invariant(self);
        }
        self.pos == 0
    }

    /// Whether the position has reached the end of the span.
    pub fn is_full(&self) -> (full: bool)
        ensures
            full == (self@.position >= self@.span.len()),
            self@.wf(),
    {
        proof {
            use_type_invariant(self);
        }
        self.pos >= self.buf.len()
    }

    /// The number of bytes that can still be written.
    pub fn bytes_remaining(&self) -> (count: usize)
        ensures
            count == self@.remaining(),
            self@.wf(),
    {
        proof {
            use_type_invariant(self);
        }
        self.buf.len() - self.pos
    }

    /// Whether `size` more bytes can be written.
    pub fn is_available(&self, size: usize) -> (yes: bool)
        ensures
            yes == self@.fits(size as nat),
            self@.wf(),
    {
        proof {
            use_type_invariant(self);
        }
        size <= self.buf.len() - self.pos
    }

    /// The number of bytes written so far.
    pub fn bytes_written(&self) -> (count: usize)
        ensures
            count == self@.position,
            self@.wf(),
    {
        proof {
            use_type_invariant(self);
        }
        self.pos
    }

    /// Moves the position forward by `n`, stopping at the end of the span.
    /// No byte changes.
    pub fn advance(&mut self, n: usize)
        ensures
            final(self)@ == old(self)@.advance(n as nat),
            final(self)@.wf(),
            final(final(self).loan())@ == final(old(self).loan())@,
    {
        proof {
            use_type_invariant(&*self);
        }
        if n <= self.buf.len() - self.pos {
            self.pos += n;
        } else {
            self.pos = self.buf.len();
        }
    }

    /// The bytes written so far.
    pub fn get_ref(&self) -> (data: &[u8])
        ensures
            data@ == self@.consumed(),
            self@.wf(),
    {
        proof {
            use_type_invariant(self);
        }
        &self.buf[0..self.pos]
    }

    /// The byte at `index`, counted from the beginning of the span, wherever
    /// the position is.
    pub fn at(&self, index: usize) -> (byte: u8)
        requires
            index < self@.span.len(),
        ensures
            byte == self@.span[index as int],
    {
        self.buf[index]
    }

    /// Sets the byte at `index`, counted from the beginning of the span,
    /// wherever the position is, and leaves the position where it was.
    pub fn set_at(&mut self, index: usize, value: u8)
        requires
            index < old(self)@.span.len(),
        ensures
            final(self)@ == (Cursor {
                span: old(self)@.span.update(index as int, value),
                position: old(self)@.position,
            }),
            final(self)@.wf(),
            final(final(self).loan())@ == final(old(self).loan())@,
    {
        proof {
            use_type_invariant(&*self);
        }
        self.buf[index] = value;
    }

    /// Lays `src` over the span from the position on and leaves the position
    /// where it is.
    fn store(&mut self, src: &[u8])
        requires
            old(self)@.fits(src@.len()),
        ensures
            final(self)@ == old(self)@.overlay(src@),
            final(self)@.wf(),
            final(final(self).loan())@ == final(old(self).loan())@,
    {
        proof {
            use_type_invariant(&*self);
        }
        let n: usize = src.len();
        let mut i: usize = 0;
        while i < n
            invariant
                n == src@.len(),
                self.pos + n <= self.buf.len(),
                i <= n,
                self.pos == old(self).pos,
                self.buf@.len() == old(self).buf@.len(),
                final(self.buf)@ == final(old(self).buf)@,
                forall|k: int|
                    0 <= k < self.buf@.len() ==> self.buf@[k] == if self.pos <= k < self.pos + i {
                        src@[k - self.pos]
                    } else {
                        old(self).buf@[k]
                    },
            decreases n - i,
        {
            self.buf[self.pos + i] = src[i];
            i += 1;
        }
        assert(self@.span =~= splice(old(self)@.span, old(self)@.position, src@));
    }

    /// Writes one byte.
    pub fn write_u8(&mut self, value: u8)
        ensures
            final(self)@ == old(self)@.put(seq![value]),
            final(self)@.wf(),
            final(final(self).loan())@ == final(old(self).loan())@,
    {
        if self.is_available(size_of::<u8>()) {
            self.buf[self.pos] = value;
            self.advance(size_of::<u8>());
            assert(self@.span =~= splice(old(self)@.span, old(self)@.position, seq![value]));
        }
    }

    /// Writes `value` as two bytes, least significant byte first.
    pub fn write_u16(&mut self, value: u16)
        ensures
            final(self)@ == old(self)@.put(u16_le_bytes(value)),
            final(self)@.wf(),
            final(final(self).loan())@ == final(old(self).loan())@,
    {
        if self.is_available(size_of::<u16>()) {
            let bytes: [u8; 2] = u16_to_le(value);
            self.store(&bytes);
            self.advance(size_of::<u16>());
        }
    }

    /// Writes `value` as four bytes, least significant byte first.
    pub fn write_u32(&mut self, value: u32)
        ensures
            final(self)@ == old(self)@.put(u32_le_bytes(value)),
            final(self)@.wf(),
            final(final(self).loan())@ == final(old(self).loan())@,
    {
        if self.is_available(size_of::<u32>()) {
            let bytes: [u8; 4] = u32_to_le(value);
            self.store(&bytes);
            self.advance(size_of::<u32>());
        }
    }

    /// Writes `value` as two bytes, most significant byte first.
    pub fn write_u16_big_endian(&mut self, value: u16)
        ensures
            final(self)@ == old(self)@.put(u16_be_bytes(value)),
            final(self)@.wf(),
            final(final(self).loan())@ == final(old(self).loan())@,
    {
        if self.is_available(size_of::<u16>()) {
            let bytes: [u8; 2] = u16_to_be(value);
            self.store(&bytes);
            self.advance(size_of::<u16>());
        }
    }

    /// Writes `value` as four bytes, most significant byte first.
    pub fn write_u32_big_endian(&mut self, value: u32)
        ensures
            final(self)@ == old(self)@.put(u32_be_bytes(value)),
            final(self)@.wf(),
            final(final(self).loan())@ == final(old(self).loan())@,
    {
        if self.is_available(size_of::<u32>()) {
            let bytes: [u8; 4] = u32_to_be(value);
            self.store(&bytes);
            self.advance(size_of::<u32>());
        }
    }

    /// Sets the next `len` bytes to `data` without moving the position, and
    /// says whether there was room for them. Without room nothing changes.
    pub fn fill_without_advancing(&mut self, data: u8, len: usize) -> (done: bool)
        ensures
            done == old(self)@.fits(len as nat),
            final(self)@ == old(self)@.overlay(repeat(data, len as nat)),
            final(self)@.wf(),
            final(final(self).loan())@ == final(old(self).loan())@,
    {
        if !self.is_available(len) {
            return false;
        }
        let mut i: usize = 0;
        while i < len
            invariant
                self.pos + len <= self.buf.len(),
                i <= len,
                self.pos == old(self).pos,
                self.buf@.len() == old(self).buf@.len(),
                final(self.buf)@ == final(old(self).buf)@,
                forall|k: int|
                    0 <= k < self.buf@.len() ==> self.buf@[k] == if self.pos <= k < self.pos + i {
                        data
                    } else {
                        old(self).buf@[k]
                    },
            decreases len - i,
        {
            self.buf[self.pos + i] = data;
            i += 1;
        }
        assert(self@.span =~= splice(
            old(self)@.span,
            old(self)@.position,
            repeat(data, len as nat),
        ));
        true
    }

    /// Sets the next `len` bytes to `data` and moves the position behind
    /// them. Without room for them nothing changes.
    pub fn fill(&mut self, data: u8, len: usize)
        ensures
            final(self)@ == old(self)@.put(repeat(data, len as nat)),
            final(self)@.wf(),
            final(final(self).loan())@ == final(old(self).loan())@,
    {
        if self.fill_without_advancing(data, len) {
            self.advance(len);
        }
    }

    /// Writes all of `src` and returns its length, or writes nothing and
    /// returns 0 where there is no room for all of it.
    pub fn write(&mut self, src: &[u8]) -> (count: usize)
        ensures
            final(self)@ == old(self)@.put(src@),
            final(self)@.wf(),
            old(self)@.fits(src@.len()) ==> count == src@.len(),
            !old(self)@.fits(src@.len()) ==> count == 0,
            final(final(self).loan())@ == final(old(self).loan())@,
    {
        let write_size: usize = src.len();
        if self.is_available(write_size) {
            self.store(src);
            self.advance(write_size);
            return write_size;
        }
        0
    }

    /// Writes the bytes of `src` as they are, with neither a length before
    /// them nor a terminator behind them, and returns their number; or writes
    /// nothing and returns 0 where there is no room for all of them.
    pub fn write_str(&mut self, src: &str) -> (count: usize)
        ensures
            final(self)@ == old(self)@.put(src.spec_bytes()),
            final(self)@.wf(),
            old(self)@.fits(src.spec_bytes().len()) ==> count == src.spec_bytes().len(),
            !old(self)@.fits(src.spec_bytes().len()) ==> count == 0,
            final(final(self).loan())@ == final(old(self).loan())@,
    {
        self.write(src.as_bytes())
    }

    /// Writes the bytes of `src` and one zero byte behind them, and returns
    /// their number; or writes nothing and returns 0 where there is no room
    /// for the text and the zero byte together.
    pub fn write_str_with_zero_terminator(&mut self, src: &str) -> (count: usize)
        ensures
            final(self)@ == old(self)@.put(src.spec_bytes().push(0)),
            final(self)@.wf(),
            old(self)@.fits(src.spec_bytes().len() + 1) ==> count == src.spec_bytes().len() + 1,
            !old(self)@.fits(src.spec_bytes().len() + 1) ==> count == 0,
            final(final(self).loan())@ == final(old(self).loan())@,
    {
        let text: &[u8] = src.as_bytes();
        if text.len() < self.bytes_remaining() {
            self.write(text);
            self.write_u8(0);
            assert(self@.span =~= splice(
                old(self)@.span,
                old(self)@.position,
                src.spec_bytes().push(0),
            ));
            return text.len() + 1;
        }
        0
    }
}

impl<'a> StreamBufWriter<'a> {
    /// Once the writer is used no more, the caller's buffer holds the
    /// writer's span.
    pub proof fn lemma_loan_returned(self)
        requires
            has_resolved(self),
        ensures
            final(self.loan())@ == self@.span,
    {
    }
}

impl<'a> Index<usize> for StreamBufWriter<'a> {
    type Output = u8;

    /// The byte at `index`, counted from the beginning of the span.
    fn index(&self, index: usize) -> (byte: &u8)
        ensures
            *byte == self@.span[index as int],
    {
        &self.buf[index]
    }
}

impl<'a> vstd::std_specs::core::IndexSpecImpl<usize> for StreamBufWriter<'a> {
    open spec fn index_req(&self, index: &usize) -> bool {
        *index < self@.span.len()
    }
}

impl<'a> From<StreamBufWriter<'a>> for StreamBufReader<'a> {
    /// Ends the writing and hands the bytes written so far, and no others,
    /// to a reader at their beginning.
    fn from(sbuf: StreamBufWriter<'a>) -> (reader: Self)
        ensures
            reader@ == sbuf@.handover(),
            reader@.wf(),
            final(sbuf.loan())@ == sbuf@.span,
    {
        proof {
            use_type_invariant(&sbuf);
        }
        let StreamBufWriter { pos, buf } = sbuf;
        let span: &'a [u8] = buf;
        StreamBufReader::new(&span[0..pos])
    }
}

/// The reader keeps its fields to itself, so no spec function can name the
/// reader that comes out: the contract of the conversion stands on `from`.
impl<'a> vstd::std_specs::convert::FromSpecImpl<StreamBufWriter<'a>> for StreamBufReader<'a> {
    open spec fn obeys_from_spec() -> bool {
        false
    }

    open spec fn from_spec(sbuf: StreamBufWriter<'a>) -> Self {
        arbitrary()
    }
}

} // verus!
