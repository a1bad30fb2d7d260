//! The mathematical model shared by the reader and the writer: a bounded span
//! of bytes and a position inside it.

use crate::span::splice;
use vstd::prelude::*;

verus! {

/// A position inside a span of bytes of fixed length.
///
/// Both [`crate::StreamBufReader`] and [`crate::StreamBufWriter`] are viewed as a `Cursor`;
/// every contract of the two types is stated over the functions below.
pub struct Cursor {
    /// The bytes the cursor ranges over.
    pub span: Seq<u8>,
    /// Offset of the next byte to be read or written.
    pub position: nat,
}

impl Cursor {
    /// A cursor at the beginning of `span`.
    pub open spec fn start(span: Seq<u8>) -> Cursor {
        Cursor { span, position: 0 }
    }

    /// The position lies inside the span or at its end.
    pub open spec fn wf(self) -> bool {
        self.position <= self.span.len()
    }

    /// Number of bytes between the position and the end of the span.
    pub open spec fn remaining(self) -> nat {
        if self.position <= self.span.len() {
            (self.span.len() - self.position) as nat
        } else {
            0
        }
    }

    /// `n` more bytes lie between the position and the end of the span.
    pub open spec fn fits(self, n: nat) -> bool {
        self.position + n <= self.span.len()
    }

    /// The bytes before the position.
    pub open spec fn consumed(self) -> Seq<u8> {
        self.span.subrange(0, self.position as int)
    }

    /// The `n` bytes that start at the position.
    pub open spec fn upcoming(self, n: nat) -> Seq<u8> {
        self.span.subrange(self.position as int, (self.position + n) as int)
    }

    /// The same span with the position back at the beginning.
    pub open spec fn reset(self) -> Cursor {
        Cursor { span: self.span, position: 0 }
    }

    /// The position moved forward by `n`, stopping at the end of the span.
    pub open spec fn advance(self, n: nat) -> Cursor {
        Cursor {
            span: self.span,
            position: if self.position + n <= self.span.len() {
                self.position + n
            } else {
                self.span.len()
            },
        }
    }

    /// The position moved forward by exactly `n` where that many bytes remain;
    /// the cursor itself where they do not.
    pub open spec fn skip(self, n: nat) -> Cursor {
        if self.fits(n) {
            Cursor { span: self.span, position: self.position + n }
        } else {
            self
        }
    }

    /// `bytes` laid over the span from the position on, the position kept,
    /// where they fit; the cursor itself where they do not.
    pub open spec fn overlay(self, bytes: Seq<u8>) -> Cursor {
        if self.fits(bytes.len()) {
            Cursor { span: splice(self.span, self.position, bytes), position: self.position }
        } else {
            self
        }
    }

    /// `bytes` laid over the span from the position on and the position moved
    /// behind them, where they fit; the cursor itself where they do not.
    pub open spec fn put(self, bytes: Seq<u8>) -> Cursor {
        self.overlay(bytes).skip(bytes.len())
    }

    /// A cursor at the beginning of exactly the bytes before the position.
    pub open spec fn handover(self) -> Cursor {
        Cursor::start(self.consumed())
    }
}

/// Every operation keeps a well-formed cursor well-formed and the length of
/// its span fixed.
pub proof fn lemma_operations_keep_wf(c: Cursor, n: nat, bytes: Seq<u8>)
    requires
        c.wf(),
    ensures
        c.reset().wf() && c.reset().span == c.span,
        c.advance(n).wf() && c.advance(n).span == c.span,
        c.skip(n).wf() && c.skip(n).span == c.span,
        c.overlay(bytes).wf() && c.overlay(bytes).span.len() == c.span.len(),
        c.put(bytes).wf() && c.put(bytes).span.len() == c.span.len(),
        c.handover().wf(),
{
}

/// The position never moves backwards, except by `reset`: each of the other
/// operations leaves it where it was or moves it forward.
pub proof fn lemma_position_only_advances(c: Cursor, n: nat, bytes: Seq<u8>)
    requires
        c.wf(),
    ensures
        c.advance(n).position >= c.position,
        c.skip(n).position >= c.position,
        c.overlay(bytes).position == c.position,
        c.put(bytes).position >= c.position,
{
}

/// A read or write of `n` bytes that finds them moves the position by
/// exactly `n`; one that does not find them leaves the cursor as it was.
pub proof fn lemma_position_moves_by_width(c: Cursor, n: nat, bytes: Seq<u8>)
    ensures
        c.fits(n) ==> c.skip(n).position == c.position + n,
        !c.fits(n) ==> c.skip(n) == c,
        c.fits(bytes.len()) ==> c.put(bytes).position == c.position + bytes.len(),
        !c.fits(bytes.len()) ==> c.put(bytes) == c && c.overlay(bytes) == c,
{
}

/// A write changes the bytes it covers and no others.
pub proof fn lemma_put_touches_only_its_range(c: Cursor, bytes: Seq<u8>, i: int)
    requires
        c.fits(bytes.len()),
        0 <= i < c.span.len(),
    ensures
        c.position <= i < c.position + bytes.len() ==> c.put(bytes).span[i] == bytes[i
            - c.position],
        !(c.position <= i < c.position + bytes.len()) ==> c.put(bytes).span[i] == c.span[i],
{
}

/// Whatever the cursor was, after `reset` the position is 0 and the whole
/// span remains; a second `reset` changes nothing more.
pub proof fn lemma_reset(c: Cursor)
    ensures
        c.reset().position == 0,
        c.reset().remaining() == c.span.len(),
        c.reset().span == c.span,
        c.reset().reset() == c.reset(),
{
}

/// Exactly as many bytes fit as remain.
pub proof fn lemma_fits_iff_remaining(c: Cursor, n: nat)
    requires
        c.wf(),
    ensures
        c.fits(n) <==> n <= c.remaining(),
        c.position + c.remaining() == c.span.len(),
{
}

/// The cursor handed over holds the bytes before the position and nothing of
/// the span behind it: what remains to be read is as long as what was written.
pub proof fn lemma_handover_scope(c: Cursor)
    requires
        c.wf(),
    ensures
        c.handover().span == c.consumed(),
        c.handover().position == 0,
        c.handover().span.len() == c.position,
        c.handover().remaining() == c.position,
{
}

} // verus!
