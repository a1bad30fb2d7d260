//! What a writer writes, a reader reads back: the laws that tie the two
//! cursors together.

use crate::byte_order::{
    lemma_u16_bytes_round_trip, lemma_u32_bytes_round_trip, u16_be_bytes, u16_from_be_bytes,
    u16_from_le_bytes, u16_le_bytes, u32_be_bytes, u32_from_be_bytes, u32_from_le_bytes,
    u32_le_bytes,
};
use crate::cursor::Cursor;
use vstd::prelude::*;

verus! {

/// The cursor of a reader that took over from a writer with cursor `written`
/// and was then advanced to the offset `at`.
pub open spec fn read_back(written: Cursor, at: nat) -> Cursor {
    written.handover().advance(at)
}

/// Bytes written where they fit are the next bytes of a reader that takes
/// over from the writer and advances to where they were written; and behind
/// them that reader stands where the writer stood. The same holds of a reader
/// over the writer's whole span.
pub proof fn lemma_write_read_bytes(w: Cursor, bytes: Seq<u8>)
    requires
        w.wf(),
        w.fits(bytes.len()),
    ensures
        read_back(w.put(bytes), w.position).position == w.position,
        read_back(w.put(bytes), w.position).fits(bytes.len()),
        read_back(w.put(bytes), w.position).upcoming(bytes.len()) == bytes,
        read_back(w.put(bytes), w.position).skip(bytes.len()).position == w.put(bytes).position,
        Cursor::start(w.put(bytes).span).advance(w.position).fits(bytes.len()),
        Cursor::start(w.put(bytes).span).advance(w.position).upcoming(bytes.len()) == bytes,
{
    let r = read_back(w.put(bytes), w.position);
    assert(r.upcoming(bytes.len()) =~= bytes);
    let whole = Cursor::start(w.put(bytes).span).advance(w.position);
    assert(whole.upcoming(bytes.len()) =~= bytes);
}

/// A byte written is the byte read back.
pub proof fn lemma_write_read_u8(w: Cursor, v: u8)
    requires
        w.wf(),
        w.fits(1),
    ensures
        read_back(w.put(seq![v]), w.position).fits(1),
        read_back(w.put(seq![v]), w.position).upcoming(1)[0] == v,
{
    lemma_write_read_bytes(w, seq![v]);
}

/// A two-byte number written in either byte order is the number read back in
/// that order, for every value of it.
pub proof fn lemma_write_read_u16(w: Cursor, v: u16)
    requires
        w.wf(),
        w.fits(2),
    ensures
        read_back(w.put(u16_le_bytes(v)), w.position).fits(2),
        u16_from_le_bytes(read_back(w.put(u16_le_bytes(v)), w.position).upcoming(2)) == v,
        read_back(w.put(u16_be_bytes(v)), w.position).fits(2),
        u16_from_be_bytes(read_back(w.put(u16_be_bytes(v)), w.position).upcoming(2)) == v,
{
    lemma_u16_bytes_round_trip(v);
    lemma_write_read_bytes(w, u16_le_bytes(v));
    lemma_write_read_bytes(w, u16_be_bytes(v));
}

/// A four-byte number written in either byte order is the number read back in
/// that order, for every value of it.
pub proof fn lemma_write_read_u32(w: Cursor, v: u32)
    requires
        w.wf(),
        w.fits(4),
    ensures
        read_back(w.put(u32_le_bytes(v)), w.position).fits(4),
        u32_from_le_bytes(read_back(w.put(u32_le_bytes(v)), w.position).upcoming(4)) == v,
        read_back(w.put(u32_be_bytes(v)), w.position).fits(4),
        u32_from_be_bytes(read_back(w.put(u32_be_bytes(v)), w.position).upcoming(4)) == v,
{
    lemma_u32_bytes_round_trip(v);
    lemma_write_read_bytes(w, u32_le_bytes(v));
    lemma_write_read_bytes(w, u32_be_bytes(v));
}

} // verus!
