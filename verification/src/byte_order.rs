//! Fixed-width unsigned integers as bytes, least or most significant byte first.

use vstd::prelude::*;

verus! {

/// The two bytes of `v`, least significant first.
pub open spec fn u16_le_bytes(v: u16) -> Seq<u8> {
    seq![(v % 256) as u8, (v / 256) as u8]
}

/// The two bytes of `v`, most significant first.
pub open spec fn u16_be_bytes(v: u16) -> Seq<u8> {
    seq![(v / 256) as u8, (v % 256) as u8]
}

/// The four bytes of `v`, least significant first.
pub open spec fn u32_le_bytes(v: u32) -> Seq<u8> {
    seq![
        (v % 256) as u8,
        (v / 256 % 256) as u8,
        (v / 65536 % 256) as u8,
        (v / 16777216) as u8,
    ]
}

/// The four bytes of `v`, most significant first.
pub open spec fn u32_be_bytes(v: u32) -> Seq<u8> {
    seq![
        (v / 16777216) as u8,
        (v / 65536 % 256) as u8,
        (v / 256 % 256) as u8,
        (v % 256) as u8,
    ]
}

/// The number whose bytes, least significant first, are `b[0]` and `b[1]`.
pub open spec fn u16_from_le_bytes(b: Seq<u8>) -> u16
    recommends
        b.len() == 2,
{
    (b[0] + 256 * b[1]) as u16
}

/// The number whose bytes, most significant first, are `b[0]` and `b[1]`.
pub open spec fn u16_from_be_bytes(b: Seq<u8>) -> u16
    recommends
        b.len() == 2,
{
    (256 * b[0] + b[1]) as u16
}

/// The number whose bytes, least significant first, are `b[0]` to `b[3]`.
pub open spec fn u32_from_le_bytes(b: Seq<u8>) -> u32
    recommends
        b.len() == 4,
{
    (b[0] + 256 * b[1] + 65536 * b[2] + 16777216 * b[3]) as u32
}

/// The number whose bytes, most significant first, are `b[0]` to `b[3]`.
pub open spec fn u32_from_be_bytes(b: Seq<u8>) -> u32
    recommends
        b.len() == 4,
{
    (16777216 * b[0] + 65536 * b[1] + 256 * b[2] + b[3]) as u32
}

/// Splits `v` into its bytes, least significant first.
pub fn u16_to_le(v: u16) -> (b: [u8; 2])
    ensures
        b@ == u16_le_bytes(v),
{
    assert(v & 0xff == v % 256 && v >> 8 == v / 256) by (bit_vector);
    [(v & 0xff) as u8, (v >> 8) as u8]
}

/// Joins two bytes, least significant first, into a number.
pub fn u16_from_le(b: [u8; 2]) -> (v: u16)
    ensures
        v == u16_from_le_bytes(b@),
{
    let lo: u16 = b[0] as u16;
    let hi: u16 = b[1] as u16;
    assert(lo | (hi << 8) == lo + 256 * hi) by (bit_vector)
        requires
            lo < 256,
            hi < 256,
    ;
    lo | (hi << 8)
}

/// Splits `v` into its bytes, most significant first.
pub fn u16_to_be(v: u16) -> (b: [u8; 2])
    ensures
        b@ == u16_be_bytes(v),
{
    assert(v & 0xff == v % 256 && v >> 8 == v / 256) by (bit_vector);
    [(v >> 8) as u8, (v & 0xff) as u8]
}

/// Joins two bytes, most significant first, into a number.
pub fn u16_from_be(b: [u8; 2]) -> (v: u16)
    ensures
        v == u16_from_be_bytes(b@),
{
    let hi: u16 = b[0] as u16;
    let lo: u16 = b[1] as u16;
    assert((hi << 8) | lo == 256 * hi + lo) by (bit_vector)
        requires
            lo < 256,
            hi < 256,
    ;
    (hi << 8) | lo
}

/// Splits `v` into its bytes, least significant first.
pub fn u32_to_le(v: u32) -> (b: [u8; 4])
    ensures
        b@ == u32_le_bytes(v),
{
    assert(v & 0xff == v % 256 && (v >> 8) & 0xff == v / 256 % 256 && (v >> 16) & 0xff == v
        / 65536 % 256 && v >> 24 == v / 16777216) by (bit_vector);
    [(v & 0xff) as u8, ((v >> 8) & 0xff) as u8, ((v >> 16) & 0xff) as u8, (v >> 24) as u8]
}

/// Joins four bytes, least significant first, into a number.
pub fn u32_from_le(b: [u8; 4]) -> (v: u32)
    ensures
        v == u32_from_le_bytes(b@),
{
    let b0: u32 = b[0] as u32;
    let b1: u32 = b[1] as u32;
    let b2: u32 = b[2] as u32;
    let b3: u32 = b[3] as u32;
    assert(b0 | (b1 << 8) | (b2 << 16) | (b3 << 24) == b0 + 256 * b1 + 65536 * b2 + 16777216
        * b3) by (bit_vector)
        requires
            b0 < 256,
            b1 < 256,
            b2 < 256,
            b3 < 256,
    ;
    b0 | (b1 << 8) | (b2 << 16) | (b3 << 24)
}

/// Splits `v` into its bytes, most significant first.
pub fn u32_to_be(v: u32) -> (b: [u8; 4])
    ensures
        b@ == u32_be_bytes(v),
{
    assert(v & 0xff == v % 256 && (v >> 8) & 0xff == v / 256 % 256 && (v >> 16) & 0xff == v
        / 65536 % 256 && v >> 24 == v / 16777216) by (bit_vector);
    [(v >> 24) as u8, ((v >> 16) & 0xff) as u8, ((v >> 8) & 0xff) as u8, (v & 0xff) as u8]
}

/// Joins four bytes, most significant first, into a number.
pub fn u32_from_be(b: [u8; 4]) -> (v: u32)
    ensures
        v == u32_from_be_bytes(b@),
{
    let b0: u32 = b[0] as u32;
    let b1: u32 = b[1] as u32;
    let b2: u32 = b[2] as u32;
    let b3: u32 = b[3] as u32;
    assert((b0 << 24) | (b1 << 16) | (b2 << 8) | b3 == 16777216 * b0 + 65536 * b1 + 256 * b2
        + b3) by (bit_vector)
        requires
            b0 < 256,
            b1 < 256,
            b2 < 256,
            b3 < 256,
    ;
    (b0 << 24) | (b1 << 16) | (b2 << 8) | b3
}

/// A two-byte number is the number that its bytes spell, in either byte
/// order.
pub proof fn lemma_u16_bytes_round_trip(v: u16)
    ensures
        u16_le_bytes(v).len() == 2,
        u16_be_bytes(v).len() == 2,
        u16_from_le_bytes(u16_le_bytes(v)) == v,
        u16_from_be_bytes(u16_be_bytes(v)) == v,
{
}

/// Two bytes are the bytes of the number that they spell, in either byte
/// order: no two numbers share their bytes.
pub proof fn lemma_u16_bytes_unique(b: Seq<u8>)
    requires
        b.len() == 2,
    ensures
        u16_le_bytes(u16_from_le_bytes(b)) == b,
        u16_be_bytes(u16_from_be_bytes(b)) == b,
{
}

/// A four-byte number is the number that its bytes spell, in either byte
/// order.
pub proof fn lemma_u32_bytes_round_trip(v: u32)
    ensures
        u32_le_bytes(v).len() == 4,
        u32_be_bytes(v).len() == 4,
        u32_from_le_bytes(u32_le_bytes(v)) == v,
        u32_from_be_bytes(u32_be_bytes(v)) == v,
{
    assert(v == v % 256 + 256 * (v / 256 % 256) + 65536 * (v / 65536 % 256) + 16777216 * (v
        / 16777216) && v / 16777216 < 256) by (bit_vector);
}

/// Four bytes are the bytes of the number that they spell, in either byte
/// order: no two numbers share their bytes.
pub proof fn lemma_u32_bytes_unique(b: Seq<u8>)
    requires
        b.len() == 4,
    ensures
        u32_le_bytes(u32_from_le_bytes(b)) == b,
        u32_be_bytes(u32_from_be_bytes(b)) == b,
{
    lemma_u32_digits(b[0], b[1], b[2], b[3]);
    lemma_u32_digits(b[3], b[2], b[1], b[0]);
    assert(u32_le_bytes(u32_from_le_bytes(b)) =~= b);
    assert(u32_be_bytes(u32_from_be_bytes(b)) =~= b);
}

/// The bytes of a number in one byte order are its bytes in the other order,
/// reversed.
pub proof fn lemma_byte_orders_mirror(h: u16, w: u32)
    ensures
        u16_be_bytes(h) == u16_le_bytes(h).reverse(),
        u32_be_bytes(w) == u32_le_bytes(w).reverse(),
{
    assert(u16_be_bytes(h) =~= u16_le_bytes(h).reverse());
    assert(u32_be_bytes(w) =~= u32_le_bytes(w).reverse());
}

/// The base-256 digits of a number written with four digits are those digits.
proof fn lemma_u32_digits(d0: u8, d1: u8, d2: u8, d3: u8)
    ensures
        ({
            let x = d0 + 256 * d1 + 65536 * d2 + 16777216 * d3;
            &&& 0 <= x <= u32::MAX
            &&& x % 256 == d0
            &&& x / 256 % 256 == d1
            &&& x / 65536 % 256 == d2
            &&& x / 16777216 == d3
        }),
{
    let x: u32 = (d0 + 256 * d1 + 65536 * d2 + 16777216 * d3) as u32;
    assert(x % 256 == d0 && x / 256 % 256 == d1 && x / 65536 % 256 == d2 && x / 16777216 == d3)
        by (bit_vector)
        requires
            x == d0 + 256 * d1 + 65536 * d2 + 16777216 * d3,
    ;
}

} // verus!
