//! Fixed-width fields of the wire schema.
//!
//! Every multi-byte field travels least significant byte first. Signed bytes
//! travel in two's complement. The functions here are the only place where a
//! value is turned into bytes or bytes into a value; the message and patch
//! layouts are built from them.

use vstd::prelude::*;

verus! {

/// The four bytes that stand for `x` on the wire, least significant first.
pub open spec fn u32_bytes(x: u32) -> Seq<u8> {
    seq![
        (x % 256) as u8,
        ((x / 256) % 256) as u8,
        ((x / 65536) % 256) as u8,
        (x / 16777216) as u8,
    ]
}

/// The 32-bit value whose four bytes start at index `at` of `bytes`.
pub open spec fn u32_at(bytes: Seq<u8>, at: int) -> u32 {
    (bytes[at] + 256 * bytes[at + 1] + 65536 * bytes[at + 2] + 16777216 * bytes[at + 3]) as u32
}

/// The byte that stands for a signed 8-bit value on the wire.
pub open spec fn i8_byte(v: i8) -> u8 {
    if v >= 0 {
        v as u8
    } else {
        (v + 256) as u8
    }
}

/// The signed 8-bit value that a wire byte stands for.
pub open spec fn byte_i8(b: u8) -> i8 {
    if b < 128 {
        b as i8
    } else {
        (b - 256) as i8
    }
}

/// Appends the four wire bytes of `x` to `out`.
pub fn put_u32(out: &mut Vec<u8>, x: u32)
    ensures
        final(out)@ == old(out)@ + u32_bytes(x),
{
    let b0: u32 = x % 256;
    let b1: u32 = (x / 256) % 256;
    let b2: u32 = (x / 65536) % 256;
    let b3: u32 = x / 16777216;
    out.push(b0 as u8);
    out.push(b1 as u8);
    out.push(b2 as u8);
    out.push(b3 as u8);
    assert(out@ =~= old(out)@ + u32_bytes(x));
}

/// Appends four single bytes to `out`.
pub fn put_bytes(out: &mut Vec<u8>, b0: u8, b1: u8, b2: u8, b3: u8)
    ensures
        final(out)@ == old(out)@ + seq![b0, b1, b2, b3],
{
    out.push(b0);
    out.push(b1);
    out.push(b2);
    out.push(b3);
    assert(out@ =~= old(out)@ + seq![b0, b1, b2, b3]);
}

/// Reads the 32-bit field that starts at index `at`. The field lies within
/// `bytes`.
pub fn read_u32(bytes: &[u8], at: usize) -> (field: u32)
    requires
        at + 4 <= bytes@.len(),
    ensures
        field == u32_at(bytes@, at as int),
{
    let b0: u32 = bytes[at] as u32;
    let b1: u32 = bytes[at + 1] as u32;
    let b2: u32 = bytes[at + 2] as u32;
    let b3: u32 = bytes[at + 3] as u32;
    b0 + 256 * b1 + 65536 * b2 + 16777216 * b3
}

/// Reads the 32-bit field that starts at index `at`, or nothing when the
/// field would reach past the end of `bytes`.
pub fn get_u32(bytes: &[u8], at: usize) -> (field: Option<u32>)
    ensures
        field == if at + 4 <= bytes@.len() {
            Some(u32_at(bytes@, at as int))
        } else {
            None
        },
{
    if bytes.len() < 4 || at > bytes.len() - 4 {
        None
    } else {
        Some(read_u32(bytes, at))
    }
}

/// Encodes a signed 8-bit value as its wire byte.
pub fn i8_to_byte(v: i8) -> (b: u8)
    ensures
        b == i8_byte(v),
{
    if v >= 0 {
        v as u8
    } else {
        let wide: i16 = v as i16 + 256;
        wide as u8
    }
}

/// Decodes a wire byte as a signed 8-bit value.
pub fn byte_to_i8(b: u8) -> (v: i8)
    ensures
        v == byte_i8(b),
{
    if b < 128 {
        b as i8
    } else {
        let wide: i16 = b as i16 - 256;
        wide as i8
    }
}

/// A 32-bit value is four bytes on the wire, and reading them gives it back.
pub proof fn lemma_u32_round_trip(x: u32)
    ensures
        u32_bytes(x).len() == 4,
        u32_at(u32_bytes(x), 0) == x,
{
}

/// Any four bytes are the wire form of the value read from them.
pub proof fn lemma_u32_bytes_of_read(bytes: Seq<u8>, at: int)
    requires
        0 <= at,
        at + 4 <= bytes.len(),
    ensures
        u32_bytes(u32_at(bytes, at)) == bytes.subrange(at, at + 4),
{
    let x = u32_at(bytes, at);
    lemma_digits(bytes[at] as int, bytes[at + 1] as int, bytes[at + 2] as int, bytes[at + 3] as int);
    assert(u32_bytes(x)[0] == bytes[at]);
    assert(u32_bytes(x)[1] == bytes[at + 1]);
    assert(u32_bytes(x)[2] == bytes[at + 2]);
    assert(u32_bytes(x)[3] == bytes[at + 3]);
    assert(u32_bytes(x) =~= bytes.subrange(at, at + 4));
}

/// Four base-256 digits are recovered from the number they spell.
proof fn lemma_digits(d0: int, d1: int, d2: int, d3: int)
    requires
        0 <= d0 < 256,
        0 <= d1 < 256,
        0 <= d2 < 256,
        0 <= d3 < 256,
    ensures
        ({
            let x = d0 + 256 * d1 + 65536 * d2 + 16777216 * d3;
            &&& 0 <= x <= 0xffff_ffff
            &&& x % 256 == d0
            &&& (x / 256) % 256 == d1
            &&& (x / 65536) % 256 == d2
            &&& x / 16777216 == d3
        }),
{
    let x = d0 + 256 * d1 + 65536 * d2 + 16777216 * d3;
    let q1 = d1 + 256 * d2 + 65536 * d3;
    let q2 = d2 + 256 * d3;
    assert(x == d0 + 256 * q1);
    assert(x / 256 == q1 && x % 256 == d0);
    assert(x == (d0 + 256 * d1) + 65536 * q2);
    assert(x / 65536 == q2);
    assert(q1 == d1 + 256 * q2);
    assert(q1 % 256 == d1);
    assert(q2 % 256 == d2);
    assert(x == (d0 + 256 * d1 + 65536 * d2) + 16777216 * d3);
    assert(x / 16777216 == d3);
}

/// A signed byte and its wire byte determine each other.
pub proof fn lemma_i8_round_trip(v: i8, b: u8)
    ensures
        byte_i8(i8_byte(v)) == v,
        i8_byte(byte_i8(b)) == b,
{
}

} // verus!
