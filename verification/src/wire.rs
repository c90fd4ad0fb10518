//! Little-endian integer layouts used on the wire.
use vstd::prelude::*;

verus! {

/// Value of two little-endian bytes.
pub open spec fn le16(b0: u8, b1: u8) -> u16 {
    (b0 + 256 * b1) as u16
}

/// The two little-endian bytes of a 16-bit value.
pub open spec fn le16_bytes(x: u16) -> Seq<u8> {
    seq![(x % 256) as u8, (x / 256) as u8]
}

/// Value of four little-endian bytes.
pub open spec fn le32(b0: u8, b1: u8, b2: u8, b3: u8) -> u32 {
    (b0 + 256 * b1 + 65536 * b2 + 16777216 * b3) as u32
}

/// The four little-endian bytes of a 32-bit value.
pub open spec fn le32_bytes(x: u32) -> Seq<u8> {
    seq![
        (x % 256) as u8,
        ((x / 256) % 256) as u8,
        ((x / 65536) % 256) as u8,
        (x / 16777216) as u8,
    ]
}

/// Value of six little-endian bytes (a GB26875 address).
pub open spec fn le48(b: Seq<u8>) -> u64 {
    (b[0] + 256 * b[1] + 65536 * b[2] + 16777216 * b[3] + 4294967296 * b[4] + 1099511627776 * b[5]) as u64
}

/// The low six little-endian bytes of a 64-bit value.
pub open spec fn le48_bytes(x: u64) -> Seq<u8> {
    seq![
        (x % 256) as u8,
        ((x / 256) % 256) as u8,
        ((x / 65536) % 256) as u8,
        ((x / 16777216) % 256) as u8,
        ((x / 4294967296) % 256) as u8,
        ((x / 1099511627776) % 256) as u8,
    ]
}

/// Largest six-byte address.
pub const MAX_ADDR: u64 = 0xFFFF_FFFF_FFFF;

/// Reads a little-endian 16-bit value.
pub fn u16_from_le(b0: u8, b1: u8) -> (r: u16)
    ensures
        r == le16(b0, b1),
{
    b0 as u16 + (b1 as u16) * 256
}

/// Writes a 16-bit value as two little-endian bytes.
pub fn u16_to_le(x: u16) -> (r: [u8; 2])
    ensures
        r@ == le16_bytes(x),
{
    [(x % 256) as u8, (x / 256) as u8]
}

/// Reads a little-endian 32-bit value.
pub fn u32_from_le(b0: u8, b1: u8, b2: u8, b3: u8) -> (r: u32)
    ensures
        r == le32(b0, b1, b2, b3),
{
    b0 as u32 + (b1 as u32) * 256 + (b2 as u32) * 65536 + (b3 as u32) * 16777216
}

/// Writes a 32-bit value as four little-endian bytes.
pub fn u32_to_le(x: u32) -> (r: [u8; 4])
    ensures
        r@ == le32_bytes(x),
{
    [(x % 256) as u8, ((x / 256) % 256) as u8, ((x / 65536) % 256) as u8, (x / 16777216) as u8]
}

/// Reads a six-byte little-endian address from `b[start..start + 6]`.
pub fn u48_from_le(b: &[u8], start: usize) -> (r: u64)
    requires
        start + 6 <= b@.len(),
    ensures
        r == le48(b@.subrange(start as int, start + 6)),
        r <= MAX_ADDR,
{
    b[start] as u64 + (b[start + 1] as u64) * 256 + (b[start + 2] as u64) * 65536 + (b[start
        + 3] as u64) * 16777216 + (b[start + 4] as u64) * 4294967296 + (b[start + 5] as u64)
        * 1099511627776
}

/// Writes the low six bytes of `x`, little-endian.
pub fn u48_to_le(x: u64) -> (r: [u8; 6])
    ensures
        r@ == le48_bytes(x),
{
    [
        (x % 256) as u8,
        ((x / 256) % 256) as u8,
        ((x / 65536) % 256) as u8,
        ((x / 16777216) % 256) as u8,
        ((x / 4294967296) % 256) as u8,
        ((x / 1099511627776) % 256) as u8,
    ]
}

/// Two's complement value of two little-endian bytes.
pub open spec fn le16_signed(b0: u8, b1: u8) -> i16 {
    let u = b0 + 256 * b1;
    if u >= 32768 {
        (u - 65536) as i16
    } else {
        u as i16
    }
}

/// The two little-endian two's complement bytes of a signed 16-bit value.
pub open spec fn le16_signed_bytes(x: i16) -> Seq<u8> {
    let u: int = if x < 0 {
        x + 65536
    } else {
        x as int
    };
    seq![(u % 256) as u8, (u / 256) as u8]
}

/// Reads a little-endian two's complement 16-bit value.
pub fn i16_from_le(b0: u8, b1: u8) -> (r: i16)
    ensures
        r == le16_signed(b0, b1),
{
    let u: u32 = b0 as u32 + (b1 as u32) * 256;
    if u >= 32768 {
        (u as i32 - 65536) as i16
    } else {
        u as i16
    }
}

/// Writes a signed 16-bit value as two little-endian two's complement bytes.
pub fn i16_to_le(x: i16) -> (r: [u8; 2])
    ensures
        r@ == le16_signed_bytes(x),
{
    let u: u32 = if x < 0 {
        (x as i32 + 65536) as u32
    } else {
        x as u32
    };
    [(u % 256) as u8, (u / 256) as u8]
}

/// Reading back written 16-bit bytes gives the value.
pub proof fn lemma_le16_roundtrip(x: u16)
    ensures
        le16(le16_bytes(x)[0], le16_bytes(x)[1]) == x,
{
}

/// Reading back written 32-bit bytes gives the value.
pub proof fn lemma_le32_roundtrip(x: u32)
    ensures
        le32(le32_bytes(x)[0], le32_bytes(x)[1], le32_bytes(x)[2], le32_bytes(x)[3]) == x,
{
}

/// Reading back the written six bytes of an address gives the address.
pub proof fn lemma_le48_roundtrip(x: u64)
    requires
        x <= MAX_ADDR,
    ensures
        le48(le48_bytes(x)) == x,
{
    let c0: u64 = x % 256;
    let c1: u64 = (x / 256) % 256;
    let c2: u64 = (x / 65536) % 256;
    let c3: u64 = (x / 16777216) % 256;
    let c4: u64 = (x / 4294967296) % 256;
    let c5: u64 = (x / 1099511627776) % 256;
    assert(c0 + 256 * c1 + 65536 * c2 + 16777216 * c3 + 4294967296 * c4 + 1099511627776 * c5
        == x) by (bit_vector)
        requires
            x <= 0xFFFF_FFFF_FFFFu64,
            c0 == x % 256,
            c1 == (x / 256) % 256,
            c2 == (x / 65536) % 256,
            c3 == (x / 16777216) % 256,
            c4 == (x / 4294967296) % 256,
            c5 == (x / 1099511627776) % 256,
    ;
}

/// Reading back written signed 16-bit bytes gives the value.
pub proof fn lemma_le16_signed_roundtrip(x: i16)
    ensures
        le16_signed(le16_signed_bytes(x)[0], le16_signed_bytes(x)[1]) == x,
{
}

/// Writing back two read bytes gives the bytes.
pub proof fn lemma_le16_bytes_of_value(b0: u8, b1: u8)
    ensures
        le16_bytes(le16(b0, b1)) == seq![b0, b1],
{
    assert(le16_bytes(le16(b0, b1)) =~= seq![b0, b1]);
}

/// Writing back six read bytes gives the bytes.
pub proof fn lemma_le48_bytes_of_value(b: Seq<u8>)
    requires
        b.len() == 6,
    ensures
        le48(b) <= MAX_ADDR,
        le48_bytes(le48(b)) == b,
{
    let (b0, b1, b2, b3, b4, b5) = (b[0], b[1], b[2], b[3], b[4], b[5]);
    let x: u64 = le48(b);
    assert(x == b0 + 256 * b1 + 65536 * b2 + 16777216 * b3 + 4294967296 * b4 + 1099511627776 * b5);
    assert({
        &&& x <= 0xFFFF_FFFF_FFFFu64
        &&& (x % 256) as u8 == b0
        &&& ((x / 256) % 256) as u8 == b1
        &&& ((x / 65536) % 256) as u8 == b2
        &&& ((x / 16777216) % 256) as u8 == b3
        &&& ((x / 4294967296) % 256) as u8 == b4
        &&& ((x / 1099511627776) % 256) as u8 == b5
    }) by (bit_vector)
        requires
            x == b0 + 256 * b1 + 65536 * b2 + 16777216 * b3 + 4294967296 * b4 + 1099511627776 * b5,
    ;
    assert(le48_bytes(x) =~= b);
}

/// Appends the bytes of `src` to `dst`.
pub fn append_bytes(dst: &mut Vec<u8>, src: &[u8])
    ensures
        final(dst)@ == old(dst)@ + src@,
{
    let ghost start = dst@;
    let mut i: usize = 0;
    while i < src.len()
        invariant
            i <= src@.len(),
            dst@ == start + src@.take(i as int),
        decreases src@.len() - i,
    {
        dst.push(src[i]);
        i = i + 1;
        proof {
            assert(dst@ =~= start + src@.take(i as int));
        }
    }
    proof {
        assert(src@.take(i as int) =~= src@);
    }
}

} // verus!
