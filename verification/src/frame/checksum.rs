//! GB26875 checksum: the arithmetic sum of the control unit bytes (frame bytes
//! 3-27) and the application data unit bytes, truncated to its low 8 bits.
use vstd::prelude::*;

verus! {

/// Arithmetic sum of a byte sequence.
pub open spec fn byte_sum(s: Seq<u8>) -> nat
    decreases s.len(),
{
    if s.len() == 0 {
        0
    } else {
        byte_sum(s.drop_last()) + (s.last() as nat)
    }
}

/// The checksum byte of a sequence: its byte sum modulo 256.
pub open spec fn checksum_of(s: Seq<u8>) -> u8 {
    (byte_sum(s) % 256) as u8
}

/// The byte sum of a concatenation is the sum of the byte sums.
pub proof fn lemma_byte_sum_concat(a: Seq<u8>, b: Seq<u8>)
    ensures
        byte_sum(a + b) == byte_sum(a) + byte_sum(b),
    decreases b.len(),
{
    if b.len() == 0 {
        assert(a + b =~= a);
    } else {
        lemma_byte_sum_concat(a, b.drop_last());
        assert((a + b).drop_last() =~= a + b.drop_last());
    }
}

/// Each byte adds at most 255 to the sum.
pub proof fn lemma_byte_sum_bound(s: Seq<u8>)
    ensures
        byte_sum(s) <= 255 * s.len(),
    decreases s.len(),
{
    if s.len() > 0 {
        lemma_byte_sum_bound(s.drop_last());
    }
}

/// Sum of the first `i` bytes.
proof fn lemma_byte_sum_take_step(s: Seq<u8>, i: int)
    requires
        0 <= i < s.len(),
    ensures
        byte_sum(s.take(i + 1)) == byte_sum(s.take(i)) + s[i],
{
    assert(s.take(i + 1).drop_last() =~= s.take(i));
}

/// Reducing the running sum modulo 256 before adding a byte does not change
/// the result modulo 256.
proof fn lemma_mod_step(x: int, b: int)
    requires
        0 <= b < 256,
    ensures
        ((x % 256) + b) % 256 == (x + b) % 256,
{
    vstd::arithmetic::div_mod::lemma_add_mod_noop(x, b, 256);
    assert(b % 256 == b);
}

/// Adds the bytes to a running checksum, modulo 256.
fn sum_into(sum: u8, bytes: &[u8]) -> (r: u8)
    ensures
        r == (sum + byte_sum(bytes@)) % 256,
{
    let mut acc: u8 = sum;
    let mut i: usize = 0;
    while i < bytes.len()
        invariant
            i <= bytes@.len(),
            acc == (sum + byte_sum(bytes@.take(i as int))) % 256,
        decreases bytes@.len() - i,
    {
        proof {
            lemma_byte_sum_take_step(bytes@, i as int);
            lemma_mod_step(sum + byte_sum(bytes@.take(i as int)), bytes@[i as int] as int);
        }
        acc = ((acc as u16 + bytes[i] as u16) % 256) as u8;
        i = i + 1;
    }
    proof {
        assert(bytes@.take(i as int) =~= bytes@);
    }
    acc
}

/// Computes the GB26875 checksum of a control unit (25 bytes, without the
/// start marker) and an application data unit (possibly empty).
pub fn calculate_checksum(control_unit: &[u8], data_unit: &[u8]) -> (r: u8)
    ensures
        r == checksum_of(control_unit@ + data_unit@),
{
    let s1 = sum_into(0, control_unit);
    let s2 = sum_into(s1, data_unit);
    proof {
        lemma_byte_sum_concat(control_unit@, data_unit@);
        vstd::arithmetic::div_mod::lemma_add_mod_noop(
            byte_sum(control_unit@) as int,
            byte_sum(data_unit@) as int,
            256,
        );
        vstd::arithmetic::div_mod::lemma_mod_twice(byte_sum(data_unit@) as int, 256);
        vstd::arithmetic::div_mod::lemma_add_mod_noop(
            (byte_sum(control_unit@) % 256) as int,
            byte_sum(data_unit@) as int,
            256,
        );
    }
    s2
}

pub open spec fn spec_packet_checksum(packet_data: Seq<u8>) -> Option<u8> {
    if packet_data.len() < 27 {
        None
    } else {
        Some(checksum_of(packet_data.subrange(2, packet_data.len() as int)))
    }
}

/// Checksum of a packet given with its start marker but without checksum and
/// end marker: `None` when it is shorter than start marker plus control unit.
pub fn calculate_packet_checksum(packet_data: &[u8]) -> (r: Option<u8>)
    ensures
        r == spec_packet_checksum(packet_data@),
{
    if packet_data.len() < 27 {
        return None;
    }
    let control_unit = &packet_data[2..27];
    let data_unit = &packet_data[27..packet_data.len()];
    let c = calculate_checksum(control_unit, data_unit);
    proof {
        assert(control_unit@ + data_unit@ =~= packet_data@.subrange(2, packet_data@.len() as int));
    }
    Some(c)
}

/// Whether the packet checksum equals `expected_checksum` (false when the
/// packet is too short to have one).
pub fn verify_checksum(packet_data: &[u8], expected_checksum: u8) -> (r: bool)
    ensures
        r == (spec_packet_checksum(packet_data@) == Some(expected_checksum)),
{
    match calculate_packet_checksum(packet_data) {
        Some(calculated) => calculated == expected_checksum,
        None => false,
    }
}

/// Checksum of an arbitrary byte sequence.
pub fn simple_checksum(bytes: &[u8]) -> (r: u8)
    ensures
        r == checksum_of(bytes@),
{
    sum_into(0, bytes)
}

/// Checksumming a control unit and data unit separately is checksumming
/// their concatenation.
pub proof fn law_checksum_split(control_unit: Seq<u8>, data_unit: Seq<u8>)
    ensures
        checksum_of(control_unit + data_unit) == ((byte_sum(control_unit) + byte_sum(data_unit))
            % 256) as u8,
{
    lemma_byte_sum_concat(control_unit, data_unit);
}

} // verus!
