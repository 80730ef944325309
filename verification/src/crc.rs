//! The 16-bit cyclic redundancy check that closes every frame.
//!
//! The register starts at 0xFFFF; each byte is folded into its low half and
//! the register is then shifted right eight times, the reflected polynomial
//! 0xA001 being folded in whenever a one falls out.

use vstd::prelude::*;

verus! {

/// One shift of the register.
pub open spec fn crc_shift(crc: u16) -> u16 {
    if crc & 1 == 1 {
        (crc >> 1) ^ 0xA001
    } else {
        crc >> 1
    }
}

/// The register after one more byte.
pub open spec fn crc_step(crc: u16, byte: u8) -> u16 {
    crc_shift(
        crc_shift(
            crc_shift(
                crc_shift(crc_shift(crc_shift(crc_shift(crc_shift(crc ^ (byte as u16)))))),
            ),
        ),
    )
}

/// The register after all of `data`, starting from `start`.
pub open spec fn crc_fold(start: u16, data: Seq<u8>) -> u16
    decreases data.len(),
{
    if data.len() == 0 {
        start
    } else {
        crc_step(crc_fold(start, data.drop_last()), data.last())
    }
}

/// The checksum of `data`.
pub open spec fn crc16(data: Seq<u8>) -> u16 {
    crc_fold(0xFFFF, data)
}

fn shift(crc: u16) -> (shifted: u16)
    ensures
        shifted == crc_shift(crc),
{
    if crc & 1 == 1 {
        (crc >> 1) ^ 0xA001
    } else {
        crc >> 1
    }
}

fn step(crc: u16, byte: u8) -> (next: u16)
    ensures
        next == crc_step(crc, byte),
{
    let mut register: u16 = crc ^ (byte as u16);
    register = shift(register);
    register = shift(register);
    register = shift(register);
    register = shift(register);
    register = shift(register);
    register = shift(register);
    register = shift(register);
    shift(register)
}

/// Computes the checksum of the first `len` bytes of `data`.
pub fn checksum(data: &[u8], len: usize) -> (crc: u16)
    requires
        len <= data@.len(),
    ensures
        crc == crc16(data@.take(len as int)),
{
    let mut crc: u16 = 0xFFFF;
    let mut i: usize = 0;
    while i < len
        invariant
            i <= len <= data@.len(),
            crc == crc16(data@.take(i as int)),
        decreases len - i,
    {
        assert(data@.take(i + 1).drop_last() =~= data@.take(i as int));
        crc = step(crc, data[i]);
        i = i + 1;
    }
    crc
}

/// A byte sequence with one bit inverted: bit `bit` (0 to 7) of the byte at
/// `position`.
pub open spec fn with_bit_flipped(data: Seq<u8>, position: int, bit: u8) -> Seq<u8> {
    data.update(position, data[position] ^ (1u8 << bit))
}

/// The bytewise exclusive-or of two sequences of one length.
pub open spec fn difference(a: Seq<u8>, b: Seq<u8>) -> Seq<u8> {
    Seq::new(a.len(), |i: int| a[i] ^ b[i])
}

/// A shift of the register is linear over exclusive-or, and only the empty
/// register shifts to the empty register.
proof fn shift_is_linear(a: u16, b: u16)
    ensures
        crc_shift(a ^ b) == crc_shift(a) ^ crc_shift(b),
        crc_shift(a) == 0 <==> a == 0,
{
    assert(crc_shift(a ^ b) == crc_shift(a) ^ crc_shift(b)) by (bit_vector);
    assert(crc_shift(a) == 0 <==> a == 0) by (bit_vector);
}

/// Eight shifts in a row.
spec fn eight_shifts(crc: u16) -> u16 {
    crc_shift(crc_shift(crc_shift(crc_shift(crc_shift(crc_shift(crc_shift(crc_shift(crc))))))))
}

proof fn eight_shifts_are_linear(a: u16, b: u16)
    ensures
        eight_shifts(a ^ b) == eight_shifts(a) ^ eight_shifts(b),
        eight_shifts(a) == 0 <==> a == 0,
{
    let a1 = crc_shift(a);
    let b1 = crc_shift(b);
    let a2 = crc_shift(a1);
    let b2 = crc_shift(b1);
    let a3 = crc_shift(a2);
    let b3 = crc_shift(b2);
    let a4 = crc_shift(a3);
    let b4 = crc_shift(b3);
    let a5 = crc_shift(a4);
    let b5 = crc_shift(b4);
    let a6 = crc_shift(a5);
    let b6 = crc_shift(b5);
    let a7 = crc_shift(a6);
    let b7 = crc_shift(b6);
    shift_is_linear(a, b);
    shift_is_linear(a1, b1);
    shift_is_linear(a2, b2);
    shift_is_linear(a3, b3);
    shift_is_linear(a4, b4);
    shift_is_linear(a5, b5);
    shift_is_linear(a6, b6);
    shift_is_linear(a7, b7);
}

/// A step of the register is linear over exclusive-or, in the register and
/// the byte together; and it ends on the empty register only when the byte
/// cancels the register.
proof fn step_is_linear(c: u16, d: u16, x: u8, y: u8)
    ensures
        crc_step(c ^ d, x ^ y) == crc_step(c, x) ^ crc_step(d, y),
        crc_step(c, 0) == 0 <==> c == 0,
        y != 0 ==> crc_step(0, y) != 0,
{
    assert((c ^ d) ^ ((x ^ y) as u16) == (c ^ (x as u16)) ^ (d ^ (y as u16))) by (bit_vector);
    assert(c ^ (0u8 as u16) == c) by (bit_vector);
    assert(y != 0 ==> 0u16 ^ (y as u16) != 0) by (bit_vector);
    eight_shifts_are_linear(c ^ (x as u16), d ^ (y as u16));
    eight_shifts_are_linear(c ^ (0u8 as u16), 0);
    eight_shifts_are_linear(0u16 ^ (y as u16), 0);
}

/// The checksum is linear over exclusive-or: the registers of two sequences
/// of one length differ by the register of their difference.
proof fn fold_is_linear(s: u16, t: u16, a: Seq<u8>, b: Seq<u8>)
    requires
        a.len() == b.len(),
    ensures
        crc_fold(s, a) ^ crc_fold(t, b) == crc_fold(s ^ t, difference(a, b)),
    decreases a.len(),
{
    if a.len() > 0 {
        fold_is_linear(s, t, a.drop_last(), b.drop_last());
        assert(difference(a, b).drop_last() =~= difference(a.drop_last(), b.drop_last()));
        step_is_linear(
            crc_fold(s, a.drop_last()),
            crc_fold(t, b.drop_last()),
            a.last(),
            b.last(),
        );
    }
}

/// From the empty register, a sequence that is zero but for one byte leaves
/// a register that is not empty; one that is all zero leaves it empty.
proof fn lone_byte_is_seen(data: Seq<u8>, position: int)
    requires
        forall|i: int| 0 <= i < data.len() && i != position ==> data[i] == 0,
    ensures
        0 <= position < data.len() && data[position] != 0 ==> crc_fold(0, data) != 0,
        !(0 <= position < data.len()) ==> crc_fold(0, data) == 0,
    decreases data.len(),
{
    if data.len() > 0 {
        lone_byte_is_seen(data.drop_last(), position);
        step_is_linear(crc_fold(0, data.drop_last()), 0, data.last(), 0);
        step_is_linear(0, 0, 0, data.last());
    }
}

/// The checksum sees every single-bit error: inverting any one bit of a
/// sequence changes its checksum.
pub proof fn flipped_bit_changes_checksum(data: Seq<u8>, position: int, bit: u8)
    requires
        0 <= position < data.len(),
        bit < 8,
    ensures
        crc16(with_bit_flipped(data, position, bit)) != crc16(data),
{
    let damaged = with_bit_flipped(data, position, bit);
    let error = difference(data, damaged);
    let byte = data[position];
    assert(byte ^ (byte ^ (1u8 << bit)) != 0) by (bit_vector)
        requires
            bit < 8,
    ;
    assert forall|i: int| 0 <= i < error.len() && i != position implies error[i] == 0 by {
        let same = data[i];
        assert(same ^ same == 0) by (bit_vector);
    }
    lone_byte_is_seen(error, position);
    fold_is_linear(0xFFFF, 0xFFFF, data, damaged);
    let whole = crc16(data);
    let broken = crc16(damaged);
    assert(0xFFFFu16 ^ 0xFFFFu16 == 0) by (bit_vector);
    assert(whole ^ broken != 0 ==> whole != broken) by (bit_vector);
}

/// One more byte takes the register one step further: the checksum of a
/// sequence can be reckoned byte by byte, from the front.
pub proof fn fold_takes_a_step(start: u16, data: Seq<u8>, byte: u8)
    ensures
        crc_fold(start, data.push(byte)) == crc_step(crc_fold(start, data), byte),
{
    assert(data.push(byte).drop_last() =~= data);
}

/// The checksum of the nine ASCII digits "123456789" is 0x4B37, the check
/// value by which this checksum is known among its kind.
pub proof fn checksum_of_the_nine_digits()
    ensures
        crc16(seq![0x31u8, 0x32u8, 0x33u8, 0x34u8, 0x35u8, 0x36u8, 0x37u8, 0x38u8, 0x39u8])
            == 0x4B37,
{
    let d0 = Seq::<u8>::empty();
    let d1 = d0.push(0x31);
    let d2 = d1.push(0x32);
    let d3 = d2.push(0x33);
    let d4 = d3.push(0x34);
    let d5 = d4.push(0x35);
    let d6 = d5.push(0x36);
    let d7 = d6.push(0x37);
    let d8 = d7.push(0x38);
    let d9 = d8.push(0x39);
    fold_takes_a_step(0xFFFF, d0, 0x31);
    fold_takes_a_step(0xFFFF, d1, 0x32);
    fold_takes_a_step(0xFFFF, d2, 0x33);
    fold_takes_a_step(0xFFFF, d3, 0x34);
    fold_takes_a_step(0xFFFF, d4, 0x35);
    fold_takes_a_step(0xFFFF, d5, 0x36);
    fold_takes_a_step(0xFFFF, d6, 0x37);
    fold_takes_a_step(0xFFFF, d7, 0x38);
    fold_takes_a_step(0xFFFF, d8, 0x39);
    assert(crc_step(0xFFFF, 0x31) == 0x947E) by (bit_vector);
    assert(crc_step(0x947E, 0x32) == 0xF595) by (bit_vector);
    assert(crc_step(0xF595, 0x33) == 0x7A75) by (bit_vector);
    assert(crc_step(0x7A75, 0x34) == 0x30BA) by (bit_vector);
    assert(crc_step(0x30BA, 0x35) == 0xA471) by (bit_vector);
    assert(crc_step(0xA471, 0x36) == 0x32E4) by (bit_vector);
    assert(crc_step(0x32E4, 0x37) == 0x9D73) by (bit_vector);
    assert(crc_step(0x9D73, 0x38) == 0x37DD) by (bit_vector);
    assert(crc_step(0x37DD, 0x39) == 0x4B37) by (bit_vector);
    assert(d9 =~= seq![
        0x31u8,
        0x32u8,
        0x33u8,
        0x34u8,
        0x35u8,
        0x36u8,
        0x37u8,
        0x38u8,
        0x39u8,
    ]);
}

} // verus!
