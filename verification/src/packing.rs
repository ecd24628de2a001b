//! Two 12-bit values packed into three bytes.
//!
//! The first value occupies the first byte and the low nibble of the second
//! byte; the second value occupies the high nibble of the second byte and the
//! third byte.

use vstd::prelude::*;

verus! {

/// Largest value that fits in twelve bits.
pub const MAX_12BIT: u16 = 0x0FFF;

/// The first value of a packed pair: `b0` supplies bits 0..8, the low nibble
/// of `b1` supplies bits 8..12.
pub open spec fn first_of(b0: u8, b1: u8) -> int {
    b0 as int + (b1 as int % 16) * 256
}

/// The second value of a packed pair: the high nibble of `b1` supplies bits
/// 0..4, `b2` supplies bits 4..12.
pub open spec fn second_of(b1: u8, b2: u8) -> int {
    b1 as int / 16 + (b2 as int) * 16
}

/// The three bytes that hold the low twelve bits of `a` and of `b`.
pub open spec fn packed(a: u16, b: u16) -> Seq<u8> {
    seq![
        (a as int % 256) as u8,
        ((a as int / 256) % 16 + (b as int % 16) * 16) as u8,
        ((b as int / 16) % 256) as u8,
    ]
}

/// Splits three packed bytes into the two 12-bit values they hold.
pub fn unpack_pair(b0: u8, b1: u8, b2: u8) -> (r: (u16, u16))
    ensures
        r.0 == first_of(b0, b1),
        r.1 == second_of(b1, b2),
        r.0 <= MAX_12BIT,
        r.1 <= MAX_12BIT,
{
    let first: u16 = (b0 as u16) | (((b1 as u16) & 0x0F) << 8);
    let second: u16 = ((b1 as u16) >> 4) | ((b2 as u16) << 4);
    assert(first == (b0 as u16) + ((b1 as u16) % 16) * 256 && first <= 0x0FFF) by (bit_vector)
        requires
            first == (b0 as u16) | (((b1 as u16) & 0x0F) << 8),
    ;
    assert(second == (b1 as u16) / 16 + (b2 as u16) * 16 && second <= 0x0FFF) by (bit_vector)
        requires
            second == ((b1 as u16) >> 4) | ((b2 as u16) << 4),
    ;
    (first, second)
}

/// Packs the low twelve bits of `a` and of `b` into three bytes.
///
/// Bits above the twelfth are not stored.
pub fn pack_pair(a: u16, b: u16) -> (r: [u8; 3])
    ensures
        r@ == packed(a, b),
{
    let b0: u8 = (a & 0xFF) as u8;
    let b1: u8 = (((a >> 8) & 0x0F) | ((b & 0x0F) << 4)) as u8;
    let b2: u8 = ((b >> 4) & 0xFF) as u8;
    assert(b0 == a % 256) by (bit_vector)
        requires
            b0 == (a & 0xFF) as u8,
    ;
    assert(b1 == (a / 256) % 16 + (b % 16) * 16) by (bit_vector)
        requires
            b1 == (((a >> 8) & 0x0F) | ((b & 0x0F) << 4)) as u8,
    ;
    assert(b2 == (b / 16) % 256) by (bit_vector)
        requires
            b2 == ((b >> 4) & 0xFF) as u8,
    ;
    let r = [b0, b1, b2];
    assert(r@ =~= packed(a, b));
    r
}

/// Unpacking what was packed gives back the low twelve bits of each value;
/// a pair of 12-bit values comes back unchanged.
pub proof fn law_unpack_inverts_pack(a: u16, b: u16)
    ensures
        first_of(packed(a, b)[0], packed(a, b)[1]) == a as int % 4096,
        second_of(packed(a, b)[1], packed(a, b)[2]) == b as int % 4096,
        a <= MAX_12BIT && b <= MAX_12BIT ==> {
            &&& first_of(packed(a, b)[0], packed(a, b)[1]) == a
            &&& second_of(packed(a, b)[1], packed(a, b)[2]) == b
        },
{
}

} // verus!
