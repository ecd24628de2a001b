//! Stick calibration as it is stored in the device's flash.
//!
//! A calibration block is nine bytes: three packed pairs of 12-bit values
//! (see [`crate::packing`]). The order of the six values depends on the
//! stick. The dead zone radius lives in a separate sixteen-byte block.

use crate::packing::{first_of, second_of, unpack_pair, MAX_12BIT};
use vstd::prelude::*;

verus! {

/// Length of a calibration block.
pub const CALIBRATION_BLOCK_LEN: usize = 9;

/// Length of the block that holds the dead zone radius.
pub const DEADZONE_BLOCK_LEN: usize = 16;

/// Which of the two analog sticks.
#[derive(Clone, Copy, Debug, PartialEq, Eq, Structural)]
pub enum Side {
    Left,
    Right,
}

/// The six calibration values of one stick: its centre, and how far it
/// travels above and below the centre along each axis.
#[derive(Clone, Copy, Debug, PartialEq, Eq, Structural)]
pub struct StickCalibration {
    pub max_above_x: u16,
    pub max_above_y: u16,
    pub center_x: u16,
    pub center_y: u16,
    pub max_below_x: u16,
    pub max_below_y: u16,
}

impl StickCalibration {
    /// Every field fits in twelve bits.
    pub open spec fn wf(self) -> bool {
        &&& self.max_above_x <= MAX_12BIT
        &&& self.max_above_y <= MAX_12BIT
        &&& self.center_x <= MAX_12BIT
        &&& self.center_y <= MAX_12BIT
        &&& self.max_below_x <= MAX_12BIT
        &&& self.max_below_y <= MAX_12BIT
    }

    /// The calibration of a stick that was never calibrated: all zero.
    pub open spec fn zero() -> StickCalibration {
        StickCalibration {
            max_above_x: 0,
            max_above_y: 0,
            center_x: 0,
            center_y: 0,
            max_below_x: 0,
            max_below_y: 0,
        }
    }
}

/// A block is blank when every byte of it is 0xFF or 0x00, the pattern of
/// flash that was never written.
pub open spec fn is_blank(block: Seq<u8>) -> bool {
    forall|i: int| 0 <= i < block.len() ==> block[i] == 0xFF || block[i] == 0x00
}

/// A block is present when it holds at least one byte that is neither 0xFF
/// nor 0x00.
pub open spec fn is_present(block: Seq<u8>) -> bool {
    exists|i: int| 0 <= i < block.len() && block[i] != 0xFF && block[i] != 0x00
}

/// The calibration that a nine-byte block encodes for the stick on `side`.
///
/// The block holds six values `v0..v5`. For the left stick they are, in
/// order, max-above x and y, centre x and y, max-below x and y. For the
/// right stick they are centre x and y, max-below x and y, max-above x and y.
pub open spec fn decoded_calibration(block: Seq<u8>, side: Side) -> StickCalibration {
    let v0 = first_of(block[0], block[1]) as u16;
    let v1 = second_of(block[1], block[2]) as u16;
    let v2 = first_of(block[3], block[4]) as u16;
    let v3 = second_of(block[4], block[5]) as u16;
    let v4 = first_of(block[6], block[7]) as u16;
    let v5 = second_of(block[7], block[8]) as u16;
    match side {
        Side::Left => StickCalibration {
            max_above_x: v0,
            max_above_y: v1,
            center_x: v2,
            center_y: v3,
            max_below_x: v4,
            max_below_y: v5,
        },
        Side::Right => StickCalibration {
            center_x: v0,
            center_y: v1,
            max_below_x: v2,
            max_below_y: v3,
            max_above_x: v4,
            max_above_y: v5,
        },
    }
}

/// The dead zone radius that a dead zone block encodes: the first value of
/// the packed pair that starts at byte 3.
pub open spec fn decoded_deadzone(block: Seq<u8>) -> u16 {
    first_of(block[3], block[4]) as u16
}

/// Tells whether `block` holds calibration data, that is, whether any byte of
/// it differs from both 0xFF and 0x00.
pub fn calibration_present(block: &[u8]) -> (present: bool)
    ensures
        present == is_present(block@),
        present == !is_blank(block@),
{
    let mut i: usize = 0;
    while i < block.len()
        invariant
            i <= block@.len(),
            forall|j: int| 0 <= j < i ==> block@[j] == 0xFF || block@[j] == 0x00,
        decreases block@.len() - i,
    {
        if block[i] != 0xFF && block[i] != 0x00 {
            return true;
        }
        i += 1;
    }
    false
}

/// Decodes the calibration of the stick on `side` from a calibration block.
pub fn decode_calibration(block: &[u8], side: Side) -> (cal: StickCalibration)
    requires
        block@.len() >= CALIBRATION_BLOCK_LEN,
    ensures
        cal == decoded_calibration(block@, side),
        cal.wf(),
{
    let (v0, v1) = unpack_pair(block[0], block[1], block[2]);
    let (v2, v3) = unpack_pair(block[3], block[4], block[5]);
    let (v4, v5) = unpack_pair(block[6], block[7], block[8]);
    match side {
        Side::Left => StickCalibration {
            max_above_x: v0,
            max_above_y: v1,
            center_x: v2,
            center_y: v3,
            max_below_x: v4,
            max_below_y: v5,
        },
        Side::Right => StickCalibration {
            center_x: v0,
            center_y: v1,
            max_below_x: v2,
            max_below_y: v3,
            max_above_x: v4,
            max_above_y: v5,
        },
    }
}

/// Decodes the dead zone radius from a dead zone block.
pub fn decode_deadzone(block: &[u8]) -> (radius: u16)
    requires
        block@.len() >= 5,
    ensures
        radius == decoded_deadzone(block@),
        radius <= MAX_12BIT,
{
    let (radius, _) = unpack_pair(block[3], block[4], 0);
    radius
}

/// A blank block is exactly one that is not present.
pub proof fn law_blank_or_present(block: Seq<u8>)
    ensures
        is_blank(block) <==> !is_present(block),
{
}

} // verus!
