//! Normalisation of a raw stick sample against its calibration.
//!
//! The engine works in exact integer arithmetic. A normalised axis is the
//! ratio of the sample's distance from the centre to the calibrated travel in
//! that direction; the caller divides.

use crate::calibration::StickCalibration;
use vstd::prelude::*;

verus! {

/// One normalised axis as an exact fraction `numerator / denominator`.
///
/// The denominator is a calibration value and may be zero; the fraction is
/// then whatever the caller's arithmetic makes of a division by zero.
#[derive(Clone, Copy, Debug, PartialEq, Eq, Structural)]
pub struct AxisRatio {
    pub numerator: i32,
    pub denominator: u16,
}

/// A normalised stick position.
#[derive(Clone, Copy, Debug, PartialEq, Eq, Structural)]
pub struct StickVector {
    pub x: AxisRatio,
    pub y: AxisRatio,
}

impl StickVector {
    /// The stick at rest: exactly zero on both axes.
    pub open spec fn neutral() -> StickVector {
        StickVector {
            x: AxisRatio { numerator: 0, denominator: 1 },
            y: AxisRatio { numerator: 0, denominator: 1 },
        }
    }
}

/// Distance of the sample from the calibrated centre along x.
pub open spec fn delta_x(vals: (u16, u16), cal: StickCalibration) -> int {
    vals.0 - cal.center_x
}

/// Distance of the sample from the calibrated centre along y.
pub open spec fn delta_y(vals: (u16, u16), cal: StickCalibration) -> int {
    vals.1 - cal.center_y
}

/// The sample lies strictly inside the circle of radius `dz` around the centre.
pub open spec fn in_deadzone(vals: (u16, u16), cal: StickCalibration, dz: u16) -> bool {
    delta_x(vals, cal) * delta_x(vals, cal) + delta_y(vals, cal) * delta_y(vals, cal) < dz * dz
}

/// The normalised position of a sample.
///
/// Inside the dead zone it is neutral. Outside, each axis is its delta over
/// the travel above the centre when the delta is positive, and over the travel
/// below the centre otherwise.
pub open spec fn centered(vals: (u16, u16), cal: StickCalibration, dz: u16) -> StickVector {
    if in_deadzone(vals, cal, dz) {
        StickVector::neutral()
    } else {
        let dx = delta_x(vals, cal);
        let dy = delta_y(vals, cal);
        StickVector {
            x: AxisRatio {
                numerator: dx as i32,
                denominator: if dx > 0 {
                    cal.max_above_x
                } else {
                    cal.max_below_x
                },
            },
            y: AxisRatio {
                numerator: dy as i32,
                denominator: if dy > 0 {
                    cal.max_above_y
                } else {
                    cal.max_below_y
                },
            },
        }
    }
}

/// The square of a difference of two 16-bit values.
fn square(d: i32) -> (r: u64)
    requires
        -0xFFFF <= d <= 0xFFFF,
    ensures
        r == d * d,
        r <= 0xFFFF * 0xFFFF,
{
    let wide: i64 = d as i64;
    assert(0 <= wide * wide <= 0xFFFF * 0xFFFF) by (nonlinear_arith)
        requires
            -0xFFFF <= wide <= 0xFFFF,
    ;
    (wide * wide) as u64
}

/// Normalises the raw sample `vals` of a stick with calibration `cal` and dead
/// zone radius `dz`.
pub fn center_sticks(vals: (u16, u16), cal: &StickCalibration, dz: u16) -> (s: StickVector)
    ensures
        s == centered(vals, *cal, dz),
        in_deadzone(vals, *cal, dz) ==> s == StickVector::neutral(),
{
    let dx: i32 = vals.0 as i32 - cal.center_x as i32;
    let dy: i32 = vals.1 as i32 - cal.center_y as i32;
    let radius: i32 = dz as i32;
    if square(dx) + square(dy) < square(radius) {
        return StickVector {
            x: AxisRatio { numerator: 0, denominator: 1 },
            y: AxisRatio { numerator: 0, denominator: 1 },
        };
    }
    StickVector {
        x: AxisRatio {
            numerator: dx,
            denominator: if dx > 0 {
                cal.max_above_x
            } else {
                cal.max_below_x
            },
        },
        y: AxisRatio {
            numerator: dy,
            denominator: if dy > 0 {
                cal.max_above_y
            } else {
                cal.max_below_y
            },
        },
    }
}

/// A sample at the calibrated centre has a zero numerator on both axes,
/// inside the dead zone and outside it.
pub proof fn law_center_sample_is_zero(cal: StickCalibration, dz: u16)
    ensures
        centered((cal.center_x, cal.center_y), cal, dz).x.numerator == 0,
        centered((cal.center_x, cal.center_y), cal, dz).y.numerator == 0,
{
}

} // verus!
