//! Decoding a telemetry report into a gamepad state.
//!
//! A report is [`REPORT_LEN`] bytes. Bytes 3 to 5 hold the buttons, one bit
//! each; bytes 6 to 8 hold the left stick's raw sample and bytes 9 to 11 the
//! right stick's, each as a packed pair of 12-bit values. The triggers are
//! reported as pressed or not pressed; how far they are pressed is not decoded.

use crate::calibration::Side;
use crate::controller::{ControllerView, ProController};
use crate::frame::REPORT_LEN;
use crate::packing::{first_of, second_of, unpack_pair, MAX_12BIT};
use crate::sticks::{center_sticks, centered, StickVector};
use vstd::prelude::*;

verus! {

/// Offset in a report of the byte that holds the right-hand buttons.
pub const RIGHT_BUTTONS_OFFSET: usize = 3;

/// Offset in a report of the byte that holds the shared buttons.
pub const SHARED_BUTTONS_OFFSET: usize = 4;

/// Offset in a report of the byte that holds the left-hand buttons.
pub const LEFT_BUTTONS_OFFSET: usize = 5;

/// Offset in a report of the left stick's three bytes.
pub const LEFT_STICK_OFFSET: usize = 6;

/// Offset in a report of the right stick's three bytes.
pub const RIGHT_STICK_OFFSET: usize = 9;

/// What a consumer that takes trigger pressure as a byte is given for a
/// pressed trigger.
pub const TRIGGER_PRESSED: u8 = 255;

/// The buttons of the controller, each pressed or not.
#[derive(Clone, Copy, Debug, PartialEq, Eq, Structural)]
pub struct Buttons {
    pub a: bool,
    pub b: bool,
    pub x: bool,
    pub y: bool,
    pub left_shoulder: bool,
    pub right_shoulder: bool,
    pub plus: bool,
    pub minus: bool,
    pub dpad_up: bool,
    pub dpad_down: bool,
    pub dpad_left: bool,
    pub dpad_right: bool,
    pub capture: bool,
    pub home: bool,
    pub left_stick: bool,
    pub right_stick: bool,
}

/// Everything one report says about the controller.
#[derive(Clone, Copy, Debug, PartialEq, Eq, Structural)]
pub struct GamepadState {
    pub buttons: Buttons,
    pub left_stick: StickVector,
    pub right_stick: StickVector,
    pub left_trigger: bool,
    pub right_trigger: bool,
}

/// Some bit of `byte` under `mask` is set.
pub open spec fn bit(byte: u8, mask: u8) -> bool {
    byte & mask != 0
}

/// The buttons that a report shows as pressed.
pub open spec fn decoded_buttons(report: Seq<u8>) -> Buttons {
    let right = report[RIGHT_BUTTONS_OFFSET as int];
    let shared = report[SHARED_BUTTONS_OFFSET as int];
    let left = report[LEFT_BUTTONS_OFFSET as int];
    Buttons {
        y: bit(right, 0x01),
        x: bit(right, 0x02),
        b: bit(right, 0x04),
        a: bit(right, 0x08),
        right_shoulder: bit(right, 0x40),
        minus: bit(shared, 0x01),
        plus: bit(shared, 0x02),
        right_stick: bit(shared, 0x04),
        left_stick: bit(shared, 0x08),
        home: bit(shared, 0x10),
        capture: bit(shared, 0x20),
        dpad_down: bit(left, 0x01),
        dpad_up: bit(left, 0x02),
        dpad_right: bit(left, 0x04),
        dpad_left: bit(left, 0x08),
        left_shoulder: bit(left, 0x40),
    }
}

/// The left trigger is pressed.
pub open spec fn decoded_left_trigger(report: Seq<u8>) -> bool {
    bit(report[LEFT_BUTTONS_OFFSET as int], 0x80)
}

/// The right trigger is pressed.
pub open spec fn decoded_right_trigger(report: Seq<u8>) -> bool {
    bit(report[RIGHT_BUTTONS_OFFSET as int], 0x80)
}

/// Offset in a report of the three bytes of the stick on `side`.
pub open spec fn stick_offset(side: Side) -> int {
    match side {
        Side::Left => LEFT_STICK_OFFSET as int,
        Side::Right => RIGHT_STICK_OFFSET as int,
    }
}

/// The raw sample of the stick on `side`: x first, then y.
pub open spec fn raw_sample(report: Seq<u8>, side: Side) -> (u16, u16) {
    let at = stick_offset(side);
    (
        first_of(report[at], report[at + 1]) as u16,
        second_of(report[at + 1], report[at + 2]) as u16,
    )
}

/// The gamepad state that a report encodes for a session with the given
/// calibration.
pub open spec fn decoded(report: Seq<u8>, session: ControllerView) -> GamepadState {
    GamepadState {
        buttons: decoded_buttons(report),
        left_stick: centered(raw_sample(report, Side::Left), session.left, session.left_deadzone),
        right_stick: centered(
            raw_sample(report, Side::Right),
            session.right,
            session.right_deadzone,
        ),
        left_trigger: decoded_left_trigger(report),
        right_trigger: decoded_right_trigger(report),
    }
}

/// Reads the buttons out of a report.
pub fn decode_buttons(report: &[u8; 48]) -> (buttons: Buttons)
    ensures
        buttons == decoded_buttons(report@),
{
    let right: u8 = report[RIGHT_BUTTONS_OFFSET];
    let shared: u8 = report[SHARED_BUTTONS_OFFSET];
    let left: u8 = report[LEFT_BUTTONS_OFFSET];
    Buttons {
        y: right & 0x01 != 0,
        x: right & 0x02 != 0,
        b: right & 0x04 != 0,
        a: right & 0x08 != 0,
        right_shoulder: right & 0x40 != 0,
        minus: shared & 0x01 != 0,
        plus: shared & 0x02 != 0,
        right_stick: shared & 0x04 != 0,
        left_stick: shared & 0x08 != 0,
        home: shared & 0x10 != 0,
        capture: shared & 0x20 != 0,
        dpad_down: left & 0x01 != 0,
        dpad_up: left & 0x02 != 0,
        dpad_right: left & 0x04 != 0,
        dpad_left: left & 0x08 != 0,
        left_shoulder: left & 0x40 != 0,
    }
}

/// Reads the raw sample of the stick on `side` out of a report.
pub fn decode_raw_sample(report: &[u8; 48], side: Side) -> (sample: (u16, u16))
    ensures
        sample == raw_sample(report@, side),
        sample.0 <= MAX_12BIT,
        sample.1 <= MAX_12BIT,
{
    let at: usize = match side {
        Side::Left => LEFT_STICK_OFFSET,
        Side::Right => RIGHT_STICK_OFFSET,
    };
    unpack_pair(report[at], report[at + 1], report[at + 2])
}

/// What a consumer that takes trigger pressure as a byte is given:
/// [`TRIGGER_PRESSED`] for a pressed trigger, 0 otherwise.
pub fn trigger_level(pressed: bool) -> (level: u8)
    ensures
        level == if pressed { TRIGGER_PRESSED } else { 0u8 },
{
    if pressed {
        TRIGGER_PRESSED
    } else {
        0
    }
}

impl ProController {
    /// Decodes a telemetry report against this session's calibration.
    pub fn decode(&self, report: &[u8; 48]) -> (state: GamepadState)
        ensures
            state == decoded(report@, self@),
    {
        let left_cal = self.calibration(Side::Left);
        let right_cal = self.calibration(Side::Right);
        GamepadState {
            buttons: decode_buttons(report),
            left_stick: center_sticks(
                decode_raw_sample(report, Side::Left),
                &left_cal,
                self.deadzone(Side::Left),
            ),
            right_stick: center_sticks(
                decode_raw_sample(report, Side::Right),
                &right_cal,
                self.deadzone(Side::Right),
            ),
            left_trigger: report[LEFT_BUTTONS_OFFSET] & 0x80 != 0,
            right_trigger: report[RIGHT_BUTTONS_OFFSET] & 0x80 != 0,
        }
    }
}

/// Bit of the XInput button word for the d-pad's up direction.
pub const XINPUT_DPAD_UP: u16 = 0x0001;

/// Bit of the XInput button word for the d-pad's down direction.
pub const XINPUT_DPAD_DOWN: u16 = 0x0002;

/// Bit of the XInput button word for the d-pad's left direction.
pub const XINPUT_DPAD_LEFT: u16 = 0x0004;

/// Bit of the XInput button word for the d-pad's right direction.
pub const XINPUT_DPAD_RIGHT: u16 = 0x0008;

/// Bit of the XInput button word for Start, which Plus is mapped to.
pub const XINPUT_START: u16 = 0x0010;

/// Bit of the XInput button word for Back, which Minus is mapped to.
pub const XINPUT_BACK: u16 = 0x0020;

/// Bit of the XInput button word for the left shoulder button.
pub const XINPUT_LEFT_SHOULDER: u16 = 0x0100;

/// Bit of the XInput button word for the right shoulder button.
pub const XINPUT_RIGHT_SHOULDER: u16 = 0x0200;

/// Bit of the XInput button word for A.
pub const XINPUT_A: u16 = 0x1000;

/// Bit of the XInput button word for B.
pub const XINPUT_B: u16 = 0x2000;

/// Bit of the XInput button word for X.
pub const XINPUT_X: u16 = 0x4000;

/// Bit of the XInput button word for Y.
pub const XINPUT_Y: u16 = 0x8000;

/// `mask` if `pressed`, nothing otherwise.
pub open spec fn flag(pressed: bool, mask: u16) -> u16 {
    if pressed {
        mask
    } else {
        0
    }
}

/// The XInput button word for `buttons`. Capture, Home and the two stick
/// clicks have no place in it.
pub open spec fn xinput_bits(buttons: Buttons) -> u16 {
    flag(buttons.a, XINPUT_A) | flag(buttons.b, XINPUT_B) | flag(buttons.x, XINPUT_X) | flag(
        buttons.y,
        XINPUT_Y,
    ) | flag(buttons.dpad_up, XINPUT_DPAD_UP) | flag(buttons.dpad_down, XINPUT_DPAD_DOWN) | flag(
        buttons.dpad_left,
        XINPUT_DPAD_LEFT,
    ) | flag(buttons.dpad_right, XINPUT_DPAD_RIGHT) | flag(buttons.plus, XINPUT_START) | flag(
        buttons.minus,
        XINPUT_BACK,
    ) | flag(buttons.left_shoulder, XINPUT_LEFT_SHOULDER) | flag(
        buttons.right_shoulder,
        XINPUT_RIGHT_SHOULDER,
    )
}

/// `mask` if `pressed`, nothing otherwise.
fn flag_of(pressed: bool, mask: u16) -> (bits: u16)
    ensures
        bits == flag(pressed, mask),
{
    if pressed {
        mask
    } else {
        0
    }
}

impl Buttons {
    /// The XInput button word for these buttons.
    pub fn xinput_word(&self) -> (word: u16)
        ensures
            word == xinput_bits(*self),
    {
        flag_of(self.a, XINPUT_A) | flag_of(self.b, XINPUT_B) | flag_of(self.x, XINPUT_X)
            | flag_of(self.y, XINPUT_Y) | flag_of(self.dpad_up, XINPUT_DPAD_UP) | flag_of(
            self.dpad_down,
            XINPUT_DPAD_DOWN,
        ) | flag_of(self.dpad_left, XINPUT_DPAD_LEFT) | flag_of(
            self.dpad_right,
            XINPUT_DPAD_RIGHT,
        ) | flag_of(self.plus, XINPUT_START) | flag_of(self.minus, XINPUT_BACK) | flag_of(
            self.left_shoulder,
            XINPUT_LEFT_SHOULDER,
        ) | flag_of(self.right_shoulder, XINPUT_RIGHT_SHOULDER)
    }
}

/// In the XInput button word each mapped button has its own bit, set exactly
/// when the button is pressed, and no other bit is ever set.
pub proof fn law_xinput_word_bits(buttons: Buttons)
    ensures
        (xinput_bits(buttons) & XINPUT_A != 0) == buttons.a,
        (xinput_bits(buttons) & XINPUT_B != 0) == buttons.b,
        (xinput_bits(buttons) & XINPUT_X != 0) == buttons.x,
        (xinput_bits(buttons) & XINPUT_Y != 0) == buttons.y,
        (xinput_bits(buttons) & XINPUT_DPAD_UP != 0) == buttons.dpad_up,
        (xinput_bits(buttons) & XINPUT_DPAD_DOWN != 0) == buttons.dpad_down,
        (xinput_bits(buttons) & XINPUT_DPAD_LEFT != 0) == buttons.dpad_left,
        (xinput_bits(buttons) & XINPUT_DPAD_RIGHT != 0) == buttons.dpad_right,
        (xinput_bits(buttons) & XINPUT_START != 0) == buttons.plus,
        (xinput_bits(buttons) & XINPUT_BACK != 0) == buttons.minus,
        (xinput_bits(buttons) & XINPUT_LEFT_SHOULDER != 0) == buttons.left_shoulder,
        (xinput_bits(buttons) & XINPUT_RIGHT_SHOULDER != 0) == buttons.right_shoulder,
        xinput_bits(buttons) & 0x0CC0 == 0,
{
    let a = flag(buttons.a, XINPUT_A);
    let b = flag(buttons.b, XINPUT_B);
    let x = flag(buttons.x, XINPUT_X);
    let y = flag(buttons.y, XINPUT_Y);
    let up = flag(buttons.dpad_up, XINPUT_DPAD_UP);
    let down = flag(buttons.dpad_down, XINPUT_DPAD_DOWN);
    let left = flag(buttons.dpad_left, XINPUT_DPAD_LEFT);
    let right = flag(buttons.dpad_right, XINPUT_DPAD_RIGHT);
    let start = flag(buttons.plus, XINPUT_START);
    let back = flag(buttons.minus, XINPUT_BACK);
    let ls = flag(buttons.left_shoulder, XINPUT_LEFT_SHOULDER);
    let rs = flag(buttons.right_shoulder, XINPUT_RIGHT_SHOULDER);
    let word = a | b | x | y | up | down | left | right | start | back | ls | rs;
    assert({
        &&& (word & 0x1000 != 0) == (a != 0)
        &&& (word & 0x2000 != 0) == (b != 0)
        &&& (word & 0x4000 != 0) == (x != 0)
        &&& (word & 0x8000 != 0) == (y != 0)
        &&& (word & 0x0001 != 0) == (up != 0)
        &&& (word & 0x0002 != 0) == (down != 0)
        &&& (word & 0x0004 != 0) == (left != 0)
        &&& (word & 0x0008 != 0) == (right != 0)
        &&& (word & 0x0010 != 0) == (start != 0)
        &&& (word & 0x0020 != 0) == (back != 0)
        &&& (word & 0x0100 != 0) == (ls != 0)
        &&& (word & 0x0200 != 0) == (rs != 0)
        &&& word & 0x0CC0 == 0
    }) by (bit_vector)
        requires
            word == a | b | x | y | up | down | left | right | start | back | ls | rs,
            a == 0 || a == 0x1000,
            b == 0 || b == 0x2000,
            x == 0 || x == 0x4000,
            y == 0 || y == 0x8000,
            up == 0 || up == 0x0001,
            down == 0 || down == 0x0002,
            left == 0 || left == 0x0004,
            right == 0 || right == 0x0008,
            start == 0 || start == 0x0010,
            back == 0 || back == 0x0020,
            ls == 0 || ls == 0x0100,
            rs == 0 || rs == 0x0200,
    ;
}

} // verus!
