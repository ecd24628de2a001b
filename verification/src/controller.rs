//! The session: the sequence counter, the calibration of both sticks, and
//! the choices left to whoever sets the engine up.
//!
//! The session owns no transport handle. Whoever drives the engine owns the
//! handle and performs the actions that the operations below hand out.

use crate::calibration::{Side, StickCalibration};
use crate::exchange::{Exchange, ExchangeView};
use crate::frame::{
    build_subcommand_frame, next_sequence, subcommand_frame, ReplyPolicy, MAX_PAYLOAD,
    MIN_REPLY_LEN,
};
use crate::io::{Action, ActionView};
use crate::packing::MAX_12BIT;
use vstd::prelude::*;

verus! {

/// Length of the reply buffer of an exchange whose reply is discarded.
pub const VOID_REPLY_LEN: usize = 16;

/// Subcommand that sets the report mode.
pub const SUBCOMMAND_REPORT_MODE: u8 = 0x03;

/// Subcommand that resets the device.
pub const SUBCOMMAND_RESET: u8 = 0x06;

/// Subcommand that reads from the device's flash.
pub const SUBCOMMAND_FLASH_READ: u8 = 0x10;

/// Subcommand that sets the player indicator lights.
pub const SUBCOMMAND_PLAYER_LIGHTS: u8 = 0x30;

/// Subcommand that switches motion-sensor reporting.
pub const SUBCOMMAND_IMU: u8 = 0x40;

/// Subcommand that switches vibration.
pub const SUBCOMMAND_VIBRATION: u8 = 0x48;

/// Argument of [`SUBCOMMAND_RESET`].
pub const RESET_ARGUMENT: u8 = 0x04;

/// A session with one controller.
#[derive(Debug, PartialEq, Eq)]
pub struct ProController {
    global_count: u8,
    lstick_cal: StickCalibration,
    rstick_cal: StickCalibration,
    ldeadzone: u16,
    rdeadzone: u16,
    policy: ReplyPolicy,
    cold_boot_limit: Option<u32>,
}

/// Mathematical value of a [`ProController`].
pub struct ControllerView {
    /// Sequence number of the next subcommand frame.
    pub sequence: u8,
    /// Calibration of the left stick.
    pub left: StickCalibration,
    /// Calibration of the right stick.
    pub right: StickCalibration,
    /// Dead zone radius of the left stick.
    pub left_deadzone: u16,
    /// Dead zone radius of the right stick.
    pub right_deadzone: u16,
    /// Which replies an exchange accepts.
    pub policy: ReplyPolicy,
    /// How many cold-boot retries one attach may make; `None` for no limit.
    pub cold_boot_limit: Option<u32>,
}

impl ControllerView {
    /// The sequence number has four bits and every calibration value twelve.
    pub open spec fn wf(self) -> bool {
        &&& self.sequence <= 15
        &&& self.left.wf()
        &&& self.right.wf()
        &&& self.left_deadzone <= MAX_12BIT
        &&& self.right_deadzone <= MAX_12BIT
    }

    /// A session that has sent nothing and holds no calibration.
    pub open spec fn fresh(policy: ReplyPolicy, cold_boot_limit: Option<u32>) -> ControllerView {
        ControllerView {
            sequence: 0,
            left: StickCalibration::zero(),
            right: StickCalibration::zero(),
            left_deadzone: 0,
            right_deadzone: 0,
            policy,
            cold_boot_limit,
        }
    }

    /// The session after one subcommand frame was handed out.
    pub open spec fn after_send(self) -> ControllerView {
        ControllerView { sequence: next_sequence(self.sequence), ..self }
    }

    /// The session with its sequence counter back at zero.
    pub open spec fn restarted(self) -> ControllerView {
        ControllerView { sequence: 0, ..self }
    }

    /// The exchange of subcommand `sc` that this session starts, and the
    /// write that opens it: the frame carries the session's sequence number.
    pub open spec fn exchange(self, sc: u8, payload: Seq<u8>, recv_len: usize) -> (
        ExchangeView,
        ActionView,
    ) {
        (
            ExchangeView::start(sc, self.policy, recv_len),
            ActionView::Write { bytes: subcommand_frame(self.sequence, sc, payload) },
        )
    }

    /// The calibration of the stick on `side`.
    pub open spec fn calibration(self, side: Side) -> StickCalibration {
        match side {
            Side::Left => self.left,
            Side::Right => self.right,
        }
    }

    /// The dead zone radius of the stick on `side`.
    pub open spec fn deadzone(self, side: Side) -> u16 {
        match side {
            Side::Left => self.left_deadzone,
            Side::Right => self.right_deadzone,
        }
    }

    /// The session with `cal` as the calibration of the stick on `side`.
    pub open spec fn with_calibration(self, side: Side, cal: StickCalibration) -> ControllerView {
        match side {
            Side::Left => ControllerView { left: cal, ..self },
            Side::Right => ControllerView { right: cal, ..self },
        }
    }

    /// The session with `radius` as the dead zone of the stick on `side`.
    pub open spec fn with_deadzone(self, side: Side, radius: u16) -> ControllerView {
        match side {
            Side::Left => ControllerView { left_deadzone: radius, ..self },
            Side::Right => ControllerView { right_deadzone: radius, ..self },
        }
    }
}

impl View for ProController {
    type V = ControllerView;

    closed spec fn view(&self) -> ControllerView {
        ControllerView {
            sequence: self.global_count,
            left: self.lstick_cal,
            right: self.rstick_cal,
            left_deadzone: self.ldeadzone,
            right_deadzone: self.rdeadzone,
            policy: self.policy,
            cold_boot_limit: self.cold_boot_limit,
        }
    }
}

impl ProController {
    #[verifier::type_invariant]
    spec fn inv(self) -> bool {
        self@.wf()
    }

    /// A session that accepts a reply only when both of its identifying
    /// fields match, and that retries a cold boot without limit.
    pub fn new() -> (controller: ProController)
        ensures
            controller@ == ControllerView::fresh(ReplyPolicy::RequireBoth, None),
    {
        ProController::with_options(ReplyPolicy::RequireBoth, None)
    }

    /// A session with the given reply policy and cold-boot limit.
    pub fn with_options(policy: ReplyPolicy, cold_boot_limit: Option<u32>) -> (controller:
        ProController)
        ensures
            controller@ == ControllerView::fresh(policy, cold_boot_limit),
    {
        let zero = StickCalibration {
            max_above_x: 0,
            max_above_y: 0,
            center_x: 0,
            center_y: 0,
            max_below_x: 0,
            max_below_y: 0,
        };
        ProController {
            global_count: 0,
            lstick_cal: zero,
            rstick_cal: zero,
            ldeadzone: 0,
            rdeadzone: 0,
            policy,
            cold_boot_limit,
        }
    }

    /// The sequence number that the next subcommand frame will carry.
    pub fn sequence(&self) -> (sequence: u8)
        ensures
            sequence == self@.sequence,
            sequence <= 15,
    {
        proof {
            use_type_invariant(self);
        }
        self.global_count
    }

    /// The calibration of the stick on `side`.
    pub fn calibration(&self, side: Side) -> (cal: StickCalibration)
        ensures
            cal == self@.calibration(side),
            cal.wf(),
    {
        proof {
            use_type_invariant(self);
        }
        match side {
            Side::Left => self.lstick_cal,
            Side::Right => self.rstick_cal,
        }
    }

    /// The dead zone radius of the stick on `side`.
    pub fn deadzone(&self, side: Side) -> (radius: u16)
        ensures
            radius == self@.deadzone(side),
            radius <= MAX_12BIT,
    {
        proof {
            use_type_invariant(self);
        }
        match side {
            Side::Left => self.ldeadzone,
            Side::Right => self.rdeadzone,
        }
    }

    /// Which replies an exchange of this session accepts.
    pub fn reply_policy(&self) -> (policy: ReplyPolicy)
        ensures
            policy == self@.policy,
    {
        self.policy
    }

    /// How many cold-boot retries one attach may make; `None` for no limit.
    pub fn cold_boot_limit(&self) -> (limit: Option<u32>)
        ensures
            limit == self@.cold_boot_limit,
    {
        self.cold_boot_limit
    }

    /// Sets the sequence counter back to zero.
    pub(crate) fn restart_sequence(&mut self)
        ensures
            final(self)@ == old(self)@.restarted(),
    {
        proof {
            use_type_invariant(&*self);
        }
        self.global_count = 0;
    }

    /// Stores `cal` as the calibration of the stick on `side`.
    pub(crate) fn store_calibration(&mut self, side: Side, cal: StickCalibration)
        requires
            cal.wf(),
        ensures
            final(self)@ == old(self)@.with_calibration(side, cal),
    {
        proof {
            use_type_invariant(&*self);
        }
        match side {
            Side::Left => {
                self.lstick_cal = cal;
            },
            Side::Right => {
                self.rstick_cal = cal;
            },
        }
    }

    /// Stores `radius` as the dead zone of the stick on `side`.
    pub(crate) fn store_deadzone(&mut self, side: Side, radius: u16)
        requires
            radius <= MAX_12BIT,
        ensures
            final(self)@ == old(self)@.with_deadzone(side, radius),
    {
        proof {
            use_type_invariant(&*self);
        }
        match side {
            Side::Left => {
                self.ldeadzone = radius;
            },
            Side::Right => {
                self.rdeadzone = radius;
            },
        }
    }

    /// Starts an exchange of subcommand `sc` with payload `send`, whose reply
    /// is read into a buffer of `recv_len` bytes.
    ///
    /// The frame carries the current sequence number; the counter advances
    /// at once, whatever becomes of the exchange.
    pub fn subcommand(&mut self, sc: u8, send: &[u8], recv_len: usize) -> (started: (
        Exchange,
        Action,
    ))
        requires
            send@.len() <= MAX_PAYLOAD,
            recv_len >= MIN_REPLY_LEN,
        ensures
            started@ == old(self)@.exchange(sc, send@, recv_len),
            final(self)@ == old(self)@.after_send(),
    {
        proof {
            use_type_invariant(&*self);
        }
        let frame = build_subcommand_frame(self.global_count, sc, send);
        if self.global_count == 0xf {
            self.global_count = 0;
        } else {
            self.global_count += 1;
        }
        (Exchange::new(sc, self.policy, recv_len), Action::Write { bytes: frame })
    }

    /// Starts an exchange whose reply is awaited and then discarded.
    pub fn void_subcommand(&mut self, sc: u8, send: &[u8]) -> (started: (Exchange, Action))
        requires
            send@.len() <= MAX_PAYLOAD,
        ensures
            started@ == old(self)@.exchange(sc, send@, VOID_REPLY_LEN),
            final(self)@ == old(self)@.after_send(),
    {
        self.subcommand(sc, send, VOID_REPLY_LEN)
    }

    /// Starts the exchange that resets the device.
    pub fn reset(&mut self) -> (started: (Exchange, Action))
        ensures
            started@ == old(self)@.exchange(SUBCOMMAND_RESET, seq![RESET_ARGUMENT], VOID_REPLY_LEN),
            final(self)@ == old(self)@.after_send(),
    {
        let payload: [u8; 1] = [RESET_ARGUMENT];
        assert(payload@ == seq![RESET_ARGUMENT]);
        self.void_subcommand(SUBCOMMAND_RESET, payload.as_slice())
    }

    /// Starts the exchange that switches motion-sensor reporting on or off.
    pub fn set_imu(&mut self, state: bool) -> (started: (Exchange, Action))
        ensures
            started@ == old(self)@.exchange(SUBCOMMAND_IMU, seq![switch_byte(state)], VOID_REPLY_LEN),
            final(self)@ == old(self)@.after_send(),
    {
        let payload: [u8; 1] = [if state { 0x01 } else { 0x00 }];
        assert(payload@ == seq![switch_byte(state)]);
        self.void_subcommand(SUBCOMMAND_IMU, payload.as_slice())
    }

    /// Starts the exchange that switches vibration on or off.
    pub fn set_vibration(&mut self, state: bool) -> (started: (Exchange, Action))
        ensures
            started@ == old(self)@.exchange(
                SUBCOMMAND_VIBRATION,
                seq![switch_byte(state)],
                VOID_REPLY_LEN,
            ),
            final(self)@ == old(self)@.after_send(),
    {
        let payload: [u8; 1] = [if state { 0x01 } else { 0x00 }];
        assert(payload@ == seq![switch_byte(state)]);
        self.void_subcommand(SUBCOMMAND_VIBRATION, payload.as_slice())
    }

    /// Starts the exchange that sets the report mode.
    pub fn set_report_mode(&mut self, mode: u8) -> (started: (Exchange, Action))
        ensures
            started@ == old(self)@.exchange(SUBCOMMAND_REPORT_MODE, seq![mode], VOID_REPLY_LEN),
            final(self)@ == old(self)@.after_send(),
    {
        let payload: [u8; 1] = [mode];
        assert(payload@ == seq![mode]);
        self.void_subcommand(SUBCOMMAND_REPORT_MODE, payload.as_slice())
    }

    /// Starts the exchange that sets the player indicator lights.
    pub fn set_player_lights(&mut self, bitfield: u8) -> (started: (Exchange, Action))
        ensures
            started@ == old(self)@.exchange(
                SUBCOMMAND_PLAYER_LIGHTS,
                seq![bitfield],
                VOID_REPLY_LEN,
            ),
            final(self)@ == old(self)@.after_send(),
    {
        let payload: [u8; 1] = [bitfield];
        assert(payload@ == seq![bitfield]);
        self.void_subcommand(SUBCOMMAND_PLAYER_LIGHTS, payload.as_slice())
    }
}

/// The payload byte that switches a feature on or off.
pub open spec fn switch_byte(state: bool) -> u8 {
    if state {
        0x01
    } else {
        0x00
    }
}

/// After a send the sequence number is one more, and 0 after 15; a sequence
/// number never leaves the range 0 to 15.
pub proof fn law_sequence_wraps(session: ControllerView)
    ensures
        session.sequence <= 14 ==> session.after_send().sequence == session.sequence + 1,
        session.sequence == 15 ==> session.after_send().sequence == 0,
        session.after_send().sequence <= 15,
{
}

} // verus!
