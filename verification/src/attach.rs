//! Bringing a controller from "transport open" to "streaming telemetry".
//!
//! The attach operation probes the device. A device that acknowledges is
//! negotiated with, calibrated and configured, in that order. A device that
//! does not acknowledge has booted cold: it is reset, given time to settle,
//! reopened, put into the simple report mode, and probed again.

use crate::calibrate::{Calibrate, CalibrateView};
use crate::controller::{
    ControllerView, ProController, RESET_ARGUMENT, SUBCOMMAND_IMU, SUBCOMMAND_PLAYER_LIGHTS,
    SUBCOMMAND_REPORT_MODE, SUBCOMMAND_RESET, SUBCOMMAND_VIBRATION, VOID_REPLY_LEN,
};
use crate::exchange::{Exchange, ExchangeView, Pending, READ_TIMEOUT_MS};
use crate::frame::{
    build_probe_frame, next_sequence, probe_frame, subcommand_frame, PROBE_ACK,
    SUBCOMMAND_REPORT_ID,
};
use crate::handshake::Handshake;
use crate::io::{
    Action, ActionView, Event, EventView, Progress, ProgressView, ProtocolError, ProtocolErrorView,
};
use vstd::prelude::*;

verus! {

/// Length of the buffer into which the reply to the probe is read.
pub const PROBE_REPLY_LEN: usize = 256;

/// How long a reset device is given to settle, in milliseconds.
pub const SETTLE_MS: u32 = 6000;

/// The report mode in which the device answers the probe after a cold boot.
pub const SIMPLE_REPORT_MODE: u8 = 0x3f;

/// The report mode in which the device streams full telemetry.
pub const STREAMING_REPORT_MODE: u8 = 0x30;

/// The player indicator pattern that an attached controller shows.
pub const PLAYER_LIGHTS_PATTERN: u8 = 0x08;

/// The four settings that configure streaming, in order.
#[derive(Clone, Copy, Debug, PartialEq, Eq, Structural)]
pub enum Setting {
    DisableImu,
    DisableVibration,
    PlayerLights,
    ReportMode,
}

impl Setting {
    /// The subcommand that applies this setting.
    pub open spec fn subcommand(self) -> u8 {
        match self {
            Setting::DisableImu => SUBCOMMAND_IMU,
            Setting::DisableVibration => SUBCOMMAND_VIBRATION,
            Setting::PlayerLights => SUBCOMMAND_PLAYER_LIGHTS,
            Setting::ReportMode => SUBCOMMAND_REPORT_MODE,
        }
    }

    /// The argument that the subcommand carries.
    pub open spec fn argument(self) -> u8 {
        match self {
            Setting::DisableImu => 0x00,
            Setting::DisableVibration => 0x00,
            Setting::PlayerLights => PLAYER_LIGHTS_PATTERN,
            Setting::ReportMode => STREAMING_REPORT_MODE,
        }
    }

    /// The setting that follows this one, if any.
    pub open spec fn next(self) -> Option<Setting> {
        match self {
            Setting::DisableImu => Some(Setting::DisableVibration),
            Setting::DisableVibration => Some(Setting::PlayerLights),
            Setting::PlayerLights => Some(Setting::ReportMode),
            Setting::ReportMode => None,
        }
    }
}

/// Where an attach in progress stands.
///
/// Before the attach starts the controller is disconnected; once the attach
/// has finished, streaming is configured.
#[derive(Clone, Copy, Debug, PartialEq, Eq, Structural)]
pub enum AttachState {
    /// The probe was sent and its reply is awaited.
    Probing,
    /// The device did not acknowledge and is being reset and reopened.
    ColdBootRetry,
    /// The device acknowledged; the negotiation is running.
    Ready,
    /// The negotiation is done; the calibration is running.
    Negotiated,
    /// The calibration is done; streaming is being configured.
    Calibrated,
}

impl AttachState {
    /// Position of the state in the order in which an attach passes through
    /// them. Probing and the cold-boot retry alternate and share a position.
    pub open spec fn rank(self) -> int {
        match self {
            AttachState::Probing => 0,
            AttachState::ColdBootRetry => 0,
            AttachState::Ready => 1,
            AttachState::Negotiated => 2,
            AttachState::Calibrated => 3,
        }
    }
}

/// What an attach in progress is doing.
#[derive(Debug, PartialEq, Eq)]
enum Phase {
    ProbeWrite,
    ProbeRead,
    Reset { exchange: Exchange },
    Settle,
    Reopen,
    SimpleMode { exchange: Exchange },
    Handshake { handshake: Handshake },
    Calibrate { calibrate: Calibrate },
    Configure { setting: Setting, exchange: Exchange },
}

/// Mathematical value of what an attach in progress is doing.
pub enum PhaseView {
    /// The write of the probe is pending.
    ProbeWrite,
    /// The read of the probe's reply is pending.
    ProbeRead,
    /// The reset exchange is running.
    Reset { exchange: ExchangeView },
    /// The settle delay is pending.
    Settle,
    /// The reopening of the transport is pending.
    Reopen,
    /// The exchange that forces the simple report mode is running.
    SimpleMode { exchange: ExchangeView },
    /// The negotiation is running.
    Handshake { handshake: Handshake },
    /// The calibration is running.
    Calibrate { calibrate: CalibrateView },
    /// The exchange that applies `setting` is running.
    Configure { setting: Setting, exchange: ExchangeView },
}

/// An attach in progress.
#[derive(Debug, PartialEq, Eq)]
pub struct Attach {
    retries_left: Option<u32>,
    phase: Phase,
}

/// Mathematical value of an [`Attach`].
pub struct AttachView {
    /// How many more cold-boot retries may start; `None` for no limit.
    pub retries_left: Option<u32>,
    /// What the attach is doing.
    pub phase: PhaseView,
}

/// The reply to the probe acknowledges: it is not empty and opens with
/// [`PROBE_ACK`].
pub open spec fn probe_acknowledged(data: Seq<u8>) -> bool {
    data.len() > 0 && data[0] == PROBE_ACK
}

/// The failure that a failed action causes.
pub open spec fn transport_failure<M>(reason: Seq<char>, session: ControllerView) -> (
    ProgressView<M, ()>,
    ControllerView,
) {
    (ProgressView::Failed { error: ProtocolErrorView::Transport { reason } }, session)
}

impl AttachView {
    /// An attach whose probe is about to be written.
    pub open spec fn initial(cold_boot_limit: Option<u32>) -> AttachView {
        AttachView { retries_left: cold_boot_limit, phase: PhaseView::ProbeWrite }
    }

    /// The state that the attach is in.
    pub open spec fn state(self) -> AttachState {
        match self.phase {
            PhaseView::ProbeWrite => AttachState::Probing,
            PhaseView::ProbeRead => AttachState::Probing,
            PhaseView::Reset { .. } => AttachState::ColdBootRetry,
            PhaseView::Settle => AttachState::ColdBootRetry,
            PhaseView::Reopen => AttachState::ColdBootRetry,
            PhaseView::SimpleMode { .. } => AttachState::ColdBootRetry,
            PhaseView::Handshake { .. } => AttachState::Ready,
            PhaseView::Calibrate { .. } => AttachState::Negotiated,
            PhaseView::Configure { .. } => AttachState::Calibrated,
        }
    }

    /// The attach moves to `phase` and asks for `action`.
    pub open spec fn proceed(self, phase: PhaseView, action: ActionView, session: ControllerView) -> (
        ProgressView<AttachView, ()>,
        ControllerView,
    ) {
        (
            ProgressView::Continue {
                machine: AttachView { retries_left: self.retries_left, phase },
                action,
            },
            session,
        )
    }

    /// An attach with `retries_left` retries starts the exchange that applies
    /// `setting`.
    pub open spec fn configure(
        retries_left: Option<u32>,
        setting: Setting,
        session: ControllerView,
    ) -> (ProgressView<AttachView, ()>, ControllerView) {
        let (exchange, action) = session.exchange(
            setting.subcommand(),
            seq![setting.argument()],
            VOID_REPLY_LEN,
        );
        (
            ProgressView::Continue {
                machine: AttachView {
                    retries_left,
                    phase: PhaseView::Configure { setting, exchange },
                },
                action,
            },
            session.after_send(),
        )
    }

    /// The attach is waiting for the outcome of a write.
    pub open spec fn awaits_write(self) -> bool {
        match self.phase {
            PhaseView::ProbeWrite => true,
            PhaseView::ProbeRead => false,
            PhaseView::Reset { exchange } => exchange.pending == Pending::Write,
            PhaseView::Settle => false,
            PhaseView::Reopen => false,
            PhaseView::SimpleMode { exchange } => exchange.pending == Pending::Write,
            PhaseView::Handshake { handshake } => handshake.pending == Pending::Write,
            PhaseView::Calibrate { calibrate } => calibrate.read.read.exchange.pending
                == Pending::Write,
            PhaseView::Configure { exchange, .. } => exchange.pending == Pending::Write,
        }
    }

    /// The attach answers a probe that was not acknowledged: it gives up when
    /// no retry is left, and otherwise spends one retry and starts the reset.
    pub open spec fn cold_boot(self, session: ControllerView) -> (
        ProgressView<AttachView, ()>,
        ControllerView,
    ) {
        if self.retries_left == Some(0u32) {
            (ProgressView::Failed { error: ProtocolErrorView::AttachFailed }, session)
        } else {
            let retries_left = match self.retries_left {
                Some(n) => Some((n - 1) as u32),
                None => None,
            };
            let (exchange, action) = session.exchange(
                SUBCOMMAND_RESET,
                seq![RESET_ARGUMENT],
                VOID_REPLY_LEN,
            );
            (
                ProgressView::Continue {
                    machine: AttachView { retries_left, phase: PhaseView::Reset { exchange } },
                    action,
                },
                session.after_send(),
            )
        }
    }

    /// The attach and the session after `event`.
    ///
    /// - Probe written: the reply is read. Probe answered: an acknowledgment
    ///   starts the negotiation, anything else a cold-boot retry.
    /// - Cold-boot retry: reset, settle, reopen, force the simple report mode;
    ///   then the sequence counter restarts and the probe is sent again.
    /// - Negotiation done: the calibration starts. Calibration done: the
    ///   settings are applied one by one. Last setting applied: the attach
    ///   ends.
    /// - A failed write, a failed read of the probe's reply, a failed reopen
    ///   and the failure of any exchange end the attach with that failure.
    pub open spec fn after(self, session: ControllerView, event: EventView) -> (
        ProgressView<AttachView, ()>,
        ControllerView,
    ) {
        match self.phase {
            PhaseView::ProbeWrite => match event {
                EventView::Failed { reason } => transport_failure(reason, session),
                EventView::Completed { .. } => self.proceed(
                    PhaseView::ProbeRead,
                    ActionView::ReadTimeout { len: PROBE_REPLY_LEN, millis: READ_TIMEOUT_MS },
                    session,
                ),
            },
            PhaseView::ProbeRead => match event {
                EventView::Failed { reason } => transport_failure(reason, session),
                EventView::Completed { data } => if probe_acknowledged(data) {
                    self.proceed(
                        PhaseView::Handshake { handshake: Handshake::initial() },
                        Handshake::first_action(),
                        session,
                    )
                } else {
                    self.cold_boot(session)
                },
            },
            PhaseView::Reset { exchange } => match exchange.after(event) {
                ProgressView::Continue { machine, action } => self.proceed(
                    PhaseView::Reset { exchange: machine },
                    action,
                    session,
                ),
                ProgressView::Failed { error } => (ProgressView::Failed { error }, session),
                ProgressView::Finished { .. } => self.proceed(
                    PhaseView::Settle,
                    ActionView::Sleep { millis: SETTLE_MS },
                    session,
                ),
            },
            PhaseView::Settle => self.proceed(PhaseView::Reopen, ActionView::Reopen, session),
            PhaseView::Reopen => match event {
                EventView::Failed { reason } => transport_failure(reason, session),
                EventView::Completed { .. } => {
                    let (exchange, action) = session.exchange(
                        SUBCOMMAND_REPORT_MODE,
                        seq![SIMPLE_REPORT_MODE],
                        VOID_REPLY_LEN,
                    );
                    self.proceed(PhaseView::SimpleMode { exchange }, action, session.after_send())
                },
            },
            PhaseView::SimpleMode { exchange } => match exchange.after(event) {
                ProgressView::Continue { machine, action } => self.proceed(
                    PhaseView::SimpleMode { exchange: machine },
                    action,
                    session,
                ),
                ProgressView::Failed { error } => (ProgressView::Failed { error }, session),
                ProgressView::Finished { .. } => self.proceed(
                    PhaseView::ProbeWrite,
                    ActionView::Write { bytes: probe_frame() },
                    session.restarted(),
                ),
            },
            PhaseView::Handshake { handshake } => match handshake.after(event) {
                ProgressView::Continue { machine, action } => self.proceed(
                    PhaseView::Handshake { handshake: machine },
                    action,
                    session,
                ),
                ProgressView::Failed { error } => (ProgressView::Failed { error }, session),
                ProgressView::Finished { .. } => {
                    let (calibrate, action) = session.calibrate();
                    self.proceed(PhaseView::Calibrate { calibrate }, action, session.after_send())
                },
            },
            PhaseView::Calibrate { calibrate } => {
                let (progress, session) = calibrate.after(session, event);
                match progress {
                    ProgressView::Continue { machine, action } => self.proceed(
                        PhaseView::Calibrate { calibrate: machine },
                        action,
                        session,
                    ),
                    ProgressView::Failed { error } => (ProgressView::Failed { error }, session),
                    ProgressView::Finished { .. } => AttachView::configure(
                        self.retries_left,
                        Setting::DisableImu,
                        session,
                    ),
                }
            },
            PhaseView::Configure { setting, exchange } => match exchange.after(event) {
                ProgressView::Continue { machine, action } => self.proceed(
                    PhaseView::Configure { setting, exchange: machine },
                    action,
                    session,
                ),
                ProgressView::Failed { error } => (ProgressView::Failed { error }, session),
                ProgressView::Finished { .. } => match setting.next() {
                    Some(next) => AttachView::configure(self.retries_left, next, session),
                    None => (ProgressView::Finished { value: () }, session),
                },
            },
        }
    }
}

impl View for Phase {
    type V = PhaseView;

    closed spec fn view(&self) -> PhaseView {
        match *self {
            Phase::ProbeWrite => PhaseView::ProbeWrite,
            Phase::ProbeRead => PhaseView::ProbeRead,
            Phase::Reset { exchange } => PhaseView::Reset { exchange: exchange@ },
            Phase::Settle => PhaseView::Settle,
            Phase::Reopen => PhaseView::Reopen,
            Phase::SimpleMode { exchange } => PhaseView::SimpleMode { exchange: exchange@ },
            Phase::Handshake { handshake } => PhaseView::Handshake { handshake },
            Phase::Calibrate { calibrate } => PhaseView::Calibrate { calibrate: calibrate@ },
            Phase::Configure { setting, exchange } => PhaseView::Configure {
                setting,
                exchange: exchange@,
            },
        }
    }
}

impl View for Attach {
    type V = AttachView;

    closed spec fn view(&self) -> AttachView {
        AttachView { retries_left: self.retries_left, phase: self.phase@ }
    }
}

impl Attach {
    /// The state that the attach is in.
    pub fn state(&self) -> (state: AttachState)
        ensures
            state == self@.state(),
    {
        match &self.phase {
            Phase::ProbeWrite => AttachState::Probing,
            Phase::ProbeRead => AttachState::Probing,
            Phase::Reset { .. } => AttachState::ColdBootRetry,
            Phase::Settle => AttachState::ColdBootRetry,
            Phase::Reopen => AttachState::ColdBootRetry,
            Phase::SimpleMode { .. } => AttachState::ColdBootRetry,
            Phase::Handshake { .. } => AttachState::Ready,
            Phase::Calibrate { .. } => AttachState::Negotiated,
            Phase::Configure { .. } => AttachState::Calibrated,
        }
    }

    /// How many more cold-boot retries may start; `None` for no limit.
    pub fn retries_left(&self) -> (retries: Option<u32>)
        ensures
            retries == self@.retries_left,
    {
        self.retries_left
    }

    /// Starts the exchange that applies `setting`.
    fn configure(retries_left: Option<u32>, setting: Setting, session: &mut ProController) -> (r:
        Progress<Attach, ()>)
        ensures
            (r@, final(session)@) == AttachView::configure(retries_left, setting, old(session)@),
    {
        let (exchange, action) = match setting {
            Setting::DisableImu => session.set_imu(false),
            Setting::DisableVibration => session.set_vibration(false),
            Setting::PlayerLights => session.set_player_lights(PLAYER_LIGHTS_PATTERN),
            Setting::ReportMode => session.set_report_mode(STREAMING_REPORT_MODE),
        };
        Progress::Continue {
            machine: Attach { retries_left, phase: Phase::Configure { setting, exchange } },
            action,
        }
    }

    /// Feeds the outcome of the last action to the attach.
    pub fn step(self, session: &mut ProController, event: Event) -> (r: Progress<Attach, ()>)
        ensures
            (r@, final(session)@) == self@.after(old(session)@, event@),
    {
        let Attach { retries_left, phase } = self;
        match phase {
            Phase::ProbeWrite => match event {
                Event::Failed { reason } => Progress::Failed {
                    error: ProtocolError::Transport { reason },
                },
                Event::Completed { data: _ } => Progress::Continue {
                    machine: Attach { retries_left, phase: Phase::ProbeRead },
                    action: Action::ReadTimeout { len: PROBE_REPLY_LEN, millis: READ_TIMEOUT_MS },
                },
            },
            Phase::ProbeRead => match event {
                Event::Failed { reason } => Progress::Failed {
                    error: ProtocolError::Transport { reason },
                },
                Event::Completed { data } => {
                    if data.len() > 0 && data[0] == PROBE_ACK {
                        let (handshake, action) = Handshake::start();
                        Progress::Continue {
                            machine: Attach { retries_left, phase: Phase::Handshake { handshake } },
                            action,
                        }
                    } else {
                        let retries_left: Option<u32> = match retries_left {
                            Some(n) => {
                                if n == 0 {
                                    return Progress::Failed { error: ProtocolError::AttachFailed };
                                }
                                Some(n - 1)
                            },
                            None => None,
                        };
                        let (exchange, action) = session.reset();
                        Progress::Continue {
                            machine: Attach { retries_left, phase: Phase::Reset { exchange } },
                            action,
                        }
                    }
                },
            },
            Phase::Reset { exchange } => match exchange.step(event) {
                Progress::Continue { machine, action } => Progress::Continue {
                    machine: Attach { retries_left, phase: Phase::Reset { exchange: machine } },
                    action,
                },
                Progress::Failed { error } => Progress::Failed { error },
                Progress::Finished { value: _ } => Progress::Continue {
                    machine: Attach { retries_left, phase: Phase::Settle },
                    action: Action::Sleep { millis: SETTLE_MS },
                },
            },
            Phase::Settle => Progress::Continue {
                machine: Attach { retries_left, phase: Phase::Reopen },
                action: Action::Reopen,
            },
            Phase::Reopen => match event {
                Event::Failed { reason } => Progress::Failed {
                    error: ProtocolError::Transport { reason },
                },
                Event::Completed { data: _ } => {
                    let (exchange, action) = session.set_report_mode(SIMPLE_REPORT_MODE);
                    Progress::Continue {
                        machine: Attach { retries_left, phase: Phase::SimpleMode { exchange } },
                        action,
                    }
                },
            },
            Phase::SimpleMode { exchange } => match exchange.step(event) {
                Progress::Continue { machine, action } => Progress::Continue {
                    machine: Attach { retries_left, phase: Phase::SimpleMode { exchange: machine } },
                    action,
                },
                Progress::Failed { error } => Progress::Failed { error },
                Progress::Finished { value: _ } => {
                    session.restart_sequence();
                    Progress::Continue {
                        machine: Attach { retries_left, phase: Phase::ProbeWrite },
                        action: Action::Write { bytes: build_probe_frame() },
                    }
                },
            },
            Phase::Handshake { handshake } => match handshake.step(event) {
                Progress::Continue { machine, action } => Progress::Continue {
                    machine: Attach { retries_left, phase: Phase::Handshake { handshake: machine } },
                    action,
                },
                Progress::Failed { error } => Progress::Failed { error },
                Progress::Finished { value: _ } => {
                    let (calibrate, action) = session.calibrate();
                    Progress::Continue {
                        machine: Attach { retries_left, phase: Phase::Calibrate { calibrate } },
                        action,
                    }
                },
            },
            Phase::Calibrate { calibrate } => match calibrate.step(session, event) {
                Progress::Continue { machine, action } => Progress::Continue {
                    machine: Attach { retries_left, phase: Phase::Calibrate { calibrate: machine } },
                    action,
                },
                Progress::Failed { error } => Progress::Failed { error },
                Progress::Finished { value: _ } => Attach::configure(
                    retries_left,
                    Setting::DisableImu,
                    session,
                ),
            },
            Phase::Configure { setting, exchange } => match exchange.step(event) {
                Progress::Continue { machine, action } => Progress::Continue {
                    machine: Attach {
                        retries_left,
                        phase: Phase::Configure { setting, exchange: machine },
                    },
                    action,
                },
                Progress::Failed { error } => Progress::Failed { error },
                Progress::Finished { value: _ } => {
                    let next = match setting {
                        Setting::DisableImu => Setting::DisableVibration,
                        Setting::DisableVibration => Setting::PlayerLights,
                        Setting::PlayerLights => Setting::ReportMode,
                        Setting::ReportMode => {
                            return Progress::Finished { value: () };
                        },
                    };
                    Attach::configure(retries_left, next, session)
                },
            },
        }
    }
}

impl ProController {
    /// Starts an attach: the sequence counter restarts and the probe is
    /// handed out.
    pub fn attach(&mut self) -> (started: (Attach, Action))
        ensures
            started@ == (
                AttachView::initial(old(self)@.cold_boot_limit),
                ActionView::Write { bytes: probe_frame() },
            ),
            final(self)@ == old(self)@.restarted(),
    {
        self.restart_sequence();
        let retries_left = self.cold_boot_limit();
        (
            Attach { retries_left, phase: Phase::ProbeWrite },
            Action::Write { bytes: build_probe_frame() },
        )
    }
}

/// A probe that is not acknowledged sends the attach into the cold-boot
/// retry, and the first thing the retry does is to send the reset.
pub proof fn law_unacknowledged_probe_resets(
    attach: AttachView,
    session: ControllerView,
    data: Seq<u8>,
)
    requires
        attach.phase == PhaseView::ProbeRead,
        !probe_acknowledged(data),
        attach.retries_left != Some(0u32),
    ensures
        ({
            let (progress, after) = attach.after(session, EventView::Completed { data });
            &&& progress matches ProgressView::Continue { machine, action }
            &&& machine.state() == AttachState::ColdBootRetry
            &&& action == session.exchange(
                SUBCOMMAND_RESET,
                seq![RESET_ARGUMENT],
                VOID_REPLY_LEN,
            ).1
            &&& after == session.after_send()
        }),
{
}

/// A probe that is acknowledged makes the device ready, and the negotiation
/// starts.
pub proof fn law_acknowledged_probe_negotiates(
    attach: AttachView,
    session: ControllerView,
    data: Seq<u8>,
)
    requires
        attach.phase == PhaseView::ProbeRead,
        probe_acknowledged(data),
    ensures
        ({
            let (progress, after) = attach.after(session, EventView::Completed { data });
            &&& progress matches ProgressView::Continue { machine, action }
            &&& machine.state() == AttachState::Ready
            &&& action == Handshake::first_action()
            &&& after == session
        }),
{
}

/// When no retry is left, a probe that is not acknowledged ends the attach
/// in failure, and nothing more is sent.
pub proof fn law_spent_retries_end_attach(
    attach: AttachView,
    session: ControllerView,
    data: Seq<u8>,
)
    requires
        attach.phase == PhaseView::ProbeRead,
        !probe_acknowledged(data),
        attach.retries_left == Some(0u32),
    ensures
        attach.after(session, EventView::Completed { data }) == (
            ProgressView::<AttachView, ()>::Failed { error: ProtocolErrorView::AttachFailed },
            session,
        ),
{
}

/// The number of retries left never grows, and only the start of a cold-boot
/// retry spends one.
pub proof fn law_retries_only_shrink(attach: AttachView, session: ControllerView, event: EventView)
    ensures
        attach.after(session, event).0 matches ProgressView::Continue { machine, .. } ==> {
            match attach.retries_left {
                None => machine.retries_left is None,
                Some(n) => machine.retries_left == Some(n) || (attach.phase
                    == PhaseView::ProbeRead && n > 0 && machine.retries_left == Some(
                    (n - 1) as u32,
                )),
            }
        },
{
}

/// An attach passes through its states in order: it never goes back, and it
/// never skips a state.
pub proof fn law_states_in_order(attach: AttachView, session: ControllerView, event: EventView)
    ensures
        attach.after(session, event).0 matches ProgressView::Continue { machine, .. } ==> {
            attach.state().rank() <= machine.state().rank() <= attach.state().rank() + 1
        },
        attach.after(session, event).0 is Finished ==> attach.state() == AttachState::Calibrated,
{
}

/// An attach that fails for the transport's sake fails with the transport's
/// own account, on the event that reports the failure. The only other
/// failure is that of spent retries.
pub proof fn law_attach_failure_names_its_cause(
    attach: AttachView,
    session: ControllerView,
    event: EventView,
)
    ensures
        attach.after(session, event).0 matches ProgressView::Failed { error } ==> {
            ||| error == ProtocolErrorView::AttachFailed
            ||| event matches EventView::Failed { reason } && error == (
                ProtocolErrorView::Transport { reason })
        },
{
}

/// An attach keeps the session valid.
pub proof fn law_attach_keeps_session_valid(
    attach: AttachView,
    session: ControllerView,
    event: EventView,
)
    requires
        session.wf(),
    ensures
        attach.after(session, event).1.wf(),
{
}

/// Only the calibration touches what is stored for the sticks.
pub proof fn law_only_calibration_stores(
    attach: AttachView,
    session: ControllerView,
    event: EventView,
)
    requires
        attach.state() != AttachState::Negotiated,
    ensures
        ({
            let after = attach.after(session, event).1;
            &&& after.left == session.left
            &&& after.right == session.right
            &&& after.left_deadzone == session.left_deadzone
            &&& after.right_deadzone == session.right_deadzone
        }),
{
}

/// A failed write ends the attach, whatever was being written, with the
/// transport's account of the failure, and leaves the session as it was.
pub proof fn law_failed_write_ends_attach(
    attach: AttachView,
    session: ControllerView,
    reason: Seq<char>,
)
    requires
        attach.awaits_write(),
    ensures
        attach.after(session, EventView::Failed { reason }) == (
            ProgressView::<AttachView, ()>::Failed {
                error: ProtocolErrorView::Transport { reason },
            },
            session,
        ),
{
}

/// The sequence counter counts subcommand frames. A step that hands out a
/// subcommand frame stamps it with the current number and advances the
/// counter; a step that hands out the probe again restarts the counter; no
/// other step touches it.
pub proof fn law_sequence_counts_frames(
    attach: AttachView,
    session: ControllerView,
    event: EventView,
)
    ensures
        ({
            let (progress, after) = attach.after(session, event);
            match progress {
                ProgressView::Continue { action: ActionView::Write { bytes }, .. } => {
                    if bytes[0] == SUBCOMMAND_REPORT_ID {
                        &&& bytes[1] == session.sequence
                        &&& after.sequence == next_sequence(session.sequence)
                    } else if bytes == probe_frame() {
                        after.sequence == 0
                    } else {
                        after.sequence == session.sequence
                    }
                },
                _ => after.sequence == session.sequence,
            }
        }),
{
}

} // verus!
