//! The startup negotiation.
//!
//! Four handshake frames are written in a fixed order. After each write the
//! transport is drained by one timed read into an empty buffer; what that
//! read brings, and whether it fails, is ignored. A failed write ends the
//! negotiation.

use crate::exchange::{Pending, READ_TIMEOUT_MS};
use crate::frame::{build_handshake_frame, handshake_frame};
use crate::io::{
    Action, ActionView, Event, EventView, Progress, ProgressView, ProtocolError, ProtocolErrorView,
};
use vstd::prelude::*;

verus! {

/// Code of the frame that requests, and of the one that confirms, the handshake.
pub const CODE_HANDSHAKE: u8 = 0x02;

/// Code of the frame that switches to the high baud rate.
pub const CODE_HIGH_BAUD: u8 = 0x03;

/// Code of the frame that locks the device to HID-only operation.
pub const CODE_HID_ONLY: u8 = 0x04;

/// The four steps of the negotiation, in order.
#[derive(Clone, Copy, Debug, PartialEq, Eq, Structural)]
pub enum HandshakeStep {
    Request,
    HighBaud,
    Confirm,
    HidOnly,
}

impl HandshakeStep {
    /// The code that the frame of this step carries.
    pub open spec fn code(self) -> u8 {
        match self {
            HandshakeStep::Request => CODE_HANDSHAKE,
            HandshakeStep::HighBaud => CODE_HIGH_BAUD,
            HandshakeStep::Confirm => CODE_HANDSHAKE,
            HandshakeStep::HidOnly => CODE_HID_ONLY,
        }
    }

    /// The step that follows this one, if any.
    pub open spec fn next(self) -> Option<HandshakeStep> {
        match self {
            HandshakeStep::Request => Some(HandshakeStep::HighBaud),
            HandshakeStep::HighBaud => Some(HandshakeStep::Confirm),
            HandshakeStep::Confirm => Some(HandshakeStep::HidOnly),
            HandshakeStep::HidOnly => None,
        }
    }

    /// The code that the frame of this step carries.
    pub fn wire_code(self) -> (code: u8)
        ensures
            code == self.code(),
    {
        match self {
            HandshakeStep::Request => CODE_HANDSHAKE,
            HandshakeStep::HighBaud => CODE_HIGH_BAUD,
            HandshakeStep::Confirm => CODE_HANDSHAKE,
            HandshakeStep::HidOnly => CODE_HID_ONLY,
        }
    }

    /// The step that follows this one, if any.
    pub fn successor(self) -> (next: Option<HandshakeStep>)
        ensures
            next == self.next(),
    {
        match self {
            HandshakeStep::Request => Some(HandshakeStep::HighBaud),
            HandshakeStep::HighBaud => Some(HandshakeStep::Confirm),
            HandshakeStep::Confirm => Some(HandshakeStep::HidOnly),
            HandshakeStep::HidOnly => None,
        }
    }
}

/// A negotiation in progress: the step whose frame was handed out last, and
/// whether its write or its drain is pending.
#[derive(Clone, Copy, Debug, PartialEq, Eq, Structural)]
pub struct Handshake {
    pub step: HandshakeStep,
    pub pending: Pending,
}

impl View for Handshake {
    type V = Handshake;

    open spec fn view(&self) -> Handshake {
        *self
    }
}

impl Handshake {
    /// A negotiation whose first frame is about to be written.
    pub open spec fn initial() -> Handshake {
        Handshake { step: HandshakeStep::Request, pending: Pending::Write }
    }

    /// The write that opens the negotiation.
    pub open spec fn first_action() -> ActionView {
        ActionView::Write { bytes: handshake_frame(HandshakeStep::Request.code()) }
    }

    /// The read that drains the transport after a write.
    pub open spec fn drain_action() -> ActionView {
        ActionView::ReadTimeout { len: 0, millis: READ_TIMEOUT_MS }
    }

    /// The negotiation after `event`.
    ///
    /// While a write is pending, a failure ends the negotiation with that
    /// failure and anything else leads to the drain. While a drain is pending,
    /// every event leads to the next step's write, or ends the negotiation
    /// when the last step was drained.
    pub open spec fn after(self, event: EventView) -> ProgressView<Handshake, ()> {
        match self.pending {
            Pending::Write => match event {
                EventView::Failed { reason } => ProgressView::Failed {
                    error: ProtocolErrorView::Transport { reason },
                },
                EventView::Completed { .. } => ProgressView::Continue {
                    machine: Handshake { step: self.step, pending: Pending::Read },
                    action: Handshake::drain_action(),
                },
            },
            Pending::Read => match self.step.next() {
                Some(next) => ProgressView::Continue {
                    machine: Handshake { step: next, pending: Pending::Write },
                    action: ActionView::Write { bytes: handshake_frame(next.code()) },
                },
                None => ProgressView::Finished { value: () },
            },
        }
    }

    /// Starts a negotiation.
    pub fn start() -> (started: (Handshake, Action))
        ensures
            started@ == (Handshake::initial(), Handshake::first_action()),
    {
        (
            Handshake { step: HandshakeStep::Request, pending: Pending::Write },
            Action::Write { bytes: build_handshake_frame(CODE_HANDSHAKE) },
        )
    }

    /// Feeds the outcome of the last action to the negotiation.
    pub fn step(self, event: Event) -> (r: Progress<Handshake, ()>)
        ensures
            r@ == self.after(event@),
    {
        match self.pending {
            Pending::Write => match event {
                Event::Failed { reason } => Progress::Failed {
                    error: ProtocolError::Transport { reason },
                },
                Event::Completed { data: _ } => Progress::Continue {
                    machine: Handshake { step: self.step, pending: Pending::Read },
                    action: Action::ReadTimeout { len: 0, millis: READ_TIMEOUT_MS },
                },
            },
            Pending::Read => match self.step.successor() {
                Some(next) => Progress::Continue {
                    machine: Handshake { step: next, pending: Pending::Write },
                    action: Action::Write { bytes: build_handshake_frame(next.wire_code()) },
                },
                None => Progress::Finished { value: () },
            },
        }
    }
}

/// What a drain brings, and whether it fails, makes no difference to the
/// negotiation.
pub proof fn law_drain_outcome_is_ignored(handshake: Handshake, one: EventView, other: EventView)
    requires
        handshake.pending == Pending::Read,
    ensures
        handshake.after(one) == handshake.after(other),
{
}

/// A failed write ends the negotiation with the transport's account of the
/// failure, at whichever step it happens.
pub proof fn law_failed_write_ends_negotiation(handshake: Handshake, reason: Seq<char>)
    requires
        handshake.pending == Pending::Write,
    ensures
        handshake.after(EventView::Failed { reason }) == (ProgressView::<Handshake, ()>::Failed {
            error: ProtocolErrorView::Transport { reason },
        }),
{
}

/// The negotiation fails on nothing but a failed write.
pub proof fn law_negotiation_fails_only_on_write(handshake: Handshake, event: EventView)
    ensures
        handshake.after(event) is Failed ==> handshake.pending == Pending::Write
            && event is Failed,
{
}

} // verus!
