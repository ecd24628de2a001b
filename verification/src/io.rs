//! The boundary between the engine and the transport.
//!
//! The engine never touches the transport. It asks for one [`Action`] at a
//! time and is told how that action went by an [`Event`].

use vstd::prelude::*;

verus! {

/// Something the driver must do on the engine's behalf.
#[derive(Debug, PartialEq, Eq)]
pub enum Action {
    /// Write these bytes to the transport.
    Write { bytes: Vec<u8> },
    /// Read into a buffer of `len` bytes, waiting at most `millis` milliseconds.
    ReadTimeout { len: usize, millis: u32 },
    /// Wait for `millis` milliseconds.
    Sleep { millis: u32 },
    /// Discard the transport handle and open the device anew.
    Reopen,
}

/// Mathematical value of an [`Action`].
pub enum ActionView {
    Write { bytes: Seq<u8> },
    ReadTimeout { len: usize, millis: u32 },
    Sleep { millis: u32 },
    Reopen,
}

impl View for Action {
    type V = ActionView;

    open spec fn view(&self) -> ActionView {
        match *self {
            Action::Write { bytes } => ActionView::Write { bytes: bytes@ },
            Action::ReadTimeout { len, millis } => ActionView::ReadTimeout { len, millis },
            Action::Sleep { millis } => ActionView::Sleep { millis },
            Action::Reopen => ActionView::Reopen,
        }
    }
}

/// How the last [`Action`] went.
///
/// For a read, `data` holds the bytes that arrived (none on a timeout). For
/// every other action `data` is ignored.
#[derive(Debug, PartialEq, Eq)]
pub enum Event {
    Completed { data: Vec<u8> },
    Failed { reason: String },
}

/// Mathematical value of an [`Event`].
pub enum EventView {
    Completed { data: Seq<u8> },
    Failed { reason: Seq<char> },
}

impl View for Event {
    type V = EventView;

    open spec fn view(&self) -> EventView {
        match *self {
            Event::Completed { data } => EventView::Completed { data: data@ },
            Event::Failed { reason } => EventView::Failed { reason: reason@ },
        }
    }
}

/// Why a protocol operation was abandoned.
#[derive(Debug, PartialEq, Eq)]
pub enum ProtocolError {
    /// The transport failed to write or to read; `reason` is its own description.
    Transport { reason: String },
    /// A flash read asked for more bytes than one reply can be asked to carry.
    ReadTooLarge { size: u8 },
    /// The device stayed unresponsive through every permitted cold-boot retry.
    AttachFailed,
}

/// Mathematical value of a [`ProtocolError`].
pub enum ProtocolErrorView {
    Transport { reason: Seq<char> },
    ReadTooLarge { size: u8 },
    AttachFailed,
}

impl View for ProtocolError {
    type V = ProtocolErrorView;

    open spec fn view(&self) -> ProtocolErrorView {
        match *self {
            ProtocolError::Transport { reason } => ProtocolErrorView::Transport { reason: reason@ },
            ProtocolError::ReadTooLarge { size } => ProtocolErrorView::ReadTooLarge { size },
            ProtocolError::AttachFailed => ProtocolErrorView::AttachFailed,
        }
    }
}

/// Where an operation stands after it was fed an event.
#[derive(Debug, PartialEq, Eq)]
pub enum Progress<M, T> {
    /// Perform `action`, then feed its outcome to `machine`.
    Continue { machine: M, action: Action },
    /// The operation succeeded with `value`.
    Finished { value: T },
    /// The operation was abandoned.
    Failed { error: ProtocolError },
}

/// Mathematical value of a [`Progress`].
pub enum ProgressView<M, T> {
    Continue { machine: M, action: ActionView },
    Finished { value: T },
    Failed { error: ProtocolErrorView },
}

impl<M: View, T: View> View for Progress<M, T> {
    type V = ProgressView<M::V, T::V>;

    open spec fn view(&self) -> ProgressView<M::V, T::V> {
        match *self {
            Progress::Continue { machine, action } => ProgressView::Continue {
                machine: machine@,
                action: action@,
            },
            Progress::Finished { value } => ProgressView::Finished { value: value@ },
            Progress::Failed { error } => ProgressView::Failed { error: error@ },
        }
    }
}

} // verus!
