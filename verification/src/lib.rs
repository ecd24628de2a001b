//! Protocol engine for a handheld game controller that speaks a framed
//! request/reply protocol over a HID transport.
//!
//! The engine performs no I/O. Every operation that needs the transport is a
//! small state machine: it hands out an [`io::Action`] to perform and is fed
//! the [`io::Event`] that the action produced, until it reports that it has
//! finished or failed. The state that outlives an operation, the sequence
//! counter and the calibration, is kept in a [`controller::ProController`].
//!
//! - [`packing`]: two 12-bit values in three bytes.
//! - [`frame`]: the frames that are sent and the fields read in replies.
//! - [`exchange`]: one subcommand and its reply, with bounded polling.
//! - [`handshake`]: the startup negotiation.
//! - [`flash`]: reading the device's flash.
//! - [`calibration`], [`calibrate`]: decoding and acquiring stick calibration.
//! - [`attach`]: probing, cold-boot retry, negotiation, calibration, setup.
//! - [`sticks`], [`input`]: turning a telemetry report into a gamepad state.

pub mod attach;
pub mod calibrate;
pub mod calibration;
pub mod controller;
pub mod exchange;
pub mod flash;
pub mod frame;
pub mod handshake;
pub mod input;
pub mod io;
pub mod packing;
pub mod sticks;
