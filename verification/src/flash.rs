//! Reading the device's flash.
//!
//! A flash read is one exchange: the request names an address and a number
//! of bytes, the reply carries the bytes at a fixed offset.

use crate::controller::{ControllerView, ProController, SUBCOMMAND_FLASH_READ};
use crate::exchange::{Exchange, ExchangeView};
use crate::frame::{
    build_flash_read_payload, extract_flash_data, flash_data, flash_read_payload, MAX_FLASH_READ,
    REPORT_LEN,
};
use crate::io::{
    Action, ActionView, Event, EventView, Progress, ProgressView, ProtocolError, ProtocolErrorView,
};
use vstd::prelude::*;

verus! {

/// A flash read in progress.
#[derive(Debug, PartialEq, Eq)]
pub struct FlashRead {
    size: u8,
    exchange: Exchange,
}

/// Mathematical value of a [`FlashRead`].
pub struct FlashReadView {
    /// The number of bytes asked for.
    pub size: u8,
    /// The exchange that carries the request.
    pub exchange: ExchangeView,
}

impl FlashReadView {
    /// The flash read after `event`: it follows its exchange, and when the
    /// exchange ends with a reply it ends with the data in that reply.
    pub open spec fn after(self, event: EventView) -> ProgressView<FlashReadView, Seq<u8>> {
        match self.exchange.after(event) {
            ProgressView::Continue { machine, action } => ProgressView::Continue {
                machine: FlashReadView { size: self.size, exchange: machine },
                action,
            },
            ProgressView::Finished { value } => ProgressView::Finished {
                value: flash_data(value, self.size),
            },
            ProgressView::Failed { error } => ProgressView::Failed { error },
        }
    }
}

impl ControllerView {
    /// The read of `size` bytes of flash at `address` that this session
    /// starts, and the write that opens it.
    pub open spec fn flash_read(self, address: i32, size: u8) -> (FlashReadView, ActionView) {
        let (exchange, action) = self.exchange(
            SUBCOMMAND_FLASH_READ,
            flash_read_payload(address, size),
            REPORT_LEN,
        );
        (FlashReadView { size, exchange }, action)
    }
}

impl View for FlashRead {
    type V = FlashReadView;

    closed spec fn view(&self) -> FlashReadView {
        FlashReadView { size: self.size, exchange: self.exchange@ }
    }
}

impl FlashRead {
    /// The number of bytes asked for.
    pub fn size(&self) -> (size: u8)
        ensures
            size == self@.size,
    {
        self.size
    }

    /// Feeds the outcome of the last action to the flash read.
    pub fn step(self, event: Event) -> (r: Progress<FlashRead, Vec<u8>>)
        ensures
            r@ == self@.after(event@),
    {
        let FlashRead { size, exchange } = self;
        match exchange.step(event) {
            Progress::Continue { machine, action } => Progress::Continue {
                machine: FlashRead { size, exchange: machine },
                action,
            },
            Progress::Finished { value } => Progress::Finished {
                value: extract_flash_data(value.as_slice(), size),
            },
            Progress::Failed { error } => Progress::Failed { error },
        }
    }
}

impl ProController {
    /// Starts a read of `size` bytes of flash at `address`.
    pub(crate) fn begin_flash_read(&mut self, address: i32, size: u8) -> (started: (
        FlashRead,
        Action,
    ))
        ensures
            started@ == old(self)@.flash_read(address, size),
            final(self)@ == old(self)@.after_send(),
    {
        let payload = build_flash_read_payload(address, size);
        let (exchange, action) = self.subcommand(SUBCOMMAND_FLASH_READ, payload.as_slice(), REPORT_LEN);
        (FlashRead { size, exchange }, action)
    }

    /// Starts a read of `size` bytes of flash at `from`.
    ///
    /// A read of more than [`MAX_FLASH_READ`] bytes is refused: nothing is
    /// sent and the session is left as it was.
    pub fn read_spi(&mut self, from: i32, size: u8) -> (r: Result<(FlashRead, Action), ProtocolError>)
        ensures
            match r {
                Ok(started) => {
                    &&& size <= MAX_FLASH_READ
                    &&& started@ == old(self)@.flash_read(from, size)
                    &&& final(self)@ == old(self)@.after_send()
                },
                Err(error) => {
                    &&& size > MAX_FLASH_READ
                    &&& error@ == (ProtocolErrorView::ReadTooLarge { size })
                    &&& final(self)@ == old(self)@
                },
            },
    {
        if size > MAX_FLASH_READ {
            return Err(ProtocolError::ReadTooLarge { size });
        }
        Ok(self.begin_flash_read(from, size))
    }
}

} // verus!
