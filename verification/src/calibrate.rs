//! Acquiring the calibration of both sticks.
//!
//! For each stick the engine reads the user calibration block. A blank block
//! means the user never calibrated, and the engine reads the factory block in
//! its place. The calibration is stored as soon as its block is chosen. The
//! dead zone radius is read last, from a block of its own.

use crate::calibration::{
    calibration_present, decode_calibration, decode_deadzone, decoded_calibration,
    decoded_deadzone, is_blank, is_present, Side, CALIBRATION_BLOCK_LEN, DEADZONE_BLOCK_LEN,
};
use crate::controller::{ControllerView, ProController};
use crate::flash::{FlashRead, FlashReadView};
use crate::frame::REPORT_LEN;
use crate::io::{Action, ActionView, Event, EventView, Progress, ProgressView};
use crate::packing::MAX_12BIT;
use vstd::prelude::*;

verus! {

/// Flash address of the left stick's user calibration.
pub const LEFT_USER_CALIBRATION: i32 = 0x8012;

/// Flash address of the left stick's factory calibration.
pub const LEFT_FACTORY_CALIBRATION: i32 = 0x603d;

/// Flash address of the block that holds the left stick's dead zone.
pub const LEFT_DEADZONE: i32 = 0x6086;

/// Flash address of the right stick's user calibration.
pub const RIGHT_USER_CALIBRATION: i32 = 0x801d;

/// Flash address of the right stick's factory calibration.
pub const RIGHT_FACTORY_CALIBRATION: i32 = 0x6046;

/// Flash address of the block that holds the right stick's dead zone.
pub const RIGHT_DEADZONE: i32 = 0x6098;

/// Which block of a stick is being read.
#[derive(Clone, Copy, Debug, PartialEq, Eq, Structural)]
pub enum Block {
    User,
    Factory,
    Deadzone,
}

impl Block {
    /// The number of bytes read for this block.
    pub open spec fn len(self) -> u8 {
        match self {
            Block::User => CALIBRATION_BLOCK_LEN as u8,
            Block::Factory => CALIBRATION_BLOCK_LEN as u8,
            Block::Deadzone => DEADZONE_BLOCK_LEN as u8,
        }
    }
}

/// The acquisition of one stick's calibration, in progress.
#[derive(Debug, PartialEq, Eq)]
pub struct StickCalibrationRead {
    side: Side,
    factory_address: i32,
    deadzone_address: i32,
    block: Block,
    read: FlashRead,
}

/// Mathematical value of a [`StickCalibrationRead`].
pub struct StickCalibrationReadView {
    /// The stick being calibrated.
    pub side: Side,
    /// Where the factory calibration lies.
    pub factory_address: i32,
    /// Where the dead zone block lies.
    pub deadzone_address: i32,
    /// The block being read.
    pub block: Block,
    /// The flash read of that block.
    pub read: FlashReadView,
}

impl StickCalibrationReadView {
    /// Moves on to read `block` at `address`.
    pub open spec fn fetch(self, session: ControllerView, block: Block, address: i32) -> (
        ProgressView<StickCalibrationReadView, u16>,
        ControllerView,
    ) {
        let (read, action) = session.flash_read(address, block.len());
        (
            ProgressView::Continue {
                machine: StickCalibrationReadView { block, read, ..self },
                action,
            },
            session.after_send(),
        )
    }

    /// Stores the calibration that `data` encodes and moves on to the dead zone.
    pub open spec fn adopt(self, session: ControllerView, data: Seq<u8>) -> (
        ProgressView<StickCalibrationReadView, u16>,
        ControllerView,
    ) {
        self.fetch(
            session.with_calibration(self.side, decoded_calibration(data, self.side)),
            Block::Deadzone,
            self.deadzone_address,
        )
    }

    /// The acquisition and the session after `event`.
    ///
    /// The acquisition follows its flash read. When the user block arrives
    /// and is present, it is adopted; when it is blank, the factory block is
    /// read and adopted in its place. When the dead zone block arrives, the
    /// acquisition ends with the radius it encodes.
    pub open spec fn after(self, session: ControllerView, event: EventView) -> (
        ProgressView<StickCalibrationReadView, u16>,
        ControllerView,
    ) {
        match self.read.after(event) {
            ProgressView::Continue { machine, action } => (
                ProgressView::Continue {
                    machine: StickCalibrationReadView { read: machine, ..self },
                    action,
                },
                session,
            ),
            ProgressView::Failed { error } => (ProgressView::Failed { error }, session),
            ProgressView::Finished { value: data } => match self.block {
                Block::User => if is_present(data) {
                    self.adopt(session, data)
                } else {
                    self.fetch(session, Block::Factory, self.factory_address)
                },
                Block::Factory => self.adopt(session, data),
                Block::Deadzone => (
                    ProgressView::Finished { value: decoded_deadzone(data) },
                    session,
                ),
            },
        }
    }
}

impl ControllerView {
    /// The acquisition of the calibration of the stick on `side` that this
    /// session starts, and the write that opens it.
    pub open spec fn stick_calibration_read(
        self,
        user_address: i32,
        factory_address: i32,
        deadzone_address: i32,
        side: Side,
    ) -> (StickCalibrationReadView, ActionView) {
        let (read, action) = self.flash_read(user_address, Block::User.len());
        (
            StickCalibrationReadView {
                side,
                factory_address,
                deadzone_address,
                block: Block::User,
                read,
            },
            action,
        )
    }
}

impl View for StickCalibrationRead {
    type V = StickCalibrationReadView;

    closed spec fn view(&self) -> StickCalibrationReadView {
        StickCalibrationReadView {
            side: self.side,
            factory_address: self.factory_address,
            deadzone_address: self.deadzone_address,
            block: self.block,
            read: self.read@,
        }
    }
}

impl StickCalibrationRead {
    #[verifier::type_invariant]
    spec fn inv(self) -> bool {
        &&& self.read@.exchange.recv.len() == REPORT_LEN
        &&& self.read@.size == self.block.len()
    }

    /// The stick being calibrated.
    pub fn side(&self) -> (side: Side)
        ensures
            side == self@.side,
    {
        self.side
    }

    /// The block being read.
    pub fn block(&self) -> (block: Block)
        ensures
            block == self@.block,
    {
        self.block
    }

    /// Feeds the outcome of the last action to the acquisition.
    pub fn step(self, session: &mut ProController, event: Event) -> (r: Progress<
        StickCalibrationRead,
        u16,
    >)
        ensures
            (r@, final(session)@) == self@.after(old(session)@, event@),
            r matches Progress::Finished { value } ==> value <= MAX_12BIT,
    {
        proof {
            use_type_invariant(&self);
        }
        let StickCalibrationRead { side, factory_address, deadzone_address, block, read } = self;
        match read.step(event) {
            Progress::Continue { machine, action } => Progress::Continue {
                machine: StickCalibrationRead {
                    side,
                    factory_address,
                    deadzone_address,
                    block,
                    read: machine,
                },
                action,
            },
            Progress::Failed { error } => Progress::Failed { error },
            Progress::Finished { value: data } => {
                let adopt = match block {
                    Block::User => calibration_present(data.as_slice()),
                    Block::Factory => true,
                    Block::Deadzone => {
                        return Progress::Finished { value: decode_deadzone(data.as_slice()) };
                    },
                };
                let (next, address) = if adopt {
                    session.store_calibration(side, decode_calibration(data.as_slice(), side));
                    (Block::Deadzone, deadzone_address)
                } else {
                    (Block::Factory, factory_address)
                };
                let size: u8 = match next {
                    Block::User => CALIBRATION_BLOCK_LEN as u8,
                    Block::Factory => CALIBRATION_BLOCK_LEN as u8,
                    Block::Deadzone => DEADZONE_BLOCK_LEN as u8,
                };
                let (read, action) = session.begin_flash_read(address, size);
                Progress::Continue {
                    machine: StickCalibrationRead {
                        side,
                        factory_address,
                        deadzone_address,
                        block: next,
                        read,
                    },
                    action,
                }
            },
        }
    }
}

impl ProController {
    /// Starts the acquisition of the calibration of the stick on `side`,
    /// whose user block, factory block and dead zone block lie at the given
    /// flash addresses.
    pub fn read_stick_calibration(
        &mut self,
        user_address: i32,
        factory_address: i32,
        deadzone_address: i32,
        side: Side,
    ) -> (started: (StickCalibrationRead, Action))
        ensures
            started@ == old(self)@.stick_calibration_read(
                user_address,
                factory_address,
                deadzone_address,
                side,
            ),
            final(self)@ == old(self)@.after_send(),
    {
        let (read, action) = self.begin_flash_read(user_address, CALIBRATION_BLOCK_LEN as u8);
        (
            StickCalibrationRead { side, factory_address, deadzone_address, block: Block::User, read },
            action,
        )
    }
}

/// The acquisition of both sticks' calibration, in progress: the left stick
/// first, then the right.
#[derive(Debug, PartialEq, Eq)]
pub struct Calibrate {
    read: StickCalibrationRead,
}

/// Mathematical value of a [`Calibrate`].
pub struct CalibrateView {
    /// The acquisition of the stick whose turn it is.
    pub read: StickCalibrationReadView,
}

impl CalibrateView {
    /// The calibration and the session after `event`.
    ///
    /// The calibration follows the acquisition of the stick whose turn it
    /// is. When that ends, its dead zone radius is stored; after the left
    /// stick the right stick's acquisition starts, after the right stick the
    /// calibration ends.
    pub open spec fn after(self, session: ControllerView, event: EventView) -> (
        ProgressView<CalibrateView, ()>,
        ControllerView,
    ) {
        let (progress, session) = self.read.after(session, event);
        match progress {
            ProgressView::Continue { machine, action } => (
                ProgressView::Continue { machine: CalibrateView { read: machine }, action },
                session,
            ),
            ProgressView::Failed { error } => (ProgressView::Failed { error }, session),
            ProgressView::Finished { value: radius } => {
                let stored = session.with_deadzone(self.read.side, radius);
                match self.read.side {
                    Side::Left => {
                        let (read, action) = stored.stick_calibration_read(
                            RIGHT_USER_CALIBRATION,
                            RIGHT_FACTORY_CALIBRATION,
                            RIGHT_DEADZONE,
                            Side::Right,
                        );
                        (
                            ProgressView::Continue { machine: CalibrateView { read }, action },
                            stored.after_send(),
                        )
                    },
                    Side::Right => (ProgressView::Finished { value: () }, stored),
                }
            },
        }
    }
}

impl ControllerView {
    /// The calibration that this session starts, and the write that opens it.
    pub open spec fn calibrate(self) -> (CalibrateView, ActionView) {
        let (read, action) = self.stick_calibration_read(
            LEFT_USER_CALIBRATION,
            LEFT_FACTORY_CALIBRATION,
            LEFT_DEADZONE,
            Side::Left,
        );
        (CalibrateView { read }, action)
    }
}

impl View for Calibrate {
    type V = CalibrateView;

    closed spec fn view(&self) -> CalibrateView {
        CalibrateView { read: self.read@ }
    }
}

impl Calibrate {
    /// The stick whose turn it is.
    pub fn side(&self) -> (side: Side)
        ensures
            side == self@.read.side,
    {
        self.read.side()
    }

    /// Feeds the outcome of the last action to the calibration.
    pub fn step(self, session: &mut ProController, event: Event) -> (r: Progress<Calibrate, ()>)
        ensures
            (r@, final(session)@) == self@.after(old(session)@, event@),
    {
        let side = self.read.side();
        match self.read.step(session, event) {
            Progress::Continue { machine, action } => Progress::Continue {
                machine: Calibrate { read: machine },
                action,
            },
            Progress::Failed { error } => Progress::Failed { error },
            Progress::Finished { value: radius } => {
                session.store_deadzone(side, radius);
                match side {
                    Side::Left => {
                        let (read, action) = session.read_stick_calibration(
                            RIGHT_USER_CALIBRATION,
                            RIGHT_FACTORY_CALIBRATION,
                            RIGHT_DEADZONE,
                            Side::Right,
                        );
                        Progress::Continue { machine: Calibrate { read }, action }
                    },
                    Side::Right => Progress::Finished { value: () },
                }
            },
        }
    }
}

impl ProController {
    /// Starts the calibration of both sticks.
    pub fn calibrate(&mut self) -> (started: (Calibrate, Action))
        ensures
            started@ == old(self)@.calibrate(),
            final(self)@ == old(self)@.after_send(),
    {
        let (read, action) = self.read_stick_calibration(
            LEFT_USER_CALIBRATION,
            LEFT_FACTORY_CALIBRATION,
            LEFT_DEADZONE,
            Side::Left,
        );
        (Calibrate { read }, action)
    }
}

/// A user block that is present is adopted: its calibration is stored for
/// the stick, and the dead zone block is read next.
pub proof fn law_present_user_block_is_used(
    acquisition: StickCalibrationReadView,
    session: ControllerView,
    event: EventView,
    data: Seq<u8>,
)
    requires
        acquisition.block == Block::User,
        acquisition.read.after(event) == (ProgressView::<FlashReadView, Seq<u8>>::Finished {
            value: data,
        }),
        is_present(data),
    ensures
        ({
            let stored = session.with_calibration(
                acquisition.side,
                decoded_calibration(data, acquisition.side),
            );
            let (read, action) = stored.flash_read(
                acquisition.deadzone_address,
                DEADZONE_BLOCK_LEN as u8,
            );
            acquisition.after(session, event) == (
                ProgressView::<StickCalibrationReadView, u16>::Continue {
                    machine: StickCalibrationReadView { block: Block::Deadzone, read, ..acquisition },
                    action,
                },
                stored.after_send(),
            )
        }),
{
}

/// A user block that is blank is passed over: nothing is stored, and the
/// factory block is read next.
pub proof fn law_blank_user_block_falls_back(
    acquisition: StickCalibrationReadView,
    session: ControllerView,
    event: EventView,
    data: Seq<u8>,
)
    requires
        acquisition.block == Block::User,
        acquisition.read.after(event) == (ProgressView::<FlashReadView, Seq<u8>>::Finished {
            value: data,
        }),
        is_blank(data),
    ensures
        ({
            let (read, action) = session.flash_read(
                acquisition.factory_address,
                CALIBRATION_BLOCK_LEN as u8,
            );
            acquisition.after(session, event) == (
                ProgressView::<StickCalibrationReadView, u16>::Continue {
                    machine: StickCalibrationReadView { block: Block::Factory, read, ..acquisition },
                    action,
                },
                session.after_send(),
            )
        }),
{
}

/// The factory block is adopted whatever it holds.
pub proof fn law_factory_block_is_used(
    acquisition: StickCalibrationReadView,
    session: ControllerView,
    event: EventView,
    data: Seq<u8>,
)
    requires
        acquisition.block == Block::Factory,
        acquisition.read.after(event) == (ProgressView::<FlashReadView, Seq<u8>>::Finished {
            value: data,
        }),
    ensures
        acquisition.after(session, event).1.calibration(acquisition.side) == decoded_calibration(
            data,
            acquisition.side,
        ),
        acquisition.after(session, event).0 matches ProgressView::Continue { machine, .. }
            && machine.block == Block::Deadzone,
{
}

/// Calibrating keeps the session valid: the sequence number stays within
/// four bits and every stored calibration value within twelve.
pub proof fn law_calibrate_keeps_session_valid(
    calibrate: CalibrateView,
    session: ControllerView,
    event: EventView,
)
    requires
        session.wf(),
    ensures
        calibrate.after(session, event).1.wf(),
{
}

/// Calibrating one stick never touches what is stored for the other.
pub proof fn law_acquisition_leaves_other_stick(
    acquisition: StickCalibrationReadView,
    session: ControllerView,
    event: EventView,
)
    ensures
        ({
            let other = match acquisition.side {
                Side::Left => Side::Right,
                Side::Right => Side::Left,
            };
            let after = acquisition.after(session, event).1;
            &&& after.calibration(other) == session.calibration(other)
            &&& after.left_deadzone == session.left_deadzone
            &&& after.right_deadzone == session.right_deadzone
        }),
{
}

} // verus!
