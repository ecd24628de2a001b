//! The sequenced request/reply channel.
//!
//! An exchange sends one subcommand frame and then polls for the reply. Each
//! poll is a timed read into the same buffer; what a read brings overwrites
//! the front of the buffer and leaves the rest as it was. Polling stops when
//! the buffer holds an accepted reply or after [`MAX_TRIES`] reads, whichever
//! comes first. Only the outcome of the last read decides between success and
//! failure: the exchange then yields the buffer, accepted or not, unless that
//! read failed.

use crate::frame::{
    echo_matches, is_reply_accepted, reply_accepted, report_id_matches, zeros, ReplyPolicy,
    MIN_REPLY_LEN,
};
use crate::io::{
    Action, ActionView, Event, EventView, Progress, ProgressView, ProtocolError, ProtocolErrorView,
};
use vstd::prelude::*;

verus! {

/// Most reads that one exchange performs.
pub const MAX_TRIES: u8 = 10;

/// How long each read of an exchange or of the handshake waits, in milliseconds.
pub const READ_TIMEOUT_MS: u32 = 100;

/// What an exchange is waiting for.
#[derive(Clone, Copy, Debug, PartialEq, Eq, Structural)]
pub enum Pending {
    /// The outcome of writing the frame.
    Write,
    /// The outcome of a read.
    Read,
}

/// A subcommand exchange in progress.
#[derive(Debug, PartialEq, Eq)]
pub struct Exchange {
    sc: u8,
    policy: ReplyPolicy,
    tries: u8,
    recv: Vec<u8>,
    pending: Pending,
}

/// Mathematical value of an [`Exchange`].
pub struct ExchangeView {
    /// The subcommand that was sent.
    pub sc: u8,
    /// Which replies are accepted.
    pub policy: ReplyPolicy,
    /// How many reads were made so far.
    pub tries: u8,
    /// The reply buffer.
    pub recv: Seq<u8>,
    /// What the exchange is waiting for.
    pub pending: Pending,
}

/// The buffer after a read: `data` laid over the front of `recv`.
pub open spec fn received(recv: Seq<u8>, data: Seq<u8>) -> Seq<u8> {
    Seq::new(recv.len(), |i: int| if i < data.len() { data[i] } else { recv[i] })
}

/// The buffer after a read ended in `event`: a failed read leaves it unchanged.
pub open spec fn buffer_after(recv: Seq<u8>, event: EventView) -> Seq<u8> {
    match event {
        EventView::Completed { data } => received(recv, data),
        EventView::Failed { .. } => recv,
    }
}

impl ExchangeView {
    /// An exchange of subcommand `sc` right after its frame was handed out:
    /// no read made, the buffer of `recv_len` bytes all zero.
    pub open spec fn start(sc: u8, policy: ReplyPolicy, recv_len: usize) -> ExchangeView {
        ExchangeView { sc, policy, tries: 0, recv: zeros(recv_len as nat), pending: Pending::Write }
    }

    /// The read that the exchange asks for.
    pub open spec fn read_action(self) -> ActionView {
        ActionView::ReadTimeout { len: self.recv.len() as usize, millis: READ_TIMEOUT_MS }
    }

    /// The exchange after `event`.
    ///
    /// While the write is pending, a failure ends the exchange with that
    /// failure and anything else leads to the first read. While a read is
    /// pending, the read is counted and its data laid over the buffer; the
    /// exchange polls again if fewer than [`MAX_TRIES`] reads were made and
    /// the buffer is not an accepted reply, and otherwise ends: with the
    /// failure if this read failed, with the buffer if it did not.
    pub open spec fn after(self, event: EventView) -> ProgressView<ExchangeView, Seq<u8>> {
        match self.pending {
            Pending::Write => match event {
                EventView::Failed { reason } => ProgressView::Failed {
                    error: ProtocolErrorView::Transport { reason },
                },
                EventView::Completed { .. } => ProgressView::Continue {
                    machine: ExchangeView { pending: Pending::Read, ..self },
                    action: self.read_action(),
                },
            },
            Pending::Read => {
                let recv = buffer_after(self.recv, event);
                let tries = (self.tries + 1) as u8;
                if tries < MAX_TRIES && !reply_accepted(self.policy, recv, self.sc) {
                    ProgressView::Continue {
                        machine: ExchangeView { tries, recv, ..self },
                        action: self.read_action(),
                    }
                } else {
                    match event {
                        EventView::Failed { reason } => ProgressView::Failed {
                            error: ProtocolErrorView::Transport { reason },
                        },
                        EventView::Completed { .. } => ProgressView::Finished { value: recv },
                    }
                }
            },
        }
    }

    /// How many more events the exchange can take before it must end.
    pub open spec fn budget(self) -> int {
        match self.pending {
            Pending::Write => MAX_TRIES - self.tries + 1,
            Pending::Read => MAX_TRIES - self.tries,
        }
    }
}

impl View for Exchange {
    type V = ExchangeView;

    closed spec fn view(&self) -> ExchangeView {
        ExchangeView {
            sc: self.sc,
            policy: self.policy,
            tries: self.tries,
            recv: self.recv@,
            pending: self.pending,
        }
    }
}

/// Lays `data` over the front of `recv`.
fn overlay(recv: &mut Vec<u8>, data: &Vec<u8>)
    ensures
        final(recv)@ == received(old(recv)@, data@),
{
    let ghost before = recv@;
    let mut i: usize = 0;
    while i < recv.len() && i < data.len()
        invariant
            recv@.len() == before.len(),
            i <= recv@.len(),
            i <= data@.len(),
            forall|j: int| 0 <= j < i ==> recv@[j] == data@[j],
            forall|j: int| i <= j < recv@.len() ==> recv@[j] == before[j],
        decreases recv@.len() - i,
    {
        recv.set(i, data[i]);
        i += 1;
    }
    assert(recv@ =~= received(before, data@));
}

impl Exchange {
    #[verifier::type_invariant]
    spec fn inv(self) -> bool {
        &&& self.recv@.len() >= MIN_REPLY_LEN
        &&& self.tries < MAX_TRIES
    }

    /// An exchange of subcommand `sc` whose frame is about to be written.
    pub(crate) fn new(sc: u8, policy: ReplyPolicy, recv_len: usize) -> (exchange: Exchange)
        requires
            recv_len >= MIN_REPLY_LEN,
        ensures
            exchange@ == ExchangeView::start(sc, policy, recv_len),
    {
        let mut recv: Vec<u8> = Vec::new();
        crate::frame::pad_with_zeros(&mut recv, recv_len);
        Exchange { sc, policy, tries: 0, recv, pending: Pending::Write }
    }

    /// The subcommand that this exchange sent.
    pub fn subcommand_id(&self) -> (sc: u8)
        ensures
            sc == self@.sc,
    {
        self.sc
    }

    /// The number of reads made so far.
    pub fn tries(&self) -> (tries: u8)
        ensures
            tries == self@.tries,
            tries < MAX_TRIES,
    {
        proof {
            use_type_invariant(self);
        }
        self.tries
    }

    /// Feeds the outcome of the last action to the exchange.
    pub fn step(self, event: Event) -> (r: Progress<Exchange, Vec<u8>>)
        ensures
            r@ == self@.after(event@),
    {
        proof {
            use_type_invariant(&self);
        }
        let Exchange { sc, policy, tries, recv, pending } = self;
        let mut recv = recv;
        match pending {
            Pending::Write => match event {
                Event::Failed { reason } => Progress::Failed {
                    error: ProtocolError::Transport { reason },
                },
                Event::Completed { data: _ } => {
                    let len = recv.len();
                    Progress::Continue {
                        machine: Exchange { sc, policy, tries, recv, pending: Pending::Read },
                        action: Action::ReadTimeout { len, millis: READ_TIMEOUT_MS },
                    }
                },
            },
            Pending::Read => {
                let failure: Option<String> = match event {
                    Event::Completed { data } => {
                        overlay(&mut recv, &data);
                        None
                    },
                    Event::Failed { reason } => Some(reason),
                };
                let tries: u8 = tries + 1;
                if tries < MAX_TRIES && !is_reply_accepted(policy, recv.as_slice(), sc) {
                    let len = recv.len();
                    Progress::Continue {
                        machine: Exchange { sc, policy, tries, recv, pending },
                        action: Action::ReadTimeout { len, millis: READ_TIMEOUT_MS },
                    }
                } else {
                    match failure {
                        Some(reason) => Progress::Failed {
                            error: ProtocolError::Transport { reason },
                        },
                        None => Progress::Finished { value: recv },
                    }
                }
            },
        }
    }
}

/// An exchange takes at most eleven events, one for the write and one for
/// each of ten reads: an event that does not end the exchange uses up one
/// unit of its budget, and the budget of an exchange that goes on is never
/// spent.
pub proof fn law_exchange_is_bounded(exchange: ExchangeView, event: EventView)
    requires
        exchange.tries < MAX_TRIES,
    ensures
        exchange.after(event) matches ProgressView::Continue { machine, .. } ==> {
            &&& machine.budget() == exchange.budget() - 1
            &&& machine.budget() >= 1
            &&& machine.tries < MAX_TRIES
        },
{
}

/// An exchange never changes its subcommand, its policy or the length of its
/// buffer, and every read it asks for is a read into that buffer.
pub proof fn law_exchange_keeps_its_shape(exchange: ExchangeView, event: EventView)
    ensures
        exchange.after(event) matches ProgressView::Continue { machine, action } ==> {
            &&& machine.sc == exchange.sc
            &&& machine.policy == exchange.policy
            &&& machine.recv.len() == exchange.recv.len()
            &&& action == exchange.read_action()
        },
        exchange.after(event) matches ProgressView::Finished { value } ==> value.len()
            == exchange.recv.len(),
{
}

/// A read that leaves in the buffer a reply matching both the report id and
/// the echoed subcommand ends the exchange at once with that buffer, under
/// either policy and at any try.
pub proof fn law_matching_reply_is_taken(exchange: ExchangeView, data: Seq<u8>)
    requires
        exchange.pending == Pending::Read,
        report_id_matches(received(exchange.recv, data)),
        echo_matches(received(exchange.recv, data), exchange.sc),
    ensures
        exchange.after(EventView::Completed { data }) == (ProgressView::<
            ExchangeView,
            Seq<u8>,
        >::Finished { value: received(exchange.recv, data) }),
{
}

/// The tenth read ends the exchange whatever it brings: with the buffer,
/// accepted or not, if the read succeeded, and with its failure if it failed.
pub proof fn law_last_read_decides(exchange: ExchangeView, event: EventView)
    requires
        exchange.pending == Pending::Read,
        exchange.tries == MAX_TRIES - 1,
    ensures
        match event {
            EventView::Completed { data } => exchange.after(event) == (ProgressView::<
                ExchangeView,
                Seq<u8>,
            >::Finished { value: received(exchange.recv, data) }),
            EventView::Failed { reason } => exchange.after(event) == (ProgressView::<
                ExchangeView,
                Seq<u8>,
            >::Failed { error: ProtocolErrorView::Transport { reason } }),
        },
{
}

/// Before the tenth read, a read that leaves no accepted reply in the buffer
/// is followed by another read, whether it failed or not.
pub proof fn law_unanswered_read_is_repeated(exchange: ExchangeView, event: EventView)
    requires
        exchange.pending == Pending::Read,
        exchange.tries < MAX_TRIES - 1,
        !reply_accepted(exchange.policy, buffer_after(exchange.recv, event), exchange.sc),
    ensures
        exchange.after(event) == (ProgressView::<ExchangeView, Seq<u8>>::Continue {
            machine: ExchangeView {
                tries: (exchange.tries + 1) as u8,
                recv: buffer_after(exchange.recv, event),
                ..exchange
            },
            action: exchange.read_action(),
        }),
{
}

/// An exchange fails only with the transport's own account of a failed
/// action, and only on the event that reports that failure.
pub proof fn law_exchange_fails_with_transport_reason(exchange: ExchangeView, event: EventView)
    ensures
        exchange.after(event) matches ProgressView::Failed { error } ==> event matches EventView::Failed {
            reason,
        } && error == (ProtocolErrorView::Transport { reason }),
{
}

/// Whatever one policy accepts when both fields are required, the other
/// accepts too.
pub proof fn law_require_both_is_stricter(reply: Seq<u8>, sc: u8)
    ensures
        reply_accepted(ReplyPolicy::RequireBoth, reply, sc) ==> reply_accepted(
            ReplyPolicy::AcceptEither,
            reply,
            sc,
        ),
{
}

} // verus!
