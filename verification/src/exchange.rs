//! One exchange: a single request and its single response.
//!
//! An exchange is a state machine that never touches the network. It hands its
//! driver one [`Action`] at a time; the driver carries the action out and
//! reports what happened as an [`Event`]; the exchange answers with the next
//! action, or with the outcome. The phases follow one another in a fixed order
//! and none is entered twice:
//!
//! ```text
//! Created -> Bound -> Associated -> Encoded -> Sent -> Received -> Decoded
//! ```
//!
//! From every phase but the last the exchange may instead fail, which ends it.

use crate::client::{Client, MAX_DATAGRAM_SIZE};
use crate::endpoint::{RemoteEndpoint, RemoteEndpointView};
use crate::error::{ClientError, ErrorKind, Failure};
use std::time::Duration;
use vstd::prelude::*;
use vstd::slice::slice_to_vec;

verus! {

/// How far an exchange has come.
#[derive(Clone, Copy, Debug, PartialEq, Eq, Structural)]
pub enum Phase {
    /// Nothing has happened yet: the local socket is being bound.
    Created,
    /// The socket is bound and is being associated with the remote endpoint.
    Bound,
    /// The socket is associated; the request is being encoded.
    Associated,
    /// The request is encoded and is being sent.
    Encoded,
    /// The request is sent; the reply is awaited.
    Sent,
    /// The reply has arrived and is being decoded.
    Received,
    /// The reply is decoded: the exchange has succeeded.
    Decoded,
    /// The exchange has failed in the given way.
    Failed(ErrorKind),
}

/// What the driver does next.
#[derive(Debug, PartialEq, Eq)]
pub enum Action {
    /// Bind a fresh UDP socket to the local address `local`, which names a
    /// wildcard address and port 0. The socket serves this exchange alone.
    Bind { local: &'static str },
    /// Associate the socket with the remote endpoint. With a timeout, give up
    /// once that much time has passed.
    Associate { timeout: Option<Duration> },
    /// Encode the request packet.
    Encode,
    /// Send `datagram` as one datagram. With a timeout, start its clock now:
    /// it runs on through the reception.
    Send { datagram: Vec<u8>, timeout: Option<Duration> },
    /// Wait for one datagram, into a buffer of `capacity` bytes, against the
    /// clock that the transmission started.
    Receive { capacity: usize },
    /// Decode `datagram` as the reply, validating it with `secret`.
    Decode { datagram: Vec<u8>, secret: Vec<u8> },
}

/// What the driver reports back. `P` is the type of a decoded packet.
#[derive(Debug, PartialEq, Eq)]
pub enum Event<P> {
    /// The socket is bound.
    Bound,
    /// Binding failed, for the given cause.
    BindFailed(String),
    /// The socket is associated with the remote endpoint.
    Associated,
    /// The association failed, for the given cause.
    AssociateFailed(String),
    /// The request packet encodes to these bytes.
    Encoded(Vec<u8>),
    /// Encoding failed, for the given cause.
    EncodeFailed(String),
    /// The datagram is sent.
    Sent,
    /// Sending failed, for the given cause.
    SendFailed(String),
    /// A datagram arrived: it was written to the front of `buffer` and is
    /// `len` bytes long.
    Received { buffer: Vec<u8>, len: usize },
    /// Receiving failed, for the given cause.
    ReceiveFailed(String),
    /// The reply decodes to this packet.
    Decoded(P),
    /// Decoding failed, for the given cause.
    DecodeFailed(String),
    /// The time allowed for the current action ran out before it completed.
    TimedOut,
}

/// The answer of an exchange to an event.
#[derive(Debug, PartialEq, Eq)]
pub enum Step<P> {
    /// The exchange goes on: the driver performs this action.
    Perform(Action),
    /// The exchange is over, with this outcome. The driver releases the
    /// socket, if one was bound.
    Done(Result<P, ClientError>),
}

/// A single exchange with one remote endpoint.
#[derive(Debug)]
pub struct Exchange {
    client: Client,
    remote: RemoteEndpoint,
    secret: Vec<u8>,
    phase: Phase,
}

/// The mathematical model of an [`Action`].
pub enum ActionView {
    Bind { local: Seq<char> },
    Associate { timeout: Option<Duration> },
    Encode,
    Send { datagram: Seq<u8>, timeout: Option<Duration> },
    Receive { capacity: nat },
    Decode { datagram: Seq<u8>, secret: Seq<u8> },
}

/// The mathematical model of an [`Event`].
pub enum EventView<P> {
    Bound,
    BindFailed { cause: Seq<char> },
    Associated,
    AssociateFailed { cause: Seq<char> },
    Encoded { datagram: Seq<u8> },
    EncodeFailed { cause: Seq<char> },
    Sent,
    SendFailed { cause: Seq<char> },
    Received { buffer: Seq<u8>, len: nat },
    ReceiveFailed { cause: Seq<char> },
    Decoded { packet: P },
    DecodeFailed { cause: Seq<char> },
    TimedOut,
}

/// The mathematical model of a [`Step`].
pub enum StepView<P> {
    Perform(ActionView),
    Done(Result<P, Failure>),
}

/// The mathematical model of an [`Exchange`]: what it was started with, and
/// its phase.
pub struct ExchangeView {
    /// The bound on the association step, if there is one.
    pub connection_timeout: Option<Duration>,
    /// The bound on transmission and reception together, if there is one.
    pub socket_timeout: Option<Duration>,
    /// The endpoint that the request goes to.
    pub remote: RemoteEndpointView,
    /// The shared secret of the request, which validates the reply.
    pub secret: Seq<u8>,
    /// How far the exchange has come.
    pub phase: Phase,
}

impl View for Action {
    type V = ActionView;

    open spec fn view(&self) -> ActionView {
        match self {
            Action::Bind { local } => ActionView::Bind { local: local@ },
            Action::Associate { timeout } => ActionView::Associate { timeout: *timeout },
            Action::Encode => ActionView::Encode,
            Action::Send { datagram, timeout } => ActionView::Send {
                datagram: datagram@,
                timeout: *timeout,
            },
            Action::Receive { capacity } => ActionView::Receive { capacity: *capacity as nat },
            Action::Decode { datagram, secret } => ActionView::Decode {
                datagram: datagram@,
                secret: secret@,
            },
        }
    }
}

impl<P> View for Event<P> {
    type V = EventView<P>;

    open spec fn view(&self) -> EventView<P> {
        match self {
            Event::Bound => EventView::Bound,
            Event::BindFailed(cause) => EventView::BindFailed { cause: cause@ },
            Event::Associated => EventView::Associated,
            Event::AssociateFailed(cause) => EventView::AssociateFailed { cause: cause@ },
            Event::Encoded(datagram) => EventView::Encoded { datagram: datagram@ },
            Event::EncodeFailed(cause) => EventView::EncodeFailed { cause: cause@ },
            Event::Sent => EventView::Sent,
            Event::SendFailed(cause) => EventView::SendFailed { cause: cause@ },
            Event::Received { buffer, len } => EventView::Received {
                buffer: buffer@,
                len: *len as nat,
            },
            Event::ReceiveFailed(cause) => EventView::ReceiveFailed { cause: cause@ },
            Event::Decoded(packet) => EventView::Decoded { packet: *packet },
            Event::DecodeFailed(cause) => EventView::DecodeFailed { cause: cause@ },
            Event::TimedOut => EventView::TimedOut,
        }
    }
}

impl<P> View for Step<P> {
    type V = StepView<P>;

    open spec fn view(&self) -> StepView<P> {
        match self {
            Step::Perform(action) => StepView::Perform(action@),
            Step::Done(Ok(packet)) => StepView::Done(Ok(*packet)),
            Step::Done(Err(error)) => StepView::Done(Err(error@)),
        }
    }
}

impl View for Exchange {
    type V = ExchangeView;

    closed spec fn view(&self) -> ExchangeView {
        ExchangeView {
            connection_timeout: self.client.connection_timeout(),
            socket_timeout: self.client.socket_timeout(),
            remote: self.remote@,
            secret: self.secret@,
            phase: self.phase,
        }
    }
}

/// The local address that a socket is bound to for a remote endpoint of the
/// IPv4 family (`ipv4` holds) or of the IPv6 family: the wildcard address of
/// the same family, with port 0, which lets the system pick the port.
pub open spec fn wildcard(ipv4: bool) -> Seq<char> {
    if ipv4 {
        "0.0.0.0:0"@
    } else {
        "[::]:0"@
    }
}

/// The reply that is decoded when a reception reports `len` bytes in
/// `buffer`: the first `len` bytes of the buffer, or the whole buffer if it
/// is shorter than that, and in no case more than [`MAX_DATAGRAM_SIZE`] bytes.
pub open spec fn reply(buffer: Seq<u8>, len: nat) -> Seq<u8> {
    let held = if len <= buffer.len() {
        len
    } else {
        buffer.len()
    };
    let kept = if held <= MAX_DATAGRAM_SIZE {
        held
    } else {
        MAX_DATAGRAM_SIZE as nat
    };
    buffer.subrange(0, kept as int)
}

impl ActionView {
    /// The place of the action in the order of an exchange's actions.
    pub open spec fn place(self) -> nat {
        match self {
            ActionView::Bind { .. } => 0,
            ActionView::Associate { .. } => 1,
            ActionView::Encode => 2,
            ActionView::Send { .. } => 3,
            ActionView::Receive { .. } => 4,
            ActionView::Decode { .. } => 5,
        }
    }
}

impl Phase {
    /// Whether the exchange is over in this phase, for better or worse.
    pub open spec fn is_final(self) -> bool {
        self is Decoded || self is Failed
    }

    /// The phase that follows this one when the pending action succeeds. The
    /// final phases have no successor and are mapped to themselves.
    pub open spec fn successor(self) -> Phase {
        match self {
            Phase::Created => Phase::Bound,
            Phase::Bound => Phase::Associated,
            Phase::Associated => Phase::Encoded,
            Phase::Encoded => Phase::Sent,
            Phase::Sent => Phase::Received,
            Phase::Received => Phase::Decoded,
            Phase::Decoded => Phase::Decoded,
            Phase::Failed(kind) => Phase::Failed(kind),
        }
    }

    /// The place of the phase in the order of phases; both kinds of final
    /// phase come last.
    pub open spec fn rank(self) -> nat {
        match self {
            Phase::Created => 0,
            Phase::Bound => 1,
            Phase::Associated => 2,
            Phase::Encoded => 3,
            Phase::Sent => 4,
            Phase::Received => 5,
            Phase::Decoded => 6,
            Phase::Failed(_) => 6,
        }
    }
}

impl ExchangeView {
    /// Whether `event` can be the outcome of the action that is pending in the
    /// current phase. Time can run out only on an action that has a timeout.
    pub open spec fn accepts<P>(self, event: EventView<P>) -> bool {
        match self.phase {
            Phase::Created => event is Bound || event is BindFailed,
            Phase::Bound => event is Associated || event is AssociateFailed || (event is TimedOut
                && self.connection_timeout is Some),
            Phase::Associated => event is Encoded || event is EncodeFailed,
            Phase::Encoded => event is Sent || event is SendFailed || (event is TimedOut
                && self.socket_timeout is Some),
            Phase::Sent => event is Received || event is ReceiveFailed || (event is TimedOut
                && self.socket_timeout is Some),
            Phase::Received => event is Decoded || event is DecodeFailed,
            Phase::Decoded => false,
            Phase::Failed(_) => false,
        }
    }

    /// The answer to an event that the exchange accepts.
    pub open spec fn reaction<P>(self, event: EventView<P>) -> StepView<P>
        recommends
            self.accepts(event),
    {
        match event {
            EventView::Bound => StepView::Perform(
                ActionView::Associate { timeout: self.connection_timeout },
            ),
            EventView::BindFailed { cause } => StepView::Done(Err(Failure::Bind { cause })),
            EventView::Associated => StepView::Perform(ActionView::Encode),
            EventView::AssociateFailed { cause } => StepView::Done(
                Err(Failure::Connect { remote: self.remote.text, cause }),
            ),
            EventView::Encoded { datagram } => StepView::Perform(
                ActionView::Send { datagram, timeout: self.socket_timeout },
            ),
            EventView::EncodeFailed { cause } => StepView::Done(
                Err(Failure::EncodePacket { cause }),
            ),
            EventView::Sent => StepView::Perform(
                ActionView::Receive { capacity: MAX_DATAGRAM_SIZE as nat },
            ),
            EventView::SendFailed { cause } => StepView::Done(
                Err(Failure::Send { remote: self.remote.text, cause }),
            ),
            EventView::Received { buffer, len } => StepView::Perform(
                ActionView::Decode { datagram: reply(buffer, len), secret: self.secret },
            ),
            EventView::ReceiveFailed { cause } => StepView::Done(
                Err(Failure::Receive { remote: self.remote.text, cause }),
            ),
            EventView::Decoded { packet } => StepView::Done(Ok(packet)),
            EventView::DecodeFailed { cause } => StepView::Done(
                Err(Failure::DecodePacket { cause }),
            ),
            EventView::TimedOut => StepView::Done(
                Err(
                    if self.phase is Bound {
                        Failure::ConnectionTimeout
                    } else {
                        Failure::SocketTimeout
                    },
                ),
            ),
        }
    }

    /// The exchange in the given phase, otherwise unchanged.
    pub open spec fn at(self, phase: Phase) -> ExchangeView {
        ExchangeView { phase, ..self }
    }

    /// The exchange after an event: moved on by one phase, succeeded or
    /// failed, as the answer to the event says; unchanged if the event is not
    /// accepted.
    pub open spec fn after<P>(self, event: EventView<P>) -> ExchangeView {
        if self.accepts(event) {
            match self.reaction(event) {
                StepView::Perform(_) => self.at(self.phase.successor()),
                StepView::Done(Ok(_)) => self.at(Phase::Decoded),
                StepView::Done(Err(failure)) => self.at(Phase::Failed(failure.kind())),
            }
        } else {
            self
        }
    }

    /// The exchange after a sequence of events, taken in order.
    pub open spec fn after_all<P>(self, events: Seq<EventView<P>>) -> ExchangeView
        decreases events.len(),
    {
        if events.len() == 0 {
            self
        } else {
            self.after_all(events.drop_last()).after(events.last())
        }
    }

    /// The answers that the exchange gives to a sequence of events, taken in
    /// order: one answer for each event that it accepts.
    pub open spec fn answers<P>(self, events: Seq<EventView<P>>) -> Seq<StepView<P>>
        decreases events.len(),
    {
        if events.len() == 0 {
            Seq::empty()
        } else {
            let before = self.after_all(events.drop_last());
            let earlier = self.answers(events.drop_last());
            if before.accepts(events.last()) {
                earlier.push(before.reaction(events.last()))
            } else {
                earlier
            }
        }
    }
}

/// The phase that follows `phase` when the pending action succeeds.
fn successor_of(phase: Phase) -> (next: Phase)
    ensures
        next == phase.successor(),
{
    match phase {
        Phase::Created => Phase::Bound,
        Phase::Bound => Phase::Associated,
        Phase::Associated => Phase::Encoded,
        Phase::Encoded => Phase::Sent,
        Phase::Sent => Phase::Received,
        Phase::Received => Phase::Decoded,
        Phase::Decoded => Phase::Decoded,
        Phase::Failed(kind) => Phase::Failed(kind),
    }
}

/// The reply that is decoded when a reception reports `len` bytes in
/// `buffer`: its first `len` bytes, cut to the largest datagram.
pub fn cut_reply(buffer: Vec<u8>, len: usize) -> (datagram: Vec<u8>)
    ensures
        datagram@ == reply(buffer@, len as nat),
{
    let mut datagram = buffer;
    datagram.truncate(len);
    datagram.truncate(MAX_DATAGRAM_SIZE);
    datagram
}

impl Client {
    /// Starts the exchange of one request with `remote_addr`. `secret` is the
    /// shared secret that the request packet carries; the reply will be
    /// validated with it.
    ///
    /// The exchange comes with its first action: to bind a socket to the
    /// wildcard address of the remote endpoint's address family.
    pub fn send_packet(&self, remote_addr: &RemoteEndpoint, secret: &[u8]) -> (started: (
        Exchange,
        Action,
    ))
        ensures
            started.0@ == (ExchangeView {
                connection_timeout: self.connection_timeout(),
                socket_timeout: self.socket_timeout(),
                remote: remote_addr@,
                secret: secret@,
                phase: Phase::Created,
            }),
            started.1@ == (ActionView::Bind { local: wildcard(remote_addr@.ipv4) }),
    {
        let local = if remote_addr.is_ipv4() {
            "0.0.0.0:0"
        } else {
            "[::]:0"
        };
        let exchange = Exchange {
            client: *self,
            remote: RemoteEndpoint::new(remote_addr.is_ipv4(), remote_addr.to_string()),
            secret: slice_to_vec(secret),
            phase: Phase::Created,
        };
        (exchange, Action::Bind { local })
    }
}

impl Exchange {
    /// How far the exchange has come.
    pub fn phase(&self) -> (phase: Phase)
        ensures
            phase == self@.phase,
    {
        self.phase
    }

    /// The answer to `event`, if the exchange accepts it.
    fn react<P>(&self, event: Event<P>) -> (step: Option<Step<P>>)
        ensures
            step is Some <==> self@.accepts(event@),
            step matches Some(s) ==> s@ == self@.reaction(event@),
    {
        match self.phase {
            Phase::Created => match event {
                Event::Bound => Some(
                    Step::Perform(Action::Associate { timeout: self.client.connection_timeout() }),
                ),
                Event::BindFailed(cause) => Some(
                    Step::Done(Err(ClientError::FailedUdpSocketBindingError(cause))),
                ),
                _ => None,
            },
            Phase::Bound => match event {
                Event::Associated => Some(Step::Perform(Action::Encode)),
                Event::AssociateFailed(cause) => Some(
                    Step::Done(
                        Err(
                            ClientError::FailedEstablishingUdpConnectionError(
                                self.remote.to_string(),
                                cause,
                            ),
                        ),
                    ),
                ),
                Event::TimedOut => match self.client.connection_timeout() {
                    Some(_) => Some(Step::Done(Err(ClientError::ConnectionTimeoutError()))),
                    None => None,
                },
                _ => None,
            },
            Phase::Associated => match event {
                Event::Encoded(datagram) => Some(
                    Step::Perform(
                        Action::Send { datagram, timeout: self.client.socket_timeout() },
                    ),
                ),
                Event::EncodeFailed(cause) => Some(
                    Step::Done(Err(ClientError::FailedRadiusPacketEncodingError(cause))),
                ),
                _ => None,
            },
            Phase::Encoded => match event {
                Event::Sent => Some(Step::Perform(Action::Receive { capacity: MAX_DATAGRAM_SIZE })),
                Event::SendFailed(cause) => Some(
                    Step::Done(
                        Err(
                            ClientError::FailedSendingRadiusPacketError(
                                self.remote.to_string(),
                                cause,
                            ),
                        ),
                    ),
                ),
                Event::TimedOut => match self.client.socket_timeout() {
                    Some(_) => Some(Step::Done(Err(ClientError::SocketTimeoutError()))),
                    None => None,
                },
                _ => None,
            },
            Phase::Sent => match event {
                Event::Received { buffer, len } => Some(
                    Step::Perform(
                        Action::Decode {
                            datagram: cut_reply(buffer, len),
                            secret: slice_to_vec(self.secret.as_slice()),
                        },
                    ),
                ),
                Event::ReceiveFailed(cause) => Some(
                    Step::Done(
                        Err(
                            ClientError::FailedReceivingResponseError(
                                self.remote.to_string(),
                                cause,
                            ),
                        ),
                    ),
                ),
                Event::TimedOut => match self.client.socket_timeout() {
                    Some(_) => Some(Step::Done(Err(ClientError::SocketTimeoutError()))),
                    None => None,
                },
                _ => None,
            },
            Phase::Received => match event {
                Event::Decoded(packet) => Some(Step::Done(Ok(packet))),
                Event::DecodeFailed(cause) => Some(
                    Step::Done(Err(ClientError::FailedDecodingRadiusResponseError(cause))),
                ),
                _ => None,
            },
            Phase::Decoded => None,
            Phase::Failed(_) => None,
        }
    }

    /// Takes the exchange one step further: `event` is what came of the action
    /// that the exchange asked for last.
    ///
    /// The answer is the next action to perform, or the outcome of the
    /// exchange, which is then over. An event that cannot be the outcome of the
    /// pending action is not accepted: the answer is `None` and the exchange
    /// stays as it is. An exchange that is over accepts no event.
    pub fn step<P>(&mut self, event: Event<P>) -> (step: Option<Step<P>>)
        ensures
            step is Some <==> old(self)@.accepts(event@),
            step matches Some(s) ==> s@ == old(self)@.reaction(event@),
            final(self)@ == old(self)@.after(event@),
    {
        let step = self.react(event);
        match &step {
            Some(Step::Perform(_)) => {
                self.phase = successor_of(self.phase);
            },
            Some(Step::Done(Ok(_))) => {
                self.phase = Phase::Decoded;
            },
            Some(Step::Done(Err(error))) => {
                self.phase = Phase::Failed(error.kind());
            },
            None => {},
        }
        step
    }
}

} // verus!
