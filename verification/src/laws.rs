//! What holds of every exchange, whatever its driver reports.

use crate::client::MAX_DATAGRAM_SIZE;
use crate::error::{ErrorKind, Failure};
use crate::exchange::{reply, ActionView, EventView, ExchangeView, Phase, StepView};
use vstd::prelude::*;

verus! {

/// An exchange that has succeeded or failed is over: it accepts no further
/// event and stays as it is. No failure is recovered from, and nothing is
/// tried twice.
pub proof fn law_finished_exchange_is_over<P>(exchange: ExchangeView, event: EventView<P>)
    requires
        exchange.phase.is_final(),
    ensures
        !exchange.accepts(event),
        exchange.after(event) == exchange,
{
}

/// Every accepted event takes the exchange to the next phase in order, or
/// fails it: the phases are passed through in one direction, and none is
/// entered twice.
pub proof fn law_phases_only_advance<P>(exchange: ExchangeView, event: EventView<P>)
    requires
        exchange.accepts(event),
    ensures
        exchange.after(event).phase == exchange.phase.successor() || exchange.after(
            event,
        ).phase is Failed,
        exchange.after(event).phase.rank() > exchange.phase.rank(),
{
}

/// An event changes nothing of an exchange but its phase: the timeouts, the
/// remote endpoint and the secret are those that the exchange was started
/// with, from its first step to its last.
pub proof fn law_events_change_the_phase_only<P>(exchange: ExchangeView, events: Seq<EventView<P>>)
    ensures
        exchange.after_all(events) == exchange.at(exchange.after_all(events).phase),
        exchange.after_all(events).phase.rank() >= exchange.phase.rank(),
    decreases events.len(),
{
    if events.len() > 0 {
        law_events_change_the_phase_only(exchange, events.drop_last());
    }
}

/// The answer to an accepted event is an outcome exactly when the event ends
/// the exchange. A packet comes out exactly when the exchange has succeeded,
/// and an error exactly when it has failed, in the way that the error's kind
/// names: an exchange has one outcome, never a mixture.
pub proof fn law_outcome_ends_the_exchange<P>(exchange: ExchangeView, event: EventView<P>)
    requires
        exchange.accepts(event),
    ensures
        exchange.reaction(event) is Done <==> exchange.after(event).phase.is_final(),
        exchange.reaction(event) matches StepView::Done(Ok(_)) <==> exchange.after(event).phase
            is Decoded,
        exchange.reaction(event) matches StepView::Done(Err(failure)) ==> exchange.after(
            event,
        ).phase == Phase::Failed(failure.kind()),
{
}

/// Each kind of action is asked for in answer to one phase only, and binding
/// is never asked for again. With the phases passed through once and in
/// order, an exchange binds, associates, encodes, sends, receives and decodes
/// at most once each.
pub proof fn law_each_action_has_its_phase<P>(exchange: ExchangeView, event: EventView<P>)
    requires
        exchange.accepts(event),
    ensures
        match exchange.reaction(event) {
            StepView::Perform(ActionView::Bind { .. }) => false,
            StepView::Perform(ActionView::Associate { .. }) => exchange.phase is Created,
            StepView::Perform(ActionView::Encode) => exchange.phase is Bound,
            StepView::Perform(ActionView::Send { .. }) => exchange.phase is Associated,
            StepView::Perform(ActionView::Receive { .. }) => exchange.phase is Encoded,
            StepView::Perform(ActionView::Decode { .. }) => exchange.phase is Sent,
            StepView::Done(_) => true,
        },
{
}

/// Whatever is reported to an exchange, and in whatever order, its actions
/// come in the one order of the phases, each of them once at most, and an
/// outcome comes last: after `Bind`, which starts the exchange, the first
/// answer is `Associate` or an outcome, the second is `Encode` or an outcome,
/// and so on to the sixth, which can only be an outcome. So an exchange binds,
/// associates, sends and receives once and never again, and it is over after
/// six steps at the latest.
pub proof fn law_actions_come_once_and_in_order<P>(
    exchange: ExchangeView,
    events: Seq<EventView<P>>,
)
    ensures
        ({
            let answers = exchange.answers(events);
            let start = exchange.phase.rank();
            let end = exchange.after_all(events).phase;
            &&& start + answers.len() <= 6
            &&& forall|i: int|
                0 <= i < answers.len() ==> match #[trigger] answers[i] {
                    StepView::Perform(action) => action.place() == start + i + 1,
                    StepView::Done(_) => i == answers.len() - 1,
                }
            &&& answers.len() > 0 ==> match answers.last() {
                StepView::Perform(_) => end.rank() == start + answers.len() && !end.is_final(),
                StepView::Done(Ok(_)) => end is Decoded,
                StepView::Done(Err(failure)) => end == Phase::Failed(failure.kind()),
            }
            &&& answers.len() == 0 ==> end == exchange.phase
        }),
    decreases events.len(),
{
    if events.len() > 0 {
        law_actions_come_once_and_in_order(exchange, events.drop_last());
        let before = exchange.after_all(events.drop_last());
        if before.accepts(events.last()) {
            law_each_action_has_its_phase(before, events.last());
        }
    }
}

/// A packet comes out of an exchange in one way only: the reply was being
/// decoded, and the packet is the one that the decoder made of it.
pub proof fn law_success_is_the_decoded_packet<P>(
    exchange: ExchangeView,
    event: EventView<P>,
    packet: P,
)
    requires
        exchange.accepts(event),
        exchange.reaction(event) == StepView::Done(Ok(packet)),
    ensures
        exchange.phase is Received,
        event == (EventView::Decoded { packet }),
{
}

/// When every action succeeds in time, the exchange yields the packet that
/// the decoder made, and no other. On the way, the association and the
/// transmission are given the client's two timeouts as they are; the datagram
/// sent is the encoding of the request, byte for byte; the reception is given
/// room for the largest datagram; and the decoder is given the bytes that
/// arrived, together with the secret that the exchange was started with.
pub proof fn law_successful_exchange<P>(
    exchange: ExchangeView,
    request: Seq<u8>,
    buffer: Seq<u8>,
    len: nat,
    packet: P,
)
    requires
        exchange.phase is Created,
    ensures
        ({
            let bound = exchange.after(EventView::<P>::Bound);
            let associated = bound.after(EventView::<P>::Associated);
            let encoded = associated.after(EventView::<P>::Encoded { datagram: request });
            let sent = encoded.after(EventView::<P>::Sent);
            let received = sent.after(EventView::<P>::Received { buffer, len });
            let decoded = received.after(EventView::Decoded { packet });
            &&& exchange.accepts(EventView::<P>::Bound)
            &&& exchange.reaction(EventView::<P>::Bound) == StepView::<P>::Perform(
                ActionView::Associate { timeout: exchange.connection_timeout },
            )
            &&& bound.accepts(EventView::<P>::Associated)
            &&& bound.reaction(EventView::<P>::Associated) == StepView::<P>::Perform(
                ActionView::Encode,
            )
            &&& associated.accepts(EventView::<P>::Encoded { datagram: request })
            &&& associated.reaction(EventView::<P>::Encoded { datagram: request })
                == StepView::<P>::Perform(
                ActionView::Send { datagram: request, timeout: exchange.socket_timeout },
            )
            &&& encoded.accepts(EventView::<P>::Sent)
            &&& encoded.reaction(EventView::<P>::Sent) == StepView::<P>::Perform(
                ActionView::Receive { capacity: MAX_DATAGRAM_SIZE as nat },
            )
            &&& sent.accepts(EventView::<P>::Received { buffer, len })
            &&& sent.reaction(EventView::<P>::Received { buffer, len }) == StepView::<P>::Perform(
                ActionView::Decode { datagram: reply(buffer, len), secret: exchange.secret },
            )
            &&& received.accepts(EventView::Decoded { packet })
            &&& received.reaction(EventView::Decoded { packet }) == StepView::Done(Ok(packet))
            &&& decoded.phase is Decoded
        }),
{
}

/// The reply that is decoded is the beginning of what the reception put into
/// its buffer, and never longer than the largest datagram. When the reception
/// reports a length within a buffer of no more than that size, the reply is
/// exactly the bytes reported.
pub proof fn law_reply_is_cut_from_the_buffer(buffer: Seq<u8>, len: nat)
    ensures
        reply(buffer, len).is_prefix_of(buffer),
        reply(buffer, len).len() <= MAX_DATAGRAM_SIZE,
        reply(buffer, len).len() <= len,
        len <= buffer.len() <= MAX_DATAGRAM_SIZE ==> reply(buffer, len) == buffer.take(len as int),
{
}

/// Time can run out on two steps only, each under its own timeout: on the
/// association, under the connection timeout, and on the transmission and the
/// reception, under the socket timeout. Binding, encoding and decoding are
/// under neither.
pub proof fn law_two_steps_are_timed<P>(exchange: ExchangeView)
    ensures
        exchange.accepts(EventView::<P>::TimedOut) <==> (exchange.phase is Bound
            && exchange.connection_timeout is Some) || ((exchange.phase is Encoded
            || exchange.phase is Sent) && exchange.socket_timeout is Some),
{
}

/// Without a connection timeout, the association is asked for without a
/// bound, a report that its time ran out is not accepted, and no event makes
/// the exchange fail with a connection timeout.
pub proof fn law_unbounded_association_never_times_out<P>(
    exchange: ExchangeView,
    event: EventView<P>,
)
    requires
        exchange.connection_timeout is None,
    ensures
        exchange.reaction(EventView::<P>::Bound) == StepView::<P>::Perform(
            ActionView::Associate { timeout: None },
        ),
        exchange.phase is Bound ==> !exchange.accepts(EventView::<P>::TimedOut),
        exchange.accepts(event) ==> exchange.reaction(event) != StepView::<P>::Done(
            Err(Failure::ConnectionTimeout),
        ),
        exchange.accepts(event) ==> exchange.after(event).phase != Phase::Failed(
            ErrorKind::ConnectionTimeout,
        ),
{
}

/// Without a connection timeout, an exchange never ends in a connection
/// timeout, whatever is reported to it and for however long.
pub proof fn law_unbounded_association_never_times_out_in_any_run<P>(
    exchange: ExchangeView,
    events: Seq<EventView<P>>,
)
    requires
        exchange.connection_timeout is None,
        exchange.phase != Phase::Failed(ErrorKind::ConnectionTimeout),
    ensures
        exchange.after_all(events).phase != Phase::Failed(ErrorKind::ConnectionTimeout),
    decreases events.len(),
{
    if events.len() > 0 {
        law_unbounded_association_never_times_out_in_any_run(exchange, events.drop_last());
        law_events_change_the_phase_only(exchange, events.drop_last());
    }
}

/// Without a socket timeout, an exchange never ends in a socket timeout,
/// whatever is reported to it and for however long.
pub proof fn law_unbounded_reply_never_times_out_in_any_run<P>(
    exchange: ExchangeView,
    events: Seq<EventView<P>>,
)
    requires
        exchange.socket_timeout is None,
        exchange.phase != Phase::Failed(ErrorKind::SocketTimeout),
    ensures
        exchange.after_all(events).phase != Phase::Failed(ErrorKind::SocketTimeout),
    decreases events.len(),
{
    if events.len() > 0 {
        law_unbounded_reply_never_times_out_in_any_run(exchange, events.drop_last());
        law_events_change_the_phase_only(exchange, events.drop_last());
    }
}

/// With a connection timeout, an association that does not complete in time
/// fails the exchange with a connection timeout, and with nothing else: not
/// with a failure to connect.
pub proof fn law_late_association_is_a_connection_timeout<P>(exchange: ExchangeView)
    requires
        exchange.phase is Bound,
        exchange.connection_timeout is Some,
    ensures
        exchange.accepts(EventView::<P>::TimedOut),
        exchange.reaction(EventView::<P>::TimedOut) == StepView::<P>::Done(
            Err(Failure::ConnectionTimeout),
        ),
        exchange.after(EventView::<P>::TimedOut).phase == Phase::Failed(
            ErrorKind::ConnectionTimeout,
        ),
{
}

/// With a socket timeout, a reply that does not arrive in time after the
/// request was sent fails the exchange with a socket timeout, and with
/// nothing else. The same holds when the time runs out while the request is
/// still being sent.
pub proof fn law_late_reply_is_a_socket_timeout<P>(exchange: ExchangeView)
    requires
        exchange.phase is Sent || exchange.phase is Encoded,
        exchange.socket_timeout is Some,
    ensures
        exchange.accepts(EventView::<P>::TimedOut),
        exchange.reaction(EventView::<P>::TimedOut) == StepView::<P>::Done(
            Err(Failure::SocketTimeout),
        ),
        exchange.after(EventView::<P>::TimedOut).phase == Phase::Failed(ErrorKind::SocketTimeout),
{
}

/// A transmission that fails is reported as such, with the remote endpoint
/// and the cause, whether or not a socket timeout is set: a timeout never
/// stands in for it.
pub proof fn law_failed_transmission_is_no_timeout<P>(exchange: ExchangeView, cause: Seq<char>)
    requires
        exchange.phase is Encoded,
    ensures
        exchange.accepts(EventView::<P>::SendFailed { cause }),
        exchange.reaction(EventView::<P>::SendFailed { cause }) == StepView::<P>::Done(
            Err(Failure::Send { remote: exchange.remote.text, cause }),
        ),
        exchange.after(EventView::<P>::SendFailed { cause }).phase == Phase::Failed(
            ErrorKind::Send,
        ),
{
}

/// The reply is decoded with the secret of the request, and a reply that the
/// decoder turns down, be it malformed, too short or not valid under that
/// secret, fails the exchange with the decoder's cause.
pub proof fn law_rejected_reply_is_a_decoding_failure<P>(
    exchange: ExchangeView,
    buffer: Seq<u8>,
    len: nat,
    cause: Seq<char>,
)
    requires
        exchange.phase is Sent,
    ensures
        ({
            let received = exchange.after(EventView::<P>::Received { buffer, len });
            &&& exchange.reaction(EventView::<P>::Received { buffer, len })
                == StepView::<P>::Perform(
                ActionView::Decode { datagram: reply(buffer, len), secret: exchange.secret },
            )
            &&& received.accepts(EventView::<P>::DecodeFailed { cause })
            &&& received.reaction(EventView::<P>::DecodeFailed { cause }) == StepView::<P>::Done(
                Err(Failure::DecodePacket { cause }),
            )
            &&& received.after(EventView::<P>::DecodeFailed { cause }).phase == Phase::Failed(
                ErrorKind::DecodePacket,
            )
        }),
{
}

/// A request that cannot be encoded fails the exchange before anything is
/// sent: the answer is the failure, with the encoder's cause, and the
/// exchange asks for no action afterwards.
pub proof fn law_unencodable_request_is_never_sent<P>(
    exchange: ExchangeView,
    cause: Seq<char>,
    later: EventView<P>,
)
    requires
        exchange.phase is Associated,
    ensures
        exchange.accepts(EventView::<P>::EncodeFailed { cause }),
        exchange.reaction(EventView::<P>::EncodeFailed { cause }) == StepView::<P>::Done(
            Err(Failure::EncodePacket { cause }),
        ),
        !exchange.after(EventView::<P>::EncodeFailed { cause }).accepts(later),
{
}

} // verus!
