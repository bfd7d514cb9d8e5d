//! The methods of a handler as steps of its history, and what they answer at any point of it.

use crate::outside::MAX_NANOS;
use crate::request_response::conduct::{accounts, answered, begins, clones, offers, Made};
use crate::request_response::handler::{
    may_feed, may_happen, ConnectionEvent, Handler, InboundTask, KeepAlive, Negotiated,
    OutboundTask, PendingInbound, PollInput, PollOutput, Started, StreamUpgradeError,
};
use crate::request_response::laws::{accepted, operates, received, settled, Operation};
use crate::request_response::message::{Codec, OutboundMessage, RequestId};
use futures::channel::oneshot;
use instant::Instant;
use std::sync::atomic::AtomicU64;
use std::sync::Arc;
use vstd::prelude::*;

verus! {

/// `Handler::new` begins a history with what it is given, and accepts any timeouts that a
/// duration can hold.
pub proof fn law_new_begins<TCodec: Codec + Clone>(
    inbound_protocols: Vec<TCodec::Protocol>,
    codec: TCodec,
    keep_alive_timeout: u128,
    substream_timeout: u128,
    clock_start: Instant,
    counter: Arc<AtomicU64>,
    handler: Handler<TCodec>,
)
    requires
        keep_alive_timeout <= MAX_NANOS,
        substream_timeout <= MAX_NANOS,
    ensures
        call_requires(
            Handler::<TCodec>::new,
            (inbound_protocols, codec, keep_alive_timeout, substream_timeout, clock_start, counter),
        ),
        call_ensures(
            Handler::<TCodec>::new,
            (inbound_protocols, codec, keep_alive_timeout, substream_timeout, clock_start, counter),
            handler,
        ) ==> begins(
            Made {
                inbound_protocols: inbound_protocols@,
                codec,
                keep_alive_timeout,
                substream_timeout,
                clock_start,
                counter,
            },
            handler@,
        ),
{
}

/// `on_behaviour_event` is the step of a history that takes a message.
pub proof fn law_behaviour_event_operates<TCodec: Codec + Clone, TStream>(
    handler: &mut Handler<TCodec>,
    message: OutboundMessage<TCodec>,
)
    requires
        call_ensures(Handler::<TCodec>::on_behaviour_event, (handler, message), ()),
    ensures
        operates(
            old(handler)@,
            Operation::<TCodec, TStream>::Behaviour(message),
            final(handler)@,
        ),
{
}

/// `poll` is the step of a history that polls.
pub proof fn law_poll_operates<TCodec: Codec + Clone, TStream>(
    handler: &mut Handler<TCodec>,
    input: PollInput<TCodec>,
    output: PollOutput<TCodec>,
)
    requires
        may_feed(old(handler)@, input),
        call_ensures(Handler::<TCodec>::poll, (handler, input), output),
    ensures
        operates(
            old(handler)@,
            Operation::<TCodec, TStream>::Poll(input, output),
            final(handler)@,
        ),
{
}

/// `on_connection_event` is the step of a history that takes an event of the connection.
pub proof fn law_connection_event_operates<TCodec: Codec + Clone, TStream>(
    handler: &mut Handler<TCodec>,
    event: ConnectionEvent<TCodec, TStream>,
    started: Started<TCodec, TStream>,
)
    requires
        may_happen(old(handler)@, event),
        call_ensures(Handler::<TCodec>::on_connection_event::<TStream>, (handler, event), started),
    ensures
        operates(old(handler)@, Operation::Connection(event, started), final(handler)@),
{
}

/// `on_fully_negotiated_inbound` is the step that takes a negotiated inbound substream.
pub proof fn law_negotiated_inbound_operates<TCodec: Codec + Clone, TStream>(
    handler: &mut Handler<TCodec>,
    negotiated: Negotiated<TCodec, TStream>,
    started: (PendingInbound<TCodec>, InboundTask<TCodec, TStream>),
)
    requires
        old(handler)@.inbound < usize::MAX,
        call_ensures(
            Handler::<TCodec>::on_fully_negotiated_inbound::<TStream>,
            (handler, negotiated),
            started,
        ),
    ensures
        operates(
            old(handler)@,
            Operation::Connection(
                ConnectionEvent::FullyNegotiatedInbound(negotiated),
                Started::Inbound(started.0, started.1),
            ),
            final(handler)@,
        ),
{
}

/// `on_fully_negotiated_outbound` is the step that takes a negotiated outbound substream.
pub proof fn law_negotiated_outbound_operates<TCodec: Codec + Clone, TStream>(
    handler: &mut Handler<TCodec>,
    negotiated: Negotiated<TCodec, TStream>,
    task: OutboundTask<TCodec, TStream>,
)
    requires
        old(handler)@.requested_outbound.len() > 0,
        call_ensures(
            Handler::<TCodec>::on_fully_negotiated_outbound::<TStream>,
            (handler, negotiated),
            task,
        ),
    ensures
        operates(
            old(handler)@,
            Operation::Connection(
                ConnectionEvent::FullyNegotiatedOutbound(negotiated),
                Started::Outbound(task),
            ),
            final(handler)@,
        ),
{
}

/// `on_dial_upgrade_error` is the step that takes the failure of an outbound substream.
pub proof fn law_dial_upgrade_error_operates<TCodec: Codec + Clone, TStream>(
    handler: &mut Handler<TCodec>,
    error: StreamUpgradeError,
)
    requires
        may_happen(
            old(handler)@,
            ConnectionEvent::<TCodec, TStream>::DialUpgradeError(error),
        ),
        call_ensures(Handler::<TCodec>::on_dial_upgrade_error, (handler, error), ()),
    ensures
        operates(
            old(handler)@,
            Operation::<TCodec, TStream>::Connection(
                ConnectionEvent::DialUpgradeError(error),
                Started::Nothing,
            ),
            final(handler)@,
        ),
{
}

/// The handler listens on clones of the protocols that it was made with, at any point of
/// its history.
pub proof fn law_listens_on_its_protocols<TCodec: Codec + Clone, TStream>(
    made: Made<TCodec>,
    operations: Seq<Operation<TCodec, TStream>>,
    handler: &Handler<TCodec>,
    protocols: Vec<TCodec::Protocol>,
)
    requires
        accounts(made, operations, handler@),
        call_ensures(Handler::<TCodec>::listen_protocol, (handler,), protocols),
    ensures
        clones(made.inbound_protocols, protocols@),
{
}

/// No event of the connection changes until when the connection is kept alive.
pub proof fn law_connection_events_leave_keep_alive<TCodec: Codec + Clone, TStream>(
    handler: &mut Handler<TCodec>,
    event: ConnectionEvent<TCodec, TStream>,
    started: Started<TCodec, TStream>,
    before: KeepAlive,
    after: KeepAlive,
)
    requires
        call_ensures(Handler::<TCodec>::connection_keep_alive, (&*old(handler),), before),
        call_ensures(Handler::<TCodec>::on_connection_event::<TStream>, (handler, event), started),
        call_ensures(Handler::<TCodec>::connection_keep_alive, (&*final(handler),), after),
    ensures
        after == before,
{
}

/// Until when a connection is kept alive is what the keep-alive of the state says.
pub proof fn law_keep_alive_is_shown<TCodec: Codec + Clone>(
    handler: &Handler<TCodec>,
    keep_alive: KeepAlive,
)
    requires
        call_ensures(Handler::<TCodec>::connection_keep_alive, (handler,), keep_alive),
    ensures
        keep_alive == handler@.keep_alive,
{
}

/// A message keeps the connection alive, whatever deadline it had.
pub proof fn law_messages_keep_alive<TCodec: Codec + Clone>(
    handler: &mut Handler<TCodec>,
    message: OutboundMessage<TCodec>,
    after: KeepAlive,
)
    requires
        call_ensures(Handler::<TCodec>::on_behaviour_event, (handler, message), ()),
        call_ensures(Handler::<TCodec>::connection_keep_alive, (&*final(handler),), after),
    ensures
        after is Yes,
{
}

/// A connection that falls idle gets its deadline the two timeouts after the given time, and
/// nothing else about it changes.
pub proof fn law_fall_idle<TCodec: Codec + Clone, TStream>(
    made: Made<TCodec>,
    operations: Seq<Operation<TCodec, TStream>>,
    handler: &mut Handler<TCodec>,
    now: u128,
    after: KeepAlive,
)
    requires
        accounts(made, operations, old(handler)@),
        offers(operations).len() == received(operations).len(),
        now <= MAX_NANOS,
        call_ensures(Handler::<TCodec>::fall_idle, (handler, now), ()),
        call_ensures(Handler::<TCodec>::connection_keep_alive, (&*final(handler),), after),
    ensures
        call_requires(Handler::<TCodec>::fall_idle, (handler, now)),
        after matches KeepAlive::Until(until) && until == now + made.substream_timeout
            + made.keep_alive_timeout,
        accounts(made, operations, final(handler)@),
{
}

/// The work on an accepted inbound substream runs on that very substream, under the protocol
/// negotiated on it, with the number and the channels that are given: it sends the request
/// where the handler receives it, and receives the response where the handler sends it.
pub proof fn law_accept_inbound<TCodec: Codec + Clone, TStream>(
    made: Made<TCodec>,
    operations: Seq<Operation<TCodec, TStream>>,
    handler: &Handler<TCodec>,
    negotiated: Negotiated<TCodec, TStream>,
    number: u64,
    request_channel: (
        oneshot::Sender<(RequestId, TCodec::Request)>,
        oneshot::Receiver<(RequestId, TCodec::Request)>,
    ),
    response_channel: (oneshot::Sender<TCodec::Response>, oneshot::Receiver<TCodec::Response>),
    started: (PendingInbound<TCodec>, InboundTask<TCodec, TStream>),
)
    requires
        accounts(made, operations, handler@),
        call_ensures(
            Handler::<TCodec>::accept_inbound::<TStream>,
            (handler, negotiated, number, request_channel, response_channel),
            started,
        ),
    ensures
        started.1.stream == negotiated.stream,
        started.1.protocol == negotiated.protocol,
        started.1.timeout == made.substream_timeout,
        cloned(made.codec, started.1.codec),
        started.1.worker.request_id == RequestId(number),
        started.1.worker.stage is Reading,
        (started.1.request_sender, started.0.request_receiver) == request_channel,
        (started.0.response_sender, started.1.response_receiver) == response_channel,
{
}

/// What a handler expects follows from what happened to it.  A settled inbound substream is
/// expected while one is accepted and not settled, and everything else that polls are fed at
/// any time.
pub proof fn law_expects_input<TCodec: Codec + Clone, TStream>(
    made: Made<TCodec>,
    operations: Seq<Operation<TCodec, TStream>>,
    handler: &mut Handler<TCodec>,
    input: PollInput<TCodec>,
    expected: bool,
)
    requires
        accounts(made, operations, old(handler)@),
        call_ensures(Handler::<TCodec>::expects_input, (&*old(handler), &input), expected),
    ensures
        expected <==> (input matches PollInput::Inbound(Some(_)) ==> settled(operations) < accepted(
            operations,
        )),
        expected ==> call_requires(Handler::<TCodec>::poll, (handler, input)),
        expected ==> may_feed(old(handler)@, input),
{
}

/// An outbound substream, or its refusal, is expected while one is requested and not
/// answered, a timeout of its upgrade never, an inbound substream while it can be counted,
/// and everything else at any time.
pub proof fn law_expects_event<TCodec: Codec + Clone, TStream>(
    made: Made<TCodec>,
    operations: Seq<Operation<TCodec, TStream>>,
    handler: &mut Handler<TCodec>,
    event: ConnectionEvent<TCodec, TStream>,
    expected: bool,
)
    requires
        accounts(made, operations, old(handler)@),
        call_ensures(Handler::<TCodec>::expects_event::<TStream>, (&*old(handler), &event), expected),
    ensures
        expected <==> match event {
            ConnectionEvent::FullyNegotiatedOutbound(_) => answered(operations) < offers(
                operations,
            ).len(),
            ConnectionEvent::DialUpgradeError(StreamUpgradeError::NegotiationFailed) => answered(
                operations,
            ) < offers(operations).len(),
            ConnectionEvent::DialUpgradeError(StreamUpgradeError::Timeout) => false,
            ConnectionEvent::FullyNegotiatedInbound(_) => accepted(operations) - settled(operations)
                < usize::MAX,
            _ => true,
        },
        expected ==> call_requires(
            Handler::<TCodec>::on_connection_event::<TStream>,
            (handler, event),
        ),
        expected ==> may_happen(old(handler)@, event),
{
}

/// A message can be given to a handler at any point of its history.
pub proof fn law_messages_are_taken<TCodec: Codec + Clone, TStream>(
    made: Made<TCodec>,
    operations: Seq<Operation<TCodec, TStream>>,
    handler: &mut Handler<TCodec>,
    message: OutboundMessage<TCodec>,
)
    requires
        accounts(made, operations, old(handler)@),
    ensures
        call_requires(Handler::<TCodec>::on_behaviour_event, (handler, message)),
{
}

} // verus!
