//! What a handler does, told by what happened to it and what it answered.

use crate::outside::MAX_NANOS;
use crate::request_response::clock::clock_shows;
use crate::request_response::handler::{
    ConnectionEvent, ConnectionHandlerEvent, HandlerState, KeepAlive, PollInput, PollOutput,
    Started, StreamUpgradeError,
};
use crate::request_response::laws::{
    accepted, answers_substream, history, law_inbound_awaited, lemma_history_prefix, operates,
    received, reported, settled, Operation,
};
use crate::request_response::message::{Codec, Event, OutboundMessage, RequestId};
use crate::request_response::outcomes::{lemma_beginning, lemma_received_beginning};
use futures::channel::oneshot;
use instant::Instant;
use std::sync::atomic::{AtomicU64, Ordering};
use std::sync::Arc;
use std::time::Duration;
use vstd::prelude::*;

verus! {

/// What a handler was made with.
pub struct Made<TCodec: Codec> {
    pub inbound_protocols: Seq<TCodec::Protocol>,
    pub codec: TCodec,
    pub keep_alive_timeout: u128,
    pub substream_timeout: u128,
    pub clock_start: Instant,
    pub counter: Arc<AtomicU64>,
}

/// The state is that of a handler just made.
pub open spec fn begins<TCodec: Codec>(made: Made<TCodec>, state: HandlerState<TCodec>) -> bool {
    &&& state.inbound_protocols == made.inbound_protocols
    &&& state.codec == made.codec
    &&& state.keep_alive_timeout == made.keep_alive_timeout <= MAX_NANOS
    &&& state.substream_timeout == made.substream_timeout <= MAX_NANOS
    &&& state.clock_start == made.clock_start
    &&& state.inbound_request_id == made.counter
    &&& state.keep_alive is Yes
    &&& state.pending_events.len() == 0
    &&& state.pending_outbound.len() == 0
    &&& state.requested_outbound.len() == 0
    &&& state.inbound == 0
}

/// A history of a handler from when it was made.
pub open spec fn lived<TCodec: Codec + Clone, TStream>(
    made: Made<TCodec>,
    states: Seq<HandlerState<TCodec>>,
    operations: Seq<Operation<TCodec, TStream>>,
) -> bool {
    &&& history(states, operations)
    &&& begins(made, states[0])
}

/// How many requests for a substream were answered, with a substream or with its refusal.
pub open spec fn answered<TCodec: Codec, TStream>(
    operations: Seq<Operation<TCodec, TStream>>,
) -> nat
    decreases operations.len(),
{
    if operations.len() == 0 {
        0
    } else if answers_substream(operations.last()) {
        answered(operations.drop_last()) + 1
    } else {
        answered(operations.drop_last())
    }
}

/// The protocols that polls requested substreams for, in order.
pub open spec fn offers<TCodec: Codec, TStream>(operations: Seq<Operation<TCodec, TStream>>) -> Seq<
    Seq<TCodec::Protocol>,
>
    decreases operations.len(),
{
    if operations.len() == 0 {
        Seq::empty()
    } else {
        let before = offers(operations.drop_last());
        match operations.last() {
            Operation::Poll(
                _,
                PollOutput::Ready(ConnectionHandlerEvent::OutboundSubstreamRequest { protocols }),
            ) => before.push(protocols@),
            _ => before,
        }
    }
}

/// The requests whose substreams were refused, in order.  The answers come in the order of
/// the requests, so each refusal is that of the first request not answered before.
pub open spec fn refused_ids<TCodec: Codec, TStream>(
    operations: Seq<Operation<TCodec, TStream>>,
) -> Seq<RequestId>
    decreases operations.len(),
{
    if operations.len() == 0 {
        Seq::empty()
    } else {
        let earlier = operations.drop_last();
        match operations.last() {
            Operation::Connection(
                ConnectionEvent::DialUpgradeError(StreamUpgradeError::NegotiationFailed),
                _,
            ) => refused_ids(earlier).push(received(earlier)[answered(earlier) as int].request_id),
            _ => refused_ids(earlier),
        }
    }
}

/// `copy` holds a clone of each item, in order, and nothing else.
pub open spec fn clones<T: Clone>(items: Seq<T>, copy: Seq<T>) -> bool {
    &&& copy.len() == items.len()
    &&& forall|x: int| 0 <= x < copy.len() ==> cloned(items[x], #[trigger] copy[x])
}

/// The time since `start`, in nanoseconds, as some reading of the clock gives it.
pub open spec fn reads(start: Instant, nanos: u128) -> bool {
    exists|instant: Instant, elapsed: Duration|
        {
            &&& call_ensures(Instant::now, (), instant)
            &&& #[trigger] call_ensures(
                Instant::saturating_duration_since,
                (&instant, start),
                elapsed,
            )
            &&& call_ensures(Duration::as_nanos, (&elapsed,), nanos)
        }
}

/// The state of a handler follows from what happened to it: the requests taken are those
/// answered, those whose substream was requested since, and the rest, in this order; the
/// refusals are those reported and those still queued; the inbound substreams awaited are
/// those accepted and not settled; and what the handler was made with stays.
pub open spec fn accounts<TCodec: Codec, TStream>(
    made: Made<TCodec>,
    operations: Seq<Operation<TCodec, TStream>>,
    state: HandlerState<TCodec>,
) -> bool {
    let (a, o) = (answered(operations) as int, offers(operations).len() as int);
    let (all, refused) = (received(operations), refused_ids(operations));
    let told = reported(operations).len() as int;
    &&& a <= o <= all.len()
    &&& state.requested_outbound == all.subrange(a, o)
    &&& state.pending_outbound == all.subrange(o, all.len() as int)
    &&& told + state.pending_events.len() == refused.len()
    &&& forall|x: int|
        0 <= x < state.pending_events.len() ==> #[trigger] state.pending_events[x] == Event::<
            TCodec,
        >::OutboundUnsupportedProtocols(refused[told + x])
    &&& settled(operations) <= accepted(operations)
    &&& state.inbound == accepted(operations) - settled(operations)
    &&& state.inbound_protocols == made.inbound_protocols
    &&& state.codec == made.codec
    &&& state.keep_alive_timeout == made.keep_alive_timeout
    &&& state.substream_timeout == made.substream_timeout
    &&& state.clock_start == made.clock_start
    &&& state.inbound_request_id == made.counter
    &&& state.valid()
}

/// The state at the end of a history accounts for it, every substream was requested for the
/// protocols of its message, and every report from the queue is that of its refusal.
pub proof fn law_history_accounts<TCodec: Codec + Clone, TStream>(
    made: Made<TCodec>,
    states: Seq<HandlerState<TCodec>>,
    operations: Seq<Operation<TCodec, TStream>>,
)
    requires
        lived(made, states, operations),
    ensures
        accounts(made, operations, states.last()),
        forall|k: int|
            0 <= k < offers(operations).len() ==> clones(
                received(operations)[k].protocols@,
                #[trigger] offers(operations)[k],
            ),
        forall|k: int|
            0 <= k < reported(operations).len() ==> #[trigger] reported(operations)[k] == Event::<
                TCodec,
            >::OutboundUnsupportedProtocols(refused_ids(operations)[k]),
    decreases operations.len(),
{
    let post = states.last();
    law_inbound_awaited(states, operations);
    if operations.len() == 0 {
        let all = received(operations);
        assert(post.requested_outbound =~= all.subrange(0, 0));
        assert(post.pending_outbound =~= all.subrange(0, 0));
    } else {
        let earlier = operations.drop_last();
        let pre = states.drop_last().last();
        lemma_history_prefix(states, operations);
        assert(states.drop_last()[0] == states[0]);
        law_history_accounts(made, states.drop_last(), earlier);
        let (a, o) = (answered(earlier) as int, offers(earlier).len() as int);
        let n = received(earlier).len() as int;
        let all = received(operations);
        match operations.last() {
            Operation::Behaviour(request) => {
                assert(post.requested_outbound =~= all.subrange(a, o));
                assert(post.pending_outbound =~= all.subrange(o, n + 1));
            },
            Operation::Poll(input, output) => {
                if output matches PollOutput::Ready(
                    ConnectionHandlerEvent::OutboundSubstreamRequest { .. },
                ) {
                    assert(pre.pending_outbound.first() == all[o]);
                    assert(post.requested_outbound =~= all.subrange(a, o + 1));
                    assert(post.pending_outbound =~= all.subrange(o + 1, n));
                }
            },
            Operation::Connection(event, started) => {
                if answers_substream(operations.last()) {
                    assert(pre.requested_outbound.first() == all[a]);
                    assert(post.requested_outbound =~= all.subrange(a + 1, o));
                }
            },
        }
    }
}

/// The state before each operation accounts for the operations before it.
proof fn lemma_accounts_before<TCodec: Codec + Clone, TStream>(
    made: Made<TCodec>,
    states: Seq<HandlerState<TCodec>>,
    operations: Seq<Operation<TCodec, TStream>>,
    i: int,
)
    requires
        lived(made, states, operations),
        0 <= i <= operations.len(),
    ensures
        accounts(made, operations.take(i), states[i]),
        i < operations.len() ==> operates(states[i], operations[i], states[i + 1]),
{
    lemma_beginning(states, operations, i);
    law_history_accounts(made, states.take(i + 1), operations.take(i));
    if i < operations.len() {
        assert(operates(states[i], operations[i], states[i + 1]));
    }
}

/// The substream of each request is requested for the protocols of that request: the
/// protocols that polls return in their requests for substreams, in order, are clones of
/// those of the messages taken from the behaviour, in order.
pub proof fn law_substreams_offer_protocols<TCodec: Codec + Clone, TStream>(
    made: Made<TCodec>,
    states: Seq<HandlerState<TCodec>>,
    operations: Seq<Operation<TCodec, TStream>>,
    k: int,
)
    requires
        lived(made, states, operations),
        0 <= k < offers(operations).len(),
    ensures
        offers(operations).len() <= received(operations).len(),
        clones(received(operations)[k].protocols@, offers(operations)[k]),
{
    law_history_accounts(made, states, operations);
}

/// Refusals are reported in order, each under the identifier of the request refused, and
/// nothing else is reported from the queue.
pub proof fn law_queue_reports_refusals<TCodec: Codec + Clone, TStream>(
    made: Made<TCodec>,
    states: Seq<HandlerState<TCodec>>,
    operations: Seq<Operation<TCodec, TStream>>,
    k: int,
)
    requires
        lived(made, states, operations),
        0 <= k < reported(operations).len(),
    ensures
        reported(operations).len() <= refused_ids(operations).len(),
        reported(operations)[k] == Event::<TCodec>::OutboundUnsupportedProtocols(
            refused_ids(operations)[k],
        ),
{
    law_history_accounts(made, states, operations);
}

/// What a poll answers to each input follows from what happened before.  Finished work is
/// reported, failed work passed over.  With no work done, the first refusal not reported yet
/// is.  A request of the remote is reported as it came, and a substream that brings none
/// passed over.  With nothing from the remote, a substream is requested for the first
/// message that has none yet, for the protocols of that message.  Only if there is none
/// either the poll is pending.
pub proof fn law_poll_answers<TCodec: Codec + Clone, TStream>(
    made: Made<TCodec>,
    states: Seq<HandlerState<TCodec>>,
    operations: Seq<Operation<TCodec, TStream>>,
    i: int,
    input: PollInput<TCodec>,
    output: PollOutput<TCodec>,
)
    requires
        lived(made, states, operations),
        0 <= i < operations.len(),
        operations[i] == Operation::<TCodec, TStream>::Poll(input, output),
    ensures
        ({
            let before = operations.take(i);
            match input {
                PollInput::Start => output is PollWorkers,
                PollInput::Worker(Some(Ok(event))) => output == PollOutput::Ready(
                    ConnectionHandlerEvent::Custom(event),
                ),
                PollInput::Worker(Some(Err(_))) => output is PollWorkers,
                PollInput::Worker(None) => {
                    let told = reported(before).len() as int;
                    if told < refused_ids(before).len() {
                        output == PollOutput::Ready(
                            ConnectionHandlerEvent::<TCodec>::Custom(
                                Event::OutboundUnsupportedProtocols(refused_ids(before)[told]),
                            ),
                        )
                    } else {
                        output is PollInbound
                    }
                },
                PollInput::Inbound(Some(Ok(inbound))) => {
                    &&& output matches PollOutput::Ready(
                        ConnectionHandlerEvent::Custom(
                            Event::Request { request_id, request, sender },
                        ),
                    )
                    &&& request_id == inbound.request_id
                    &&& request == inbound.request
                    &&& sender == inbound.sender
                },
                PollInput::Inbound(Some(Err(_))) => output is PollInbound,
                PollInput::Inbound(None) => {
                    let next = offers(before).len() as int;
                    if next < received(before).len() {
                        &&& output matches PollOutput::Ready(
                            ConnectionHandlerEvent::OutboundSubstreamRequest { protocols },
                        )
                        &&& clones(received(before)[next].protocols@, protocols@)
                    } else {
                        output is Pending
                    }
                },
            }
        }),
{
    lemma_accounts_before(made, states, operations, i);
}

/// A negotiated outbound substream serves the first message not answered before: the work
/// that it starts runs on that very substream, under the protocol negotiated on it, with a
/// clone of the codec and the substream timeout that the handler was made with, and begins
/// by writing the request of that message.
pub proof fn law_outbound_work<TCodec: Codec + Clone, TStream>(
    made: Made<TCodec>,
    states: Seq<HandlerState<TCodec>>,
    operations: Seq<Operation<TCodec, TStream>>,
    i: int,
)
    requires
        lived(made, states, operations),
        0 <= i < operations.len(),
        operations[i] matches Operation::Connection(ConnectionEvent::FullyNegotiatedOutbound(_), _),
    ensures
        operations[i] matches Operation::Connection(
            ConnectionEvent::FullyNegotiatedOutbound(negotiated),
            Started::Outbound(task),
        ) && {
            let message = received(operations)[answered(operations.take(i)) as int];
            &&& answered(operations.take(i)) < received(operations).len()
            &&& task.stream == negotiated.stream
            &&& task.protocol == negotiated.protocol
            &&& task.timeout == made.substream_timeout
            &&& cloned(made.codec, task.codec)
            &&& task.request == message.request
            &&& task.worker.request_id == message.request_id
            &&& task.worker.stage is Writing
        },
{
    lemma_accounts_before(made, states, operations, i);
    lemma_received_beginning(operations, i);
}

/// A negotiated inbound substream starts work on that very substream, under the protocol
/// negotiated on it, with a clone of the codec and the substream timeout that the handler
/// was made with.  The work begins by reading, under a number drawn from the counter that
/// the handler was made with.  One channel leads from the work to what the handler awaits,
/// another one back.
pub proof fn law_inbound_work<TCodec: Codec + Clone, TStream>(
    made: Made<TCodec>,
    states: Seq<HandlerState<TCodec>>,
    operations: Seq<Operation<TCodec, TStream>>,
    i: int,
)
    requires
        lived(made, states, operations),
        0 <= i < operations.len(),
        operations[i] matches Operation::Connection(ConnectionEvent::FullyNegotiatedInbound(_), _),
    ensures
        operations[i] matches Operation::Connection(
            ConnectionEvent::FullyNegotiatedInbound(negotiated),
            Started::Inbound(pending, task),
        ) && {
            &&& task.stream == negotiated.stream
            &&& task.protocol == negotiated.protocol
            &&& task.timeout == made.substream_timeout
            &&& cloned(made.codec, task.codec)
            &&& task.worker.stage is Reading
            &&& call_ensures(
                AtomicU64::fetch_add,
                (&*made.counter, 1u64, Ordering::Relaxed),
                task.worker.request_id.0,
            )
            &&& call_ensures(
                oneshot::channel::<(RequestId, TCodec::Request)>,
                (),
                (task.request_sender, pending.request_receiver),
            )
            &&& call_ensures(
                oneshot::channel::<TCodec::Response>,
                (),
                (pending.response_sender, task.response_receiver),
            )
        },
{
    lemma_accounts_before(made, states, operations, i);
}

/// Any other event of the connection starts no work, and but for a refusal it changes
/// nothing.
pub proof fn law_other_events<TCodec: Codec + Clone, TStream>(
    made: Made<TCodec>,
    states: Seq<HandlerState<TCodec>>,
    operations: Seq<Operation<TCodec, TStream>>,
    i: int,
    event: ConnectionEvent<TCodec, TStream>,
    started: Started<TCodec, TStream>,
)
    requires
        lived(made, states, operations),
        0 <= i < operations.len(),
        operations[i] == Operation::Connection(event, started),
        !(event is FullyNegotiatedInbound),
        !(event is FullyNegotiatedOutbound),
    ensures
        started is Nothing,
        event == ConnectionEvent::<TCodec, TStream>::DialUpgradeError(
            StreamUpgradeError::NegotiationFailed,
        ) || states[i + 1] == states[i],
{
    lemma_accounts_before(made, states, operations, i);
}

/// Only an idle poll gives a connection a deadline.  Where a connection that was kept alive
/// gets one, a poll found no request from either side, every message has had its substream
/// requested and every inbound substream is settled, and the deadline is the time of that
/// poll, the substream timeout and the keep-alive timeout taken together.
pub proof fn law_only_idle_polls_set_deadlines<TCodec: Codec + Clone, TStream>(
    made: Made<TCodec>,
    states: Seq<HandlerState<TCodec>>,
    operations: Seq<Operation<TCodec, TStream>>,
    i: int,
)
    requires
        lived(made, states, operations),
        0 <= i < operations.len(),
        states[i].keep_alive is Yes,
        states[i + 1].keep_alive is Until,
    ensures
        operations[i] matches Operation::Poll(PollInput::Inbound(None), PollOutput::Pending),
        offers(operations.take(i)).len() == received(operations.take(i)).len(),
        settled(operations.take(i)) == accepted(operations.take(i)),
        exists|now: u128|
            {
                &&& #[trigger] reads(made.clock_start, now)
                &&& states[i + 1].keep_alive->0 == now + made.substream_timeout
                    + made.keep_alive_timeout
            },
{
    lemma_accounts_before(made, states, operations, i);
    lemma_idle(states[i], states[i + 1]);
}

/// A state that follows on an idle poll has its deadline from a reading of the clock.
proof fn lemma_idle<TCodec: Codec>(pre: HandlerState<TCodec>, post: HandlerState<TCodec>)
    requires
        pre.valid(),
    ensures
        forall|now: u128| #[trigger]
            clock_shows(pre.clock_start, now) && post == pre.idle_at(now) ==> {
                &&& reads(pre.clock_start, now)
                &&& post.keep_alive == KeepAlive::Until(
                    (now + pre.substream_timeout + pre.keep_alive_timeout) as u128,
                )
                &&& now + pre.substream_timeout + pre.keep_alive_timeout <= u128::MAX
            },
{
    assert forall|now: u128| #[trigger]
        clock_shows(pre.clock_start, now) && post == pre.idle_at(now) implies {
        &&& reads(pre.clock_start, now)
        &&& now <= MAX_NANOS
    } by {
        let (instant, elapsed) = choose|instant: Instant, elapsed: Duration|
            {
                &&& call_ensures(Instant::now, (), instant)
                &&& #[trigger] call_ensures(
                    Instant::saturating_duration_since,
                    (&instant, pre.clock_start),
                    elapsed,
                )
                &&& call_ensures(Duration::as_nanos, (&elapsed,), now)
            };
        assert(call_ensures(
            Instant::saturating_duration_since,
            (&instant, pre.clock_start),
            elapsed,
        ));
    }
}

/// How the keep-alive moves.  A handler is made to keep its connection alive.  A request,
/// from either side, keeps it alive.  A poll that finds no request, with every inbound
/// substream settled and every message sent on its way, gives a connection that is kept alive a
/// deadline.  Nothing else changes it: no event of the connection does, no report, and no
/// poll while there is something left to wait for or to request.
pub proof fn law_keep_alive<TCodec: Codec + Clone, TStream>(
    made: Made<TCodec>,
    states: Seq<HandlerState<TCodec>>,
    operations: Seq<Operation<TCodec, TStream>>,
    i: int,
)
    requires
        lived(made, states, operations),
        0 <= i < operations.len(),
    ensures
        states[0].keep_alive is Yes,
        match operations[i] {
            Operation::Behaviour(_) => states[i + 1].keep_alive is Yes,
            Operation::Poll(PollInput::Inbound(Some(Ok(_))), _) => states[i + 1].keep_alive is Yes,
            Operation::Poll(PollInput::Inbound(None), _) => {
                let before = operations.take(i);
                if states[i].keep_alive is Yes && settled(before) == accepted(before) && offers(
                    before,
                ).len() == received(before).len() {
                    exists|now: u128|
                        {
                            &&& #[trigger] reads(made.clock_start, now)
                            &&& states[i + 1].keep_alive == KeepAlive::Until(
                                (now + made.substream_timeout + made.keep_alive_timeout) as u128,
                            )
                            &&& now + made.substream_timeout + made.keep_alive_timeout <= u128::MAX
                        }
                } else {
                    states[i + 1].keep_alive == states[i].keep_alive
                }
            },
            _ => states[i + 1].keep_alive == states[i].keep_alive,
        },
{
    lemma_accounts_before(made, states, operations, i);
    lemma_idle(states[i], states[i + 1]);
}

} // verus!
