//! What holds of the handler and of its substreams over time.

use crate::outside::MAX_NANOS;
use crate::request_response::clock::clock_shows;
use crate::request_response::handler::{
    connection_turn, may_feed, may_happen, poll_turn, ConnectionEvent, ConnectionHandlerEvent,
    HandlerState, KeepAlive, PollInput, PollOutput, Started, StreamUpgradeError,
};
use crate::request_response::message::{Codec, Event, OutboundMessage, RequestId};
use crate::request_response::worker::{
    inbound_expects, inbound_next, outbound_expects, outbound_next, InboundAction, InboundInput,
    InboundStage, OutboundAction, OutboundInput, OutboundStage, WorkerError,
};
use vstd::prelude::*;

verus! {

/// One turn of a poll, with the states around it.
pub struct PollTurn<TCodec: Codec> {
    pub pre: HandlerState<TCodec>,
    pub input: PollInput<TCodec>,
    pub output: PollOutput<TCodec>,
    pub post: HandlerState<TCodec>,
}

/// Whether `input` answers what `output` asks for.
pub open spec fn answers<TCodec: Codec>(
    output: PollOutput<TCodec>,
    input: PollInput<TCodec>,
) -> bool {
    match output {
        PollOutput::PollWorkers => input is Worker,
        PollOutput::PollInbound => input is Inbound,
        _ => false,
    }
}

/// A whole poll: its turns follow on one another from the start, each one answers
/// what the one before it asked for, and the last one ends the poll.
pub open spec fn poll_run<TCodec: Codec>(turns: Seq<PollTurn<TCodec>>) -> bool {
    &&& turns.len() > 0
    &&& turns[0].input is Start
    &&& forall|i: int|
        0 <= i < turns.len() ==> {
            let turn = #[trigger] turns[i];
            &&& may_feed(turn.pre, turn.input)
            &&& poll_turn(turn.pre, turn.input, turn.post, turn.output)
        }
    &&& forall|i: int|
        0 < i < turns.len() ==> {
            &&& #[trigger] turns[i].pre == turns[i - 1].post
            &&& answers(turns[i - 1].output, turns[i].input)
        }
    &&& turns.last().output is Ready || turns.last().output is Pending
}

/// How many inbound substreams turned out to have no request.
pub open spec fn canceled<TCodec: Codec>(turns: Seq<PollTurn<TCodec>>) -> nat
    decreases turns.len(),
{
    if turns.len() == 0 {
        0
    } else {
        let before = canceled(turns.drop_last());
        if turns.last().input matches PollInput::Inbound(Some(Err(_))) {
            before + 1
        } else {
            before
        }
    }
}

/// The state of a handler after `count` inbound substreams were forgotten.
pub open spec fn forgetting<TCodec: Codec>(
    state: HandlerState<TCodec>,
    count: nat,
) -> HandlerState<TCodec> {
    HandlerState { inbound: (state.inbound - count) as nat, ..state }
}

/// Up to the last turn of a poll the only change is that inbound substreams without a
/// request are forgotten, and the queue of events is empty once the inbound substreams
/// have been polled.
proof fn lemma_poll_prefix<TCodec: Codec>(turns: Seq<PollTurn<TCodec>>, i: int)
    requires
        poll_run(turns),
        0 <= i < turns.len(),
    ensures
        canceled(turns.take(i)) <= turns[0].pre.inbound,
        turns[i].pre == forgetting(turns[0].pre, canceled(turns.take(i))),
        i > 0 ==> !(turns[i].input is Start),
        turns[i].input is Start || turns[i].input is Worker ==> canceled(turns.take(i)) == 0,
        turns[i].input is Inbound ==> turns[0].pre.pending_events.len() == 0,
    decreases i,
{
    if i == 0 {
        assert(turns.take(0).len() == 0);
        assert(turns[0].pre == forgetting(turns[0].pre, 0));
    } else {
        lemma_poll_prefix(turns, i - 1);
        let before = turns[i - 1];
        assert(may_feed(before.pre, before.input));
        assert(poll_turn(before.pre, before.input, before.post, before.output));
        assert(turns[i].pre == turns[i - 1].post && answers(turns[i - 1].output, turns[i].input));
        assert(turns.take(i).drop_last() =~= turns.take(i - 1));
        assert(turns.take(i).last() == before);
    }
}

/// A poll serves one source, in a fixed order.  First the work on substreams: an
/// event of it is reported and changes nothing.  Then the queued events, then
/// requests from the remote, then requests to the remote.  Only a poll that finds
/// none of these is pending, and then the connection falls idle if no inbound
/// substream is left.  What was polled before without a result left no trace, except
/// that inbound substreams without a request were forgotten: otherwise the effect of
/// the poll is the effect of its last turn.
pub proof fn law_poll_order<TCodec: Codec>(turns: Seq<PollTurn<TCodec>>)
    requires
        poll_run(turns),
    ensures
        ({
            let pre = turns[0].pre;
            let last = turns.last();
            let forgotten = canceled(turns.drop_last());
            &&& forgotten <= pre.inbound
            &&& poll_turn(forgetting(pre, forgotten), last.input, last.post, last.output)
            // Only the last answer of a set of futures can end the poll.
            &&& forall|i: int|
                #![trigger turns[i]]
                0 <= i < turns.len() - 1 ==> {
                    &&& !(turns[i].input matches PollInput::Worker(Some(Ok(_))))
                    &&& !(turns[i].input matches PollInput::Inbound(Some(Ok(_))))
                }
            &&& match last.input {
                PollInput::Worker(Some(Ok(event))) => {
                    &&& last.post == pre
                    &&& last.output == PollOutput::Ready(ConnectionHandlerEvent::Custom(event))
                },
                PollInput::Worker(_) => {
                    &&& pre.pending_events.len() > 0
                    &&& last.output == PollOutput::Ready(
                        ConnectionHandlerEvent::Custom(pre.pending_events.first()),
                    )
                },
                PollInput::Inbound(Some(Ok(inbound))) => {
                    &&& pre.pending_events.len() == 0
                    &&& last.output matches PollOutput::Ready(
                        ConnectionHandlerEvent::Custom(Event::Request { request_id, .. }),
                    )
                    &&& request_id == inbound.request_id
                    &&& last.post.keep_alive is Yes
                },
                PollInput::Inbound(_) => {
                    &&& pre.pending_events.len() == 0
                    &&& last.output is Pending <==> pre.pending_outbound.len() == 0
                    &&& last.post.keep_alive is Until <==> {
                        ||| pre.keep_alive is Until
                        ||| pre.pending_outbound.len() == 0 && pre.inbound == forgotten
                    }
                },
                PollInput::Start => false,
            }
        }),
{
    let n = turns.len() as int;
    lemma_poll_prefix(turns, n - 1);
    let last = turns[n - 1];
    assert(turns.take(n - 1) =~= turns.drop_last());
    assert(may_feed(last.pre, last.input));
    assert(poll_turn(last.pre, last.input, last.post, last.output));
    assert forall|i: int| #![trigger turns[i]] 0 <= i < n - 1 implies {
        &&& !(turns[i].input matches PollInput::Worker(Some(Ok(_))))
        &&& !(turns[i].input matches PollInput::Inbound(Some(Ok(_))))
    } by {
        let turn = turns[i];
        assert(poll_turn(turn.pre, turn.input, turn.post, turn.output));
        assert(turns[i + 1].pre == turns[i].post && answers(turns[i].output, turns[i + 1].input));
    }
}

/// Something that happened to a handler, with what the handler made of it.
pub enum Operation<TCodec: Codec, TStream> {
    Behaviour(OutboundMessage<TCodec>),
    Poll(PollInput<TCodec>, PollOutput<TCodec>),
    Connection(ConnectionEvent<TCodec, TStream>, Started<TCodec, TStream>),
}

/// The operation leads from `pre` to `post`.
pub open spec fn operates<TCodec: Codec + Clone, TStream>(
    pre: HandlerState<TCodec>,
    operation: Operation<TCodec, TStream>,
    post: HandlerState<TCodec>,
) -> bool {
    match operation {
        Operation::Behaviour(request) => post == HandlerState {
            keep_alive: KeepAlive::Yes,
            pending_outbound: pre.pending_outbound.push(request),
            ..pre
        },
        Operation::Poll(input, output) => {
            &&& may_feed(pre, input)
            &&& poll_turn(pre, input, post, output)
        },
        Operation::Connection(event, started) => {
            &&& may_happen(pre, event)
            &&& connection_turn(pre, event, post, started)
        },
    }
}

/// The operations lead from each state to the next.
pub open spec fn history<TCodec: Codec + Clone, TStream>(
    states: Seq<HandlerState<TCodec>>,
    operations: Seq<Operation<TCodec, TStream>>,
) -> bool {
    &&& states.len() == operations.len() + 1
    &&& forall|i: int|
        0 <= i < operations.len() ==> operates(states[i], #[trigger] operations[i], states[i + 1])
}

/// The requests that were taken from the behaviour, in order.
pub open spec fn received<TCodec: Codec, TStream>(
    operations: Seq<Operation<TCodec, TStream>>,
) -> Seq<OutboundMessage<TCodec>>
    decreases operations.len(),
{
    if operations.len() == 0 {
        Seq::empty()
    } else {
        let before = received(operations.drop_last());
        match operations.last() {
            Operation::Behaviour(request) => before.push(request),
            _ => before,
        }
    }
}

/// Whether the operation answers a request for a substream: with a substream, or
/// with its refusal.
pub open spec fn answers_substream<TCodec: Codec, TStream>(
    operation: Operation<TCodec, TStream>,
) -> bool {
    match operation {
        Operation::Connection(ConnectionEvent::FullyNegotiatedOutbound(_), _) => true,
        Operation::Connection(
            ConnectionEvent::DialUpgradeError(StreamUpgradeError::NegotiationFailed),
            _,
        ) => true,
        _ => false,
    }
}

/// The requests whose substreams were answered, in order: at each answer, the one
/// that the handler serves with it.
pub open spec fn served<TCodec: Codec, TStream>(
    states: Seq<HandlerState<TCodec>>,
    operations: Seq<Operation<TCodec, TStream>>,
) -> Seq<OutboundMessage<TCodec>>
    decreases operations.len(),
{
    if operations.len() == 0 {
        Seq::empty()
    } else {
        let before = served(states.drop_last(), operations.drop_last());
        if answers_substream(operations.last()) {
            before.push(states[operations.len() - 1].requested_outbound.first())
        } else {
            before
        }
    }
}

/// The requests that wait, for a substream to be requested or to be answered.
pub open spec fn waiting<TCodec: Codec>(state: HandlerState<TCodec>) -> Seq<
    OutboundMessage<TCodec>,
> {
    state.requested_outbound + state.pending_outbound
}

pub(crate) proof fn lemma_history_prefix<TCodec: Codec + Clone, TStream>(
    states: Seq<HandlerState<TCodec>>,
    operations: Seq<Operation<TCodec, TStream>>,
)
    requires
        history(states, operations),
        operations.len() > 0,
    ensures
        history(states.drop_last(), operations.drop_last()),
        states.drop_last().last() == states[operations.len() - 1],
        operates(states.drop_last().last(), operations.last(), states.last()),
{
    let n = operations.len() as int;
    assert(operates(states[n - 1], operations[n - 1], states[n]));
    assert forall|i: int| 0 <= i < n - 1 implies operates(
        states.drop_last()[i],
        #[trigger] operations.drop_last()[i],
        states.drop_last()[i + 1],
    ) by {
        assert(operates(states[i], operations[i], states[i + 1]));
    }
}

/// Requests are served in the order in which they were taken, and none is lost or
/// served twice: those served so far, followed by those that wait, are those that
/// waited at first, followed by those taken since.
pub proof fn law_requests_in_order<TCodec: Codec + Clone, TStream>(
    states: Seq<HandlerState<TCodec>>,
    operations: Seq<Operation<TCodec, TStream>>,
)
    requires
        history(states, operations),
    ensures
        served(states, operations) + waiting(states.last()) == waiting(states[0]) + received(
            operations,
        ),
    decreases operations.len(),
{
    if operations.len() == 0 {
        assert(served(states, operations) + waiting(states.last()) =~= waiting(states[0])
            + received(operations));
    } else {
        lemma_history_prefix(states, operations);
        law_requests_in_order(states.drop_last(), operations.drop_last());
        let pre = states.drop_last().last();
        let post = states.last();
        let served_before = served(states.drop_last(), operations.drop_last());
        let received_before = received(operations.drop_last());
        assert(states.drop_last()[0] == states[0]);
        assert(served_before + waiting(pre) == waiting(states[0]) + received_before);
        match operations.last() {
            Operation::Behaviour(request) => {
                assert(waiting(post) =~= waiting(pre).push(request));
                assert(served_before + waiting(post) =~= (served_before + waiting(pre)).push(
                    request,
                ));
                assert(waiting(states[0]) + received_before.push(request) =~= (waiting(states[0])
                    + received_before).push(request));
            },
            Operation::Poll(input, output) => {
                assert(waiting(post) =~= waiting(pre));
            },
            Operation::Connection(event, started) => {
                if answers_substream(operations.last()) {
                    assert(waiting(pre).first() == pre.requested_outbound.first());
                    assert(waiting(post) =~= waiting(pre).drop_first());
                    assert(served_before.push(pre.requested_outbound.first()) + waiting(post)
                        =~= served_before + waiting(pre));
                } else {
                    assert(waiting(post) =~= waiting(pre));
                }
            },
        }
    }
}

/// The requests whose substreams were requested, in order: at each poll that requests a
/// substream, the one that the handler requests it for.
pub open spec fn requested<TCodec: Codec, TStream>(
    states: Seq<HandlerState<TCodec>>,
    operations: Seq<Operation<TCodec, TStream>>,
) -> Seq<OutboundMessage<TCodec>>
    decreases operations.len(),
{
    if operations.len() == 0 {
        Seq::empty()
    } else {
        let before = requested(states.drop_last(), operations.drop_last());
        match operations.last() {
            Operation::Poll(
                _,
                PollOutput::Ready(ConnectionHandlerEvent::OutboundSubstreamRequest { .. }),
            ) => before.push(states[operations.len() - 1].pending_outbound.first()),
            _ => before,
        }
    }
}

/// Substreams are requested in the order in which the requests were taken, and answered in
/// the order in which they were requested.  Those requested so far, followed by those that
/// wait to be, are those that waited at first, followed by those taken since: of a new
/// handler, all that were taken.  Those answered so far, followed by those that wait for an
/// answer, are those that waited for one at first, followed by those requested since.
pub proof fn law_substreams_in_order<TCodec: Codec + Clone, TStream>(
    states: Seq<HandlerState<TCodec>>,
    operations: Seq<Operation<TCodec, TStream>>,
)
    requires
        history(states, operations),
    ensures
        requested(states, operations) + states.last().pending_outbound
            == states[0].pending_outbound + received(operations),
        states[0].pending_outbound.len() == 0 ==> requested(states, operations)
            + states.last().pending_outbound == received(operations),
        served(states, operations) + states.last().requested_outbound
            == states[0].requested_outbound + requested(states, operations),
    decreases operations.len(),
{
    let (first, last) = (states[0], states.last());
    if operations.len() == 0 {
        assert(requested(states, operations) + last.pending_outbound =~= first.pending_outbound
            + received(operations));
        assert(served(states, operations) + last.requested_outbound =~= first.requested_outbound
            + requested(states, operations));
    } else {
        lemma_history_prefix(states, operations);
        law_substreams_in_order(states.drop_last(), operations.drop_last());
        let pre = states.drop_last().last();
        let requested_before = requested(states.drop_last(), operations.drop_last());
        let served_before = served(states.drop_last(), operations.drop_last());
        let received_before = received(operations.drop_last());
        assert(states.drop_last()[0] == first);
        match operations.last() {
            Operation::Behaviour(request) => {
                assert(requested_before + last.pending_outbound =~= (requested_before
                    + pre.pending_outbound).push(request));
                assert(first.pending_outbound + received_before.push(request) =~= (
                first.pending_outbound + received_before).push(request));
            },
            Operation::Poll(
                _,
                PollOutput::Ready(ConnectionHandlerEvent::OutboundSubstreamRequest { .. }),
            ) => {
                let message = pre.pending_outbound.first();
                assert(requested_before.push(message) + last.pending_outbound =~= requested_before
                    + pre.pending_outbound);
                assert(served_before + last.requested_outbound =~= (served_before
                    + pre.requested_outbound).push(message));
                assert(first.requested_outbound + requested_before.push(message) =~= (
                first.requested_outbound + requested_before).push(message));
            },
            _ => {
                if answers_substream(operations.last()) {
                    assert(served_before.push(pre.requested_outbound.first())
                        + last.requested_outbound =~= served_before + pre.requested_outbound);
                }
            },
        }
    }
    assert(states[0].pending_outbound.len() == 0 ==> states[0].pending_outbound + received(
        operations,
    ) =~= received(operations));
}

/// The reports of refused requests, in the order of the refusals.
pub open spec fn refused<TCodec: Codec, TStream>(
    states: Seq<HandlerState<TCodec>>,
    operations: Seq<Operation<TCodec, TStream>>,
) -> Seq<Event<TCodec>>
    decreases operations.len(),
{
    if operations.len() == 0 {
        Seq::empty()
    } else {
        let before = refused(states.drop_last(), operations.drop_last());
        match operations.last() {
            Operation::Connection(
                ConnectionEvent::DialUpgradeError(StreamUpgradeError::NegotiationFailed),
                _,
            ) => before.push(
                Event::OutboundUnsupportedProtocols(
                    states[operations.len() - 1].requested_outbound.first().request_id,
                ),
            ),
            _ => before,
        }
    }
}

/// The events that polls reported on finding no work on a substream done, in order.
pub open spec fn reported<TCodec: Codec, TStream>(
    operations: Seq<Operation<TCodec, TStream>>,
) -> Seq<Event<TCodec>>
    decreases operations.len(),
{
    if operations.len() == 0 {
        Seq::empty()
    } else {
        let before = reported(operations.drop_last());
        match operations.last() {
            Operation::Poll(
                PollInput::Worker(None),
                PollOutput::Ready(ConnectionHandlerEvent::Custom(event)),
            ) => before.push(event),
            _ => before,
        }
    }
}

/// Every refusal is reported once, in order, and nothing else is queued: the events
/// reported from the queue, followed by those still in it, are those that were in it
/// at first, followed by the reports of the requests refused since.
pub proof fn law_refusals_reported<TCodec: Codec + Clone, TStream>(
    states: Seq<HandlerState<TCodec>>,
    operations: Seq<Operation<TCodec, TStream>>,
)
    requires
        history(states, operations),
    ensures
        reported(operations) + states.last().pending_events == states[0].pending_events + refused(
            states,
            operations,
        ),
    decreases operations.len(),
{
    if operations.len() == 0 {
        assert(reported(operations) + states.last().pending_events =~= states[0].pending_events
            + refused(states, operations));
    } else {
        lemma_history_prefix(states, operations);
        law_refusals_reported(states.drop_last(), operations.drop_last());
        let pre = states.drop_last().last();
        let post = states.last();
        let reported_before = reported(operations.drop_last());
        let refused_before = refused(states.drop_last(), operations.drop_last());
        assert(states.drop_last()[0] == states[0]);
        match operations.last() {
            Operation::Connection(
                ConnectionEvent::DialUpgradeError(StreamUpgradeError::NegotiationFailed),
                _,
            ) => {
                let event = Event::OutboundUnsupportedProtocols(
                    pre.requested_outbound.first().request_id,
                );
                assert(post.pending_events == pre.pending_events.push(event));
                assert(reported_before + post.pending_events =~= (reported_before
                    + pre.pending_events).push(event));
                assert(states[0].pending_events + refused_before.push(event) =~= (
                states[0].pending_events + refused_before).push(event));
            },
            Operation::Poll(
                PollInput::Worker(None),
                PollOutput::Ready(ConnectionHandlerEvent::Custom(event)),
            ) => {
                assert(pre.pending_events.len() > 0);
                assert(reported_before.push(event) + post.pending_events =~= reported_before
                    + pre.pending_events);
            },
            _ => {
                assert(post.pending_events == pre.pending_events);
            },
        }
    }
}

/// In every state the connection is kept alive while requests wait for a substream
/// to be requested, and what the handler was made with never changes.
pub proof fn law_requests_keep_alive<TCodec: Codec + Clone, TStream>(
    states: Seq<HandlerState<TCodec>>,
    operations: Seq<Operation<TCodec, TStream>>,
    i: int,
)
    requires
        history(states, operations),
        states[0].valid(),
        0 <= i < states.len(),
    ensures
        states[i].valid(),
        states[i].inbound_protocols == states[0].inbound_protocols,
        states[i].codec == states[0].codec,
        states[i].keep_alive_timeout == states[0].keep_alive_timeout,
        states[i].substream_timeout == states[0].substream_timeout,
        states[i].clock_start == states[0].clock_start,
        states[i].inbound_request_id == states[0].inbound_request_id,
    decreases i,
{
    if i > 0 {
        law_requests_keep_alive(states, operations, i - 1);
        assert(operates(states[i - 1], operations[i - 1], states[i - 1 + 1]));
    }
}

/// How many inbound substreams were negotiated.
pub open spec fn accepted<TCodec: Codec, TStream>(
    operations: Seq<Operation<TCodec, TStream>>,
) -> nat
    decreases operations.len(),
{
    if operations.len() == 0 {
        0
    } else {
        let before = accepted(operations.drop_last());
        match operations.last() {
            Operation::Connection(ConnectionEvent::FullyNegotiatedInbound(_), _) => before + 1,
            _ => before,
        }
    }
}

/// How many inbound substreams were settled, with a request or without one.
pub open spec fn settled<TCodec: Codec, TStream>(
    operations: Seq<Operation<TCodec, TStream>>,
) -> nat
    decreases operations.len(),
{
    if operations.len() == 0 {
        0
    } else {
        let before = settled(operations.drop_last());
        match operations.last() {
            Operation::Poll(PollInput::Inbound(Some(_)), _) => before + 1,
            _ => before,
        }
    }
}

/// The inbound substreams that the handler waits for are those that were negotiated
/// and not settled since.  So a connection falls idle only once every one of them is
/// settled.
pub proof fn law_inbound_awaited<TCodec: Codec + Clone, TStream>(
    states: Seq<HandlerState<TCodec>>,
    operations: Seq<Operation<TCodec, TStream>>,
)
    requires
        history(states, operations),
    ensures
        states.last().inbound + settled(operations) == states[0].inbound + accepted(operations),
        operations.len() > 0 && states[operations.len() - 1].keep_alive is Yes
            && states.last().keep_alive is Until ==> settled(operations) == states[0].inbound
            + accepted(operations),
    decreases operations.len(),
{
    if operations.len() > 0 {
        lemma_history_prefix(states, operations);
        law_inbound_awaited(states.drop_last(), operations.drop_last());
        assert(states.drop_last()[0] == states[0]);
    }
}

/// Whether the operation brings a request, from either side.
pub open spec fn brings_request<TCodec: Codec, TStream>(
    operation: Operation<TCodec, TStream>,
) -> bool {
    match operation {
        Operation::Behaviour(_) => true,
        Operation::Poll(PollInput::Inbound(Some(Ok(_))), _) => true,
        _ => false,
    }
}

/// The deadline of an idle connection stands until a request comes, from either
/// side: polling does not put it off.
pub proof fn law_deadline_stands<TCodec: Codec + Clone, TStream>(
    states: Seq<HandlerState<TCodec>>,
    operations: Seq<Operation<TCodec, TStream>>,
    i: int,
)
    requires
        history(states, operations),
        states[0].valid(),
        states[0].keep_alive is Until,
        forall|k: int| 0 <= k < operations.len() ==> !brings_request(#[trigger] operations[k]),
        0 <= i < states.len(),
    ensures
        states[i].keep_alive == states[0].keep_alive,
    decreases i,
{
    if i > 0 {
        law_deadline_stands(states, operations, i - 1);
        assert(operates(states[i - 1], operations[i - 1], states[i - 1 + 1]));
        assert(!brings_request(operations[i - 1]));
    }
}

/// The keep-alive timeout of an idle connection is preceded by the substream timeout:
/// when a poll gives a connection its deadline, the time left after the keep-alive
/// timeout is taken off is the substream timeout from then.  So work on a substream that
/// was started by then has timed out when the keep-alive timeout begins.
pub proof fn law_deadline_outlasts_substreams<TCodec: Codec>(
    pre: HandlerState<TCodec>,
    input: PollInput<TCodec>,
    post: HandlerState<TCodec>,
    output: PollOutput<TCodec>,
)
    requires
        pre.valid(),
        may_feed(pre, input),
        poll_turn(pre, input, post, output),
        pre.keep_alive is Yes,
        post.keep_alive is Until,
    ensures
        exists|now: u128|
            #[trigger] clock_shows(pre.clock_start, now) && post.keep_alive->0
                - pre.keep_alive_timeout == now + pre.substream_timeout,
{
    let now = choose|now: u128|
        #[trigger] clock_shows(pre.clock_start, now) && post == pre.idle_at(now);
    assert(clock_shows(pre.clock_start, now) && now <= MAX_NANOS);
}

/// A run of the work on an inbound substream.
pub open spec fn inbound_run<TCodec: Codec>(
    request_id: RequestId,
    stages: Seq<InboundStage>,
    inputs: Seq<InboundInput<TCodec>>,
    actions: Seq<InboundAction<TCodec>>,
) -> bool {
    &&& stages.len() == inputs.len() + 1
    &&& actions.len() == inputs.len()
    &&& stages[0] is Reading
    &&& forall|i: int|
        0 <= i < inputs.len() ==> {
            &&& inbound_expects(stages[i], #[trigger] inputs[i])
            &&& (stages[i + 1], actions[i]) == inbound_next(request_id, stages[i], inputs[i])
        }
}

/// The failure that an input reports, if it reports one.
pub open spec fn inbound_failure<TCodec: Codec>(input: InboundInput<TCodec>) -> Option<
    std::io::Error,
> {
    match input {
        InboundInput::RequestRead(Err(error)) => Some(error),
        InboundInput::ResponseWritten(Err(error)) => Some(error),
        InboundInput::StreamClosed(Err(error)) => Some(error),
        _ => None,
    }
}

/// The work on an inbound substream ends after at most five outcomes.  It hands the
/// request over once, unless it could not be read, and under the number it was given.
/// It reports a response as sent exactly when the response was written and the
/// substream closed, and as omitted exactly when there was none and the substream was
/// closed.  Otherwise it ends with the failure of the substream.
pub proof fn law_inbound_outcome<TCodec: Codec>(
    request_id: RequestId,
    stages: Seq<InboundStage>,
    inputs: Seq<InboundInput<TCodec>>,
    actions: Seq<InboundAction<TCodec>>,
)
    requires
        inbound_run(request_id, stages, inputs, actions),
    ensures
        inputs.len() <= 5,
        forall|i: int|
            0 <= i < actions.len() ==> (#[trigger] actions[i] is ForwardRequest <==> i == 0
                && inputs[0] matches InboundInput::RequestRead(Ok(_))),
        inputs.len() > 0 ==> (inputs[0] matches InboundInput::RequestRead(Ok(request)) ==> actions[0]
            == InboundAction::<TCodec>::ForwardRequest { request_id, request }),
        forall|i: int|
            0 <= i < actions.len() ==> (#[trigger] actions[i] is Finish <==> stages[i + 1] is Done),
        inputs.len() > 0 ==> (actions.last() matches InboundAction::Finish(result) ==> {
            &&& result == Ok::<Event<TCodec>, WorkerError>(Event::ResponseSent(request_id)) <==> {
                &&& inputs.len() == 5
                &&& inputs[2] matches InboundInput::Responded(Ok(response))
                &&& actions[2] == InboundAction::<TCodec>::WriteResponse(response)
                &&& inputs[3] matches InboundInput::ResponseWritten(Ok(_))
                &&& inputs[4] matches InboundInput::StreamClosed(Ok(_))
            }
            &&& result == Ok::<Event<TCodec>, WorkerError>(Event::ResponseOmission(request_id)) <==> {
                &&& inputs.len() == 4
                &&& inputs[2] matches InboundInput::Responded(Err(_))
                &&& inputs[3] matches InboundInput::StreamClosed(Ok(_))
            }
            &&& match result {
                Ok(event) => event == Event::<TCodec>::ResponseSent(request_id) || event == Event::<
                    TCodec,
                >::ResponseOmission(request_id),
                Err(WorkerError::Io(error)) => inbound_failure(inputs.last()) == Some(error),
                Err(WorkerError::TimedOut) => false,
            }
        }),
{
    let n = inputs.len() as int;
    if n > 0 {
        assert(inbound_expects(stages[0], inputs[0]));
    }
    if n > 1 {
        assert(inbound_expects(stages[1], inputs[1]));
    }
    if n > 2 {
        assert(inbound_expects(stages[2], inputs[2]));
    }
    if n > 3 {
        assert(inbound_expects(stages[3], inputs[3]));
    }
    if n > 4 {
        assert(inbound_expects(stages[4], inputs[4]));
    }
    if n > 5 {
        assert(inbound_expects(stages[5], inputs[5]));
    }
}

/// A run of the work on an outbound substream.
pub open spec fn outbound_run<TCodec: Codec>(
    request_id: RequestId,
    stages: Seq<OutboundStage>,
    inputs: Seq<OutboundInput<TCodec>>,
    actions: Seq<OutboundAction<TCodec>>,
) -> bool {
    &&& stages.len() == inputs.len() + 1
    &&& actions.len() == inputs.len()
    &&& stages[0] is Writing
    &&& forall|i: int|
        0 <= i < inputs.len() ==> {
            &&& outbound_expects(stages[i], #[trigger] inputs[i])
            &&& (stages[i + 1], actions[i]) == outbound_next(request_id, inputs[i])
        }
}

/// The failure that an input reports, if it reports one.
pub open spec fn outbound_failure<TCodec: Codec>(input: OutboundInput<TCodec>) -> Option<
    std::io::Error,
> {
    match input {
        OutboundInput::RequestWritten(Err(error)) => Some(error),
        OutboundInput::StreamClosed(Err(error)) => Some(error),
        OutboundInput::ResponseRead(Err(error)) => Some(error),
        _ => None,
    }
}

/// The work on an outbound substream ends after at most three outcomes.  It reports
/// the response to its request exactly when the request was written, the substream
/// closed for writing, and the response read.  Otherwise it ends with the failure of
/// the substream.
pub proof fn law_outbound_outcome<TCodec: Codec>(
    request_id: RequestId,
    stages: Seq<OutboundStage>,
    inputs: Seq<OutboundInput<TCodec>>,
    actions: Seq<OutboundAction<TCodec>>,
)
    requires
        outbound_run(request_id, stages, inputs, actions),
    ensures
        inputs.len() <= 3,
        forall|i: int|
            0 <= i < actions.len() ==> (#[trigger] actions[i] is Finish <==> stages[i + 1] is Done),
        inputs.len() > 0 ==> (actions.last() matches OutboundAction::Finish(result) ==> match result {
            Ok(event) => {
                &&& inputs.len() == 3
                &&& inputs[0] matches OutboundInput::RequestWritten(Ok(_))
                &&& inputs[1] matches OutboundInput::StreamClosed(Ok(_))
                &&& inputs[2] matches OutboundInput::ResponseRead(Ok(response))
                &&& event == Event::<TCodec>::Response { request_id, response }
            },
            Err(WorkerError::Io(error)) => outbound_failure(inputs.last()) == Some(error),
            Err(WorkerError::TimedOut) => false,
        }),
        inputs.len() == 3 ==> (inputs[2] matches OutboundInput::ResponseRead(Ok(response))
            ==> actions[2] == OutboundAction::<TCodec>::Finish(
            Ok(Event::Response { request_id, response }),
        )),
{
    let n = inputs.len() as int;
    if n > 0 {
        assert(outbound_expects(stages[0], inputs[0]));
    }
    if n > 1 {
        assert(outbound_expects(stages[1], inputs[1]));
    }
    if n > 2 {
        assert(outbound_expects(stages[2], inputs[2]));
    }
    if n > 3 {
        assert(outbound_expects(stages[3], inputs[3]));
    }
}

} // verus!
