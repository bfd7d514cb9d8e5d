//! How requests end: the handler and the work on its substreams taken together.

use crate::request_response::handler::{
    ConnectionEvent, ConnectionHandlerEvent, HandlerState, PendingInbound, PollInput, PollOutput,
    Started, StreamUpgradeError,
};
use crate::request_response::laws::{
    answers_substream, history, inbound_run, law_inbound_outcome, law_outbound_outcome,
    law_refusals_reported, law_requests_in_order, operates, outbound_run, received, refused,
    reported, served, waiting, Operation,
};
use crate::request_response::message::{Codec, Event, OutboundMessage, RequestId};
use crate::request_response::worker::{
    InboundAction, InboundInput, InboundStage, OutboundAction, OutboundInput, OutboundStage,
    WorkerError,
};
use vstd::prelude::*;

verus! {

/// The state of a new handler: nothing waits and nothing is queued.
pub open spec fn fresh<TCodec: Codec>(state: HandlerState<TCodec>) -> bool {
    &&& state.pending_events.len() == 0
    &&& state.pending_outbound.len() == 0
    &&& state.requested_outbound.len() == 0
    &&& state.inbound == 0
}

/// The event that the operation reports, if it is a poll that reports one.
pub open spec fn event_of<TCodec: Codec, TStream>(operation: Operation<TCodec, TStream>) -> Option<
    Event<TCodec>,
> {
    match operation {
        Operation::Poll(_, PollOutput::Ready(ConnectionHandlerEvent::Custom(event))) => Some(event),
        _ => None,
    }
}

/// Whether the operation reports the inbound request `id`.
pub open spec fn reports_request<TCodec: Codec, TStream>(
    operation: Operation<TCodec, TStream>,
    id: RequestId,
) -> bool {
    event_of(operation) matches Some(Event::Request { request_id, .. }) && request_id == id
}

/// Whether the operation reports the end of the inbound request `id`: that its response
/// was sent, or omitted.
pub open spec fn ends_inbound<TCodec: Codec, TStream>(
    operation: Operation<TCodec, TStream>,
    id: RequestId,
) -> bool {
    match event_of(operation) {
        Some(Event::ResponseSent(request_id)) => request_id == id,
        Some(Event::ResponseOmission(request_id)) => request_id == id,
        _ => false,
    }
}

/// Whether the operation reports the end of the outbound request `id`: its response, its
/// timeout, or that the remote supports none of its protocols.
pub open spec fn ends_outbound<TCodec: Codec, TStream>(
    operation: Operation<TCodec, TStream>,
    id: RequestId,
) -> bool {
    match event_of(operation) {
        Some(Event::Response { request_id, .. }) => request_id == id,
        Some(Event::OutboundTimeout(request_id)) => request_id == id,
        Some(Event::OutboundUnsupportedProtocols(request_id)) => request_id == id,
        _ => false,
    }
}

/// Whether the operation hands a poll the request that an inbound substream forwarded,
/// with the sender of its response.
pub open spec fn hands_over<TCodec: Codec, TStream>(
    operation: Operation<TCodec, TStream>,
    pending: PendingInbound<TCodec>,
    forwarded: InboundAction<TCodec>,
) -> bool {
    &&& operation matches Operation::Poll(PollInput::Inbound(Some(Ok(inbound))), _)
    &&& inbound.sender == pending.response_sender
    &&& forwarded == InboundAction::<TCodec>::ForwardRequest {
        request_id: inbound.request_id,
        request: inbound.request,
    }
}

/// Whether the work on an inbound substream, started by the operation at `start`, can have
/// yielded `result` by the operation at `end`: it timed out, or some run of it ended so.
///
/// Till its request is handed to a poll, the sender of the response lies with the handler.
/// So a run that heard of a response, or of its omission, did so after that.
pub open spec fn inbound_yields<TCodec: Codec, TStream>(
    operations: Seq<Operation<TCodec, TStream>>,
    start: int,
    end: int,
    pending: PendingInbound<TCodec>,
    request_id: RequestId,
    result: Result<Event<TCodec>, WorkerError>,
) -> bool {
    ||| result == Err::<Event<TCodec>, WorkerError>(WorkerError::TimedOut)
    ||| exists|
        stages: Seq<InboundStage>,
        inputs: Seq<InboundInput<TCodec>>,
        actions: Seq<InboundAction<TCodec>>,
    |
        {
            &&& #[trigger] inbound_run(request_id, stages, inputs, actions)
            &&& inputs.len() > 0
            &&& actions.last() == InboundAction::<TCodec>::Finish(result)
            &&& inputs.len() > 2 ==> exists|k: int|
                start < k < end && hands_over(#[trigger] operations[k], pending, actions[0])
        }
}

/// Whether the work on an outbound substream can yield `result`: it timed out, or some run
/// of it ended so.
pub open spec fn outbound_yields<TCodec: Codec>(
    request_id: RequestId,
    result: Result<Event<TCodec>, WorkerError>,
) -> bool {
    ||| result == Ok::<Event<TCodec>, WorkerError>(Event::OutboundTimeout(request_id))
    ||| exists|
        stages: Seq<OutboundStage>,
        inputs: Seq<OutboundInput<TCodec>>,
        actions: Seq<OutboundAction<TCodec>>,
    |
        {
            &&& #[trigger] outbound_run(request_id, stages, inputs, actions)
            &&& inputs.len() > 0
            &&& actions.last() == OutboundAction::<TCodec>::Finish(result)
        }
}

/// Whether the work that the operation at `start` started can have yielded `result` by the
/// operation at `end`.
pub open spec fn work_yields<TCodec: Codec, TStream>(
    operations: Seq<Operation<TCodec, TStream>>,
    start: int,
    end: int,
    result: Result<Event<TCodec>, WorkerError>,
) -> bool {
    match operations[start] {
        Operation::Connection(_, Started::Inbound(pending, task)) => inbound_yields(
            operations,
            start,
            end,
            pending,
            task.worker.request_id,
            result,
        ),
        Operation::Connection(_, Started::Outbound(task)) => outbound_yields(
            task.worker.request_id,
            result,
        ),
        _ => false,
    }
}

/// Whether the operation feeds a poll the result of some work.
pub open spec fn feeds_result<TCodec: Codec, TStream>(
    operation: Operation<TCodec, TStream>,
) -> bool {
    operation matches Operation::Poll(PollInput::Worker(Some(_)), _)
}

/// Every result that a poll is fed is that of work started before, and the work on a
/// substream gives one result.  `origin` tells for each operation that feeds a result which
/// operation started the work.
pub open spec fn results_of_work<TCodec: Codec, TStream>(
    operations: Seq<Operation<TCodec, TStream>>,
    origin: Seq<int>,
) -> bool {
    &&& origin.len() == operations.len()
    &&& forall|j: int|
        0 <= j < operations.len() ==> (#[trigger] operations[j] matches Operation::Poll(
            PollInput::Worker(Some(result)),
            _,
        ) ==> 0 <= origin[j] < j && work_yields(operations, origin[j], j, result))
    &&& forall|i: int, j: int|
        #![trigger operations[i], operations[j]]
        0 <= i < j < operations.len() && feeds_result(operations[i]) && feeds_result(operations[j])
            ==> origin[i] != origin[j]
}

/// The number that the operation gives to an inbound request, if it starts work on an
/// inbound substream.
pub open spec fn number_of<TCodec: Codec, TStream>(
    operation: Operation<TCodec, TStream>,
) -> Option<RequestId> {
    match operation {
        Operation::Connection(_, Started::Inbound(_, task)) => Some(task.worker.request_id),
        _ => None,
    }
}

/// The number that a counter gives out after `place` others, if `first` was its first one:
/// a counter goes up by one with each, and begins anew after the largest.
pub open spec fn count(first: u64, place: nat) -> RequestId {
    RequestId(((first + place) % 0x1_0000_0000_0000_0000) as u64)
}

/// The numbers are those of a counter, which other handlers may share, as
/// `AtomicU64::fetch_add` gives them out: each one is given out once, and adds one to the
/// counter.  `places` tells for each operation that gives a number how many the counter gave
/// out before.  Less than 2^64 are given out from the first such operation to the last.
pub open spec fn counted<TCodec: Codec, TStream>(
    operations: Seq<Operation<TCodec, TStream>>,
    first: u64,
    places: Seq<nat>,
) -> bool {
    &&& places.len() == operations.len()
    &&& forall|i: int|
        0 <= i < operations.len() && number_of(#[trigger] operations[i]) is Some ==> number_of(
            operations[i],
        ) == Some(count(first, places[i]))
    &&& forall|i: int, j: int|
        #![trigger operations[i], operations[j]]
        0 <= i < j < operations.len() && number_of(operations[i]) is Some && number_of(
            operations[j],
        ) is Some ==> places[i] < places[j] < places[i] + 0x1_0000_0000_0000_0000
}

/// A counter does not give the same number to two inbound requests, of one handler or of
/// two, unless it gave out all the others in between; and it leaves none out.
pub proof fn law_numbers_differ<TCodec: Codec, TStream>(
    earlier: Operation<TCodec, TStream>,
    later: Operation<TCodec, TStream>,
    first: u64,
    p: nat,
    q: nat,
)
    requires
        number_of(earlier) == Some(count(first, p)),
        number_of(later) == Some(count(first, q)),
        p < q < p + 0x1_0000_0000_0000_0000,
    ensures
        number_of(earlier) != number_of(later),
        ({
            let (RequestId(a), RequestId(b)) = (count(first, p), count(first, q));
            b == a + (q - p) || b == a + (q - p) - 0x1_0000_0000_0000_0000
        }),
{
}

/// No identifier is that of two messages.
pub open spec fn ids_differ<TCodec: Codec>(messages: Seq<OutboundMessage<TCodec>>) -> bool {
    forall|p: int, q: int|
        #![trigger messages[p], messages[q]]
        0 <= p < q < messages.len() ==> messages[p].request_id != messages[q].request_id
}

/// Whether the operation gives the handler the request `id`.
pub open spec fn gives<TCodec: Codec, TStream>(
    operation: Operation<TCodec, TStream>,
    id: RequestId,
) -> bool {
    operation matches Operation::Behaviour(message) && message.request_id == id
}

/// Whether the operation, done in `state`, requests a substream for the request `id`.
pub open spec fn requests_substream<TCodec: Codec, TStream>(
    state: HandlerState<TCodec>,
    operation: Operation<TCodec, TStream>,
    id: RequestId,
) -> bool {
    &&& operation matches Operation::Poll(
        _,
        PollOutput::Ready(ConnectionHandlerEvent::OutboundSubstreamRequest { .. }),
    )
    &&& state.pending_outbound.len() > 0
    &&& state.pending_outbound.first().request_id == id
}

/// Only reports of refusals are ever queued.
proof fn lemma_queue<TCodec: Codec + Clone, TStream>(
    states: Seq<HandlerState<TCodec>>,
    operations: Seq<Operation<TCodec, TStream>>,
    i: int,
)
    requires
        history(states, operations),
        fresh(states[0]),
        0 <= i < states.len(),
    ensures
        forall|x: int|
            0 <= x < states[i].pending_events.len() ==> #[trigger] states[i].pending_events[x]
                is OutboundUnsupportedProtocols,
    decreases i,
{
    if i > 0 {
        lemma_queue(states, operations, i - 1);
        assert(operates(states[i - 1], operations[i - 1], states[i - 1 + 1]));
    }
}

/// What reports the end of an inbound request is a result of the work on its substream.
proof fn lemma_inbound_end<TCodec: Codec + Clone, TStream>(
    states: Seq<HandlerState<TCodec>>,
    operations: Seq<Operation<TCodec, TStream>>,
    origin: Seq<int>,
    id: RequestId,
    j: int,
)
    requires
        history(states, operations),
        fresh(states[0]),
        results_of_work(operations, origin),
        0 <= j < operations.len(),
        ends_inbound(operations[j], id),
    ensures
        feeds_result(operations[j]),
        0 <= origin[j] < j,
        number_of(operations[origin[j]]) == Some(id),
        exists|k: int| origin[j] < k < j && reports_request(#[trigger] operations[k], id),
{
    assert(operates(states[j], operations[j], states[j + 1]));
    lemma_queue(states, operations, j);
    let event = event_of(operations[j])->0;
    assert(operations[j] matches Operation::Poll(PollInput::Worker(Some(Ok(fed))), _) && fed
        == event);
    let result = Ok::<Event<TCodec>, WorkerError>(event);
    let start = origin[j];
    assert(work_yields(operations, start, j, result));
    match operations[start] {
        Operation::Connection(_, Started::Inbound(pending, task)) => {
            let number = task.worker.request_id;
            let (stages, inputs, actions) = choose|
                stages: Seq<InboundStage>,
                inputs: Seq<InboundInput<TCodec>>,
                actions: Seq<InboundAction<TCodec>>,
            |
                {
                    &&& #[trigger] inbound_run(number, stages, inputs, actions)
                    &&& inputs.len() > 0
                    &&& actions.last() == InboundAction::<TCodec>::Finish(result)
                    &&& inputs.len() > 2 ==> exists|k: int|
                        start < k < j && hands_over(#[trigger] operations[k], pending, actions[0])
                };
            law_inbound_outcome(number, stages, inputs, actions);
            let k = choose|k: int|
                start < k < j && hands_over(#[trigger] operations[k], pending, actions[0]);
            assert(operates(states[k], operations[k], states[k + 1]));
            assert(reports_request(operations[k], id));
        },
        Operation::Connection(_, Started::Outbound(task)) => {
            lemma_outbound_result(task.worker.request_id, result);
        },
        _ => {},
    }
}

/// An event of the work on an outbound substream is the response or the timeout of its
/// request.
proof fn lemma_outbound_result<TCodec: Codec>(
    request_id: RequestId,
    result: Result<Event<TCodec>, WorkerError>,
)
    requires
        outbound_yields(request_id, result),
    ensures
        result matches Ok(event) ==> {
            ||| event == Event::<TCodec>::OutboundTimeout(request_id)
            ||| event matches Event::Response { request_id: answered, .. } && answered == request_id
        },
{
    if result != Ok::<Event<TCodec>, WorkerError>(Event::OutboundTimeout(request_id)) {
        let (stages, inputs, actions) = choose|
            stages: Seq<OutboundStage>,
            inputs: Seq<OutboundInput<TCodec>>,
            actions: Seq<OutboundAction<TCodec>>,
        |
            {
                &&& #[trigger] outbound_run(request_id, stages, inputs, actions)
                &&& inputs.len() > 0
                &&& actions.last() == OutboundAction::<TCodec>::Finish(result)
            };
        law_outbound_outcome(request_id, stages, inputs, actions);
    }
}

/// The work on an inbound substream ends at most once, under the number that it was given,
/// and only after its request was reported: where a poll reports that the response to a
/// request was sent or omitted, the work behind it has the number of that request, an earlier
/// poll reported the request, and no other poll reports either of the two for that work.
///
/// This holds of every history of a new handler in which the results fed to the polls are
/// those of the work started, whatever numbers were given.
pub proof fn law_inbound_work_ends_once<TCodec: Codec + Clone, TStream>(
    states: Seq<HandlerState<TCodec>>,
    operations: Seq<Operation<TCodec, TStream>>,
    origin: Seq<int>,
    id: RequestId,
    j: int,
)
    requires
        history(states, operations),
        fresh(states[0]),
        results_of_work(operations, origin),
        0 <= j < operations.len(),
        ends_inbound(operations[j], id),
    ensures
        0 <= origin[j] < j,
        number_of(operations[origin[j]]) == Some(id),
        exists|k: int| origin[j] < k < j && reports_request(#[trigger] operations[k], id),
        forall|m: int, other: RequestId|
            0 <= m < operations.len() && #[trigger] ends_inbound(operations[m], other) && origin[m]
                == origin[j] ==> m == j && other == id,
{
    lemma_inbound_end(states, operations, origin, id, j);
    assert forall|m: int, other: RequestId|
        0 <= m < operations.len() && #[trigger] ends_inbound(operations[m], other) && origin[m]
            == origin[j] implies m == j && other == id by {
        lemma_inbound_end(states, operations, origin, other, m);
    }
}

/// An inbound request ends at most once, and only after it was reported: where a poll
/// reports that the response to a request was sent or omitted, an earlier poll reported
/// the request, and no other poll reports either of the two for it.
///
/// This holds of every history of a new handler in which the results fed to the polls are
/// those of the work started, and the numbers are given by a counter from which less than
/// 2^64 were drawn meanwhile.
pub proof fn law_inbound_ends_once<TCodec: Codec + Clone, TStream>(
    states: Seq<HandlerState<TCodec>>,
    operations: Seq<Operation<TCodec, TStream>>,
    origin: Seq<int>,
    first: u64,
    places: Seq<nat>,
    id: RequestId,
    j: int,
)
    requires
        history(states, operations),
        fresh(states[0]),
        results_of_work(operations, origin),
        counted(operations, first, places),
        0 <= j < operations.len(),
        ends_inbound(operations[j], id),
    ensures
        exists|k: int| 0 <= k < j && reports_request(#[trigger] operations[k], id),
        forall|m: int|
            0 <= m < operations.len() && ends_inbound(#[trigger] operations[m], id) ==> m == j,
{
    law_inbound_work_ends_once(states, operations, origin, id, j);
    assert forall|m: int|
        0 <= m < operations.len() && ends_inbound(#[trigger] operations[m], id) implies m == j by {
        law_inbound_work_ends_once(states, operations, origin, id, m);
        let (s, t) = (origin[j], origin[m]);
        if s < t {
            law_numbers_differ(operations[s], operations[t], first, places[s], places[t]);
        } else if t < s {
            law_numbers_differ(operations[t], operations[s], first, places[t], places[s]);
        }
        assert(ends_inbound(operations[m], id) && origin[m] == origin[j]);
    }
}

/// Where the operations that refuse a substream stand, in order.
pub open spec fn refusals<TCodec: Codec, TStream>(
    operations: Seq<Operation<TCodec, TStream>>,
) -> Seq<int>
    decreases operations.len(),
{
    if operations.len() == 0 {
        Seq::empty()
    } else {
        let before = refusals(operations.drop_last());
        if refuses(operations.last()) {
            before.push(operations.len() - 1)
        } else {
            before
        }
    }
}

/// Whether the operation refuses a substream.
pub open spec fn refuses<TCodec: Codec, TStream>(operation: Operation<TCodec, TStream>) -> bool {
    operation matches Operation::Connection(
        ConnectionEvent::DialUpgradeError(StreamUpgradeError::NegotiationFailed),
        _,
    )
}

/// A beginning of a history is a history.
pub(crate) proof fn lemma_beginning<TCodec: Codec + Clone, TStream>(
    states: Seq<HandlerState<TCodec>>,
    operations: Seq<Operation<TCodec, TStream>>,
    i: int,
)
    requires
        history(states, operations),
        0 <= i <= operations.len(),
    ensures
        history(states.take(i + 1), operations.take(i)),
        states.take(i + 1).last() == states[i],
        states.take(i + 1)[0] == states[0],
{
    assert forall|k: int| 0 <= k < i implies operates(
        states.take(i + 1)[k],
        #[trigger] operations.take(i)[k],
        states.take(i + 1)[k + 1],
    ) by {
        assert(operates(states[k], operations[k], states[k + 1]));
    }
}

/// Each refusal is reported under the identifier of the request that it answers.
proof fn lemma_refusals<TCodec: Codec, TStream>(
    states: Seq<HandlerState<TCodec>>,
    operations: Seq<Operation<TCodec, TStream>>,
)
    requires
        states.len() == operations.len() + 1,
    ensures
        refused(states, operations).len() == refusals(operations).len(),
        forall|q: int|
            0 <= q < refusals(operations).len() ==> {
                let at = #[trigger] refusals(operations)[q];
                &&& 0 <= at < operations.len()
                &&& refuses(operations[at])
                &&& refused(states, operations)[q] == Event::<
                    TCodec,
                >::OutboundUnsupportedProtocols(states[at].requested_outbound.first().request_id)
            },
        forall|q: int, r: int|
            0 <= q < r < refusals(operations).len() ==> #[trigger] refusals(operations)[q]
                < #[trigger] refusals(operations)[r],
    decreases operations.len(),
{
    if operations.len() > 0 {
        lemma_refusals(states.drop_last(), operations.drop_last());
    }
}

/// The refusals in a beginning of the operations are the first ones.
proof fn lemma_refusals_beginning<TCodec: Codec, TStream>(
    operations: Seq<Operation<TCodec, TStream>>,
    i: int,
)
    requires
        0 <= i <= operations.len(),
    ensures
        refusals(operations.take(i)).len() <= refusals(operations).len(),
        forall|q: int|
            0 <= q < refusals(operations.take(i)).len() ==> #[trigger] refusals(operations.take(i))[q]
                == refusals(operations)[q],
    decreases operations.len(),
{
    if i == operations.len() {
        assert(operations.take(i) =~= operations);
    } else {
        lemma_refusals_beginning(operations.drop_last(), i);
        assert(operations.drop_last().take(i) =~= operations.take(i));
    }
}

/// The requests received in a beginning of the operations are the first ones.
pub(crate) proof fn lemma_received_beginning<TCodec: Codec, TStream>(
    operations: Seq<Operation<TCodec, TStream>>,
    i: int,
)
    requires
        0 <= i <= operations.len(),
    ensures
        received(operations.take(i)).len() <= received(operations).len(),
        forall|p: int|
            0 <= p < received(operations.take(i)).len() ==> #[trigger] received(operations.take(i))[p]
                == received(operations)[p],
    decreases operations.len(),
{
    if i == operations.len() {
        assert(operations.take(i) =~= operations);
    } else {
        lemma_received_beginning(operations.drop_last(), i);
        assert(operations.drop_last().take(i) =~= operations.take(i));
    }
}

/// How many substreams were answered before the operation at `i`.
spec fn place<TCodec: Codec, TStream>(
    states: Seq<HandlerState<TCodec>>,
    operations: Seq<Operation<TCodec, TStream>>,
    i: int,
) -> nat {
    served(states.take(i + 1), operations.take(i)).len()
}

/// Every answer comes at a place of its own.
proof fn lemma_places_differ<TCodec: Codec, TStream>(
    states: Seq<HandlerState<TCodec>>,
    operations: Seq<Operation<TCodec, TStream>>,
    i: int,
    j: int,
)
    requires
        states.len() == operations.len() + 1,
        0 <= i < j <= operations.len(),
    ensures
        place(states, operations, i) <= place(states, operations, j),
        answers_substream(operations[i]) ==> place(states, operations, i) < place(
            states,
            operations,
            j,
        ),
    decreases j,
{
    assert(operations.take(j).drop_last() =~= operations.take(j - 1));
    assert(states.take(j + 1).drop_last() =~= states.take(j));
    assert(operations.take(j).last() == operations[j - 1]);
    if i < j - 1 {
        lemma_places_differ(states, operations, i, j - 1);
    }
}

/// The request that an answer serves is the one received at the place of the answer.
proof fn lemma_answer_serves<TCodec: Codec + Clone, TStream>(
    states: Seq<HandlerState<TCodec>>,
    operations: Seq<Operation<TCodec, TStream>>,
    i: int,
)
    requires
        history(states, operations),
        fresh(states[0]),
        0 <= i < operations.len(),
        answers_substream(operations[i]),
    ensures
        states[i].requested_outbound.len() > 0,
        place(states, operations, i) < received(operations).len(),
        received(operations)[place(states, operations, i) as int]
            == states[i].requested_outbound.first(),
{
    let (earlier, before) = (states.take(i + 1), operations.take(i));
    let p = place(states, operations, i) as int;
    assert(operates(states[i], operations[i], states[i + 1]));
    lemma_beginning(states, operations, i);
    law_requests_in_order(earlier, before);
    assert(waiting(states[0]) + received(before) =~= received(before));
    assert((served(earlier, before) + waiting(states[i]))[p] == waiting(states[i])[0]);
    lemma_received_beginning(operations, i);
}

/// How many events were reported from the queue before the operation at `i`.
spec fn taken<TCodec: Codec, TStream>(
    operations: Seq<Operation<TCodec, TStream>>,
    i: int,
) -> nat {
    reported(operations.take(i)).len()
}

/// Whether the operation reports an event from the queue.
spec fn reports_queued<TCodec: Codec, TStream>(operation: Operation<TCodec, TStream>) -> bool {
    operation matches Operation::Poll(
        PollInput::Worker(None),
        PollOutput::Ready(ConnectionHandlerEvent::Custom(_)),
    )
}

/// Every report from the queue has a number of its own.
proof fn lemma_reports_differ<TCodec: Codec, TStream>(
    operations: Seq<Operation<TCodec, TStream>>,
    i: int,
    j: int,
)
    requires
        0 <= i < j <= operations.len(),
    ensures
        taken(operations, i) <= taken(operations, j),
        reports_queued(operations[i]) ==> taken(operations, i) < taken(operations, j),
    decreases j,
{
    assert(operations.take(j).drop_last() =~= operations.take(j - 1));
    assert(operations.take(j).last() == operations[j - 1]);
    if i < j - 1 {
        lemma_reports_differ(operations, i, j - 1);
    }
}

/// The operation that answered the substream of the request whose end is reported at `j`.
spec fn cause<TCodec: Codec, TStream>(
    operations: Seq<Operation<TCodec, TStream>>,
    origin: Seq<int>,
    j: int,
) -> int {
    if feeds_result(operations[j]) {
        origin[j]
    } else {
        refusals(operations)[taken(operations, j) as int]
    }
}

/// What reports the end of an outbound request is a result of the work on its substream, or
/// the report of the refusal of its substream.
proof fn lemma_outbound_end<TCodec: Codec + Clone, TStream>(
    states: Seq<HandlerState<TCodec>>,
    operations: Seq<Operation<TCodec, TStream>>,
    origin: Seq<int>,
    id: RequestId,
    j: int,
)
    requires
        history(states, operations),
        fresh(states[0]),
        results_of_work(operations, origin),
        0 <= j < operations.len(),
        ends_outbound(operations[j], id),
    ensures
        ({
            let i = cause(operations, origin, j);
            &&& feeds_result(operations[j]) || reports_queued(operations[j])
            &&& 0 <= i < j
            &&& answers_substream(operations[i])
            &&& refuses(operations[i]) == reports_queued(operations[j])
            &&& states[i].requested_outbound.first().request_id == id
            &&& reports_queued(operations[j]) ==> taken(operations, j) < refusals(operations).len()
        }),
{
    assert(operates(states[j], operations[j], states[j + 1]));
    let event = event_of(operations[j])->0;
    if feeds_result(operations[j]) {
        let i = origin[j];
        let result = Ok::<Event<TCodec>, WorkerError>(event);
        assert(operations[j] matches Operation::Poll(PollInput::Worker(Some(fed)), _) && fed
            == result);
        assert(work_yields(operations, i, j, result));
        assert(operates(states[i], operations[i], states[i + 1]));
        match operations[i] {
            Operation::Connection(_, Started::Inbound(pending, task)) => {
                lemma_inbound_result(operations, i, j, pending, task.worker.request_id, result);
            },
            Operation::Connection(_, Started::Outbound(task)) => {
                lemma_outbound_result(task.worker.request_id, result);
            },
            _ => {},
        }
    } else {
        assert(reports_queued(operations[j]));
        let (earlier, before) = (states.take(j + 1), operations.take(j));
        let q = taken(operations, j) as int;
        lemma_beginning(states, operations, j);
        law_refusals_reported(earlier, before);
        assert(states[0].pending_events + refused(earlier, before) =~= refused(earlier, before));
        assert((reported(before) + states[j].pending_events)[q] == states[j].pending_events[0]);
        lemma_refusals(earlier, before);
        lemma_refusals_beginning(operations, j);
        let i = refusals(before)[q];
        assert(before[i] == operations[i] && earlier[i] == states[i]);
        assert(refusals(operations)[q] == i);
    }
}

/// An event of the work on an inbound substream is that the response was sent or omitted.
proof fn lemma_inbound_result<TCodec: Codec, TStream>(
    operations: Seq<Operation<TCodec, TStream>>,
    start: int,
    end: int,
    pending: PendingInbound<TCodec>,
    request_id: RequestId,
    result: Result<Event<TCodec>, WorkerError>,
)
    requires
        inbound_yields(operations, start, end, pending, request_id, result),
    ensures
        result matches Ok(event) ==> event == Event::<TCodec>::ResponseSent(request_id) || event
            == Event::<TCodec>::ResponseOmission(request_id),
{
    if result is Ok {
        let (stages, inputs, actions) = choose|
            stages: Seq<InboundStage>,
            inputs: Seq<InboundInput<TCodec>>,
            actions: Seq<InboundAction<TCodec>>,
        |
            {
                &&& #[trigger] inbound_run(request_id, stages, inputs, actions)
                &&& inputs.len() > 0
                &&& actions.last() == InboundAction::<TCodec>::Finish(result)
                &&& inputs.len() > 2 ==> exists|k: int|
                    start < k < end && hands_over(#[trigger] operations[k], pending, actions[0])
            };
        law_inbound_outcome(request_id, stages, inputs, actions);
    }
}

/// A request that waits was given before, and a request that waits for the answer to its
/// substream had it requested after that.
proof fn lemma_waiting_was_given<TCodec: Codec + Clone, TStream>(
    states: Seq<HandlerState<TCodec>>,
    operations: Seq<Operation<TCodec, TStream>>,
    i: int,
)
    requires
        history(states, operations),
        fresh(states[0]),
        0 <= i < states.len(),
    ensures
        forall|x: int|
            0 <= x < states[i].pending_outbound.len() ==> given_before(
                operations,
                i,
                (#[trigger] states[i].pending_outbound[x]).request_id,
            ),
        forall|x: int|
            0 <= x < states[i].requested_outbound.len() ==> requested_before(
                states,
                operations,
                i,
                (#[trigger] states[i].requested_outbound[x]).request_id,
            ),
    decreases i,
{
    if i > 0 {
        lemma_waiting_was_given(states, operations, i - 1);
        let (pre, post, operation) = (states[i - 1], states[i], operations[i - 1]);
        assert(operates(states[i - 1], operations[i - 1], states[i - 1 + 1]));
        assert forall|x: int| 0 <= x < post.pending_outbound.len() implies given_before(
            operations,
            i,
            (#[trigger] post.pending_outbound[x]).request_id,
        ) by {
            let id = post.pending_outbound[x].request_id;
            if operation is Behaviour && x == pre.pending_outbound.len() {
                assert(gives(operations[i - 1], id));
            } else {
                let y = if post.pending_outbound.len() < pre.pending_outbound.len() {
                    x + 1
                } else {
                    x
                };
                assert(pre.pending_outbound[y] == post.pending_outbound[x]);
                assert(given_before(operations, i - 1, id));
            }
        }
        assert forall|x: int| 0 <= x < post.requested_outbound.len() implies requested_before(
            states,
            operations,
            i,
            (#[trigger] post.requested_outbound[x]).request_id,
        ) by {
            let id = post.requested_outbound[x].request_id;
            if post.requested_outbound.len() > pre.requested_outbound.len() && x
                == pre.requested_outbound.len() {
                assert(pre.pending_outbound[0] == post.requested_outbound[x]);
                assert(given_before(operations, i - 1, id));
                assert(requests_substream(states[i - 1], operations[i - 1], id));
            } else {
                let y = if post.requested_outbound.len() < pre.requested_outbound.len() {
                    x + 1
                } else {
                    x
                };
                assert(pre.requested_outbound[y] == post.requested_outbound[x]);
                assert(requested_before(states, operations, i - 1, id));
            }
        }
    }
}

/// The handler was given the request `id` before the operation at `end`.
pub open spec fn given_before<TCodec: Codec, TStream>(
    operations: Seq<Operation<TCodec, TStream>>,
    end: int,
    id: RequestId,
) -> bool {
    exists|k: int| 0 <= k < end && gives(#[trigger] operations[k], id)
}

/// Before the operation at `end` a substream was requested for the request `id`, which the
/// handler had been given.
pub open spec fn requested_before<TCodec: Codec, TStream>(
    states: Seq<HandlerState<TCodec>>,
    operations: Seq<Operation<TCodec, TStream>>,
    end: int,
    id: RequestId,
) -> bool {
    exists|k: int|
        {
            &&& 0 <= k < end
            &&& requests_substream(states[k], #[trigger] operations[k], id)
            &&& given_before(operations, k, id)
        }
}

/// An outbound request ends at most once, and only after a substream was requested for it:
/// where a poll reports the response to a request, its timeout, or that the remote supports
/// none of its protocols, the handler was given that request, an earlier poll requested its
/// substream, and no other poll reports any of the three for it.
///
/// This holds of every history of a new handler in which the results fed to the polls are
/// those of the work started, and no two requests given have the same identifier.
pub proof fn law_outbound_ends_once<TCodec: Codec + Clone, TStream>(
    states: Seq<HandlerState<TCodec>>,
    operations: Seq<Operation<TCodec, TStream>>,
    origin: Seq<int>,
    id: RequestId,
    j: int,
)
    requires
        history(states, operations),
        fresh(states[0]),
        results_of_work(operations, origin),
        ids_differ(received(operations)),
        0 <= j < operations.len(),
        ends_outbound(operations[j], id),
    ensures
        requested_before(states, operations, j, id),
        forall|m: int|
            0 <= m < operations.len() && ends_outbound(#[trigger] operations[m], id) ==> m == j,
{
    let i = cause(operations, origin, j);
    lemma_outbound_end(states, operations, origin, id, j);
    lemma_answer_serves(states, operations, i);
    lemma_waiting_was_given(states, operations, i);
    assert(requested_before(
        states,
        operations,
        i,
        states[i].requested_outbound[0].request_id,
    ));
    assert forall|m: int|
        0 <= m < operations.len() && ends_outbound(#[trigger] operations[m], id) implies m == j by {
        let n = cause(operations, origin, m);
        lemma_outbound_end(states, operations, origin, id, m);
        lemma_answer_serves(states, operations, n);
        let (p, r) = (place(states, operations, i) as int, place(states, operations, n) as int);
        assert(received(operations)[p].request_id == received(operations)[r].request_id);
        assert(p == r);
        if i < n {
            lemma_places_differ(states, operations, i, n);
        } else if n < i {
            lemma_places_differ(states, operations, n, i);
        }
        assert(i == n);
        if reports_queued(operations[j]) {
            lemma_refusals(states, operations);
            if j < m {
                lemma_reports_differ(operations, j, m);
            } else if m < j {
                lemma_reports_differ(operations, m, j);
            }
        }
    }
}

} // verus!
