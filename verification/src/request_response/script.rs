//! What the work on a substream does, from its first action to its last.

use crate::request_response::message::{Codec, Event, RequestId};
use crate::request_response::worker::{
    InboundAction, InboundInput, InboundWorker, OutboundAction, OutboundInput, OutboundWorker,
    Race, WorkerError,
};
use vstd::prelude::*;

verus! {

/// Whether `input` is the outcome of `action`.
pub open spec fn inbound_answers<TCodec: Codec>(
    action: InboundAction<TCodec>,
    input: InboundInput<TCodec>,
) -> bool {
    match action {
        InboundAction::ReadRequest => input is RequestRead,
        InboundAction::ForwardRequest { .. } => input is RequestForwarded,
        InboundAction::AwaitResponse => input is Responded,
        InboundAction::WriteResponse(_) => input is ResponseWritten,
        InboundAction::CloseStream => input is StreamClosed,
        InboundAction::Finish(_) => false,
    }
}

/// The work on an inbound substream, from its beginning: it reads the request, hands it over
/// under the number that it was given, and waits for the response.  With a response it writes
/// that, closes the substream, and ends with the report that the response was sent; without
/// one it closes the substream, and ends with the report that the response was omitted.  A
/// failure of the substream ends it at once, with that failure.  Each step takes whatever
/// outcome the action before can have.
pub proof fn law_inbound_script<TCodec: Codec>(
    request_id: RequestId,
    made: InboundWorker,
    first: InboundAction<TCodec>,
    workers: Seq<&mut InboundWorker>,
    inputs: Seq<InboundInput<TCodec>>,
    actions: Seq<InboundAction<TCodec>>,
    i: int,
)
    requires
        call_ensures(InboundWorker::new, (request_id,), made),
        call_ensures(InboundWorker::start::<TCodec>, (&made,), first),
        workers.len() == inputs.len() == actions.len(),
        inputs.len() > 0 ==> *workers[0] == made && inbound_answers(first, inputs[0]),
        forall|k: int|
            0 <= k < inputs.len() ==> #[trigger] call_ensures(
                InboundWorker::step::<TCodec>,
                (workers[k], inputs[k]),
                actions[k],
            ),
        forall|k: int|
            0 < k < inputs.len() ==> {
                &&& *(#[trigger] workers[k]) == *final(workers[k - 1])
                &&& inbound_answers(actions[k - 1], inputs[k])
            },
        0 <= i < inputs.len(),
    ensures
        first is ReadRequest,
        inputs.len() <= 5,
        call_requires(InboundWorker::step::<TCodec>, (workers[i], inputs[i])),
        match inputs[0] {
            InboundInput::RequestRead(Ok(request)) => actions[0]
                == InboundAction::<TCodec>::ForwardRequest { request_id, request },
            InboundInput::RequestRead(Err(error)) => {
                &&& inputs.len() == 1
                &&& actions[0] == InboundAction::<TCodec>::Finish(Err(WorkerError::Io(error)))
            },
            _ => false,
        },
        inputs.len() > 1 ==> inputs[1] is RequestForwarded && actions[1] is AwaitResponse,
        inputs.len() > 2 ==> match inputs[2] {
            InboundInput::Responded(Ok(response)) => actions[2] == InboundAction::<
                TCodec,
            >::WriteResponse(response),
            InboundInput::Responded(Err(_)) => actions[2] is CloseStream && inputs.len() <= 4,
            _ => false,
        },
        inputs.len() > 3 ==> match inputs[3] {
            InboundInput::ResponseWritten(Ok(_)) => {
                &&& inputs[2] matches InboundInput::Responded(Ok(_))
                &&& actions[3] is CloseStream
            },
            InboundInput::ResponseWritten(Err(error)) => {
                &&& inputs[2] matches InboundInput::Responded(Ok(_))
                &&& inputs.len() == 4
                &&& actions[3] == InboundAction::<TCodec>::Finish(Err(WorkerError::Io(error)))
            },
            InboundInput::StreamClosed(Ok(_)) => {
                &&& inputs[2] matches InboundInput::Responded(Err(_))
                &&& inputs.len() == 4
                &&& actions[3] == InboundAction::<TCodec>::Finish(
                    Ok(Event::ResponseOmission(request_id)),
                )
            },
            InboundInput::StreamClosed(Err(error)) => {
                &&& inputs[2] matches InboundInput::Responded(Err(_))
                &&& inputs.len() == 4
                &&& actions[3] == InboundAction::<TCodec>::Finish(Err(WorkerError::Io(error)))
            },
            _ => false,
        },
        inputs.len() > 4 ==> match inputs[4] {
            InboundInput::StreamClosed(Ok(_)) => actions[4] == InboundAction::<TCodec>::Finish(
                Ok(Event::ResponseSent(request_id)),
            ),
            InboundInput::StreamClosed(Err(error)) => actions[4] == InboundAction::<TCodec>::Finish(
                Err(WorkerError::Io(error)),
            ),
            _ => false,
        },
{
    let n = inputs.len() as int;
    assert(call_ensures(InboundWorker::step::<TCodec>, (workers[0], inputs[0]), actions[0]));
    if n > 1 {
        assert(*workers[1] == *final(workers[0]));
        assert(call_ensures(InboundWorker::step::<TCodec>, (workers[1], inputs[1]), actions[1]));
    }
    if n > 2 {
        assert(*workers[2] == *final(workers[1]));
        assert(call_ensures(InboundWorker::step::<TCodec>, (workers[2], inputs[2]), actions[2]));
    }
    if n > 3 {
        assert(*workers[3] == *final(workers[2]));
        assert(call_ensures(InboundWorker::step::<TCodec>, (workers[3], inputs[3]), actions[3]));
    }
    if n > 4 {
        assert(*workers[4] == *final(workers[3]));
        assert(call_ensures(InboundWorker::step::<TCodec>, (workers[4], inputs[4]), actions[4]));
    }
    if n > 5 {
        assert(*workers[5] == *final(workers[4]));
    }
}

/// Whether `input` is the outcome of `action`.
pub open spec fn outbound_answers<TCodec: Codec>(
    action: OutboundAction<TCodec>,
    input: OutboundInput<TCodec>,
) -> bool {
    match action {
        OutboundAction::WriteRequest(_) => input is RequestWritten,
        OutboundAction::CloseStream => input is StreamClosed,
        OutboundAction::ReadResponse => input is ResponseRead,
        OutboundAction::Finish(_) => false,
    }
}

/// The work on an outbound substream, from its beginning: it writes the request, closes the
/// substream for writing, reads the response, and ends with the report of that response.  A
/// failure of the substream ends it at once, with that failure.  Each step takes whatever
/// outcome the action before can have.
pub proof fn law_outbound_script<TCodec: Codec>(
    request_id: RequestId,
    request: TCodec::Request,
    made: OutboundWorker,
    first: OutboundAction<TCodec>,
    workers: Seq<&mut OutboundWorker>,
    inputs: Seq<OutboundInput<TCodec>>,
    actions: Seq<OutboundAction<TCodec>>,
    i: int,
)
    requires
        call_ensures(OutboundWorker::new, (request_id,), made),
        call_ensures(OutboundWorker::start::<TCodec>, (&made, request), first),
        workers.len() == inputs.len() == actions.len(),
        inputs.len() > 0 ==> *workers[0] == made && outbound_answers(first, inputs[0]),
        forall|k: int|
            0 <= k < inputs.len() ==> #[trigger] call_ensures(
                OutboundWorker::step::<TCodec>,
                (workers[k], inputs[k]),
                actions[k],
            ),
        forall|k: int|
            0 < k < inputs.len() ==> {
                &&& *(#[trigger] workers[k]) == *final(workers[k - 1])
                &&& outbound_answers(actions[k - 1], inputs[k])
            },
        0 <= i < inputs.len(),
    ensures
        first == OutboundAction::<TCodec>::WriteRequest(request),
        inputs.len() <= 3,
        call_requires(OutboundWorker::step::<TCodec>, (workers[i], inputs[i])),
        match inputs[0] {
            OutboundInput::RequestWritten(Ok(_)) => actions[0] is CloseStream,
            OutboundInput::RequestWritten(Err(error)) => {
                &&& inputs.len() == 1
                &&& actions[0] == OutboundAction::<TCodec>::Finish(Err(WorkerError::Io(error)))
            },
            _ => false,
        },
        inputs.len() > 1 ==> match inputs[1] {
            OutboundInput::StreamClosed(Ok(_)) => actions[1] is ReadResponse,
            OutboundInput::StreamClosed(Err(error)) => {
                &&& inputs.len() == 2
                &&& actions[1] == OutboundAction::<TCodec>::Finish(Err(WorkerError::Io(error)))
            },
            _ => false,
        },
        inputs.len() > 2 ==> match inputs[2] {
            OutboundInput::ResponseRead(Ok(response)) => actions[2] == OutboundAction::<
                TCodec,
            >::Finish(Ok(Event::Response { request_id, response })),
            OutboundInput::ResponseRead(Err(error)) => actions[2] == OutboundAction::<
                TCodec,
            >::Finish(Err(WorkerError::Io(error))),
            _ => false,
        },
{
    let n = inputs.len() as int;
    assert(call_ensures(OutboundWorker::step::<TCodec>, (workers[0], inputs[0]), actions[0]));
    if n > 1 {
        assert(*workers[1] == *final(workers[0]));
        assert(call_ensures(OutboundWorker::step::<TCodec>, (workers[1], inputs[1]), actions[1]));
    }
    if n > 2 {
        assert(*workers[2] == *final(workers[1]));
        assert(call_ensures(OutboundWorker::step::<TCodec>, (workers[2], inputs[2]), actions[2]));
    }
    if n > 3 {
        assert(*workers[3] == *final(workers[2]));
    }
}

/// Work that is finished in time yields its own result, of whatever kind.  An inbound
/// substream that ran out of time yields no event, an outbound one the timeout of its
/// request.
pub proof fn law_timeouts<TCodec: Codec>(
    request_id: RequestId,
    race: Race<Result<Event<TCodec>, WorkerError>>,
    inbound: Result<Event<TCodec>, WorkerError>,
    outbound: Result<Event<TCodec>, WorkerError>,
)
    requires
        call_ensures(InboundWorker::outcome::<TCodec>, (race,), inbound),
        call_ensures(OutboundWorker::outcome::<TCodec>, (request_id, race), outbound),
    ensures
        race matches Race::Finished(result) ==> inbound == result && outbound == result,
        race is TimedOut ==> {
            &&& inbound matches Err(error) && error is TimedOut
            &&& outbound matches Ok(Event::OutboundTimeout(id)) && id == request_id
        },
{
}

} // verus!
