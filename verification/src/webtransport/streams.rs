//! Turning the promises of a session into streams.

use crate::webtransport::error::Error;
use vstd::pervasive::unreached;
use vstd::prelude::*;

verus! {

/// The result of a poll.
pub enum Poll<T> {
    Ready(T),
    Pending,
}

/// The state of a promise.
pub enum Promise<TValue> {
    /// Not settled yet.
    Pending,
    /// Settled with this value.
    Resolved(TValue),
    /// Failed with this message.
    Rejected(String),
}

/// The place of a promise that is started when it is first polled for, and anew after it was
/// settled.
pub struct PromiseSlot {
    /// Whether a promise was started and is not settled yet.
    pub outstanding: bool,
}

/// What a poll for a stream is fed.
pub enum StreamInput<TValue, TBidi, TStream> {
    /// The poll begins.
    Start,
    /// The state of the promise.
    Promise(Promise<TValue>),
    /// The value in the response of the reader: none when the reader is closed, and
    /// a message when the response is malformed.
    Response(Result<Option<TValue>, String>),
    /// The value as a bidirectional stream of the session.
    Cast(Result<TBidi, Error>),
    /// The stream over the bidirectional stream.
    Opened(Result<TStream, Error>),
}

/// What a poll for a stream does next.
pub enum StreamAction<TValue, TBidi, TStream> {
    /// Poll the promise, after starting a new one where `start` says so.
    PollPromise { start: bool },
    /// Parse the response of the reader.
    ParseResponse(TValue),
    /// Cast the value to a bidirectional stream of the session.
    Cast(TValue),
    /// Open a stream over the bidirectional stream.
    Open(TBidi),
    /// The poll ends with this.
    Return(Poll<Result<TStream, Error>>),
}

/// Whether `action` ends the poll with an error of the session that reads `message`.
pub open spec fn fails_with<TValue, TBidi, TStream>(
    action: StreamAction<TValue, TBidi, TStream>,
    message: Seq<char>,
) -> bool {
    &&& action matches StreamAction::Return(Poll::Ready(Err(Error::JsError(text))))
    &&& text@ == message
}

/// Whether a promise is outstanding after `input`, if `outstanding` says whether one was
/// before: the beginning of a poll leaves one outstanding, and a settled one no longer is.
pub open spec fn outstanding_after<TValue, TBidi, TStream>(
    outstanding: bool,
    input: StreamInput<TValue, TBidi, TStream>,
) -> bool {
    match input {
        StreamInput::Start => true,
        StreamInput::Promise(Promise::Resolved(_)) => false,
        StreamInput::Promise(Promise::Rejected(_)) => false,
        _ => outstanding,
    }
}

/// What follows on `input` in a poll for an outbound stream, if `outstanding` says whether a
/// promise is outstanding.  The response of a reader is told of here too, though only a poll
/// for an inbound stream meets one.
pub open spec fn stream_turn<TValue, TBidi, TStream>(
    outstanding: bool,
    input: StreamInput<TValue, TBidi, TStream>,
    action: StreamAction<TValue, TBidi, TStream>,
) -> bool {
    match input {
        StreamInput::Start => action == StreamAction::<TValue, TBidi, TStream>::PollPromise {
            start: !outstanding,
        },
        StreamInput::Promise(Promise::Pending) => action matches StreamAction::Return(
            Poll::Pending,
        ),
        StreamInput::Promise(Promise::Rejected(message)) => fails_with(action, message@),
        StreamInput::Promise(Promise::Resolved(value)) => action == StreamAction::<
            TValue,
            TBidi,
            TStream,
        >::Cast(value),
        StreamInput::Response(Err(message)) => fails_with(action, message@),
        StreamInput::Response(Ok(None)) => fails_with(
            action,
            "incoming_bidirectional_streams closed"@,
        ),
        StreamInput::Response(Ok(Some(value))) => action == StreamAction::<
            TValue,
            TBidi,
            TStream,
        >::Cast(value),
        StreamInput::Cast(Ok(bidi)) => action == StreamAction::<TValue, TBidi, TStream>::Open(bidi),
        StreamInput::Cast(Err(error)) => action == StreamAction::<TValue, TBidi, TStream>::Return(
            Poll::Ready(Err(error)),
        ),
        StreamInput::Opened(result) => action == StreamAction::<TValue, TBidi, TStream>::Return(
            Poll::Ready(result),
        ),
    }
}

/// What follows on `input` in a poll for an inbound stream: a value of the promise is
/// a response of the reader, to be parsed first.
pub open spec fn incoming_turn<TValue, TBidi, TStream>(
    outstanding: bool,
    input: StreamInput<TValue, TBidi, TStream>,
    action: StreamAction<TValue, TBidi, TStream>,
) -> bool {
    match input {
        StreamInput::Promise(Promise::Resolved(value)) => action == StreamAction::<
            TValue,
            TBidi,
            TStream,
        >::ParseResponse(value),
        _ => stream_turn(outstanding, input, action),
    }
}

/// Takes a turn that is the same for outbound and inbound streams: any but the one in
/// which the promise has its value.
fn shared_turn<TValue, TBidi, TStream>(
    slot: &mut PromiseSlot,
    input: StreamInput<TValue, TBidi, TStream>,
) -> (action: StreamAction<TValue, TBidi, TStream>)
    requires
        !(input matches StreamInput::Promise(Promise::Resolved(_))),
    ensures
        final(slot).outstanding == outstanding_after(old(slot).outstanding, input),
        stream_turn(old(slot).outstanding, input, action),
{
    match input {
        StreamInput::Start => {
            let start = !slot.outstanding;
            slot.outstanding = true;
            StreamAction::PollPromise { start }
        },
        StreamInput::Promise(Promise::Pending) => StreamAction::Return(Poll::Pending),
        StreamInput::Promise(Promise::Resolved(_)) => unreached(),
        StreamInput::Promise(Promise::Rejected(message)) => {
            slot.outstanding = false;
            StreamAction::Return(Poll::Ready(Err(Error::JsError(message))))
        },
        StreamInput::Response(Err(message)) => StreamAction::Return(
            Poll::Ready(Err(Error::JsError(message))),
        ),
        StreamInput::Response(Ok(None)) => StreamAction::Return(
            Poll::Ready(
                Err(Error::JsError("incoming_bidirectional_streams closed".to_owned())),
            ),
        ),
        StreamInput::Response(Ok(Some(value))) => StreamAction::Cast(value),
        StreamInput::Cast(Ok(bidi)) => StreamAction::Open(bidi),
        StreamInput::Cast(Err(error)) => StreamAction::Return(Poll::Ready(Err(error))),
        StreamInput::Opened(result) => StreamAction::Return(Poll::Ready(result)),
    }
}

/// Takes one turn of a poll for an outbound stream.
pub fn poll_create_bidirectional_stream<TValue, TBidi, TStream>(
    slot: &mut PromiseSlot,
    input: StreamInput<TValue, TBidi, TStream>,
) -> (action: StreamAction<TValue, TBidi, TStream>)
    requires
        !(input is Response),
    ensures
        final(slot).outstanding == outstanding_after(old(slot).outstanding, input),
        stream_turn(old(slot).outstanding, input, action),
{
    match input {
        StreamInput::Promise(Promise::Resolved(value)) => {
            slot.outstanding = false;
            StreamAction::Cast(value)
        },
        _ => shared_turn(slot, input),
    }
}

/// Takes one turn of a poll for an inbound stream.
pub fn poll_incoming_bidirectional_streams<TValue, TBidi, TStream>(
    slot: &mut PromiseSlot,
    input: StreamInput<TValue, TBidi, TStream>,
) -> (action: StreamAction<TValue, TBidi, TStream>)
    ensures
        final(slot).outstanding == outstanding_after(old(slot).outstanding, input),
        incoming_turn(old(slot).outstanding, input, action),
{
    match input {
        StreamInput::Promise(Promise::Resolved(value)) => {
            slot.outstanding = false;
            StreamAction::ParseResponse(value)
        },
        _ => shared_turn(slot, input),
    }
}

} // verus!
