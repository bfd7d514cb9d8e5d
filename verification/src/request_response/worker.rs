//! The work that runs on a negotiated substream, one step at a time.

use crate::request_response::message::{Codec, Event, RequestId};
use futures::channel::oneshot;
use vstd::prelude::*;

verus! {

/// Why the work on a substream ended without an event.
pub enum WorkerError {
    /// Reading, writing or closing the substream failed.
    Io(std::io::Error),
    /// The substream timeout elapsed first.
    TimedOut,
}

/// How the race between the work on a substream and its timeout ended.
pub enum Race<T> {
    /// The work was finished with this result.
    Finished(T),
    /// The timeout elapsed.
    TimedOut,
}

/// The progress of the work on an inbound substream.
pub enum InboundStage {
    /// Waiting for the request to be read.
    Reading,
    /// Waiting for the request to be handed to the handler.
    Forwarding,
    /// Waiting for the response, or for its sender to be dropped.
    Responding,
    /// Waiting for the response to be written.
    Writing,
    /// Waiting for the substream to be closed after a response.
    ClosingSent,
    /// Waiting for the substream to be closed without a response.
    ClosingOmitted,
    /// Finished.
    Done,
}

/// What the work on an inbound substream has to wait for next.
pub enum InboundAction<TCodec: Codec> {
    /// Read the request from the substream.
    ReadRequest,
    /// Hand the request to the handler.
    ForwardRequest { request_id: RequestId, request: TCodec::Request },
    /// Wait for the response.
    AwaitResponse,
    /// Write the response to the substream.
    WriteResponse(TCodec::Response),
    /// Close the substream.
    CloseStream,
    /// Nothing: the work ends with this result.
    Finish(Result<Event<TCodec>, WorkerError>),
}

/// The outcome of an [`InboundAction`].
pub enum InboundInput<TCodec: Codec> {
    RequestRead(Result<TCodec::Request, std::io::Error>),
    RequestForwarded,
    Responded(Result<TCodec::Response, oneshot::Canceled>),
    ResponseWritten(Result<(), std::io::Error>),
    StreamClosed(Result<(), std::io::Error>),
}

/// The work on an inbound substream: read a request, hand it to the handler, and
/// answer it.
pub struct InboundWorker {
    pub request_id: RequestId,
    pub stage: InboundStage,
}

/// Whether `input` is the outcome of what `stage` waits for.
pub open spec fn inbound_expects<TCodec: Codec>(
    stage: InboundStage,
    input: InboundInput<TCodec>,
) -> bool {
    match stage {
        InboundStage::Reading => input is RequestRead,
        InboundStage::Forwarding => input is RequestForwarded,
        InboundStage::Responding => input is Responded,
        InboundStage::Writing => input is ResponseWritten,
        InboundStage::ClosingSent => input is StreamClosed,
        InboundStage::ClosingOmitted => input is StreamClosed,
        InboundStage::Done => false,
    }
}

/// The stage and the action that follow on `input`.  A failure of the substream
/// ends the work with that failure.
pub open spec fn inbound_next<TCodec: Codec>(
    request_id: RequestId,
    stage: InboundStage,
    input: InboundInput<TCodec>,
) -> (InboundStage, InboundAction<TCodec>) {
    match input {
        InboundInput::RequestRead(Ok(request)) => (
            InboundStage::Forwarding,
            InboundAction::ForwardRequest { request_id, request },
        ),
        InboundInput::RequestForwarded => (InboundStage::Responding, InboundAction::AwaitResponse),
        InboundInput::Responded(Ok(response)) => (
            InboundStage::Writing,
            InboundAction::WriteResponse(response),
        ),
        InboundInput::Responded(Err(_)) => (
            InboundStage::ClosingOmitted,
            InboundAction::CloseStream,
        ),
        InboundInput::ResponseWritten(Ok(_)) => (
            InboundStage::ClosingSent,
            InboundAction::CloseStream,
        ),
        InboundInput::StreamClosed(Ok(_)) => (
            InboundStage::Done,
            InboundAction::Finish(
                Ok(
                    if stage is ClosingSent {
                        Event::ResponseSent(request_id)
                    } else {
                        Event::ResponseOmission(request_id)
                    },
                ),
            ),
        ),
        InboundInput::RequestRead(Err(error)) => (
            InboundStage::Done,
            InboundAction::Finish(Err(WorkerError::Io(error))),
        ),
        InboundInput::ResponseWritten(Err(error)) => (
            InboundStage::Done,
            InboundAction::Finish(Err(WorkerError::Io(error))),
        ),
        InboundInput::StreamClosed(Err(error)) => (
            InboundStage::Done,
            InboundAction::Finish(Err(WorkerError::Io(error))),
        ),
    }
}

impl InboundWorker {
    /// Work on the inbound substream that carries the request `request_id`.
    pub fn new(request_id: RequestId) -> (worker: InboundWorker)
        ensures
            worker.request_id == request_id,
            worker.stage is Reading,
    {
        InboundWorker { request_id, stage: InboundStage::Reading }
    }

    /// The first action.
    pub fn start<TCodec: Codec>(&self) -> (action: InboundAction<TCodec>)
        ensures
            action is ReadRequest,
    {
        InboundAction::ReadRequest
    }

    /// Takes the outcome of the last action and says what to do next.
    pub fn step<TCodec: Codec>(&mut self, input: InboundInput<TCodec>) -> (action: InboundAction<
        TCodec,
    >)
        requires
            inbound_expects(old(self).stage, input),
        ensures
            final(self).request_id == old(self).request_id,
            (final(self).stage, action) == inbound_next(
                old(self).request_id,
                old(self).stage,
                input,
            ),
    {
        let request_id = self.request_id;
        match input {
            InboundInput::RequestRead(Ok(request)) => {
                self.stage = InboundStage::Forwarding;
                InboundAction::ForwardRequest { request_id, request }
            },
            InboundInput::RequestForwarded => {
                self.stage = InboundStage::Responding;
                InboundAction::AwaitResponse
            },
            InboundInput::Responded(Ok(response)) => {
                self.stage = InboundStage::Writing;
                InboundAction::WriteResponse(response)
            },
            InboundInput::Responded(Err(_)) => {
                self.stage = InboundStage::ClosingOmitted;
                InboundAction::CloseStream
            },
            InboundInput::ResponseWritten(Ok(_)) => {
                self.stage = InboundStage::ClosingSent;
                InboundAction::CloseStream
            },
            InboundInput::StreamClosed(Ok(_)) => {
                let event = match self.stage {
                    InboundStage::ClosingSent => Event::ResponseSent(request_id),
                    _ => Event::ResponseOmission(request_id),
                };
                self.stage = InboundStage::Done;
                InboundAction::Finish(Ok(event))
            },
            InboundInput::RequestRead(Err(error)) => {
                self.stage = InboundStage::Done;
                InboundAction::Finish(Err(WorkerError::Io(error)))
            },
            InboundInput::ResponseWritten(Err(error)) => {
                self.stage = InboundStage::Done;
                InboundAction::Finish(Err(WorkerError::Io(error)))
            },
            InboundInput::StreamClosed(Err(error)) => {
                self.stage = InboundStage::Done;
                InboundAction::Finish(Err(WorkerError::Io(error)))
            },
        }
    }

    /// The result of an inbound substream: that of its work, or an error where the
    /// timeout elapsed first.
    pub fn outcome<TCodec: Codec>(race: Race<Result<Event<TCodec>, WorkerError>>) -> (result: Result<
        Event<TCodec>,
        WorkerError,
    >)
        ensures
            result == match race {
                Race::Finished(done) => done,
                Race::TimedOut => Err(WorkerError::TimedOut),
            },
    {
        match race {
            Race::Finished(done) => done,
            Race::TimedOut => Err(WorkerError::TimedOut),
        }
    }
}

/// The progress of the work on an outbound substream.
pub enum OutboundStage {
    /// Waiting for the request to be written.
    Writing,
    /// Waiting for the write half of the substream to be closed.
    Closing,
    /// Waiting for the response to be read.
    Reading,
    /// Finished.
    Done,
}

/// What the work on an outbound substream has to wait for next.
pub enum OutboundAction<TCodec: Codec> {
    /// Write the request to the substream.
    WriteRequest(TCodec::Request),
    /// Close the substream for writing.
    CloseStream,
    /// Read the response from the substream.
    ReadResponse,
    /// Nothing: the work ends with this result.
    Finish(Result<Event<TCodec>, WorkerError>),
}

/// The outcome of an [`OutboundAction`].
pub enum OutboundInput<TCodec: Codec> {
    RequestWritten(Result<(), std::io::Error>),
    StreamClosed(Result<(), std::io::Error>),
    ResponseRead(Result<TCodec::Response, std::io::Error>),
}

/// The work on an outbound substream: write a request and read its response.
pub struct OutboundWorker {
    pub request_id: RequestId,
    pub stage: OutboundStage,
}

/// Whether `input` is the outcome of what `stage` waits for.
pub open spec fn outbound_expects<TCodec: Codec>(
    stage: OutboundStage,
    input: OutboundInput<TCodec>,
) -> bool {
    match stage {
        OutboundStage::Writing => input is RequestWritten,
        OutboundStage::Closing => input is StreamClosed,
        OutboundStage::Reading => input is ResponseRead,
        OutboundStage::Done => false,
    }
}

/// The stage and the action that follow on `input`.  A failure of the substream
/// ends the work with that failure.
pub open spec fn outbound_next<TCodec: Codec>(
    request_id: RequestId,
    input: OutboundInput<TCodec>,
) -> (OutboundStage, OutboundAction<TCodec>) {
    match input {
        OutboundInput::RequestWritten(Ok(_)) => (
            OutboundStage::Closing,
            OutboundAction::CloseStream,
        ),
        OutboundInput::StreamClosed(Ok(_)) => (
            OutboundStage::Reading,
            OutboundAction::ReadResponse,
        ),
        OutboundInput::ResponseRead(Ok(response)) => (
            OutboundStage::Done,
            OutboundAction::Finish(Ok(Event::Response { request_id, response })),
        ),
        OutboundInput::RequestWritten(Err(error)) => (
            OutboundStage::Done,
            OutboundAction::Finish(Err(WorkerError::Io(error))),
        ),
        OutboundInput::StreamClosed(Err(error)) => (
            OutboundStage::Done,
            OutboundAction::Finish(Err(WorkerError::Io(error))),
        ),
        OutboundInput::ResponseRead(Err(error)) => (
            OutboundStage::Done,
            OutboundAction::Finish(Err(WorkerError::Io(error))),
        ),
    }
}

impl OutboundWorker {
    /// Work on the outbound substream of the request `request_id`.
    pub fn new(request_id: RequestId) -> (worker: OutboundWorker)
        ensures
            worker.request_id == request_id,
            worker.stage is Writing,
    {
        OutboundWorker { request_id, stage: OutboundStage::Writing }
    }

    /// The first action.
    pub fn start<TCodec: Codec>(&self, request: TCodec::Request) -> (action: OutboundAction<TCodec>)
        ensures
            action == OutboundAction::<TCodec>::WriteRequest(request),
    {
        OutboundAction::WriteRequest(request)
    }

    /// Takes the outcome of the last action and says what to do next.
    pub fn step<TCodec: Codec>(&mut self, input: OutboundInput<TCodec>) -> (action: OutboundAction<
        TCodec,
    >)
        requires
            outbound_expects(old(self).stage, input),
        ensures
            final(self).request_id == old(self).request_id,
            (final(self).stage, action) == outbound_next(old(self).request_id, input),
    {
        let request_id = self.request_id;
        match input {
            OutboundInput::RequestWritten(Ok(_)) => {
                self.stage = OutboundStage::Closing;
                OutboundAction::CloseStream
            },
            OutboundInput::StreamClosed(Ok(_)) => {
                self.stage = OutboundStage::Reading;
                OutboundAction::ReadResponse
            },
            OutboundInput::ResponseRead(Ok(response)) => {
                self.stage = OutboundStage::Done;
                OutboundAction::Finish(Ok(Event::Response { request_id, response }))
            },
            OutboundInput::RequestWritten(Err(error)) => {
                self.stage = OutboundStage::Done;
                OutboundAction::Finish(Err(WorkerError::Io(error)))
            },
            OutboundInput::StreamClosed(Err(error)) => {
                self.stage = OutboundStage::Done;
                OutboundAction::Finish(Err(WorkerError::Io(error)))
            },
            OutboundInput::ResponseRead(Err(error)) => {
                self.stage = OutboundStage::Done;
                OutboundAction::Finish(Err(WorkerError::Io(error)))
            },
        }
    }

    /// The result of an outbound substream: that of its work, or the event that
    /// reports the timeout of the request where the timeout elapsed first.
    pub fn outcome<TCodec: Codec>(
        request_id: RequestId,
        race: Race<Result<Event<TCodec>, WorkerError>>,
    ) -> (result: Result<Event<TCodec>, WorkerError>)
        ensures
            result == match race {
                Race::Finished(done) => done,
                Race::TimedOut => Ok(Event::OutboundTimeout(request_id)),
            },
    {
        match race {
            Race::Finished(done) => done,
            Race::TimedOut => Ok(Event::OutboundTimeout(request_id)),
        }
    }
}

} // verus!
