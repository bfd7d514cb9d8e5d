//! What the handler passes around: requests, events and their identifiers.

use futures::channel::oneshot;
use vstd::prelude::*;

verus! {

/// The identifier of a request, inbound or outbound.
#[derive(Clone, Copy, Debug, PartialEq, Eq, PartialOrd, Ord, Hash, Structural)]
pub struct RequestId(pub u64);

/// The message types of a request-response protocol.
pub trait Codec {
    /// The name of a protocol, or of one version of it.
    type Protocol: Clone;

    /// The type of requests.
    type Request;

    /// The type of responses.
    type Response;
}

/// A request to be sent to the remote.
pub struct OutboundMessage<TCodec: Codec> {
    pub request_id: RequestId,
    pub request: TCodec::Request,
    /// The protocols to negotiate, in order of preference.
    pub protocols: Vec<TCodec::Protocol>,
}

/// The events emitted by the handler.
pub enum Event<TCodec: Codec> {
    /// A request has been received.
    Request {
        request_id: RequestId,
        request: TCodec::Request,
        sender: oneshot::Sender<TCodec::Response>,
    },
    /// A response has been received.
    Response { request_id: RequestId, response: TCodec::Response },
    /// A response to an inbound request has been sent.
    ResponseSent(RequestId),
    /// A response to an inbound request was omitted as a result
    /// of dropping the response `sender` of an inbound `Request`.
    ResponseOmission(RequestId),
    /// An outbound request timed out while sending the request
    /// or waiting for the response.
    OutboundTimeout(RequestId),
    /// An outbound request failed to negotiate a mutually supported protocol.
    OutboundUnsupportedProtocols(RequestId),
}

impl<TCodec: Codec> Event<TCodec> {
    /// The request that the event is about.
    pub open spec fn id(self) -> RequestId {
        match self {
            Event::Request { request_id, .. } => request_id,
            Event::Response { request_id, .. } => request_id,
            Event::ResponseSent(request_id) => request_id,
            Event::ResponseOmission(request_id) => request_id,
            Event::OutboundTimeout(request_id) => request_id,
            Event::OutboundUnsupportedProtocols(request_id) => request_id,
        }
    }
}

} // verus!
