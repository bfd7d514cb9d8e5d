//! State machines of two libp2p components, with their contracts proved.
//!
//! [`request_response`] is the connection handler of the request-response
//! protocol: the queues of a connection, the order in which a poll serves them,
//! the keep-alive deadline, and the life of the substreams in both directions.
//!
//! [`webtransport`] is a WebTransport connection: opening the session,
//! authenticating the remote peer over noise, turning the promises of the
//! session into streams, and closing the session.
//!
//! Nothing here waits. What has to be awaited (futures, promises, timers) is
//! named by an action that a machine returns; the event loop performs it and
//! hands the outcome back as the next input.

pub mod outside;
pub mod request_response;
pub mod webtransport;
