//! Opening and closing a session.

use crate::webtransport::error::Error;
use crate::webtransport::streams::{
    incoming_turn, outstanding_after, poll_create_bidirectional_stream,
    poll_incoming_bidirectional_streams, stream_turn, Poll, PromiseSlot, StreamAction, StreamInput,
};
use libp2p_core::multihash::Multihash;
use std::collections::HashSet;
use vstd::prelude::*;

verus! {

/// How a session is to be opened.
pub enum SessionRequest {
    /// The endpoint has a CA-signed TLS certificate.
    Trusted { url: String },
    /// The endpoint has self-signed TLS certificates, known by their hashes.
    Pinned { url: String },
}

/// An opened WebTransport connection.
pub struct Connection<TSession, TReader> {
    session: TSession,
    create_stream_promise: PromiseSlot,
    incoming_stream_promise: PromiseSlot,
    incoming_streams_reader: TReader,
    closed: bool,
}

/// The state of a connection.
pub struct ConnectionState<TSession, TReader> {
    pub session: TSession,
    /// Whether a promise of an outbound stream is outstanding.
    pub creating_stream: bool,
    /// Whether a promise of an inbound stream is outstanding.
    pub awaiting_stream: bool,
    /// The reader of the inbound streams of the session.
    pub incoming_streams_reader: TReader,
    /// Whether the session was closed from this side.
    pub closed: bool,
}

impl<TSession, TReader> View for Connection<TSession, TReader> {
    type V = ConnectionState<TSession, TReader>;

    closed spec fn view(&self) -> ConnectionState<TSession, TReader> {
        ConnectionState {
            session: self.session,
            creating_stream: self.create_stream_promise.outstanding,
            awaiting_stream: self.incoming_stream_promise.outstanding,
            incoming_streams_reader: self.incoming_streams_reader,
            closed: self.closed,
        }
    }
}

impl<TSession, TReader> Connection<TSession, TReader> {
    /// How to open a session at `url`.
    pub fn session_request(
        url: String,
        certhashes: &HashSet<Multihash<64>>,
    ) -> (request: SessionRequest)
        ensures
            request == if certhashes@.is_empty() {
                SessionRequest::Trusted { url }
            } else {
                SessionRequest::Pinned { url }
            },
    {
        if certhashes.is_empty() {
            SessionRequest::Trusted { url }
        } else {
            SessionRequest::Pinned { url }
        }
    }

    /// Takes the session, or the message of the failure to open it.
    pub fn session_opened(session: Result<TSession, String>) -> (opened: Result<TSession, Error>)
        ensures
            opened == match session {
                Ok(session) => Ok(session),
                Err(message) => Err(Error::JsError(message)),
            },
    {
        match session {
            Ok(session) => Ok(session),
            Err(message) => Err(Error::JsError(message)),
        }
    }

    /// A connection over an open session, given the reader of its inbound streams.
    pub fn new(session: TSession, reader: Result<TReader, Error>) -> (connection: Result<Self, Error>)
        ensures
            match reader {
                Ok(reader) => {
                    &&& connection matches Ok(connection)
                    &&& connection@ == ConnectionState {
                        session,
                        creating_stream: false,
                        awaiting_stream: false,
                        incoming_streams_reader: reader,
                        closed: false,
                    }
                },
                Err(error) => connection == Err::<Self, Error>(error),
            },
    {
        match reader {
            Ok(incoming_streams_reader) => Ok(
                Connection {
                    session,
                    create_stream_promise: PromiseSlot { outstanding: false },
                    incoming_stream_promise: PromiseSlot { outstanding: false },
                    incoming_streams_reader,
                    closed: false,
                },
            ),
            Err(error) => Err(error),
        }
    }

    /// The session of the connection.
    pub fn session(&self) -> (session: &TSession)
        ensures
            *session == self@.session,
    {
        &self.session
    }

    /// The reader of the inbound streams of the session.
    pub fn incoming_streams_reader(&self) -> (reader: &TReader)
        ensures
            *reader == self@.incoming_streams_reader,
    {
        &self.incoming_streams_reader
    }

    /// Closes the connection and says whether the session is to be closed now, which
    /// is so the first time only.
    ///
    /// This closes the streams also and they will return an error when they will be
    /// used.
    pub fn close_session(&mut self) -> (close_now: bool)
        ensures
            close_now == !old(self)@.closed,
            final(self)@ == (ConnectionState { closed: true, ..old(self)@ }),
    {
        if !self.closed {
            self.closed = true;
            true
        } else {
            false
        }
    }

    /// Takes one turn of a poll for an inbound stream.
    pub fn poll_inbound<TValue, TBidi, TStream>(
        &mut self,
        input: StreamInput<TValue, TBidi, TStream>,
    ) -> (action: StreamAction<TValue, TBidi, TStream>)
        ensures
            final(self)@ == (ConnectionState {
                awaiting_stream: outstanding_after(old(self)@.awaiting_stream, input),
                ..old(self)@
            }),
            incoming_turn(old(self)@.awaiting_stream, input, action),
    {
        poll_incoming_bidirectional_streams(&mut self.incoming_stream_promise, input)
    }

    /// Takes one turn of a poll for an outbound stream.
    pub fn poll_outbound<TValue, TBidi, TStream>(
        &mut self,
        input: StreamInput<TValue, TBidi, TStream>,
    ) -> (action: StreamAction<TValue, TBidi, TStream>)
        requires
            !(input is Response),
        ensures
            final(self)@ == (ConnectionState {
                creating_stream: outstanding_after(old(self)@.creating_stream, input),
                ..old(self)@
            }),
            stream_turn(old(self)@.creating_stream, input, action),
    {
        poll_create_bidirectional_stream(&mut self.create_stream_promise, input)
    }

    /// Closes the connection, which never has to wait.  Says also whether the session
    /// is to be closed now.
    pub fn poll_close(&mut self) -> (closing: (bool, Poll<Result<(), Error>>))
        ensures
            closing.0 == !old(self)@.closed,
            closing.1 == Poll::<Result<(), Error>>::Ready(Ok(())),
            final(self)@ == (ConnectionState { closed: true, ..old(self)@ }),
    {
        let close_now = self.close_session();
        (close_now, Poll::Ready(Ok(())))
    }

    /// A connection has no events of its own.
    pub fn poll<TEvent>(&mut self) -> (event: Poll<Result<TEvent, Error>>)
        ensures
            final(self)@ == old(self)@,
            event is Pending,
    {
        Poll::Pending
    }
}

} // verus!
