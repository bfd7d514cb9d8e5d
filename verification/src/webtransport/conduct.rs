//! What a connection does, told by what happened to it and what it answered.

use crate::webtransport::connection::{Connection, ConnectionState, SessionRequest};
use crate::webtransport::error::Error;
use crate::webtransport::laws::{life, operates, Operation};
use crate::webtransport::streams::{
    poll_create_bidirectional_stream, poll_incoming_bidirectional_streams, Poll, Promise,
    PromiseSlot, StreamAction, StreamInput,
};
use libp2p_core::multihash::Multihash;
use std::collections::HashSet;
use vstd::prelude::*;

verus! {

/// Whether a promise is outstanding, of an inbound stream or of an outbound one: a poll in that
/// direction began, and no promise was settled in it since.
pub open spec fn unsettled<TValue, TBidi, TStream>(
    operations: Seq<Operation<TValue, TBidi, TStream>>,
    inbound: bool,
) -> bool
    decreases operations.len(),
{
    if operations.len() == 0 {
        false
    } else {
        let before = unsettled(operations.drop_last(), inbound);
        match operations.last() {
            Operation::PollInbound(StreamInput::Start, _) => inbound || before,
            Operation::PollOutbound(StreamInput::Start, _) => !inbound || before,
            Operation::PollInbound(StreamInput::Promise(promise), _) => if inbound && !(promise
                is Pending) {
                false
            } else {
                before
            },
            Operation::PollOutbound(StreamInput::Promise(promise), _) => if !inbound && !(promise
                is Pending) {
                false
            } else {
                before
            },
            _ => before,
        }
    }
}

/// Whether the connection was closed.
pub open spec fn closed<TValue, TBidi, TStream>(
    operations: Seq<Operation<TValue, TBidi, TStream>>,
) -> bool {
    exists|k: int| 0 <= k < operations.len() && #[trigger] operations[k] is Close
}

/// The state is that of a connection just opened.
pub open spec fn opens<TSession, TReader>(
    session: TSession,
    reader: TReader,
    state: ConnectionState<TSession, TReader>,
) -> bool {
    &&& state.session == session
    &&& state.incoming_streams_reader == reader
    &&& !state.creating_stream
    &&& !state.awaiting_stream
    &&& !state.closed
}

/// The state of a connection follows from what happened to it.
pub open spec fn accounts<TSession, TReader, TValue, TBidi, TStream>(
    session: TSession,
    reader: TReader,
    operations: Seq<Operation<TValue, TBidi, TStream>>,
    state: ConnectionState<TSession, TReader>,
) -> bool {
    &&& state.session == session
    &&& state.incoming_streams_reader == reader
    &&& state.creating_stream == unsettled(operations, false)
    &&& state.awaiting_stream == unsettled(operations, true)
    &&& state.closed == closed(operations)
}

/// The state at every point of the life of a connection accounts for what happened before:
/// it keeps its session and its reader, a promise is outstanding in each direction from the
/// beginning of a poll until it is settled, and the connection is closed once it was closed.
pub proof fn law_life_accounts<TSession, TReader, TValue, TBidi, TStream>(
    session: TSession,
    reader: TReader,
    states: Seq<ConnectionState<TSession, TReader>>,
    operations: Seq<Operation<TValue, TBidi, TStream>>,
    i: int,
)
    requires
        life(states, operations),
        opens(session, reader, states[0]),
        0 <= i <= operations.len(),
    ensures
        accounts(session, reader, operations.take(i), states[i]),
    decreases i,
{
    if i > 0 {
        law_life_accounts(session, reader, states, operations, i - 1);
        assert(operates(states[i - 1], operations[i - 1], states[i - 1 + 1]));
        let (earlier, now) = (operations.take(i - 1), operations.take(i));
        assert(now.drop_last() =~= earlier);
        assert(now.last() == operations[i - 1]);
        if operations[i - 1] is Close {
            assert(now[i - 1] is Close);
        }
        assert(forall|k: int| 0 <= k < i - 1 ==> #[trigger] now[k] == earlier[k]);
        if closed(earlier) {
            let k = choose|k: int| 0 <= k < earlier.len() && #[trigger] earlier[k] is Close;
            assert(now[k] is Close);
        }
        if closed(now) {
            let k = choose|k: int| 0 <= k < now.len() && #[trigger] now[k] is Close;
            if k < i - 1 {
                assert(earlier[k] is Close);
            }
        }
    }
}

/// Whether the action ends a poll with an error of the session that reads `message`.
pub open spec fn ends_with_message<TValue, TBidi, TStream>(
    action: StreamAction<TValue, TBidi, TStream>,
    message: Seq<char>,
) -> bool {
    &&& action matches StreamAction::Return(Poll::Ready(Err(error)))
    &&& error matches Error::JsError(text)
    &&& text@ == message
}

/// What the connection answers in a poll for a stream.  The poll begins with the promise,
/// which is started exactly if none is outstanding in that direction.  While that is pending
/// the poll is.  The value of the promise is the stream of the session, or, of an inbound
/// stream, the response of the reader that holds it; a reader that is closed is an error.  The
/// stream of the session is cast, opened, and returned.  Each failure on the way is returned
/// as it is.
pub proof fn law_stream_answers<TSession, TReader, TValue, TBidi, TStream>(
    session: TSession,
    reader: TReader,
    states: Seq<ConnectionState<TSession, TReader>>,
    operations: Seq<Operation<TValue, TBidi, TStream>>,
    i: int,
    inbound: bool,
    input: StreamInput<TValue, TBidi, TStream>,
    action: StreamAction<TValue, TBidi, TStream>,
)
    requires
        life(states, operations),
        opens(session, reader, states[0]),
        0 <= i < operations.len(),
        inbound ==> operations[i] == Operation::PollInbound(input, action),
        !inbound ==> operations[i] == Operation::PollOutbound(input, action),
    ensures
        match input {
            StreamInput::Start => action matches StreamAction::PollPromise { start } && start
                == !unsettled(operations.take(i), inbound),
            StreamInput::Promise(Promise::Pending) => action matches StreamAction::Return(poll)
                && poll is Pending,
            StreamInput::Promise(Promise::Rejected(message)) => ends_with_message(action, message@),
            StreamInput::Promise(Promise::Resolved(value)) => if inbound {
                action matches StreamAction::ParseResponse(response) && response == value
            } else {
                action matches StreamAction::Cast(stream) && stream == value
            },
            StreamInput::Response(Err(message)) => ends_with_message(action, message@),
            StreamInput::Response(Ok(None)) => ends_with_message(
                action,
                "incoming_bidirectional_streams closed"@,
            ),
            StreamInput::Response(Ok(Some(value))) => action matches StreamAction::Cast(stream)
                && stream == value,
            StreamInput::Cast(Ok(bidi)) => action matches StreamAction::Open(on) && on == bidi,
            StreamInput::Cast(Err(error)) => {
                &&& action matches StreamAction::Return(Poll::Ready(result))
                &&& result == Err::<TStream, Error>(error)
            },
            StreamInput::Opened(opened) => {
                &&& action matches StreamAction::Return(Poll::Ready(result))
                &&& result == opened
            },
        },
{
    law_life_accounts(session, reader, states, operations, i);
    assert(operates(states[i], operations[i], states[i + 1]));
}

/// A connection is made of an open session exactly if there is a reader of its inbound
/// streams, and begins with both, open, with no promise outstanding.  Else the error is that of
/// the reader.
pub proof fn law_new_opens<TSession, TReader>(
    session: TSession,
    reader: Result<TReader, Error>,
    made: Result<Connection<TSession, TReader>, Error>,
)
    requires
        call_ensures(Connection::<TSession, TReader>::new, (session, reader), made),
    ensures
        match (reader, made) {
            (Ok(reader), Ok(connection)) => opens(session, reader, connection@),
            (Err(error), Err(failure)) => failure == error,
            _ => false,
        },
{
}

/// A session is pinned exactly if there are certificate hashes, and opened at the given place
/// either way.
pub proof fn law_session_request<TSession, TReader>(
    url: String,
    certhashes: HashSet<Multihash<64>>,
    request: SessionRequest,
)
    requires
        call_ensures(
            Connection::<TSession, TReader>::session_request,
            (url, &certhashes),
            request,
        ),
    ensures
        request is Pinned <==> exists|hash: Multihash<64>| #[trigger] certhashes@.contains(hash),
        match request {
            SessionRequest::Trusted { url: place } => place == url,
            SessionRequest::Pinned { url: place } => place == url,
        },
{
    if !certhashes@.is_empty() {
        assert(exists|hash: Multihash<64>| #[trigger] certhashes@.contains(hash)) by {
            if forall|hash: Multihash<64>| !(#[trigger] certhashes@.contains(hash)) {
                assert(certhashes@ =~= Set::empty());
            }
        }
    }
}

/// A session that was opened is handed on, and a failure to open it with its message.
pub proof fn law_session_opened<TSession, TReader>(
    session: Result<TSession, String>,
    opened: Result<TSession, Error>,
)
    requires
        call_ensures(Connection::<TSession, TReader>::session_opened, (session,), opened),
    ensures
        match (session, opened) {
            (Ok(session), Ok(handed)) => handed == session,
            (Err(message), Err(Error::JsError(text))) => text == message,
            _ => false,
        },
{
}

/// At any point of its life a connection shows the session and the reader that it was made
/// with.
pub proof fn law_session_is_shown<TSession, TReader, TValue, TBidi, TStream>(
    session: TSession,
    reader: TReader,
    operations: Seq<Operation<TValue, TBidi, TStream>>,
    connection: &Connection<TSession, TReader>,
    shown: &TSession,
    reads: &TReader,
)
    requires
        accounts(session, reader, operations, connection@),
        call_ensures(Connection::<TSession, TReader>::session, (connection,), shown),
        call_ensures(Connection::<TSession, TReader>::incoming_streams_reader, (connection,), reads),
    ensures
        *shown == session,
        *reads == reader,
{
}

/// `poll_inbound` is the step of a life that polls for an inbound stream, and takes any input.
pub proof fn law_poll_inbound_operates<TSession, TReader, TValue, TBidi, TStream>(
    connection: &mut Connection<TSession, TReader>,
    input: StreamInput<TValue, TBidi, TStream>,
    action: StreamAction<TValue, TBidi, TStream>,
)
    requires
        call_ensures(
            Connection::<TSession, TReader>::poll_inbound::<TValue, TBidi, TStream>,
            (connection, input),
            action,
        ),
    ensures
        call_requires(
            Connection::<TSession, TReader>::poll_inbound::<TValue, TBidi, TStream>,
            (connection, input),
        ),
        operates(old(connection)@, Operation::PollInbound(input, action), final(connection)@),
{
}

/// `poll_outbound` is the step of a life that polls for an outbound stream, and takes any
/// input but the response of a reader.
pub proof fn law_poll_outbound_operates<TSession, TReader, TValue, TBidi, TStream>(
    connection: &mut Connection<TSession, TReader>,
    input: StreamInput<TValue, TBidi, TStream>,
    action: StreamAction<TValue, TBidi, TStream>,
)
    requires
        !(input is Response),
        call_ensures(
            Connection::<TSession, TReader>::poll_outbound::<TValue, TBidi, TStream>,
            (connection, input),
            action,
        ),
    ensures
        call_requires(
            Connection::<TSession, TReader>::poll_outbound::<TValue, TBidi, TStream>,
            (connection, input),
        ),
        operates(old(connection)@, Operation::PollOutbound(input, action), final(connection)@),
{
}

/// `poll` is the step of a life that polls for events, of which there are none.
pub proof fn law_poll_operates<TSession, TReader, TEvent, TValue, TBidi, TStream>(
    connection: &mut Connection<TSession, TReader>,
    event: Poll<Result<TEvent, Error>>,
)
    requires
        call_ensures(Connection::<TSession, TReader>::poll::<TEvent>, (connection,), event),
    ensures
        event is Pending,
        operates(
            old(connection)@,
            Operation::<TValue, TBidi, TStream>::Poll,
            final(connection)@,
        ),
{
}

/// `close_session` and `poll_close` are the steps of a life that close, and `poll_close` never
/// has to wait and never fails.
pub proof fn law_close_operates<TSession, TReader, TValue, TBidi, TStream>(
    connection: &mut Connection<TSession, TReader>,
    close_now: bool,
    polled: &mut Connection<TSession, TReader>,
    closing: (bool, Poll<Result<(), Error>>),
)
    requires
        call_ensures(Connection::<TSession, TReader>::close_session, (connection,), close_now),
        call_ensures(Connection::<TSession, TReader>::poll_close, (polled,), closing),
    ensures
        operates(
            old(connection)@,
            Operation::<TValue, TBidi, TStream>::Close { close_now },
            final(connection)@,
        ),
        operates(
            old(polled)@,
            Operation::<TValue, TBidi, TStream>::Close { close_now: closing.0 },
            final(polled)@,
        ),
        closing.1 matches Poll::Ready(result) && result is Ok,
{
}

/// The poll for an outbound stream does on a slot of a promise what a connection does on its
/// own.
pub proof fn law_create_stream_operates<TSession, TReader, TValue, TBidi, TStream>(
    state: ConnectionState<TSession, TReader>,
    slot: &mut PromiseSlot,
    input: StreamInput<TValue, TBidi, TStream>,
    action: StreamAction<TValue, TBidi, TStream>,
)
    requires
        state.creating_stream == old(slot).outstanding,
        !(input is Response),
        call_ensures(
            poll_create_bidirectional_stream::<TValue, TBidi, TStream>,
            (slot, input),
            action,
        ),
    ensures
        operates(
            state,
            Operation::PollOutbound(input, action),
            (ConnectionState { creating_stream: final(slot).outstanding, ..state }),
        ),
{
}

/// The poll for an inbound stream does on a slot of a promise what a connection does on its
/// own.
pub proof fn law_incoming_streams_operate<TSession, TReader, TValue, TBidi, TStream>(
    state: ConnectionState<TSession, TReader>,
    slot: &mut PromiseSlot,
    input: StreamInput<TValue, TBidi, TStream>,
    action: StreamAction<TValue, TBidi, TStream>,
)
    requires
        state.awaiting_stream == old(slot).outstanding,
        call_ensures(
            poll_incoming_bidirectional_streams::<TValue, TBidi, TStream>,
            (slot, input),
            action,
        ),
    ensures
        operates(
            state,
            Operation::PollInbound(input, action),
            (ConnectionState { awaiting_stream: final(slot).outstanding, ..state }),
        ),
{
}

} // verus!
