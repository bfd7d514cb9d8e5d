//! What holds of a connection over time.

use crate::webtransport::authentication::{
    authentication_expects, authentication_turn, configures, Authentication,
    AuthenticationAction, AuthenticationInput,
};
use crate::webtransport::connection::ConnectionState;
use crate::webtransport::error::Error;
use crate::webtransport::streams::{
    fails_with, incoming_turn, outstanding_after, stream_turn, Poll, Promise, StreamAction,
    StreamInput,
};
use libp2p_core::multihash::Multihash;
use libp2p_identity::{Keypair, PeerId};
use std::collections::HashSet;
use vstd::prelude::*;
use vstd::std_specs::cmp::PartialEqSpec;

verus! {

/// Something that is done to a connection, with what the connection made of it.
pub enum Operation<TValue, TBidi, TStream> {
    /// It takes a turn of a poll for an inbound stream.
    PollInbound(StreamInput<TValue, TBidi, TStream>, StreamAction<TValue, TBidi, TStream>),
    /// It takes a turn of a poll for an outbound stream.
    PollOutbound(StreamInput<TValue, TBidi, TStream>, StreamAction<TValue, TBidi, TStream>),
    /// It is polled for events.
    Poll,
    /// It is closed, by a poll or because it goes out of use, and says whether the
    /// session is to be closed now.
    Close { close_now: bool },
}

/// The operation leads from `pre` to `post`.
pub open spec fn operates<TSession, TReader, TValue, TBidi, TStream>(
    pre: ConnectionState<TSession, TReader>,
    operation: Operation<TValue, TBidi, TStream>,
    post: ConnectionState<TSession, TReader>,
) -> bool {
    match operation {
        Operation::PollInbound(input, action) => {
            &&& post == ConnectionState {
                awaiting_stream: outstanding_after(pre.awaiting_stream, input),
                ..pre
            }
            &&& incoming_turn(pre.awaiting_stream, input, action)
        },
        Operation::PollOutbound(input, action) => {
            &&& post == ConnectionState {
                creating_stream: outstanding_after(pre.creating_stream, input),
                ..pre
            }
            &&& stream_turn(pre.creating_stream, input, action)
        },
        Operation::Poll => post == pre,
        Operation::Close { close_now } => {
            &&& close_now == !pre.closed
            &&& post == ConnectionState { closed: true, ..pre }
        },
    }
}

/// The operations lead from each state of a connection to the next.
pub open spec fn life<TSession, TReader, TValue, TBidi, TStream>(
    states: Seq<ConnectionState<TSession, TReader>>,
    operations: Seq<Operation<TValue, TBidi, TStream>>,
) -> bool {
    &&& states.len() == operations.len() + 1
    &&& forall|i: int|
        0 <= i < operations.len() ==> operates(states[i], #[trigger] operations[i], states[i + 1])
}

proof fn lemma_stays_closed<TSession, TReader, TValue, TBidi, TStream>(
    states: Seq<ConnectionState<TSession, TReader>>,
    operations: Seq<Operation<TValue, TBidi, TStream>>,
    i: int,
    j: int,
)
    requires
        life(states, operations),
        0 <= i <= j < states.len(),
    ensures
        states[i].closed ==> states[j].closed,
        states[j].session == states[i].session,
        states[j].incoming_streams_reader == states[i].incoming_streams_reader,
        !states[i].closed && states[j].closed ==> exists|k: int|
            i <= k < j && #[trigger] operations[k] is Close,
    decreases j - i,
{
    if i < j {
        lemma_stays_closed(states, operations, i, j - 1);
        assert(operates(states[j - 1], operations[j - 1], states[j - 1 + 1]));
    }
}

/// The session is closed once: when a connection is closed, the session is to be closed
/// exactly if the connection was open at first and was not closed before, whether or not
/// it is closed again.  A closed connection stays closed, and keeps its session.
pub proof fn law_session_closed_once<TSession, TReader, TValue, TBidi, TStream>(
    states: Seq<ConnectionState<TSession, TReader>>,
    operations: Seq<Operation<TValue, TBidi, TStream>>,
    i: int,
)
    requires
        life(states, operations),
        0 <= i < operations.len(),
        operations[i] is Close,
    ensures
        operations[i]->close_now <==> {
            &&& !states[0].closed
            &&& forall|k: int| 0 <= k < i ==> !(#[trigger] operations[k] is Close)
        },
        forall|j: int|
            i < j < states.len() ==> {
                &&& (#[trigger] states[j]).closed
                &&& states[j].session == states[0].session
            },
{
    assert(operates(states[i], operations[i], states[i + 1]));
    lemma_stays_closed(states, operations, 0, i);
    assert forall|k: int|
        0 <= k < i && #[trigger] operations[k] is Close implies states[i].closed by {
        assert(operates(states[k], operations[k], states[k + 1]));
        lemma_stays_closed(states, operations, k + 1, i);
    }
    assert forall|j: int| i < j < states.len() implies {
        &&& (#[trigger] states[j]).closed
        &&& states[j].session == states[0].session
    } by {
        lemma_stays_closed(states, operations, i + 1, j);
        lemma_stays_closed(states, operations, 0, j);
    }
}

/// Whether the operation starts a promise, of an inbound stream or of an outbound one.
pub open spec fn starts_promise<TValue, TBidi, TStream>(
    operation: Operation<TValue, TBidi, TStream>,
    inbound: bool,
) -> bool {
    match operation {
        Operation::PollInbound(_, StreamAction::PollPromise { start }) => inbound && start,
        Operation::PollOutbound(_, StreamAction::PollPromise { start }) => !inbound && start,
        _ => false,
    }
}

/// Whether the operation learns that a promise, of an inbound stream or of an outbound one,
/// was settled.
pub open spec fn settles_promise<TValue, TBidi, TStream>(
    operation: Operation<TValue, TBidi, TStream>,
    inbound: bool,
) -> bool {
    match operation {
        Operation::PollInbound(StreamInput::Promise(promise), _) => inbound && !(promise
            is Pending),
        Operation::PollOutbound(StreamInput::Promise(promise), _) => !inbound && !(promise
            is Pending),
        _ => false,
    }
}

/// Whether a promise, of an inbound stream or of an outbound one, is outstanding.
pub open spec fn promised<TSession, TReader>(
    state: ConnectionState<TSession, TReader>,
    inbound: bool,
) -> bool {
    if inbound {
        state.awaiting_stream
    } else {
        state.creating_stream
    }
}

proof fn lemma_promise_lasts<TSession, TReader, TValue, TBidi, TStream>(
    states: Seq<ConnectionState<TSession, TReader>>,
    operations: Seq<Operation<TValue, TBidi, TStream>>,
    inbound: bool,
    i: int,
    j: int,
)
    requires
        life(states, operations),
        0 <= i <= j < states.len(),
        promised(states[i], inbound),
    ensures
        promised(states[j], inbound) || exists|k: int|
            i <= k < j && settles_promise(#[trigger] operations[k], inbound),
    decreases j - i,
{
    if i < j {
        lemma_promise_lasts(states, operations, inbound, i, j - 1);
        assert(operates(states[j - 1], operations[j - 1], states[j - 1 + 1]));
        if promised(states[j - 1], inbound) && !promised(states[j], inbound) {
            assert(settles_promise(operations[j - 1], inbound));
        }
    }
}

/// A promise is started only when none is outstanding in its direction: between two starts
/// the first promise was settled.
pub proof fn law_one_promise_at_a_time<TSession, TReader, TValue, TBidi, TStream>(
    states: Seq<ConnectionState<TSession, TReader>>,
    operations: Seq<Operation<TValue, TBidi, TStream>>,
    inbound: bool,
    i: int,
    j: int,
)
    requires
        life(states, operations),
        0 <= i < j < operations.len(),
        starts_promise(operations[i], inbound),
        starts_promise(operations[j], inbound),
    ensures
        exists|k: int| i < k < j && settles_promise(#[trigger] operations[k], inbound),
{
    assert(operates(states[i], operations[i], states[i + 1]));
    assert(operates(states[j], operations[j], states[j + 1]));
    lemma_promise_lasts(states, operations, inbound, i + 1, j);
}

/// Whether `input` answers what `action` asks for.
pub open spec fn answers<TValue, TBidi, TStream>(
    action: StreamAction<TValue, TBidi, TStream>,
    input: StreamInput<TValue, TBidi, TStream>,
) -> bool {
    match action {
        StreamAction::PollPromise { .. } => input is Promise,
        StreamAction::ParseResponse(_) => input is Response,
        StreamAction::Cast(_) => input is Cast,
        StreamAction::Open(_) => input is Opened,
        StreamAction::Return(_) => false,
    }
}

/// A whole poll for an outbound stream.  `slots` tells whether a promise is outstanding
/// before each turn, and after the last one.
pub open spec fn outbound_run<TValue, TBidi, TStream>(
    slots: Seq<bool>,
    inputs: Seq<StreamInput<TValue, TBidi, TStream>>,
    actions: Seq<StreamAction<TValue, TBidi, TStream>>,
) -> bool {
    &&& inputs.len() == actions.len() > 0
    &&& inputs[0] is Start
    &&& slots.len() == inputs.len() + 1
    &&& forall|i: int|
        0 <= i < inputs.len() ==> {
            &&& stream_turn(slots[i], #[trigger] inputs[i], actions[i])
            &&& slots[i + 1] == outstanding_after(slots[i], inputs[i])
        }
    &&& forall|i: int| 0 < i < inputs.len() ==> answers(actions[i - 1], #[trigger] inputs[i])
    &&& actions.last() is Return
}

/// A whole poll for an inbound stream, with `slots` in the same sense.
pub open spec fn incoming_run<TValue, TBidi, TStream>(
    slots: Seq<bool>,
    inputs: Seq<StreamInput<TValue, TBidi, TStream>>,
    actions: Seq<StreamAction<TValue, TBidi, TStream>>,
) -> bool {
    &&& inputs.len() == actions.len() > 0
    &&& inputs[0] is Start
    &&& slots.len() == inputs.len() + 1
    &&& forall|i: int|
        0 <= i < inputs.len() ==> {
            &&& incoming_turn(slots[i], #[trigger] inputs[i], actions[i])
            &&& slots[i + 1] == outstanding_after(slots[i], inputs[i])
        }
    &&& forall|i: int| 0 < i < inputs.len() ==> answers(actions[i - 1], #[trigger] inputs[i])
    &&& actions.last() is Return
}

/// A poll for an outbound stream starts a promise unless one is outstanding, and leaves it
/// outstanding exactly when it is pending.  It is pending exactly while the promise is, and
/// yields a stream exactly when the promise is resolved, its value is a bidirectional
/// stream, and the stream over that could be opened.  Otherwise it yields the first error.
pub proof fn law_outbound_stream<TValue, TBidi, TStream>(
    slots: Seq<bool>,
    inputs: Seq<StreamInput<TValue, TBidi, TStream>>,
    actions: Seq<StreamAction<TValue, TBidi, TStream>>,
)
    requires
        outbound_run(slots, inputs, actions),
    ensures
        2 <= inputs.len() <= 4,
        actions[0] == (StreamAction::<TValue, TBidi, TStream>::PollPromise { start: !slots[0] }),
        slots.last() == (inputs[1]->Promise_0 is Pending),
        match inputs[1]->Promise_0 {
            Promise::Pending => actions.last() matches StreamAction::Return(Poll::Pending),
            Promise::Rejected(message) => fails_with(actions.last(), message@),
            Promise::Resolved(value) => {
                &&& actions[1] == StreamAction::<TValue, TBidi, TStream>::Cast(value)
                &&& inputs.len() >= 3
                &&& match inputs[2]->Cast_0 {
                    Err(error) => actions.last() == StreamAction::<TValue, TBidi, TStream>::Return(
                        Poll::Ready(Err(error)),
                    ),
                    Ok(bidi) => {
                        &&& actions[2] == StreamAction::<TValue, TBidi, TStream>::Open(bidi)
                        &&& inputs.len() == 4
                        &&& actions.last() == StreamAction::<TValue, TBidi, TStream>::Return(
                            Poll::Ready(inputs[3]->Opened_0),
                        )
                    },
                }
            },
        },
{
    let n = inputs.len();
    assert(stream_turn(slots[0], inputs[0], actions[0]));
    if n > 1 {
        assert(stream_turn(slots[1], inputs[1], actions[1]) && answers(actions[0], inputs[1]));
    }
    if n > 2 {
        assert(stream_turn(slots[2], inputs[2], actions[2]) && answers(actions[1], inputs[2]));
    }
    if n > 3 {
        assert(stream_turn(slots[3], inputs[3], actions[3]) && answers(actions[2], inputs[3]));
    }
    if n > 4 {
        assert(answers(actions[3], inputs[4]));
    }
}

/// A poll for an inbound stream does the same with the value in the response of the
/// reader.  A closed reader is an error.
pub proof fn law_inbound_stream<TValue, TBidi, TStream>(
    slots: Seq<bool>,
    inputs: Seq<StreamInput<TValue, TBidi, TStream>>,
    actions: Seq<StreamAction<TValue, TBidi, TStream>>,
)
    requires
        incoming_run(slots, inputs, actions),
    ensures
        2 <= inputs.len() <= 5,
        actions[0] == (StreamAction::<TValue, TBidi, TStream>::PollPromise { start: !slots[0] }),
        slots.last() == (inputs[1]->Promise_0 is Pending),
        match inputs[1]->Promise_0 {
            Promise::Pending => actions.last() matches StreamAction::Return(Poll::Pending),
            Promise::Rejected(message) => fails_with(actions.last(), message@),
            Promise::Resolved(response) => {
                &&& actions[1] == StreamAction::<TValue, TBidi, TStream>::ParseResponse(response)
                &&& inputs.len() >= 3
                &&& match inputs[2]->Response_0 {
                    Err(message) => fails_with(actions.last(), message@),
                    Ok(None) => fails_with(
                        actions.last(),
                        "incoming_bidirectional_streams closed"@,
                    ),
                    Ok(Some(value)) => {
                        &&& actions[2] == StreamAction::<TValue, TBidi, TStream>::Cast(value)
                        &&& inputs.len() >= 4
                        &&& match inputs[3]->Cast_0 {
                            Err(error) => actions.last() == StreamAction::<
                                TValue,
                                TBidi,
                                TStream,
                            >::Return(Poll::Ready(Err(error))),
                            Ok(bidi) => {
                                &&& actions[3] == StreamAction::<TValue, TBidi, TStream>::Open(bidi)
                                &&& inputs.len() == 5
                                &&& actions.last() == StreamAction::<
                                    TValue,
                                    TBidi,
                                    TStream,
                                >::Return(Poll::Ready(inputs[4]->Opened_0))
                            },
                        }
                    },
                }
            },
        },
{
    let n = inputs.len();
    assert(incoming_turn(slots[0], inputs[0], actions[0]));
    if n > 1 {
        assert(incoming_turn(slots[1], inputs[1], actions[1]) && answers(actions[0], inputs[1]));
    }
    if n > 2 {
        assert(incoming_turn(slots[2], inputs[2], actions[2]) && answers(actions[1], inputs[2]));
    }
    if n > 3 {
        assert(incoming_turn(slots[3], inputs[3], actions[3]) && answers(actions[2], inputs[3]));
    }
    if n > 4 {
        assert(incoming_turn(slots[4], inputs[4], actions[4]) && answers(actions[3], inputs[4]));
    }
    if n > 5 {
        assert(answers(actions[4], inputs[5]));
    }
}

/// An authentication, from its beginning to its end.
pub open spec fn authentication_run<TStream>(
    keypair: &Keypair,
    remote_peer: Option<PeerId>,
    certhashes: HashSet<Multihash<64>>,
    states: Seq<Authentication>,
    inputs: Seq<AuthenticationInput<TStream>>,
    actions: Seq<AuthenticationAction<TStream>>,
) -> bool {
    &&& states.len() == inputs.len() + 1
    &&& actions.len() == inputs.len() > 0
    &&& states[0] == Authentication::AwaitingSession { keypair, remote_peer, certhashes }
    &&& forall|i: int|
        0 <= i < inputs.len() ==> {
            &&& authentication_expects(states[i], #[trigger] inputs[i])
            &&& authentication_turn(states[i], inputs[i], states[i + 1], actions[i])
        }
    &&& actions.last() is Finish
}

/// A peer is admitted only if the handshake proved the remote to be that peer, on a
/// ready session, with a configuration that holds the certificate hashes where there
/// are any, and only if it is the expected peer where one is expected.  Once the
/// handshake ran, another peer is refused as unknown, and no other reason gives this
/// error.
pub proof fn law_only_expected_peer<TStream>(
    keypair: &Keypair,
    remote_peer: Option<PeerId>,
    certhashes: HashSet<Multihash<64>>,
    states: Seq<Authentication>,
    inputs: Seq<AuthenticationInput<TStream>>,
    actions: Seq<AuthenticationAction<TStream>>,
)
    requires
        authentication_run(keypair, remote_peer, certhashes, states, inputs, actions),
    ensures
        inputs.len() <= 3,
        actions.last() matches AuthenticationAction::Finish(Ok(peer_id)) ==> {
            &&& inputs.len() == 3
            &&& inputs[0] matches AuthenticationInput::SessionReady(Ok(_))
            &&& inputs[1] matches AuthenticationInput::StreamCreated(Ok(stream))
            &&& actions[1] matches AuthenticationAction::Upgrade { config, stream: on, info }
            &&& on == stream
            &&& info@ == "/noise"@
            &&& configures(keypair, certhashes, Ok(config))
            &&& inputs[2] == AuthenticationInput::<TStream>::Upgraded(Ok(peer_id))
            &&& remote_peer matches Some(expected) ==> peer_id.eq_spec(&expected)
        },
        inputs.len() == 3 ==> match inputs[2]->Upgraded_0 {
            Ok(peer_id) => actions.last() == AuthenticationAction::<TStream>::Finish(
                if remote_peer is None || peer_id.eq_spec(&remote_peer->0) {
                    Ok(peer_id)
                } else {
                    Err(Error::UnknownRemotePeerId)
                },
            ),
            Err(error) => actions.last() == AuthenticationAction::<TStream>::Finish(
                Err(Error::Noise(error)),
            ),
        },
{
    assert(authentication_turn(states[0], inputs[0], states[1], actions[0]));
    if inputs.len() > 1 {
        assert(authentication_turn(states[1], inputs[1], states[2], actions[1]));
        assert(authentication_expects(states[1], inputs[1]));
    }
    if inputs.len() > 2 {
        assert(authentication_turn(states[2], inputs[2], states[3], actions[2]));
        assert(authentication_expects(states[2], inputs[2]));
    }
    if inputs.len() > 3 {
        assert(authentication_expects(states[3], inputs[3]));
    }
}

} // verus!
