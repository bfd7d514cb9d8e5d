//! Who is admitted by an authentication, from its first action to its last.

use crate::webtransport::authentication::{
    admit_peer, check_remote_peer, noise_config, noise_protocol, pin_certhashes, Authentication,
    AuthenticationAction, AuthenticationInput,
};
use crate::webtransport::error::Error;
use libp2p_core::multihash::Multihash;
use libp2p_identity::{Keypair, PeerId};
use std::collections::HashSet;
use vstd::prelude::*;
use vstd::std_specs::cmp::PartialEqSpec;

verus! {

/// Whether `input` is the outcome of `action`.
pub open spec fn answers<TStream>(
    action: AuthenticationAction<TStream>,
    input: AuthenticationInput<TStream>,
) -> bool {
    match action {
        AuthenticationAction::AwaitSession => input is SessionReady,
        AuthenticationAction::CreateStream => input is StreamCreated,
        AuthenticationAction::Upgrade { .. } => input is Upgraded,
        AuthenticationAction::Finish(_) => false,
    }
}

/// An authentication is made and started, and each step takes the outcome of the action before.
/// It waits for the session, creates a stream, runs the handshake on that stream, and admits
/// the peer that the handshake proved, unless another one is expected.  Whether there are
/// certificate hashes makes no difference but in the configuration of the handshake.  Each
/// failure on the way ends it at once, with an error that tells of that failure.  Each step
/// takes whatever outcome the action before can have.
pub proof fn law_authentication<'a, TStream>(
    keypair: &'a Keypair,
    remote_peer: Option<PeerId>,
    certhashes: HashSet<Multihash<64>>,
    first: AuthenticationAction<TStream>,
    states: Seq<Authentication<'a>>,
    inputs: Seq<AuthenticationInput<TStream>>,
    actions: Seq<AuthenticationAction<TStream>>,
)
    requires
        states.len() == inputs.len() + 1,
        actions.len() == inputs.len(),
        call_ensures(Authentication::<'a>::new, (keypair, remote_peer, certhashes), states[0]),
        call_ensures(Authentication::<'a>::start::<TStream>, (&states[0],), first),
        forall|i: int|
            0 <= i < inputs.len() ==> {
                &&& answers(
                    if i == 0 {
                        first
                    } else {
                        actions[i - 1]
                    },
                    #[trigger] inputs[i],
                )
                &&& call_ensures(
                    Authentication::<'a>::step::<TStream>,
                    (states[i], inputs[i]),
                    (states[i + 1], actions[i]),
                )
            },
    ensures
        first is AwaitSession,
        inputs.len() <= 3,
        forall|i: int|
            0 <= i < inputs.len() ==> call_requires(
                Authentication::<'a>::step::<TStream>,
                (states[i], #[trigger] inputs[i]),
            ),
        inputs.len() > 0 ==> match inputs[0] {
            AuthenticationInput::SessionReady(Ok(_)) => actions[0] is CreateStream,
            AuthenticationInput::SessionReady(Err(message)) => {
                &&& inputs.len() == 1
                &&& actions[0] == AuthenticationAction::<TStream>::Finish(
                    Err(Error::JsError(message)),
                )
            },
            _ => false,
        },
        inputs.len() > 1 ==> match inputs[1] {
            AuthenticationInput::StreamCreated(Ok(stream)) => exists|
                made: Result<libp2p_noise::Config, libp2p_noise::Error>,
            |
                {
                    &&& #[trigger] call_ensures(libp2p_noise::Config::new, (keypair,), made)
                    &&& match made {
                        Ok(made) => {
                            &&& actions[1] matches AuthenticationAction::Upgrade {
                                config,
                                stream: on,
                                info,
                            }
                            &&& if certhashes@ == Set::<Multihash<64>>::empty() {
                                config == made
                            } else {
                                call_ensures(
                                    libp2p_noise::Config::with_webtransport_certhashes,
                                    (made, certhashes),
                                    config,
                                )
                            }
                            &&& on == stream
                            &&& info@ == "/noise"@
                        },
                        Err(error) => {
                            &&& inputs.len() == 2
                            &&& actions[1] == AuthenticationAction::<TStream>::Finish(
                                Err(Error::Noise(error)),
                            )
                        },
                    }
                },
            AuthenticationInput::StreamCreated(Err(error)) => {
                &&& inputs.len() == 2
                &&& actions[1] == AuthenticationAction::<TStream>::Finish(Err(error))
            },
            _ => false,
        },
        inputs.len() > 2 ==> match inputs[2] {
            AuthenticationInput::Upgraded(Ok(peer)) => {
                &&& (remote_peer matches Some(expected) ==> peer.eq_spec(&expected))
                    ==> actions[2] == AuthenticationAction::<TStream>::Finish(Ok(peer))
                &&& (remote_peer matches Some(expected) && !peer.eq_spec(&expected)) ==> actions[2]
                    == AuthenticationAction::<TStream>::Finish(Err(Error::UnknownRemotePeerId))
                &&& remote_peer == Some(peer) ==> actions[2] == AuthenticationAction::<
                    TStream,
                >::Finish(Ok(peer))
            },
            AuthenticationInput::Upgraded(Err(error)) => actions[2] == AuthenticationAction::<
                TStream,
            >::Finish(Err(Error::Noise(error))),
            _ => false,
        },
{
    let n = inputs.len() as int;
    if n > 0 {
        assert(answers(first, inputs[0]));
        assert(call_ensures(
            Authentication::<'a>::step::<TStream>,
            (states[0], inputs[0]),
            (states[1], actions[0]),
        ));
    }
    if n > 1 {
        assert(answers(actions[0], inputs[1]));
        assert(call_ensures(
            Authentication::<'a>::step::<TStream>,
            (states[1], inputs[1]),
            (states[2], actions[1]),
        ));
    }
    if n > 2 {
        assert(answers(actions[1], inputs[2]));
        assert(call_ensures(
            Authentication::<'a>::step::<TStream>,
            (states[2], inputs[2]),
            (states[3], actions[2]),
        ));
    }
    if n > 3 {
        assert(answers(actions[2], inputs[3]));
    }
}

/// The expected peer is admitted: where the session is ready, the stream is created, the
/// configuration can be made, and the handshake proves the remote to be the expected peer, or
/// any peer if none is expected, the authentication ends with that peer, with or without
/// certificate hashes.
pub proof fn law_expected_peer_is_admitted<'a, TStream>(
    keypair: &'a Keypair,
    remote_peer: Option<PeerId>,
    certhashes: HashSet<Multihash<64>>,
    first: AuthenticationAction<TStream>,
    states: Seq<Authentication<'a>>,
    inputs: Seq<AuthenticationInput<TStream>>,
    actions: Seq<AuthenticationAction<TStream>>,
    peer: PeerId,
)
    requires
        states.len() == inputs.len() + 1,
        actions.len() == inputs.len(),
        call_ensures(Authentication::<'a>::new, (keypair, remote_peer, certhashes), states[0]),
        call_ensures(Authentication::<'a>::start::<TStream>, (&states[0],), first),
        forall|i: int|
            0 <= i < inputs.len() ==> {
                &&& answers(
                    if i == 0 {
                        first
                    } else {
                        actions[i - 1]
                    },
                    #[trigger] inputs[i],
                )
                &&& call_ensures(
                    Authentication::<'a>::step::<TStream>,
                    (states[i], inputs[i]),
                    (states[i + 1], actions[i]),
                )
            },
        inputs.len() > 0 && actions.last() is Finish,
        forall|i: int|
            0 <= i < inputs.len() ==> match #[trigger] inputs[i] {
                AuthenticationInput::SessionReady(ready) => ready is Ok,
                AuthenticationInput::StreamCreated(created) => created is Ok,
                AuthenticationInput::Upgraded(proved) => proved == Ok::<
                    PeerId,
                    libp2p_noise::Error,
                >(peer),
            },
        forall|made: Result<libp2p_noise::Config, libp2p_noise::Error>| #[trigger]
            call_ensures(libp2p_noise::Config::new, (keypair,), made) ==> made is Ok,
        remote_peer matches Some(expected) ==> peer.eq_spec(&expected) || peer == expected,
    ensures
        inputs.len() == 3,
        actions.last() == AuthenticationAction::<TStream>::Finish(Ok(peer)),
{
    law_authentication(keypair, remote_peer, certhashes, first, states, inputs, actions);
    assert(inputs[0] == inputs[0]);
    if inputs.len() > 1 {
        assert(inputs[1] == inputs[1]);
    }
    if inputs.len() > 2 {
        assert(inputs[2] == inputs[2]);
    }
}

/// A peer is refused as unknown only if the handshake proved the remote to be another peer
/// than the expected one, unless the creation of the stream failed with this very error.
pub proof fn law_unknown_peer_for_a_reason<'a, TStream>(
    keypair: &'a Keypair,
    remote_peer: Option<PeerId>,
    certhashes: HashSet<Multihash<64>>,
    first: AuthenticationAction<TStream>,
    states: Seq<Authentication<'a>>,
    inputs: Seq<AuthenticationInput<TStream>>,
    actions: Seq<AuthenticationAction<TStream>>,
)
    requires
        states.len() == inputs.len() + 1,
        actions.len() == inputs.len(),
        call_ensures(Authentication::<'a>::new, (keypair, remote_peer, certhashes), states[0]),
        call_ensures(Authentication::<'a>::start::<TStream>, (&states[0],), first),
        forall|i: int|
            0 <= i < inputs.len() ==> {
                &&& answers(
                    if i == 0 {
                        first
                    } else {
                        actions[i - 1]
                    },
                    #[trigger] inputs[i],
                )
                &&& call_ensures(
                    Authentication::<'a>::step::<TStream>,
                    (states[i], inputs[i]),
                    (states[i + 1], actions[i]),
                )
            },
        inputs.len() > 0,
        actions.last() == AuthenticationAction::<TStream>::Finish(Err(Error::UnknownRemotePeerId)),
    ensures
        ({
            ||| {
                &&& inputs.len() == 3
                &&& inputs[2] matches AuthenticationInput::Upgraded(Ok(peer))
                &&& remote_peer matches Some(expected)
                &&& !peer.eq_spec(&expected)
                &&& peer != expected
            }
            ||| {
                &&& inputs.len() == 2
                &&& inputs[1] == AuthenticationInput::<TStream>::StreamCreated(
                    Err(Error::UnknownRemotePeerId),
                )
            }
        }),
{
    law_authentication(keypair, remote_peer, certhashes, first, states, inputs, actions);
}

/// The configuration is that made for the identity keys, with the certificate hashes if there
/// are any, and it fails only if it cannot be made, with the reason.
pub proof fn law_noise_config(
    keypair: &Keypair,
    certhashes: HashSet<Multihash<64>>,
    result: Result<libp2p_noise::Config, Error>,
)
    requires
        call_ensures(noise_config, (keypair, certhashes), result),
    ensures
        match result {
            Ok(config) => exists|made: libp2p_noise::Config|
                {
                    &&& #[trigger] call_ensures(libp2p_noise::Config::new, (keypair,), Ok(made))
                    &&& if certhashes@ == Set::<Multihash<64>>::empty() {
                        config == made
                    } else {
                        call_ensures(
                            libp2p_noise::Config::with_webtransport_certhashes,
                            (made, certhashes),
                            config,
                        )
                    }
                },
            Err(error) => {
                &&& error matches Error::Noise(reason)
                &&& call_ensures(libp2p_noise::Config::new, (keypair,), Err(reason))
            },
        },
{
}

/// Certificate hashes go into the configuration all together, and none leave it as it is.
pub proof fn law_pin_certhashes(
    config: libp2p_noise::Config,
    certhashes: HashSet<Multihash<64>>,
    pinned: libp2p_noise::Config,
)
    requires
        call_ensures(pin_certhashes, (config, certhashes), pinned),
    ensures
        certhashes@ == Set::<Multihash<64>>::empty() ==> pinned == config,
        certhashes@ != Set::<Multihash<64>>::empty() ==> call_ensures(
            libp2p_noise::Config::with_webtransport_certhashes,
            (config, certhashes),
            pinned,
        ),
{
}

/// Every configuration is run under the same protocol.
pub proof fn law_noise_protocol(config: libp2p_noise::Config, info: &'static str)
    requires
        call_ensures(noise_protocol, (&config,), info),
    ensures
        info@ == "/noise"@,
{
}

/// A peer that is proved is admitted exactly if no other one is expected, and the peer
/// admitted is the one proved.
pub proof fn law_check_remote_peer(
    peer: PeerId,
    remote_peer: Option<PeerId>,
    result: Result<PeerId, Error>,
    unasked: Result<PeerId, Error>,
    same: Result<PeerId, Error>,
)
    requires
        call_ensures(check_remote_peer, (peer, remote_peer), result),
        call_ensures(check_remote_peer, (peer, None::<PeerId>), unasked),
        call_ensures(check_remote_peer, (peer, Some(peer)), same),
    ensures
        result is Ok <==> (remote_peer matches Some(expected) ==> peer.eq_spec(&expected)),
        match result {
            Ok(admitted) => admitted == peer,
            Err(error) => error is UnknownRemotePeerId,
        },
        unasked == Ok::<PeerId, Error>(peer),
        same == Ok::<PeerId, Error>(peer),
{
}

/// The expected peer is admitted as it is, any other one refused as unknown.
pub proof fn law_admit_peer(peer: PeerId, expected: bool, result: Result<PeerId, Error>)
    requires
        call_ensures(admit_peer, (peer, expected), result),
    ensures
        result is Ok <==> expected,
        match result {
            Ok(admitted) => admitted == peer,
            Err(error) => error is UnknownRemotePeerId,
        },
{
}

} // verus!
