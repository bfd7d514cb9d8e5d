//! Authenticating the remote peer over noise.

use crate::outside::{first_noise_protocol, same_peer};
use crate::webtransport::error::Error;
use libp2p_core::multihash::Multihash;
use libp2p_identity::{Keypair, PeerId};
use std::collections::HashSet;
use vstd::pervasive::unreached;
use vstd::prelude::*;
use vstd::std_specs::cmp::PartialEqSpec;

verus! {

/// The progress of an authentication.
pub enum Authentication<'a> {
    /// Waiting for the session to be ready.
    AwaitingSession {
        keypair: &'a Keypair,
        remote_peer: Option<PeerId>,
        certhashes: HashSet<Multihash<64>>,
    },
    /// Waiting for the stream to authenticate on.
    AwaitingStream {
        keypair: &'a Keypair,
        remote_peer: Option<PeerId>,
        certhashes: HashSet<Multihash<64>>,
    },
    /// Waiting for the handshake.
    AwaitingUpgrade { remote_peer: Option<PeerId> },
    /// Finished.
    Done,
}

/// What an authentication is fed.
pub enum AuthenticationInput<TStream> {
    /// The session is ready, or failed with this message.
    SessionReady(Result<(), String>),
    /// The stream to authenticate on.
    StreamCreated(Result<TStream, Error>),
    /// The peer that the remote proved to be.
    Upgraded(Result<PeerId, libp2p_noise::Error>),
}

/// What an authentication has to wait for next.
pub enum AuthenticationAction<TStream> {
    /// Wait for the session to be ready.
    AwaitSession,
    /// Create an outbound stream.
    CreateStream,
    /// Run the handshake on the stream.
    Upgrade { config: libp2p_noise::Config, stream: TStream, info: &'static str },
    /// Nothing: the authentication ends with this result.
    Finish(Result<PeerId, Error>),
}

/// Whether `pinned` is `config` with the certificate hashes, where there are any.
pub open spec fn pins(
    config: libp2p_noise::Config,
    certhashes: HashSet<Multihash<64>>,
    pinned: libp2p_noise::Config,
) -> bool {
    if certhashes@.is_empty() {
        pinned == config
    } else {
        call_ensures(
            libp2p_noise::Config::with_webtransport_certhashes,
            (config, certhashes),
            pinned,
        )
    }
}

/// Whether `result` is a new configuration for the identity keys, with the certificate
/// hashes where there are any, or the error of making one.
pub open spec fn configures(
    keypair: &Keypair,
    certhashes: HashSet<Multihash<64>>,
    result: Result<libp2p_noise::Config, Error>,
) -> bool {
    exists|made: Result<libp2p_noise::Config, libp2p_noise::Error>|
        {
            &&& #[trigger] call_ensures(libp2p_noise::Config::new, (keypair,), made)
            &&& match made {
                Ok(config) => result matches Ok(pinned) && pins(config, certhashes, pinned),
                Err(error) => result == Err::<libp2p_noise::Config, Error>(Error::Noise(error)),
            }
        }
}

/// The result of an authentication in which the remote proved to be `peer_id`.
pub open spec fn admitted(peer_id: PeerId, remote_peer: Option<PeerId>) -> Result<PeerId, Error> {
    match remote_peer {
        Some(expected) if !peer_id.eq_spec(&expected) => Err(Error::UnknownRemotePeerId),
        _ => Ok(peer_id),
    }
}

/// Puts the certificate hashes into the configuration, where there are any.
pub fn pin_certhashes(
    config: libp2p_noise::Config,
    certhashes: HashSet<Multihash<64>>,
) -> (pinned: libp2p_noise::Config)
    ensures
        pins(config, certhashes, pinned),
{
    if certhashes.is_empty() {
        config
    } else {
        config.with_webtransport_certhashes(certhashes)
    }
}

/// The configuration of the handshake.
pub fn noise_config(
    keypair: &Keypair,
    certhashes: HashSet<Multihash<64>>,
) -> (result: Result<libp2p_noise::Config, Error>)
    ensures
        configures(keypair, certhashes, result),
{
    match libp2p_noise::Config::new(keypair) {
        Ok(config) => Ok(pin_certhashes(config, certhashes)),
        Err(error) => Err(Error::from(error)),
    }
}

/// The protocol to run the handshake under.
pub fn noise_protocol(config: &libp2p_noise::Config) -> (info: &'static str)
    ensures
        info@ == "/noise"@,
{
    match first_noise_protocol(config) {
        Some(info) => info,
        None => "",
    }
}

/// Admits a peer that is the expected one, and refuses any other.
pub fn admit_peer(peer_id: PeerId, expected: bool) -> (result: Result<PeerId, Error>)
    ensures
        result == if expected {
            Ok(peer_id)
        } else {
            Err(Error::UnknownRemotePeerId)
        },
{
    if expected {
        Ok(peer_id)
    } else {
        Err(Error::UnknownRemotePeerId)
    }
}

/// Admits the peer that the remote proved to be, unless another one was expected.
pub fn check_remote_peer(peer_id: PeerId, remote_peer: Option<PeerId>) -> (result: Result<
    PeerId,
    Error,
>)
    ensures
        result == admitted(peer_id, remote_peer),
        remote_peer == Some(peer_id) ==> result == Ok::<PeerId, Error>(peer_id),
{
    match remote_peer {
        Some(expected) => {
            let same = same_peer(&peer_id, &expected);
            admit_peer(peer_id, same)
        },
        None => Ok(peer_id),
    }
}

/// Whether `input` is what the authentication waits for.
pub open spec fn authentication_expects<TStream>(
    state: Authentication,
    input: AuthenticationInput<TStream>,
) -> bool {
    match state {
        Authentication::AwaitingSession { .. } => input is SessionReady,
        Authentication::AwaitingStream { .. } => input is StreamCreated,
        Authentication::AwaitingUpgrade { .. } => input is Upgraded,
        Authentication::Done => false,
    }
}

/// The state and the action that follow on `input`.
pub open spec fn authentication_turn<TStream>(
    pre: Authentication,
    input: AuthenticationInput<TStream>,
    post: Authentication,
    action: AuthenticationAction<TStream>,
) -> bool {
    match (pre, input) {
        (
            Authentication::AwaitingSession { keypair, remote_peer, certhashes },
            AuthenticationInput::SessionReady(Ok(_)),
        ) => {
            &&& post == Authentication::AwaitingStream { keypair, remote_peer, certhashes }
            &&& action is CreateStream
        },
        (_, AuthenticationInput::SessionReady(Err(message))) => {
            &&& post is Done
            &&& action == AuthenticationAction::<TStream>::Finish(Err(Error::JsError(message)))
        },
        (
            Authentication::AwaitingStream { keypair, remote_peer, certhashes },
            AuthenticationInput::StreamCreated(Ok(stream)),
        ) => match action {
            AuthenticationAction::Upgrade { config, stream: on, info } => {
                &&& post == Authentication::AwaitingUpgrade { remote_peer }
                &&& configures(keypair, certhashes, Ok(config))
                &&& on == stream
                &&& info@ == "/noise"@
            },
            AuthenticationAction::Finish(Err(error)) => {
                &&& post is Done
                &&& configures(keypair, certhashes, Err(error))
            },
            _ => false,
        },
        (_, AuthenticationInput::StreamCreated(Err(error))) => {
            &&& post is Done
            &&& action == AuthenticationAction::<TStream>::Finish(Err(error))
        },
        (
            Authentication::AwaitingUpgrade { remote_peer },
            AuthenticationInput::Upgraded(Ok(peer_id)),
        ) => {
            &&& post is Done
            &&& action == AuthenticationAction::<TStream>::Finish(admitted(peer_id, remote_peer))
        },
        (_, AuthenticationInput::Upgraded(Err(error))) => {
            &&& post is Done
            &&& action == AuthenticationAction::<TStream>::Finish(Err(Error::Noise(error)))
        },
        _ => false,
    }
}

impl<'a> Authentication<'a> {
    /// An authentication with the given identity keys.  If there is a `remote_peer`,
    /// no other peer is admitted; if there are certificate hashes, the remote has to
    /// report them all.
    pub fn new(
        keypair: &'a Keypair,
        remote_peer: Option<PeerId>,
        certhashes: HashSet<Multihash<64>>,
    ) -> (authentication: Self)
        ensures
            authentication == (Authentication::AwaitingSession { keypair, remote_peer, certhashes }),
    {
        Authentication::AwaitingSession { keypair, remote_peer, certhashes }
    }

    /// The first action.
    pub fn start<TStream>(&self) -> (action: AuthenticationAction<TStream>)
        ensures
            action is AwaitSession,
    {
        AuthenticationAction::AwaitSession
    }

    /// Takes the outcome of the last action and says what to do next.
    pub fn step<TStream>(self, input: AuthenticationInput<TStream>) -> (next: (
        Authentication<'a>,
        AuthenticationAction<TStream>,
    ))
        requires
            authentication_expects(self, input),
        ensures
            authentication_turn(self, input, next.0, next.1),
            // The very peer that was expected is never refused.
            self matches Authentication::AwaitingUpgrade { remote_peer: Some(expected) } ==> (
            input == AuthenticationInput::<TStream>::Upgraded(Ok(expected)) ==> next.1
                == AuthenticationAction::<TStream>::Finish(Ok(expected))),
    {
        match (self, input) {
            (
                Authentication::AwaitingSession { keypair, remote_peer, certhashes },
                AuthenticationInput::SessionReady(Ok(_)),
            ) => (
                Authentication::AwaitingStream { keypair, remote_peer, certhashes },
                AuthenticationAction::CreateStream,
            ),
            (
                Authentication::AwaitingStream { keypair, remote_peer, certhashes },
                AuthenticationInput::StreamCreated(Ok(stream)),
            ) => match noise_config(keypair, certhashes) {
                Ok(config) => {
                    // `multistream_select` is not part of WebTransport, so the protocol
                    // is not negotiated.
                    let info = noise_protocol(&config);
                    (
                        Authentication::AwaitingUpgrade { remote_peer },
                        AuthenticationAction::Upgrade { config, stream, info },
                    )
                },
                Err(error) => (Authentication::Done, AuthenticationAction::Finish(Err(error))),
            },
            (
                Authentication::AwaitingUpgrade { remote_peer },
                AuthenticationInput::Upgraded(Ok(peer_id)),
            ) => {
                let result = check_remote_peer(peer_id, remote_peer);
                (Authentication::Done, AuthenticationAction::Finish(result))
            },
            (_, AuthenticationInput::SessionReady(Err(message))) => (
                Authentication::Done,
                AuthenticationAction::Finish(Err(Error::JsError(message))),
            ),
            (_, AuthenticationInput::StreamCreated(Err(error))) => (
                Authentication::Done,
                AuthenticationAction::Finish(Err(error)),
            ),
            (_, AuthenticationInput::Upgraded(Err(error))) => (
                Authentication::Done,
                AuthenticationAction::Finish(Err(Error::from(error))),
            ),
            (_, _) => unreached(),
        }
    }
}

} // verus!
