use libp2p_core::multihash::Multihash;
use libp2p_identity::{Keypair, PeerId};
use libp2p_state::webtransport::authentication::{
    admit_peer, check_remote_peer, Authentication, AuthenticationAction, AuthenticationInput,
};
use libp2p_state::webtransport::connection::{Connection, SessionRequest};
use libp2p_state::webtransport::error::Error;
use libp2p_state::webtransport::streams::{Poll, Promise, StreamAction, StreamInput};
use std::collections::HashSet;

type Session = Connection<&'static str, u8>;
type Input = StreamInput<u32, &'static str, char>;

fn connection() -> Session {
    match Connection::new("session", Ok(9)) {
        Ok(connection) => connection,
        Err(_) => panic!("no connection"),
    }
}

fn peer() -> PeerId {
    Keypair::generate_ed25519().public().to_peer_id()
}

fn certhashes() -> HashSet<Multihash<64>> {
    [Multihash::wrap(0x12, &[1; 32]).unwrap()].into_iter().collect()
}

#[test]
fn session_is_pinned_where_there_are_certhashes() {
    match Session::session_request("https://a".to_string(), &HashSet::new()) {
        SessionRequest::Trusted { url } => assert_eq!(url, "https://a"),
        _ => panic!("expected a trusted session"),
    }
    match Session::session_request("https://b".to_string(), &certhashes()) {
        SessionRequest::Pinned { url } => assert_eq!(url, "https://b"),
        _ => panic!("expected a pinned session"),
    }
}

#[test]
fn failures_to_open_are_returned() {
    assert!(matches!(Session::session_opened(Ok("session")), Ok("session")));
    match Session::session_opened(Err("no route".to_string())) {
        Err(Error::JsError(message)) => assert_eq!(message, "no route"),
        _ => panic!("expected an error"),
    }
    assert!(matches!(
        Session::new("session", Err(Error::JsCastFailed)),
        Err(Error::JsCastFailed)
    ));
    let connection = connection();
    assert_eq!(*connection.session(), "session");
    assert_eq!(*connection.incoming_streams_reader(), 9);
}

#[test]
fn session_is_closed_once() {
    let mut connection = connection();
    assert!(connection.close_session());
    assert!(!connection.close_session());
    let (close_now, poll) = connection.poll_close();
    assert!(!close_now);
    assert!(matches!(poll, Poll::Ready(Ok(()))));
    assert_eq!(*connection.session(), "session");

    let mut other = self::connection();
    let (close_now, poll) = other.poll_close();
    assert!(close_now);
    assert!(matches!(poll, Poll::Ready(Ok(()))));
    assert!(!other.close_session());
}

#[test]
fn session_of_a_dropped_connection_is_closed() {
    let mut connection = connection();
    assert!(matches!(connection.poll::<u8>(), Poll::Pending));
    let input: Input = StreamInput::Start;
    connection.poll_outbound(input);
    assert!(connection.close_session());
}

#[test]
fn connection_has_no_events() {
    assert!(matches!(connection().poll::<u8>(), Poll::Pending));
}

#[test]
fn outbound_stream() {
    let mut connection = connection();
    let input: Input = StreamInput::Start;
    assert!(matches!(
        connection.poll_outbound(input),
        StreamAction::PollPromise { start: true }
    ));
    let input: Input = StreamInput::Promise(Promise::Pending);
    assert!(matches!(connection.poll_outbound(input), StreamAction::Return(Poll::Pending)));
    let input: Input = StreamInput::Start;
    assert!(matches!(
        connection.poll_outbound(input),
        StreamAction::PollPromise { start: false }
    ));
    let input: Input = StreamInput::Promise(Promise::Resolved(4));
    assert!(matches!(connection.poll_outbound(input), StreamAction::Cast(4)));
    let input: Input = StreamInput::Cast(Ok("bidi"));
    assert!(matches!(connection.poll_outbound(input), StreamAction::Open("bidi")));
    let input: Input = StreamInput::Opened(Ok('s'));
    assert!(matches!(
        connection.poll_outbound(input),
        StreamAction::Return(Poll::Ready(Ok('s')))
    ));
}

#[test]
fn inbound_stream() {
    let mut connection = connection();
    let input: Input = StreamInput::Start;
    assert!(matches!(
        connection.poll_inbound(input),
        StreamAction::PollPromise { start: true }
    ));
    let input: Input = StreamInput::Promise(Promise::Pending);
    assert!(matches!(connection.poll_inbound(input), StreamAction::Return(Poll::Pending)));
    let input: Input = StreamInput::Start;
    assert!(matches!(
        connection.poll_inbound(input),
        StreamAction::PollPromise { start: false }
    ));
    let input: Input = StreamInput::Promise(Promise::Resolved(4));
    assert!(matches!(connection.poll_inbound(input), StreamAction::ParseResponse(4)));
    let input: Input = StreamInput::Response(Ok(Some(5)));
    assert!(matches!(connection.poll_inbound(input), StreamAction::Cast(5)));
    let input: Input = StreamInput::Cast(Ok("bidi"));
    assert!(matches!(connection.poll_inbound(input), StreamAction::Open("bidi")));
    let input: Input = StreamInput::Opened(Ok('s'));
    assert!(matches!(
        connection.poll_inbound(input),
        StreamAction::Return(Poll::Ready(Ok('s')))
    ));
}

fn begins_with(action: StreamAction<u32, &'static str, char>) -> bool {
    match action {
        StreamAction::PollPromise { start } => start,
        _ => panic!("expected a poll of the promise"),
    }
}

#[test]
fn one_promise_at_a_time() {
    let mut connection = connection();
    assert!(begins_with(connection.poll_outbound(StreamInput::Start)));
    assert!(!begins_with(connection.poll_outbound(StreamInput::Start)));
    // The promises of the two directions are apart.
    assert!(begins_with(connection.poll_inbound(StreamInput::Start)));
    let input: Input = StreamInput::Promise(Promise::Pending);
    connection.poll_outbound(input);
    assert!(!begins_with(connection.poll_outbound(StreamInput::Start)));
    let input: Input = StreamInput::Promise(Promise::Resolved(4));
    connection.poll_outbound(input);
    assert!(begins_with(connection.poll_outbound(StreamInput::Start)));
    assert!(!begins_with(connection.poll_inbound(StreamInput::Start)));
    let input: Input = StreamInput::Promise(Promise::Rejected("gone".to_string()));
    connection.poll_inbound(input);
    assert!(begins_with(connection.poll_inbound(StreamInput::Start)));
    // Neither closing nor the later turns of a poll start or end a promise.
    connection.close_session();
    let input: Input = StreamInput::Cast(Err(Error::JsCastFailed));
    connection.poll_inbound(input);
    assert!(!begins_with(connection.poll_inbound(StreamInput::Start)));
    assert!(!begins_with(connection.poll_outbound(StreamInput::Start)));
}

fn message_of(action: StreamAction<u32, &'static str, char>) -> String {
    match action {
        StreamAction::Return(Poll::Ready(Err(Error::JsError(message)))) => message,
        _ => panic!("expected an error of the session"),
    }
}

#[test]
fn stream_errors() {
    let mut connection = connection();
    let input: Input = StreamInput::Promise(Promise::Rejected("gone".to_string()));
    assert_eq!(message_of(connection.poll_outbound(input)), "gone");
    let input: Input = StreamInput::Promise(Promise::Rejected("lost".to_string()));
    assert_eq!(message_of(connection.poll_inbound(input)), "lost");
    let input: Input = StreamInput::Response(Ok(None));
    assert_eq!(
        message_of(connection.poll_inbound(input)),
        "incoming_bidirectional_streams closed"
    );
    let input: Input = StreamInput::Response(Err("malformed".to_string()));
    assert_eq!(message_of(connection.poll_inbound(input)), "malformed");
    let input: Input = StreamInput::Cast(Err(Error::JsCastFailed));
    assert!(matches!(
        connection.poll_outbound(input),
        StreamAction::Return(Poll::Ready(Err(Error::JsCastFailed)))
    ));
    let input: Input = StreamInput::Opened(Err(Error::JsCastFailed));
    assert!(matches!(
        connection.poll_inbound(input),
        StreamAction::Return(Poll::Ready(Err(Error::JsCastFailed)))
    ));
}

#[test]
fn only_the_expected_peer_is_admitted() {
    let (alice, bob) = (peer(), peer());
    assert!(matches!(check_remote_peer(alice, None), Ok(id) if id == alice));
    assert!(matches!(check_remote_peer(alice, Some(alice)), Ok(id) if id == alice));
    assert!(matches!(check_remote_peer(alice, Some(bob)), Err(Error::UnknownRemotePeerId)));
    assert!(matches!(admit_peer(alice, true), Ok(id) if id == alice));
    assert!(matches!(admit_peer(alice, false), Err(Error::UnknownRemotePeerId)));
}

#[test]
fn equal_peers_may_be_written_differently() {
    let short = Multihash::<64>::wrap(0x12, &[5; 3]).unwrap();
    let truncated = Multihash::<64>::wrap(0x12, &[5; 4]).unwrap().truncate(3);
    let one = PeerId::from_multihash(short).unwrap();
    let other = PeerId::from_multihash(truncated).unwrap();
    assert!(check_remote_peer(one, Some(other)).is_ok());
}

fn up_to_stream<'a>(
    keypair: &'a Keypair,
    remote_peer: Option<PeerId>,
) -> Authentication<'a> {
    let authentication = Authentication::new(keypair, remote_peer, certhashes());
    assert!(matches!(authentication.start::<u8>(), AuthenticationAction::AwaitSession));
    let (authentication, action) =
        authentication.step::<u8>(AuthenticationInput::SessionReady(Ok(())));
    assert!(matches!(action, AuthenticationAction::CreateStream));
    authentication
}

#[test]
fn authentication_admits_the_expected_peer() {
    let keypair = Keypair::generate_ed25519();
    let (alice, bob) = (peer(), peer());
    for (remote_peer, admitted) in [(None, true), (Some(alice), true), (Some(bob), false)] {
        let (authentication, action) = up_to_stream(&keypair, remote_peer)
            .step::<u8>(AuthenticationInput::StreamCreated(Ok(6)));
        match action {
            AuthenticationAction::Upgrade { config: _, stream, info } => {
                assert_eq!(stream, 6);
                assert_eq!(info, "/noise");
            }
            _ => panic!("expected the handshake"),
        }
        let (authentication, action) =
            authentication.step::<u8>(AuthenticationInput::Upgraded(Ok(alice)));
        assert!(matches!(authentication, Authentication::Done));
        match action {
            AuthenticationAction::Finish(Ok(peer_id)) => {
                assert!(admitted);
                assert_eq!(peer_id, alice);
            }
            AuthenticationAction::Finish(Err(Error::UnknownRemotePeerId)) => assert!(!admitted),
            _ => panic!("expected the end"),
        }
    }
}

#[test]
fn authentication_errors() {
    let keypair = Keypair::generate_ed25519();
    let (authentication, action) = Authentication::new(&keypair, None, HashSet::new())
        .step::<u8>(AuthenticationInput::SessionReady(Err("refused".to_string())));
    assert!(matches!(authentication, Authentication::Done));
    match action {
        AuthenticationAction::Finish(Err(Error::JsError(message))) => {
            assert_eq!(message, "refused")
        }
        _ => panic!("expected an error"),
    }

    let (_, action) = up_to_stream(&keypair, None)
        .step::<u8>(AuthenticationInput::StreamCreated(Err(Error::JsCastFailed)));
    assert!(matches!(action, AuthenticationAction::Finish(Err(Error::JsCastFailed))));

    let (authentication, _) =
        up_to_stream(&keypair, None).step::<u8>(AuthenticationInput::StreamCreated(Ok(1)));
    let (_, action) = authentication.step::<u8>(AuthenticationInput::Upgraded(Err(
        libp2p_noise::Error::BadSignature,
    )));
    assert!(matches!(
        action,
        AuthenticationAction::Finish(Err(Error::Noise(libp2p_noise::Error::BadSignature)))
    ));
}
