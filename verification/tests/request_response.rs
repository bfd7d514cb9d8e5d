use futures::channel::oneshot;
use instant::Instant;
use libp2p_state::request_response::clock::{read_clock, split_nanos};
use libp2p_state::request_response::handler::{
    ConnectionEvent, ConnectionHandlerEvent, Handler, InboundRequest, KeepAlive, Negotiated,
    PollInput, PollOutput, Started, StreamUpgradeError,
};
use libp2p_state::request_response::message::{Codec, Event, OutboundMessage, RequestId};
use libp2p_state::request_response::worker::{
    InboundAction, InboundInput, InboundStage, OutboundAction, OutboundInput, OutboundStage,
    OutboundWorker, Race, WorkerError,
};
use std::sync::atomic::{AtomicU64, Ordering};
use std::sync::Arc;

#[derive(Clone)]
struct Ping {
    version: u8,
}

impl Codec for Ping {
    type Protocol = &'static str;
    type Request = String;
    type Response = u32;
}

const KEEP_ALIVE: u128 = 10_000_000_000;
const SUBSTREAM: u128 = 5_000_000_000;

fn handler() -> Handler<Ping> {
    Handler::new(
        vec!["/ping/2", "/ping/1"],
        Ping { version: 3 },
        KEEP_ALIVE,
        SUBSTREAM,
        Instant::now(),
        Arc::new(AtomicU64::new(7)),
    )
}

fn message(id: u64) -> OutboundMessage<Ping> {
    OutboundMessage {
        request_id: RequestId(id),
        request: format!("request {}", id),
        protocols: vec!["/ping/2", "/ping/1"],
    }
}

fn negotiated(stream: u8) -> Negotiated<Ping, u8> {
    Negotiated { stream, protocol: "/ping/2" }
}

/// Polls with no work done and no request from the remote.
fn poll_idle(handler: &mut Handler<Ping>) -> PollOutput<Ping> {
    assert!(matches!(handler.poll(PollInput::Start), PollOutput::PollWorkers));
    match handler.poll(PollInput::Worker(None)) {
        PollOutput::PollInbound => handler.poll(PollInput::Inbound(None)),
        other => other,
    }
}

fn request_substream(handler: &mut Handler<Ping>) -> Vec<&'static str> {
    match poll_idle(handler) {
        PollOutput::Ready(ConnectionHandlerEvent::OutboundSubstreamRequest { protocols }) => {
            protocols
        }
        _ => panic!("expected a request for a substream"),
    }
}

#[test]
fn new_handler_is_kept_alive_and_offers_its_protocols() {
    let handler = handler();
    assert_eq!(handler.connection_keep_alive(), KeepAlive::Yes);
    assert_eq!(handler.listen_protocol(), vec!["/ping/2", "/ping/1"]);
}

fn deadline(handler: &Handler<Ping>) -> u128 {
    match handler.connection_keep_alive() {
        KeepAlive::Until(until) => until,
        KeepAlive::Yes => panic!("the connection is not idle"),
    }
}

#[test]
fn idle_connection_gets_a_deadline() {
    let mut handler = handler();
    handler.fall_idle(1_000);
    assert_eq!(handler.connection_keep_alive(), KeepAlive::Until(15_000_001_000));
}

#[test]
fn poll_of_an_idle_connection_reads_the_clock() {
    let start = Instant::now();
    let mut handler = Handler::new(
        vec!["/ping/2"],
        Ping { version: 3 },
        KEEP_ALIVE,
        SUBSTREAM,
        start,
        Arc::new(AtomicU64::new(0)),
    );
    while start.elapsed().as_nanos() < 1_000_000 {}
    let before = start.elapsed().as_nanos();
    assert!(matches!(poll_idle(&mut handler), PollOutput::Pending));
    let after = start.elapsed().as_nanos();
    let now = deadline(&handler) - SUBSTREAM - KEEP_ALIVE;
    assert!(before <= now && now <= after);
    assert!(read_clock(start) >= after);
}

#[test]
fn deadline_stands_while_no_request_comes() {
    let mut handler = handler();
    assert!(matches!(poll_idle(&mut handler), PollOutput::Pending));
    let until = deadline(&handler);
    for _ in 0..3 {
        assert!(matches!(poll_idle(&mut handler), PollOutput::Pending));
    }
    assert_eq!(deadline(&handler), until);
    handler.on_behaviour_event(message(1));
    assert_eq!(handler.connection_keep_alive(), KeepAlive::Yes);
}

#[test]
fn requests_are_served_in_order() {
    let mut handler = handler();
    handler.on_behaviour_event(message(1));
    handler.on_behaviour_event(message(2));
    assert_eq!(request_substream(&mut handler), vec!["/ping/2", "/ping/1"]);
    handler.on_behaviour_event(message(3));
    request_substream(&mut handler);
    request_substream(&mut handler);
    for id in 1..4 {
        let stream = id as u8;
        match handler.on_connection_event(ConnectionEvent::FullyNegotiatedOutbound(negotiated(
            stream,
        ))) {
            Started::Outbound(task) => {
                assert_eq!(task.worker.request_id, RequestId(id));
                assert!(matches!(task.worker.stage, OutboundStage::Writing));
                assert_eq!(task.request, format!("request {}", id));
                assert_eq!(task.stream, stream);
                assert_eq!(task.protocol, "/ping/2");
                assert_eq!(task.timeout, SUBSTREAM);
                assert_eq!(task.codec.version, 3);
            }
            _ => panic!("expected work on an outbound substream"),
        }
    }
}

#[test]
fn refusal_is_reported_and_the_next_request_is_served() {
    let mut handler = handler();
    handler.on_behaviour_event(message(1));
    handler.on_behaviour_event(message(2));
    request_substream(&mut handler);
    request_substream(&mut handler);
    let event: ConnectionEvent<Ping, u8> =
        ConnectionEvent::DialUpgradeError(StreamUpgradeError::NegotiationFailed);
    assert!(matches!(handler.on_connection_event(event), Started::Nothing));
    match handler.on_connection_event(ConnectionEvent::FullyNegotiatedOutbound(negotiated(9))) {
        Started::Outbound(task) => assert_eq!(task.worker.request_id, RequestId(2)),
        _ => panic!("expected work on an outbound substream"),
    }
    assert!(matches!(
        poll_idle(&mut handler),
        PollOutput::Ready(ConnectionHandlerEvent::Custom(Event::OutboundUnsupportedProtocols(
            RequestId(1)
        )))
    ));
    assert!(matches!(poll_idle(&mut handler), PollOutput::Pending));
}

#[test]
fn failed_substream_and_changes_leave_the_handler_alone() {
    let mut handler = handler();
    handler.on_behaviour_event(message(1));
    request_substream(&mut handler);
    let io = std::io::Error::from(std::io::ErrorKind::BrokenPipe);
    let events: Vec<ConnectionEvent<Ping, u8>> = vec![
        ConnectionEvent::DialUpgradeError(StreamUpgradeError::Io(io)),
        ConnectionEvent::AddressChange,
        ConnectionEvent::LocalProtocolsChange,
        ConnectionEvent::RemoteProtocolsChange,
    ];
    for event in events {
        assert!(matches!(handler.on_connection_event(event), Started::Nothing));
    }
    assert_eq!(handler.on_fully_negotiated_outbound(negotiated(1)).worker.request_id, RequestId(1));
}

#[test]
fn inbound_requests_are_numbered_and_connected() {
    let counter = Arc::new(AtomicU64::new(7));
    let mut handler = Handler::new(
        vec!["/ping/2"],
        Ping { version: 3 },
        KEEP_ALIVE,
        SUBSTREAM,
        Instant::now(),
        counter.clone(),
    );
    let (pending, task) = handler.on_fully_negotiated_inbound(negotiated(4));
    assert_eq!(task.worker.request_id, RequestId(7));
    assert!(matches!(task.worker.stage, InboundStage::Reading));
    assert_eq!(task.stream, 4);
    assert_eq!(task.protocol, "/ping/2");
    assert_eq!(task.timeout, SUBSTREAM);
    assert_eq!(counter.load(Ordering::Relaxed), 8);

    // The request goes from the work to the handler, the response back.
    task.request_sender.send((RequestId(7), "hello".to_string())).unwrap();
    let received = futures::executor::block_on(pending.request_receiver).unwrap();
    assert_eq!(received, (RequestId(7), "hello".to_string()));
    pending.response_sender.send(42).unwrap();
    assert_eq!(futures::executor::block_on(task.response_receiver), Ok(42));

    match handler.on_connection_event(ConnectionEvent::FullyNegotiatedInbound(negotiated(5))) {
        Started::Inbound(_, task) => assert_eq!(task.worker.request_id, RequestId(8)),
        _ => panic!("expected work on an inbound substream"),
    }
}

#[test]
fn accepted_substream_uses_the_given_channels() {
    let handler = handler();
    let (pending, task) =
        handler.accept_inbound(negotiated(1), 99, oneshot::channel(), oneshot::channel());
    assert_eq!(task.worker.request_id, RequestId(99));
    task.request_sender.send((RequestId(99), "x".to_string())).unwrap();
    assert_eq!(
        futures::executor::block_on(pending.request_receiver),
        Ok((RequestId(99), "x".to_string()))
    );
}

#[test]
fn connection_is_not_idle_while_an_inbound_request_is_awaited() {
    let mut handler = handler();
    let (first, _task) = handler.on_fully_negotiated_inbound(negotiated(1));
    let (_second, _other) = handler.on_fully_negotiated_inbound(negotiated(2));
    assert!(matches!(poll_idle(&mut handler), PollOutput::Pending));
    assert_eq!(handler.connection_keep_alive(), KeepAlive::Yes);

    // The first request arrives.
    assert!(matches!(handler.poll(PollInput::Start), PollOutput::PollWorkers));
    assert!(matches!(handler.poll(PollInput::Worker(None)), PollOutput::PollInbound));
    let output = handler.poll(PollInput::Inbound(Some(Ok(InboundRequest {
        request_id: RequestId(7),
        request: "hello".to_string(),
        sender: first.response_sender,
    }))));
    match output {
        PollOutput::Ready(ConnectionHandlerEvent::Custom(Event::Request {
            request_id,
            request,
            sender: _,
        })) => {
            assert_eq!(request_id, RequestId(7));
            assert_eq!(request, "hello");
        }
        _ => panic!("expected a request"),
    }

    // The second one never does.
    assert!(matches!(handler.poll(PollInput::Start), PollOutput::PollWorkers));
    assert!(matches!(handler.poll(PollInput::Worker(None)), PollOutput::PollInbound));
    assert!(matches!(
        handler.poll(PollInput::Inbound(Some(Err(oneshot::Canceled)))),
        PollOutput::PollInbound
    ));
    assert_eq!(handler.connection_keep_alive(), KeepAlive::Yes);
    assert!(matches!(handler.poll(PollInput::Inbound(None)), PollOutput::Pending));
    assert!(deadline(&handler) >= 15_000_000_000);
}

#[test]
fn inbound_request_revives_an_idle_connection() {
    let mut handler = handler();
    handler.fall_idle(0);
    assert_eq!(handler.connection_keep_alive(), KeepAlive::Until(15_000_000_000));
    let (pending, _task) = handler.on_fully_negotiated_inbound(negotiated(1));
    assert_eq!(handler.connection_keep_alive(), KeepAlive::Until(15_000_000_000));
    handler.poll(PollInput::Inbound(Some(Ok(InboundRequest {
        request_id: RequestId(7),
        request: "hello".to_string(),
        sender: pending.response_sender,
    }))));
    assert_eq!(handler.connection_keep_alive(), KeepAlive::Yes);
}

#[test]
fn poll_serves_work_then_events_then_requests() {
    let mut handler = handler();
    handler.on_behaviour_event(message(1));
    handler.on_behaviour_event(message(2));
    request_substream(&mut handler);
    handler.on_dial_upgrade_error(StreamUpgradeError::NegotiationFailed);

    // Failed work is forgotten, finished work is reported before anything queued.
    assert!(matches!(handler.poll(PollInput::Start), PollOutput::PollWorkers));
    assert!(matches!(
        handler.poll(PollInput::Worker(Some(Err(WorkerError::TimedOut)))),
        PollOutput::PollWorkers
    ));
    assert!(matches!(
        handler.poll(PollInput::Worker(Some(Ok(Event::ResponseSent(RequestId(30)))))),
        PollOutput::Ready(ConnectionHandlerEvent::Custom(Event::ResponseSent(RequestId(30))))
    ));
    assert!(matches!(
        poll_idle(&mut handler),
        PollOutput::Ready(ConnectionHandlerEvent::Custom(Event::OutboundUnsupportedProtocols(
            RequestId(1)
        )))
    ));
    assert!(matches!(
        poll_idle(&mut handler),
        PollOutput::Ready(ConnectionHandlerEvent::OutboundSubstreamRequest { .. })
    ));
}

#[test]
fn long_queues_shrink_and_keep_working() {
    let mut handler = handler();
    for id in 0..500 {
        handler.on_behaviour_event(message(id));
    }
    for _ in 0..500 {
        request_substream(&mut handler);
    }
    for _ in 0..500 {
        handler.on_dial_upgrade_error(StreamUpgradeError::NegotiationFailed);
    }
    for id in 0..500 {
        match poll_idle(&mut handler) {
            PollOutput::Ready(ConnectionHandlerEvent::Custom(
                Event::OutboundUnsupportedProtocols(request_id),
            )) => assert_eq!(request_id, RequestId(id)),
            _ => panic!("expected a report"),
        }
    }
    assert!(matches!(poll_idle(&mut handler), PollOutput::Pending));
    handler.on_behaviour_event(message(1000));
    request_substream(&mut handler);
    assert_eq!(
        handler.on_fully_negotiated_outbound(negotiated(1)).worker.request_id,
        RequestId(1000)
    );
}

#[test]
fn substreams_are_expected_only_on_request() {
    let mut handler = handler();
    let outbound = ConnectionEvent::FullyNegotiatedOutbound(negotiated(1));
    let refusal: ConnectionEvent<Ping, u8> =
        ConnectionEvent::DialUpgradeError(StreamUpgradeError::NegotiationFailed);
    let timeout: ConnectionEvent<Ping, u8> =
        ConnectionEvent::DialUpgradeError(StreamUpgradeError::Timeout);
    assert!(!handler.expects_event(&outbound));
    assert!(!handler.expects_event(&refusal));
    handler.on_behaviour_event(message(1));
    request_substream(&mut handler);
    assert!(handler.expects_event(&outbound));
    assert!(handler.expects_event(&refusal));
    assert!(!handler.expects_event(&timeout));
    assert!(handler.expects_event(&ConnectionEvent::FullyNegotiatedInbound(negotiated(1))));
}

#[test]
fn clock_of_a_later_start_shows_zero() {
    let start = Instant::now() + std::time::Duration::from_secs(3600);
    assert_eq!(read_clock(start), 0);
}

#[test]
fn nanoseconds_are_split() {
    assert_eq!(split_nanos(0), Some((0, 0)));
    assert_eq!(split_nanos(999_999_999), Some((0, 999_999_999)));
    assert_eq!(split_nanos(15_000_001_000), Some((15, 1_000)));
    let longest = std::time::Duration::MAX.as_nanos();
    assert_eq!(split_nanos(longest), Some((u64::MAX, 999_999_999)));
    assert_eq!(split_nanos(longest + 1), None);
}

/// Polls with one result of some work, or none, and then with one request from the remote.
fn poll_with(
    handler: &mut Handler<Ping>,
    result: Option<Result<Event<Ping>, WorkerError>>,
    request: Option<InboundRequest<Ping>>,
) -> Option<Event<Ping>> {
    assert!(matches!(handler.poll(PollInput::Start), PollOutput::PollWorkers));
    let mut output = handler.poll(PollInput::Worker(result));
    if matches!(output, PollOutput::PollWorkers) {
        output = handler.poll(PollInput::Worker(None));
    }
    if matches!(output, PollOutput::PollInbound) {
        output = handler.poll(PollInput::Inbound(request.map(Ok)));
    }
    match output {
        PollOutput::Ready(ConnectionHandlerEvent::Custom(event)) => Some(event),
        PollOutput::Pending => None,
        _ => panic!("expected an event or none"),
    }
}

#[test]
fn inbound_request_ends_once_after_it_was_reported() {
    for (response, sent) in [(Ok(42), true), (Err(oneshot::Canceled), false)] {
        let mut handler = handler();
        let (pending, mut task) = handler.on_fully_negotiated_inbound(negotiated(1));
        let id = task.worker.request_id;
        assert_eq!(id, RequestId(7));

        let forwarded =
            task.worker.step::<Ping>(InboundInput::RequestRead(Ok("hello".to_string())));
        let (request_id, request) = match forwarded {
            InboundAction::ForwardRequest { request_id, request } => (request_id, request),
            _ => panic!("expected the request to be forwarded"),
        };
        task.worker.step::<Ping>(InboundInput::RequestForwarded);
        let inbound = InboundRequest { request_id, request, sender: pending.response_sender };
        match poll_with(&mut handler, None, Some(inbound)) {
            Some(Event::Request { request_id, .. }) => assert_eq!(request_id, id),
            _ => panic!("expected the request"),
        }

        let mut action = task.worker.step::<Ping>(InboundInput::Responded(response));
        if let InboundAction::WriteResponse(42) = action {
            action = task.worker.step::<Ping>(InboundInput::ResponseWritten(Ok(())));
        }
        assert!(matches!(action, InboundAction::CloseStream));
        let result = match task.worker.step::<Ping>(InboundInput::StreamClosed(Ok(()))) {
            InboundAction::Finish(result) => result,
            _ => panic!("expected the end of the work"),
        };
        match poll_with(&mut handler, Some(result), None) {
            Some(Event::ResponseSent(request_id)) => assert!(sent && request_id == id),
            Some(Event::ResponseOmission(request_id)) => assert!(!sent && request_id == id),
            _ => panic!("expected the end of the request"),
        }
        for _ in 0..3 {
            assert!(poll_with(&mut handler, None, None).is_none());
        }
    }
}

#[test]
fn inbound_request_that_timed_out_is_not_reported() {
    let mut handler = handler();
    let (_pending, _task) = handler.on_fully_negotiated_inbound(negotiated(1));
    assert!(poll_with(&mut handler, Some(Err(WorkerError::TimedOut)), None).is_none());
}

#[test]
fn outbound_requests_end_once_after_a_substream_was_requested() {
    let mut handler = handler();
    for id in 1..4 {
        handler.on_behaviour_event(message(id));
    }
    for _ in 1..4 {
        request_substream(&mut handler);
    }

    // The first one is answered, the second one refused, the third one times out.
    let mut first = handler.on_fully_negotiated_outbound(negotiated(1));
    handler.on_dial_upgrade_error(StreamUpgradeError::NegotiationFailed);
    let third = handler.on_fully_negotiated_outbound(negotiated(3));
    first.worker.step::<Ping>(OutboundInput::RequestWritten(Ok(())));
    first.worker.step::<Ping>(OutboundInput::StreamClosed(Ok(())));
    let answered = match first.worker.step::<Ping>(OutboundInput::ResponseRead(Ok(42))) {
        OutboundAction::Finish(result) => result,
        _ => panic!("expected the end of the work"),
    };
    let late = OutboundWorker::outcome::<Ping>(third.worker.request_id, Race::TimedOut);

    assert!(matches!(
        poll_with(&mut handler, Some(late), None),
        Some(Event::OutboundTimeout(RequestId(3)))
    ));
    assert!(matches!(
        poll_with(&mut handler, Some(answered), None),
        Some(Event::Response { request_id: RequestId(1), response: 42 })
    ));
    assert!(matches!(
        poll_with(&mut handler, None, None),
        Some(Event::OutboundUnsupportedProtocols(RequestId(2)))
    ));
    for _ in 0..3 {
        assert!(poll_with(&mut handler, None, None).is_none());
    }
}

#[test]
fn substreams_are_requested_in_order() {
    let mut handler = handler();
    let mut requested = Vec::new();
    for (id, protocol) in [(1, "/ping/2"), (2, "/ping/1"), (3, "/ping/3"), (4, "/ping/4")] {
        let mut message = message(id);
        message.protocols = vec![protocol];
        handler.on_behaviour_event(message);
        if id == 2 {
            requested.push(request_substream(&mut handler));
        }
    }
    for _ in 0..3 {
        requested.push(request_substream(&mut handler));
    }
    assert_eq!(
        requested,
        vec![vec!["/ping/2"], vec!["/ping/1"], vec!["/ping/3"], vec!["/ping/4"]]
    );
    assert!(matches!(poll_idle(&mut handler), PollOutput::Pending));
}

#[test]
fn handlers_share_a_counter() {
    let counter = Arc::new(AtomicU64::new(u64::MAX - 1));
    let mut handlers = Vec::new();
    for _ in 0..2 {
        handlers.push(Handler::new(
            vec!["/ping/2"],
            Ping { version: 3 },
            KEEP_ALIVE,
            SUBSTREAM,
            Instant::now(),
            counter.clone(),
        ));
    }
    let mut numbers = Vec::new();
    for at in [0, 1, 1, 0] {
        let (_pending, task) = handlers[at].on_fully_negotiated_inbound(negotiated(1));
        numbers.push(task.worker.request_id);
    }
    // Each number is given once, and none is left out.
    assert_eq!(
        numbers,
        vec![RequestId(u64::MAX - 1), RequestId(u64::MAX), RequestId(0), RequestId(1)]
    );
}

#[test]
fn inbound_substreams_are_settled_only_while_awaited() {
    let mut handler = handler();
    let canceled: PollInput<Ping> = PollInput::Inbound(Some(Err(oneshot::Canceled)));
    let nothing: PollInput<Ping> = PollInput::Inbound(None);
    assert!(!handler.expects_input(&canceled));
    assert!(handler.expects_input(&nothing));
    let (_pending, _task) = handler.on_fully_negotiated_inbound(negotiated(1));
    assert!(handler.expects_input(&canceled));
    handler.poll(canceled);
    let again: PollInput<Ping> = PollInput::Inbound(Some(Err(oneshot::Canceled)));
    assert!(!handler.expects_input(&again));
}
