use futures::channel::oneshot;
use libp2p_state::request_response::message::{Codec, Event, OutboundMessage, RequestId};
use libp2p_state::request_response::worker::{
    InboundAction, InboundInput, InboundStage, InboundWorker, OutboundAction, OutboundInput,
    OutboundWorker, Race, WorkerError,
};

struct Ping;

impl Codec for Ping {
    type Protocol = &'static str;
    type Request = String;
    type Response = u32;
}

fn broken() -> std::io::Error {
    std::io::Error::from(std::io::ErrorKind::BrokenPipe)
}

fn read_and_forward(worker: &mut InboundWorker) {
    assert!(matches!(worker.start::<Ping>(), InboundAction::ReadRequest));
    match worker.step::<Ping>(InboundInput::RequestRead(Ok("hello".to_string()))) {
        InboundAction::ForwardRequest { request_id, request } => {
            assert_eq!(request_id, RequestId(3));
            assert_eq!(request, "hello");
        }
        _ => panic!("expected the request to be forwarded"),
    }
    assert!(matches!(
        worker.step::<Ping>(InboundInput::RequestForwarded),
        InboundAction::AwaitResponse
    ));
}

#[test]
fn response_is_written_and_reported_as_sent() {
    let mut worker = InboundWorker::new(RequestId(3));
    read_and_forward(&mut worker);
    assert!(matches!(
        worker.step::<Ping>(InboundInput::Responded(Ok(42))),
        InboundAction::WriteResponse(42)
    ));
    assert!(matches!(
        worker.step::<Ping>(InboundInput::ResponseWritten(Ok(()))),
        InboundAction::CloseStream
    ));
    assert!(matches!(
        worker.step::<Ping>(InboundInput::StreamClosed(Ok(()))),
        InboundAction::Finish(Ok(Event::ResponseSent(RequestId(3))))
    ));
    assert!(matches!(worker.stage, InboundStage::Done));
}

#[test]
fn dropped_response_is_reported_as_omitted() {
    let mut worker = InboundWorker::new(RequestId(3));
    read_and_forward(&mut worker);
    assert!(matches!(
        worker.step::<Ping>(InboundInput::Responded(Err(oneshot::Canceled))),
        InboundAction::CloseStream
    ));
    assert!(matches!(
        worker.step::<Ping>(InboundInput::StreamClosed(Ok(()))),
        InboundAction::Finish(Ok(Event::ResponseOmission(RequestId(3))))
    ));
}

#[test]
fn inbound_failures_end_the_work() {
    let mut worker = InboundWorker::new(RequestId(3));
    match worker.step::<Ping>(InboundInput::RequestRead(Err(broken()))) {
        InboundAction::Finish(Err(WorkerError::Io(error))) => {
            assert_eq!(error.kind(), std::io::ErrorKind::BrokenPipe)
        }
        _ => panic!("expected the failure"),
    }

    let mut worker = InboundWorker::new(RequestId(3));
    read_and_forward(&mut worker);
    worker.step::<Ping>(InboundInput::Responded(Ok(1)));
    assert!(matches!(
        worker.step::<Ping>(InboundInput::ResponseWritten(Err(broken()))),
        InboundAction::Finish(Err(WorkerError::Io(_)))
    ));

    let mut worker = InboundWorker::new(RequestId(3));
    read_and_forward(&mut worker);
    worker.step::<Ping>(InboundInput::Responded(Err(oneshot::Canceled)));
    assert!(matches!(
        worker.step::<Ping>(InboundInput::StreamClosed(Err(broken()))),
        InboundAction::Finish(Err(WorkerError::Io(_)))
    ));
}

#[test]
fn response_to_an_outbound_request_is_reported() {
    let mut worker = OutboundWorker::new(RequestId(5));
    match worker.start::<Ping>("hello".to_string()) {
        OutboundAction::WriteRequest(request) => assert_eq!(request, "hello"),
        _ => panic!("expected the request to be written"),
    }
    assert!(matches!(
        worker.step::<Ping>(OutboundInput::RequestWritten(Ok(()))),
        OutboundAction::CloseStream
    ));
    assert!(matches!(
        worker.step::<Ping>(OutboundInput::StreamClosed(Ok(()))),
        OutboundAction::ReadResponse
    ));
    assert!(matches!(
        worker.step::<Ping>(OutboundInput::ResponseRead(Ok(42))),
        OutboundAction::Finish(Ok(Event::Response { request_id: RequestId(5), response: 42 }))
    ));
}

#[test]
fn outbound_failures_end_the_work() {
    let mut worker = OutboundWorker::new(RequestId(5));
    assert!(matches!(
        worker.step::<Ping>(OutboundInput::RequestWritten(Err(broken()))),
        OutboundAction::Finish(Err(WorkerError::Io(_)))
    ));
    let mut worker = OutboundWorker::new(RequestId(5));
    worker.step::<Ping>(OutboundInput::RequestWritten(Ok(())));
    assert!(matches!(
        worker.step::<Ping>(OutboundInput::StreamClosed(Err(broken()))),
        OutboundAction::Finish(Err(WorkerError::Io(_)))
    ));
    let mut worker = OutboundWorker::new(RequestId(5));
    worker.step::<Ping>(OutboundInput::RequestWritten(Ok(())));
    worker.step::<Ping>(OutboundInput::StreamClosed(Ok(())));
    assert!(matches!(
        worker.step::<Ping>(OutboundInput::ResponseRead(Err(broken()))),
        OutboundAction::Finish(Err(WorkerError::Io(_)))
    ));
}

#[test]
fn timeouts() {
    assert!(matches!(
        InboundWorker::outcome::<Ping>(Race::TimedOut),
        Err(WorkerError::TimedOut)
    ));
    assert!(matches!(
        InboundWorker::outcome::<Ping>(Race::Finished(Ok(Event::ResponseSent(RequestId(1))))),
        Ok(Event::ResponseSent(RequestId(1)))
    ));
    assert!(matches!(
        OutboundWorker::outcome::<Ping>(RequestId(8), Race::TimedOut),
        Ok(Event::OutboundTimeout(RequestId(8)))
    ));
    assert!(matches!(
        OutboundWorker::outcome::<Ping>(
            RequestId(8),
            Race::Finished(Err(WorkerError::Io(broken())))
        ),
        Err(WorkerError::Io(_))
    ));
}

#[test]
fn text_of_events() {
    let (sender, _receiver) = oneshot::channel();
    let request: Event<Ping> =
        Event::Request { request_id: RequestId(0), request: "secret".to_string(), sender };
    assert_eq!(request.debug_string(), "Event::Request { request_id: RequestId(0) }");
    let response: Event<Ping> = Event::Response { request_id: RequestId(10), response: 1 };
    assert_eq!(response.debug_string(), "Event::Response { request_id: RequestId(10) }");
    let sent: Event<Ping> = Event::ResponseSent(RequestId(9));
    assert_eq!(sent.debug_string(), "Event::ResponseSent(RequestId(9))");
    let omission: Event<Ping> = Event::ResponseOmission(RequestId(1203));
    assert_eq!(omission.debug_string(), "Event::ResponseOmission(RequestId(1203))");
    let timeout: Event<Ping> = Event::OutboundTimeout(RequestId(u64::MAX));
    assert_eq!(timeout.debug_string(), format!("Event::OutboundTimeout({:?})", RequestId(u64::MAX)));
    let unsupported: Event<Ping> = Event::OutboundUnsupportedProtocols(RequestId(100));
    assert_eq!(
        unsupported.debug_string(),
        "Event::OutboundUnsupportedProtocols(RequestId(100))"
    );
    let description = unsupported.describe();
    assert_eq!(description.name, "Event::OutboundUnsupportedProtocols");
    assert_eq!(description.field, None);
    assert_eq!(description.request_id, RequestId(100));
}

#[test]
fn text_of_an_outbound_message() {
    let message: OutboundMessage<Ping> = OutboundMessage {
        request_id: RequestId(1),
        request: "secret".to_string(),
        protocols: vec!["/ping/1"],
    };
    assert_eq!(message.debug_string(), "OutboundMessage { .. }");
}
