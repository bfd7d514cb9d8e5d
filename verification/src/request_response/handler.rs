//! The handler: its queues, its keep-alive, and what it does with a poll.

use crate::outside::{queue_capacity, shrink_queue, MAX_NANOS};
use crate::request_response::clock::{clock_shows, read_clock};
use crate::request_response::message::{Codec, Event, OutboundMessage, RequestId};
use crate::request_response::worker::{InboundWorker, OutboundWorker, WorkerError};
use futures::channel::oneshot;
use instant::Instant;
use std::collections::VecDeque;
use std::sync::atomic::{AtomicU64, Ordering};
use std::sync::Arc;
use vstd::prelude::*;

verus! {

/// The capacity above which an empty queue gives its memory back.
pub const EMPTY_QUEUE_SHRINK_THRESHOLD: usize = 100;

/// Until when the connection is to be kept alive.
///
/// Points in time are nanoseconds since the start of the handler's clock.
#[derive(Clone, Copy, Debug, PartialEq, Eq, Structural)]
pub enum KeepAlive {
    /// Until further notice.
    Yes,
    /// Until this point in time.
    Until(u128),
}

/// A substream on which both sides agreed on a protocol.
pub struct Negotiated<TCodec: Codec, TStream> {
    pub stream: TStream,
    pub protocol: TCodec::Protocol,
}

/// Why an outbound substream could not be had.
pub enum StreamUpgradeError {
    /// The upgrade took too long.
    Timeout,
    /// The remote supports none of the protocols.
    NegotiationFailed,
    /// The substream failed.
    Io(std::io::Error),
}

/// What the connection tells the handler.
///
/// An inbound substream whose upgrade failed is not among these: the upgrade of
/// an inbound substream has no error.
pub enum ConnectionEvent<TCodec: Codec, TStream> {
    FullyNegotiatedInbound(Negotiated<TCodec, TStream>),
    FullyNegotiatedOutbound(Negotiated<TCodec, TStream>),
    DialUpgradeError(StreamUpgradeError),
    AddressChange,
    LocalProtocolsChange,
    RemoteProtocolsChange,
}

/// The work that an inbound substream starts.
pub struct InboundTask<TCodec: Codec, TStream> {
    pub codec: TCodec,
    pub stream: TStream,
    pub protocol: TCodec::Protocol,
    /// Hands the request to the handler.
    pub request_sender: oneshot::Sender<(RequestId, TCodec::Request)>,
    /// Yields the response.
    pub response_receiver: oneshot::Receiver<TCodec::Response>,
    /// In nanoseconds.
    pub timeout: u128,
    pub worker: InboundWorker,
}

/// An inbound substream whose request the handler waits for.
pub struct PendingInbound<TCodec: Codec> {
    /// Yields the request.
    pub request_receiver: oneshot::Receiver<(RequestId, TCodec::Request)>,
    /// Takes the response.
    pub response_sender: oneshot::Sender<TCodec::Response>,
}

/// The work that an outbound substream starts.
pub struct OutboundTask<TCodec: Codec, TStream> {
    pub codec: TCodec,
    pub stream: TStream,
    pub protocol: TCodec::Protocol,
    pub request: TCodec::Request,
    /// In nanoseconds.
    pub timeout: u128,
    pub worker: OutboundWorker,
}

/// What an event of the connection starts.
pub enum Started<TCodec: Codec, TStream> {
    Nothing,
    Inbound(PendingInbound<TCodec>, InboundTask<TCodec, TStream>),
    Outbound(OutboundTask<TCodec, TStream>),
}

/// A request that arrived on an inbound substream.
pub struct InboundRequest<TCodec: Codec> {
    pub request_id: RequestId,
    pub request: TCodec::Request,
    /// Takes the response.
    pub sender: oneshot::Sender<TCodec::Response>,
}

/// What a poll of the handler is fed.
pub enum PollInput<TCodec: Codec> {
    /// The poll begins.
    Start,
    /// The result of the work on a substream, if one is done.
    Worker(Option<Result<Event<TCodec>, WorkerError>>),
    /// The request of an inbound substream, or that there will be none, if one is settled.
    Inbound(Option<Result<InboundRequest<TCodec>, oneshot::Canceled>>),
}

/// What the handler asks of the connection.
pub enum ConnectionHandlerEvent<TCodec: Codec> {
    /// Report an event.
    Custom(Event<TCodec>),
    /// Open an outbound substream for one of these protocols.
    OutboundSubstreamRequest { protocols: Vec<TCodec::Protocol> },
}

/// What a poll of the handler does next.
pub enum PollOutput<TCodec: Codec> {
    /// Poll the work on substreams.
    PollWorkers,
    /// Poll the inbound substreams for their requests.
    PollInbound,
    /// The poll ends with this.
    Ready(ConnectionHandlerEvent<TCodec>),
    /// The poll ends with nothing to report.
    Pending,
}

/// A connection handler for a request-response protocol.
pub struct Handler<TCodec: Codec> {
    /// The supported inbound protocols.
    inbound_protocols: Vec<TCodec::Protocol>,
    /// The request/response message codec.
    codec: TCodec,
    /// The keep-alive timeout of idle connections, in nanoseconds.
    keep_alive_timeout: u128,
    /// The timeout for inbound and outbound substreams (i.e. request
    /// and response processing), in nanoseconds.
    substream_timeout: u128,
    /// The current connection keep-alive.
    keep_alive: KeepAlive,
    /// Queue of events to emit in `poll()`.
    pending_events: VecDeque<Event<TCodec>>,
    /// Outbound requests waiting for a substream to be requested for them.
    pending_outbound: VecDeque<OutboundMessage<TCodec>>,
    /// Outbound requests for which a substream was requested.
    requested_outbound: VecDeque<OutboundMessage<TCodec>>,
    /// How many inbound substreams the handler waits for the request of.
    inbound: usize,
    /// The start of the clock.
    clock_start: Instant,
    /// Numbers the inbound requests of all connections.
    inbound_request_id: Arc<AtomicU64>,
}

/// The state of a handler.
#[verifier::ext_equal]
pub struct HandlerState<TCodec: Codec> {
    pub inbound_protocols: Seq<TCodec::Protocol>,
    pub codec: TCodec,
    pub keep_alive_timeout: u128,
    pub substream_timeout: u128,
    pub keep_alive: KeepAlive,
    pub pending_events: Seq<Event<TCodec>>,
    pub pending_outbound: Seq<OutboundMessage<TCodec>>,
    pub requested_outbound: Seq<OutboundMessage<TCodec>>,
    /// How many inbound substreams the handler waits for the request of.
    pub inbound: nat,
    pub clock_start: Instant,
    pub inbound_request_id: Arc<AtomicU64>,
}

impl<TCodec: Codec> HandlerState<TCodec> {
    /// The connection is kept alive while requests wait to be sent, and the timeouts
    /// are such as a duration can hold.
    pub open spec fn valid(self) -> bool {
        &&& self.pending_outbound.len() > 0 ==> self.keep_alive is Yes
        &&& self.keep_alive_timeout <= MAX_NANOS
        &&& self.substream_timeout <= MAX_NANOS
    }

    /// The state of a connection that falls idle at `now`.
    pub open spec fn idle_at(self, now: u128) -> Self {
        HandlerState {
            keep_alive: KeepAlive::Until(
                (now + self.substream_timeout + self.keep_alive_timeout) as u128,
            ),
            ..self
        }
    }
}

impl<TCodec: Codec> View for Handler<TCodec> {
    type V = HandlerState<TCodec>;

    closed spec fn view(&self) -> HandlerState<TCodec> {
        HandlerState {
            inbound_protocols: self.inbound_protocols@,
            codec: self.codec,
            keep_alive_timeout: self.keep_alive_timeout,
            substream_timeout: self.substream_timeout,
            keep_alive: self.keep_alive,
            pending_events: self.pending_events@,
            pending_outbound: self.pending_outbound@,
            requested_outbound: self.requested_outbound@,
            inbound: self.inbound as nat,
            clock_start: self.clock_start,
            inbound_request_id: self.inbound_request_id,
        }
    }
}

/// `copy` holds a clone of every item of `items`, in the same order.
pub open spec fn copied<T: Clone>(items: Seq<T>, copy: Seq<T>) -> bool {
    &&& copy.len() == items.len()
    &&& forall|i: int| 0 <= i < items.len() ==> cloned(#[trigger] items[i], copy[i])
}

/// Whether a poll can be fed `input`: only an inbound substream that the handler waits
/// for can be settled.
pub open spec fn may_feed<TCodec: Codec>(
    state: HandlerState<TCodec>,
    input: PollInput<TCodec>,
) -> bool {
    match input {
        PollInput::Inbound(Some(_)) => state.inbound > 0,
        _ => true,
    }
}

/// One turn of a poll: the state after `input`, and what the poll does next.
pub open spec fn poll_turn<TCodec: Codec>(
    pre: HandlerState<TCodec>,
    input: PollInput<TCodec>,
    post: HandlerState<TCodec>,
    output: PollOutput<TCodec>,
) -> bool {
    match input {
        PollInput::Start => post == pre && output is PollWorkers,
        // The event of a substream whose work is done is reported at once.
        PollInput::Worker(Some(Ok(event))) => {
            &&& post == pre
            &&& output == PollOutput::Ready(ConnectionHandlerEvent::Custom(event))
        },
        // One whose work failed is forgotten.
        PollInput::Worker(Some(Err(_))) => post == pre && output is PollWorkers,
        // With no work done, the first queued event is reported.
        PollInput::Worker(None) => if pre.pending_events.len() > 0 {
            &&& post == HandlerState { pending_events: pre.pending_events.drop_first(), ..pre }
            &&& output == PollOutput::Ready(
                ConnectionHandlerEvent::Custom(pre.pending_events.first()),
            )
        } else {
            post == pre && output is PollInbound
        },
        // A request from the remote is reported, and keeps the connection alive.
        PollInput::Inbound(Some(Ok(inbound))) => {
            &&& post == HandlerState {
                keep_alive: KeepAlive::Yes,
                inbound: (pre.inbound - 1) as nat,
                ..pre
            }
            &&& output == PollOutput::Ready(
                ConnectionHandlerEvent::<TCodec>::Custom(
                    Event::Request {
                        request_id: inbound.request_id,
                        request: inbound.request,
                        sender: inbound.sender,
                    },
                ),
            )
        },
        // An inbound substream that ended without a request is forgotten.
        PollInput::Inbound(Some(Err(_))) => {
            &&& post == HandlerState { inbound: (pre.inbound - 1) as nat, ..pre }
            &&& output is PollInbound
        },
        // With no request from the remote, a substream is requested for the first
        // request that waits; with none waiting, a connection without inbound
        // substreams falls idle.
        PollInput::Inbound(None) => if pre.pending_outbound.len() > 0 {
            let message = pre.pending_outbound.first();
            &&& post == HandlerState {
                pending_outbound: pre.pending_outbound.drop_first(),
                requested_outbound: pre.requested_outbound.push(message),
                ..pre
            }
            &&& output matches PollOutput::Ready(
                ConnectionHandlerEvent::OutboundSubstreamRequest { protocols },
            )
            &&& copied(message.protocols@, protocols@)
        } else if pre.inbound == 0 && pre.keep_alive is Yes {
            &&& exists|now: u128|
                #[trigger] clock_shows(pre.clock_start, now) && post == pre.idle_at(now)
            &&& output is Pending
        } else {
            post == pre && output is Pending
        },
    }
}

/// What an inbound substream starts, given the number drawn for its request and
/// the two channels made for it.
pub open spec fn inbound_started<TCodec: Codec + Clone, TStream>(
    state: HandlerState<TCodec>,
    negotiated: Negotiated<TCodec, TStream>,
    number: u64,
    request_channel: (
        oneshot::Sender<(RequestId, TCodec::Request)>,
        oneshot::Receiver<(RequestId, TCodec::Request)>,
    ),
    response_channel: (oneshot::Sender<TCodec::Response>, oneshot::Receiver<TCodec::Response>),
    pending: PendingInbound<TCodec>,
    task: InboundTask<TCodec, TStream>,
) -> bool {
    &&& pending.request_receiver == request_channel.1
    &&& pending.response_sender == response_channel.0
    &&& cloned(state.codec, task.codec)
    &&& task.stream == negotiated.stream
    &&& task.protocol == negotiated.protocol
    &&& task.request_sender == request_channel.0
    &&& task.response_receiver == response_channel.1
    &&& task.timeout == state.substream_timeout
    &&& task.worker.request_id == RequestId(number)
    &&& task.worker.stage is Reading
}

/// What an outbound substream starts: the work on the request that has waited the
/// longest for its substream.
pub open spec fn outbound_started<TCodec: Codec + Clone, TStream>(
    state: HandlerState<TCodec>,
    negotiated: Negotiated<TCodec, TStream>,
    task: OutboundTask<TCodec, TStream>,
) -> bool {
    let message = state.requested_outbound.first();
    &&& cloned(state.codec, task.codec)
    &&& task.stream == negotiated.stream
    &&& task.protocol == negotiated.protocol
    &&& task.request == message.request
    &&& task.timeout == state.substream_timeout
    &&& task.worker.request_id == message.request_id
    &&& task.worker.stage is Writing
}

/// What an inbound substream starts, with whatever number was drawn from the counter
/// and whatever two channels were made.
pub open spec fn some_inbound_started<TCodec: Codec + Clone, TStream>(
    state: HandlerState<TCodec>,
    negotiated: Negotiated<TCodec, TStream>,
    pending: PendingInbound<TCodec>,
    task: InboundTask<TCodec, TStream>,
) -> bool {
    exists|
        number: u64,
        request_channel: (
            oneshot::Sender<(RequestId, TCodec::Request)>,
            oneshot::Receiver<(RequestId, TCodec::Request)>,
        ),
        response_channel: (oneshot::Sender<TCodec::Response>, oneshot::Receiver<TCodec::Response>),
    |
        {
            &&& call_ensures(
                AtomicU64::fetch_add,
                (&*state.inbound_request_id, 1u64, Ordering::Relaxed),
                number,
            )
            &&& call_ensures(
                oneshot::channel::<(RequestId, TCodec::Request)>,
                (),
                request_channel,
            )
            &&& call_ensures(oneshot::channel::<TCodec::Response>, (), response_channel)
            &&& #[trigger] inbound_started(
                state,
                negotiated,
                number,
                request_channel,
                response_channel,
                pending,
                task,
            )
        }
}

/// The state after an event of the connection, and what the event starts.
pub open spec fn connection_turn<TCodec: Codec + Clone, TStream>(
    pre: HandlerState<TCodec>,
    event: ConnectionEvent<TCodec, TStream>,
    post: HandlerState<TCodec>,
    started: Started<TCodec, TStream>,
) -> bool {
    match event {
        ConnectionEvent::FullyNegotiatedInbound(negotiated) => {
            &&& post == HandlerState { inbound: pre.inbound + 1, ..pre }
            &&& started matches Started::Inbound(pending, task)
            &&& some_inbound_started(pre, negotiated, pending, task)
        },
        ConnectionEvent::FullyNegotiatedOutbound(negotiated) => {
            &&& post == HandlerState {
                requested_outbound: pre.requested_outbound.drop_first(),
                ..pre
            }
            &&& started matches Started::Outbound(task)
            &&& outbound_started(pre, negotiated, task)
        },
        ConnectionEvent::DialUpgradeError(error) => {
            &&& post == dial_failed(pre, error)
            &&& started is Nothing
        },
        _ => post == pre && started is Nothing,
    }
}

/// The state after an outbound substream could not be had.
pub open spec fn dial_failed<TCodec: Codec>(
    pre: HandlerState<TCodec>,
    error: StreamUpgradeError,
) -> HandlerState<TCodec> {
    match error {
        StreamUpgradeError::NegotiationFailed => HandlerState {
            pending_events: pre.pending_events.push(
                Event::OutboundUnsupportedProtocols(pre.requested_outbound.first().request_id),
            ),
            requested_outbound: pre.requested_outbound.drop_first(),
            ..pre
        },
        _ => pre,
    }
}

/// The events that a connection with the given state can tell of.  An outbound
/// substream, or its refusal, answers a request for one, the upgrade of an outbound
/// substream never times out, and inbound substreams can be counted.
pub open spec fn may_happen<TCodec: Codec, TStream>(
    state: HandlerState<TCodec>,
    event: ConnectionEvent<TCodec, TStream>,
) -> bool {
    match event {
        ConnectionEvent::FullyNegotiatedInbound(_) => state.inbound < usize::MAX,
        ConnectionEvent::FullyNegotiatedOutbound(_) => state.requested_outbound.len() > 0,
        ConnectionEvent::DialUpgradeError(StreamUpgradeError::Timeout) => false,
        ConnectionEvent::DialUpgradeError(StreamUpgradeError::NegotiationFailed) =>
            state.requested_outbound.len() > 0,
        _ => true,
    }
}

impl<TCodec: Codec + Clone> Handler<TCodec> {
    /// A handler of a new connection.  The timeouts are in nanoseconds.
    pub fn new(
        inbound_protocols: Vec<TCodec::Protocol>,
        codec: TCodec,
        keep_alive_timeout: u128,
        substream_timeout: u128,
        clock_start: Instant,
        inbound_request_id: Arc<AtomicU64>,
    ) -> (handler: Self)
        requires
            keep_alive_timeout <= MAX_NANOS,
            substream_timeout <= MAX_NANOS,
        ensures
            handler@.valid(),
            handler@ == (HandlerState {
                inbound_protocols: inbound_protocols@,
                codec,
                keep_alive_timeout,
                substream_timeout,
                keep_alive: KeepAlive::Yes,
                pending_events: Seq::empty(),
                pending_outbound: Seq::empty(),
                requested_outbound: Seq::empty(),
                inbound: 0,
                clock_start,
                inbound_request_id,
            }),
    {
        Handler {
            inbound_protocols,
            codec,
            keep_alive_timeout,
            substream_timeout,
            keep_alive: KeepAlive::Yes,
            pending_events: VecDeque::new(),
            pending_outbound: VecDeque::new(),
            requested_outbound: VecDeque::new(),
            inbound: 0,
            clock_start,
            inbound_request_id,
        }
    }

    /// The protocols to offer on inbound substreams.
    pub fn listen_protocol(&self) -> (protocols: Vec<TCodec::Protocol>)
        ensures
            copied(self@.inbound_protocols, protocols@),
    {
        self.inbound_protocols.clone()
    }

    /// Until when the connection is to be kept alive.
    pub fn connection_keep_alive(&self) -> (keep_alive: KeepAlive)
        ensures
            keep_alive == self@.keep_alive,
    {
        self.keep_alive
    }

    /// Takes a request to be sent to the remote.
    pub fn on_behaviour_event(&mut self, request: OutboundMessage<TCodec>)
        requires
            old(self)@.valid(),
        ensures
            final(self)@.valid(),
            final(self)@ == (HandlerState {
                keep_alive: KeepAlive::Yes,
                pending_outbound: old(self)@.pending_outbound.push(request),
                ..old(self)@
            }),
    {
        self.keep_alive = KeepAlive::Yes;
        self.pending_outbound.push_back(request);
    }

    /// Whether a poll can be fed the input.
    pub fn expects_input(&self, input: &PollInput<TCodec>) -> (expected: bool)
        ensures
            expected == may_feed(self@, *input),
    {
        match input {
            PollInput::Inbound(Some(_)) => self.inbound > 0,
            _ => true,
        }
    }

    /// Takes one turn of a poll.  The answer to what the turn asks for is the input
    /// of the next turn.
    pub fn poll(&mut self, input: PollInput<TCodec>) -> (output: PollOutput<TCodec>)
        requires
            old(self)@.valid(),
            may_feed(old(self)@, input),
        ensures
            final(self)@.valid(),
            poll_turn(old(self)@, input, final(self)@, output),
    {
        match input {
            PollInput::Start => PollOutput::PollWorkers,
            PollInput::Worker(Some(Ok(event))) => PollOutput::Ready(
                ConnectionHandlerEvent::Custom(event),
            ),
            PollInput::Worker(Some(Err(_))) => PollOutput::PollWorkers,
            PollInput::Worker(None) => {
                // Drain pending events.
                if let Some(event) = self.pending_events.pop_front() {
                    return PollOutput::Ready(ConnectionHandlerEvent::Custom(event));
                } else if queue_capacity(&self.pending_events) > EMPTY_QUEUE_SHRINK_THRESHOLD {
                    shrink_queue(&mut self.pending_events);
                }
                PollOutput::PollInbound
            },
            PollInput::Inbound(Some(Ok(inbound))) => {
                self.inbound = self.inbound - 1;
                self.keep_alive = KeepAlive::Yes;
                PollOutput::Ready(
                    ConnectionHandlerEvent::Custom(
                        Event::Request {
                            request_id: inbound.request_id,
                            request: inbound.request,
                            sender: inbound.sender,
                        },
                    ),
                )
            },
            PollInput::Inbound(Some(Err(_))) => {
                self.inbound = self.inbound - 1;
                PollOutput::PollInbound
            },
            PollInput::Inbound(None) => {
                // Emit outbound requests.
                if let Some(request) = self.pending_outbound.pop_front() {
                    let protocols = request.protocols.clone();
                    self.requested_outbound.push_back(request);
                    return PollOutput::Ready(
                        ConnectionHandlerEvent::OutboundSubstreamRequest { protocols },
                    );
                }
                if queue_capacity(&self.pending_outbound) > EMPTY_QUEUE_SHRINK_THRESHOLD {
                    shrink_queue(&mut self.pending_outbound);
                }
                if self.inbound == 0 && self.keep_alive == KeepAlive::Yes {
                    let now: u128 = read_clock(self.clock_start);
                    self.fall_idle(now);
                }
                PollOutput::Pending
            },
        }
    }

    /// The connection falls idle at `now`.
    ///
    /// The latest inbound or outbound upgrades may just have been started, so the
    /// keep-alive timeout is preceded by the substream timeout.
    pub fn fall_idle(&mut self, now: u128)
        requires
            old(self)@.valid(),
            old(self)@.pending_outbound.len() == 0,
            now <= MAX_NANOS,
        ensures
            final(self)@.valid(),
            final(self)@ == old(self)@.idle_at(now),
    {
        let until: u128 = now + self.substream_timeout + self.keep_alive_timeout;
        self.keep_alive = KeepAlive::Until(until);
    }

    /// Starts the work on an inbound substream, with the number drawn for its
    /// request and the two channels made for it.
    pub fn accept_inbound<TStream>(
        &self,
        negotiated: Negotiated<TCodec, TStream>,
        number: u64,
        request_channel: (
            oneshot::Sender<(RequestId, TCodec::Request)>,
            oneshot::Receiver<(RequestId, TCodec::Request)>,
        ),
        response_channel: (oneshot::Sender<TCodec::Response>, oneshot::Receiver<TCodec::Response>),
    ) -> (started: (PendingInbound<TCodec>, InboundTask<TCodec, TStream>))
        ensures
            inbound_started(
                self@,
                negotiated,
                number,
                request_channel,
                response_channel,
                started.0,
                started.1,
            ),
    {
        let (request_sender, request_receiver) = request_channel;
        let (response_sender, response_receiver) = response_channel;
        let pending = PendingInbound { request_receiver, response_sender };
        let task = InboundTask {
            codec: self.codec.clone(),
            stream: negotiated.stream,
            protocol: negotiated.protocol,
            request_sender,
            response_receiver,
            timeout: self.substream_timeout,
            worker: InboundWorker::new(RequestId(number)),
        };
        (pending, task)
    }

    /// An inbound substream was negotiated: its request gets a number, and its work
    /// starts.
    ///
    /// The number is what the counter gives out.  Other handlers may draw from the counter
    /// at any time, so neither its value nor how far it moves is told of here.
    pub fn on_fully_negotiated_inbound<TStream>(
        &mut self,
        negotiated: Negotiated<TCodec, TStream>,
    ) -> (started: (PendingInbound<TCodec>, InboundTask<TCodec, TStream>))
        requires
            old(self)@.valid(),
            old(self)@.inbound < usize::MAX,
        ensures
            final(self)@.valid(),
            final(self)@ == (HandlerState {
                inbound: old(self)@.inbound + 1,
                ..old(self)@
            }),
            some_inbound_started(old(self)@, negotiated, started.0, started.1),
    {
        let request_channel = oneshot::channel();
        let response_channel = oneshot::channel();
        let number: u64 = self.inbound_request_id.fetch_add(1, Ordering::Relaxed);
        let started = self.accept_inbound(negotiated, number, request_channel, response_channel);
        self.inbound = self.inbound + 1;
        started
    }

    /// An outbound substream was negotiated: it serves the request that has waited
    /// the longest for its substream.
    pub fn on_fully_negotiated_outbound<TStream>(
        &mut self,
        negotiated: Negotiated<TCodec, TStream>,
    ) -> (task: OutboundTask<TCodec, TStream>)
        requires
            old(self)@.valid(),
            old(self)@.requested_outbound.len() > 0,
        ensures
            final(self)@.valid(),
            final(self)@ == (HandlerState {
                requested_outbound: old(self)@.requested_outbound.drop_first(),
                ..old(self)@
            }),
            outbound_started(old(self)@, negotiated, task),
    {
        let message = self.requested_outbound.pop_front().unwrap();
        OutboundTask {
            codec: self.codec.clone(),
            stream: negotiated.stream,
            protocol: negotiated.protocol,
            request: message.request,
            timeout: self.substream_timeout,
            worker: OutboundWorker::new(message.request_id),
        }
    }

    /// An outbound substream could not be had.  Where the remote merely does not
    /// support the protocols, that is reported of the request that has waited the
    /// longest for its substream: it is no reason to close the connection, which may
    /// serve other protocols.  A failed substream changes nothing.
    pub fn on_dial_upgrade_error(&mut self, error: StreamUpgradeError)
        requires
            old(self)@.valid(),
            !(error is Timeout),
            error is NegotiationFailed ==> old(self)@.requested_outbound.len() > 0,
        ensures
            final(self)@.valid(),
            final(self)@ == dial_failed(old(self)@, error),
    {
        match error {
            StreamUpgradeError::NegotiationFailed => {
                let message = self.requested_outbound.pop_front().unwrap();
                self.pending_events.push_back(
                    Event::OutboundUnsupportedProtocols(message.request_id),
                );
            },
            _ => {},
        }
    }

    /// Whether the connection can tell of the event.
    pub fn expects_event<TStream>(&self, event: &ConnectionEvent<TCodec, TStream>) -> (expected:
        bool)
        ensures
            expected == may_happen(self@, *event),
    {
        match event {
            ConnectionEvent::FullyNegotiatedInbound(_) => self.inbound < usize::MAX,
            ConnectionEvent::FullyNegotiatedOutbound(_) => self.requested_outbound.len() > 0,
            ConnectionEvent::DialUpgradeError(error) => match error {
                StreamUpgradeError::Timeout => false,
                StreamUpgradeError::NegotiationFailed => self.requested_outbound.len() > 0,
                StreamUpgradeError::Io(_) => true,
            },
            _ => true,
        }
    }

    /// Takes an event of the connection and returns the work that it starts.
    pub fn on_connection_event<TStream>(
        &mut self,
        event: ConnectionEvent<TCodec, TStream>,
    ) -> (started: Started<TCodec, TStream>)
        requires
            old(self)@.valid(),
            may_happen(old(self)@, event),
        ensures
            final(self)@.valid(),
            connection_turn(old(self)@, event, final(self)@, started),
    {
        match event {
            ConnectionEvent::FullyNegotiatedInbound(negotiated) => {
                let (pending, task) = self.on_fully_negotiated_inbound(negotiated);
                Started::Inbound(pending, task)
            },
            ConnectionEvent::FullyNegotiatedOutbound(negotiated) => {
                Started::Outbound(self.on_fully_negotiated_outbound(negotiated))
            },
            ConnectionEvent::DialUpgradeError(error) => {
                self.on_dial_upgrade_error(error);
                Started::Nothing
            },
            ConnectionEvent::AddressChange
            | ConnectionEvent::LocalProtocolsChange
            | ConnectionEvent::RemoteProtocolsChange => Started::Nothing,
        }
    }
}

} // verus!
