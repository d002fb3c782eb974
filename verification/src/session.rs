//! The session as the application holds it.
//!
//! After a handshake has succeeded the session is wired up: a command queue
//! towards the outbound pump, an event bus from the inbound pump, and the
//! handle that the application keeps. The pumps then run on their own; they
//! end with the queue or the transport, not with the handle. The bus is given
//! a first subscription of its own, which lasts as long as the session, so
//! that it is never without a receiver, whoever else subscribes.

use tokio::sync::broadcast;
use tokio::sync::mpsc;
use vstd::prelude::*;
use worterbuch_common::{ClientMessage, ServerMessage};

use crate::channels::{
    bus_handle,
    bus_of_receiver,
    bus_of_sender,
    command_channel,
    enqueue,
    event_channel,
    history_asked,
    queue_handle,
    queue_of_receiver,
    queue_of_sender,
    subscription,
};
use crate::handshake::{
    first_read,
    handshake_outcome,
    lacks_message,
    negotiate,
    HandshakeError,
};
use crate::inbound::{InboundPump, InboundState};
use crate::outbound::{OutboundPump, OutboundState};
use crate::parameters::SessionParameters;
use crate::transport::FrameRead;

verus! {

/// How many events the bus is asked to keep for subscribers that have fallen
/// behind. The channel rounds this up to a power of two, so it keeps no
/// fewer. A subscriber that falls behind by more than the channel keeps is
/// told of the gap; the publisher is never held up.
pub const EVENT_HISTORY: usize = 1000;

/// A command could not be submitted: the outbound pump has ended and the
/// queue is closed. The command comes back.
#[derive(Debug)]
pub struct QueueClosed(pub ClientMessage);

/// What a submission comes to, given the queue's answer: the queue took the
/// command, or it is closed and handed the command back.
pub fn submitted(answer: Result<(), ClientMessage>) -> (outcome: Result<(), QueueClosed>)
    ensures
        outcome == match answer {
            Ok(()) => Ok::<(), QueueClosed>(()),
            Err(command) => Err::<(), QueueClosed>(QueueClosed(command)),
        },
{
    match answer {
        Ok(()) => Ok(()),
        Err(command) => Err(QueueClosed(command)),
    }
}

/// What a handle stands for: the parameters of its session, and the two
/// channels it is an end of.
pub struct ConnectionView {
    /// The parameters that the handshake announced.
    pub parameters: SessionParameters,
    /// The command queue that the handle submits to.
    pub queue: int,
    /// The event bus that the handle subscribes to.
    pub bus: int,
    /// The history that this bus was asked to keep.
    pub history: usize,
}

/// The application's handle to a session.
///
/// It submits commands, hands out subscriptions to the events, and knows the
/// parameters that the handshake announced.
#[derive(Debug)]
pub struct Connection {
    commands: mpsc::UnboundedSender<ClientMessage>,
    events: broadcast::Sender<ServerMessage>,
    parameters: SessionParameters,
}

impl View for Connection {
    type V = ConnectionView;

    closed spec fn view(&self) -> ConnectionView {
        ConnectionView {
            parameters: self.parameters,
            queue: queue_of_sender(self.commands),
            bus: bus_of_sender(self.events),
            history: history_asked(self.events),
        }
    }
}

impl Clone for Connection {
    /// One more handle to the same session: the same parameters, the same
    /// queue, the same bus.
    fn clone(&self) -> (handle: Self)
        ensures
            handle@ == self@,
    {
        Connection {
            commands: queue_handle(&self.commands),
            events: bus_handle(&self.events),
            parameters: self.parameters,
        }
    }
}

impl Connection {
    /// A handle made of the producing end of the command queue, the event
    /// bus and the three announced characters. It holds the two ends it is
    /// given.
    pub fn new(
        commands: mpsc::UnboundedSender<ClientMessage>,
        events: broadcast::Sender<ServerMessage>,
        separator: char,
        wildcard: char,
        multi_wildcard: char,
    ) -> (connection: Self)
        ensures
            connection@ == (ConnectionView {
                parameters: SessionParameters { separator, wildcard, multi_wildcard },
                queue: queue_of_sender(commands),
                bus: bus_of_sender(events),
                history: history_asked(events),
            }),
    {
        Connection {
            commands,
            events,
            parameters: SessionParameters { separator, wildcard, multi_wildcard },
        }
    }

    /// Puts a command into the queue of the outbound pump. This fails only
    /// once that pump has ended, and the command then comes back as it was.
    /// Whether the pump has ended is the queue's to say: see [`submitted`].
    pub fn submit(&self, command: ClientMessage) -> (outcome: Result<(), QueueClosed>)
        ensures
            outcome matches Err(closed) ==> closed.0 == command,
    {
        submitted(enqueue(&self.commands, command))
    }

    /// A fresh subscription to the events of this session: a new receiver on
    /// the handle's bus. It sees only what is published from now on; that
    /// much is the channel's promise of a new receiver and is not stated
    /// here.
    pub fn subscribe(&self) -> (events: broadcast::Receiver<ServerMessage>)
        ensures
            bus_of_receiver(events) == self@.bus,
    {
        subscription(&self.events)
    }

    /// The parameters that the handshake announced.
    pub fn parameters(&self) -> (parameters: SessionParameters)
        ensures
            parameters == self@.parameters,
    {
        self.parameters
    }

    /// The character that separates the segments of a key.
    pub fn separator(&self) -> (c: char)
        ensures
            c == self@.parameters.separator,
    {
        self.parameters.separator
    }

    /// The character that stands for exactly one segment.
    pub fn wildcard(&self) -> (c: char)
        ensures
            c == self@.parameters.wildcard,
    {
        self.parameters.wildcard
    }

    /// The character that stands for any number of trailing segments.
    pub fn multi_wildcard(&self) -> (c: char)
        ensures
            c == self@.parameters.multi_wildcard,
    {
        self.parameters.multi_wildcard
    }
}

/// A session that is wired up and not yet running.
///
/// The caller keeps `connection` and gives each pump, with what belongs to
/// it, a task of its own.
#[derive(Debug)]
pub struct Session {
    /// The handle for the application.
    pub connection: Connection,
    /// The consuming end of the command queue, for the outbound pump.
    pub commands: mpsc::UnboundedReceiver<ClientMessage>,
    /// The outbound pump.
    pub outbound: OutboundPump,
    /// The inbound pump.
    pub inbound: InboundPump,
    /// The event bus as the inbound pump publishes to it.
    pub publisher: broadcast::Sender<ServerMessage>,
    /// The first subscription to the event bus. It is never read. It is
    /// there so that the bus has a receiver for as long as the session
    /// lasts: it stays with the publisher until the inbound pump has ended,
    /// whatever becomes of the outbound pump and of the handle.
    pub first_subscription: broadcast::Receiver<ServerMessage>,
}

/// Whether the session is one that [`open`] wires up for the parameters.
///
/// The handle knows the parameters. The queue it submits to is the one that
/// `commands` takes from. The bus it subscribes to is the one that
/// `publisher` publishes to, it was asked to keep [`EVENT_HISTORY`] events,
/// and the first subscription is a receiver on it. Both pumps are ready to
/// run.
pub open spec fn fresh(session: Session, parameters: SessionParameters) -> bool {
    &&& session.connection@.parameters == parameters
    &&& session.connection@.queue == queue_of_receiver(session.commands)
    &&& session.connection@.bus == bus_of_sender(session.publisher)
    &&& session.connection@.history == EVENT_HISTORY
    &&& history_asked(session.publisher) == EVENT_HISTORY
    &&& bus_of_receiver(session.first_subscription) == bus_of_sender(session.publisher)
    &&& session.outbound@ == OutboundState::Running
    &&& session.inbound@ == InboundState::Running
}

/// Wires up a session for the parameters that a handshake announced.
///
/// One queue and one bus are made. The bus has its first subscription before
/// anything can be published, and no pump holds it: it outlasts both.
pub fn open(parameters: SessionParameters) -> (session: Session)
    ensures
        fresh(session, parameters),
{
    let (queue, commands) = command_channel();
    let (events, first_subscription) = event_channel(EVENT_HISTORY);
    let publisher = bus_handle(&events);
    Session {
        connection: Connection { commands: queue, events, parameters },
        commands,
        outbound: OutboundPump::new(),
        inbound: InboundPump::new(),
        publisher,
        first_subscription,
    }
}

/// Establishes a session from the first read off a fresh transport.
///
/// The handshake decides everything: a session is wired up exactly when the
/// first frame is a handshake, and it then carries the parameters that the
/// handshake announces. In every other case nothing is wired up and the
/// handshake's error is returned.
pub fn establish<E>(read: FrameRead<E>) -> (outcome: Result<Session, HandshakeError<E>>)
    ensures
        match handshake_outcome(first_read(read)) {
            Ok(parameters) => outcome matches Ok(session) && fresh(session, parameters),
            Err(error) => outcome matches Err(refusal) && refusal == error,
        },
        (outcome matches Err(HandshakeError::Aborted)) <==> lacks_message(read),
{
    match negotiate(read) {
        Ok(parameters) => Ok(open(parameters)),
        Err(error) => Err(error),
    }
}

} // verus!
