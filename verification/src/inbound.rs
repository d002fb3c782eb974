//! The inbound pump: events on their way from the server to the subscribers.
//!
//! The pump reads frame after frame. What decodes to a message is published;
//! what does not is skipped, and the pump reads on. Only the peer's explicit
//! end of the session ends the pump: it then asks for the disconnect
//! notification, once, and is silent ever after. Reading the transport is
//! the caller's part: it reports each read as an event and performs the
//! action that comes back.

use tokio::sync::broadcast;
use vstd::prelude::*;
use worterbuch_common::error::DecodeError;
use worterbuch_common::ServerMessage;

use crate::channels::publish;
use crate::codec::{decode, decoding, holds_message, Decoded};
use crate::transport::FrameRead;

verus! {

/// Where the inbound pump stands.
#[derive(Clone, Copy, Debug, PartialEq, Eq, Structural)]
pub enum InboundState {
    /// The pump reads and publishes.
    Running,
    /// The peer has ended the session. The pump never runs again.
    Stopped,
}

/// One read from the transport as the inbound pump sees it: binary frames
/// come decoded, every other frame as a mere control signal.
#[derive(Debug)]
pub enum InboundEvent<E> {
    /// The read yielded no frame: the stream has ended.
    Closed,
    /// The read failed.
    Failed(E),
    /// A frame came that is not binary.
    Control,
    /// A binary frame came, and this is what its payload holds.
    Decoded(Decoded),
}

/// Why a read led to nothing being published.
#[derive(Debug)]
pub enum Skipped<E> {
    /// No frame came.
    NoFrame,
    /// The read failed; the transport's error is handed on for the log.
    ReadFailed(E),
    /// The frame was not binary.
    NotBinary,
    /// The frame's bytes are no message; the codec's error is handed on for
    /// the log.
    Malformed(DecodeError),
}

/// What the inbound pump asks of the caller.
#[derive(Debug)]
pub enum InboundAction<E> {
    /// Publish this message to the subscribers, then read on.
    Publish(ServerMessage),
    /// Nothing to publish; read on.
    Skip(Skipped<E>),
    /// The peer has ended the session: give the disconnect notification and
    /// leave the loop.
    Disconnect,
    /// The pump has ended before: nothing is left to do.
    Halted,
}

/// What came of one read once the pump has done its part with the event bus.
#[derive(Debug)]
pub enum Delivery<E> {
    /// A message went to the event bus; so many subscribers were there to
    /// see it.
    Published(usize),
    /// A message was due, but the bus had no subscriber; the message comes
    /// back.
    Unheard(ServerMessage),
    /// Nothing was to be published.
    Skipped(Skipped<E>),
    /// The peer has ended the session: give the disconnect notification and
    /// leave the loop.
    Disconnected,
    /// The pump has ended before: nothing is left to do.
    Halted,
}

impl<E> Delivery<E> {
    /// What a publication comes to, given the bus's answer: it took the
    /// message for so many subscribers, or it has none and handed the message
    /// back.
    pub fn of_publication(answer: Result<usize, ServerMessage>) -> (delivery: Self)
        ensures
            delivery == match answer {
                Ok(receivers) => Delivery::<E>::Published(receivers),
                Err(message) => Delivery::<E>::Unheard(message),
            },
    {
        match answer {
            Ok(receivers) => Delivery::Published(receivers),
            Err(message) => Delivery::Unheard(message),
        }
    }
}

/// One step of the inbound pump: the state it moves to and what it asks for.
pub open spec fn inbound_step<E>(state: InboundState, event: InboundEvent<E>) -> (
    InboundState,
    InboundAction<E>,
) {
    match state {
        InboundState::Stopped => (InboundState::Stopped, InboundAction::Halted),
        InboundState::Running => match event {
            InboundEvent::Closed => (
                InboundState::Running,
                InboundAction::Skip(Skipped::NoFrame),
            ),
            InboundEvent::Failed(error) => (
                InboundState::Running,
                InboundAction::Skip(Skipped::ReadFailed(error)),
            ),
            InboundEvent::Control => (
                InboundState::Running,
                InboundAction::Skip(Skipped::NotBinary),
            ),
            InboundEvent::Decoded(Decoded::Handshake { parameters, message }) => (
                InboundState::Running,
                InboundAction::Publish(message),
            ),
            InboundEvent::Decoded(Decoded::Event(message)) => (
                InboundState::Running,
                InboundAction::Publish(message),
            ),
            InboundEvent::Decoded(Decoded::EndOfSession) => (
                InboundState::Stopped,
                InboundAction::Disconnect,
            ),
            InboundEvent::Decoded(Decoded::Malformed(error)) => (
                InboundState::Running,
                InboundAction::Skip(Skipped::Malformed(error)),
            ),
        },
    }
}

/// A read as the inbound pump sees it: only the payload of a binary frame is
/// decoded.
pub open spec fn inbound_event<E>(read: FrameRead<E>) -> InboundEvent<E> {
    match read {
        FrameRead::Closed => InboundEvent::Closed,
        FrameRead::Failed(error) => InboundEvent::Failed(error),
        FrameRead::Frame(frame) => if frame.binary {
            InboundEvent::Decoded(decoding(frame.data@))
        } else {
            InboundEvent::Control
        },
    }
}

/// Whether a read is the peer's end of the session: a binary frame that does
/// not hold a whole message.
pub open spec fn signals_end<E>(read: FrameRead<E>) -> bool {
    match read {
        FrameRead::Frame(frame) => frame.binary && !holds_message(frame.data@),
        _ => false,
    }
}

/// The inbound pump.
#[derive(Debug)]
pub struct InboundPump {
    state: InboundState,
}

impl View for InboundPump {
    type V = InboundState;

    closed spec fn view(&self) -> InboundState {
        self.state
    }
}

impl InboundPump {
    /// A pump that is ready for its first read.
    pub fn new() -> (pump: Self)
        ensures
            pump@ == InboundState::Running,
    {
        InboundPump { state: InboundState::Running }
    }

    /// Where the pump stands.
    pub fn state(&self) -> (state: InboundState)
        ensures
            state == self@,
    {
        self.state
    }

    /// Whether the pump still reads.
    pub fn is_running(&self) -> (running: bool)
        ensures
            running == (self@ == InboundState::Running),
    {
        match self.state {
            InboundState::Running => true,
            InboundState::Stopped => false,
        }
    }

    /// Takes one event and says what to do next.
    pub fn step<E>(&mut self, event: InboundEvent<E>) -> (action: InboundAction<E>)
        ensures
            (final(self)@, action) == inbound_step(old(self)@, event),
    {
        match self.state {
            InboundState::Stopped => InboundAction::Halted,
            InboundState::Running => match event {
                InboundEvent::Closed => InboundAction::Skip(Skipped::NoFrame),
                InboundEvent::Failed(error) => InboundAction::Skip(Skipped::ReadFailed(error)),
                InboundEvent::Control => InboundAction::Skip(Skipped::NotBinary),
                InboundEvent::Decoded(decoded) => match decoded {
                    Decoded::Handshake { parameters: _, message } => InboundAction::Publish(
                        message,
                    ),
                    Decoded::Event(message) => InboundAction::Publish(message),
                    Decoded::EndOfSession => {
                        self.state = InboundState::Stopped;
                        InboundAction::Disconnect
                    },
                    Decoded::Malformed(error) => InboundAction::Skip(Skipped::Malformed(error)),
                },
            },
        }
    }

    /// Takes what one read from the transport yielded. The payload of a
    /// binary frame is decoded here; a pump that has ended decodes nothing.
    ///
    /// A running pump asks for the disconnect notification exactly when a
    /// binary frame comes that does not hold a whole message.
    pub fn receive<E>(&mut self, read: FrameRead<E>) -> (action: InboundAction<E>)
        ensures
            (final(self)@, action) == inbound_step(old(self)@, inbound_event(read)),
            action is Disconnect <==> (old(self)@ == InboundState::Running && signals_end(read)),
    {
        if !self.is_running() {
            return InboundAction::Halted;
        }
        let event = match read {
            FrameRead::Closed => InboundEvent::Closed,
            FrameRead::Failed(error) => InboundEvent::Failed(error),
            FrameRead::Frame(frame) => if frame.binary {
                InboundEvent::Decoded(decode(frame.data.as_slice()))
            } else {
                InboundEvent::Control
            },
        };
        self.step(event)
    }

    /// Takes what one read from the transport yielded and, where a message
    /// is due, publishes it to the event bus.
    ///
    /// The pump moves as [`inbound_step`] says. A bus without a subscriber
    /// does not end the pump: the message comes back and the pump reads on.
    pub fn deliver<E>(
        &mut self,
        bus: &broadcast::Sender<ServerMessage>,
        read: FrameRead<E>,
    ) -> (delivery: Delivery<E>)
        ensures
            final(self)@ == inbound_step(old(self)@, inbound_event(read)).0,
            delivery is Disconnected <==> (old(self)@ == InboundState::Running && signals_end(
                read,
            )),
            match inbound_step(old(self)@, inbound_event(read)).1 {
                InboundAction::Publish(message) => (delivery matches Delivery::Published(receivers)
                    && receivers >= 1) || delivery == Delivery::<E>::Unheard(message),
                InboundAction::Skip(reason) => delivery == Delivery::Skipped(reason),
                InboundAction::Disconnect => delivery == Delivery::<E>::Disconnected,
                InboundAction::Halted => delivery == Delivery::<E>::Halted,
            },
    {
        match self.receive(read) {
            InboundAction::Publish(message) => Delivery::of_publication(publish(bus, message)),
            InboundAction::Skip(reason) => Delivery::Skipped(reason),
            InboundAction::Disconnect => Delivery::Disconnected,
            InboundAction::Halted => Delivery::Halted,
        }
    }
}

/// The pump run over a sequence of events: the state it ends in and the
/// actions it asks for, one for each event.
pub open spec fn inbound_run<E>(state: InboundState, events: Seq<InboundEvent<E>>) -> (
    InboundState,
    Seq<InboundAction<E>>,
)
    decreases events.len(),
{
    if events.len() == 0 {
        (state, Seq::empty())
    } else {
        let (next, action) = inbound_step(state, events.first());
        let (last, actions) = inbound_run(next, events.drop_first());
        (last, seq![action] + actions)
    }
}

/// The messages that a sequence of actions hands to the subscribers, in
/// order.
pub open spec fn published<E>(actions: Seq<InboundAction<E>>) -> Seq<ServerMessage>
    decreases actions.len(),
{
    if actions.len() == 0 {
        Seq::empty()
    } else {
        match actions.first() {
            InboundAction::Publish(message) => seq![message] + published(actions.drop_first()),
            _ => published(actions.drop_first()),
        }
    }
}

/// How often a sequence of actions asks for the disconnect notification.
pub open spec fn disconnects<E>(actions: Seq<InboundAction<E>>) -> nat
    decreases actions.len(),
{
    if actions.len() == 0 {
        0
    } else {
        match actions.first() {
            InboundAction::Disconnect => 1 + disconnects(actions.drop_first()),
            _ => disconnects(actions.drop_first()),
        }
    }
}

/// Whether the event is the peer's end of the session.
pub open spec fn ends_session<E>(event: InboundEvent<E>) -> bool {
    event matches InboundEvent::Decoded(Decoded::EndOfSession)
}

/// The message that an event carries, if it carries one.
pub open spec fn message_of<E>(event: InboundEvent<E>) -> Option<ServerMessage> {
    match event {
        InboundEvent::Decoded(Decoded::Handshake { parameters, message }) => Some(message),
        InboundEvent::Decoded(Decoded::Event(message)) => Some(message),
        _ => None,
    }
}

/// The messages that are due to the subscribers for a sequence of events:
/// those that the events carry, in the order of the events, up to the peer's
/// end of the session.
pub open spec fn messages_due<E>(events: Seq<InboundEvent<E>>) -> Seq<ServerMessage>
    decreases events.len(),
{
    if events.len() == 0 || ends_session(events.first()) {
        Seq::empty()
    } else {
        match message_of(events.first()) {
            Some(message) => seq![message] + messages_due(events.drop_first()),
            None => messages_due(events.drop_first()),
        }
    }
}

/// A pump that has ended stays so: it publishes nothing and asks for no
/// further disconnect notification, whatever is reported to it.
pub proof fn lemma_stopped_inbound_pump_is_silent<E>(events: Seq<InboundEvent<E>>)
    ensures
        inbound_run(InboundState::Stopped, events).0 == InboundState::Stopped,
        inbound_run(InboundState::Stopped, events).1 == Seq::new(
            events.len(),
            |i: int| InboundAction::<E>::Halted,
        ),
        published(inbound_run(InboundState::Stopped, events).1) == Seq::<ServerMessage>::empty(),
        disconnects(inbound_run(InboundState::Stopped, events).1) == 0,
    decreases events.len(),
{
    if events.len() > 0 {
        lemma_stopped_inbound_pump_is_silent(events.drop_first());
        let rest = inbound_run(InboundState::Stopped, events.drop_first()).1;
        let all = inbound_run(InboundState::Stopped, events).1;
        assert(all.drop_first() == rest);
    }
}

/// Events reach the subscribers in the order in which they were decoded:
/// what is published is exactly what is due, each message once, and nothing
/// that came after the peer's end of the session.
pub proof fn lemma_events_are_published_in_order<E>(events: Seq<InboundEvent<E>>)
    ensures
        published(inbound_run(InboundState::Running, events).1) == messages_due(events),
    decreases events.len(),
{
    if events.len() > 0 {
        let (next, action) = inbound_step(InboundState::Running, events.first());
        let rest = inbound_run(next, events.drop_first()).1;
        let all = inbound_run(InboundState::Running, events).1;
        assert(all.drop_first() == rest);
        match next {
            InboundState::Running => {
                lemma_events_are_published_in_order(events.drop_first());
            },
            InboundState::Stopped => {
                lemma_stopped_inbound_pump_is_silent(events.drop_first());
            },
        }
    }
}

/// The disconnect notification is asked for at most once, however often the
/// peer's end of the session recurs: exactly once by a running pump that is
/// reported an end of the session, and never otherwise. Once it was asked
/// for, the pump has ended.
pub proof fn lemma_disconnects_once<E>(state: InboundState, events: Seq<InboundEvent<E>>)
    ensures
        disconnects(inbound_run(state, events).1) == (if state == InboundState::Running
            && exists|i: int| 0 <= i < events.len() && ends_session(#[trigger] events[i]) {
            1nat
        } else {
            0nat
        }),
        disconnects(inbound_run(state, events).1) == 1 ==> inbound_run(state, events).0
            == InboundState::Stopped,
    decreases events.len(),
{
    match state {
        InboundState::Stopped => {
            lemma_stopped_inbound_pump_is_silent(events);
        },
        InboundState::Running => {
            if events.len() > 0 {
                let (next, action) = inbound_step(state, events.first());
                let tail = events.drop_first();
                let rest = inbound_run(next, tail).1;
                let all = inbound_run(state, events).1;
                assert(all.drop_first() == rest);
                lemma_disconnects_once(next, tail);
                if ends_session(events.first()) {
                    lemma_stopped_inbound_pump_is_silent(tail);
                } else if exists|i: int|
                    0 <= i < events.len() && ends_session(#[trigger] events[i]) {
                    let i = choose|i: int|
                        0 <= i < events.len() && ends_session(#[trigger] events[i]);
                    assert(ends_session(tail[i - 1]));
                }
            }
        },
    }
}

/// A frame that cannot be read or decoded costs nothing but itself: leaving
/// an event without a message out of the sequence, wherever it stands,
/// changes nothing in what is published.
pub proof fn lemma_skipped_event_changes_nothing<E>(
    before: Seq<InboundEvent<E>>,
    event: InboundEvent<E>,
    after: Seq<InboundEvent<E>>,
)
    requires
        !ends_session(event),
        message_of(event) is None,
    ensures
        published(inbound_run(InboundState::Running, before + seq![event] + after).1) == published(
            inbound_run(InboundState::Running, before + after).1,
        ),
{
    lemma_events_are_published_in_order(before + seq![event] + after);
    lemma_events_are_published_in_order(before + after);
    lemma_due_without_skipped_event(before, event, after);
}

proof fn lemma_due_without_skipped_event<E>(
    before: Seq<InboundEvent<E>>,
    event: InboundEvent<E>,
    after: Seq<InboundEvent<E>>,
)
    requires
        !ends_session(event),
        message_of(event) is None,
    ensures
        messages_due(before + seq![event] + after) == messages_due(before + after),
    decreases before.len(),
{
    let with = before + seq![event] + after;
    let without = before + after;
    if before.len() == 0 {
        assert(with.drop_first() == after);
    } else {
        let rest = before.drop_first();
        assert(with.drop_first() == rest + seq![event] + after);
        assert(without.drop_first() == rest + after);
        lemma_due_without_skipped_event(rest, event, after);
    }
}

} // verus!
