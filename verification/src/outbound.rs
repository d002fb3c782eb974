//! The outbound pump: commands on their way to the server.
//!
//! The pump takes one command after the other from the command queue, encodes
//! it and hands the frame to the transport. It ends when the queue is closed,
//! when a command cannot be encoded, or when a write fails; nothing is retried
//! and nothing is queued again. Its end touches nothing but itself: the event
//! bus and the inbound pump go on. Taking from the queue and writing to the
//! transport are the caller's part: it reports each as an event and performs
//! the action that comes back.

use vstd::prelude::*;
use worterbuch_common::ClientMessage;

use crate::codec::{command_encoding, encode_command};

verus! {

/// Why the outbound pump ended.
#[derive(Clone, Copy, Debug, PartialEq, Eq, Structural)]
pub enum OutboundExit {
    /// Every handle that could submit a command is gone.
    QueueClosed,
    /// A command could not be encoded.
    EncodeFailed,
    /// The transport refused a frame.
    WriteFailed,
}

/// Where the outbound pump stands.
#[derive(Clone, Copy, Debug, PartialEq, Eq, Structural)]
pub enum OutboundState {
    /// The pump takes commands and sends them.
    Running,
    /// The pump has ended, for the reason given. It never runs again.
    Stopped(OutboundExit),
}

/// What the caller reports to the outbound pump.
#[derive(Debug)]
pub enum OutboundEvent {
    /// The queue gave the next command. It comes encoded, or as `None` where
    /// it has no encoding.
    Command(Option<Vec<u8>>),
    /// The queue is closed and empty.
    QueueClosed,
    /// The frame last handed out was written.
    Written,
    /// Writing the frame last handed out failed.
    WriteFailed,
}

/// What the outbound pump asks of the caller.
#[derive(Debug)]
pub enum OutboundAction {
    /// Take the next command from the queue.
    Receive,
    /// Write this frame to the transport, as a binary frame.
    Send(Vec<u8>),
    /// Leave the loop: the pump has ended.
    Stop,
}

/// The view of an [`OutboundEvent`]: the same event, its bytes as a sequence.
pub enum OutboundEventView {
    /// The next command, encoded, or `None` where it has no encoding.
    Command(Option<Seq<u8>>),
    /// The queue is closed and empty.
    QueueClosed,
    /// The frame last handed out was written.
    Written,
    /// Writing the frame last handed out failed.
    WriteFailed,
}

/// The view of an [`OutboundAction`]: the same action, its bytes as a
/// sequence.
pub enum OutboundActionView {
    /// Take the next command from the queue.
    Receive,
    /// Write this frame to the transport.
    Send(Seq<u8>),
    /// Leave the loop.
    Stop,
}

impl View for OutboundEvent {
    type V = OutboundEventView;

    open spec fn view(&self) -> OutboundEventView {
        match *self {
            OutboundEvent::Command(Some(frame)) => OutboundEventView::Command(Some(frame@)),
            OutboundEvent::Command(None) => OutboundEventView::Command(None),
            OutboundEvent::QueueClosed => OutboundEventView::QueueClosed,
            OutboundEvent::Written => OutboundEventView::Written,
            OutboundEvent::WriteFailed => OutboundEventView::WriteFailed,
        }
    }
}

impl View for OutboundAction {
    type V = OutboundActionView;

    open spec fn view(&self) -> OutboundActionView {
        match *self {
            OutboundAction::Receive => OutboundActionView::Receive,
            OutboundAction::Send(frame) => OutboundActionView::Send(frame@),
            OutboundAction::Stop => OutboundActionView::Stop,
        }
    }
}

/// One step of the outbound pump: the state it moves to and what it asks for.
pub open spec fn outbound_step(state: OutboundState, event: OutboundEventView) -> (
    OutboundState,
    OutboundActionView,
) {
    match state {
        OutboundState::Stopped(_) => (state, OutboundActionView::Stop),
        OutboundState::Running => match event {
            OutboundEventView::Command(Some(frame)) => (
                OutboundState::Running,
                OutboundActionView::Send(frame),
            ),
            OutboundEventView::Command(None) => (
                OutboundState::Stopped(OutboundExit::EncodeFailed),
                OutboundActionView::Stop,
            ),
            OutboundEventView::QueueClosed => (
                OutboundState::Stopped(OutboundExit::QueueClosed),
                OutboundActionView::Stop,
            ),
            OutboundEventView::Written => (OutboundState::Running, OutboundActionView::Receive),
            OutboundEventView::WriteFailed => (
                OutboundState::Stopped(OutboundExit::WriteFailed),
                OutboundActionView::Stop,
            ),
        },
    }
}

/// The event that taking from the queue amounts to: the command with the
/// encoding the codec gives it, or the closing of the queue.
pub open spec fn submission(next: Option<ClientMessage>) -> OutboundEventView {
    match next {
        Some(command) => OutboundEventView::Command(command_encoding(command)),
        None => OutboundEventView::QueueClosed,
    }
}

/// The outbound pump. Its view is the state it is in.
#[derive(Debug)]
pub struct OutboundPump {
    state: OutboundState,
}

impl View for OutboundPump {
    type V = OutboundState;

    closed spec fn view(&self) -> OutboundState {
        self.state
    }
}

impl OutboundPump {
    /// A pump that is ready for its first command.
    pub fn new() -> (pump: Self)
        ensures
            pump@ == OutboundState::Running,
    {
        OutboundPump { state: OutboundState::Running }
    }

    /// Where the pump stands.
    pub fn state(&self) -> (state: OutboundState)
        ensures
            state == self@,
    {
        self.state
    }

    /// Whether the pump still takes commands.
    pub fn is_running(&self) -> (running: bool)
        ensures
            running == (self@ == OutboundState::Running),
    {
        match self.state {
            OutboundState::Running => true,
            OutboundState::Stopped(_) => false,
        }
    }

    /// Takes one event and says what to do next.
    pub fn step(&mut self, event: OutboundEvent) -> (action: OutboundAction)
        ensures
            (final(self)@, action@) == outbound_step(old(self)@, event@),
    {
        match self.state {
            OutboundState::Stopped(_) => OutboundAction::Stop,
            OutboundState::Running => match event {
                OutboundEvent::Command(Some(frame)) => OutboundAction::Send(frame),
                OutboundEvent::Command(None) => {
                    self.state = OutboundState::Stopped(OutboundExit::EncodeFailed);
                    OutboundAction::Stop
                },
                OutboundEvent::QueueClosed => {
                    self.state = OutboundState::Stopped(OutboundExit::QueueClosed);
                    OutboundAction::Stop
                },
                OutboundEvent::Written => OutboundAction::Receive,
                OutboundEvent::WriteFailed => {
                    self.state = OutboundState::Stopped(OutboundExit::WriteFailed);
                    OutboundAction::Stop
                },
            },
        }
    }

    /// Takes what the command queue gave: the next command, or `None` once the
    /// queue is closed. The command is encoded here; a pump that has ended
    /// encodes nothing.
    pub fn take(&mut self, next: Option<ClientMessage>) -> (action: OutboundAction)
        ensures
            (final(self)@, action@) == outbound_step(old(self)@, submission(next)),
    {
        if !self.is_running() {
            return OutboundAction::Stop;
        }
        let event = match next {
            Some(command) => OutboundEvent::Command(encode_command(&command)),
            None => OutboundEvent::QueueClosed,
        };
        self.step(event)
    }
}

/// The pump run over a sequence of events: the state it ends in and the
/// actions it asks for, one for each event.
pub open spec fn outbound_run(state: OutboundState, events: Seq<OutboundEventView>) -> (
    OutboundState,
    Seq<OutboundActionView>,
)
    decreases events.len(),
{
    if events.len() == 0 {
        (state, Seq::empty())
    } else {
        let (next, action) = outbound_step(state, events.first());
        let (last, actions) = outbound_run(next, events.drop_first());
        (last, seq![action] + actions)
    }
}

/// The frames that a sequence of actions hands to the transport, in order.
pub open spec fn frames_sent(actions: Seq<OutboundActionView>) -> Seq<Seq<u8>>
    decreases actions.len(),
{
    if actions.len() == 0 {
        Seq::empty()
    } else {
        match actions.first() {
            OutboundActionView::Send(frame) => seq![frame] + frames_sent(actions.drop_first()),
            _ => frames_sent(actions.drop_first()),
        }
    }
}

/// The frames that are due to the transport for a sequence of events: the
/// encodings of the commands, in the order of the commands, up to the first
/// event that ends the pump.
pub open spec fn frames_due(events: Seq<OutboundEventView>) -> Seq<Seq<u8>>
    decreases events.len(),
{
    if events.len() == 0 {
        Seq::empty()
    } else {
        match events.first() {
            OutboundEventView::Command(Some(frame)) => seq![frame] + frames_due(
                events.drop_first(),
            ),
            OutboundEventView::Written => frames_due(events.drop_first()),
            _ => Seq::empty(),
        }
    }
}

/// The events of a queue that gives the commands in this order, each frame
/// being written before the next command is taken.
pub open spec fn submissions(commands: Seq<ClientMessage>) -> Seq<OutboundEventView>
    decreases commands.len(),
{
    if commands.len() == 0 {
        Seq::empty()
    } else {
        seq![
            OutboundEventView::Command(command_encoding(commands.first())),
            OutboundEventView::Written,
        ] + submissions(commands.drop_first())
    }
}

/// The encodings of the commands, in the order of the commands.
pub open spec fn encodings(commands: Seq<ClientMessage>) -> Seq<Seq<u8>> {
    Seq::new(commands.len(), |i: int| command_encoding(commands[i]).unwrap())
}

/// A pump that has ended stays as it is and sends nothing, whatever is
/// reported to it.
pub proof fn lemma_stopped_outbound_pump_is_silent(
    exit: OutboundExit,
    events: Seq<OutboundEventView>,
)
    ensures
        outbound_run(OutboundState::Stopped(exit), events).0 == OutboundState::Stopped(exit),
        outbound_run(OutboundState::Stopped(exit), events).1 == Seq::new(
            events.len(),
            |i: int| OutboundActionView::Stop,
        ),
        frames_sent(outbound_run(OutboundState::Stopped(exit), events).1) == Seq::<
            Seq<u8>,
        >::empty(),
    decreases events.len(),
{
    let stopped = OutboundState::Stopped(exit);
    if events.len() > 0 {
        lemma_stopped_outbound_pump_is_silent(exit, events.drop_first());
        let rest = outbound_run(stopped, events.drop_first()).1;
        let all = outbound_run(stopped, events).1;
        assert(all.drop_first() == rest);
    }
}

/// A closed queue ends the pump: whatever state it is in, it is stopped
/// afterwards, asks to leave the loop, and sends nothing more.
pub proof fn lemma_closed_queue_ends_the_pump(
    state: OutboundState,
    later: Seq<OutboundEventView>,
)
    ensures
        outbound_step(state, OutboundEventView::QueueClosed).0 is Stopped,
        state == OutboundState::Running ==> outbound_step(state, OutboundEventView::QueueClosed).0
            == OutboundState::Stopped(OutboundExit::QueueClosed),
        outbound_step(state, OutboundEventView::QueueClosed).1 == OutboundActionView::Stop,
        outbound_run(outbound_step(state, OutboundEventView::QueueClosed).0, later).0
            == outbound_step(state, OutboundEventView::QueueClosed).0,
        frames_sent(outbound_run(outbound_step(state, OutboundEventView::QueueClosed).0, later).1)
            == Seq::<Seq<u8>>::empty(),
{
    match outbound_step(state, OutboundEventView::QueueClosed).0 {
        OutboundState::Stopped(exit) => {
            lemma_stopped_outbound_pump_is_silent(exit, later);
        },
        OutboundState::Running => {},
    }
}

/// The transport is handed exactly the frames that are due: the encodings of
/// the commands taken from the queue, each once, in the order in which they
/// were taken, and none after the pump has ended.
pub proof fn lemma_frames_follow_commands(events: Seq<OutboundEventView>)
    ensures
        frames_sent(outbound_run(OutboundState::Running, events).1) == frames_due(events),
    decreases events.len(),
{
    if events.len() > 0 {
        let (next, action) = outbound_step(OutboundState::Running, events.first());
        let rest = outbound_run(next, events.drop_first()).1;
        let all = outbound_run(OutboundState::Running, events).1;
        assert(all.drop_first() == rest);
        match next {
            OutboundState::Running => {
                lemma_frames_follow_commands(events.drop_first());
            },
            OutboundState::Stopped(exit) => {
                lemma_stopped_outbound_pump_is_silent(exit, events.drop_first());
            },
        }
    }
}

/// Commands reach the transport first in, first out: where every command has
/// an encoding and every write succeeds, the frames handed to the transport
/// are the encodings of the commands in the order of their submission, and the
/// pump is still running.
pub proof fn lemma_commands_are_sent_in_order(commands: Seq<ClientMessage>)
    requires
        forall|i: int| 0 <= i < commands.len() ==> command_encoding(#[trigger] commands[i]) is Some,
    ensures
        outbound_run(OutboundState::Running, submissions(commands)).0 == OutboundState::Running,
        frames_sent(outbound_run(OutboundState::Running, submissions(commands)).1) == encodings(
            commands,
        ),
    decreases commands.len(),
{
    if commands.len() > 0 {
        let tail = commands.drop_first();
        lemma_commands_are_sent_in_order(tail);
        let frame = command_encoding(commands.first()).unwrap();
        let events = submissions(commands);
        assert(events.drop_first().drop_first() == submissions(tail));
        let after = outbound_run(OutboundState::Running, submissions(tail));
        let second = outbound_run(OutboundState::Running, events.drop_first());
        assert(second.1.drop_first() == after.1);
        let all = outbound_run(OutboundState::Running, events);
        assert(all.1.drop_first() == second.1);
        assert(frames_sent(all.1) == seq![frame] + frames_sent(second.1));
    }
}

} // verus!
