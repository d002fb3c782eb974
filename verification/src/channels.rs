//! The two channels of a session, both of `tokio::sync`.
//!
//! The command queue is an unbounded queue with one consumer. The event bus
//! is a broadcast channel with a bounded history. What either holds at a
//! given moment depends on the tasks at its other ends, so of what is sent
//! and received the functions here claim only what holds of every outcome.
//! What does not change is which channel a half belongs to, and that is
//! stated: it is how the wiring of a session can be told.

use tokio::sync::broadcast;
use tokio::sync::mpsc;
use vstd::prelude::*;
use worterbuch_common::{ClientMessage, ServerMessage};

verus! {

/// The sending half of a `tokio` broadcast channel.
#[verifier::external_type_specification]
#[verifier::external_body]
#[verifier::reject_recursive_types(T)]
pub struct ExBroadcastSender<T>(tokio::sync::broadcast::Sender<T>);

/// A receiving half of a `tokio` broadcast channel.
#[verifier::external_type_specification]
#[verifier::external_body]
#[verifier::reject_recursive_types(T)]
pub struct ExBroadcastReceiver<T>(tokio::sync::broadcast::Receiver<T>);

/// A sending half of a `tokio` unbounded queue.
#[verifier::external_type_specification]
#[verifier::external_body]
#[verifier::reject_recursive_types(T)]
pub struct ExUnboundedSender<T>(tokio::sync::mpsc::UnboundedSender<T>);

/// The receiving half of a `tokio` unbounded queue.
#[verifier::external_type_specification]
#[verifier::external_body]
#[verifier::reject_recursive_types(T)]
pub struct ExUnboundedReceiver<T>(tokio::sync::mpsc::UnboundedReceiver<T>);

/// The bus that a sending half of a broadcast channel belongs to, as a
/// number that stands for it. Every half holds the one shared state of its
/// channel for as long as it lives. The functions below say of which halves
/// the bus is the same; nothing says which number it is.
pub uninterp spec fn bus_of_sender(bus: broadcast::Sender<ServerMessage>) -> int;

/// The bus that a receiving half of a broadcast channel belongs to, in the
/// numbers of [`bus_of_sender`].
pub uninterp spec fn bus_of_receiver(receiver: broadcast::Receiver<ServerMessage>) -> int;

/// The history that the bus of a sending half was asked to keep when it was
/// made. The channel may keep more: it rounds this up to a power of two.
pub uninterp spec fn history_asked(bus: broadcast::Sender<ServerMessage>) -> usize;

/// The queue that a sending half of an unbounded queue belongs to, as a
/// number that stands for it. Every half holds the one shared state of its
/// queue for as long as it lives. The functions below say of which halves
/// the queue is the same; nothing says which number it is.
pub uninterp spec fn queue_of_sender(queue: mpsc::UnboundedSender<ClientMessage>) -> int;

/// The queue that the receiving half of an unbounded queue belongs to, in
/// the numbers of [`queue_of_sender`].
pub uninterp spec fn queue_of_receiver(queue: mpsc::UnboundedReceiver<ClientMessage>) -> int;

/// Calls `tokio::sync::broadcast::channel`, which panics on a capacity of
/// zero or above half of `usize::MAX`. It rounds the capacity up to a power
/// of two. The two halves it returns are made of one shared state, so they
/// belong to one bus, and that bus was asked for the given capacity.
#[verifier::external_body]
pub(crate) fn event_channel(capacity: usize) -> (halves: (
    broadcast::Sender<ServerMessage>,
    broadcast::Receiver<ServerMessage>,
))
    requires
        0 < capacity <= usize::MAX / 2,
    ensures
        bus_of_receiver(halves.1) == bus_of_sender(halves.0),
        history_asked(halves.0) == capacity,
{
    broadcast::channel(capacity)
}

/// Calls `tokio::sync::broadcast::Sender::send`. It succeeds exactly when a
/// receiver is subscribed, and then returns how many are; else it returns the
/// message. Whether one is subscribed is not known here, so the contract
/// says only what each outcome implies.
#[verifier::external_body]
pub(crate) fn publish(
    bus: &broadcast::Sender<ServerMessage>,
    message: ServerMessage,
) -> (sent: Result<usize, ServerMessage>)
    ensures
        sent matches Ok(receivers) ==> receivers >= 1,
        sent matches Err(returned) ==> returned == message,
{
    bus.send(message).map_err(|refused| refused.0)
}

/// Calls `tokio::sync::broadcast::Sender::subscribe`. The new receiver is
/// made of the sender's shared state, so it belongs to the sender's bus; it
/// sees what is sent after this call. `tokio` panics here once a quarter of
/// `usize::MAX` receivers are subscribed, more than a process can hold.
#[verifier::external_body]
pub(crate) fn subscription(
    bus: &broadcast::Sender<ServerMessage>,
) -> (receiver: broadcast::Receiver<ServerMessage>)
    ensures
        bus_of_receiver(receiver) == bus_of_sender(*bus),
{
    bus.subscribe()
}

/// Calls `clone` on a `tokio::sync::broadcast::Sender`: one more handle to
/// the same bus, made of the same shared state.
#[verifier::external_body]
pub(crate) fn bus_handle(
    bus: &broadcast::Sender<ServerMessage>,
) -> (handle: broadcast::Sender<ServerMessage>)
    ensures
        bus_of_sender(handle) == bus_of_sender(*bus),
        history_asked(handle) == history_asked(*bus),
{
    bus.clone()
}

/// Calls `tokio::sync::mpsc::unbounded_channel`. The two halves it returns
/// are made of one shared state, so they belong to one queue.
#[verifier::external_body]
pub(crate) fn command_channel() -> (halves: (
    mpsc::UnboundedSender<ClientMessage>,
    mpsc::UnboundedReceiver<ClientMessage>,
))
    ensures
        queue_of_receiver(halves.1) == queue_of_sender(halves.0),
{
    mpsc::unbounded_channel()
}

/// Calls `tokio::sync::mpsc::UnboundedSender::send`. It fails exactly when
/// the receiving half is closed or gone, and then returns the command.
/// Whether it is gone is not known here, so the contract says only what a
/// failure hands back.
#[verifier::external_body]
pub(crate) fn enqueue(
    queue: &mpsc::UnboundedSender<ClientMessage>,
    command: ClientMessage,
) -> (sent: Result<(), ClientMessage>)
    ensures
        sent matches Err(returned) ==> returned == command,
{
    queue.send(command).map_err(|refused| refused.0)
}

/// Calls `clone` on a `tokio::sync::mpsc::UnboundedSender`: one more handle
/// to the same queue, made of the same shared state.
#[verifier::external_body]
pub(crate) fn queue_handle(
    queue: &mpsc::UnboundedSender<ClientMessage>,
) -> (handle: mpsc::UnboundedSender<ClientMessage>)
    ensures
        queue_of_sender(handle) == queue_of_sender(*queue),
{
    queue.clone()
}

} // verus!
