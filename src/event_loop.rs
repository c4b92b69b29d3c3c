//! The lifetime of the connection as a state machine. The caller performs
//! each action (connect, send, receive) and reports what came of it as the
//! next event; every decision is taken here.
use crate::frame::{text_of, Frame};
use crate::util::{frame_asks_toggle, frame_toggles};
use vstd::prelude::*;

verus! {

/// The window manager's event endpoint.
pub const URI: &'static str = "ws://localhost:6123";

/// The frame that subscribes to window-managed notifications.
pub const SUBSCRIBE_COMMAND: &'static str = "sub -e window_managed";

/// The frame that flips the tiling direction.
pub const TOGGLE_COMMAND: &'static str = "command toggle-tiling-direction";

#[derive(Clone, Copy, Debug, PartialEq, Eq, Structural)]
pub enum Phase {
    Connecting,
    Subscribing,
    Listening,
    Terminated,
}

/// What came of the last action.
#[derive(Clone, Copy, Debug, PartialEq, Eq, Structural)]
pub enum Event {
    Connected,
    ConnectFailed,
    Subscribed,
    SubscribeFailed,
    /// A frame arrived; whether it asks for a toggle.
    Notification(bool),
    /// The peer closed the stream.
    StreamEnded,
    ReadFailed,
    Toggled,
    ToggleFailed,
}

/// What the caller does next.
#[derive(Clone, Copy, Debug, PartialEq, Eq, Structural)]
pub enum Action {
    /// Open the connection to `URI`.
    Connect,
    /// Send `SUBSCRIBE_COMMAND`.
    Subscribe,
    /// Wait for the next frame.
    Receive,
    /// Send `TOGGLE_COMMAND`.
    Toggle,
    /// Report the disconnection and end, successfully or not.
    Disconnect { success: bool },
    /// Nothing more: the loop has ended.
    Stop,
}

/// Whether an action writes to the connection.
pub open spec fn sends(a: Action) -> bool {
    a is Subscribe || a is Toggle
}

/// The action a phase waits on.
pub open spec fn pending(p: Phase) -> Action {
    match p {
        Phase::Connecting => Action::Connect,
        Phase::Subscribing => Action::Subscribe,
        Phase::Listening => Action::Receive,
        Phase::Terminated => Action::Stop,
    }
}

/// The next phase and action. An event that does not belong to the phase
/// leaves it as it is, waiting on the same action.
pub open spec fn transition(p: Phase, e: Event) -> (Phase, Action) {
    match (p, e) {
        (Phase::Connecting, Event::Connected) => (Phase::Subscribing, Action::Subscribe),
        (Phase::Connecting, Event::ConnectFailed) => (
            Phase::Terminated,
            Action::Disconnect { success: false },
        ),
        (Phase::Subscribing, Event::Subscribed) => (Phase::Listening, Action::Receive),
        (Phase::Subscribing, Event::SubscribeFailed) => (
            Phase::Terminated,
            Action::Disconnect { success: false },
        ),
        (Phase::Listening, Event::Notification(toggle)) => (
            Phase::Listening,
            if toggle {
                Action::Toggle
            } else {
                Action::Receive
            },
        ),
        (Phase::Listening, Event::Toggled) => (Phase::Listening, Action::Receive),
        (Phase::Listening, Event::StreamEnded) => (
            Phase::Terminated,
            Action::Disconnect { success: true },
        ),
        (Phase::Listening, Event::ReadFailed) => (
            Phase::Terminated,
            Action::Disconnect { success: true },
        ),
        (Phase::Listening, Event::ToggleFailed) => (
            Phase::Terminated,
            Action::Disconnect { success: true },
        ),
        _ => (p, pending(p)),
    }
}

/// The first phase and action.
pub fn start() -> (r: (Phase, Action))
    ensures
        r == (Phase::Connecting, Action::Connect),
{
    (Phase::Connecting, Action::Connect)
}

/// Advances the machine by one event.
pub fn step(phase: Phase, event: Event) -> (r: (Phase, Action))
    ensures
        r == transition(phase, event),
{
    match (phase, event) {
        (Phase::Connecting, Event::Connected) => (Phase::Subscribing, Action::Subscribe),
        (Phase::Connecting, Event::ConnectFailed) => (
            Phase::Terminated,
            Action::Disconnect { success: false },
        ),
        (Phase::Subscribing, Event::Subscribed) => (Phase::Listening, Action::Receive),
        (Phase::Subscribing, Event::SubscribeFailed) => (
            Phase::Terminated,
            Action::Disconnect { success: false },
        ),
        (Phase::Listening, Event::Notification(toggle)) => {
            if toggle {
                (Phase::Listening, Action::Toggle)
            } else {
                (Phase::Listening, Action::Receive)
            }
        },
        (Phase::Listening, Event::Toggled) => (Phase::Listening, Action::Receive),
        (Phase::Listening, Event::StreamEnded)
        | (Phase::Listening, Event::ReadFailed)
        | (Phase::Listening, Event::ToggleFailed) => (
            Phase::Terminated,
            Action::Disconnect { success: true },
        ),
        _ => (phase, pending_action(phase)),
    }
}

fn pending_action(phase: Phase) -> (r: Action)
    ensures
        r == pending(phase),
{
    match phase {
        Phase::Connecting => Action::Connect,
        Phase::Subscribing => Action::Subscribe,
        Phase::Listening => Action::Receive,
        Phase::Terminated => Action::Stop,
    }
}

/// Advances the machine by one received frame: it is classified and
/// evaluated, and a frame that is not a text frame asks for nothing.
pub fn on_frame(phase: Phase, frame: Frame) -> (r: (Phase, Action))
    ensures
        r == transition(phase, Event::Notification(frame_asks_toggle(frame))),
        text_of(frame) is None && phase == Phase::Listening ==> r == (
            Phase::Listening,
            Action::Receive,
        ),
{
    let toggle = frame_toggles(frame);
    step(phase, Event::Notification(toggle))
}

/// While listening, a notification that asks for nothing makes no send:
/// the loop only waits for the next frame.
pub proof fn lemma_quiet_notification_sends_nothing()
    ensures
        transition(Phase::Listening, Event::Notification(false)) == (
            Phase::Listening,
            Action::Receive,
        ),
        !sends(transition(Phase::Listening, Event::Notification(false)).1),
{
}

/// Once terminated the machine stays so: it sends nothing and reports no
/// second disconnection, whatever happens.
pub proof fn lemma_terminated_is_final(e: Event)
    ensures
        transition(Phase::Terminated, e) == (Phase::Terminated, Action::Stop),
{
}

/// Listening keeps no memory of earlier frames: the answer to a frame depends
/// on that frame alone, and is the same whether or not the frame before it
/// led to a toggle, so two qualifying frames in a row give two toggles.
pub proof fn lemma_frames_are_independent(frame: Frame)
    ensures
        transition(Phase::Listening, Event::Notification(frame_asks_toggle(frame))) == (
            Phase::Listening,
            if frame_asks_toggle(frame) {
                Action::Toggle
            } else {
                Action::Receive
            },
        ),
        transition(Phase::Listening, Event::Toggled) == (Phase::Listening, Action::Receive),
{
}

} // verus!
