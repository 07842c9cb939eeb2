//! Connection supervision, per device, as an explicit state machine.
//!
//! The session of one device walks
//! `Resolving -> Connecting -> DiscoveringService -> Subscribing ->
//! Streaming -> Terminated`.  The step function here makes every
//! decision; the radio work each action names (resolving, connecting,
//! enumerating characteristics, subscribing, awaiting a notification) is
//! performed outside the core, which hands the outcome back as the next
//! event.

use vstd::prelude::*;
use crate::errors::BleError;

verus! {

/// Where a device's session stands.
#[derive(Clone, Copy, Debug, PartialEq, Eq, Structural)]
pub enum SessionState {
    /// Looking the device up: registry cache first, targeted discovery
    /// on a miss.
    Resolving,
    /// Establishing the radio-level connection (with the fixed settle
    /// delay afterwards).
    Connecting,
    /// Enumerating services and characteristics for a notify channel.
    DiscoveringService,
    /// Opening the notification stream.
    Subscribing,
    /// Consuming the notification stream sample by sample.
    Streaming,
    /// The session is over; terminal cleanup has been ordered.
    Terminated,
}

/// What the radio layer reports back to the supervisor.
#[derive(Clone, Copy, Debug, PartialEq, Eq, Structural)]
pub enum SessionEvent {
    /// The device was found (cache or discovery).
    Resolved,
    /// Neither the cache nor a timed-out discovery produced the device.
    ResolveFailed,
    /// The radio-level connection stands.
    Connected,
    /// The connection attempt failed.
    ConnectionFailed,
    /// A characteristic with notification support was found.
    NotifyCharacteristicFound,
    /// No characteristic supports notifications.
    NoNotifyCharacteristic,
    /// The notification stream is open.
    Subscribed,
    /// Opening the notification stream failed.
    SubscriptionFailed,
    /// One notification payload arrived.
    FrameReceived,
    /// The notification stream closed.
    StreamClosed,
    /// The notification stream reported an error.
    StreamFailed,
    /// An external disconnect aborted the session.
    Cancelled,
}

/// What the supervisor asks the radio layer to do next.
#[derive(Clone, Copy, Debug, PartialEq, Eq, Structural)]
pub enum SessionAction {
    /// Resolve the device: registry cache, then targeted discovery.
    Resolve,
    /// Acquire the shared radio handle, connect, let the transport
    /// settle.
    Connect,
    /// Enumerate services and characteristics, pick the notify channel.
    DiscoverService,
    /// Open the notification stream.
    Subscribe,
    /// Await the next notification payload.
    AwaitFrame,
    /// Run terminal cleanup: unregister from the connected-set, detach
    /// the task token, keep the cached handle.  Carries the error that
    /// ended the session, or nothing for a deliberate cancellation.
    Cleanup(Option<BleError>),
    /// Nothing to do (the session is already over, or the event does
    /// not belong to the current state).
    Idle,
}

/// The transition table of a session.  A cancellation terminates any
/// state; a failure terminates with its error; an event that does not
/// belong to the current state changes nothing.
pub open spec fn session_step(s: SessionState, e: SessionEvent) -> (SessionState, SessionAction) {
    match (s, e) {
        (_, SessionEvent::Cancelled) => (SessionState::Terminated, SessionAction::Cleanup(None)),
        (SessionState::Resolving, SessionEvent::Resolved) => (
            SessionState::Connecting,
            SessionAction::Connect,
        ),
        (SessionState::Resolving, SessionEvent::ResolveFailed) => (
            SessionState::Terminated,
            SessionAction::Cleanup(Some(BleError::DeviceNotFound)),
        ),
        (SessionState::Connecting, SessionEvent::Connected) => (
            SessionState::DiscoveringService,
            SessionAction::DiscoverService,
        ),
        (SessionState::Connecting, SessionEvent::ConnectionFailed) => (
            SessionState::Terminated,
            SessionAction::Cleanup(Some(BleError::ConnectFailed)),
        ),
        (SessionState::DiscoveringService, SessionEvent::NotifyCharacteristicFound) => (
            SessionState::Subscribing,
            SessionAction::Subscribe,
        ),
        (SessionState::DiscoveringService, SessionEvent::NoNotifyCharacteristic) => (
            SessionState::Terminated,
            SessionAction::Cleanup(Some(BleError::NoNotifyChannel)),
        ),
        (SessionState::Subscribing, SessionEvent::Subscribed) => (
            SessionState::Streaming,
            SessionAction::AwaitFrame,
        ),
        (SessionState::Subscribing, SessionEvent::SubscriptionFailed) => (
            SessionState::Terminated,
            SessionAction::Cleanup(Some(BleError::SubscribeFailed)),
        ),
        (SessionState::Streaming, SessionEvent::FrameReceived) => (
            SessionState::Streaming,
            SessionAction::AwaitFrame,
        ),
        (SessionState::Streaming, SessionEvent::StreamClosed) => (
            SessionState::Terminated,
            SessionAction::Cleanup(Some(BleError::StreamEnded)),
        ),
        (SessionState::Streaming, SessionEvent::StreamFailed) => (
            SessionState::Terminated,
            SessionAction::Cleanup(Some(BleError::StreamError)),
        ),
        (_, _) => (s, SessionAction::Idle),
    }
}

/// The state a session starts in, and the action that starts it.
pub fn session_start() -> (r: (SessionState, SessionAction))
    ensures
        r == (SessionState::Resolving, SessionAction::Resolve),
{
    (SessionState::Resolving, SessionAction::Resolve)
}

/// Advances a session by one event, returning the next state and the
/// action to perform.
pub fn advance_session(state: SessionState, event: SessionEvent) -> (r: (
    SessionState,
    SessionAction,
))
    ensures
        r == session_step(state, event),
{
    match (state, event) {
        (_, SessionEvent::Cancelled) => (SessionState::Terminated, SessionAction::Cleanup(None)),
        (SessionState::Resolving, SessionEvent::Resolved) => (
            SessionState::Connecting,
            SessionAction::Connect,
        ),
        (SessionState::Resolving, SessionEvent::ResolveFailed) => (
            SessionState::Terminated,
            SessionAction::Cleanup(Some(BleError::DeviceNotFound)),
        ),
        (SessionState::Connecting, SessionEvent::Connected) => (
            SessionState::DiscoveringService,
            SessionAction::DiscoverService,
        ),
        (SessionState::Connecting, SessionEvent::ConnectionFailed) => (
            SessionState::Terminated,
            SessionAction::Cleanup(Some(BleError::ConnectFailed)),
        ),
        (SessionState::DiscoveringService, SessionEvent::NotifyCharacteristicFound) => (
            SessionState::Subscribing,
            SessionAction::Subscribe,
        ),
        (SessionState::DiscoveringService, SessionEvent::NoNotifyCharacteristic) => (
            SessionState::Terminated,
            SessionAction::Cleanup(Some(BleError::NoNotifyChannel)),
        ),
        (SessionState::Subscribing, SessionEvent::Subscribed) => (
            SessionState::Streaming,
            SessionAction::AwaitFrame,
        ),
        (SessionState::Subscribing, SessionEvent::SubscriptionFailed) => (
            SessionState::Terminated,
            SessionAction::Cleanup(Some(BleError::SubscribeFailed)),
        ),
        (SessionState::Streaming, SessionEvent::FrameReceived) => (
            SessionState::Streaming,
            SessionAction::AwaitFrame,
        ),
        (SessionState::Streaming, SessionEvent::StreamClosed) => (
            SessionState::Terminated,
            SessionAction::Cleanup(Some(BleError::StreamEnded)),
        ),
        (SessionState::Streaming, SessionEvent::StreamFailed) => (
            SessionState::Terminated,
            SessionAction::Cleanup(Some(BleError::StreamError)),
        ),
        (_, _) => (state, SessionAction::Idle),
    }
}

/// Terminal cleanup runs on every exit path: whenever a step orders a
/// cleanup, the session is terminated, and a terminated session is never
/// left — it only ever idles.
pub proof fn lemma_cleanup_exactly_at_termination(s: SessionState, e: SessionEvent)
    ensures
        (session_step(s, e).1 matches SessionAction::Cleanup(_)) ==> session_step(s, e).0
            == SessionState::Terminated,
        s == SessionState::Terminated ==> session_step(s, e).0 == SessionState::Terminated,
        s == SessionState::Terminated && e != SessionEvent::Cancelled ==> session_step(s, e).1
            == SessionAction::Idle,
{
}

/// Picks the notification channel: the index of the first
/// characteristic whose properties include notification support.
pub fn select_notify_characteristic(notify_flags: &Vec<bool>) -> (r: Option<usize>)
    ensures
        match r {
            Some(i) => i < notify_flags@.len() && notify_flags@[i as int] && forall|j: int|
                0 <= j < i ==> !notify_flags@[j],
            None => forall|j: int| 0 <= j < notify_flags@.len() ==> !notify_flags@[j],
        },
{
    let mut i: usize = 0;
    while i < notify_flags.len()
        invariant
            i <= notify_flags@.len(),
            forall|j: int| 0 <= j < i ==> !notify_flags@[j],
        decreases notify_flags@.len() - i,
    {
        if notify_flags[i] {
            return Some(i);
        }
        i += 1;
    }
    None
}

} // verus!
