//! The delivery loop's decisions as a state machine.  The loop itself
//! performs the awaiting, the socket writes and the sleeps; every decision
//! about what to do next on an observed outcome is taken here, as a total
//! function from state and event to next state and action.

use vstd::prelude::*;

verus! {

/// Which of the two channels is being re-established.
#[derive(Debug, Copy, Clone, PartialEq, Eq, Structural)]
pub enum ChannelKind {
    /// The subscribe stream from the pub/sub broker.
    Subscribe,
    /// The output stream towards the collector.
    Stream,
}

/// The delivery loop's state.
#[derive(Debug, Copy, Clone, PartialEq, Eq, Structural)]
pub enum DeliveryState {
    /// Both channels up; inbound messages are processed and forwarded.
    Connected,
    /// One channel lost; it is being re-established.
    Reconnecting(ChannelKind),
}

/// What the loop observes between two decisions.
#[derive(Debug, Copy, Clone, PartialEq, Eq, Structural)]
pub enum DeliveryEvent {
    /// An inbound message arrived; processing it may fail per event, which
    /// leaves the state untouched.
    MessageArrived,
    /// A frame was written to the output stream.
    WriteSucceeded,
    /// A write to the output stream failed; the frame is dropped.
    WriteFailed,
    /// The subscribe stream signalled a disconnect.
    SubscribeLost,
    /// The channel being re-established came up.
    ReconnectSucceeded,
    /// The attempt to re-establish the channel failed.
    ReconnectFailed,
}

/// What the loop does next.
#[derive(Debug, Copy, Clone, PartialEq, Eq, Structural)]
pub enum DeliveryAction {
    /// Parse the message, encode every packet it yields, write each frame.
    ProcessMessage,
    /// Open a new output-stream connection and re-apply the write timeout.
    ReopenStream,
    /// Try to reconnect the subscribe channel now.
    RetrySubscribe,
    /// Sleep the fixed backoff, then try the subscribe channel again.
    SleepThenRetrySubscribe,
    /// Sleep the fixed backoff, then try the output stream again.
    SleepThenReopenStream,
    /// Keep waiting for the next event.
    Idle,
}

/// The complete decision table of the delivery loop.
pub open spec fn spec_next(s: DeliveryState, e: DeliveryEvent) -> (DeliveryState, DeliveryAction) {
    match (s, e) {
        (DeliveryState::Connected, DeliveryEvent::MessageArrived) => (
            DeliveryState::Connected,
            DeliveryAction::ProcessMessage,
        ),
        (DeliveryState::Connected, DeliveryEvent::WriteSucceeded) => (
            DeliveryState::Connected,
            DeliveryAction::Idle,
        ),
        (DeliveryState::Connected, DeliveryEvent::WriteFailed) => (
            DeliveryState::Reconnecting(ChannelKind::Stream),
            DeliveryAction::ReopenStream,
        ),
        (DeliveryState::Connected, DeliveryEvent::SubscribeLost) => (
            DeliveryState::Reconnecting(ChannelKind::Subscribe),
            DeliveryAction::RetrySubscribe,
        ),
        (DeliveryState::Reconnecting(_), DeliveryEvent::ReconnectSucceeded) => (
            DeliveryState::Connected,
            DeliveryAction::Idle,
        ),
        (
            DeliveryState::Reconnecting(ChannelKind::Subscribe),
            DeliveryEvent::ReconnectFailed,
        ) => (
            DeliveryState::Reconnecting(ChannelKind::Subscribe),
            DeliveryAction::SleepThenRetrySubscribe,
        ),
        (DeliveryState::Reconnecting(ChannelKind::Stream), DeliveryEvent::ReconnectFailed) => (
            DeliveryState::Reconnecting(ChannelKind::Stream),
            DeliveryAction::SleepThenReopenStream,
        ),
        (s2, _) => (s2, DeliveryAction::Idle),
    }
}

/// One decision step of the delivery loop.  A message, whether its
/// processing succeeds or not, leaves the loop connected; a failed write
/// leads to reopening the output stream; a lost channel of either kind is
/// retried with a fixed backoff, without bound, until it comes up again —
/// no failure after startup is fatal.
pub fn next_step(s: DeliveryState, e: DeliveryEvent) -> (r: (DeliveryState, DeliveryAction))
    ensures
        r == spec_next(s, e),
        s == DeliveryState::Connected && e == DeliveryEvent::MessageArrived ==> r.0
            == DeliveryState::Connected,
{
    match (s, e) {
        (DeliveryState::Connected, DeliveryEvent::MessageArrived) => (
            DeliveryState::Connected,
            DeliveryAction::ProcessMessage,
        ),
        (DeliveryState::Connected, DeliveryEvent::WriteSucceeded) => (
            DeliveryState::Connected,
            DeliveryAction::Idle,
        ),
        (DeliveryState::Connected, DeliveryEvent::WriteFailed) => (
            DeliveryState::Reconnecting(ChannelKind::Stream),
            DeliveryAction::ReopenStream,
        ),
        (DeliveryState::Connected, DeliveryEvent::SubscribeLost) => (
            DeliveryState::Reconnecting(ChannelKind::Subscribe),
            DeliveryAction::RetrySubscribe,
        ),
        (DeliveryState::Reconnecting(_), DeliveryEvent::ReconnectSucceeded) => (
            DeliveryState::Connected,
            DeliveryAction::Idle,
        ),
        (
            DeliveryState::Reconnecting(ChannelKind::Subscribe),
            DeliveryEvent::ReconnectFailed,
        ) => (
            DeliveryState::Reconnecting(ChannelKind::Subscribe),
            DeliveryAction::SleepThenRetrySubscribe,
        ),
        (DeliveryState::Reconnecting(ChannelKind::Stream), DeliveryEvent::ReconnectFailed) => (
            DeliveryState::Reconnecting(ChannelKind::Stream),
            DeliveryAction::SleepThenReopenStream,
        ),
        (s2, _) => (s2, DeliveryAction::Idle),
    }
}

} // verus!
