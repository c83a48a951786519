//! The responder's receive loop, as a per-iteration decision function.
//!
//! The responder's worker polls its inbound endpoint with a bounded timeout
//! and converts incoming lifecycle notifications into host-visible
//! broadcasts.  Every other message variant is unexpected there and ignored
//! (logged by the caller); a transient receive error keeps the loop going;
//! a disconnect, or the externally set stop flag, terminates it.

use crate::message::{BroadcastTopic, FeltMessage, PollEvent};
use vstd::prelude::*;

verus! {

/// The broadcast one polled event causes on the responder side.
pub open spec fn spec_responder_broadcast(event: PollEvent) -> Option<BroadcastTopic> {
    match event {
        PollEvent::Message(FeltMessage::Restarting) => Option::Some(BroadcastTopic::PeerRestarting),
        PollEvent::Message(FeltMessage::ExtensionReady) => Option::Some(BroadcastTopic::PeerReady),
        PollEvent::Message(FeltMessage::LogoutShutdown) => Option::Some(
            BroadcastTopic::PeerLoggedOut,
        ),
        _ => Option::None,
    }
}

/// One iteration of the responder's receive loop: the broadcast to emit (if
/// any) and whether to exit the loop.  `stop_signal` is the externally set
/// stop flag as sampled this iteration.
pub fn responder_step(stop_signal: bool, event: PollEvent) -> (r: (Option<BroadcastTopic>, bool))
    ensures
        r.0 == spec_responder_broadcast(event),
        r.1 == (stop_signal || (event is Disconnected)),
{
    let broadcast_topic = match &event {
        PollEvent::Message(FeltMessage::Restarting) => Option::Some(
            BroadcastTopic::PeerRestarting,
        ),
        PollEvent::Message(FeltMessage::ExtensionReady) => Option::Some(BroadcastTopic::PeerReady),
        PollEvent::Message(FeltMessage::LogoutShutdown) => Option::Some(
            BroadcastTopic::PeerLoggedOut,
        ),
        _ => Option::None,
    };
    let disconnected = match &event {
        PollEvent::Disconnected => true,
        _ => false,
    };
    (broadcast_topic, stop_signal || disconnected)
}

} // verus!
