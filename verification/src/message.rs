//! The closed set of message variants exchanged over the bridge.

use crate::cookie_record::CookieRecord;
use crate::tokens::TokenState;
use vstd::prelude::*;

verus! {

/// Protocol version compiled into each endpoint.  Two endpoints may only
/// establish a session when their constants are bit-equal; a mismatch is a
/// hard rejection, with no cross-version compatibility attempted.  The
/// constant must be bumped whenever the shape of [`FeltMessage`] changes.
pub const FELT_IPC_VERSION: u32 = 2;

/// One wire message.  Exactly one variant travels per message.
///
/// `ClientChannel` stands for the handshake message that transfers the
/// responder's fresh sender endpoint to the initiator; the endpoint itself is
/// a transport handle that only the unverified transport layer can hold, so
/// the variant carries no payload here.  It is sent exactly once, during the
/// handshake.
#[derive(Clone, Debug, PartialEq)]
pub enum FeltMessage {
    VersionProbe(u32),
    VersionValidated(bool),
    ClientChannel,
    Cookie(CookieRecord),
    BoolPreference(String, bool),
    StringPreference(String, String),
    IntPreference(String, i32),
    StartupReady,
    Tokens(TokenState),
    ExtensionReady,
    OpenURL(String),
    RestartForced,
    Restarting,
    LogoutShutdown,
}

/// What one poll of a receive loop's inbound endpoint yielded.
#[derive(Clone, Debug, PartialEq)]
pub enum PollEvent {
    /// A message arrived.
    Message(FeltMessage),
    /// The poll timed out with nothing to read; a no-op iteration.
    Empty,
    /// A transient receive error; logged by the caller, the loop continues.
    TransientError,
    /// The peer closed its end; the loop must terminate.
    Disconnected,
}

/// A topic broadcast to host observers.
#[derive(Clone, Copy, Debug, PartialEq, Eq, Structural)]
pub enum BroadcastTopic {
    /// The peer announced it is restarting.
    PeerRestarting,
    /// The peer's extension finished loading.
    PeerReady,
    /// The peer is shutting down for a logout.
    PeerLoggedOut,
    /// The peer forced a restart of this side.
    RestartForced,
}

/// The observer-service topic string for each broadcast topic.
pub open spec fn spec_topic_name(t: BroadcastTopic) -> Seq<char> {
    match t {
        BroadcastTopic::PeerRestarting => "felt-firefox-restarting"@,
        BroadcastTopic::PeerReady => "felt-extension-ready"@,
        BroadcastTopic::PeerLoggedOut => "felt-firefox-logout"@,
        BroadcastTopic::RestartForced => "felt-restart-forced"@,
    }
}

/// Renders a broadcast topic as the observer-service topic string.
pub fn topic_name(t: BroadcastTopic) -> (r: String)
    ensures
        r@ == spec_topic_name(t),
{
    match t {
        BroadcastTopic::PeerRestarting => String::from_str("felt-firefox-restarting"),
        BroadcastTopic::PeerReady => String::from_str("felt-extension-ready"),
        BroadcastTopic::PeerLoggedOut => String::from_str("felt-firefox-logout"),
        BroadcastTopic::RestartForced => String::from_str("felt-restart-forced"),
    }
}

} // verus!
