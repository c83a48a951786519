//! The initiator-side session: connection outcome, version handshake, and
//! the fire-and-forget notification sends.
//!
//! The transport endpoints themselves live outside this crate; a
//! [`SessionLink`] records whether each direction came up usable, and every
//! decision that the session takes is a function of that record and of the
//! messages received.

use crate::handshake::spec_initiator_accepts;
use crate::message::FeltMessage;
use vstd::prelude::*;

verus! {

/// Usability of the two directions of a session's duplex channel, as
/// determined once by the connection exchange.  A session whose endpoints
/// did not come up is not an error by itself: it is an unusable session
/// whose operations all degrade to no-ops or failures.
#[derive(Clone, Copy, Debug, PartialEq, Eq, Structural)]
pub struct SessionLink {
    pub tx_usable: bool,
    pub rx_usable: bool,
}

impl SessionLink {
    /// The initiator's decision on the connection exchange: after connecting
    /// to the rendezvous point and sending its own sender end, the initiator
    /// blocks for the peer's reply.  Only a received `ClientChannel` (which
    /// transfers the peer's fresh sender endpoint) yields usable endpoints;
    /// a connect failure or receive failure (`None`) and any other first
    /// message leave the session unusable.
    pub fn from_first_reply(first_reply: Option<FeltMessage>) -> (r: SessionLink)
        ensures
            r.tx_usable == (first_reply == Option::Some(FeltMessage::ClientChannel)),
            r.rx_usable == (first_reply == Option::Some(FeltMessage::ClientChannel)),
    {
        let usable = match &first_reply {
            Option::Some(FeltMessage::ClientChannel) => true,
            _ => false,
        };
        SessionLink { tx_usable: usable, rx_usable: usable }
    }

    /// A link with no usable endpoint.
    pub fn unusable() -> (r: SessionLink)
        ensures
            !r.tx_usable,
            !r.rx_usable,
    {
        SessionLink { tx_usable: false, rx_usable: false }
    }

    /// A link with both endpoints usable.
    pub fn usable() -> (r: SessionLink)
        ensures
            r.tx_usable,
            r.rx_usable,
    {
        SessionLink { tx_usable: true, rx_usable: true }
    }

    /// The fire-and-forget send decision: the message to hand to the
    /// transport, or `None` when there is no usable sender, in which case
    /// the call is a no-op.  Send failures on the transport side are logged
    /// there and never escalated.
    pub fn outbound_message(&self, msg: FeltMessage) -> (r: Option<FeltMessage>)
        ensures
            self.tx_usable ==> r == Option::Some(msg),
            !self.tx_usable ==> r is None,
    {
        if self.tx_usable {
            Option::Some(msg)
        } else {
            Option::None
        }
    }

    /// The `Restarting` notification send, gated on sender usability.
    pub fn restart_message(&self) -> (r: Option<FeltMessage>)
        ensures
            self.tx_usable ==> r == Option::Some(FeltMessage::Restarting),
            !self.tx_usable ==> r is None,
    {
        self.outbound_message(FeltMessage::Restarting)
    }

    /// The `ExtensionReady` notification send, gated on sender usability.
    pub fn extension_ready_message(&self) -> (r: Option<FeltMessage>)
        ensures
            self.tx_usable ==> r == Option::Some(FeltMessage::ExtensionReady),
            !self.tx_usable ==> r is None,
    {
        self.outbound_message(FeltMessage::ExtensionReady)
    }

    /// The `LogoutShutdown` notification send, gated on sender usability.
    pub fn signout_message(&self) -> (r: Option<FeltMessage>)
        ensures
            self.tx_usable ==> r == Option::Some(FeltMessage::LogoutShutdown),
            !self.tx_usable ==> r is None,
    {
        self.outbound_message(FeltMessage::LogoutShutdown)
    }
}

/// Why establishing a session failed.  Failures here are fatal to the
/// session being built, never to the process; the caller must not start a
/// receive loop on a failed session.
#[derive(Clone, Copy, Debug, PartialEq, Eq, Structural)]
pub enum SessionError {
    /// A connect, send or receive failed, or the session had no usable
    /// receiver to begin with.
    Transport,
    /// The peer rejected the probed version.
    ProtocolMismatch,
    /// The peer answered the probe with something other than a validation.
    Handshake,
}

/// An established initiator session: its link and the startup barrier that
/// the peer's `StartupReady` message eventually sets.
#[derive(Clone, Copy, Debug, PartialEq, Eq, Structural)]
pub struct ClientSession {
    pub link: SessionLink,
    pub startup_complete: bool,
}

/// The outcome of building a session over `link` when the reply to the
/// version probe was `version_reply`:
/// - no usable receiver, or no reply at all: `Transport`;
/// - `VersionValidated(true)`: the established session, barrier down;
/// - `VersionValidated(false)`: `ProtocolMismatch`;
/// - any other reply: `Handshake`.
pub open spec fn spec_establish(link: SessionLink, version_reply: Option<FeltMessage>) -> Result<
    ClientSession,
    SessionError,
> {
    if !link.rx_usable {
        Result::Err(SessionError::Transport)
    } else {
        match version_reply {
            Option::None => Result::Err(SessionError::Transport),
            Option::Some(FeltMessage::VersionValidated(true)) => Result::Ok(
                ClientSession { link, startup_complete: false },
            ),
            Option::Some(FeltMessage::VersionValidated(false)) => Result::Err(
                SessionError::ProtocolMismatch,
            ),
            Option::Some(_) => Result::Err(SessionError::Handshake),
        }
    }
}

impl ClientSession {
    /// Builds the session from the connection outcome and the reply to the
    /// version probe, exactly as [`spec_establish`] says.  Construction
    /// fails outright unless the peer validated the probed version.
    pub fn establish(link: SessionLink, version_reply: Option<FeltMessage>) -> (r: Result<
        ClientSession,
        SessionError,
    >)
        ensures
            r == spec_establish(link, version_reply),
    {
        if !link.rx_usable {
            Result::Err(SessionError::Transport)
        } else {
            match version_reply {
                Option::None => Result::Err(SessionError::Transport),
                Option::Some(FeltMessage::VersionValidated(true)) => Result::Ok(
                    ClientSession { link, startup_complete: false },
                ),
                Option::Some(FeltMessage::VersionValidated(false)) => Result::Err(
                    SessionError::ProtocolMismatch,
                ),
                Option::Some(_) => Result::Err(SessionError::Handshake),
            }
        }
    }

    /// The initiator's mandatory version check: true only when the session
    /// has a usable receiver and the reply is `VersionValidated(true)`.
    pub fn report_version(link: &SessionLink, version_reply: Option<FeltMessage>) -> (r: bool)
        ensures
            r == (link.rx_usable && spec_initiator_accepts(version_reply)),
    {
        if !link.rx_usable {
            false
        } else {
            crate::handshake::initiator_accepts(version_reply)
        }
    }

    /// Non-blocking read of the startup barrier.
    pub fn is_startup_complete(&self) -> (r: bool)
        ensures
            r == self.startup_complete,
    {
        self.startup_complete
    }

    /// Raises the startup barrier.  This runs on the host's main execution
    /// context, scheduled there by the receive loop, so that it is ordered
    /// after all preference work queued earlier on that context.
    pub fn mark_startup_complete(&mut self)
        ensures
            final (self).link == old(self).link,
            final (self).startup_complete,
    {
        self.startup_complete = true;
    }

    /// The `ExtensionReady` notification send for this session.
    pub fn extension_ready_message(&self) -> (r: Option<FeltMessage>)
        ensures
            self.link.tx_usable ==> r == Option::Some(FeltMessage::ExtensionReady),
            !self.link.tx_usable ==> r is None,
    {
        self.link.extension_ready_message()
    }

    /// The `LogoutShutdown` notification send for this session.
    pub fn signout_message(&self) -> (r: Option<FeltMessage>)
        ensures
            self.link.tx_usable ==> r == Option::Some(FeltMessage::LogoutShutdown),
            !self.link.tx_usable ==> r is None,
    {
        self.link.signout_message()
    }

    /// The `Restarting` notification send for this session.
    pub fn restart_message(&self) -> (r: Option<FeltMessage>)
        ensures
            self.link.tx_usable ==> r == Option::Some(FeltMessage::Restarting),
            !self.link.tx_usable ==> r is None,
    {
        self.link.restart_message()
    }
}

/// An established session always comes out of a validated handshake:
/// [`spec_establish`] yields a session exactly when the link has a usable
/// receiver and the reply is `VersionValidated(true)`, and the session it
/// yields carries that link with the barrier down.
pub proof fn lemma_establish_iff_validated(link: SessionLink, version_reply: Option<FeltMessage>)
    ensures
        spec_establish(link, version_reply) is Ok <==> (link.rx_usable && spec_initiator_accepts(
            version_reply,
        )),
        spec_establish(link, version_reply) is Ok ==> spec_establish(link, version_reply)
            == Result::<ClientSession, SessionError>::Ok(
            ClientSession { link, startup_complete: false },
        ),
{
}

/// On a version mismatch the responder's reply makes [`spec_establish`]
/// fail with `ProtocolMismatch`, whatever the link: the session is never
/// built, so it can never be installed.
pub proof fn lemma_mismatch_never_establishes(
    link: SessionLink,
    initiator_version: u32,
    responder_version: u32,
)
    requires
        initiator_version != responder_version,
    ensures
        spec_establish(
            link,
            Option::Some(
                crate::handshake::spec_responder_reply(
                    responder_version,
                    Option::Some(FeltMessage::VersionProbe(initiator_version)),
                ),
            ),
        ) is Err,
{
}

} // verus!
