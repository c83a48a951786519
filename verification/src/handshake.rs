//! Version negotiation.
//!
//! After the channel exchange, the initiator sends a `VersionProbe` carrying
//! its compiled-in protocol version, and the responder answers with exactly
//! one `VersionValidated` — sent even on mismatch, so the initiator can fail
//! cleanly.  The two sides are compatible exactly when their version
//! constants are bit-equal.

use crate::message::FeltMessage;
use crate::FELT_IPC_VERSION;
use vstd::prelude::*;

verus! {

/// Whether the first message the responder received after the channel
/// exchange is a probe carrying the responder's own version.  `None` stands
/// for a receive failure; any message other than a probe is a mismatch as
/// well.
pub open spec fn spec_versions_match(local_version: u32, probe: Option<FeltMessage>) -> bool {
    probe == Option::Some(FeltMessage::VersionProbe(local_version))
}

/// The reply the responder sends back for a received probe (or receive
/// failure): `VersionValidated(b)` with `b` as [`spec_versions_match`] says.
pub open spec fn spec_responder_reply(local_version: u32, probe: Option<FeltMessage>) -> FeltMessage {
    FeltMessage::VersionValidated(spec_versions_match(local_version, probe))
}

/// Whether the initiator treats the reply to its probe as an accepted
/// handshake: only a received `VersionValidated(true)` counts.  A rejection,
/// any other message, and a receive failure (`None`) all count as refused.
pub open spec fn spec_initiator_accepts(reply: Option<FeltMessage>) -> bool {
    reply == Option::Some(FeltMessage::VersionValidated(true))
}

/// The responder's handshake decision against an arbitrary local version:
/// the reply to send back, and whether the session is to be kept.
pub fn responder_validate_with(local_version: u32, probe: Option<FeltMessage>) -> (r: (
    FeltMessage,
    bool,
))
    ensures
        r.0 == spec_responder_reply(local_version, probe),
        r.1 == spec_versions_match(local_version, probe),
{
    let versions_match = match &probe {
        Option::Some(FeltMessage::VersionProbe(v)) => *v == local_version,
        _ => false,
    };
    (FeltMessage::VersionValidated(versions_match), versions_match)
}

/// The responder's handshake decision against this build's
/// [`FELT_IPC_VERSION`].
pub fn responder_validate(probe: Option<FeltMessage>) -> (r: (FeltMessage, bool))
    ensures
        r.0 == spec_responder_reply(FELT_IPC_VERSION, probe),
        r.1 == spec_versions_match(FELT_IPC_VERSION, probe),
{
    responder_validate_with(FELT_IPC_VERSION, probe)
}

/// The probe message the initiator sends for this build.
pub fn probe_message() -> (r: FeltMessage)
    ensures
        r == FeltMessage::VersionProbe(FELT_IPC_VERSION),
{
    FeltMessage::VersionProbe(FELT_IPC_VERSION)
}

/// The initiator's decision on the reply to its probe.
pub fn initiator_accepts(reply: Option<FeltMessage>) -> (r: bool)
    ensures
        r == spec_initiator_accepts(reply),
{
    match &reply {
        Option::Some(FeltMessage::VersionValidated(true)) => true,
        _ => false,
    }
}

/// For every pair of compiled-in versions, the handshake agrees on both
/// sides and succeeds exactly when the two constants are equal: the
/// responder validates the probe iff they match, and the initiator accepts
/// the responder's reply iff they match.
pub proof fn lemma_handshake_agreement(initiator_version: u32, responder_version: u32)
    ensures
        spec_versions_match(
            responder_version,
            Option::Some(FeltMessage::VersionProbe(initiator_version)),
        ) <==> initiator_version == responder_version,
        spec_initiator_accepts(
            Option::Some(
                spec_responder_reply(
                    responder_version,
                    Option::Some(FeltMessage::VersionProbe(initiator_version)),
                ),
            ),
        ) <==> initiator_version == responder_version,
{
}

} // verus!
