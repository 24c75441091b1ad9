use vstd::prelude::*;

use crate::model::SignedVc;
use crate::model::SignedVp;
use crate::model::Vp;
use crate::pipeline::Outcome;
use crate::pipeline::Verdicts;
use crate::pipeline::spec_outcome;

verus! {

/// What a holder's loop receives, already told apart by topic: a challenge
/// carrying the verifier's nonce, a success notice, or anything else.
pub enum HolderEvent {
    Challenge(String),
    Success,
    Other,
}

/// What the holder's loop must do next: have the Signer capability sign this
/// presentation and publish it on the holder's response channel, publish the
/// authenticated-activity payload on the application channel, or nothing.
pub enum HolderStep {
    Respond(Vp),
    SendTelemetry,
    Ignore,
}

/// Build the presentation for one authentication attempt: the holder's own
/// DID, exactly the stored credential, and the challenge nonce the signature
/// must commit to. Built fresh for every challenge, never reused.
pub fn build_presentation(holder_did: &String, vc: &SignedVc, nonce: &String) -> (vp: Vp)
    ensures
        vp.holder_did@ == holder_did@,
        vp.credentials@.len() == 1,
        vp.credentials@[0] == *vc,
        vp.nonce@ == nonce@,
{
    let mut credentials: Vec<SignedVc> = Vec::new();
    credentials.push(vc.clone());
    Vp { holder_did: holder_did.clone(), credentials, nonce: nonce.clone() }
}

/// Wrap a presentation with the signature token the Signer capability
/// produced over it.
pub fn attach_presentation_signature(payload: Vp, signature: String) -> (r: SignedVp)
    ensures
        r.payload == payload,
        r.signature == signature,
{
    SignedVp { payload, signature }
}

/// The holder's reactive rule, one inbound event at a time: answer every
/// challenge with a presentation bound to the received nonce and wrapping
/// the stored credential; on success proceed to the authenticated activity;
/// ignore everything else.
pub fn holder_step(did: &String, vc: &SignedVc, ev: &HolderEvent) -> (a: HolderStep)
    ensures
        ev matches HolderEvent::Challenge(nonce) ==> a matches HolderStep::Respond(vp)
            && vp.holder_did@ == did@ && vp.credentials@.len() == 1 && vp.credentials@[0] == *vc
            && vp.nonce@ == nonce@,
        *ev is Success ==> a is SendTelemetry,
        *ev is Other ==> a is Ignore,
{
    match ev {
        HolderEvent::Challenge(nonce) => HolderStep::Respond(build_presentation(did, vc, nonce)),
        HolderEvent::Success => HolderStep::SendTelemetry,
        HolderEvent::Other => HolderStep::Ignore,
    }
}

/// Round trip: a presentation the holder built for the session's current
/// nonce, wrapping at least one credential, delivered before the record's
/// expiry and with every collaborator verdict positive, is accepted. The
/// other half of "exactly once per issued nonce" is
/// `gateway::superseded_nonce_rejected`: once a later nonce is on file, the
/// same presentation is rejected.
pub proof fn round_trip_accepted(
    vp: SignedVp,
    session_nonce: Seq<char>,
    expiry: u64,
    now_s: u64,
    v: Verdicts,
)
    requires
        vp.payload.nonce@ == session_nonce,
        vp.payload.credentials.len() > 0,
        v.holder_resolved,
        v.vp_signature_valid,
        v.issuer_resolved,
        v.vc_signature_valid,
        now_s < expiry,
    ensures
        spec_outcome(vp, session_nonce, expiry, now_s, v) == Outcome::Accepted,
{
}

} // verus!
