use vstd::prelude::*;

use crate::model::SignedVc;
use crate::model::SignedVp;
use crate::model::NonceRecord;
use crate::nonce::is_fresh;

verus! {

/// Why a presentation was rejected, in the order the pipeline checks:
/// holder resolution, holder signature, nonce binding, embedded credential,
/// issuer resolution, issuer signature, freshness.
#[derive(Clone, Copy, Debug, PartialEq, Eq, Structural)]
pub enum RejectReason {
    UnresolvableHolder,
    VpSignatureInvalid,
    NonceMismatch,
    NoEmbeddedCredential,
    UnresolvableIssuer,
    VcSignatureInvalid,
    StaleNonce,
}

/// The pipeline's decision on one presentation.
#[derive(Clone, Copy, Debug, PartialEq, Eq, Structural)]
pub enum Outcome {
    Accepted,
    Rejected(RejectReason),
}

/// The answers of the external collaborators for one presentation, handed in
/// by the caller that performed the calls: whether the DID Registry resolved
/// the holder's and the issuer's documents, and whether the Verifier
/// capability judged each signature cryptographically valid against the
/// resolved document. The nonce binding and the freshness are not among them:
/// those are decided here, from the presentation's own committed nonce and
/// the session record.
#[derive(Clone, Copy, Debug)]
pub struct Verdicts {
    pub holder_resolved: bool,
    pub vp_signature_valid: bool,
    pub issuer_resolved: bool,
    pub vc_signature_valid: bool,
}

/// The pipeline's decision, step by step in the fixed order, short-circuiting
/// to the first failing step's reason.
pub open spec fn spec_outcome(
    vp: SignedVp,
    session_nonce: Seq<char>,
    expiry: u64,
    now_s: u64,
    v: Verdicts,
) -> Outcome {
    if !v.holder_resolved {
        Outcome::Rejected(RejectReason::UnresolvableHolder)
    } else if !v.vp_signature_valid {
        Outcome::Rejected(RejectReason::VpSignatureInvalid)
    } else if vp.payload.nonce@ != session_nonce {
        Outcome::Rejected(RejectReason::NonceMismatch)
    } else if vp.payload.credentials.len() == 0 {
        Outcome::Rejected(RejectReason::NoEmbeddedCredential)
    } else if !v.issuer_resolved {
        Outcome::Rejected(RejectReason::UnresolvableIssuer)
    } else if !v.vc_signature_valid {
        Outcome::Rejected(RejectReason::VcSignatureInvalid)
    } else if now_s >= expiry {
        Outcome::Rejected(RejectReason::StaleNonce)
    } else {
        Outcome::Accepted
    }
}

/// All the conditions acceptance asks for, as one conjunction.
pub open spec fn spec_accepts(
    vp: SignedVp,
    session_nonce: Seq<char>,
    expiry: u64,
    now_s: u64,
    v: Verdicts,
) -> bool {
    &&& v.holder_resolved
    &&& v.vp_signature_valid
    &&& vp.payload.nonce@ == session_nonce
    &&& vp.payload.credentials.len() > 0
    &&& v.issuer_resolved
    &&& v.vc_signature_valid
    &&& now_s < expiry
}

/// Run the verification pipeline on one presentation against the session
/// record on file for its claimed holder, at time `now_s`, with the
/// collaborators' answers `v`. Pure: the decision is exactly `spec_outcome`.
pub fn verify_presentation(
    vp: &SignedVp,
    rec: &NonceRecord,
    now_s: u64,
    v: &Verdicts,
) -> (r: Outcome)
    ensures
        r == spec_outcome(*vp, rec.nonce@, rec.expiry, now_s, *v),
{
    if !v.holder_resolved {
        Outcome::Rejected(RejectReason::UnresolvableHolder)
    } else if !v.vp_signature_valid {
        Outcome::Rejected(RejectReason::VpSignatureInvalid)
    } else if !(vp.payload.nonce == rec.nonce) {
        Outcome::Rejected(RejectReason::NonceMismatch)
    } else if vp.payload.credentials.len() == 0 {
        Outcome::Rejected(RejectReason::NoEmbeddedCredential)
    } else if !v.issuer_resolved {
        Outcome::Rejected(RejectReason::UnresolvableIssuer)
    } else if !v.vc_signature_valid {
        Outcome::Rejected(RejectReason::VcSignatureInvalid)
    } else if !is_fresh(rec, now_s) {
        Outcome::Rejected(RejectReason::StaleNonce)
    } else {
        Outcome::Accepted
    }
}

/// Whether an outcome is acceptance; the caller publishes a Success notice
/// exactly when it is.
pub fn is_accepted(o: &Outcome) -> (r: bool)
    ensures
        r == (*o == Outcome::Accepted),
{
    match o {
        Outcome::Accepted => true,
        Outcome::Rejected(_) => false,
    }
}

/// The holder DID a presentation claims, read from its own signed payload,
/// never from the transport topic.
pub fn extract_holder(vp: &SignedVp) -> (r: &String)
    ensures
        r@ == vp.payload.holder_did@,
{
    &vp.payload.holder_did
}

/// The first embedded credential of a presentation, or `None` when the
/// presentation embeds none; absence is a hard rejection.
pub fn first_credential(vp: &SignedVp) -> (r: Option<&SignedVc>)
    ensures
        match r {
            Some(vc) => vp.payload.credentials.len() > 0 && *vc == vp.payload.credentials[0],
            None => vp.payload.credentials.len() == 0,
        },
{
    if vp.payload.credentials.len() > 0 {
        Some(&vp.payload.credentials[0])
    } else {
        None
    }
}

/// The issuer DID a credential claims, read from its own signed payload.
pub fn extract_issuer(vc: &SignedVc) -> (r: &String)
    ensures
        r@ == vc.payload.issuer_did@,
{
    &vc.payload.issuer_did
}

/// The final decision is the pure conjunction of every step: acceptance holds
/// exactly when both documents resolve, both signatures are valid, the
/// presentation's committed nonce equals the session nonce, at least one
/// credential is embedded, and the record is still fresh.
pub proof fn accepted_iff_all_hold(
    vp: SignedVp,
    session_nonce: Seq<char>,
    expiry: u64,
    now_s: u64,
    v: Verdicts,
)
    ensures
        (spec_outcome(vp, session_nonce, expiry, now_s, v) == Outcome::Accepted)
            <==> spec_accepts(vp, session_nonce, expiry, now_s, v),
{
}

/// A presentation whose committed nonce differs from the nonce on file for
/// its holder is rejected, whatever the signature and resolution verdicts.
pub proof fn nonce_mismatch_rejected(
    vp: SignedVp,
    session_nonce: Seq<char>,
    expiry: u64,
    now_s: u64,
    v: Verdicts,
)
    requires
        vp.payload.nonce@ != session_nonce,
    ensures
        spec_outcome(vp, session_nonce, expiry, now_s, v) != Outcome::Accepted,
{
}

/// A presentation delivered at or after the record's expiry is rejected even
/// when every signature and resolution verdict is positive: freshness is
/// independent of the signature checks.
pub proof fn stale_rejected(
    vp: SignedVp,
    session_nonce: Seq<char>,
    expiry: u64,
    now_s: u64,
    v: Verdicts,
)
    requires
        now_s >= expiry,
    ensures
        spec_outcome(vp, session_nonce, expiry, now_s, v) != Outcome::Accepted,
{
}

/// A credential whose issuer document cannot be resolved is rejected,
/// whatever the other verdicts.
pub proof fn unresolvable_issuer_rejected(
    vp: SignedVp,
    session_nonce: Seq<char>,
    expiry: u64,
    now_s: u64,
    v: Verdicts,
)
    requires
        !v.issuer_resolved,
    ensures
        spec_outcome(vp, session_nonce, expiry, now_s, v) != Outcome::Accepted,
{
}

} // verus!
