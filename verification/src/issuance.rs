use vstd::prelude::*;

use crate::model::DidDocument;
use crate::model::SignedVc;
use crate::model::Vc;

verus! {

/// Build the unsigned credential of the issuance flow: issued by the DID the
/// issuer's document describes, about `subject_did`, carrying `claims`.
pub fn build_credential(issuer_doc: &DidDocument, subject_did: &String, claims: &String) -> (vc:
    Vc)
    ensures
        vc.issuer_did@ == issuer_doc.id@,
        vc.subject_did@ == subject_did@,
        vc.claims@ == claims@,
{
    Vc {
        issuer_did: issuer_doc.id.clone(),
        subject_did: subject_did.clone(),
        claims: claims.clone(),
    }
}

/// The issuer's first usable signing method: the fragment of the first
/// assertion method of its document, or `None` when the document lists none,
/// which aborts the issuance.
pub fn first_assertion_fragment(doc: &DidDocument) -> (r: Option<&String>)
    ensures
        match r {
            Some(f) => doc.assertion_method_fragments@.len() > 0 && f@
                == doc.assertion_method_fragments@[0]@,
            None => doc.assertion_method_fragments@.len() == 0,
        },
{
    if doc.assertion_method_fragments.len() > 0 {
        Some(&doc.assertion_method_fragments[0])
    } else {
        None
    }
}

/// Wrap a credential with the signature token the Signer capability produced
/// over it; the signed credential is immutable thereafter and is what the
/// holder stores for reuse.
pub fn attach_credential_signature(payload: Vc, signature: String) -> (r: SignedVc)
    ensures
        r.payload == payload,
        r.signature == signature,
{
    SignedVc { payload, signature }
}

} // verus!
