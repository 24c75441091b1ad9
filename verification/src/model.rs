use vstd::prelude::*;

verus! {

/// A verifiable credential as this protocol reads it: the issuer's DID, the
/// subject's DID, and the claims payload carried as opaque text. The
/// cryptographic signature produced by the issuer's Signer capability is kept
/// as an opaque token beside it (`SignedVc`).
#[derive(Debug)]
pub struct Vc {
    pub issuer_did: String,
    pub subject_did: String,
    pub claims: String,
}

impl Clone for Vc {
    fn clone(&self) -> (r: Vc)
        ensures
            r == *self,
    {
        Vc {
            issuer_did: self.issuer_did.clone(),
            subject_did: self.subject_did.clone(),
            claims: self.claims.clone(),
        }
    }
}

/// A credential together with the issuer's signature token. The token's
/// cryptographic validity is judged by the external Verifier capability; this
/// library carries it unread.
#[derive(Debug)]
pub struct SignedVc {
    pub payload: Vc,
    pub signature: String,
}

impl Clone for SignedVc {
    fn clone(&self) -> (r: SignedVc)
        ensures
            r == *self,
    {
        SignedVc { payload: self.payload.clone(), signature: self.signature.clone() }
    }
}

/// A verifiable presentation as this protocol reads it: the holder's DID, the
/// embedded credentials, and the challenge nonce the holder committed to when
/// signing. The committed nonce is part of the signed material, so it is data
/// of the presentation itself, not of the transport.
#[derive(Clone, Debug)]
pub struct Vp {
    pub holder_did: String,
    pub credentials: Vec<SignedVc>,
    pub nonce: String,
}

/// A presentation together with the holder's signature token.
#[derive(Clone, Debug)]
pub struct SignedVp {
    pub payload: Vp,
    pub signature: String,
}

/// The nonce record the verifier keeps per claimant DID: the issued nonce
/// value and the absolute expiry time in seconds since the Unix epoch.
#[derive(Clone, Debug)]
pub struct NonceRecord {
    pub nonce: String,
    pub expiry: u64,
}

/// A DID document as this protocol reads it: the DID it describes and the
/// fragments of its assertion-method verification methods, in document order.
/// The key material itself is only ever read by the external Signer and
/// Verifier capabilities.
#[derive(Clone, Debug)]
pub struct DidDocument {
    pub id: String,
    pub assertion_method_fragments: Vec<String>,
}

} // verus!
