use vstd::prelude::*;

use crate::model::NonceRecord;
use crate::model::SignedVp;
use crate::nonce::NonceAuthority;
use crate::pipeline::Outcome;
use crate::pipeline::Verdicts;
use crate::pipeline::spec_outcome;
use crate::pipeline::verify_presentation;

verus! {

/// The challenge a verifier publishes on a claimant's challenge channel:
/// the issued nonce and the verifier's domain tag.
#[derive(Clone, Debug)]
pub struct Challenge {
    pub nonce: String,
    pub domain: String,
}

/// The verifier's reactive state: its session registry and the domain tag it
/// puts in every challenge. One inbound message is handled fully before the
/// next, so the registry is only ever touched from one handler at a time.
pub struct Gateway {
    sessions: NonceAuthority,
    domain: String,
}

/// Relies on std::time::SystemTime::now, read against the Unix epoch as
/// whole seconds, 0 if the clock reads earlier than the epoch. The result is
/// the ambient wall clock, so nothing is claimed of it.
#[verifier::external_body]
pub fn now() -> (r: u64) {
    match std::time::SystemTime::now().duration_since(std::time::UNIX_EPOCH) {
        Ok(d) => d.as_secs(),
        Err(_) => 0,
    }
}

impl Gateway {
    /// The active record for each claimant DID: its nonce and expiry.
    pub closed spec fn spec_lookup(self, d: Seq<char>) -> Option<(Seq<char>, u64)> {
        self.sessions.spec_lookup(d)
    }

    /// The nonce time-to-live, in seconds, of every challenge.
    pub closed spec fn spec_ttl(self) -> u64 {
        self.sessions.spec_ttl()
    }

    /// The domain tag published with every challenge.
    pub closed spec fn spec_domain(self) -> Seq<char> {
        self.domain@
    }

    /// A verifier with no session in flight.
    pub fn new(ttl: u64, domain: String) -> (g: Gateway)
        ensures
            g.spec_ttl() == ttl,
            g.spec_domain() == domain@,
            forall|d: Seq<char>| g.spec_lookup(d) is None,
    {
        Gateway { sessions: NonceAuthority::new(ttl), domain }
    }

    /// On an auth request: issue a fresh nonce for the claimant, superseding
    /// any session already on file for it, and return the challenge to
    /// publish on the claimant's challenge channel.
    pub fn handle_request(&mut self, did: &String, now_s: u64) -> (c: Challenge)
        requires
            now_s + old(self).spec_ttl() <= u64::MAX,
        ensures
            final(self).spec_ttl() == old(self).spec_ttl(),
            final(self).spec_domain() == old(self).spec_domain(),
            final(self).spec_lookup(did@) == Some(
                (c.nonce@, (now_s + old(self).spec_ttl()) as u64),
            ),
            forall|d: Seq<char>|
                d != did@ ==> final(self).spec_lookup(d) == old(self).spec_lookup(d),
            c.domain@ == old(self).spec_domain(),
            c.nonce@.len() == 32,
    {
        let nonce = self.sessions.issue(did, now_s);
        Challenge { nonce, domain: self.domain.clone() }
    }

    /// The record on file for `did`, if any; a caller checks this before
    /// spending any resolution or verification work on a response, and
    /// silently drops the response when there is none.
    pub fn session(&self, did: &String) -> (r: Option<NonceRecord>)
        ensures
            match r {
                Some(rec) => self.spec_lookup(did@) == Some((rec.nonce@, rec.expiry)),
                None => self.spec_lookup(did@) is None,
            },
    {
        self.sessions.lookup(did)
    }

    /// On an auth response addressed to `did`: when no session is on file the
    /// message is silently ignored and no outcome is computed; otherwise the
    /// verification pipeline decides against the record on file, and the
    /// caller publishes a Success notice exactly when the outcome is
    /// acceptance.
    pub fn handle_response(
        &self,
        did: &String,
        vp: &SignedVp,
        v: &Verdicts,
        now_s: u64,
    ) -> (r: Option<Outcome>)
        ensures
            match self.spec_lookup(did@) {
                None => r is None,
                Some(p) => r == Some(spec_outcome(*vp, p.0, p.1, now_s, *v)),
            },
    {
        match self.sessions.lookup(did) {
            None => None,
            Some(rec) => Some(verify_presentation(vp, &rec, now_s, v)),
        }
    }
}

/// Issuing a nonce again for a DID invalidates the first: once the record on
/// file carries a later, different nonce (`handle_request` ensures the record
/// is overwritten; distinctness of the two random nonces is the registry's
/// uniqueness invariant), a presentation still bound to the earlier nonce is
/// rejected, whatever the signature and resolution verdicts.
pub proof fn superseded_nonce_rejected(
    g: Gateway,
    d: Seq<char>,
    vp: SignedVp,
    first_nonce: Seq<char>,
    now_s: u64,
    v: Verdicts,
)
    requires
        vp.payload.nonce@ == first_nonce,
        g.spec_lookup(d) matches Some(p) && p.0 != first_nonce,
    ensures
        g.spec_lookup(d) matches Some(p) ==> spec_outcome(vp, p.0, p.1, now_s, v)
            != Outcome::Accepted,
{
}

} // verus!
