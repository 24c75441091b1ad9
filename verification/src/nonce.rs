use vstd::prelude::*;

use crate::model::NonceRecord;

verus! {

/// One session entry: the claimant DID with its issued nonce and expiry.
pub struct SessionEntry {
    pub did: String,
    pub nonce: String,
    pub expiry: u64,
}

/// The session registry the verifier keeps, keyed by claimant DID. Entries
/// are kept newest first, and a lookup sees only the newest entry for a DID,
/// so issuing again for the same DID silently supersedes the prior record.
/// Records are never evicted.
pub struct NonceAuthority {
    entries: Vec<SessionEntry>,
    ttl: u64,
}

/// The newest record for DID `d` among `s`, scanning from the front:
/// the nonce value and the expiry, or `None` when no session exists for `d`.
pub open spec fn lookup_entries(s: Seq<SessionEntry>, d: Seq<char>) -> Option<(Seq<char>, u64)>
    decreases s.len(),
{
    if s.len() == 0 {
        None
    } else if s[0].did@ == d {
        Some((s[0].nonce@, s[0].expiry))
    } else {
        lookup_entries(s.subrange(1, s.len() as int), d)
    }
}

/// Relies on uuid::Uuid::new_v4 with the simple formatter: a fresh random
/// UUID rendered as exactly 32 hexadecimal characters. Nothing more is
/// claimed of the value: it is random, so two calls may differ.
#[verifier::external_body]
fn fresh_nonce() -> (r: String)
    ensures
        r@.len() == 32,
{
    uuid::Uuid::new_v4().simple().to_string()
}

impl NonceAuthority {
    /// The registry's view: the active record for each DID.
    pub closed spec fn spec_lookup(self, d: Seq<char>) -> Option<(Seq<char>, u64)> {
        lookup_entries(self.entries@, d)
    }

    /// The fixed time-to-live, in seconds, of every nonce this registry issues.
    pub closed spec fn spec_ttl(self) -> u64 {
        self.ttl
    }

    /// An empty registry with the given nonce time-to-live.
    pub fn new(ttl: u64) -> (r: NonceAuthority)
        ensures
            r.spec_ttl() == ttl,
            forall|d: Seq<char>| r.spec_lookup(d) is None,
    {
        NonceAuthority { entries: Vec::new(), ttl }
    }

    /// Issue a fresh unpredictable nonce for `did`, valid for the registry's
    /// TTL from `now_s`, superseding any prior record for `did`. Records for
    /// every other DID are untouched.
    pub fn issue(&mut self, did: &String, now_s: u64) -> (nonce: String)
        requires
            now_s + old(self).spec_ttl() <= u64::MAX,
        ensures
            final(self).spec_ttl() == old(self).spec_ttl(),
            final(self).spec_lookup(did@) == Some(
                (nonce@, (now_s + old(self).spec_ttl()) as u64),
            ),
            forall|d: Seq<char>|
                d != did@ ==> final(self).spec_lookup(d) == old(self).spec_lookup(d),
            nonce@.len() == 32,
    {
        let nonce = fresh_nonce();
        let entry = SessionEntry {
            did: did.clone(),
            nonce: nonce.clone(),
            expiry: now_s + self.ttl,
        };
        self.entries.insert(0, entry);
        proof {
            let s = self.entries@;
            assert(s.subrange(1, s.len() as int) =~= old(self).entries@);
            assert forall|d: Seq<char>| d != did@ implies final(self).spec_lookup(d)
                == old(self).spec_lookup(d) by {
                assert(lookup_entries(s, d) == lookup_entries(
                    s.subrange(1, s.len() as int),
                    d,
                ));
            }
        }
        nonce
    }

    /// Read the active record for `did`, if any. Absence means no session is
    /// in flight for this DID; the caller must ignore, not err.
    pub fn lookup(&self, did: &String) -> (r: Option<NonceRecord>)
        ensures
            match r {
                Some(rec) => self.spec_lookup(did@) == Some((rec.nonce@, rec.expiry)),
                None => self.spec_lookup(did@) is None,
            },
    {
        let n = self.entries.len();
        let mut i: usize = 0;
        proof {
            assert(self.entries@.subrange(0, n as int) =~= self.entries@);
        }
        while i < n
            invariant
                i <= n,
                n == self.entries.len(),
                lookup_entries(self.entries@, did@) == lookup_entries(
                    self.entries@.subrange(i as int, n as int),
                    did@,
                ),
            decreases n - i,
        {
            if self.entries[i].did == *did {
                proof {
                    let sub = self.entries@.subrange(i as int, n as int);
                    assert(sub[0] == self.entries@[i as int]);
                    assert(lookup_entries(sub, did@) == Some((sub[0].nonce@, sub[0].expiry)));
                }
                return Some(
                    NonceRecord {
                        nonce: self.entries[i].nonce.clone(),
                        expiry: self.entries[i].expiry,
                    },
                );
            }
            proof {
                let sub = self.entries@.subrange(i as int, n as int);
                assert(sub[0] == self.entries@[i as int]);
                assert(sub[0].did@ != did@);
                assert(sub.subrange(1, sub.len() as int) =~= self.entries@.subrange(
                    i as int + 1,
                    n as int,
                ));
                assert(lookup_entries(sub, did@) == lookup_entries(
                    self.entries@.subrange(i as int + 1, n as int),
                    did@,
                ));
            }
            i = i + 1;
        }
        proof {
            assert(self.entries@.subrange(n as int, n as int) =~= Seq::<SessionEntry>::empty());
        }
        None
    }
}

/// Freshness as the protocol defines it: a record is fresh at `now_s` iff
/// `now_s` is strictly before its expiry.
pub fn is_fresh(rec: &NonceRecord, now_s: u64) -> (r: bool)
    ensures
        r == (now_s < rec.expiry),
{
    now_s < rec.expiry
}

} // verus!
