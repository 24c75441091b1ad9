use did_auth::gateway::Gateway;
use did_auth::holder::holder_step;
use did_auth::holder::HolderEvent;
use did_auth::holder::HolderStep;
use did_auth::issuance::attach_credential_signature;
use did_auth::issuance::build_credential;
use did_auth::issuance::first_assertion_fragment;
use did_auth::model::DidDocument;
use did_auth::model::SignedVc;
use did_auth::model::SignedVp;
use did_auth::model::Vp;
use did_auth::nonce::is_fresh;
use did_auth::nonce::NonceAuthority;
use did_auth::pipeline::is_accepted;
use did_auth::pipeline::verify_presentation;
use did_auth::pipeline::Outcome;
use did_auth::pipeline::RejectReason;
use did_auth::pipeline::Verdicts;

fn issuer_doc() -> DidDocument {
    DidDocument {
        id: "did:iota:tst:issuer".to_string(),
        assertion_method_fragments: vec!["key-issuer".to_string()],
    }
}

fn sample_vc(subject: &str) -> SignedVc {
    let claims = format!(r#"{{"id":"{}","authorized":true}}"#, subject);
    let vc = build_credential(&issuer_doc(), &subject.to_string(), &claims);
    attach_credential_signature(vc, "vc-signature".to_string())
}

fn all_good() -> Verdicts {
    Verdicts {
        holder_resolved: true,
        vp_signature_valid: true,
        issuer_resolved: true,
        vc_signature_valid: true,
    }
}

fn respond(did: &str, vc: &SignedVc, nonce: &str) -> SignedVp {
    match holder_step(&did.to_string(), vc, &HolderEvent::Challenge(nonce.to_string())) {
        HolderStep::Respond(vp) => SignedVp {
            payload: vp,
            signature: "vp-signature".to_string(),
        },
        _ => panic!("a challenge must be answered with a presentation"),
    }
}

#[test]
fn fresh_valid_response_accepted() {
    let did = "X".to_string();
    let mut g = Gateway::new(60, String::new());
    let c = g.handle_request(&did, 1000);
    let vc = sample_vc("X");
    let vp = respond("X", &vc, &c.nonce);
    let r = g.handle_response(&did, &vp, &all_good(), 1010);
    assert_eq!(r, Some(Outcome::Accepted));
    assert!(is_accepted(&r.unwrap()));
}

#[test]
fn stale_response_rejected() {
    let did = "X".to_string();
    let mut g = Gateway::new(60, String::new());
    let c = g.handle_request(&did, 1000);
    let vc = sample_vc("X");
    let vp = respond("X", &vc, &c.nonce);
    let r = g.handle_response(&did, &vp, &all_good(), 1061);
    assert_eq!(r, Some(Outcome::Rejected(RejectReason::StaleNonce)));
    assert!(!is_accepted(&r.unwrap()));
}

#[test]
fn expiry_boundary_is_strict() {
    let did = "X".to_string();
    let mut g = Gateway::new(60, String::new());
    let c = g.handle_request(&did, 1000);
    let vc = sample_vc("X");
    let vp = respond("X", &vc, &c.nonce);
    assert_eq!(g.handle_response(&did, &vp, &all_good(), 1059), Some(Outcome::Accepted));
    assert_eq!(
        g.handle_response(&did, &vp, &all_good(), 1060),
        Some(Outcome::Rejected(RejectReason::StaleNonce))
    );
}

#[test]
fn wrong_nonce_rejected() {
    let did = "X".to_string();
    let mut g = Gateway::new(60, String::new());
    let _c = g.handle_request(&did, 1000);
    let vc = sample_vc("X");
    let vp = respond("X", &vc, "wrong");
    let r = g.handle_response(&did, &vp, &all_good(), 1010);
    assert_eq!(r, Some(Outcome::Rejected(RejectReason::NonceMismatch)));
}

#[test]
fn response_without_session_ignored() {
    let g = Gateway::new(60, String::new());
    let vc = sample_vc("Y");
    let vp = respond("Y", &vc, "anything");
    let r = g.handle_response(&"Y".to_string(), &vp, &all_good(), 1010);
    assert_eq!(r, None);
}

#[test]
fn reissue_invalidates_first_nonce() {
    let did = "X".to_string();
    let mut g = Gateway::new(60, String::new());
    let first = g.handle_request(&did, 1000);
    let vc = sample_vc("X");
    let vp = respond("X", &vc, &first.nonce);
    let second = g.handle_request(&did, 1005);
    assert_ne!(first.nonce, second.nonce);
    let r = g.handle_response(&did, &vp, &all_good(), 1010);
    assert_eq!(r, Some(Outcome::Rejected(RejectReason::NonceMismatch)));
}

#[test]
fn round_trip_accepted_exactly_once_per_nonce() {
    let did = "X".to_string();
    let mut g = Gateway::new(60, String::new());
    let c = g.handle_request(&did, 1000);
    let doc = issuer_doc();
    let fragment = first_assertion_fragment(&doc).expect("issuer has a signing method");
    assert_eq!(fragment, "key-issuer");
    let vc = sample_vc("X");
    assert_eq!(vc.payload.issuer_did, "did:iota:tst:issuer");
    assert_eq!(vc.payload.subject_did, "X");
    let vp = respond("X", &vc, &c.nonce);
    assert_eq!(g.handle_response(&did, &vp, &all_good(), 1010), Some(Outcome::Accepted));
    let next = g.handle_request(&did, 1020);
    assert_ne!(c.nonce, next.nonce);
    assert_eq!(
        g.handle_response(&did, &vp, &all_good(), 1021),
        Some(Outcome::Rejected(RejectReason::NonceMismatch))
    );
}

#[test]
fn unresolvable_holder_rejected() {
    let vc = sample_vc("X");
    let vp = respond("X", &vc, "n1");
    let rec = did_auth::model::NonceRecord { nonce: "n1".to_string(), expiry: 100 };
    let mut v = all_good();
    v.holder_resolved = false;
    let r = verify_presentation(&vp, &rec, 10, &v);
    assert_eq!(r, Outcome::Rejected(RejectReason::UnresolvableHolder));
}

#[test]
fn unresolvable_issuer_rejected() {
    let vc = sample_vc("X");
    let vp = respond("X", &vc, "n1");
    let rec = did_auth::model::NonceRecord { nonce: "n1".to_string(), expiry: 100 };
    let mut v = all_good();
    v.issuer_resolved = false;
    let r = verify_presentation(&vp, &rec, 10, &v);
    assert_eq!(r, Outcome::Rejected(RejectReason::UnresolvableIssuer));
}

#[test]
fn invalid_signatures_rejected_with_distinct_reasons() {
    let vc = sample_vc("X");
    let vp = respond("X", &vc, "n1");
    let rec = did_auth::model::NonceRecord { nonce: "n1".to_string(), expiry: 100 };
    let mut bad_vp = all_good();
    bad_vp.vp_signature_valid = false;
    assert_eq!(
        verify_presentation(&vp, &rec, 10, &bad_vp),
        Outcome::Rejected(RejectReason::VpSignatureInvalid)
    );
    let mut bad_vc = all_good();
    bad_vc.vc_signature_valid = false;
    assert_eq!(
        verify_presentation(&vp, &rec, 10, &bad_vc),
        Outcome::Rejected(RejectReason::VcSignatureInvalid)
    );
}

#[test]
fn presentation_without_credential_rejected() {
    let vp = SignedVp {
        payload: Vp {
            holder_did: "X".to_string(),
            credentials: Vec::new(),
            nonce: "n1".to_string(),
        },
        signature: "vp-signature".to_string(),
    };
    let rec = did_auth::model::NonceRecord { nonce: "n1".to_string(), expiry: 100 };
    let r = verify_presentation(&vp, &rec, 10, &all_good());
    assert_eq!(r, Outcome::Rejected(RejectReason::NoEmbeddedCredential));
}

#[test]
fn nonce_authority_issue_and_lookup() {
    let mut a = NonceAuthority::new(60);
    let did = "did:iota:tst:abc".to_string();
    assert!(a.lookup(&did).is_none());
    let nonce = a.issue(&did, 500);
    assert_eq!(nonce.len(), 32);
    let rec = a.lookup(&did).expect("a record was just issued");
    assert_eq!(rec.nonce, nonce);
    assert_eq!(rec.expiry, 560);
    assert!(a.lookup(&"did:iota:tst:other".to_string()).is_none());
    let newer = a.issue(&did, 510);
    let rec2 = a.lookup(&did).expect("a record was just issued");
    assert_eq!(rec2.nonce, newer);
    assert_eq!(rec2.expiry, 570);
}

#[test]
fn freshness_is_strict_inequality() {
    let rec = did_auth::model::NonceRecord { nonce: "n".to_string(), expiry: 60 };
    assert!(is_fresh(&rec, 59));
    assert!(!is_fresh(&rec, 60));
    assert!(!is_fresh(&rec, 61));
}

#[test]
fn holder_ignores_unrelated_and_acts_on_success() {
    let did = "X".to_string();
    let vc = sample_vc("X");
    assert!(matches!(holder_step(&did, &vc, &HolderEvent::Success), HolderStep::SendTelemetry));
    assert!(matches!(holder_step(&did, &vc, &HolderEvent::Other), HolderStep::Ignore));
}

#[test]
fn holder_presentation_wraps_credential_and_nonce() {
    let did = "did:iota:tst:holder".to_string();
    let vc = sample_vc("did:iota:tst:holder");
    match holder_step(&did, &vc, &HolderEvent::Challenge("abc123".to_string())) {
        HolderStep::Respond(vp) => {
            assert_eq!(vp.holder_did, did);
            assert_eq!(vp.nonce, "abc123");
            assert_eq!(vp.credentials.len(), 1);
            assert_eq!(vp.credentials[0].payload.subject_did, "did:iota:tst:holder");
            assert_eq!(vp.credentials[0].signature, "vc-signature");
        }
        _ => panic!("a challenge must be answered with a presentation"),
    }
}

#[test]
fn clock_reads_seconds_since_the_epoch() {
    let t = did_auth::gateway::now();
    assert!(t > 1_000_000_000, "the clock should read a time after 2001, got {t}");
}

#[test]
fn issuance_fails_without_assertion_method() {
    let doc = DidDocument {
        id: "did:iota:tst:bare".to_string(),
        assertion_method_fragments: Vec::new(),
    };
    assert!(first_assertion_fragment(&doc).is_none());
}
