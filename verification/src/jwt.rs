use vstd::prelude::*;

use crate::model::SignedVc;
use crate::model::SignedVp;
use crate::model::Vc;
use crate::model::Vp;

verus! {

/// The first index at or after `from` where `s` holds `c`, if any.
pub open spec fn find_from(s: Seq<char>, c: char, from: int) -> Option<int>
    decreases s.len() - from
        when 0 <= from
{
    if from >= s.len() {
        None
    } else if s[from] == c {
        Some(from)
    } else {
        find_from(s, c, from + 1)
    }
}

/// The header segment of a dot-separated token: the characters before the
/// first dot, when there is one.
pub open spec fn header_segment(s: Seq<char>) -> Option<Seq<char>> {
    match find_from(s, '.', 0) {
        None => None,
        Some(i) => Some(s.subrange(0, i)),
    }
}

/// The payload segment of a dot-separated token: the characters between the
/// first dot and the second, or everything after the first dot when there is
/// no second. A token without any dot has none.
pub open spec fn payload_segment(s: Seq<char>) -> Option<Seq<char>> {
    match find_from(s, '.', 0) {
        None => None,
        Some(i) => match find_from(s, '.', i + 1) {
            None => Some(s.subrange(i + 1, s.len() as int)),
            Some(j) => Some(s.subrange(i + 1, j)),
        },
    }
}

/// Pad a base64url segment to a multiple of four with `=`; a length of one
/// more than a multiple of four is left as it is, since no padding makes it
/// valid.
pub open spec fn pad_b64(seg: Seq<char>) -> Seq<char> {
    if seg.len() % 4 == 2 {
        seg.push('=').push('=')
    } else if seg.len() % 4 == 3 {
        seg.push('=')
    } else {
        seg
    }
}

/// What base64's URL_SAFE engine decodes `s` to, or nothing when `s` is not
/// valid padded base64url.
pub uninterp spec fn b64url_decoded(s: Seq<char>) -> Option<Seq<u8>>;

/// The string serde_json reads at `vp.verifiableCredential[0]` of the JSON
/// in `b`, or nothing when `b` holds no such member.
pub uninterp spec fn embedded_vc_of(b: Seq<u8>) -> Option<Seq<char>>;

/// The string member named `key` of the top-level JSON object serde_json
/// parses `b` to, or nothing when `b` holds no such member.
pub uninterp spec fn str_member_of(b: Seq<u8>, key: Seq<char>) -> Option<Seq<char>>;

/// Relies on base64's URL_SAFE engine: decoding is a function of the input
/// characters alone, and input that is not valid padded base64url decodes to
/// nothing.
#[verifier::external_body]
fn decode_base64url(s: &str) -> (r: Option<Vec<u8>>)
    ensures
        r matches Some(v) ==> b64url_decoded(s@) == Some(v@),
        r is None ==> b64url_decoded(s@) is None,
{
    match base64::Engine::decode(&base64::engine::general_purpose::URL_SAFE, s) {
        Ok(v) => Some(v),
        Err(_) => None,
    }
}

/// Relies on serde_json: parse the bytes as JSON and read the string at
/// `vp.verifiableCredential[0]`; the result is a function of the bytes
/// alone, and bytes without such a member give nothing.
#[verifier::external_body]
fn embedded_vc_in(b: &[u8]) -> (r: Option<String>)
    ensures
        r matches Some(t) ==> embedded_vc_of(b@) == Some(t@),
        r is None ==> embedded_vc_of(b@) is None,
{
    let v: serde_json::Value = serde_json::from_slice(b).ok()?;
    let t = v.get("vp")?.get("verifiableCredential")?.get(0)?.as_str()?;
    Some(t.to_owned())
}

/// Relies on serde_json: parse the bytes as JSON and read the string member
/// named `key` of the top-level object; the result is a function of the
/// arguments alone, and bytes without such a member give nothing.
#[verifier::external_body]
fn str_member_in(b: &[u8], key: &str) -> (r: Option<String>)
    ensures
        r matches Some(t) ==> str_member_of(b@, key@) == Some(t@),
        r is None ==> str_member_of(b@, key@) is None,
{
    let v: serde_json::Value = serde_json::from_slice(b).ok()?;
    Some(v.get(key)?.as_str()?.to_owned())
}

/// The decoded payload of an encoded token: its payload segment, padded and
/// decoded as base64url.
pub open spec fn decoded_payload_spec(s: Seq<char>) -> Option<Seq<u8>> {
    match payload_segment(s) {
        None => None,
        Some(seg) => b64url_decoded(pad_b64(seg)),
    }
}

/// The decoded header of an encoded token: its header segment, padded and
/// decoded as base64url.
pub open spec fn decoded_header_spec(s: Seq<char>) -> Option<Seq<u8>> {
    match header_segment(s) {
        None => None,
        Some(seg) => b64url_decoded(pad_b64(seg)),
    }
}

/// The first embedded credential token of an encoded presentation: the
/// decoded payload read at `vp.verifiableCredential[0]`.
pub open spec fn first_vc_spec(s: Seq<char>) -> Option<Seq<char>> {
    match decoded_payload_spec(s) {
        None => None,
        Some(b) => embedded_vc_of(b),
    }
}

/// The string claim named `key` in the decoded payload of an encoded token.
pub open spec fn payload_claim_spec(s: Seq<char>, key: Seq<char>) -> Option<Seq<char>> {
    match decoded_payload_spec(s) {
        None => None,
        Some(b) => str_member_of(b, key),
    }
}

/// The string parameter named `key` in the decoded protected header of an
/// encoded token.
pub open spec fn header_claim_spec(s: Seq<char>, key: Seq<char>) -> Option<Seq<char>> {
    match decoded_header_spec(s) {
        None => None,
        Some(b) => str_member_of(b, key),
    }
}

/// The first dot at or after `from`, scanning the characters of `s`.
fn find_dot(s: &str, from: usize) -> (r: Option<usize>)
    requires
        from <= s@.len(),
    ensures
        match r {
            Some(i) => find_from(s@, '.', from as int) == Some(i as int) && from <= i < s@.len(),
            None => find_from(s@, '.', from as int) is None,
        },
{
    let n = s.unicode_len();
    let mut i = from;
    while i < n
        invariant
            from <= i <= n,
            n == s@.len(),
            find_from(s@, '.', from as int) == find_from(s@, '.', i as int),
        decreases n - i,
    {
        if s.get_char(i) == '.' {
            proof {
                assert(find_from(s@, '.', i as int) == Some(i as int));
            }
            return Some(i);
        }
        proof {
            assert(find_from(s@, '.', i as int) == find_from(s@, '.', i as int + 1));
        }
        i = i + 1;
    }
    proof {
        assert(find_from(s@, '.', n as int) is None);
    }
    None
}

/// Pad a base64url segment to a multiple of four with `=`.
fn pad_segment(seg: &str) -> (p: String)
    ensures
        p@ == pad_b64(seg@),
{
    let mut p = seg.to_owned();
    let rem: usize = seg.unicode_len() % 4;
    if rem == 2 {
        p.append("==");
        proof {
            reveal_strlit("==");
            assert(seg@ + "=="@ =~= seg@.push('=').push('='));
        }
    } else if rem == 3 {
        p.append("=");
        proof {
            reveal_strlit("=");
            assert(seg@ + "="@ =~= seg@.push('='));
        }
    }
    p
}

/// The decoded payload of `jwt`, exactly `decoded_payload_spec`.
fn decoded_payload(jwt: &str) -> (r: Option<Vec<u8>>)
    ensures
        r matches Some(v) ==> decoded_payload_spec(jwt@) == Some(v@),
        r is None ==> decoded_payload_spec(jwt@) is None,
{
    let n = jwt.unicode_len();
    let i = match find_dot(jwt, 0) {
        Some(i) => i,
        None => {
            return None;
        },
    };
    let j = match find_dot(jwt, i + 1) {
        Some(j) => j,
        None => n,
    };
    let seg = jwt.substring_char(i + 1, j);
    proof {
        assert(payload_segment(jwt@) == Some(jwt@.subrange(i as int + 1, j as int)));
    }
    let padded = pad_segment(seg);
    decode_base64url(padded.as_str())
}

/// The decoded protected header of `jwt`, exactly `decoded_header_spec`.
fn decoded_header(jwt: &str) -> (r: Option<Vec<u8>>)
    ensures
        r matches Some(v) ==> decoded_header_spec(jwt@) == Some(v@),
        r is None ==> decoded_header_spec(jwt@) is None,
{
    let i = match find_dot(jwt, 0) {
        Some(i) => i,
        None => {
            return None;
        },
    };
    let seg = jwt.substring_char(0, i);
    proof {
        assert(header_segment(jwt@) == Some(jwt@.subrange(0, i as int)));
    }
    let padded = pad_segment(seg);
    decode_base64url(padded.as_str())
}

/// Extract the first embedded credential token from an encoded presentation:
/// the payload segment between the first dot and the second, padded to a
/// multiple of four with `=`, decoded as base64url, read at
/// `vp.verifiableCredential[0]`. `None` on a token without a dot, on a
/// payload that is not valid base64url or JSON, and on a presentation that
/// embeds no credential.
pub fn first_vc(jwt: &str) -> (r: Option<String>)
    ensures
        r matches Some(t) ==> first_vc_spec(jwt@) == Some(t@),
        r is None ==> first_vc_spec(jwt@) is None,
{
    match decoded_payload(jwt) {
        Some(bytes) => embedded_vc_in(bytes.as_slice()),
        None => None,
    }
}

/// The string claim named `key` in an encoded token's payload; the holder
/// DID of a presentation token and the issuer DID of a credential token are
/// its `iss` claim.
pub fn jwt_payload_claim(jwt: &str, key: &str) -> (r: Option<String>)
    ensures
        r matches Some(t) ==> payload_claim_spec(jwt@, key@) == Some(t@),
        r is None ==> payload_claim_spec(jwt@, key@) is None,
{
    match decoded_payload(jwt) {
        Some(bytes) => str_member_in(bytes.as_slice(), key),
        None => None,
    }
}

/// The string parameter named `key` in an encoded token's protected header;
/// the nonce a presentation's signature commits to is its `nonce` parameter.
pub fn jwt_header_claim(jwt: &str, key: &str) -> (r: Option<String>)
    ensures
        r matches Some(t) ==> header_claim_spec(jwt@, key@) == Some(t@),
        r is None ==> header_claim_spec(jwt@, key@) is None,
{
    match decoded_header(jwt) {
        Some(bytes) => str_member_in(bytes.as_slice(), key),
        None => None,
    }
}

/// A claim that may be absent, read as the empty string when it is.
pub open spec fn claim_or_empty(c: Option<Seq<char>>) -> Seq<char> {
    match c {
        Some(t) => t,
        None => Seq::empty(),
    }
}

/// The protocol's view of a received presentation token: the holder DID its
/// payload claims, the nonce its protected header commits the signature to,
/// and the first embedded credential with the DIDs its own payload claims.
/// Claims that are absent read as empty, which no registered session nonce
/// or resolvable DID equals. The claim set itself is not read by the
/// verification decision, so it is left empty.
pub fn decode_presentation(vp_jwt: &str) -> (r: SignedVp)
    ensures
        r.signature@ == vp_jwt@,
        r.payload.holder_did@ == claim_or_empty(payload_claim_spec(vp_jwt@, "iss"@)),
        r.payload.nonce@ == claim_or_empty(header_claim_spec(vp_jwt@, "nonce"@)),
        match first_vc_spec(vp_jwt@) {
            None => r.payload.credentials@.len() == 0,
            Some(tok) => r.payload.credentials@.len() == 1 && r.payload.credentials@[0].signature@
                == tok && r.payload.credentials@[0].payload.issuer_did@ == claim_or_empty(
                payload_claim_spec(tok, "iss"@),
            ) && r.payload.credentials@[0].payload.subject_did@ == claim_or_empty(
                payload_claim_spec(tok, "sub"@),
            ),
        },
{
    let holder_did = match jwt_payload_claim(vp_jwt, "iss") {
        Some(s) => s,
        None => String::new(),
    };
    let nonce = match jwt_header_claim(vp_jwt, "nonce") {
        Some(s) => s,
        None => String::new(),
    };
    let mut credentials: Vec<SignedVc> = Vec::new();
    match first_vc(vp_jwt) {
        Some(token) => {
            let issuer_did = match jwt_payload_claim(token.as_str(), "iss") {
                Some(s) => s,
                None => String::new(),
            };
            let subject_did = match jwt_payload_claim(token.as_str(), "sub") {
                Some(s) => s,
                None => String::new(),
            };
            credentials.push(
                SignedVc {
                    payload: Vc { issuer_did, subject_did, claims: String::new() },
                    signature: token,
                },
            );
        },
        None => {},
    }
    SignedVp { payload: Vp { holder_did, credentials, nonce }, signature: vp_jwt.to_owned() }
}

} // verus!
