use vstd::prelude::*;

verus! {

/// The request channel every claimant publishes on.
pub fn t_req() -> (r: String)
    ensures
        r@ == "auth/request"@,
{
    String::from_str("auth/request")
}

/// The challenge channel scoped to one claimant DID.
pub fn t_chal(did: &str) -> (r: String)
    ensures
        r@ == "auth/challenge/"@ + did@,
{
    let mut s = String::from_str("auth/challenge/");
    s.append(did);
    s
}

/// The response channel scoped to one claimant DID.
pub fn t_resp(did: &str) -> (r: String)
    ensures
        r@ == "auth/response/"@ + did@,
{
    let mut s = String::from_str("auth/response/");
    s.append(did);
    s
}

/// The success channel scoped to one claimant DID.
pub fn t_ok(did: &str) -> (r: String)
    ensures
        r@ == "auth/success/"@ + did@,
{
    let mut s = String::from_str("auth/success/");
    s.append(did);
    s
}

/// The application channel a holder uses only after success.
pub fn t_data(did: &str) -> (r: String)
    ensures
        r@ == "mqtt/topic/vehicle/"@ + did@,
{
    let mut s = String::from_str("mqtt/topic/vehicle/");
    s.append(did);
    s
}

/// Whether two string slices hold the same characters.
fn str_eq(a: &str, b: &str) -> (r: bool)
    ensures
        r == (a@ == b@),
{
    let x = a.to_owned();
    let y = b.to_owned();
    x == y
}

/// An inbound message on the verifier side, told apart by its topic: an auth
/// request, an auth response carrying the claimant DID the topic is scoped
/// to, or anything else, which the loop ignores.
pub enum GatewayInbound {
    Request,
    Response(String),
    Other,
}

/// The claimant DID a response topic is scoped to: the rest of the topic
/// after the `auth/response/` prefix, or `None` when the topic does not carry
/// that prefix.
pub fn response_topic_did(topic: &str) -> (r: Option<String>)
    ensures
        r matches Some(d) ==> topic@.len() >= "auth/response/"@.len() && topic@.subrange(
            0,
            "auth/response/"@.len() as int,
        ) == "auth/response/"@ && d@ == topic@.subrange(
            "auth/response/"@.len() as int,
            topic@.len() as int,
        ),
        r is None ==> !(topic@.len() >= "auth/response/"@.len() && topic@.subrange(
            0,
            "auth/response/"@.len() as int,
        ) == "auth/response/"@),
{
    let p: &str = "auth/response/";
    let plen: usize = p.unicode_len();
    let tlen: usize = topic.unicode_len();
    if tlen < plen {
        return None;
    }
    let head = topic.substring_char(0, plen);
    if !str_eq(head, p) {
        return None;
    }
    let tail = topic.substring_char(plen, tlen);
    Some(tail.to_owned())
}

/// Tell a verifier-side inbound topic apart: the request channel, a scoped
/// response channel, or anything else.
pub fn classify_topic(topic: &str) -> (r: GatewayInbound)
    ensures
        (r == GatewayInbound::Request) == (topic@ == "auth/request"@),
        r matches GatewayInbound::Response(d) ==> topic@ != "auth/request"@ && topic@.len()
            >= "auth/response/"@.len() && topic@.subrange(0, "auth/response/"@.len() as int)
            == "auth/response/"@ && d@ == topic@.subrange(
            "auth/response/"@.len() as int,
            topic@.len() as int,
        ),
        r == GatewayInbound::Other ==> topic@ != "auth/request"@ && !(topic@.len()
            >= "auth/response/"@.len() && topic@.subrange(0, "auth/response/"@.len() as int)
            == "auth/response/"@),
{
    if str_eq(topic, "auth/request") {
        return GatewayInbound::Request;
    }
    match response_topic_did(topic) {
        Some(d) => GatewayInbound::Response(d),
        None => GatewayInbound::Other,
    }
}

/// An inbound message on the holder side, told apart by its topic: the
/// challenge or success channel scoped to the holder's own DID, or anything
/// else, which the loop ignores.
#[derive(Clone, Copy, Debug, PartialEq, Eq, Structural)]
pub enum HolderInbound {
    Challenge,
    Success,
    Other,
}

/// Tell a holder-side inbound topic apart against the holder's own DID.
pub fn classify_holder_topic(topic: &str, did: &str) -> (r: HolderInbound)
    ensures
        (r == HolderInbound::Challenge) == (topic@ == "auth/challenge/"@ + did@),
        (r == HolderInbound::Success) == (topic@ != "auth/challenge/"@ + did@ && topic@
            == "auth/success/"@ + did@),
{
    let chal = t_chal(did);
    if str_eq(topic, chal.as_str()) {
        return HolderInbound::Challenge;
    }
    let ok = t_ok(did);
    if str_eq(topic, ok.as_str()) {
        return HolderInbound::Success;
    }
    HolderInbound::Other
}

} // verus!
