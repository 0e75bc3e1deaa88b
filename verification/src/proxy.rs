//! The proxy forwarding core: composing the outbound request for the
//! upstream (URL concatenation, optional bearer credential, content type,
//! body cap) and relaying the upstream's answer — verbatim on success, a
//! synthesized JSON error envelope with a fresh trace identifier on
//! transport failure.

use vstd::prelude::*;
use vstd::string::StringExecFns;
use crate::json;
use crate::routes::{Method, RouteAction, spec_route, spec_requires_auth};

verus! {

/// A lowercase hexadecimal digit.
pub open spec fn is_hex_lower(c: char) -> bool {
    ('0' <= c && c <= '9') || ('a' <= c && c <= 'f')
}

/// The hyphenated textual form of a 128-bit identifier: 36 characters,
/// hyphens exactly at positions 8, 13, 18 and 23, lowercase hex elsewhere.
pub open spec fn is_uuid_text(s: Seq<char>) -> bool {
    s.len() == 36 && forall|i: int|
        0 <= i < 36 ==> if i == 8 || i == 13 || i == 18 || i == 23 {
            s[i] == '-'
        } else {
            is_hex_lower(#[trigger] s[i])
        }
}

/// Relies on `uuid::Uuid::new_v4` and its `Display`: a fresh random
/// identifier rendered in the hyphenated lowercase form. Nothing relates two
/// calls; only the shape of the text is promised.
#[verifier::external_body]
pub fn new_trace_id() -> (r: String)
    ensures
        is_uuid_text(r@),
{
    uuid::Uuid::new_v4().to_string()
}

/// The value of the `Authorization` header on credentialed routes.
pub open spec fn spec_bearer(key: Seq<char>) -> Seq<char> {
    "Bearer "@ + key
}

/// The optional `Authorization` header the forwarder attaches: the bearer
/// credential exactly when the route demands it.
pub open spec fn spec_outbound_auth(with_auth: bool, key: Seq<char>) -> Option<Seq<char>> {
    if with_auth {
        Some(spec_bearer(key))
    } else {
        None
    }
}

/// The outbound request handed to the HTTP client, with at most one
/// `Authorization` and at most one `Content-Type` header.
pub struct OutboundRequest {
    pub url: String,
    pub method: Method,
    pub authorization: Option<String>,
    pub content_type: Option<String>,
    pub body: Vec<u8>,
}

/// Composes the outbound request: the upstream base and the inbound
/// path-and-query concatenated unchanged, the method copied, the bearer
/// credential attached exactly when `with_auth` holds, `application/json`
/// declared for POST bodies, and the body capped at `max_size` bytes.
pub fn build_outbound(
    base: &str,
    api_key: &str,
    method: Method,
    path_and_query: &str,
    body: Vec<u8>,
    with_auth: bool,
    max_size: usize,
) -> (r: OutboundRequest)
    ensures
        r.url@ == base@ + path_and_query@,
        r.method == method,
        with_auth ==> (r.authorization matches Some(h) && h@ == spec_bearer(api_key@)),
        !with_auth ==> r.authorization is None,
        r.authorization matches Some(h) ==> Some(h@) == spec_outbound_auth(with_auth, api_key@),
        method == Method::Post ==> (r.content_type matches Some(t) && t@ == "application/json"@),
        method != Method::Post ==> r.content_type is None,
        r.body@ == if body@.len() <= max_size {
            body@
        } else {
            body@.take(max_size as int)
        },
{
    let url = String::from_str(base).concat(path_and_query);
    let authorization = if with_auth {
        Some(String::from_str("Bearer ").concat(api_key))
    } else {
        None
    };
    let content_type = match method {
        Method::Post => Some(String::from_str("application/json")),
        Method::Get => None,
    };
    let mut body = body;
    body.truncate(max_size);
    OutboundRequest { url, method, authorization, content_type, body }
}

/// What came back from one outbound call: the upstream's answer, or a
/// transport failure (timeout, refused connection, failed name lookup).
pub enum UpstreamOutcome {
    Response { status: u16, body: Vec<u8> },
    TransportError,
}

/// What the gateway answers: the upstream's bytes relayed unchanged, or a
/// synthesized JSON error body.
pub enum GatewayReply {
    Relay { status: u16, body: Vec<u8> },
    ErrorEnvelope { status: u16, body: String },
}

/// The error code under which every transport failure is reported.
pub open spec fn spec_timeout_code() -> Seq<char> {
    "UPSTREAM_TIMEOUT"@
}

/// The error envelope the gateway synthesizes for a transport failure.
pub open spec fn spec_transport_error_body(trace_id: Seq<char>) -> Seq<char> {
    json::spec_error_envelope(spec_timeout_code(), "Servicio no disponible"@, trace_id)
}

/// Turns the outcome of the outbound call into the gateway's reply: an
/// upstream answer is relayed with its status and body untouched; every
/// transport failure becomes HTTP 502 with the JSON error envelope carrying
/// the given trace identifier.
pub fn handle_upstream(outcome: UpstreamOutcome, trace_id: &str) -> (r: GatewayReply)
    ensures
        outcome matches UpstreamOutcome::Response { status, body } ==> (r
            matches GatewayReply::Relay { status: rs, body: rb } && rs == status && rb == body),
        outcome is TransportError ==> (r matches GatewayReply::ErrorEnvelope {
            status: rs,
            body: rb,
        } && rs == 502 && rb@ == spec_transport_error_body(trace_id@)),
{
    match outcome {
        UpstreamOutcome::Response { status, body } => GatewayReply::Relay { status, body },
        UpstreamOutcome::TransportError => {
            let body = json::error_envelope("UPSTREAM_TIMEOUT", "Servicio no disponible", trace_id);
            GatewayReply::ErrorEnvelope { status: 502, body }
        },
    }
}

/// Routes flagged public never carry the credential: for any route the
/// table classifies `ProxyPublic`, the forwarder's `Authorization` header
/// is absent whatever the configured key.
pub proof fn lemma_public_route_sends_no_credential(method: Method, path: Seq<char>, key: Seq<char>)
    requires
        spec_route(method, path) == Some(RouteAction::ProxyPublic),
    ensures
        spec_outbound_auth(spec_requires_auth(method, path), key) is None,
{
}

/// Routes flagged authenticated carry exactly one `Authorization` header,
/// and its value is `Bearer` followed by the configured key.
pub proof fn lemma_auth_route_sends_bearer(method: Method, path: Seq<char>, key: Seq<char>)
    requires
        spec_route(method, path) == Some(RouteAction::ProxyAuth),
    ensures
        spec_outbound_auth(spec_requires_auth(method, path), key) == Some(spec_bearer(key)),
{
}

/// Local routes never reach the forwarder's credential decision at all;
/// stated here for completeness of the auth invariant: the only action that
/// yields a credential is `ProxyAuth`.
pub proof fn lemma_only_auth_routes_credentialed(method: Method, path: Seq<char>, key: Seq<char>)
    ensures
        spec_outbound_auth(spec_requires_auth(method, path), key) is Some <==> spec_route(
            method,
            path,
        ) == Some(RouteAction::ProxyAuth),
{
}

} // verus!
