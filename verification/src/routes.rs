//! The gateway's route table: exact (method, path) pairs mapped to one of
//! three behaviors — serve locally, proxy without the credential, or proxy
//! with the credential. Unmatched pairs are not routed at all.

use vstd::prelude::*;
use crate::text::str_eq;

verus! {

/// The inbound methods the route table distinguishes.
#[derive(Debug, Clone, Copy, PartialEq, Eq, Structural)]
pub enum Method {
    Get,
    Post,
}

/// What the gateway does with a matched route.
#[derive(Debug, Clone, Copy, PartialEq, Eq, Structural)]
pub enum RouteAction {
    /// Answered by the gateway itself (banner, local health, composite
    /// health and metrics views).
    Local,
    /// Forwarded upstream without the shared credential.
    ProxyPublic,
    /// Forwarded upstream with the shared bearer credential attached.
    ProxyAuth,
}

/// The gateway's complete route table.
pub open spec fn spec_route(method: Method, path: Seq<char>) -> Option<RouteAction> {
    if method == Method::Get {
        if path == "/"@ || path == "/health"@ || path == "/api/health"@ || path
            == "/api/metrics/system"@ {
            Some(RouteAction::Local)
        } else if path == "/api/v1/info"@ {
            Some(RouteAction::ProxyPublic)
        } else if path == "/api/timeframes/config"@ || path == "/api/v1/providers/status"@ || path
            == "/api/v1/metrics/system"@ || path == "/api/v1/metrics/reconciliation"@ || path
            == "/api/v1/metrics/data_quality"@ || path == "/api/v1/timeframes/config"@ {
            Some(RouteAction::ProxyAuth)
        } else {
            None
        }
    } else {
        if path == "/api/analyze"@ || path == "/api/v1/analyze"@ || path == "/api/v1/historical"@
            || path == "/api/v1/indicators"@ || path == "/api/v1/compare"@ {
            Some(RouteAction::ProxyAuth)
        } else {
            None
        }
    }
}

/// A route that carries the shared credential upstream.
pub open spec fn spec_requires_auth(method: Method, path: Seq<char>) -> bool {
    spec_route(method, path) == Some(RouteAction::ProxyAuth)
}

/// Looks the pair up in the route table.
pub fn classify_route(method: Method, path: &str) -> (r: Option<RouteAction>)
    ensures
        r == spec_route(method, path@),
{
    match method {
        Method::Get => {
            if str_eq(path, "/") || str_eq(path, "/health") || str_eq(path, "/api/health")
                || str_eq(path, "/api/metrics/system") {
                Some(RouteAction::Local)
            } else if str_eq(path, "/api/v1/info") {
                Some(RouteAction::ProxyPublic)
            } else if str_eq(path, "/api/timeframes/config") || str_eq(
                path,
                "/api/v1/providers/status",
            ) || str_eq(path, "/api/v1/metrics/system") || str_eq(
                path,
                "/api/v1/metrics/reconciliation",
            ) || str_eq(path, "/api/v1/metrics/data_quality") || str_eq(
                path,
                "/api/v1/timeframes/config",
            ) {
                Some(RouteAction::ProxyAuth)
            } else {
                None
            }
        },
        Method::Post => {
            if str_eq(path, "/api/analyze") || str_eq(path, "/api/v1/analyze") || str_eq(
                path,
                "/api/v1/historical",
            ) || str_eq(path, "/api/v1/indicators") || str_eq(path, "/api/v1/compare") {
                Some(RouteAction::ProxyAuth)
            } else {
                None
            }
        },
    }
}

/// Whether the matched route carries the credential.
pub fn route_requires_auth(method: Method, path: &str) -> (r: bool)
    ensures
        r == spec_requires_auth(method, path@),
{
    match classify_route(method, path) {
        Some(RouteAction::ProxyAuth) => true,
        _ => false,
    }
}

} // verus!
