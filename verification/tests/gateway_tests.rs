use ghost_gateway::config::{Config, ConfigError};
use ghost_gateway::health::{
    api_health_response, get_active_connections_count, get_available_memory_mb,
    get_memory_usage_mb, get_uptime_seconds, health_check_response, system_metrics_response,
    HealthProbe, MetricsFetch,
};
use ghost_gateway::json::error_envelope;
use ghost_gateway::proxy::{build_outbound, handle_upstream, new_trace_id, GatewayReply, OutboundRequest, UpstreamOutcome};
use ghost_gateway::routes::{classify_route, route_requires_auth, Method, RouteAction};

fn some(s: &str) -> Option<String> {
    Some(s.to_string())
}

fn full_config() -> Config {
    Config::from_settings(
        some("http://upstream:8080"),
        some("secret-key"),
        None,
        None,
        None,
        None,
        None,
    )
    .unwrap()
}

#[test]
fn test_missing_required_settings_fail_construction() {
    let r = Config::from_settings(None, some("k"), None, None, None, None, None);
    assert_eq!(r.unwrap_err(), ConfigError::MissingApiUrl);
    let r = Config::from_settings(some("http://u"), None, None, None, None, None, None);
    assert_eq!(r.unwrap_err(), ConfigError::MissingApiKey);
}

#[test]
fn test_defaults_applied() {
    let c = full_config();
    assert_eq!(c.bind_address, "127.0.0.1:8085");
    assert_eq!(c.request_timeout_secs, 30);
    assert_eq!(c.max_request_size, 2097152);
    assert_eq!(
        c.cors_allowed_origins,
        vec!["http://127.0.0.1:3001".to_string(), "http://localhost:3001".to_string()]
    );
    assert_eq!(c.log_level, "info");
}

#[test]
fn test_numeric_settings_parsed_or_defaulted() {
    let c = Config::from_settings(
        some("http://u"),
        some("k"),
        some("0.0.0.0:9000"),
        some("45"),
        some("1024"),
        some(" a , b,c "),
        some("debug"),
    )
    .unwrap();
    assert_eq!(c.bind_address, "0.0.0.0:9000");
    assert_eq!(c.request_timeout_secs, 45);
    assert_eq!(c.max_request_size, 1024);
    assert_eq!(c.cors_allowed_origins, vec!["a", "b", "c"]);
    assert_eq!(c.log_level, "debug");

    let c = Config::from_settings(
        some("http://u"),
        some("k"),
        None,
        some("not-a-number"),
        some("-5"),
        None,
        None,
    )
    .unwrap();
    assert_eq!(c.request_timeout_secs, 30);
    assert_eq!(c.max_request_size, 2097152);

    // A leading plus sign is part of a decimal numeral.
    let c = Config::from_settings(some("http://u"), some("k"), None, some("+45"), None, None, None)
        .unwrap();
    assert_eq!(c.request_timeout_secs, 45);
}

#[test]
fn test_validate_accepts_http_and_https() {
    let mut c = full_config();
    assert!(c.validate().is_ok());
    c.api_base_url = "https://upstream".to_string();
    assert!(c.validate().is_ok());
}

#[test]
fn test_validate_rejects_empty_key_and_bad_scheme() {
    let mut c = full_config();
    c.api_key = String::new();
    assert_eq!(c.validate().unwrap_err(), ConfigError::EmptyApiKey);
    assert_eq!(c.validate().unwrap_err().message(), "API key cannot be empty");

    let mut c = full_config();
    c.api_base_url = "ftp://upstream".to_string();
    assert_eq!(c.validate().unwrap_err(), ConfigError::InvalidBaseUrl);
    assert_eq!(
        c.validate().unwrap_err().message(),
        "API base URL must start with http:// or https://"
    );

    // A bare "http" prefix without the scheme separator is not enough.
    let mut c = full_config();
    c.api_base_url = "httpupstream".to_string();
    assert_eq!(c.validate().unwrap_err(), ConfigError::InvalidBaseUrl);
}

#[test]
fn test_cors_wildcard_detection() {
    let c = Config::from_settings(
        some("http://u"),
        some("k"),
        None,
        None,
        None,
        some("http://a, *"),
        None,
    )
    .unwrap();
    assert!(c.cors_allows_any_origin());
    assert!(!full_config().cors_allows_any_origin());
}

#[test]
fn test_route_table() {
    assert_eq!(classify_route(Method::Get, "/"), Some(RouteAction::Local));
    assert_eq!(classify_route(Method::Get, "/health"), Some(RouteAction::Local));
    assert_eq!(classify_route(Method::Get, "/api/health"), Some(RouteAction::Local));
    assert_eq!(classify_route(Method::Get, "/api/metrics/system"), Some(RouteAction::Local));
    assert_eq!(classify_route(Method::Get, "/api/v1/info"), Some(RouteAction::ProxyPublic));
    assert_eq!(classify_route(Method::Post, "/api/analyze"), Some(RouteAction::ProxyAuth));
    assert_eq!(classify_route(Method::Post, "/api/v1/analyze"), Some(RouteAction::ProxyAuth));
    assert_eq!(classify_route(Method::Post, "/api/v1/historical"), Some(RouteAction::ProxyAuth));
    assert_eq!(classify_route(Method::Post, "/api/v1/indicators"), Some(RouteAction::ProxyAuth));
    assert_eq!(classify_route(Method::Post, "/api/v1/compare"), Some(RouteAction::ProxyAuth));
    assert_eq!(
        classify_route(Method::Get, "/api/v1/providers/status"),
        Some(RouteAction::ProxyAuth)
    );
    assert_eq!(classify_route(Method::Get, "/api/v1/metrics/system"), Some(RouteAction::ProxyAuth));
    assert_eq!(
        classify_route(Method::Get, "/api/v1/metrics/reconciliation"),
        Some(RouteAction::ProxyAuth)
    );
    assert_eq!(
        classify_route(Method::Get, "/api/v1/metrics/data_quality"),
        Some(RouteAction::ProxyAuth)
    );
    assert_eq!(
        classify_route(Method::Get, "/api/timeframes/config"),
        Some(RouteAction::ProxyAuth)
    );
    assert_eq!(
        classify_route(Method::Get, "/api/v1/timeframes/config"),
        Some(RouteAction::ProxyAuth)
    );
    assert_eq!(classify_route(Method::Get, "/nope"), None);
    assert_eq!(classify_route(Method::Post, "/health"), None);
    assert!(!route_requires_auth(Method::Get, "/api/v1/info"));
    assert!(route_requires_auth(Method::Post, "/api/v1/analyze"));
}

#[test]
fn test_public_route_has_no_authorization_header() {
    let with_auth = route_requires_auth(Method::Get, "/api/v1/info");
    let out = build_outbound(
        "http://upstream:8080",
        "secret-key",
        Method::Get,
        "/api/v1/info?x=1",
        Vec::new(),
        with_auth,
        2097152,
    );
    assert_eq!(out.url, "http://upstream:8080/api/v1/info?x=1");
    assert!(out.authorization.is_none());
    assert!(out.content_type.is_none());
}

#[test]
fn test_auth_route_carries_single_bearer_header() {
    let with_auth = route_requires_auth(Method::Post, "/api/v1/analyze");
    let out = build_outbound(
        "http://upstream:8080",
        "secret-key",
        Method::Post,
        "/api/v1/analyze",
        b"{\"symbol\":\"AAPL\"}".to_vec(),
        with_auth,
        2097152,
    );
    assert_eq!(out.authorization.as_deref(), Some("Bearer secret-key"));
    assert_eq!(out.content_type.as_deref(), Some("application/json"));
    assert_eq!(out.body, b"{\"symbol\":\"AAPL\"}".to_vec());
}

#[test]
fn test_body_capped_at_max_size() {
    let out: OutboundRequest = build_outbound(
        "http://u",
        "k",
        Method::Post,
        "/api/v1/analyze",
        vec![1u8, 2, 3, 4, 5],
        true,
        3,
    );
    assert_eq!(out.body, vec![1u8, 2, 3]);
}

#[test]
fn test_upstream_response_relayed_verbatim() {
    let outcome = UpstreamOutcome::Response { status: 418, body: vec![0u8, 159, 146, 150] };
    match handle_upstream(outcome, "0000-trace") {
        GatewayReply::Relay { status, body } => {
            assert_eq!(status, 418);
            assert_eq!(body, vec![0u8, 159, 146, 150]);
        }
        GatewayReply::ErrorEnvelope { .. } => panic!("expected a verbatim relay"),
    }
}

#[test]
fn test_transport_failure_yields_502_envelope() {
    let trace = new_trace_id();
    match handle_upstream(UpstreamOutcome::TransportError, &trace) {
        GatewayReply::ErrorEnvelope { status, body } => {
            assert_eq!(status, 502);
            let v: serde_json::Value = serde_json::from_str(&body).unwrap();
            assert_eq!(v["error"]["code"].as_str(), Some("UPSTREAM_TIMEOUT"));
            assert_eq!(v["error"]["message"].as_str(), Some("Servicio no disponible"));
            let tid = v["error"]["trace_id"].as_str().unwrap();
            assert_eq!(tid, trace);
            assert_eq!(tid.len(), 36);
            for (i, c) in tid.chars().enumerate() {
                if i == 8 || i == 13 || i == 18 || i == 23 {
                    assert_eq!(c, '-');
                } else {
                    assert!(c.is_ascii_hexdigit() && !c.is_ascii_uppercase());
                }
            }
        }
        GatewayReply::Relay { .. } => panic!("expected the synthesized error envelope"),
    }
}

#[test]
fn test_trace_ids_are_fresh() {
    assert_ne!(new_trace_id(), new_trace_id());
}

#[test]
fn test_error_envelope_escapes_fields() {
    let body = error_envelope("CODE", "a \"quoted\" \\ line\n", "t-1");
    assert_eq!(
        body,
        "{\"error\":{\"code\":\"CODE\",\"message\":\"a \\\"quoted\\\" \\\\ line\\n\",\"trace_id\":\"t-1\"}}"
    );
    let v: serde_json::Value = serde_json::from_str(&body).unwrap();
    assert_eq!(v["error"]["message"].as_str(), Some("a \"quoted\" \\ line\n"));
}

#[test]
fn test_health_endpoint_always_200() {
    let (status, body) = health_check_response("0.1.0", "2025-01-01T00:00:00Z", 17);
    assert_eq!(status, 200);
    assert_eq!(
        body,
        "{\"service\":\"ghost-dashboard-gateway\",\"status\":\"healthy\",\"timestamp\":\"2025-01-01T00:00:00Z\",\"uptime_secs\":17,\"version\":\"0.1.0\"}"
    );
    let v: serde_json::Value = serde_json::from_str(&body).unwrap();
    assert_eq!(v["status"].as_str(), Some("healthy"));
}

#[test]
fn test_api_health_follows_upstream_state() {
    let probe = HealthProbe::Response { status: 200 };
    let (status, body) = api_health_response(&probe, "0.1.0", "t", 5, "id");
    assert_eq!(status, 200);
    let v: serde_json::Value = serde_json::from_str(&body).unwrap();
    assert_eq!(v["status"].as_str(), Some("healthy"));
    assert_eq!(v["external_api"]["status"].as_str(), Some("available"));

    let probe = HealthProbe::Response { status: 503 };
    let (status, body) = api_health_response(&probe, "0.1.0", "t", 5, "id");
    assert_eq!(status, 503);
    let v: serde_json::Value = serde_json::from_str(&body).unwrap();
    assert_eq!(v["status"].as_str(), Some("degraded"));
    assert_eq!(v["external_api"]["http_status"].as_u64(), Some(503));

    let probe = HealthProbe::Unreachable { error: "connection refused".to_string() };
    let (status, body) = api_health_response(&probe, "0.1.0", "t", 5, "id");
    assert_eq!(status, 503);
    let v: serde_json::Value = serde_json::from_str(&body).unwrap();
    assert_eq!(v["status"].as_str(), Some("unhealthy"));
    assert_eq!(v["external_api"]["status"].as_str(), Some("unavailable"));
    assert_eq!(v["external_api"]["error"].as_str(), Some("connection refused"));
}

#[test]
fn test_system_metrics_merges_or_degrades() {
    let fetch = MetricsFetch::Fetched { body: "{\"cpu_usage\":1.5}".to_string() };
    let (status, body) = system_metrics_response(&fetch, 9, "t", "id");
    assert_eq!(status, 200);
    let v: serde_json::Value = serde_json::from_str(&body).unwrap();
    assert_eq!(v["status"].as_str(), Some("success"));
    assert_eq!(v["external_api_metrics"]["cpu_usage"].as_f64(), Some(1.5));
    assert_eq!(v["gateway_metrics"]["uptime_secs"].as_u64(), Some(9));
    assert_eq!(v["gateway_metrics"]["memory"]["used_mb"].as_u64(), Some(0));

    let fetch = MetricsFetch::HttpError { status: 500 };
    let (status, body) = system_metrics_response(&fetch, 9, "t", "id");
    assert_eq!(status, 200);
    let v: serde_json::Value = serde_json::from_str(&body).unwrap();
    assert_eq!(v["status"].as_str(), Some("partial"));
    assert!(v["external_api_metrics"].is_null());
    assert_eq!(v["error"].as_str(), Some("External API returned status: 500"));

    let fetch = MetricsFetch::ParseFailed { error: "bad json".to_string() };
    let (_, body) = system_metrics_response(&fetch, 9, "t", "id");
    let v: serde_json::Value = serde_json::from_str(&body).unwrap();
    assert_eq!(v["error"].as_str(), Some("Failed to parse external metrics: bad json"));

    let fetch = MetricsFetch::Unreachable { error: "timed out".to_string() };
    let (_, body) = system_metrics_response(&fetch, 9, "t", "id");
    let v: serde_json::Value = serde_json::from_str(&body).unwrap();
    assert_eq!(v["error"].as_str(), Some("Failed to connect to external API: timed out"));
    assert_eq!(v["status"].as_str(), Some("partial"));
}

#[test]
fn test_metrics_placeholders_report_zero() {
    assert_eq!(get_memory_usage_mb(), 0);
    assert_eq!(get_available_memory_mb(), 0);
    assert_eq!(get_active_connections_count(), 0);
    assert_eq!(get_uptime_seconds(100, 175), 75);
    assert_eq!(get_uptime_seconds(200, 100), 0);
}
