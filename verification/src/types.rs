//! The dashboard's domain types for the upstream's answers, and the small
//! decisions that turn raw response text into them.

use vstd::prelude::*;
use vstd::string::StringExecFns;
use crate::text::{contains_sub, occurs_at};

verus! {

/// Information about the API.
#[derive(Debug, Clone, PartialEq)]
pub struct ApiInfo {
    pub name: String,
    pub version: String,
    pub description: String,
    pub data_mode: String,
    pub authentication: Authentication,
    pub endpoints: Vec<Endpoint>,
}

#[derive(Debug, Clone, PartialEq)]
pub struct Authentication {
    pub auth_type: String,
    pub methods: Vec<AuthMethod>,
    pub note: String,
}

#[derive(Debug, Clone, PartialEq)]
pub struct AuthMethod {
    pub name: String,
    pub location: String,
    pub format: String,
}

#[derive(Debug, Clone, PartialEq)]
pub struct Endpoint {
    pub description: String,
    pub method: String,
    pub path: String,
    pub requires_auth: bool,
}

/// The health state of the API as the dashboard displays it.
#[derive(Debug, Clone, PartialEq)]
pub struct ApiHealth {
    pub status: String,
    pub external_api: ExternalApiStatus,
    pub gateway: GatewayStatus,
    pub timestamp: String,
    pub trace_id: Option<String>,
}

#[derive(Debug, Clone, PartialEq)]
pub struct ExternalApiStatus {
    pub response_time_ms: u64,
    pub status: String,
}

#[derive(Debug, Clone, PartialEq)]
pub struct GatewayStatus {
    pub status: String,
    pub uptime_secs: u64,
    pub version: String,
}

#[derive(Debug, Clone, PartialEq)]
pub struct MemoryMetrics {
    pub used_mb: u64,
    pub available_mb: u64,
}

/// The state of one data provider.
#[derive(Debug, Clone, PartialEq)]
pub struct ProviderStatus {
    pub name: String,
    pub type_code: String,
    pub available: bool,
    pub active: bool,
    pub rate_limit_remaining: Option<u32>,
    pub rate_limit_reset: Option<String>,
    pub response_time_ms: u64,
}

/// A reduced health view: a verdict and the raw message behind it.
#[derive(Debug, Clone, PartialEq)]
pub struct SimpleHealthStatus {
    pub status: String,
    pub message: String,
}

/// Whether the health text reports a working service: the upstream's
/// health endpoint answers plain text, considered healthy exactly when it
/// contains the working-service phrase.
pub open spec fn spec_text_healthy(text: Seq<char>) -> bool {
    exists|i: int| occurs_at(text, "funcionando correctamente"@, i)
}

/// The status the raw health answer denotes: `healthy` when the
/// working-service phrase occurs in it, `unhealthy` otherwise; the raw
/// answer is kept as the message.
pub fn health_status_from_text(text: String) -> (r: SimpleHealthStatus)
    ensures
        r.status@ == if spec_text_healthy(text@) {
            "healthy"@
        } else {
            "unhealthy"@
        },
        r.message == text,
{
    let healthy = contains_sub(text.as_str(), "funcionando correctamente");
    let status = if healthy {
        String::from_str("healthy")
    } else {
        String::from_str("unhealthy")
    };
    SimpleHealthStatus { status, message: text }
}

/// Builds the dashboard's health view from the health endpoint's plain
/// text: overall and gateway status by the same verdict, the upstream
/// marked available exactly when healthy, fixed defaults for what the
/// endpoint does not report.
pub fn api_health_from_text(text: &str, timestamp: String) -> (r: ApiHealth)
    ensures
        r.status@ == if spec_text_healthy(text@) {
            "healthy"@
        } else {
            "unhealthy"@
        },
        r.external_api.status@ == if spec_text_healthy(text@) {
            "available"@
        } else {
            "unavailable"@
        },
        r.external_api.response_time_ms == 0,
        r.gateway.status@ == r.status@,
        r.gateway.version@ == "1.0.0"@,
        r.gateway.uptime_secs == 0,
        r.timestamp == timestamp,
        r.trace_id is None,
{
    let healthy = contains_sub(text, "funcionando correctamente");
    let status = if healthy {
        "healthy"
    } else {
        "unhealthy"
    };
    ApiHealth {
        status: status.to_owned(),
        external_api: ExternalApiStatus {
            response_time_ms: 0,
            status: if healthy {
                String::from_str("available")
            } else {
                String::from_str("unavailable")
            },
        },
        gateway: GatewayStatus {
            status: status.to_owned(),
            version: String::from_str("1.0.0"),
            uptime_secs: 0,
        },
        timestamp,
        trace_id: None,
    }
}

} // verus!
