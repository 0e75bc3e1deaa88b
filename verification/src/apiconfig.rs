//! The dashboard's centralized endpoint configuration: the upstream base
//! addresses, the shared credential, and the absolute URL of each endpoint
//! the dashboard calls.

use vstd::prelude::*;
use vstd::string::StringExecFns;

verus! {

/// Centralized configuration for the dashboard application.
pub struct AppConfig;

impl AppConfig {
    /// Base URL for the main upstream API.
    pub const API_BASE_URL: &'static str = "http://127.0.0.1:8080";

    /// Base URL for the timeframes service (same as the main API).
    pub const TIMEFRAMES_API_URL: &'static str = "http://127.0.0.1:8080";

    /// API key for authentication.
    pub const API_KEY: &'static str = "inbestia2025key";

    /// Health check endpoint.
    pub fn health_url() -> (r: String)
        ensures
            r@ == AppConfig::API_BASE_URL@ + "/health"@,
    {
        String::from_str(Self::API_BASE_URL).concat("/health")
    }

    /// System info endpoint.
    pub fn info_url() -> (r: String)
        ensures
            r@ == AppConfig::API_BASE_URL@ + "/api/v1/info"@,
    {
        String::from_str(Self::API_BASE_URL).concat("/api/v1/info")
    }

    /// System metrics endpoint.
    pub fn metrics_url() -> (r: String)
        ensures
            r@ == AppConfig::API_BASE_URL@ + "/api/v1/metrics/system"@,
    {
        String::from_str(Self::API_BASE_URL).concat("/api/v1/metrics/system")
    }

    /// Timeframes configuration endpoint.
    pub fn timeframes_config_url() -> (r: String)
        ensures
            r@ == AppConfig::TIMEFRAMES_API_URL@ + "/api/v1/timeframes/config"@,
    {
        String::from_str(Self::TIMEFRAMES_API_URL).concat("/api/v1/timeframes/config")
    }

    /// Analysis endpoint.
    pub fn analyze_url() -> (r: String)
        ensures
            r@ == AppConfig::API_BASE_URL@ + "/api/v1/analyze"@,
    {
        String::from_str(Self::API_BASE_URL).concat("/api/v1/analyze")
    }
}

} // verus!
