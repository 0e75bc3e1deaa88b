//! The composite health and metrics views: the gateway's own health answer
//! (which never consults the upstream), the upstream-checking health
//! answer, and the merged system-metrics answer. Each response body is a
//! JSON envelope built here character by character against a spec.

use vstd::prelude::*;
use vstd::string::StringExecFns;
use crate::json::{append_json_string, json_string};
use crate::text::{dec_digits, u64_to_string};

verus! {

/// Seconds elapsed since the start instant, zero if the clock ran backward.
pub fn get_uptime_seconds(start_secs: u64, now_secs: u64) -> (r: u64)
    ensures
        r == if now_secs >= start_secs {
            now_secs - start_secs
        } else {
            0
        },
{
    if now_secs >= start_secs {
        now_secs - start_secs
    } else {
        0
    }
}

/// Gateway process memory in use; a placeholder that reports zero.
pub fn get_memory_usage_mb() -> (r: u64)
    ensures
        r == 0,
{
    0
}

/// Memory still available to the gateway process; a placeholder that
/// reports zero.
pub fn get_available_memory_mb() -> (r: u64)
    ensures
        r == 0,
{
    0
}

/// Open inbound connections; a placeholder that reports zero.
pub fn get_active_connections_count() -> (r: u32)
    ensures
        r == 0,
{
    0
}

/// The local health body: the gateway reports itself healthy, with its
/// service name, version, the given timestamp and its uptime.
pub open spec fn spec_local_health_body(
    version: Seq<char>,
    timestamp: Seq<char>,
    uptime_secs: nat,
) -> Seq<char> {
    "{\"service\":\"ghost-dashboard-gateway\",\"status\":\"healthy\",\"timestamp\":"@
        + json_string(timestamp) + ",\"uptime_secs\":"@ + dec_digits(uptime_secs) + ",\"version\":"@
        + json_string(version) + "}"@
}

/// The gateway's own health answer. It always reports HTTP 200 and the
/// healthy body: no upstream state is consulted, as the signature shows.
pub fn health_check_response(version: &str, timestamp: &str, uptime_secs: u64) -> (r: (u16, String))
    ensures
        r.0 == 200,
        r.1@ == spec_local_health_body(version@, timestamp@, uptime_secs as nat),
{
    let mut out = String::new();
    out.append("{\"service\":\"ghost-dashboard-gateway\",\"status\":\"healthy\",\"timestamp\":");
    append_json_string(&mut out, timestamp);
    out.append(",\"uptime_secs\":");
    let u = u64_to_string(uptime_secs);
    out.append(u.as_str());
    out.append(",\"version\":");
    append_json_string(&mut out, version);
    out.append("}");
    assert(out@ =~= spec_local_health_body(version@, timestamp@, uptime_secs as nat));
    (200, out)
}

/// What probing the upstream's own health endpoint yielded: an HTTP answer
/// with its status, or a transport failure with its description.
pub enum HealthProbe {
    Response { status: u16 },
    Unreachable { error: String },
}

/// An HTTP status in the success range.
pub open spec fn spec_is_success(status: u16) -> bool {
    200 <= status < 300
}

/// The status code of the composite health answer: 200 exactly when the
/// upstream answered with a success status, 503 otherwise.
pub open spec fn spec_api_health_code(probe: HealthProbe) -> u16 {
    match probe {
        HealthProbe::Response { status } => if spec_is_success(status) {
            200
        } else {
            503
        },
        HealthProbe::Unreachable { .. } => 503,
    }
}

/// The composite health body when the upstream answered with a success
/// status: overall healthy, the upstream marked available.
pub open spec fn spec_api_health_body_healthy(
    version: Seq<char>,
    timestamp: Seq<char>,
    uptime_secs: nat,
    trace_id: Seq<char>,
) -> Seq<char> {
    "{\"external_api\":{\"response_time_ms\":0,\"status\":\"available\"},\"gateway\":{\"status\":\"healthy\",\"uptime_secs\":"@
        + dec_digits(uptime_secs) + ",\"version\":"@ + json_string(version)
        + "},\"status\":\"healthy\",\"timestamp\":"@ + json_string(timestamp) + ",\"trace_id\":"@
        + json_string(trace_id) + "}"@
}

/// The composite health body when the upstream answered outside the
/// success range: overall degraded, the upstream's status embedded.
pub open spec fn spec_api_health_body_degraded(
    status: nat,
    version: Seq<char>,
    timestamp: Seq<char>,
    trace_id: Seq<char>,
) -> Seq<char> {
    "{\"error\":\"External API returned status: "@ + dec_digits(status)
        + "\",\"external_api\":{\"http_status\":"@ + dec_digits(status)
        + ",\"status\":\"error\"},\"gateway\":{\"status\":\"healthy\",\"version\":"@ + json_string(
        version,
    ) + "},\"status\":\"degraded\",\"timestamp\":"@ + json_string(timestamp) + ",\"trace_id\":"@
        + json_string(trace_id) + "}"@
}

/// The composite health body when the upstream could not be reached:
/// overall unhealthy, the transport error embedded.
pub open spec fn spec_api_health_body_unhealthy(
    error: Seq<char>,
    version: Seq<char>,
    timestamp: Seq<char>,
    trace_id: Seq<char>,
) -> Seq<char> {
    "{\"error\":"@ + json_string("Failed to connect to external API: "@ + error)
        + ",\"external_api\":{\"error\":"@ + json_string(error)
        + ",\"status\":\"unavailable\"},\"gateway\":{\"status\":\"healthy\",\"version\":"@
        + json_string(version) + "},\"status\":\"unhealthy\",\"timestamp\":"@ + json_string(
        timestamp,
    ) + ",\"trace_id\":"@ + json_string(trace_id) + "}"@
}

/// The composite health answer: HTTP 200 with the healthy envelope exactly
/// when the upstream probe was a success status; HTTP 503 with the degraded
/// envelope on any other upstream status; HTTP 503 with the unhealthy
/// envelope when the upstream was unreachable.
pub fn api_health_response(
    probe: &HealthProbe,
    version: &str,
    timestamp: &str,
    uptime_secs: u64,
    trace_id: &str,
) -> (r: (u16, String))
    ensures
        r.0 == spec_api_health_code(*probe),
        r.0 == 200 <==> (*probe matches HealthProbe::Response { status } && spec_is_success(
            status,
        )),
        *probe matches HealthProbe::Response { status } ==> r.1@ == if spec_is_success(status) {
            spec_api_health_body_healthy(version@, timestamp@, uptime_secs as nat, trace_id@)
        } else {
            spec_api_health_body_degraded(status as nat, version@, timestamp@, trace_id@)
        },
        *probe matches HealthProbe::Unreachable { error } ==> r.1@
            == spec_api_health_body_unhealthy(error@, version@, timestamp@, trace_id@),
{
    match probe {
        HealthProbe::Response { status } => {
            let status = *status;
            if 200 <= status && status < 300 {
                let mut out = String::new();
                out.append(
                    "{\"external_api\":{\"response_time_ms\":0,\"status\":\"available\"},\"gateway\":{\"status\":\"healthy\",\"uptime_secs\":",
                );
                let u = u64_to_string(uptime_secs);
                out.append(u.as_str());
                out.append(",\"version\":");
                append_json_string(&mut out, version);
                out.append("},\"status\":\"healthy\",\"timestamp\":");
                append_json_string(&mut out, timestamp);
                out.append(",\"trace_id\":");
                append_json_string(&mut out, trace_id);
                out.append("}");
                assert(out@ =~= spec_api_health_body_healthy(
                    version@,
                    timestamp@,
                    uptime_secs as nat,
                    trace_id@,
                ));
                (200, out)
            } else {
                let mut out = String::new();
                out.append("{\"error\":\"External API returned status: ");
                let st = u64_to_string(status as u64);
                out.append(st.as_str());
                out.append("\",\"external_api\":{\"http_status\":");
                out.append(st.as_str());
                out.append(",\"status\":\"error\"},\"gateway\":{\"status\":\"healthy\",\"version\":");
                append_json_string(&mut out, version);
                out.append("},\"status\":\"degraded\",\"timestamp\":");
                append_json_string(&mut out, timestamp);
                out.append(",\"trace_id\":");
                append_json_string(&mut out, trace_id);
                out.append("}");
                assert(out@ =~= spec_api_health_body_degraded(
                    status as nat,
                    version@,
                    timestamp@,
                    trace_id@,
                ));
                (503, out)
            }
        },
        HealthProbe::Unreachable { error } => {
            let mut out = String::new();
            out.append("{\"error\":");
            let prefixed = String::from_str("Failed to connect to external API: ").concat(
                error.as_str(),
            );
            append_json_string(&mut out, prefixed.as_str());
            out.append(",\"external_api\":{\"error\":");
            append_json_string(&mut out, error.as_str());
            out.append(",\"status\":\"unavailable\"},\"gateway\":{\"status\":\"healthy\",\"version\":");
            append_json_string(&mut out, version);
            out.append("},\"status\":\"unhealthy\",\"timestamp\":");
            append_json_string(&mut out, timestamp);
            out.append(",\"trace_id\":");
            append_json_string(&mut out, trace_id);
            out.append("}");
            assert(out@ =~= spec_api_health_body_unhealthy(
                error@,
                version@,
                timestamp@,
                trace_id@,
            ));
            (503, out)
        },
    }
}

/// What fetching the upstream's system metrics yielded: a successfully
/// parsed JSON document (re-rendered by the caller's decoder), a body that
/// did not parse, a non-success status, or a transport failure.
pub enum MetricsFetch {
    Fetched { body: String },
    ParseFailed { error: String },
    HttpError { status: u16 },
    Unreachable { error: String },
}

/// The gateway's own metrics block: placeholder readings, all zero but the
/// uptime.
pub open spec fn spec_gateway_metrics(uptime_secs: nat) -> Seq<char> {
    "{\"active_connections\":0,\"cpu\":{\"usage_percent\":0.0},\"memory\":{\"available_mb\":0,\"used_mb\":0},\"uptime_secs\":"@
        + dec_digits(uptime_secs) + "}"@
}

/// The merged metrics body on success: the upstream document embedded
/// beside the gateway's own block.
pub open spec fn spec_metrics_body_success(
    upstream: Seq<char>,
    uptime_secs: nat,
    timestamp: Seq<char>,
    trace_id: Seq<char>,
) -> Seq<char> {
    "{\"external_api_metrics\":"@ + upstream + ",\"gateway_metrics\":"@ + spec_gateway_metrics(
        uptime_secs,
    ) + ",\"status\":\"success\",\"timestamp\":"@ + json_string(timestamp) + ",\"trace_id\":"@
        + json_string(trace_id) + "}"@
}

/// The metrics body when only the gateway's block is available: the error
/// named, the upstream block null, status partial.
pub open spec fn spec_metrics_body_partial(
    error: Seq<char>,
    uptime_secs: nat,
    timestamp: Seq<char>,
    trace_id: Seq<char>,
) -> Seq<char> {
    "{\"error\":"@ + json_string(error)
        + ",\"external_api_metrics\":null,\"gateway_metrics\":"@ + spec_gateway_metrics(
        uptime_secs,
    ) + ",\"status\":\"partial\",\"timestamp\":"@ + json_string(timestamp) + ",\"trace_id\":"@
        + json_string(trace_id) + "}"@
}

/// The error text reported for each way the metrics fetch can fall short.
pub open spec fn spec_metrics_error_text(fetch: MetricsFetch) -> Seq<char> {
    match fetch {
        MetricsFetch::Fetched { .. } => Seq::empty(),
        MetricsFetch::ParseFailed { error } => "Failed to parse external metrics: "@ + error@,
        MetricsFetch::HttpError { status } => "External API returned status: "@ + dec_digits(
            status as nat,
        ),
        MetricsFetch::Unreachable { error } => "Failed to connect to external API: "@ + error@,
    }
}

fn append_gateway_metrics(out: &mut String, uptime_secs: u64)
    ensures
        final(out)@ == old(out)@ + spec_gateway_metrics(uptime_secs as nat),
{
    out.append(
        "{\"active_connections\":0,\"cpu\":{\"usage_percent\":0.0},\"memory\":{\"available_mb\":0,\"used_mb\":0},\"uptime_secs\":",
    );
    let u = u64_to_string(uptime_secs);
    out.append(u.as_str());
    out.append("}");
    assert(final(out)@ =~= old(out)@ + spec_gateway_metrics(uptime_secs as nat));
}

/// The merged system-metrics answer. It always reports HTTP 200: a fetched
/// upstream document is embedded beside the gateway's block under status
/// `success`; every shortfall keeps the gateway's block, reports the
/// upstream block as null and the named error under status `partial`.
pub fn system_metrics_response(
    fetch: &MetricsFetch,
    uptime_secs: u64,
    timestamp: &str,
    trace_id: &str,
) -> (r: (u16, String))
    ensures
        r.0 == 200,
        *fetch matches MetricsFetch::Fetched { body } ==> r.1@ == spec_metrics_body_success(
            body@,
            uptime_secs as nat,
            timestamp@,
            trace_id@,
        ),
        !(*fetch matches MetricsFetch::Fetched { .. }) ==> r.1@ == spec_metrics_body_partial(
            spec_metrics_error_text(*fetch),
            uptime_secs as nat,
            timestamp@,
            trace_id@,
        ),
{
    match fetch {
        MetricsFetch::Fetched { body } => {
            let mut out = String::new();
            out.append("{\"external_api_metrics\":");
            out.append(body.as_str());
            out.append(",\"gateway_metrics\":");
            append_gateway_metrics(&mut out, uptime_secs);
            out.append(",\"status\":\"success\",\"timestamp\":");
            append_json_string(&mut out, timestamp);
            out.append(",\"trace_id\":");
            append_json_string(&mut out, trace_id);
            out.append("}");
            assert(out@ =~= spec_metrics_body_success(
                body@,
                uptime_secs as nat,
                timestamp@,
                trace_id@,
            ));
            (200, out)
        },
        MetricsFetch::ParseFailed { error } => {
            let text = String::from_str("Failed to parse external metrics: ").concat(
                error.as_str(),
            );
            let out = partial_metrics_body(text.as_str(), uptime_secs, timestamp, trace_id);
            (200, out)
        },
        MetricsFetch::HttpError { status } => {
            let st = u64_to_string(*status as u64);
            let text = String::from_str("External API returned status: ").concat(st.as_str());
            let out = partial_metrics_body(text.as_str(), uptime_secs, timestamp, trace_id);
            (200, out)
        },
        MetricsFetch::Unreachable { error } => {
            let text = String::from_str("Failed to connect to external API: ").concat(
                error.as_str(),
            );
            let out = partial_metrics_body(text.as_str(), uptime_secs, timestamp, trace_id);
            (200, out)
        },
    }
}

fn partial_metrics_body(error: &str, uptime_secs: u64, timestamp: &str, trace_id: &str) -> (r:
    String)
    ensures
        r@ == spec_metrics_body_partial(error@, uptime_secs as nat, timestamp@, trace_id@),
{
    let mut out = String::new();
    out.append("{\"error\":");
    append_json_string(&mut out, error);
    out.append(",\"external_api_metrics\":null,\"gateway_metrics\":");
    append_gateway_metrics(&mut out, uptime_secs);
    out.append(",\"status\":\"partial\",\"timestamp\":");
    append_json_string(&mut out, timestamp);
    out.append(",\"trace_id\":");
    append_json_string(&mut out, trace_id);
    out.append("}");
    assert(out@ =~= spec_metrics_body_partial(
        error@,
        uptime_secs as nat,
        timestamp@,
        trace_id@,
    ));
    out
}

} // verus!
