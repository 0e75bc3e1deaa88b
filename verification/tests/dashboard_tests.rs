use ghost_gateway::analysis::{classify_analyze_failure, TimeframeConfig};
use ghost_gateway::apiconfig::AppConfig;
use ghost_gateway::errors::AppError;
use ghost_gateway::text;
use ghost_gateway::timeframes::TimeframeService;
use ghost_gateway::types::{api_health_from_text, health_status_from_text};

fn loaded_service() -> TimeframeService {
    let mut service = TimeframeService::new(
        AppConfig::TIMEFRAMES_API_URL.to_string(),
        AppConfig::API_KEY.to_string(),
    );
    service.fetch_config().unwrap();
    service
}

#[test]
fn test_canonical_to_api_format() {
    let service = TimeframeService::new(
        AppConfig::TIMEFRAMES_API_URL.to_string(),
        AppConfig::API_KEY.to_string(),
    );

    assert_eq!(service.canonical_to_api_format("5m").unwrap(), "minute5");
    assert_eq!(service.canonical_to_api_format("1h").unwrap(), "hour1");
    assert_eq!(service.canonical_to_api_format("4h").unwrap(), "hour4");
    assert_eq!(service.canonical_to_api_format("1d").unwrap(), "daily");

    assert!(service.canonical_to_api_format("invalid").is_err());
}

#[test]
fn test_timeframe_mapping_rejects_unknown_tokens() {
    let service = loaded_service();
    assert_eq!(service.canonical_to_api_format("1M").unwrap(), "monthly");
    assert_eq!(
        service.canonical_to_api_format("2x").unwrap_err(),
        "Unknown timeframe: 2x"
    );
    assert_eq!(service.to_api_format("5m").unwrap(), "minute5");
    assert_eq!(service.to_api_format("1hour").unwrap(), "hour1");
    assert_eq!(service.to_api_format("monthly").unwrap(), "monthly");
    assert_eq!(service.to_api_format("bogus").unwrap_err(), "Unknown timeframe: bogus");
}

#[test]
fn test_to_api_format_needs_loaded_config() {
    let service = TimeframeService::new("http://u".to_string(), "k".to_string());
    assert!(!service.is_loaded());
    assert_eq!(service.to_api_format("5m").unwrap_err(), "Configuration not loaded");
    let service = loaded_service();
    assert!(service.is_loaded());
}

#[test]
fn test_static_table_contents() {
    let service = loaded_service();
    let tfs = service.get_timeframes().unwrap();
    assert_eq!(tfs.len(), 9);
    assert_eq!(tfs[0].name, "1m");
    assert_eq!(tfs[0].display_name, "1 Minuto");
    assert_eq!(tfs[0].duration_seconds, 60);
    assert_eq!(tfs[8].name, "1M");
    assert_eq!(tfs[8].weight_tenths, 20);
    let meta = service.get_metadata().unwrap();
    assert_eq!(meta.version, "1.0.0");
    assert_eq!(meta.total_timeframes, 9);
    assert_eq!(meta.total_aliases, 17);
    assert_eq!(meta.supported_providers.len(), 5);
}

#[test]
fn test_get_weight_by_name_and_alias() {
    let service = loaded_service();
    assert_eq!(service.get_weight("1d").unwrap(), 10);
    assert_eq!(service.get_weight("1m").unwrap(), 1);
    assert_eq!(service.get_weight("4hours").unwrap(), 7);
    assert_eq!(service.get_weight("monthly").unwrap(), 20);
    assert_eq!(service.get_weight("2x").unwrap_err(), "Timeframe not found: 2x");
}

#[test]
fn test_timeframes_by_category() {
    let service = loaded_service();
    let short = service.get_timeframes_by_category("short_term").unwrap();
    let names: Vec<&str> = short.iter().map(|t| t.name.as_str()).collect();
    assert_eq!(names, vec!["1m", "5m", "15m"]);
    let long = service.get_timeframes_by_category("long_term").unwrap();
    let names: Vec<&str> = long.iter().map(|t| t.name.as_str()).collect();
    assert_eq!(names, vec!["1d", "1w", "1M"]);
    assert_eq!(
        service.get_timeframes_by_category("whatever").unwrap_err(),
        "Unknown category: whatever"
    );
}

#[test]
fn test_multitemporal_set_is_weight_ordered() {
    let service = loaded_service();
    let tfs = service.get_multitemporal_timeframes().unwrap();
    let names: Vec<&str> = tfs.iter().map(|t| t.name.as_str()).collect();
    assert_eq!(names, vec!["15m", "1h", "4h", "1d", "1w"]);
    for pair in tfs.windows(2) {
        assert!(pair[0].weight_tenths <= pair[1].weight_tenths);
    }
}

#[test]
fn test_confluence_weighted_average() {
    let service = loaded_service();
    // scores 0.8 on 1d (weight 1.0) and 0.6 on 1h (weight 0.5):
    // (0.8*1.0 + 0.6*0.5) / 1.5 = 0.7333...
    let scores = vec![("1d".to_string(), 8000u64), ("1h".to_string(), 6000u64)];
    assert_eq!(service.calculate_confluence(&scores).unwrap(), 7333);
}

#[test]
fn test_confluence_fails_without_recognized_scores() {
    let service = loaded_service();
    let empty: Vec<(String, u64)> = Vec::new();
    assert_eq!(
        service.calculate_confluence(&empty).unwrap_err(),
        "No valid timeframes found for confluence calculation"
    );
    let unknown = vec![("2x".to_string(), 5000u64)];
    assert_eq!(
        service.calculate_confluence(&unknown).unwrap_err(),
        "No valid timeframes found for confluence calculation"
    );
}

#[test]
fn test_confluence_skips_unrecognized_scores() {
    let service = loaded_service();
    let scores = vec![("2x".to_string(), 9999u64), ("1d".to_string(), 8000u64)];
    assert_eq!(service.calculate_confluence(&scores).unwrap(), 8000);
}

#[test]
fn test_analysis_format_rejects_unknown_names() {
    let tf = TimeframeConfig {
        name: "4h".to_string(),
        display_name: "4 Horas".to_string(),
        duration_seconds: 14400,
        weight_tenths: 7,
        category: "Medium Term".to_string(),
        aliases: vec!["4h".to_string()],
        recommended_limit: 180,
        max_gap_hours: 12,
    };
    assert_eq!(tf.to_analysis_format().unwrap(), "hour4");
    let odd = TimeframeConfig { name: "2x".to_string(), ..tf };
    assert_eq!(odd.to_analysis_format().unwrap_err(), "Unknown timeframe: 2x");
}

#[test]
fn test_multitemporal_sorts_an_unordered_table() {
    let mut service = loaded_service();
    // Rearrange the loaded table so the recommended entries appear with
    // descending weights; the result must still come out ascending, and
    // entries of equal weight must keep their table order.
    let mut config = service.config.take().unwrap();
    config.timeframes.reverse();
    let mut first_daily = config.timeframes[2].clone();
    first_daily.display_name = "Diario A".to_string();
    config.timeframes.insert(0, first_daily);
    service.config = Some(config);

    let tfs = service.get_multitemporal_timeframes().unwrap();
    let names: Vec<&str> = tfs.iter().map(|t| t.name.as_str()).collect();
    assert_eq!(names, vec!["15m", "1h", "4h", "1d", "1d", "1w"]);
    for pair in tfs.windows(2) {
        assert!(pair[0].weight_tenths <= pair[1].weight_tenths);
    }
    // Stability: the duplicated daily entry stood first in the table and
    // must still stand before the untouched one.
    assert_eq!(tfs[3].display_name, "Diario A");
    assert_eq!(tfs[4].display_name, "Diario");
}

#[test]
fn test_classify_analyze_failure() {
    let msg = classify_analyze_failure(400, "raw", Some("{\"message\":\"no AAPL\"}"));
    assert_eq!(msg, "SYMBOL_NOT_FOUND:{\"message\":\"no AAPL\"}");
    let msg = classify_analyze_failure(400, "bad request", None);
    assert_eq!(msg, "Error del servidor (400): bad request");
    let msg = classify_analyze_failure(500, "boom", Some("{}"));
    assert_eq!(msg, "Error del servidor (500): boom");
}

#[test]
fn test_app_config_urls() {
    assert_eq!(AppConfig::health_url(), "http://127.0.0.1:8080/health");
    assert_eq!(AppConfig::info_url(), "http://127.0.0.1:8080/api/v1/info");
    assert_eq!(AppConfig::metrics_url(), "http://127.0.0.1:8080/api/v1/metrics/system");
    assert_eq!(
        AppConfig::timeframes_config_url(),
        "http://127.0.0.1:8080/api/v1/timeframes/config"
    );
    assert_eq!(AppConfig::analyze_url(), "http://127.0.0.1:8080/api/v1/analyze");
}

#[test]
fn test_health_status_from_text() {
    let ok = health_status_from_text("El servicio está funcionando correctamente.".to_string());
    assert_eq!(ok.status, "healthy");
    assert_eq!(ok.message, "El servicio está funcionando correctamente.");
    let bad = health_status_from_text("error interno".to_string());
    assert_eq!(bad.status, "unhealthy");
}

#[test]
fn test_api_health_from_text() {
    let h = api_health_from_text("todo funcionando correctamente", "ts".to_string());
    assert_eq!(h.status, "healthy");
    assert_eq!(h.external_api.status, "available");
    assert_eq!(h.gateway.status, "healthy");
    assert_eq!(h.gateway.version, "1.0.0");
    assert_eq!(h.timestamp, "ts");
    assert!(h.trace_id.is_none());
    let h = api_health_from_text("caido", "ts".to_string());
    assert_eq!(h.status, "unhealthy");
    assert_eq!(h.external_api.status, "unavailable");
}

#[test]
fn test_app_error_messages() {
    assert_eq!(AppError::Network("refused".to_string()).message(), "network: refused");
    assert_eq!(AppError::Http(404).message(), "http 404");
    assert_eq!(AppError::Decode.message(), "decode");
    assert_eq!(AppError::Unknown.message(), "unknown");
}

#[test]
fn test_text_utilities() {
    assert!(text::starts_with("https://x", "https://"));
    assert!(!text::starts_with("http://x", "https://"));
    assert_eq!(text::parse_u64("0"), Some(0));
    assert_eq!(text::parse_u64("+45"), Some(45));
    assert_eq!(text::parse_u64("18446744073709551615"), Some(u64::MAX));
    assert_eq!(text::parse_u64("18446744073709551616"), None);
    assert_eq!(text::parse_u64(""), None);
    assert_eq!(text::parse_u64("+"), None);
    assert_eq!(text::parse_u64("++1"), None);
    assert_eq!(text::parse_u64("12a"), None);
    assert_eq!(text::parse_u64("-1"), None);
    assert_eq!(text::u64_to_string(0), "0");
    assert_eq!(text::u64_to_string(90210), "90210");
    assert_eq!(text::trim("  a b \t"), "a b");
    assert_eq!(text::trim("\u{A0}origin\u{3000}"), "origin");
    assert_eq!(text::split_trim_commas("a, b ,, c"), vec!["a", "b", "", "c"]);
    assert_eq!(text::split_trim_commas(""), vec![""]);
    assert!(text::contains_sub("abcdef", "cde"));
    assert!(!text::contains_sub("abcdef", "cdf"));
    assert!(text::contains_sub("abc", ""));
}
