//! The asset-analysis exchange: the request the dashboard sends, the
//! shapes it reads back, and the classification of a failed analysis call.

use vstd::prelude::*;
use vstd::string::StringExecFns;
use crate::text::{dec_digits, u64_to_string};
use crate::timeframes::{canonical_token_to_api_format, spec_api_format};

verus! {

/// What the dashboard asks the analysis endpoint.
#[derive(Debug, Clone, PartialEq)]
pub struct AnalysisRequest {
    pub symbol: String,
    pub timeframe: String,
    pub include_fundamental: bool,
}

/// One timeframe entry of the analysis configuration document. The weight
/// is in tenths.
#[derive(Debug, Clone, PartialEq)]
pub struct TimeframeConfig {
    pub name: String,
    pub display_name: String,
    pub duration_seconds: u32,
    pub weight_tenths: u32,
    pub category: String,
    pub aliases: Vec<String>,
    pub recommended_limit: u32,
    pub max_gap_hours: u32,
}

impl TimeframeConfig {
    /// The upstream enum name for this entry's canonical token; an
    /// unrecognized name is an explicit error, never a silent fallback.
    pub fn to_analysis_format(&self) -> (r: Result<String, String>)
        ensures
            match r {
                Ok(s) => spec_api_format(self.name@) == Some(s@),
                Err(e) => spec_api_format(self.name@) is None && e@ == "Unknown timeframe: "@
                    + self.name@,
            },
    {
        canonical_token_to_api_format(self.name.as_str())
    }
}

/// Table-wide metadata of the analysis configuration document.
#[derive(Debug, Clone, PartialEq)]
pub struct TimeframesMetadata {
    pub version: String,
    pub last_updated: String,
    pub total_timeframes: u32,
    pub total_aliases: u32,
    pub supported_providers: Vec<String>,
}

/// The body the analysis endpoint answers when a symbol is unknown.
#[derive(Debug, Clone, PartialEq)]
pub struct SymbolErrorResponse {
    pub message: String,
    pub suggestions: Vec<String>,
}

/// The error text for a failed analysis call: a symbol-not-found answer
/// (status 400 with a recognisable body, re-rendered by the caller's
/// decoder) keeps its document under the `SYMBOL_NOT_FOUND:` tag; anything
/// else names the status and the raw body.
pub fn classify_analyze_failure(
    status: u16,
    error_text: &str,
    symbol_error_json: Option<&str>,
) -> (r: String)
    ensures
        status == 400 ==> (symbol_error_json matches Some(j) ==> r@ == "SYMBOL_NOT_FOUND:"@ + j@),
        (status != 400 || symbol_error_json is None) ==> r@ == "Error del servidor ("@
            + dec_digits(status as nat) + "): "@ + error_text@,
{
    if status == 400 {
        if let Some(json) = symbol_error_json {
            return String::from_str("SYMBOL_NOT_FOUND:").concat(json);
        }
    }
    let st = u64_to_string(status as u64);
    let mut out = String::from_str("Error del servidor (");
    out.append(st.as_str());
    out.append("): ");
    out.append(error_text);
    proof {
        assert(out@ =~= "Error del servidor ("@ + dec_digits(status as nat) + "): "@
            + error_text@);
    }
    out
}

} // verus!
