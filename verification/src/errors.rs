//! The dashboard's error taxonomy for failed API calls.

use vstd::prelude::*;
use vstd::string::StringExecFns;
use crate::text::{dec_digits, u64_to_string};

verus! {

/// Why a dashboard API call failed.
#[derive(Debug, Clone, PartialEq)]
pub enum AppError {
    Network(String),
    Http(u16),
    Decode,
    Unknown,
}

impl AppError {
    /// The human-readable description of the error.
    pub fn message(&self) -> (r: String)
        ensures
            r@ == self.spec_message(),
    {
        match self {
            AppError::Network(detail) => String::from_str("network: ").concat(detail.as_str()),
            AppError::Http(status) => {
                let st = u64_to_string(*status as u64);
                String::from_str("http ").concat(st.as_str())
            },
            AppError::Decode => String::from_str("decode"),
            AppError::Unknown => String::from_str("unknown"),
        }
    }

    pub open spec fn spec_message(self) -> Seq<char> {
        match self {
            AppError::Network(detail) => "network: "@ + detail@,
            AppError::Http(status) => "http "@ + dec_digits(status as nat),
            AppError::Decode => "decode"@,
            AppError::Unknown => "unknown"@,
        }
    }
}

} // verus!
