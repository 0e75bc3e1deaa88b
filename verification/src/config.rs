//! Gateway configuration: the settings read from the process environment,
//! the defaults applied when optional settings are absent, and validation.
//! Only validation can reject a configuration once both required settings
//! are present; the two required settings fail construction itself.

use vstd::prelude::*;
use vstd::string::StringExecFns;
use crate::text;

verus! {

/// The gateway's immutable runtime settings.
#[derive(Debug, Clone)]
pub struct Config {
    pub api_base_url: String,
    pub api_key: String,
    pub bind_address: String,
    pub request_timeout_secs: u64,
    pub max_request_size: usize,
    pub cors_allowed_origins: Vec<String>,
    pub log_level: String,
}

/// Why a configuration could not be built or did not validate.
#[derive(Debug, Clone, Copy, PartialEq, Eq, Structural)]
pub enum ConfigError {
    MissingApiUrl,
    MissingApiKey,
    EmptyApiKey,
    InvalidBaseUrl,
}

impl ConfigError {
    /// The human-readable description of the error.
    pub fn message(&self) -> (r: &'static str)
        ensures
            r@ == self.spec_message(),
    {
        match self {
            ConfigError::MissingApiUrl => "INBESTIA_API_URL environment variable is required",
            ConfigError::MissingApiKey => "INBESTIA_API_KEY environment variable is required",
            ConfigError::EmptyApiKey => "API key cannot be empty",
            ConfigError::InvalidBaseUrl => "API base URL must start with http:// or https://",
        }
    }

    pub open spec fn spec_message(self) -> Seq<char> {
        match self {
            ConfigError::MissingApiUrl => "INBESTIA_API_URL environment variable is required"@,
            ConfigError::MissingApiKey => "INBESTIA_API_KEY environment variable is required"@,
            ConfigError::EmptyApiKey => "API key cannot be empty"@,
            ConfigError::InvalidBaseUrl => "API base URL must start with http:// or https://"@,
        }
    }
}

/// A well-formed upstream base address: an HTTP or HTTPS scheme.
pub open spec fn valid_base_url(s: Seq<char>) -> bool {
    text::is_prefix(s, "http://"@) || text::is_prefix(s, "https://"@)
}

/// A configuration that validation accepts: a non-empty API key and a base
/// URL with an HTTP scheme.
pub open spec fn config_valid(c: Config) -> bool {
    c.api_key@.len() > 0 && valid_base_url(c.api_base_url@)
}

/// The string a present setting supplies, or the default.
pub open spec fn spec_or_default(setting: Option<String>, default: Seq<char>) -> Seq<char> {
    match setting {
        Some(s) => s@,
        None => default,
    }
}

/// The number a present setting denotes, or the default when the setting is
/// absent, is not a decimal numeral, or does not fit.
pub open spec fn spec_parse_or(setting: Option<String>, bound: nat, default: nat) -> nat {
    match setting {
        None => default,
        Some(s) => {
            let digits = text::numeral_digits(s@);
            if digits.len() > 0 && text::all_digits(digits) && text::dec_value(digits) <= bound {
                text::dec_value(digits)
            } else {
                default
            }
        },
    }
}

/// The origin list a present setting denotes: comma-separated, each entry
/// trimmed.
pub open spec fn spec_origins(src: Seq<char>) -> Seq<Seq<char>> {
    Seq::new(
        text::split_commas(src).len(),
        |k: int| text::trim_spec(text::split_commas(src)[k]),
    )
}

impl Config {
    /// Builds a configuration from the raw environment settings. The
    /// upstream URL and the API key are required; every other setting has a
    /// documented default that is applied when the setting is absent or, for
    /// the numeric settings, unparsable.
    pub fn from_settings(
        api_base_url: Option<String>,
        api_key: Option<String>,
        bind_address: Option<String>,
        request_timeout: Option<String>,
        max_request_size: Option<String>,
        cors_allowed_origins: Option<String>,
        log_level: Option<String>,
    ) -> (r: Result<Config, ConfigError>)
        ensures
            api_base_url is None ==> r == Err::<Config, ConfigError>(ConfigError::MissingApiUrl),
            api_base_url is Some && api_key is None ==> r == Err::<Config, ConfigError>(
                ConfigError::MissingApiKey,
            ),
            api_base_url is Some && api_key is Some ==> r is Ok,
            r matches Ok(c) ==> {
                &&& c.api_base_url == api_base_url.unwrap()
                &&& c.api_key == api_key.unwrap()
                &&& c.bind_address@ == spec_or_default(bind_address, "127.0.0.1:8085"@)
                &&& c.request_timeout_secs == spec_parse_or(request_timeout, u64::MAX as nat, 30)
                &&& c.max_request_size == spec_parse_or(
                    max_request_size,
                    usize::MAX as nat,
                    2097152,
                )
                &&& c.cors_allowed_origins@.len() == spec_origins(
                    spec_or_default(
                        cors_allowed_origins,
                        "http://127.0.0.1:3001,http://localhost:3001"@,
                    ),
                ).len()
                &&& (forall|k: int|
                    0 <= k < c.cors_allowed_origins@.len() ==> c.cors_allowed_origins@[k]@
                        == spec_origins(
                        spec_or_default(
                            cors_allowed_origins,
                            "http://127.0.0.1:3001,http://localhost:3001"@,
                        ),
                    )[k])
                &&& c.log_level@ == spec_or_default(log_level, "info"@)
            },
    {
        let api_base_url = match api_base_url {
            Some(u) => u,
            None => {
                return Err(ConfigError::MissingApiUrl);
            },
        };
        let api_key = match api_key {
            Some(k) => k,
            None => {
                return Err(ConfigError::MissingApiKey);
            },
        };
        let bind_address = match bind_address {
            Some(b) => b,
            None => String::from_str("127.0.0.1:8085"),
        };
        let request_timeout_secs: u64 = match request_timeout {
            Some(t) => match text::parse_u64(t.as_str()) {
                Some(v) => v,
                None => 30,
            },
            None => 30,
        };
        let max_request_size: usize = match max_request_size {
            Some(t) => match text::parse_u64(t.as_str()) {
                Some(v) => if v <= usize::MAX as u64 {
                    v as usize
                } else {
                    2097152
                },
                None => 2097152,
            },
            None => 2097152,
        };
        let origins_src = match cors_allowed_origins {
            Some(o) => o,
            None => String::from_str("http://127.0.0.1:3001,http://localhost:3001"),
        };
        let cors_allowed_origins = text::split_trim_commas(origins_src.as_str());
        let log_level = match log_level {
            Some(l) => l,
            None => String::from_str("info"),
        };
        Ok(
            Config {
                api_base_url,
                api_key,
                bind_address,
                request_timeout_secs,
                max_request_size,
                cors_allowed_origins,
                log_level,
            },
        )
    }

    /// Accepts exactly the configurations whose API key is non-empty and
    /// whose base URL starts with `http://` or `https://`; otherwise names
    /// the first rule violated.
    pub fn validate(&self) -> (r: Result<(), ConfigError>)
        ensures
            r is Ok <==> config_valid(*self),
            r == Err::<(), ConfigError>(ConfigError::EmptyApiKey) <==> self.api_key@.len() == 0,
            r == Err::<(), ConfigError>(ConfigError::InvalidBaseUrl) <==> self.api_key@.len() > 0
                && !valid_base_url(self.api_base_url@),
    {
        if self.api_key.as_str().is_empty() {
            return Err(ConfigError::EmptyApiKey);
        }
        let http = text::starts_with(self.api_base_url.as_str(), "http://");
        let https = text::starts_with(self.api_base_url.as_str(), "https://");
        if !http && !https {
            return Err(ConfigError::InvalidBaseUrl);
        }
        Ok(())
    }

    /// Whether the allow-list grants every origin: some entry is `*`.
    pub fn cors_allows_any_origin(&self) -> (r: bool)
        ensures
            r == exists|i: int|
                0 <= i < self.cors_allowed_origins@.len()
                    && (#[trigger] self.cors_allowed_origins@[i])@ == "*"@,
    {
        let n = self.cors_allowed_origins.len();
        let mut i: usize = 0;
        while i < n
            invariant
                n == self.cors_allowed_origins@.len(),
                0 <= i <= n,
                forall|j: int|
                    0 <= j < i ==> (#[trigger] self.cors_allowed_origins@[j])@ != "*"@,
            decreases n - i,
        {
            if text::str_eq(self.cors_allowed_origins[i].as_str(), "*") {
                return true;
            }
            i = i + 1;
        }
        false
    }
}

} // verus!
