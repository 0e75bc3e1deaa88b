//! The dashboard's timeframe service: the static timeframe table (the same
//! data the upstream serves), alias resolution, the mapping from canonical
//! tokens to the upstream's enum names, category filtering, and the
//! weight-normalized confluence score.
//!
//! Weights are kept in tenths (`1.0` is `10`) and confluence scores in
//! ten-thousandths (`1.0` is `10000`), so every calculation is exact
//! integer arithmetic.

use vstd::prelude::*;
use vstd::string::StringExecFns;
use crate::text::str_eq;

verus! {

/// Metadata for one timeframe. The weight is in tenths.
#[derive(Debug, Clone)]
pub struct TimeframeMetadata {
    pub name: String,
    pub display_name: String,
    pub duration_seconds: i64,
    pub weight_tenths: u64,
    pub category: String,
    pub aliases: Vec<String>,
    pub recommended_limit: usize,
    pub max_gap_hours: i64,
}

/// The mathematical value of one timeframe entry.
#[verifier::ext_equal]
pub ghost struct TfModel {
    pub name: Seq<char>,
    pub display_name: Seq<char>,
    pub duration_seconds: i64,
    pub weight_tenths: u64,
    pub category: Seq<char>,
    pub aliases: Seq<Seq<char>>,
    pub recommended_limit: usize,
    pub max_gap_hours: i64,
}

impl DeepView for TimeframeMetadata {
    type V = TfModel;

    open spec fn deep_view(&self) -> TfModel {
        TfModel {
            name: self.name@,
            display_name: self.display_name@,
            duration_seconds: self.duration_seconds,
            weight_tenths: self.weight_tenths,
            category: self.category@,
            aliases: self.aliases.deep_view(),
            recommended_limit: self.recommended_limit,
            max_gap_hours: self.max_gap_hours,
        }
    }
}

/// Timeframe names grouped by horizon.
#[derive(Debug, Clone)]
pub struct TimeframesCategories {
    pub short_term: Vec<String>,
    pub medium_term: Vec<String>,
    pub long_term: Vec<String>,
}

/// Per-provider name translations, one association list each.
#[derive(Debug, Clone)]
pub struct ProvidersFormats {
    pub alpha_vantage: Vec<(String, String)>,
    pub yahoo_finance: Vec<(String, String)>,
    pub finnhub: Vec<(String, String)>,
    pub fmp: Vec<(String, String)>,
    pub polygon: Vec<(String, String)>,
}

/// Table-wide metadata.
#[derive(Debug, Clone)]
pub struct TimeframesMetadata {
    pub version: String,
    pub last_updated: String,
    pub total_timeframes: usize,
    pub total_aliases: usize,
    pub supported_providers: Vec<String>,
}

/// The complete timeframe configuration document.
#[derive(Debug, Clone)]
pub struct TimeframesConfigResponse {
    pub timeframes: Vec<TimeframeMetadata>,
    pub aliases: Vec<(String, String)>,
    pub categories: TimeframesCategories,
    pub providers: ProvidersFormats,
    pub metadata: TimeframesMetadata,
}

/// The timeframe service: the configuration once loaded, and the upstream
/// coordinates it would be fetched from.
#[derive(Debug, Clone)]
pub struct TimeframeService {
    pub config: Option<TimeframesConfigResponse>,
    pub base_url: String,
    pub api_key: String,
}

/// One static table entry as a model value.
pub open spec fn tf_model(
    name: Seq<char>,
    display_name: Seq<char>,
    duration_seconds: i64,
    weight_tenths: u64,
    category: Seq<char>,
    alias0: Seq<char>,
    alias1: Seq<char>,
    recommended_limit: usize,
    max_gap_hours: i64,
) -> TfModel {
    TfModel {
        name,
        display_name,
        duration_seconds,
        weight_tenths,
        category,
        aliases: seq![alias0, alias1],
        recommended_limit,
        max_gap_hours,
    }
}

/// The nine timeframes of the static table, in display order (ascending
/// weight).
pub open spec fn spec_static_timeframes() -> Seq<TfModel> {
    seq![
        tf_model("1m"@, "1 Minuto"@, 60, 1, "Short Term"@, "1m"@, "1min"@, 1440, 1),
        tf_model("5m"@, "5 Minutos"@, 300, 2, "Short Term"@, "5m"@, "5min"@, 576, 1),
        tf_model("15m"@, "15 Minutos"@, 900, 3, "Short Term"@, "15m"@, "15min"@, 192, 2),
        tf_model("30m"@, "30 Minutos"@, 1800, 4, "Medium Term"@, "30m"@, "30min"@, 96, 2),
        tf_model("1h"@, "1 Hora"@, 3600, 5, "Medium Term"@, "1h"@, "1hour"@, 168, 4),
        tf_model("4h"@, "4 Horas"@, 14400, 7, "Medium Term"@, "4h"@, "4hours"@, 180, 12),
        tf_model("1d"@, "Diario"@, 86400, 10, "Long Term"@, "1d"@, "daily"@, 365, 48),
        tf_model("1w"@, "Semanal"@, 604800, 15, "Long Term"@, "1w"@, "weekly"@, 260, 168),
        tf_model("1M"@, "Mensual"@, 2592000, 20, "Long Term"@, "1M"@, "monthly"@, 120, 744),
    ]
}

/// The alias table: each canonical token maps to itself, and the long
/// spellings map to their canonical token.
pub open spec fn spec_static_aliases() -> Seq<(Seq<char>, Seq<char>)> {
    seq![
        ("1m"@, "1m"@),
        ("5m"@, "5m"@),
        ("15m"@, "15m"@),
        ("30m"@, "30m"@),
        ("1h"@, "1h"@),
        ("4h"@, "4h"@),
        ("1d"@, "1d"@),
        ("1w"@, "1w"@),
        ("1M"@, "1M"@),
        ("1min"@, "1m"@),
        ("5min"@, "5m"@),
        ("15min"@, "15m"@),
        ("30min"@, "30m"@),
        ("1hour"@, "1h"@),
        ("daily"@, "1d"@),
        ("weekly"@, "1w"@),
        ("monthly"@, "1M"@),
    ]
}

/// The loaded configuration is exactly the static table.
pub open spec fn spec_is_static_config(c: TimeframesConfigResponse) -> bool {
    &&& c.timeframes.deep_view() == spec_static_timeframes()
    &&& c.aliases.deep_view() == spec_static_aliases()
    &&& c.categories.short_term.deep_view() == seq!["1m"@, "5m"@, "15m"@]
    &&& c.categories.medium_term.deep_view() == seq!["30m"@, "1h"@, "4h"@]
    &&& c.categories.long_term.deep_view() == seq!["1d"@, "1w"@, "1M"@]
    &&& c.providers.alpha_vantage@.len() == 0
    &&& c.providers.yahoo_finance@.len() == 0
    &&& c.providers.finnhub@.len() == 0
    &&& c.providers.fmp@.len() == 0
    &&& c.providers.polygon@.len() == 0
    &&& c.metadata.version@ == "1.0.0"@
    &&& c.metadata.last_updated@ == "2025-09-23T14:00:00Z"@
    &&& c.metadata.total_timeframes == 9
    &&& c.metadata.total_aliases == 17
    &&& c.metadata.supported_providers.deep_view() == seq![
        "alpha_vantage"@,
        "yahoo_finance"@,
        "finnhub"@,
        "fmp"@,
        "polygon"@,
    ]
}

/// A service whose configuration, if loaded, is the static table.
pub open spec fn service_wf(s: TimeframeService) -> bool {
    s.config matches Some(c) ==> spec_is_static_config(c)
}

fn mk_tf(
    name: &str,
    display_name: &str,
    duration_seconds: i64,
    weight_tenths: u64,
    category: &str,
    alias0: &str,
    alias1: &str,
    recommended_limit: usize,
    max_gap_hours: i64,
) -> (r: TimeframeMetadata)
    ensures
        r.deep_view() == tf_model(
            name@,
            display_name@,
            duration_seconds,
            weight_tenths,
            category@,
            alias0@,
            alias1@,
            recommended_limit,
            max_gap_hours,
        ),
{
    let mut aliases: Vec<String> = Vec::new();
    aliases.push(alias0.to_owned());
    aliases.push(alias1.to_owned());
    let r = TimeframeMetadata {
        name: name.to_owned(),
        display_name: display_name.to_owned(),
        duration_seconds,
        weight_tenths,
        category: category.to_owned(),
        aliases,
        recommended_limit,
        max_gap_hours,
    };
    proof {
        assert(r.aliases.deep_view() =~= seq![alias0@, alias1@]);
        assert(r.deep_view() =~= tf_model(
            name@,
            display_name@,
            duration_seconds,
            weight_tenths,
            category@,
            alias0@,
            alias1@,
            recommended_limit,
            max_gap_hours,
        ));
    }
    r
}

fn mk_pair(key: &str, value: &str) -> (r: (String, String))
    ensures
        r.deep_view() == (key@, value@),
{
    (key.to_owned(), value.to_owned())
}

impl TimeframeService {
    /// A fresh service with no configuration loaded.
    pub fn new(base_url: String, api_key: String) -> (r: TimeframeService)
        ensures
            r.config is None,
            r.base_url == base_url,
            r.api_key == api_key,
            service_wf(r),
    {
        TimeframeService { config: None, base_url, api_key }
    }

    /// Whether a configuration is loaded.
    pub fn is_loaded(&self) -> (r: bool)
        ensures
            r == self.config is Some,
    {
        self.config.is_some()
    }

    /// Loads the timeframe configuration. The data is the static table that
    /// mirrors the upstream's document, so loading always succeeds.
    pub fn fetch_config(&mut self) -> (r: Result<(), String>)
        ensures
            r is Ok,
            final(self).config matches Some(c) && spec_is_static_config(c),
            final(self).base_url == old(self).base_url,
            final(self).api_key == old(self).api_key,
            service_wf(*final(self)),
    {
        let config = self.create_api_compatible_config();
        self.config = Some(config);
        Ok(())
    }

    /// Builds the static configuration: the same timeframes, aliases and
    /// categories the upstream's document carries.
    fn create_api_compatible_config(&self) -> (r: TimeframesConfigResponse)
        ensures
            spec_is_static_config(r),
    {
        let mut timeframes: Vec<TimeframeMetadata> = Vec::new();
        timeframes.push(mk_tf("1m", "1 Minuto", 60, 1, "Short Term", "1m", "1min", 1440, 1));
        timeframes.push(mk_tf("5m", "5 Minutos", 300, 2, "Short Term", "5m", "5min", 576, 1));
        timeframes.push(mk_tf("15m", "15 Minutos", 900, 3, "Short Term", "15m", "15min", 192, 2));
        timeframes.push(mk_tf("30m", "30 Minutos", 1800, 4, "Medium Term", "30m", "30min", 96, 2));
        timeframes.push(mk_tf("1h", "1 Hora", 3600, 5, "Medium Term", "1h", "1hour", 168, 4));
        timeframes.push(mk_tf("4h", "4 Horas", 14400, 7, "Medium Term", "4h", "4hours", 180, 12));
        timeframes.push(mk_tf("1d", "Diario", 86400, 10, "Long Term", "1d", "daily", 365, 48));
        timeframes.push(mk_tf("1w", "Semanal", 604800, 15, "Long Term", "1w", "weekly", 260, 168));
        timeframes.push(mk_tf("1M", "Mensual", 2592000, 20, "Long Term", "1M", "monthly", 120, 744));
        proof {
            assert(timeframes.deep_view() =~= spec_static_timeframes());
        }

        let mut aliases: Vec<(String, String)> = Vec::new();
        aliases.push(mk_pair("1m", "1m"));
        aliases.push(mk_pair("5m", "5m"));
        aliases.push(mk_pair("15m", "15m"));
        aliases.push(mk_pair("30m", "30m"));
        aliases.push(mk_pair("1h", "1h"));
        aliases.push(mk_pair("4h", "4h"));
        aliases.push(mk_pair("1d", "1d"));
        aliases.push(mk_pair("1w", "1w"));
        aliases.push(mk_pair("1M", "1M"));
        aliases.push(mk_pair("1min", "1m"));
        aliases.push(mk_pair("5min", "5m"));
        aliases.push(mk_pair("15min", "15m"));
        aliases.push(mk_pair("30min", "30m"));
        aliases.push(mk_pair("1hour", "1h"));
        aliases.push(mk_pair("daily", "1d"));
        aliases.push(mk_pair("weekly", "1w"));
        aliases.push(mk_pair("monthly", "1M"));
        proof {
            assert(aliases.deep_view() =~= spec_static_aliases());
        }

        let mut short_term: Vec<String> = Vec::new();
        short_term.push(String::from_str("1m"));
        short_term.push(String::from_str("5m"));
        short_term.push(String::from_str("15m"));
        let mut medium_term: Vec<String> = Vec::new();
        medium_term.push(String::from_str("30m"));
        medium_term.push(String::from_str("1h"));
        medium_term.push(String::from_str("4h"));
        let mut long_term: Vec<String> = Vec::new();
        long_term.push(String::from_str("1d"));
        long_term.push(String::from_str("1w"));
        long_term.push(String::from_str("1M"));
        proof {
            assert(short_term.deep_view() =~= seq!["1m"@, "5m"@, "15m"@]);
            assert(medium_term.deep_view() =~= seq!["30m"@, "1h"@, "4h"@]);
            assert(long_term.deep_view() =~= seq!["1d"@, "1w"@, "1M"@]);
        }

        let mut supported_providers: Vec<String> = Vec::new();
        supported_providers.push(String::from_str("alpha_vantage"));
        supported_providers.push(String::from_str("yahoo_finance"));
        supported_providers.push(String::from_str("finnhub"));
        supported_providers.push(String::from_str("fmp"));
        supported_providers.push(String::from_str("polygon"));
        proof {
            assert(supported_providers.deep_view() =~= seq![
                "alpha_vantage"@,
                "yahoo_finance"@,
                "finnhub"@,
                "fmp"@,
                "polygon"@,
            ]);
        }

        TimeframesConfigResponse {
            timeframes,
            aliases,
            categories: TimeframesCategories { short_term, medium_term, long_term },
            providers: ProvidersFormats {
                alpha_vantage: Vec::new(),
                yahoo_finance: Vec::new(),
                finnhub: Vec::new(),
                fmp: Vec::new(),
                polygon: Vec::new(),
            },
            metadata: TimeframesMetadata {
                version: String::from_str("1.0.0"),
                last_updated: String::from_str("2025-09-23T14:00:00Z"),
                total_timeframes: 9,
                total_aliases: 17,
                supported_providers,
            },
        }
    }

    /// The table-wide metadata of the loaded configuration.
    pub fn get_metadata(&self) -> (r: Result<&TimeframesMetadata, String>)
        ensures
            self.config matches Some(c) ==> (r matches Ok(m) && *m == c.metadata),
            self.config is None ==> (r matches Err(e) && e@ == "Configuration not loaded"@),
    {
        match &self.config {
            Some(c) => Ok(&c.metadata),
            None => Err(String::from_str("Configuration not loaded")),
        }
    }

    /// All timeframes of the loaded configuration, in table order.
    pub fn get_timeframes(&self) -> (r: Result<&Vec<TimeframeMetadata>, String>)
        ensures
            self.config matches Some(c) ==> (r matches Ok(v) && *v == c.timeframes),
            self.config is None ==> (r matches Err(e) && e@ == "Configuration not loaded"@),
    {
        match &self.config {
            Some(c) => Ok(&c.timeframes),
            None => Err(String::from_str("Configuration not loaded")),
        }
    }
}

/// The upstream's enum name for each canonical timeframe token.
pub open spec fn spec_api_format(name: Seq<char>) -> Option<Seq<char>> {
    if name == "1m"@ {
        Some("minute1"@)
    } else if name == "5m"@ {
        Some("minute5"@)
    } else if name == "15m"@ {
        Some("minute15"@)
    } else if name == "30m"@ {
        Some("minute30"@)
    } else if name == "1h"@ {
        Some("hour1"@)
    } else if name == "4h"@ {
        Some("hour4"@)
    } else if name == "1d"@ {
        Some("daily"@)
    } else if name == "1w"@ {
        Some("weekly"@)
    } else if name == "1M"@ {
        Some("monthly"@)
    } else {
        None
    }
}

/// The first value associated with `key`, front to back.
pub open spec fn spec_lookup_assoc(pairs: Seq<(Seq<char>, Seq<char>)>, key: Seq<char>) -> Option<
    Seq<char>,
>
    decreases pairs.len(),
{
    if pairs.len() == 0 {
        None
    } else if pairs.first().0 == key {
        Some(pairs.first().1)
    } else {
        spec_lookup_assoc(pairs.drop_first(), key)
    }
}

proof fn lemma_lookup_assoc_hit(pairs: Seq<(Seq<char>, Seq<char>)>, key: Seq<char>, i: int)
    requires
        0 <= i < pairs.len(),
        forall|k: int| 0 <= k < i ==> (#[trigger] pairs[k]).0 != key,
        pairs[i].0 == key,
    ensures
        spec_lookup_assoc(pairs, key) == Some(pairs[i].1),
    decreases pairs.len(),
{
    if i > 0 {
        let t = pairs.drop_first();
        assert(forall|k: int| 0 <= k < i - 1 ==> #[trigger] t[k] == pairs[k + 1]);
        lemma_lookup_assoc_hit(t, key, i - 1);
    }
}

proof fn lemma_lookup_assoc_miss(pairs: Seq<(Seq<char>, Seq<char>)>, key: Seq<char>)
    requires
        forall|k: int| 0 <= k < pairs.len() ==> (#[trigger] pairs[k]).0 != key,
    ensures
        spec_lookup_assoc(pairs, key) is None,
    decreases pairs.len(),
{
    if pairs.len() > 0 {
        let t = pairs.drop_first();
        assert(forall|k: int| 0 <= k < t.len() ==> #[trigger] t[k] == pairs[k + 1]);
        lemma_lookup_assoc_miss(t, key);
    }
}

fn lookup_assoc<'a>(pairs: &'a Vec<(String, String)>, key: &str) -> (r: Option<&'a String>)
    ensures
        match r {
            Some(v) => spec_lookup_assoc(pairs.deep_view(), key@) == Some(v@),
            None => spec_lookup_assoc(pairs.deep_view(), key@) is None,
        },
{
    let ghost model = pairs.deep_view();
    let n = pairs.len();
    let mut i: usize = 0;
    while i < n
        invariant
            n == pairs@.len(),
            model == pairs.deep_view(),
            0 <= i <= n,
            forall|k: int| 0 <= k < i ==> (#[trigger] model[k]).0 != key@,
        decreases n - i,
    {
        if str_eq(pairs[i].0.as_str(), key) {
            proof {
                lemma_lookup_assoc_hit(model, key@, i as int);
            }
            return Some(&pairs[i].1);
        }
        i = i + 1;
    }
    proof {
        lemma_lookup_assoc_miss(model, key@);
    }
    None
}

/// The result, textual value or error text, of mapping a token.
pub open spec fn spec_canonical_result(canonical: Seq<char>) -> Result<Seq<char>, Seq<char>> {
    match spec_api_format(canonical) {
        Some(api) => Ok(api),
        None => Err("Unknown timeframe: "@ + canonical),
    }
}

/// The result of `to_api_format`: the token is first resolved through the
/// alias table, then mapped canonically.
pub open spec fn spec_to_api_format_result(
    aliases: Seq<(Seq<char>, Seq<char>)>,
    display_name: Seq<char>,
) -> Result<Seq<char>, Seq<char>> {
    match spec_lookup_assoc(aliases, display_name) {
        Some(canonical) => spec_canonical_result(canonical),
        None => spec_canonical_result(display_name),
    }
}

/// Maps a canonical token (`5m`, `1h`, ...) to the upstream's enum name
/// (`minute5`, `hour1`, ...); an unrecognized token is an explicit error,
/// never a silent fallback.
pub fn canonical_token_to_api_format(canonical: &str) -> (r: Result<String, String>)
    ensures
        match r {
            Ok(s) => spec_api_format(canonical@) == Some(s@),
            Err(e) => spec_api_format(canonical@) is None && e@ == "Unknown timeframe: "@
                + canonical@,
        },
{
    let api_format = if str_eq(canonical, "1m") {
        "minute1"
    } else if str_eq(canonical, "5m") {
        "minute5"
    } else if str_eq(canonical, "15m") {
        "minute15"
    } else if str_eq(canonical, "30m") {
        "minute30"
    } else if str_eq(canonical, "1h") {
        "hour1"
    } else if str_eq(canonical, "4h") {
        "hour4"
    } else if str_eq(canonical, "1d") {
        "daily"
    } else if str_eq(canonical, "1w") {
        "weekly"
    } else if str_eq(canonical, "1M") {
        "monthly"
    } else {
        return Err(String::from_str("Unknown timeframe: ").concat(canonical));
    };
    Ok(api_format.to_owned())
}

impl TimeframeService {
    /// Maps a canonical token to the upstream's enum name; an unrecognized
    /// token is an explicit error, never a silent fallback.
    pub fn canonical_to_api_format(&self, canonical: &str) -> (r: Result<String, String>)
        ensures
            match r {
                Ok(s) => spec_api_format(canonical@) == Some(s@),
                Err(e) => spec_api_format(canonical@) is None && e@ == "Unknown timeframe: "@
                    + canonical@,
            },
    {
        canonical_token_to_api_format(canonical)
    }

    /// Maps a display token to the upstream's enum name: the alias table is
    /// consulted first, and the canonical mapping applied to what it yields
    /// (or to the token itself when no alias matches). Unloaded
    /// configuration and unrecognized tokens are explicit errors.
    pub fn to_api_format(&self, display_name: &str) -> (r: Result<String, String>)
        ensures
            self.config is None ==> (r matches Err(e) && e@ == "Configuration not loaded"@),
            self.config matches Some(c) ==> match r {
                Ok(s) => spec_to_api_format_result(c.aliases.deep_view(), display_name@) == Ok::<
                    Seq<char>,
                    Seq<char>,
                >(s@),
                Err(e) => spec_to_api_format_result(c.aliases.deep_view(), display_name@) == Err::<
                    Seq<char>,
                    Seq<char>,
                >(e@),
            },
    {
        let config = match &self.config {
            Some(c) => c,
            None => {
                return Err(String::from_str("Configuration not loaded"));
            },
        };
        match lookup_assoc(&config.aliases, display_name) {
            Some(canonical) => self.canonical_to_api_format(canonical.as_str()),
            None => self.canonical_to_api_format(display_name),
        }
    }
}

/// The token names this entry: its canonical name or any alias.
pub open spec fn tf_matches(t: TfModel, name: Seq<char>) -> bool {
    t.name == name || t.aliases.contains(name)
}

/// The weight of the first entry the token names, front to back.
pub open spec fn spec_find_weight(tfs: Seq<TfModel>, name: Seq<char>) -> Option<u64>
    decreases tfs.len(),
{
    if tfs.len() == 0 {
        None
    } else if tf_matches(tfs.first(), name) {
        Some(tfs.first().weight_tenths)
    } else {
        spec_find_weight(tfs.drop_first(), name)
    }
}

proof fn lemma_find_weight_hit(tfs: Seq<TfModel>, name: Seq<char>, i: int)
    requires
        0 <= i < tfs.len(),
        forall|k: int| 0 <= k < i ==> !tf_matches(#[trigger] tfs[k], name),
        tf_matches(tfs[i], name),
    ensures
        spec_find_weight(tfs, name) == Some(tfs[i].weight_tenths),
    decreases tfs.len(),
{
    if i > 0 {
        let t = tfs.drop_first();
        assert(forall|k: int| 0 <= k < i - 1 ==> #[trigger] t[k] == tfs[k + 1]);
        lemma_find_weight_hit(t, name, i - 1);
    }
}

proof fn lemma_find_weight_miss(tfs: Seq<TfModel>, name: Seq<char>)
    requires
        forall|k: int| 0 <= k < tfs.len() ==> !tf_matches(#[trigger] tfs[k], name),
    ensures
        spec_find_weight(tfs, name) is None,
    decreases tfs.len(),
{
    if tfs.len() > 0 {
        let t = tfs.drop_first();
        assert(forall|k: int| 0 <= k < t.len() ==> #[trigger] t[k] == tfs[k + 1]);
        lemma_find_weight_miss(t, name);
    }
}

proof fn lemma_find_weight_le(tfs: Seq<TfModel>, name: Seq<char>, bound: u64)
    requires
        forall|i: int| 0 <= i < tfs.len() ==> (#[trigger] tfs[i]).weight_tenths <= bound,
    ensures
        spec_find_weight(tfs, name) matches Some(w) ==> w <= bound,
    decreases tfs.len(),
{
    if tfs.len() > 0 {
        let t = tfs.drop_first();
        assert(forall|k: int| 0 <= k < t.len() ==> #[trigger] t[k] == tfs[k + 1]);
        lemma_find_weight_le(t, name, bound);
    }
}

fn string_in_list(names: &Vec<String>, name: &str) -> (r: bool)
    ensures
        r == names.deep_view().contains(name@),
{
    let n = names.len();
    let mut i: usize = 0;
    while i < n
        invariant
            n == names@.len(),
            0 <= i <= n,
            forall|k: int| 0 <= k < i ==> names.deep_view()[k] != name@,
        decreases n - i,
    {
        if str_eq(names[i].as_str(), name) {
            assert(names.deep_view()[i as int] == name@);
            return true;
        }
        i = i + 1;
    }
    false
}

fn tf_matches_exec(tf: &TimeframeMetadata, name: &str) -> (r: bool)
    ensures
        r == tf_matches(tf.deep_view(), name@),
{
    if str_eq(tf.name.as_str(), name) {
        return true;
    }
    string_in_list(&tf.aliases, name)
}

impl TimeframeMetadata {
    /// A copy with the same contents.
    pub fn duplicate(&self) -> (r: TimeframeMetadata)
        ensures
            r.deep_view() == self.deep_view(),
    {
        let r = TimeframeMetadata {
            name: self.name.clone(),
            display_name: self.display_name.clone(),
            duration_seconds: self.duration_seconds,
            weight_tenths: self.weight_tenths,
            category: self.category.clone(),
            aliases: self.aliases.clone(),
            recommended_limit: self.recommended_limit,
            max_gap_hours: self.max_gap_hours,
        };
        proof {
            assert(r.aliases@ =~= self.aliases@);
            assert(r.aliases.deep_view() =~= self.aliases.deep_view());
            assert(r.deep_view() =~= self.deep_view());
        }
        r
    }
}

/// The entries whose canonical name stands in `names`, in table order.
pub open spec fn spec_filter_by_names(tfs: Seq<TfModel>, names: Seq<Seq<char>>) -> Seq<TfModel>
    decreases tfs.len(),
{
    if tfs.len() == 0 {
        Seq::empty()
    } else {
        let rest = spec_filter_by_names(tfs.drop_last(), names);
        if names.contains(tfs.last().name) {
            rest.push(tfs.last())
        } else {
            rest
        }
    }
}

/// The names a category key selects, or nothing for an unknown key.
pub open spec fn spec_category_names(
    c: TimeframesConfigResponse,
    category: Seq<char>,
) -> Option<Seq<Seq<char>>> {
    if category == "short_term"@ {
        Some(c.categories.short_term.deep_view())
    } else if category == "medium_term"@ {
        Some(c.categories.medium_term.deep_view())
    } else if category == "long_term"@ {
        Some(c.categories.long_term.deep_view())
    } else {
        None
    }
}

impl TimeframeService {
    /// The weight, in tenths, of the first table entry the token names
    /// (canonically or through an alias); an unknown token is an explicit
    /// error.
    pub fn get_weight(&self, timeframe: &str) -> (r: Result<u64, String>)
        ensures
            self.config is None ==> (r matches Err(e) && e@ == "Configuration not loaded"@),
            self.config matches Some(c) ==> match r {
                Ok(w) => spec_find_weight(c.timeframes.deep_view(), timeframe@) == Some(w),
                Err(e) => spec_find_weight(c.timeframes.deep_view(), timeframe@) is None && e@
                    == "Timeframe not found: "@ + timeframe@,
            },
    {
        let config = match &self.config {
            Some(c) => c,
            None => {
                return Err(String::from_str("Configuration not loaded"));
            },
        };
        let ghost model = config.timeframes.deep_view();
        let n = config.timeframes.len();
        let mut i: usize = 0;
        while i < n
            invariant
                self.config == Some(*config),
                n == config.timeframes@.len(),
                model == config.timeframes.deep_view(),
                0 <= i <= n,
                forall|k: int| 0 <= k < i ==> !tf_matches(#[trigger] model[k], timeframe@),
            decreases n - i,
        {
            if tf_matches_exec(&config.timeframes[i], timeframe) {
                proof {
                    lemma_find_weight_hit(model, timeframe@, i as int);
                }
                return Ok(config.timeframes[i].weight_tenths);
            }
            i = i + 1;
        }
        proof {
            lemma_find_weight_miss(model, timeframe@);
        }
        Err(String::from_str("Timeframe not found: ").concat(timeframe))
    }

    /// The table entries of one category (`short_term`, `medium_term` or
    /// `long_term`), in table order; an unknown category is an explicit
    /// error.
    pub fn get_timeframes_by_category(&self, category: &str) -> (r: Result<
        Vec<TimeframeMetadata>,
        String,
    >)
        ensures
            self.config is None ==> (r matches Err(e) && e@ == "Configuration not loaded"@),
            self.config matches Some(c) ==> match spec_category_names(c, category@) {
                Some(names) => r matches Ok(v) && v.deep_view() == spec_filter_by_names(
                    c.timeframes.deep_view(),
                    names,
                ),
                None => r matches Err(e) && e@ == "Unknown category: "@ + category@,
            },
    {
        let config = match &self.config {
            Some(c) => c,
            None => {
                return Err(String::from_str("Configuration not loaded"));
            },
        };
        let timeframe_names = if str_eq(category, "short_term") {
            &config.categories.short_term
        } else if str_eq(category, "medium_term") {
            &config.categories.medium_term
        } else if str_eq(category, "long_term") {
            &config.categories.long_term
        } else {
            return Err(String::from_str("Unknown category: ").concat(category));
        };
        let ghost model = config.timeframes.deep_view();
        let ghost names_model = timeframe_names.deep_view();
        let n = config.timeframes.len();
        let mut result: Vec<TimeframeMetadata> = Vec::new();
        let mut i: usize = 0;
        while i < n
            invariant
                n == config.timeframes@.len(),
                model == config.timeframes.deep_view(),
                names_model == timeframe_names.deep_view(),
                0 <= i <= n,
                result.deep_view() == spec_filter_by_names(model.take(i as int), names_model),
            decreases n - i,
        {
            let ghost prev = result.deep_view();
            if string_in_list(timeframe_names, config.timeframes[i].name.as_str()) {
                result.push(config.timeframes[i].duplicate());
            }
            proof {
                assert(model.take(i + 1).drop_last() == model.take(i as int));
                assert(model.take(i + 1).last() == model[i as int]);
                assert(result.deep_view() =~= spec_filter_by_names(
                    model.take(i + 1),
                    names_model,
                ));
            }
            i = i + 1;
        }
        proof {
            assert(model.take(n as int) == model);
        }
        Ok(result)
    }
}

/// The balanced set of timeframes used for multi-temporal analysis.
pub open spec fn spec_recommended(name: Seq<char>) -> bool {
    name == "15m"@ || name == "1h"@ || name == "4h"@ || name == "1d"@ || name == "1w"@
}

/// The table entries recommended for multi-temporal analysis, in table
/// order.
pub open spec fn spec_multitemporal(tfs: Seq<TfModel>) -> Seq<TfModel>
    decreases tfs.len(),
{
    if tfs.len() == 0 {
        Seq::empty()
    } else {
        let rest = spec_multitemporal(tfs.drop_last());
        if spec_recommended(tfs.last().name) {
            rest.push(tfs.last())
        } else {
            rest
        }
    }
}

/// Non-decreasing weights, left to right.
pub open spec fn sorted_by_weight(s: Seq<TfModel>) -> bool {
    forall|a: int, b: int|
        0 <= a <= b < s.len() ==> (#[trigger] s[a]).weight_tenths <= (#[trigger] s[b]).weight_tenths
}

/// `x` placed after the last entry whose weight does not exceed its own:
/// the insertion step of a stable sort by weight.
pub open spec fn insert_by_weight(s: Seq<TfModel>, x: TfModel) -> Seq<TfModel>
    decreases s.len(),
{
    if s.len() == 0 {
        seq![x]
    } else if s.last().weight_tenths <= x.weight_tenths {
        s.push(x)
    } else {
        insert_by_weight(s.drop_last(), x).push(s.last())
    }
}

/// A stable sort by ascending weight: entries of equal weight keep their
/// order.
pub open spec fn spec_sort_by_weight(s: Seq<TfModel>) -> Seq<TfModel>
    decreases s.len(),
{
    if s.len() == 0 {
        Seq::empty()
    } else {
        insert_by_weight(spec_sort_by_weight(s.drop_last()), s.last())
    }
}

proof fn lemma_insert_sorted(s: Seq<TfModel>, x: TfModel, bound: u64)
    requires
        sorted_by_weight(s),
        forall|k: int| 0 <= k < s.len() ==> (#[trigger] s[k]).weight_tenths <= bound,
        x.weight_tenths <= bound,
    ensures
        sorted_by_weight(insert_by_weight(s, x)),
        insert_by_weight(s, x).len() == s.len() + 1,
        forall|k: int|
            0 <= k < s.len() + 1 ==> (#[trigger] insert_by_weight(s, x)[k]).weight_tenths <= bound,
    decreases s.len(),
{
    if s.len() == 0 {
        assert(insert_by_weight(s, x) == seq![x]);
    } else if s.last().weight_tenths <= x.weight_tenths {
        let r = s.push(x);
        assert forall|a: int, b: int| 0 <= a <= b < r.len() implies (#[trigger] r[a]).weight_tenths
            <= (#[trigger] r[b]).weight_tenths by {
            if b == s.len() && a < b {
                assert(s[a].weight_tenths <= s[s.len() - 1].weight_tenths);
            }
        }
    } else {
        let t = s.drop_last();
        assert(forall|k: int| 0 <= k < t.len() ==> (#[trigger] t[k]).weight_tenths <= s.last().weight_tenths);
        lemma_insert_sorted(t, x, s.last().weight_tenths);
        let u = insert_by_weight(t, x);
        let r = u.push(s.last());
        assert forall|a: int, b: int| 0 <= a <= b < r.len() implies (#[trigger] r[a]).weight_tenths
            <= (#[trigger] r[b]).weight_tenths by {
            if b == u.len() && a < b {
                assert(u[a].weight_tenths <= s.last().weight_tenths);
            }
        }
        assert(s.last().weight_tenths <= bound);
    }
}

/// Sorting by weight yields a weight-ordered sequence of the same length.
pub proof fn lemma_sort_sorted(s: Seq<TfModel>)
    ensures
        sorted_by_weight(spec_sort_by_weight(s)),
        spec_sort_by_weight(s).len() == s.len(),
    decreases s.len(),
{
    if s.len() > 0 {
        lemma_sort_sorted(s.drop_last());
        lemma_insert_sorted(spec_sort_by_weight(s.drop_last()), s.last(), u64::MAX);
    }
}

fn insert_by_weight_exec(v: Vec<TimeframeMetadata>, x: TimeframeMetadata) -> (r: Vec<
    TimeframeMetadata,
>)
    ensures
        r.deep_view() == insert_by_weight(v.deep_view(), x.deep_view()),
    decreases v@.len(),
{
    let ghost full = v.deep_view();
    let mut v = v;
    let n = v.len();
    if n == 0 {
        v.push(x);
        proof {
            assert(v.deep_view() =~= insert_by_weight(full, x.deep_view()));
        }
        return v;
    }
    if v[n - 1].weight_tenths <= x.weight_tenths {
        v.push(x);
        proof {
            assert(full.last().weight_tenths <= x.deep_view().weight_tenths);
            assert(v.deep_view() =~= full.push(x.deep_view()));
        }
        v
    } else {
        let last = v.pop().unwrap();
        proof {
            assert(v.deep_view() =~= full.drop_last());
            assert(last.deep_view() == full.last());
        }
        let mut r = insert_by_weight_exec(v, x);
        let ghost inner = r.deep_view();
        r.push(last);
        proof {
            assert(r.deep_view() =~= inner.push(full.last()));
            assert(full.last().weight_tenths > x.deep_view().weight_tenths);
            assert(r.deep_view() == insert_by_weight(full, x.deep_view()));
        }
        r
    }
}

/// The static table is ordered by ascending weight.
pub proof fn lemma_static_sorted()
    ensures
        sorted_by_weight(spec_static_timeframes()),
{
    let s = spec_static_timeframes();
    assert(s[0].weight_tenths == 1);
    assert(s[1].weight_tenths == 2);
    assert(s[2].weight_tenths == 3);
    assert(s[3].weight_tenths == 4);
    assert(s[4].weight_tenths == 5);
    assert(s[5].weight_tenths == 7);
    assert(s[6].weight_tenths == 10);
    assert(s[7].weight_tenths == 15);
    assert(s[8].weight_tenths == 20);
}

/// No static weight exceeds twenty tenths.
pub proof fn lemma_static_weights_bounded()
    ensures
        forall|i: int|
            0 <= i < spec_static_timeframes().len() ==> (#[trigger] spec_static_timeframes()[i]).weight_tenths
                <= 20,
{
    let s = spec_static_timeframes();
    assert forall|i: int| 0 <= i < s.len() implies (#[trigger] s[i]).weight_tenths <= 20 by {
        if i == 0 {
            assert(s[0].weight_tenths == 1);
        } else if i == 1 {
            assert(s[1].weight_tenths == 2);
        } else if i == 2 {
            assert(s[2].weight_tenths == 3);
        } else if i == 3 {
            assert(s[3].weight_tenths == 4);
        } else if i == 4 {
            assert(s[4].weight_tenths == 5);
        } else if i == 5 {
            assert(s[5].weight_tenths == 7);
        } else if i == 6 {
            assert(s[6].weight_tenths == 10);
        } else if i == 7 {
            assert(s[7].weight_tenths == 15);
        } else {
            assert(s[8].weight_tenths == 20);
        }
    }
}

fn recommended_exec(name: &str) -> (r: bool)
    ensures
        r == spec_recommended(name@),
{
    str_eq(name, "15m") || str_eq(name, "1h") || str_eq(name, "4h") || str_eq(name, "1d")
        || str_eq(name, "1w")
}

/// The weighted-score sum over the entries the table recognizes.
pub open spec fn spec_weighted_sum(tfs: Seq<TfModel>, scores: Seq<(Seq<char>, u64)>) -> int
    decreases scores.len(),
{
    if scores.len() == 0 {
        0
    } else {
        spec_weighted_sum(tfs, scores.drop_last()) + (match spec_find_weight(
            tfs,
            scores.last().0,
        ) {
            Some(w) => scores.last().1 * w,
            None => 0,
        })
    }
}

/// The weight sum over the entries the table recognizes.
pub open spec fn spec_total_weight(tfs: Seq<TfModel>, scores: Seq<(Seq<char>, u64)>) -> int
    decreases scores.len(),
{
    if scores.len() == 0 {
        0
    } else {
        spec_total_weight(tfs, scores.drop_last()) + (match spec_find_weight(
            tfs,
            scores.last().0,
        ) {
            Some(w) => w as int,
            None => 0,
        })
    }
}

impl TimeframeService {
    /// The recommended multi-temporal set (`15m`, `1h`, `4h`, `1d`, `1w`)
    /// drawn from the table and stably sorted by ascending weight.
    pub fn get_multitemporal_timeframes(&self) -> (r: Result<Vec<TimeframeMetadata>, String>)
        ensures
            self.config is None ==> (r matches Err(e) && e@ == "Configuration not loaded"@),
            self.config matches Some(c) ==> (r matches Ok(v) && v.deep_view()
                == spec_sort_by_weight(spec_multitemporal(c.timeframes.deep_view()))
                && sorted_by_weight(v.deep_view())),
    {
        let config = match &self.config {
            Some(c) => c,
            None => {
                return Err(String::from_str("Configuration not loaded"));
            },
        };
        let ghost model = config.timeframes.deep_view();
        let n = config.timeframes.len();
        let mut filtered: Vec<TimeframeMetadata> = Vec::new();
        let mut i: usize = 0;
        while i < n
            invariant
                self.config == Some(*config),
                n == config.timeframes@.len(),
                model == config.timeframes.deep_view(),
                0 <= i <= n,
                filtered.deep_view() == spec_multitemporal(model.take(i as int)),
            decreases n - i,
        {
            if recommended_exec(config.timeframes[i].name.as_str()) {
                filtered.push(config.timeframes[i].duplicate());
            }
            proof {
                assert(model.take(i + 1).drop_last() == model.take(i as int));
                assert(model.take(i + 1).last() == model[i as int]);
                assert(filtered.deep_view() =~= spec_multitemporal(model.take(i + 1)));
            }
            i = i + 1;
        }
        proof {
            assert(model.take(n as int) == model);
        }
        let ghost fm = filtered.deep_view();
        let m = filtered.len();
        let mut result: Vec<TimeframeMetadata> = Vec::new();
        let mut j: usize = 0;
        while j < m
            invariant
                m == filtered@.len(),
                fm == filtered.deep_view(),
                0 <= j <= m,
                result.deep_view() == spec_sort_by_weight(fm.take(j as int)),
            decreases m - j,
        {
            let x = filtered[j].duplicate();
            result = insert_by_weight_exec(result, x);
            proof {
                assert(fm.take(j + 1).drop_last() == fm.take(j as int));
                assert(fm.take(j + 1).last() == fm[j as int]);
            }
            j = j + 1;
        }
        proof {
            assert(fm.take(m as int) == fm);
            lemma_sort_sorted(fm);
        }
        Ok(result)
    }

    /// The confluence score: the weight-normalized average of the given
    /// scores over the timeframes the table recognizes, all in exact
    /// integers — scores in ten-thousandths of 1.0, the result likewise,
    /// rounded toward zero. Entries the table does not recognize are
    /// skipped; when none remains the calculation fails rather than
    /// yielding a value. Scores above 1.0 are out of range, and the entry
    /// count is capped so that the running sums fit the machine word.
    pub fn calculate_confluence(&self, timeframe_scores: &Vec<(String, u64)>) -> (r: Result<
        u64,
        String,
    >)
        requires
            service_wf(*self),
            timeframe_scores@.len() <= 1000000,
            forall|i: int|
                0 <= i < timeframe_scores@.len() ==> (#[trigger] timeframe_scores@[i]).1 <= 10000,
        ensures
            self.config is None ==> (r matches Err(e) && e@ == "Configuration not loaded"@),
            self.config matches Some(c) ==> match r {
                Ok(v) => spec_total_weight(c.timeframes.deep_view(), timeframe_scores.deep_view())
                    > 0 && v == spec_weighted_sum(
                    c.timeframes.deep_view(),
                    timeframe_scores.deep_view(),
                ) / spec_total_weight(c.timeframes.deep_view(), timeframe_scores.deep_view()),
                Err(e) => spec_total_weight(
                    c.timeframes.deep_view(),
                    timeframe_scores.deep_view(),
                ) == 0 && e@ == "No valid timeframes found for confluence calculation"@,
            },
    {
        let config = match &self.config {
            Some(c) => c,
            None => {
                return Err(String::from_str("Configuration not loaded"));
            },
        };
        let ghost model = config.timeframes.deep_view();
        let ghost sm = timeframe_scores.deep_view();
        proof {
            assert(forall|k: int|
                0 <= k < sm.len() ==> (#[trigger] sm[k]).1 == timeframe_scores@[k].1
                    && sm[k].0 == timeframe_scores@[k].0@);
        }
        let n = timeframe_scores.len();
        let mut total_weighted_score: u64 = 0;
        let mut total_weight: u64 = 0;
        let mut i: usize = 0;
        while i < n
            invariant
                self.config == Some(*config),
                spec_is_static_config(*config),
                model == config.timeframes.deep_view(),
                sm == timeframe_scores.deep_view(),
                n == timeframe_scores@.len(),
                n <= 1000000,
                forall|k: int| 0 <= k < n ==> (#[trigger] sm[k]).1 <= 10000,
                forall|k: int|
                    0 <= k < n ==> (#[trigger] sm[k]).0 == timeframe_scores@[k].0@ && sm[k].1
                        == timeframe_scores@[k].1,
                0 <= i <= n,
                total_weighted_score == spec_weighted_sum(model, sm.take(i as int)),
                total_weighted_score <= 200000 * i,
                total_weight == spec_total_weight(model, sm.take(i as int)),
                total_weight <= 20 * i,
            decreases n - i,
        {
            proof {
                assert(sm.take(i + 1).drop_last() == sm.take(i as int));
                assert(sm.take(i + 1).last() == sm[i as int]);
            }
            match self.get_weight(timeframe_scores[i].0.as_str()) {
                Ok(weight) => {
                    let score = timeframe_scores[i].1;
                    proof {
                        lemma_static_weights_bounded();
                        assert(model == spec_static_timeframes());
                        lemma_find_weight_le(model, sm[i as int].0, 20);
                        assert(spec_find_weight(model, sm[i as int].0) == Some(weight));
                        assert(weight <= 20);
                        assert(score == sm[i as int].1);
                        assert(score <= 10000);
                        assert(score * weight <= 200000) by (nonlinear_arith)
                            requires
                                score <= 10000,
                                weight <= 20,
                        ;
                    }
                    total_weighted_score = total_weighted_score + score * weight;
                    total_weight = total_weight + weight;
                },
                Err(_) => {},
            }
            i = i + 1;
        }
        proof {
            assert(sm.take(n as int) == sm);
        }
        if total_weight > 0 {
            Ok(total_weighted_score / total_weight)
        } else {
            Err(String::from_str("No valid timeframes found for confluence calculation"))
        }
    }
}

} // verus!
