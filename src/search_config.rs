use vstd::prelude::*;
use std::collections::HashMap;

verus! {

/// Why a configuration could not be read: the text of envconfig's error.
#[derive(Debug, Clone, PartialEq, Eq)]
pub struct ConfigError {
    pub message: String,
}

/// The value of the last pair named `name` in an environment snapshot.
pub open spec fn env_lookup(vars: Seq<(String, String)>, name: Seq<char>) -> Option<Seq<char>>
    decreases vars.len(),
{
    if vars.len() == 0 {
        None
    } else if vars.last().0@ == name {
        Some(vars.last().1@)
    } else {
        env_lookup(vars.drop_last(), name)
    }
}

/// The value of `name` in the snapshot, or `default` where it is absent.
pub open spec fn env_value_or(vars: Seq<(String, String)>, name: Seq<char>, default: Seq<char>) -> Seq<char> {
    match env_lookup(vars, name) {
        Some(v) => v,
        None => default,
    }
}

/// The number that a non-empty run of ASCII digits stands for.
pub open spec fn digits_value(s: Seq<char>) -> int
    decreases s.len(),
{
    if s.len() == 0 {
        0
    } else {
        digits_value(s.drop_last()) * 10 + (s.last() as u32 - '0' as u32)
    }
}

/// The text is one or more ASCII digits.
pub open spec fn is_digits(s: Seq<char>) -> bool {
    s.len() > 0 && forall|i: int| 0 <= i < s.len() ==> '0' <= #[trigger] s[i] <= '9'
}

/// The number that the text of an unsigned integer stands for, as std's
/// `FromStr` for unsigned integers reads it: an optional `+` followed by one
/// or more decimal digits.
pub open spec fn unsigned_value(s: Seq<char>) -> Option<int> {
    let d = if s.len() > 0 && s[0] == '+' { s.drop_first() } else { s };
    if is_digits(d) {
        Some(digits_value(d))
    } else {
        None
    }
}

/// The `u64` that the text stands for, if it stands for one that fits.
pub open spec fn parsed_u64(s: Seq<char>) -> Option<u64> {
    match unsigned_value(s) {
        Some(v) => if v <= u64::MAX {
            Some(v as u64)
        } else {
            None
        },
        None => None,
    }
}

/// The `u32` that the text stands for, if it stands for one that fits.
pub open spec fn parsed_u32(s: Seq<char>) -> Option<u32> {
    match unsigned_value(s) {
        Some(v) => if v <= u32::MAX {
            Some(v as u32)
        } else {
            None
        },
        None => None,
    }
}

/// Relies on `envconfig::load_var_with_default` read as `String` from a map
/// built from the snapshot (a later pair wins): the variable's text, or the
/// default where it is absent; parsing into `String` does not fail.
#[verifier::external_body]
fn load_text_or(vars: &Vec<(String, String)>, name: &'static str, default: &'static str) -> (r: Result<String, String>)
    ensures
        r is Ok,
        r matches Ok(s) ==> s@ == env_value_or(vars@, name@, default@),
{
    let map: HashMap<String, String> = vars.iter().cloned().collect();
    match envconfig::load_var_with_default::<String>(name, Some(&map), default) {
        Ok(v) => Ok(v),
        Err(e) => Err(e.to_string()),
    }
}

/// Relies on `envconfig::load_var_with_default` read as `u64`: the text (or
/// default) parsed by `u64::from_str`, an error where that fails.
#[verifier::external_body]
fn load_u64_or(vars: &Vec<(String, String)>, name: &'static str, default: &'static str) -> (r: Result<u64, String>)
    ensures
        r is Ok <==> parsed_u64(env_value_or(vars@, name@, default@)) is Some,
        r matches Ok(v) ==> parsed_u64(env_value_or(vars@, name@, default@)) == Some(v),
{
    let map: HashMap<String, String> = vars.iter().cloned().collect();
    match envconfig::load_var_with_default::<u64>(name, Some(&map), default) {
        Ok(v) => Ok(v),
        Err(e) => Err(e.to_string()),
    }
}

/// Relies on `envconfig::load_var_with_default` read as `u32`: the text (or
/// default) parsed by `u32::from_str`, an error where that fails.
#[verifier::external_body]
fn load_u32_or(vars: &Vec<(String, String)>, name: &'static str, default: &'static str) -> (r: Result<u32, String>)
    ensures
        r is Ok <==> parsed_u32(env_value_or(vars@, name@, default@)) is Some,
        r matches Ok(v) ==> parsed_u32(env_value_or(vars@, name@, default@)) == Some(v),
{
    let map: HashMap<String, String> = vars.iter().cloned().collect();
    match envconfig::load_var_with_default::<u32>(name, Some(&map), default) {
        Ok(v) => Ok(v),
        Err(e) => Err(e.to_string()),
    }
}

/// Relies on `envconfig::load_optional_var` read as `String`: the variable's
/// text if it is present; parsing into `String` does not fail.
#[verifier::external_body]
fn load_optional_text(vars: &Vec<(String, String)>, name: &'static str) -> (r: Result<Option<String>, String>)
    ensures
        r is Ok,
        r matches Ok(o) ==> optional_from(o, vars@, name@),
{
    let map: HashMap<String, String> = vars.iter().cloned().collect();
    match envconfig::load_optional_var::<String>(name, Some(&map)) {
        Ok(v) => Ok(v),
        Err(e) => Err(e.to_string()),
    }
}

/// What `std::time::Duration::from_secs` makes of a number of seconds.
pub uninterp spec fn seconds_duration(secs: u64) -> std::time::Duration;

/// Relies on `Duration::from_secs`, whose result depends on its argument alone.
#[verifier::external_body]
fn duration_from_secs(secs: u64) -> (r: std::time::Duration)
    ensures
        r == seconds_duration(secs),
{
    std::time::Duration::from_secs(secs)
}

/// Connection settings of a search backend.
#[derive(Debug, Clone)]
pub struct SearchConfig {
    pub endpoint: String,
    pub timeout_secs: u64,
    pub max_retries: u32,
    pub log_level: String,
    pub username: Option<String>,
    pub password: Option<String>,
    pub cloud_id: Option<String>,
    pub api_key: Option<String>,
}

/// `o` holds the text of `name` in the snapshot exactly when it is present.
pub open spec fn optional_from(o: Option<String>, vars: Seq<(String, String)>, name: Seq<char>) -> bool {
    match env_lookup(vars, name) {
        Some(v) => o matches Some(s) && s@ == v,
        None => o is None,
    }
}

/// The snapshot's timeout and retry count, or their defaults, are numbers
/// that fit their fields.
pub open spec fn env_config_valid(vars: Seq<(String, String)>) -> bool {
    &&& parsed_u64(env_value_or(vars, "SEARCH_PROVIDER_TIMEOUT"@, "30"@)) is Some
    &&& parsed_u32(env_value_or(vars, "SEARCH_PROVIDER_MAX_RETRIES"@, "3"@)) is Some
}

/// `c` is the configuration that the snapshot describes, defaults filled in.
pub open spec fn is_config_from(c: SearchConfig, vars: Seq<(String, String)>) -> bool {
    &&& c.endpoint@ == env_value_or(vars, "SEARCH_PROVIDER_ENDPOINT"@, "http://localhost:9200"@)
    &&& parsed_u64(env_value_or(vars, "SEARCH_PROVIDER_TIMEOUT"@, "30"@)) == Some(c.timeout_secs)
    &&& parsed_u32(env_value_or(vars, "SEARCH_PROVIDER_MAX_RETRIES"@, "3"@)) == Some(c.max_retries)
    &&& c.log_level@ == env_value_or(vars, "SEARCH_PROVIDER_LOG_LEVEL"@, "info"@)
    &&& optional_from(c.username, vars, "ELASTIC_USERNAME"@)
    &&& optional_from(c.password, vars, "ELASTIC_PASSWORD"@)
    &&& optional_from(c.cloud_id, vars, "ELASTIC_CLOUD_ID"@)
    &&& optional_from(c.api_key, vars, "ELASTIC_API_KEY"@)
}

impl SearchConfig {
    /// Reads the configuration from a snapshot of the environment, filling in
    /// the defaults; fails where the timeout or retry count is no number that
    /// fits.
    pub fn from_env(vars: &Vec<(String, String)>) -> (r: Result<SearchConfig, ConfigError>)
        ensures
            match r {
                Ok(c) => is_config_from(c, vars@),
                Err(_) => !env_config_valid(vars@),
            },
    {
        let endpoint = match load_text_or(vars, "SEARCH_PROVIDER_ENDPOINT", "http://localhost:9200") {
            Ok(v) => v,
            Err(message) => return Err(ConfigError { message }),
        };
        let timeout_secs = match load_u64_or(vars, "SEARCH_PROVIDER_TIMEOUT", "30") {
            Ok(v) => v,
            Err(message) => return Err(ConfigError { message }),
        };
        let max_retries = match load_u32_or(vars, "SEARCH_PROVIDER_MAX_RETRIES", "3") {
            Ok(v) => v,
            Err(message) => return Err(ConfigError { message }),
        };
        let log_level = match load_text_or(vars, "SEARCH_PROVIDER_LOG_LEVEL", "info") {
            Ok(v) => v,
            Err(message) => return Err(ConfigError { message }),
        };
        let username = match load_optional_text(vars, "ELASTIC_USERNAME") {
            Ok(v) => v,
            Err(message) => return Err(ConfigError { message }),
        };
        let password = match load_optional_text(vars, "ELASTIC_PASSWORD") {
            Ok(v) => v,
            Err(message) => return Err(ConfigError { message }),
        };
        let cloud_id = match load_optional_text(vars, "ELASTIC_CLOUD_ID") {
            Ok(v) => v,
            Err(message) => return Err(ConfigError { message }),
        };
        let api_key = match load_optional_text(vars, "ELASTIC_API_KEY") {
            Ok(v) => v,
            Err(message) => return Err(ConfigError { message }),
        };
        Ok(SearchConfig { endpoint, timeout_secs, max_retries, log_level, username, password, cloud_id, api_key })
    }

    /// The request timeout.
    pub fn timeout(&self) -> (r: std::time::Duration)
        ensures
            r == seconds_duration(self.timeout_secs),
    {
        duration_from_secs(self.timeout_secs)
    }
}

} // verus!
