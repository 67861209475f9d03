//! Small sample configuration types.
//!
//! These exercise the capability contracts end to end on a concrete shape:
//! a single integer `timeout` field. [`TimeoutConfig`] imposes no invariants
//! beyond the type system; [`StrictTimeoutConfig`] rejects negative
//! timeouts. Both decode through the trusted codec boundary, so their
//! decoders carry the exact contracts the [`Config`](crate::config::Config)
//! trait demands.

use crate::codec::json_doc;
use crate::codec::json_error_text;
use crate::codec::json_parse_value;
use crate::codec::json_value_as_i64;
use crate::codec::json_value_get;
use crate::codec::toml_doc;
use crate::codec::toml_error_text;
use crate::codec::toml_parse_table;
use crate::codec::toml_table_get;
use crate::codec::toml_value_as_integer;
use crate::config::Config;
use crate::error::ConfigError;
use crate::validate::Validate;
use vstd::prelude::*;

verus! {

/// The integer `timeout` entry of the TOML document the text parses to:
/// nothing when the text is not valid TOML, when it has no top-level
/// `timeout` entry, or when that entry is not an integer.
pub open spec fn spec_toml_timeout(s: Seq<char>) -> Option<i64> {
    match toml_doc(s) {
        Some(entries) => if entries.contains_key("timeout"@) {
            entries["timeout"@]
        } else {
            None
        },
        None => None,
    }
}

/// The integer `timeout` member of the JSON object the text parses to:
/// nothing when the text is not valid JSON, when the root has no `timeout`
/// member, or when that member is not an integer fitting `i64`.
pub open spec fn spec_json_timeout(s: Seq<char>) -> Option<i64> {
    match json_doc(s) {
        Some(members) => if members.contains_key("timeout"@) {
            members["timeout"@]
        } else {
            None
        },
        None => None,
    }
}

/// Builds the chained error a failed decode returns: the summary message and
/// kind on top, the underlying diagnostic text as the cause.
fn decode_error(summary: &str, kind: &str, cause_text: &str, cause_fallback: &str) -> (e:
    ConfigError)
    requires
        summary@.len() > 0,
        cause_fallback@.len() > 0,
    ensures
        e.wf(),
        e.has_kind(kind@),
        e.spec_message() == summary@,
        e.spec_context() is None,
        e.spec_source() is Some,
{
    ConfigError::new(summary).with_kind(kind).with_source(
        ConfigError::new_or(cause_text, cause_fallback),
    )
}

/// Reads the integer `timeout` entry of a TOML document.
///
/// Fails with kind `"TOML parse error"` and a chained cause when the text is
/// not valid TOML, when it has no top-level `timeout` entry, or when that
/// entry is not an integer.
fn timeout_from_toml(s: &str) -> (r: Result<i64, ConfigError>)
    ensures
        spec_toml_timeout(s@) matches Some(n) ==> r == Ok::<i64, ConfigError>(n),
        spec_toml_timeout(s@) is None ==> (r matches Err(e) && e.wf() && e.has_kind(
            "TOML parse error"@,
        ) && e.spec_message() == "Failed to parse TOML"@ && e.spec_context() is None
            && e.spec_source() is Some),
{
    proof {
        reveal_strlit("Failed to parse TOML");
        reveal_strlit("missing or non-integer `timeout` entry");
        reveal_strlit("TOML deserialisation failed");
    }
    match toml_parse_table(s) {
        Ok(table) => match toml_table_get(&table, "timeout") {
            Some(v) => match toml_value_as_integer(v) {
                Some(n) => Ok(n),
                None => Err(
                    decode_error(
                        "Failed to parse TOML",
                        "TOML parse error",
                        "missing or non-integer `timeout` entry",
                        "TOML deserialisation failed",
                    ),
                ),
            },
            None => Err(
                decode_error(
                    "Failed to parse TOML",
                    "TOML parse error",
                    "missing or non-integer `timeout` entry",
                    "TOML deserialisation failed",
                ),
            ),
        },
        Err(cause) => {
            let text = toml_error_text(&cause);
            Err(
                decode_error(
                    "Failed to parse TOML",
                    "TOML parse error",
                    text.as_str(),
                    "TOML deserialisation failed",
                ),
            )
        },
    }
}

/// Reads the integer `timeout` member of a JSON object.
///
/// Fails with kind `"JSON parse error"` and a chained cause when the text is
/// not valid JSON, when the root has no `timeout` member, or when that
/// member is not an integer.
fn timeout_from_json(s: &str) -> (r: Result<i64, ConfigError>)
    ensures
        spec_json_timeout(s@) matches Some(n) ==> r == Ok::<i64, ConfigError>(n),
        spec_json_timeout(s@) is None ==> (r matches Err(e) && e.wf() && e.has_kind(
            "JSON parse error"@,
        ) && e.spec_message() == "Failed to parse JSON"@ && e.spec_context() is None
            && e.spec_source() is Some),
{
    proof {
        reveal_strlit("Failed to parse JSON");
        reveal_strlit("missing or non-integer `timeout` member");
        reveal_strlit("JSON deserialisation failed");
    }
    match json_parse_value(s) {
        Ok(root) => match json_value_get(&root, "timeout") {
            Some(v) => match json_value_as_i64(v) {
                Some(n) => Ok(n),
                None => Err(
                    decode_error(
                        "Failed to parse JSON",
                        "JSON parse error",
                        "missing or non-integer `timeout` member",
                        "JSON deserialisation failed",
                    ),
                ),
            },
            None => Err(
                decode_error(
                    "Failed to parse JSON",
                    "JSON parse error",
                    "missing or non-integer `timeout` member",
                    "JSON deserialisation failed",
                ),
            ),
        },
        Err(cause) => {
            let text = json_error_text(&cause);
            Err(
                decode_error(
                    "Failed to parse JSON",
                    "JSON parse error",
                    text.as_str(),
                    "JSON deserialisation failed",
                ),
            )
        },
    }
}

/// A configuration with a single integer `timeout` and no invariants beyond
/// what the type system enforces: every instance is valid.
#[derive(Debug, Clone, Copy, PartialEq, Eq, Structural)]
pub struct TimeoutConfig {
    /// The timeout, in whatever unit the consuming application uses.
    pub timeout: i64,
}

impl Validate for TimeoutConfig {
    open spec fn valid(&self) -> bool {
        true
    }

    fn validate(&self) -> (r: Result<(), ConfigError>) {
        Ok(())
    }
}

impl Config for TimeoutConfig {
    open spec fn spec_from_toml(s: Seq<char>) -> Option<TimeoutConfig> {
        match spec_toml_timeout(s) {
            Some(n) => Some(TimeoutConfig { timeout: n }),
            None => None,
        }
    }

    open spec fn spec_from_json(s: Seq<char>) -> Option<TimeoutConfig> {
        match spec_json_timeout(s) {
            Some(n) => Some(TimeoutConfig { timeout: n }),
            None => None,
        }
    }

    fn from_toml_str(s: &str) -> (r: Result<Self, ConfigError>) {
        match timeout_from_toml(s) {
            Ok(n) => Ok(TimeoutConfig { timeout: n }),
            Err(e) => Err(e),
        }
    }

    fn from_json_str(s: &str) -> (r: Result<Self, ConfigError>) {
        match timeout_from_json(s) {
            Ok(n) => Ok(TimeoutConfig { timeout: n }),
            Err(e) => Err(e),
        }
    }
}

/// A configuration with a single integer `timeout` whose validation rejects
/// negative values.
#[derive(Debug, Clone, Copy, PartialEq, Eq, Structural)]
pub struct StrictTimeoutConfig {
    /// The timeout; validation demands it is non-negative.
    pub timeout: i64,
}

impl Validate for StrictTimeoutConfig {
    open spec fn valid(&self) -> bool {
        self.timeout >= 0
    }

    fn validate(&self) -> (r: Result<(), ConfigError>)
        ensures
            r matches Err(e) ==> (e.spec_message() == "timeout must be non-negative"@
                && e.spec_context() == Some("field: timeout"@) && e.spec_source() is None),
    {
        if self.timeout >= 0 {
            Ok(())
        } else {
            proof {
                reveal_strlit("timeout must be non-negative");
            }
            Err(
                ConfigError::new("timeout must be non-negative").with_kind(
                    "ValidationError",
                ).with_context("field: timeout"),
            )
        }
    }
}

impl Config for StrictTimeoutConfig {
    open spec fn spec_from_toml(s: Seq<char>) -> Option<StrictTimeoutConfig> {
        match spec_toml_timeout(s) {
            Some(n) => Some(StrictTimeoutConfig { timeout: n }),
            None => None,
        }
    }

    open spec fn spec_from_json(s: Seq<char>) -> Option<StrictTimeoutConfig> {
        match spec_json_timeout(s) {
            Some(n) => Some(StrictTimeoutConfig { timeout: n }),
            None => None,
        }
    }

    fn from_toml_str(s: &str) -> (r: Result<Self, ConfigError>) {
        match timeout_from_toml(s) {
            Ok(n) => Ok(StrictTimeoutConfig { timeout: n }),
            Err(e) => Err(e),
        }
    }

    fn from_json_str(s: &str) -> (r: Result<Self, ConfigError>) {
        match timeout_from_json(s) {
            Ok(n) => Ok(StrictTimeoutConfig { timeout: n }),
            Err(e) => Err(e),
        }
    }
}

} // verus!
