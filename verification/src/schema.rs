//! Rendering example configuration documents.
//!
//! The example document a type's default instance serializes to is not a
//! formal schema, but a concrete reference for how configuration files
//! should be structured. Serializing the default instance is the caller's
//! part (it needs the consuming application's concrete type); this module
//! holds the verified logic that combines the two serialization outcomes
//! into the final reference document, or into the right error. Both
//! serializations are taken before anything is rendered, so a failure never
//! yields a truncated document.

use crate::error::ConfigError;
use vstd::prelude::*;
use vstd::string::*;

verus! {

/// The reference document: a labeled JSON block, a blank line, then a
/// labeled TOML block.
pub open spec fn spec_schema_text(json: Seq<char>, toml_text: Seq<char>) -> Seq<char> {
    "--- JSON Example ---\n"@ + json + "\n\n--- TOML Example ---\n"@ + toml_text + "\n"@
}

/// Combines the two serialization outcomes of a default instance into the
/// example document.
///
/// The JSON outcome is examined first: either failure yields an error of
/// kind `"SerialisationError"` whose cause preserves the serializer's
/// diagnostic, and nothing of the document is produced. When both succeeded
/// the full two-block document is returned.
pub fn render_schema(json: Result<String, String>, toml_text: Result<String, String>) -> (r: Result<
    String,
    ConfigError,
>)
    ensures
        json matches Err(m) ==> (r matches Err(e) && e.wf() && e.has_kind("SerialisationError"@)
            && e.spec_message() == "Failed to serialise default config to JSON"@
            && e.spec_source() is Some),
        json is Ok && (toml_text matches Err(m)) ==> (r matches Err(e) && e.wf() && e.has_kind(
            "SerialisationError"@,
        ) && e.spec_message() == "Failed to serialise default config to TOML"@
            && e.spec_source() is Some),
        json matches Ok(j) ==> (toml_text matches Ok(t) ==> (r matches Ok(out) && out@
            == spec_schema_text(j@, t@))),
{
    let j = match json {
        Ok(j) => j,
        Err(m) => {
            proof {
                reveal_strlit("Failed to serialise default config to JSON");
                reveal_strlit("JSON serialisation failed");
            }
            return Err(
                ConfigError::new("Failed to serialise default config to JSON").with_kind(
                    "SerialisationError",
                ).with_source(ConfigError::new_or(m.as_str(), "JSON serialisation failed")),
            );
        },
    };
    let t = match toml_text {
        Ok(t) => t,
        Err(m) => {
            proof {
                reveal_strlit("Failed to serialise default config to TOML");
                reveal_strlit("TOML serialisation failed");
            }
            return Err(
                ConfigError::new("Failed to serialise default config to TOML").with_kind(
                    "SerialisationError",
                ).with_source(ConfigError::new_or(m.as_str(), "TOML serialisation failed")),
            );
        },
    };
    let mut out: String = "--- JSON Example ---\n".to_owned();
    out.append(j.as_str());
    out.append("\n\n--- TOML Example ---\n");
    out.append(t.as_str());
    out.append("\n");
    proof {
        assert(out@ =~= spec_schema_text(j@, t@));
    }
    Ok(out)
}

} // verus!
