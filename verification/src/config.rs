//! The configuration capability.

use crate::error::ConfigError;
use crate::validate::Validate;
use vstd::prelude::*;

verus! {

/// Trait for configuration types that can be decoded from text and
/// validated.
///
/// An implementing type states as a specification which texts decode into
/// which instances ([`Config::spec_from_toml`], [`Config::spec_from_json`]),
/// and supplies the matching decoders. The validated-build step
/// ([`Config::validate_and_build`]) comes with a default body.
pub trait Config: Validate + Sized {
    /// The instance that the given TOML text decodes to, if any.
    spec fn spec_from_toml(s: Seq<char>) -> Option<Self>;

    /// The instance that the given JSON text decodes to, if any.
    spec fn spec_from_json(s: Seq<char>) -> Option<Self>;

    /// Parses the configuration from a TOML string slice.
    ///
    /// Returns the decoded instance exactly when the text decodes; on
    /// malformed syntax or a type mismatch it returns a well-formed error of
    /// kind `"TOML parse error"` with the message `"Failed to parse TOML"`,
    /// no context, and a cause preserving the underlying decoding failure.
    fn from_toml_str(s: &str) -> (r: Result<Self, ConfigError>)
        ensures
            Self::spec_from_toml(s@) matches Some(c) ==> r == Ok::<Self, ConfigError>(c),
            Self::spec_from_toml(s@) is None ==> (r matches Err(e) && e.wf() && e.has_kind(
                "TOML parse error"@,
            ) && e.spec_message() == "Failed to parse TOML"@ && e.spec_context() is None
                && e.spec_source() is Some),
    ;

    /// Parses the configuration from a JSON string slice.
    ///
    /// Returns the decoded instance exactly when the text decodes; on
    /// malformed syntax or a type mismatch it returns a well-formed error of
    /// kind `"JSON parse error"` with the message `"Failed to parse JSON"`,
    /// no context, and a cause preserving the underlying decoding failure.
    fn from_json_str(s: &str) -> (r: Result<Self, ConfigError>)
        ensures
            Self::spec_from_json(s@) matches Some(c) ==> r == Ok::<Self, ConfigError>(c),
            Self::spec_from_json(s@) is None ==> (r matches Err(e) && e.wf() && e.has_kind(
                "JSON parse error"@,
            ) && e.spec_message() == "Failed to parse JSON"@ && e.spec_context() is None
                && e.spec_source() is Some),
    ;

    /// Validates the configuration and returns the validated instance.
    ///
    /// On a valid instance this is the identity transform: the instance comes
    /// back unchanged, now trusted. On an invalid instance the validation
    /// error is relayed untouched; this method constructs no error of its
    /// own, which the contract states by tying the returned error to an
    /// outcome the validator's own contract permits.
    fn validate_and_build(self) -> (r: Result<Self, ConfigError>)
        ensures
            self.valid() ==> r == Ok::<Self, ConfigError>(self),
            !self.valid() ==> (r matches Err(e) && e.wf() && e.has_kind("ValidationError"@)
                && call_ensures(Self::validate, (&self,), Err::<(), ConfigError>(e))),
    {
        match self.validate() {
            Ok(()) => Ok(self),
            Err(e) => Err(e),
        }
    }
}

} // verus!
