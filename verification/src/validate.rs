//! The validation capability.

use crate::error::ConfigError;
use vstd::prelude::*;

verus! {

/// Trait for validating configuration structures.
///
/// Provides a mechanism to enforce invariants or sanity checks on decoded
/// configuration data before it is used at runtime. A type with no
/// invariants beyond what the type system already enforces defines
/// [`Validate::valid`] as `true` and returns `Ok(())` from
/// [`Validate::validate`].
pub trait Validate: Sized {
    /// When an instance satisfies its domain-specific rules.
    spec fn valid(&self) -> bool;

    /// Run validation logic on the configuration instance.
    ///
    /// Returns `Ok(())` exactly when the instance is valid; any violation of
    /// domain rules is signaled as a well-formed `ConfigError` with kind
    /// `"ValidationError"`.
    fn validate(&self) -> (r: Result<(), ConfigError>)
        ensures
            r is Ok <==> self.valid(),
            r matches Err(e) ==> e.wf() && e.has_kind("ValidationError"@),
    ;
}

} // verus!
