//! The result envelope a provider returns for a single flag evaluation.

use vstd::prelude::*;

verus! {

/// Semantic classification of why a particular flag value was returned.
/// Providers may extend the fixed set with their own labels via `Other`.
#[derive(Clone, Debug, PartialEq, Eq)]
pub enum EvaluationReason {
    /// The resolved value is statically configured.
    Static,
    /// The resolved value fell back to a default.
    Default,
    /// The resolved value was the result of a dynamic targeting match.
    TargetingMatch,
    /// The resolved value was the result of pseudorandom assignment.
    Split,
    /// The resolved value came from a cache.
    Cached,
    /// The reason for the resolved value could not be determined.
    Unknown,
    /// The flag is disabled.
    Disabled,
    /// The resolution failed and a fallback value was returned.
    Error,
    /// A provider-specific reason outside the fixed set.
    Other(String),
}

/// Provider-supplied side metadata about a flag resolution: an opaque bag
/// of named textual values, carried through unmodified.
#[derive(Clone, Debug, PartialEq, Eq, Default)]
pub struct FlagMetadata {
    /// The metadata entries, as name/value pairs.
    pub entries: Vec<(String, String)>,
}

/// The result of a provider's flag resolution: the resolved value of the
/// flag's declared type, plus optional informational fields. No invariant
/// links the optional fields to the value; they are purely descriptive.
#[derive(Clone, Debug)]
pub struct ResolutionDetails<T> {
    /// The resolved flag value. Always present.
    pub value: T,
    /// Identifier of the configured variant that produced `value`.
    pub variant: Option<String>,
    /// Semantic reason for the returned value.
    pub reason: Option<EvaluationReason>,
    /// Provider-supplied metadata about the resolution.
    pub flag_metadata: Option<FlagMetadata>,
}

impl<T> ResolutionDetails<T> {
    /// Create a resolution result carrying just a value, with every
    /// optional field empty.
    pub fn new(value: T) -> (r: Self)
        ensures
            r.value == value,
            r.variant is None,
            r.reason is None,
            r.flag_metadata is None,
    {
        Self { value, variant: None, reason: None, flag_metadata: None }
    }

    /// Set the variant label, keeping every other field.
    pub fn with_variant(self, variant: String) -> (r: Self)
        ensures
            r.value == self.value,
            r.variant == Some(variant),
            r.reason == self.reason,
            r.flag_metadata == self.flag_metadata,
    {
        Self { variant: Some(variant), ..self }
    }

    /// Set the reason, keeping every other field.
    pub fn with_reason(self, reason: EvaluationReason) -> (r: Self)
        ensures
            r.value == self.value,
            r.variant == self.variant,
            r.reason == Some(reason),
            r.flag_metadata == self.flag_metadata,
    {
        Self { reason: Some(reason), ..self }
    }

    /// Set the flag metadata, keeping every other field.
    pub fn with_flag_metadata(self, flag_metadata: FlagMetadata) -> (r: Self)
        ensures
            r.value == self.value,
            r.variant == self.variant,
            r.reason == self.reason,
            r.flag_metadata == Some(flag_metadata),
    {
        Self { flag_metadata: Some(flag_metadata), ..self }
    }
}

impl<T: Default> Default for ResolutionDetails<T> {
    /// The fallback envelope: the value type's own default, with every
    /// optional field empty.
    fn default() -> (r: Self)
        ensures
            call_ensures(T::default, (), r.value),
            r.variant is None,
            r.reason is None,
            r.flag_metadata is None,
    {
        Self { value: T::default(), variant: None, reason: None, flag_metadata: None }
    }
}

} // verus!
