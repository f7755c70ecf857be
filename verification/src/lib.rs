//! Data model for feature-flag evaluation: the ambient evaluation context
//! handed to flag-resolution calls, the typed values its custom fields hold,
//! and the resolution-details envelope a provider returns.

pub mod context;
pub mod details;
pub mod field_value;

pub use context::merged_fields;
pub use context::merged_targeting_key;
pub use context::EvaluationContext;
pub use context::FieldMap;

pub use field_value::DateTime;
pub use field_value::EvaluationContextFieldValue;
pub use field_value::FloatBits;
pub use field_value::StructValue;
pub use details::EvaluationReason;
pub use details::FlagMetadata;
pub use details::ResolutionDetails;
