//! The typed, multi-variant value a custom context field can hold, with a
//! typed accessor per variant and exact-type recovery for opaque payloads.

use vstd::prelude::*;

verus! {

/// A 64-bit floating-point payload, held as its IEEE 754 binary64 bit
/// pattern. Two payloads are equal exactly when their bit patterns are.
#[derive(Clone, Copy, Debug, PartialEq, Eq, Structural)]
pub struct FloatBits {
    /// The IEEE 754 binary64 bit pattern of the value.
    pub bits: u64,
}

/// A timezone-aware instant, held as plain integers: the moment in time
/// together with the local offset it was recorded in.
#[derive(Clone, Copy, Debug, PartialEq, Eq, Structural)]
pub struct DateTime {
    /// Nanoseconds since the Unix epoch, counted in UTC.
    pub unix_nanoseconds: i128,
    /// The local UTC offset, in whole seconds east of UTC.
    pub offset_seconds: i32,
}

/// A shared, opaque, reference-counted handle to an arbitrary caller-defined
/// structured value, recoverable only as its original concrete type.
///
/// The payload is erased behind `std::sync::Arc<dyn core::any::Any>`; nothing
/// about its content is visible here, so every operation on the handle is
/// trusted and the handle itself is opaque to the proofs. Cloning shares the
/// payload; the payload is treated as immutable once wrapped.
#[verifier::external_body]
pub struct StructValue {
    inner: std::sync::Arc<dyn core::any::Any + Send + Sync>,
    eq_fn: std::sync::Arc<
        dyn Fn(&(dyn core::any::Any + Send + Sync), &(dyn core::any::Any + Send + Sync)) -> bool
            + Send
            + Sync,
    >,
}

impl StructValue {
    /// Wrap a value behind a shared handle.
    ///
    /// Relies on `std::sync::Arc::new` for the shared allocation and on
    /// `core::any::Any::downcast_ref` for the stored comparator: two handles
    /// compare equal only when both wrap this same concrete type and the
    /// payloads are equal by that type's own `==`.
    #[verifier::external_body]
    pub fn new<T: core::any::Any + Send + Sync + PartialEq>(value: T) -> StructValue {
        StructValue {
            inner: std::sync::Arc::new(value),
            eq_fn: std::sync::Arc::new(|a, b| match (
                a.downcast_ref::<T>(),
                b.downcast_ref::<T>(),
            ) {
                (Some(x), Some(y)) => x == y,
                _ => false,
            }),
        }
    }

    /// Recover the payload as its original concrete type: the shared payload
    /// re-typed as `T` if the handle was built from a `T`, absent otherwise.
    ///
    /// Relies on `std::sync::Arc::downcast`, which succeeds exactly when the
    /// wrapped value's concrete type is `T`. That type identity has no model
    /// here, so nothing is claimed of which branch comes back.
    #[verifier::external_body]
    pub fn downcast<T: core::any::Any + Send + Sync>(&self) -> Option<std::sync::Arc<T>> {
        std::sync::Arc::clone(&self.inner).downcast::<T>().ok()
    }
}

impl Clone for StructValue {
    /// Share the payload: the clone is the same handle value.
    ///
    /// Relies on `std::sync::Arc::clone`, which returns a handle to the very
    /// same allocation.
    #[verifier::external_body]
    fn clone(&self) -> (r: Self)
        ensures
            r == *self,
    {
        StructValue {
            inner: std::sync::Arc::clone(&self.inner),
            eq_fn: std::sync::Arc::clone(&self.eq_fn),
        }
    }
}

impl PartialEq for StructValue {
    /// Relies on the comparator stored at construction, built on
    /// `core::any::Any::downcast_ref`: true only when both handles wrap the
    /// same concrete type and the payloads are equal by that type's `==`.
    #[verifier::external_body]
    fn eq(&self, other: &Self) -> bool {
        (self.eq_fn)(&*self.inner, &*other.inner)
    }
}

/// A custom context field's value: a closed tagged union of the supported
/// kinds. The tag fully determines which typed accessor returns the payload;
/// every other accessor returns `None`. There is no cross-variant coercion.
#[derive(PartialEq)]
pub enum EvaluationContextFieldValue {
    /// A boolean value.
    Bool(bool),
    /// A 64-bit signed integer value.
    Int(i64),
    /// A 64-bit floating-point value, as its bit pattern.
    Float(FloatBits),
    /// A text value.
    String(String),
    /// A timezone-aware instant.
    DateTime(DateTime),
    /// An opaque structured value, shared and recoverable only as its
    /// original concrete type.
    Struct(StructValue),
}

impl Clone for EvaluationContextFieldValue {
    /// The clone is equal to the original; a `Struct` payload is shared,
    /// not copied.
    fn clone(&self) -> (r: Self)
        ensures
            r == *self,
    {
        match self {
            EvaluationContextFieldValue::Bool(b) => EvaluationContextFieldValue::Bool(*b),
            EvaluationContextFieldValue::Int(i) => EvaluationContextFieldValue::Int(*i),
            EvaluationContextFieldValue::Float(f) => EvaluationContextFieldValue::Float(*f),
            EvaluationContextFieldValue::String(s) => EvaluationContextFieldValue::String(
                s.clone(),
            ),
            EvaluationContextFieldValue::DateTime(d) => EvaluationContextFieldValue::DateTime(*d),
            EvaluationContextFieldValue::Struct(v) => EvaluationContextFieldValue::Struct(
                v.clone(),
            ),
        }
    }
}

impl EvaluationContextFieldValue {
    /// The boolean payload, if this value is the `Bool` variant.
    pub open spec fn as_bool_spec(self) -> Option<bool> {
        match self {
            EvaluationContextFieldValue::Bool(b) => Some(b),
            _ => None,
        }
    }

    /// The integer payload, if this value is the `Int` variant.
    pub open spec fn as_int_spec(self) -> Option<i64> {
        match self {
            EvaluationContextFieldValue::Int(i) => Some(i),
            _ => None,
        }
    }

    /// The floating-point payload, if this value is the `Float` variant.
    pub open spec fn as_float_spec(self) -> Option<FloatBits> {
        match self {
            EvaluationContextFieldValue::Float(f) => Some(f),
            _ => None,
        }
    }

    /// The text payload, if this value is the `String` variant.
    pub open spec fn as_string_spec(self) -> Option<String> {
        match self {
            EvaluationContextFieldValue::String(s) => Some(s),
            _ => None,
        }
    }

    /// The instant payload, if this value is the `DateTime` variant.
    pub open spec fn as_date_time_spec(self) -> Option<DateTime> {
        match self {
            EvaluationContextFieldValue::DateTime(d) => Some(d),
            _ => None,
        }
    }

    /// The structured payload, if this value is the `Struct` variant.
    pub open spec fn as_struct_spec(self) -> Option<StructValue> {
        match self {
            EvaluationContextFieldValue::Struct(v) => Some(v),
            _ => None,
        }
    }

    /// The boolean payload, or `None` when the tag is not `Bool`.
    pub fn as_bool(&self) -> (r: Option<bool>)
        ensures
            r == self.as_bool_spec(),
    {
        match self {
            EvaluationContextFieldValue::Bool(b) => Some(*b),
            _ => None,
        }
    }

    /// The integer payload, or `None` when the tag is not `Int`.
    pub fn as_int(&self) -> (r: Option<i64>)
        ensures
            r == self.as_int_spec(),
    {
        match self {
            EvaluationContextFieldValue::Int(i) => Some(*i),
            _ => None,
        }
    }

    /// The floating-point payload, or `None` when the tag is not `Float`.
    pub fn as_float(&self) -> (r: Option<FloatBits>)
        ensures
            r == self.as_float_spec(),
    {
        match self {
            EvaluationContextFieldValue::Float(f) => Some(*f),
            _ => None,
        }
    }

    /// The text payload, or `None` when the tag is not `String`.
    pub fn as_string(&self) -> (r: Option<String>)
        ensures
            r == self.as_string_spec(),
    {
        match self {
            EvaluationContextFieldValue::String(s) => Some(s.clone()),
            _ => None,
        }
    }

    /// The instant payload, or `None` when the tag is not `DateTime`.
    pub fn as_date_time(&self) -> (r: Option<DateTime>)
        ensures
            r == self.as_date_time_spec(),
    {
        match self {
            EvaluationContextFieldValue::DateTime(d) => Some(*d),
            _ => None,
        }
    }

    /// The structured payload, or `None` when the tag is not `Struct`. The
    /// returned handle shares the payload with this value.
    pub fn as_struct(&self) -> (r: Option<StructValue>)
        ensures
            r == self.as_struct_spec(),
    {
        match self {
            EvaluationContextFieldValue::Struct(v) => Some(v.clone()),
            _ => None,
        }
    }
}

impl From<bool> for EvaluationContextFieldValue {
    fn from(value: bool) -> (r: Self) {
        EvaluationContextFieldValue::Bool(value)
    }
}

impl vstd::std_specs::convert::FromSpecImpl<bool> for EvaluationContextFieldValue {
    open spec fn obeys_from_spec() -> bool {
        true
    }

    open spec fn from_spec(value: bool) -> Self {
        EvaluationContextFieldValue::Bool(value)
    }
}

impl From<i64> for EvaluationContextFieldValue {
    fn from(value: i64) -> (r: Self) {
        EvaluationContextFieldValue::Int(value)
    }
}

impl vstd::std_specs::convert::FromSpecImpl<i64> for EvaluationContextFieldValue {
    open spec fn obeys_from_spec() -> bool {
        true
    }

    open spec fn from_spec(value: i64) -> Self {
        EvaluationContextFieldValue::Int(value)
    }
}

impl From<FloatBits> for EvaluationContextFieldValue {
    fn from(value: FloatBits) -> (r: Self) {
        EvaluationContextFieldValue::Float(value)
    }
}

impl vstd::std_specs::convert::FromSpecImpl<FloatBits> for EvaluationContextFieldValue {
    open spec fn obeys_from_spec() -> bool {
        true
    }

    open spec fn from_spec(value: FloatBits) -> Self {
        EvaluationContextFieldValue::Float(value)
    }
}

impl From<String> for EvaluationContextFieldValue {
    fn from(value: String) -> (r: Self) {
        EvaluationContextFieldValue::String(value)
    }
}

impl vstd::std_specs::convert::FromSpecImpl<String> for EvaluationContextFieldValue {
    open spec fn obeys_from_spec() -> bool {
        true
    }

    open spec fn from_spec(value: String) -> Self {
        EvaluationContextFieldValue::String(value)
    }
}

impl From<DateTime> for EvaluationContextFieldValue {
    fn from(value: DateTime) -> (r: Self) {
        EvaluationContextFieldValue::DateTime(value)
    }
}

impl vstd::std_specs::convert::FromSpecImpl<DateTime> for EvaluationContextFieldValue {
    open spec fn obeys_from_spec() -> bool {
        true
    }

    open spec fn from_spec(value: DateTime) -> Self {
        EvaluationContextFieldValue::DateTime(value)
    }
}

impl From<StructValue> for EvaluationContextFieldValue {
    fn from(value: StructValue) -> (r: Self) {
        EvaluationContextFieldValue::Struct(value)
    }
}

impl vstd::std_specs::convert::FromSpecImpl<StructValue> for EvaluationContextFieldValue {
    open spec fn obeys_from_spec() -> bool {
        true
    }

    open spec fn from_spec(value: StructValue) -> Self {
        EvaluationContextFieldValue::Struct(value)
    }
}

/// Law: a value built from a native boolean reads back exactly through the
/// boolean accessor, and as absent through every other accessor.
pub proof fn lemma_bool_round_trip(b: bool)
    ensures
        EvaluationContextFieldValue::Bool(b).as_bool_spec() == Some(b),
        EvaluationContextFieldValue::Bool(b).as_int_spec() is None,
        EvaluationContextFieldValue::Bool(b).as_float_spec() is None,
        EvaluationContextFieldValue::Bool(b).as_string_spec() is None,
        EvaluationContextFieldValue::Bool(b).as_date_time_spec() is None,
        EvaluationContextFieldValue::Bool(b).as_struct_spec() is None,
{
}

/// Law: a value built from a native integer reads back exactly through the
/// integer accessor, and as absent through every other accessor.
pub proof fn lemma_int_round_trip(i: i64)
    ensures
        EvaluationContextFieldValue::Int(i).as_int_spec() == Some(i),
        EvaluationContextFieldValue::Int(i).as_bool_spec() is None,
        EvaluationContextFieldValue::Int(i).as_float_spec() is None,
        EvaluationContextFieldValue::Int(i).as_string_spec() is None,
        EvaluationContextFieldValue::Int(i).as_date_time_spec() is None,
        EvaluationContextFieldValue::Int(i).as_struct_spec() is None,
{
}

/// Law: a value built from a floating-point bit pattern reads back exactly
/// through the float accessor, and as absent through every other accessor.
pub proof fn lemma_float_round_trip(f: FloatBits)
    ensures
        EvaluationContextFieldValue::Float(f).as_float_spec() == Some(f),
        EvaluationContextFieldValue::Float(f).as_bool_spec() is None,
        EvaluationContextFieldValue::Float(f).as_int_spec() is None,
        EvaluationContextFieldValue::Float(f).as_string_spec() is None,
        EvaluationContextFieldValue::Float(f).as_date_time_spec() is None,
        EvaluationContextFieldValue::Float(f).as_struct_spec() is None,
{
}

/// Law: a value built from text reads back exactly through the string
/// accessor, and as absent through every other accessor.
pub proof fn lemma_string_round_trip(s: String)
    ensures
        EvaluationContextFieldValue::String(s).as_string_spec() == Some(s),
        EvaluationContextFieldValue::String(s).as_bool_spec() is None,
        EvaluationContextFieldValue::String(s).as_int_spec() is None,
        EvaluationContextFieldValue::String(s).as_float_spec() is None,
        EvaluationContextFieldValue::String(s).as_date_time_spec() is None,
        EvaluationContextFieldValue::String(s).as_struct_spec() is None,
{
}

/// Law: a value built from a timestamp reads back exactly through the
/// date-time accessor, and as absent through every other accessor.
pub proof fn lemma_date_time_round_trip(d: DateTime)
    ensures
        EvaluationContextFieldValue::DateTime(d).as_date_time_spec() == Some(d),
        EvaluationContextFieldValue::DateTime(d).as_bool_spec() is None,
        EvaluationContextFieldValue::DateTime(d).as_int_spec() is None,
        EvaluationContextFieldValue::DateTime(d).as_float_spec() is None,
        EvaluationContextFieldValue::DateTime(d).as_string_spec() is None,
        EvaluationContextFieldValue::DateTime(d).as_struct_spec() is None,
{
}

/// Law: a wrapped structured handle reads back exactly through the struct
/// accessor, and as absent through every other accessor.
pub proof fn lemma_struct_round_trip(v: StructValue)
    ensures
        EvaluationContextFieldValue::Struct(v).as_struct_spec() == Some(v),
        EvaluationContextFieldValue::Struct(v).as_bool_spec() is None,
        EvaluationContextFieldValue::Struct(v).as_int_spec() is None,
        EvaluationContextFieldValue::Struct(v).as_float_spec() is None,
        EvaluationContextFieldValue::Struct(v).as_string_spec() is None,
        EvaluationContextFieldValue::Struct(v).as_date_time_spec() is None,
{
}

} // verus!
