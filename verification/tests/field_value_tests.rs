use open_feature_model::DateTime;
use open_feature_model::EvaluationContextFieldValue;
use open_feature_model::FloatBits;
use open_feature_model::StructValue;

#[derive(Clone, PartialEq, Eq, Debug)]
pub struct Account {
    pub id: i64,
    pub name: String,
}

/// A different concrete type with the very same fields as `Account`.
#[derive(Clone, PartialEq, Eq, Debug)]
pub struct Profile {
    pub id: i64,
    pub name: String,
}

#[test]
fn bool_round_trip() {
    let value = EvaluationContextFieldValue::from(true);
    assert_eq!(value.as_bool(), Some(true));
    assert_eq!(value.as_int(), None);
    assert_eq!(value.as_float(), None);
    assert_eq!(value.as_string(), None);
    assert_eq!(value.as_date_time(), None);
    assert!(value.as_struct().is_none());
}

#[test]
fn int_round_trip() {
    let value = EvaluationContextFieldValue::from(100i64);
    assert_eq!(value.as_int(), Some(100));
    assert_eq!(value.as_bool(), None);
    assert_eq!(value.as_float(), None);
    assert_eq!(value.as_string(), None);
    assert_eq!(value.as_date_time(), None);
    assert!(value.as_struct().is_none());
}

#[test]
fn float_round_trip() {
    let bits = FloatBits { bits: 3.14f64.to_bits() };
    let value = EvaluationContextFieldValue::from(bits);
    assert_eq!(value.as_float(), Some(bits));
    assert_eq!(f64::from_bits(value.as_float().unwrap().bits), 3.14);
    assert_eq!(value.as_bool(), None);
    assert_eq!(value.as_int(), None);
    assert_eq!(value.as_string(), None);
    assert_eq!(value.as_date_time(), None);
    assert!(value.as_struct().is_none());
}

#[test]
fn string_round_trip() {
    let value = EvaluationContextFieldValue::from("Hello".to_string());
    assert_eq!(value.as_string(), Some("Hello".to_string()));
    assert_eq!(value.as_bool(), None);
    assert_eq!(value.as_int(), None);
    assert_eq!(value.as_float(), None);
    assert_eq!(value.as_date_time(), None);
    assert!(value.as_struct().is_none());
}

#[test]
fn date_time_round_trip() {
    let instant = DateTime { unix_nanoseconds: 1_700_000_000_000_000_000, offset_seconds: -18000 };
    let value = EvaluationContextFieldValue::from(instant);
    assert_eq!(value.as_date_time(), Some(instant));
    assert_eq!(value.as_bool(), None);
    assert_eq!(value.as_int(), None);
    assert_eq!(value.as_float(), None);
    assert_eq!(value.as_string(), None);
    assert!(value.as_struct().is_none());
}

#[test]
fn struct_round_trip() {
    let original = Account { id: 7, name: "Ada".to_string() };
    let value = EvaluationContextFieldValue::from(StructValue::new(original.clone()));

    let handle = value.as_struct().unwrap();
    assert_eq!(*handle.downcast::<Account>().unwrap(), original);

    assert_eq!(value.as_bool(), None);
    assert_eq!(value.as_int(), None);
    assert_eq!(value.as_float(), None);
    assert_eq!(value.as_string(), None);
    assert_eq!(value.as_date_time(), None);
}

#[test]
fn struct_downcast_is_exact_type() {
    let account = Account { id: 7, name: "Ada".to_string() };
    let handle = StructValue::new(account.clone());

    assert!(handle.downcast::<Account>().is_some());
    // A structurally identical but distinct type is not recoverable.
    assert!(handle.downcast::<Profile>().is_none());
    assert!(handle.downcast::<String>().is_none());
}

#[test]
fn struct_equality_is_exact_type_and_content() {
    let a = StructValue::new(Account { id: 7, name: "Ada".to_string() });
    let same = StructValue::new(Account { id: 7, name: "Ada".to_string() });
    let different = StructValue::new(Account { id: 8, name: "Bob".to_string() });
    let other_type = StructValue::new(Profile { id: 7, name: "Ada".to_string() });

    assert!(a == same);
    assert!(a == a.clone());
    assert!(a != different);
    assert!(a != other_type);
}

#[test]
fn no_cross_variant_equality() {
    assert!(EvaluationContextFieldValue::Int(1) != EvaluationContextFieldValue::Bool(true));
    assert!(
        EvaluationContextFieldValue::Int(0)
            != EvaluationContextFieldValue::Float(FloatBits { bits: 0 })
    );
    assert!(
        EvaluationContextFieldValue::Bool(true) == EvaluationContextFieldValue::Bool(true)
    );
    assert!(EvaluationContextFieldValue::Int(1) == EvaluationContextFieldValue::Int(1));
    assert!(EvaluationContextFieldValue::Int(1) != EvaluationContextFieldValue::Int(2));
}
