use open_feature_model::EvaluationContext;
use open_feature_model::EvaluationContextFieldValue;
use open_feature_model::DateTime;
use open_feature_model::FloatBits;
use open_feature_model::StructValue;

#[derive(Clone, PartialEq, Eq, Debug)]
pub struct DummyStruct {
    pub id: i64,
    pub name: String,
}

#[test]
fn merge_missig_given_empty() {
    let mut context = EvaluationContext::default()
        .with_targeting_key("Targeting Key".to_string())
        .with_custom_field(
            "Some".to_string(),
            EvaluationContextFieldValue::String("Value".to_string()),
        );

    let expected = context.clone();

    context.merge_missing(&EvaluationContext::default());

    assert!(context == expected);
}

#[test]
fn merge_missing_given_targeting_key() {
    let mut context = EvaluationContext::default().with_targeting_key("Targeting Key".to_string());

    let expected = context.clone();

    context.merge_missing(
        &EvaluationContext::default().with_targeting_key("Another Key".to_string()),
    );

    assert!(context == expected);
}

#[test]
fn merge_missing_given_custom_fields() {
    let mut context = EvaluationContext::default()
        .with_targeting_key("Targeting Key".to_string())
        .with_custom_field(
            "Key".to_string(),
            EvaluationContextFieldValue::String("Value".to_string()),
        );

    context.merge_missing(
        &EvaluationContext::default()
            .with_custom_field(
                "Key".to_string(),
                EvaluationContextFieldValue::String("Another Value".to_string()),
            )
            .with_custom_field(
                "Another Key".to_string(),
                EvaluationContextFieldValue::String("Value".to_string()),
            ),
    );

    assert!(
        context
            == EvaluationContext::default()
                .with_targeting_key("Targeting Key".to_string())
                .with_custom_field(
                    "Key".to_string(),
                    EvaluationContextFieldValue::String("Value".to_string()),
                )
                .with_custom_field(
                    "Another Key".to_string(),
                    EvaluationContextFieldValue::String("Value".to_string()),
                )
    )
}

#[test]
fn merge_missing_given_full() {
    let mut context = EvaluationContext::default();

    let other = EvaluationContext::default()
        .with_targeting_key("Targeting Key".to_string())
        .with_custom_field(
            "Key".to_string(),
            EvaluationContextFieldValue::String("Value".to_string()),
        );

    context.merge_missing(&other);

    assert!(context == other);
}

#[test]
fn fields_access() {
    let now_time = DateTime { unix_nanoseconds: 1_700_000_000_123_456_789, offset_seconds: 3600 };
    let struct_value = DummyStruct { id: 200, name: "Bob".to_string() };

    let context = EvaluationContext::default()
        .with_targeting_key("Key".to_string())
        .with_custom_field("Bool".to_string(), EvaluationContextFieldValue::Bool(true))
        .with_custom_field("Int".to_string(), EvaluationContextFieldValue::Int(100))
        .with_custom_field(
            "Float".to_string(),
            EvaluationContextFieldValue::Float(FloatBits { bits: 3.14f64.to_bits() }),
        )
        .with_custom_field(
            "String".to_string(),
            EvaluationContextFieldValue::String("Hello".to_string()),
        )
        .with_custom_field("Datetime".to_string(), EvaluationContextFieldValue::DateTime(now_time))
        .with_custom_field(
            "Struct".to_string(),
            EvaluationContextFieldValue::Struct(StructValue::new(struct_value.clone())),
        );

    assert_eq!(context.targeting_key, Some("Key".to_string()));
    assert!(context.custom_fields.get("Int") == Some(&EvaluationContextFieldValue::Int(100)));
    assert!(
        context.custom_fields.get("Float")
            == Some(&EvaluationContextFieldValue::Float(FloatBits { bits: 3.14f64.to_bits() }))
    );
    assert!(
        context.custom_fields.get("String")
            == Some(&EvaluationContextFieldValue::String("Hello".to_string()))
    );
    assert!(
        context.custom_fields.get("Datetime")
            == Some(&EvaluationContextFieldValue::DateTime(now_time))
    );
    assert_eq!(
        *context
            .custom_fields
            .get("Struct")
            .unwrap()
            .as_struct()
            .unwrap()
            .downcast::<DummyStruct>()
            .unwrap(),
        struct_value
    );
}

#[test]
fn insert_same_key_keeps_latest_value() {
    let mut context = EvaluationContext::default();
    context.add_custom_field(
        "Key".to_string(),
        EvaluationContextFieldValue::String("First".to_string()),
    );
    context.add_custom_field(
        "Key".to_string(),
        EvaluationContextFieldValue::String("Latest".to_string()),
    );

    assert_eq!(context.custom_fields.len(), 1);
    assert!(
        context.custom_fields.get("Key")
            == Some(&EvaluationContextFieldValue::String("Latest".to_string()))
    );
}

#[test]
fn merge_precedence() {
    let mut a = EvaluationContext::default()
        .with_targeting_key("k1".to_string())
        .with_custom_field("x".to_string(), EvaluationContextFieldValue::String("1".to_string()));
    let b = EvaluationContext::default()
        .with_targeting_key("k2".to_string())
        .with_custom_field("x".to_string(), EvaluationContextFieldValue::String("2".to_string()))
        .with_custom_field("y".to_string(), EvaluationContextFieldValue::String("3".to_string()));

    a.merge_missing(&b);

    assert_eq!(a.targeting_key, Some("k1".to_string()));
    assert!(a.custom_fields.get("x") == Some(&EvaluationContextFieldValue::String("1".to_string())));
    assert!(a.custom_fields.get("y") == Some(&EvaluationContextFieldValue::String("3".to_string())));
    assert_eq!(a.custom_fields.len(), 2);
}

#[test]
fn empty_context_has_no_fields() {
    let context = EvaluationContext::default();

    assert_eq!(context.targeting_key, None);
    assert_eq!(context.custom_fields.len(), 0);
    assert!(!context.custom_fields.contains_key("anything"));
    assert!(context.custom_fields.get("anything").is_none());
}
