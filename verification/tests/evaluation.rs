use openfeature_flipt::models::BooleanEvaluation;
use openfeature_flipt::models::ContextFieldValue;
use openfeature_flipt::models::EvaluationContext;
use openfeature_flipt::models::EvaluationErrorCode;
use openfeature_flipt::models::EvaluationReason;
use openfeature_flipt::models::FloatBits;
use openfeature_flipt::models::ResolvedValue;
use openfeature_flipt::models::UpstreamError;
use openfeature_flipt::models::VariantEvaluation;
use openfeature_flipt::provider::evaluation_request;
use openfeature_flipt::provider::resolve_bool_response;
use openfeature_flipt::provider::resolve_variant_response;
use openfeature_flipt::provider::AuthStrategy;
use openfeature_flipt::provider::Config;
use openfeature_flipt::provider::FliptProvider;

fn empty_context() -> EvaluationContext {
    EvaluationContext {
        targeting_key: None,
        custom_fields: Vec::new(),
    }
}

fn variant(matched: bool, reason: EvaluationReason, attachment: &str) -> VariantEvaluation {
    VariantEvaluation {
        matched,
        reason,
        variant_attachment: attachment.to_string(),
    }
}

#[test]
fn test_provider_new_ok() {
    let config = Config::new(
        "http://localhost:8080/".to_string(),
        AuthStrategy::NoAuthentication,
        60,
    );
    let provider = FliptProvider::new(config).unwrap();
    assert_eq!(provider.metadata().name, "flipt");
}

#[test]
fn test_provider_new_token_auth() {
    let config = Config::new(
        "https://flags.example.com/".to_string(),
        AuthStrategy::ClientTokenAuthentication("static-token".to_string()),
        1000,
    );
    let provider = FliptProvider::new(config).unwrap();
    assert_eq!(provider.metadata().name, "flipt");
    assert!(provider.settings.is_some());
}

#[test]
fn test_provider_new_bad_endpoint() {
    let config = Config::new("not a url".to_string(), AuthStrategy::NoAuthentication, 60);
    let err = FliptProvider::new(config).err().unwrap();
    assert_eq!(err, "relative URL without a base");
}

#[test]
fn test_provider_default() {
    let provider = FliptProvider::default();
    assert_eq!(provider.metadata().name, "flipt");
    assert!(provider.settings.is_none());
}

#[test]
fn test_unsupported_value_kinds() {
    let provider = FliptProvider::default();
    let ctx = empty_context();

    let int_err = provider.resolve_int_value("flag", &ctx).err().unwrap();
    assert!(matches!(int_err.code, EvaluationErrorCode::ProviderNotReady));
    assert_eq!(int_err.message.unwrap(), "flipt does not support int values");

    let float_err = provider.resolve_float_value("flag", &ctx).err().unwrap();
    assert!(matches!(float_err.code, EvaluationErrorCode::ProviderNotReady));
    assert_eq!(
        float_err.message.unwrap(),
        "flipt does not support float values"
    );

    let string_err = provider.resolve_string_value("flag", &ctx).err().unwrap();
    assert!(matches!(
        string_err.code,
        EvaluationErrorCode::ProviderNotReady
    ));
    assert_eq!(
        string_err.message.unwrap(),
        "flipt does not support string values"
    );
}

#[test]
fn test_request_namespace_defaulting() {
    let ctx = empty_context();
    let req = evaluation_request("flag_boolean", &ctx);
    assert_eq!(req.namespace_key, "default");
    assert_eq!(req.flag_key, "flag_boolean");
    assert_eq!(req.entity_id, "entity");
    assert!(req.context.is_empty());
    assert!(req.reference.is_none());
}

#[test]
fn test_request_namespace_from_targeting_key() {
    let ctx = EvaluationContext {
        targeting_key: Some("team-a".to_string()),
        custom_fields: vec![("a".to_string(), ContextFieldValue::Str("x".to_string()))],
    };
    let req = evaluation_request("variant1", &ctx);
    assert_eq!(req.namespace_key, "team-a");
    assert_eq!(
        req.context,
        vec![("a".to_string(), "x".to_string())]
    );
}

#[test]
fn test_resolve_bool_enabled() {
    let details = resolve_bool_response(Ok(BooleanEvaluation { enabled: true })).unwrap();
    assert!(details.value);
    let details = resolve_bool_response(Ok(BooleanEvaluation { enabled: false })).unwrap();
    assert!(!details.value);
}

#[test]
fn test_resolve_bool_upstream_error() {
    let err = resolve_bool_response(Err(UpstreamError {
        code: 14,
        message: "connection refused".to_string(),
    }))
    .err()
    .unwrap();
    match err.code {
        EvaluationErrorCode::General(code) => assert_eq!(code, "14"),
        _ => panic!("expected a general error"),
    }
    assert_eq!(err.message.unwrap(), "connection refused");
}

#[test]
fn test_variant_upstream_error() {
    let err = resolve_variant_response(Err(UpstreamError {
        code: 404,
        message: "flag not found".to_string(),
    }))
    .err()
    .unwrap();
    match err.code {
        EvaluationErrorCode::General(code) => assert_eq!(code, "404"),
        _ => panic!("expected a general error"),
    }
    assert_eq!(err.message.unwrap(), "flag not found");
}

#[test]
fn test_variant_unmatched_reports_reason() {
    let err = resolve_variant_response(Ok(variant(false, EvaluationReason::FlagDisabled, "{}")))
        .err()
        .unwrap();
    match err.code {
        EvaluationErrorCode::General(code) => assert_eq!(code, "flag disabled"),
        _ => panic!("expected a general error"),
    }
    assert!(err.message.is_none());

    let err = resolve_variant_response(Ok(variant(false, EvaluationReason::Default, "{}")))
        .err()
        .unwrap();
    match err.code {
        EvaluationErrorCode::General(code) => assert_eq!(code, "default"),
        _ => panic!("expected a general error"),
    }
}

#[test]
fn test_variant_invalid_json_attachment() {
    let err = resolve_variant_response(Ok(variant(true, EvaluationReason::Match, "not json")))
        .err()
        .unwrap();
    match err.code {
        EvaluationErrorCode::General(code) => assert_eq!(code, "invalid variant attachment"),
        _ => panic!("expected a general error"),
    }
    assert!(!err.message.unwrap().is_empty());
}

#[test]
fn test_variant_non_object_attachment() {
    let err = resolve_variant_response(Ok(variant(true, EvaluationReason::Match, "\"5\"")))
        .err()
        .unwrap();
    match err.code {
        EvaluationErrorCode::General(code) => assert_eq!(code, "invalid variant attachment"),
        _ => panic!("expected a general error"),
    }
    assert_eq!(
        err.message.unwrap(),
        "variant attachment must be an object, but found `\"5\"`"
    );
}

#[test]
fn test_variant_null_field_rejected() {
    let err = resolve_variant_response(Ok(variant(true, EvaluationReason::Match, "{\"a\": null}")))
        .err()
        .unwrap();
    match err.code {
        EvaluationErrorCode::General(code) => assert_eq!(code, "invalid variant attachment"),
        _ => panic!("expected a general error"),
    }
    assert_eq!(err.message.unwrap(), "null value is not supported");
}

#[test]
fn test_variant_empty_object() {
    let details = resolve_variant_response(Ok(variant(true, EvaluationReason::Match, "{}")))
        .unwrap();
    assert!(details.value.fields.is_empty());
}

#[test]
fn test_variant_nested_object() {
    let details = resolve_variant_response(Ok(variant(
        true,
        EvaluationReason::Match,
        "{\"k\": {\"n\": 1}}",
    )))
    .unwrap();
    assert_eq!(details.value.fields.len(), 1);
    let (key, value) = &details.value.fields[0];
    assert_eq!(key, "k");
    match value {
        ResolvedValue::Struct(inner) => {
            assert_eq!(inner.fields.len(), 1);
            let (inner_key, inner_value) = &inner.fields[0];
            assert_eq!(inner_key, "n");
            assert!(matches!(inner_value, ResolvedValue::Int(1)));
        }
        _ => panic!("expected a structured field"),
    }
}

#[test]
fn test_variant_scalar_kinds() {
    let details = resolve_variant_response(Ok(variant(
        true,
        EvaluationReason::Match,
        "{\"b\": true, \"f\": 5.5, \"i\": 5, \"s\": \"x\"}",
    )))
    .unwrap();
    // serde_json yields object entries in key order.
    let fields = &details.value.fields;
    assert_eq!(fields.len(), 4);
    assert_eq!(fields[0].0, "b");
    assert!(matches!(fields[0].1, ResolvedValue::Bool(true)));
    assert_eq!(fields[1].0, "f");
    match fields[1].1 {
        ResolvedValue::Float(FloatBits(bits)) => assert_eq!(f64::from_bits(bits), 5.5),
        _ => panic!("expected a floating-point field"),
    }
    assert_eq!(fields[2].0, "i");
    assert!(matches!(fields[2].1, ResolvedValue::Int(5)));
    assert_eq!(fields[3].0, "s");
    match &fields[3].1 {
        ResolvedValue::Str(s) => assert_eq!(s, "x"),
        _ => panic!("expected a string field"),
    }
}

#[test]
fn test_variant_array_order_preserved() {
    let details = resolve_variant_response(Ok(variant(
        true,
        EvaluationReason::Match,
        "{\"a\": [1, \"x\", true]}",
    )))
    .unwrap();
    let (key, value) = &details.value.fields[0];
    assert_eq!(key, "a");
    match value {
        ResolvedValue::Array(items) => {
            assert_eq!(items.len(), 3);
            assert!(matches!(items[0], ResolvedValue::Int(1)));
            match &items[1] {
                ResolvedValue::Str(s) => assert_eq!(s, "x"),
                _ => panic!("expected a string element"),
            }
            assert!(matches!(items[2], ResolvedValue::Bool(true)));
        }
        _ => panic!("expected a list field"),
    }
}
