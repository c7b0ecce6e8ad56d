use openfeature_flipt::json::parse_attachment;
use openfeature_flipt::json::JsonValue;
use openfeature_flipt::models::ContextFieldValue;
use openfeature_flipt::models::EvaluationContext;
use openfeature_flipt::models::EvaluationErrorCode;
use openfeature_flipt::models::EvaluationReason;
use openfeature_flipt::models::FloatBits;
use openfeature_flipt::models::ResolvedValue;
use openfeature_flipt::models::UpstreamError;
use openfeature_flipt::utils::decimal_string;
use openfeature_flipt::utils::reason_as_str;
use openfeature_flipt::utils::translate_context;
use openfeature_flipt::utils::translate_error;
use openfeature_flipt::utils::translate_value;

#[test]
fn test_translate_context_keeps_only_string_fields() {
    let ctx = EvaluationContext {
        targeting_key: None,
        custom_fields: vec![
            ("a".to_string(), ContextFieldValue::Str("x".to_string())),
            ("b".to_string(), ContextFieldValue::Int(3)),
        ],
    };
    let map = translate_context(&ctx);
    assert_eq!(map, vec![("a".to_string(), "x".to_string())]);
}

#[test]
fn test_translate_context_drops_every_non_string_kind() {
    let ctx = EvaluationContext {
        targeting_key: Some("ignored".to_string()),
        custom_fields: vec![
            ("b".to_string(), ContextFieldValue::Bool(true)),
            ("f".to_string(), ContextFieldValue::Float(FloatBits(0))),
            ("d".to_string(), ContextFieldValue::DateTime),
            ("s".to_string(), ContextFieldValue::Struct),
            ("k".to_string(), ContextFieldValue::Str("v".to_string())),
        ],
    };
    let map = translate_context(&ctx);
    assert_eq!(map, vec![("k".to_string(), "v".to_string())]);
}

#[test]
fn test_translate_value_scalars() {
    match translate_value(&JsonValue::Bool(true)).unwrap() {
        ResolvedValue::Bool(true) => {}
        _ => panic!("expected a boolean"),
    }
    match translate_value(&JsonValue::Int(5)).unwrap() {
        ResolvedValue::Int(5) => {}
        _ => panic!("expected an integer"),
    }
    let bits = 5.5f64.to_bits();
    match translate_value(&JsonValue::Float(FloatBits(bits))).unwrap() {
        ResolvedValue::Float(FloatBits(b)) => assert_eq!(b, bits),
        _ => panic!("expected a floating-point value"),
    }
    match translate_value(&JsonValue::Str("hi".to_string())).unwrap() {
        ResolvedValue::Str(s) => assert_eq!(s, "hi"),
        _ => panic!("expected a string"),
    }
}

#[test]
fn test_translate_value_null_fails() {
    let err = translate_value(&JsonValue::Null).err().unwrap();
    assert_eq!(err, "null value is not supported");
}

#[test]
fn test_translate_value_nested_null_fails() {
    let v = JsonValue::Array(vec![JsonValue::Int(1), JsonValue::Null]);
    let err = translate_value(&v).err().unwrap();
    assert_eq!(err, "null value is not supported");
}

#[test]
fn test_parse_attachment_number_kinds() {
    match parse_attachment("5").unwrap() {
        JsonValue::Int(5) => {}
        _ => panic!("an integral number must parse as an integer"),
    }
    match parse_attachment("5.5").unwrap() {
        JsonValue::Float(FloatBits(bits)) => assert_eq!(f64::from_bits(bits), 5.5),
        _ => panic!("a non-integral number must parse as a floating-point value"),
    }
}

#[test]
fn test_parse_attachment_rejects_bad_text() {
    assert!(parse_attachment("{oops").is_err());
}

#[test]
fn test_reason_as_str() {
    assert_eq!(reason_as_str(&EvaluationReason::Unknown), "unknown");
    assert_eq!(reason_as_str(&EvaluationReason::FlagDisabled), "flag disabled");
    assert_eq!(reason_as_str(&EvaluationReason::Match), "match");
    assert_eq!(reason_as_str(&EvaluationReason::Default), "default");
}

#[test]
fn test_translate_error() {
    let err = translate_error(UpstreamError {
        code: 404,
        message: "flag not found".to_string(),
    });
    match err.code {
        EvaluationErrorCode::General(code) => assert_eq!(code, "404"),
        _ => panic!("expected a general error"),
    }
    assert_eq!(err.message.unwrap(), "flag not found");
}

#[test]
fn test_decimal_string() {
    assert_eq!(decimal_string(0), "0");
    assert_eq!(decimal_string(7), "7");
    assert_eq!(decimal_string(10), "10");
    assert_eq!(decimal_string(409), "409");
    assert_eq!(decimal_string(u64::MAX), "18446744073709551615");
}
