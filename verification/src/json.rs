//! A tagged JSON value type, and parsing of attachment text through
//! `serde_json`.
//!
//! The parser itself is outside code: `parse_attachment` trusts
//! `serde_json::from_str` and restates its outcome through the opaque
//! function `json_parse`.  Everything downstream of the parse works on the
//! crate's own [`JsonValue`] and is verified.
use vstd::prelude::*;

verus! {

use crate::models::FloatBits;

/// Declares `serde_json::Value` so that the trusted conversion below can
/// take it as a parameter; the type stays opaque to the verifier.
#[verifier::external_type_specification]
#[verifier::external_body]
pub struct ExSerdeJsonValue(serde_json::Value);

/// A parsed JSON value.
///
/// Numbers are split the way the remote attachment logic needs them: a
/// number with an exact 64-bit signed integer representation is `Int`, any
/// other number is `Float`, carried as its IEEE 754 bit pattern.  Object
/// entries keep the order in which the parser yields them.
#[derive(Debug)]
pub enum JsonValue {
    Null,
    Bool(bool),
    Int(i64),
    Float(FloatBits),
    Str(String),
    Array(Vec<JsonValue>),
    Object(Vec<(String, JsonValue)>),
}

/// The mathematical shape of a parsed JSON value.
pub enum JsonModel {
    Null,
    Bool(bool),
    Int(i64),
    Float(u64),
    Str(Seq<char>),
    Array(Seq<JsonModel>),
    Object(Seq<(Seq<char>, JsonModel)>),
}

/// The mathematical shape of a [`JsonValue`].
pub open spec fn json_model(v: JsonValue) -> JsonModel
    decreases v,
{
    match v {
        JsonValue::Null => JsonModel::Null,
        JsonValue::Bool(b) => JsonModel::Bool(b),
        JsonValue::Int(i) => JsonModel::Int(i),
        JsonValue::Float(f) => JsonModel::Float(f.0),
        JsonValue::Str(s) => JsonModel::Str(s@),
        JsonValue::Array(a) => JsonModel::Array(json_models(a@)),
        JsonValue::Object(o) => JsonModel::Object(json_entry_models(o@)),
    }
}

/// The mathematical shape of a list of JSON values, element by element.
pub open spec fn json_models(s: Seq<JsonValue>) -> Seq<JsonModel>
    decreases s,
{
    if s.len() == 0 {
        Seq::empty()
    } else {
        seq![json_model(s[0])] + json_models(s.drop_first())
    }
}

/// The mathematical shape of a list of JSON object entries.
pub open spec fn json_entry_models(s: Seq<(String, JsonValue)>) -> Seq<(Seq<char>, JsonModel)>
    decreases s,
{
    if s.len() == 0 {
        Seq::empty()
    } else {
        seq![(s[0].0@, json_model(s[0].1))] + json_entry_models(s.drop_first())
    }
}

/// Appending one value on the right appends exactly its shape.
pub proof fn lemma_json_models_push(s: Seq<JsonValue>, x: JsonValue)
    ensures
        json_models(s.push(x)) == json_models(s).push(json_model(x)),
    decreases s.len(),
{
    if s.len() == 0 {
        assert(s.push(x).drop_first() =~= s);
        assert(json_models(s.push(x)) =~= json_models(s).push(json_model(x)));
    } else {
        assert(s.push(x).drop_first() =~= s.drop_first().push(x));
        lemma_json_models_push(s.drop_first(), x);
        assert(json_models(s.push(x)) =~= json_models(s).push(json_model(x)));
    }
}

/// Appending one entry on the right appends exactly its shape.
pub proof fn lemma_json_entry_models_push(s: Seq<(String, JsonValue)>, x: (String, JsonValue))
    ensures
        json_entry_models(s.push(x)) == json_entry_models(s).push((x.0@, json_model(x.1))),
    decreases s.len(),
{
    if s.len() == 0 {
        assert(s.push(x).drop_first() =~= s);
        assert(json_entry_models(s.push(x)) =~= json_entry_models(s).push((x.0@, json_model(x.1))));
    } else {
        assert(s.push(x).drop_first() =~= s.drop_first().push(x));
        lemma_json_entry_models_push(s.drop_first(), x);
        assert(json_entry_models(s.push(x)) =~= json_entry_models(s).push((x.0@, json_model(x.1))));
    }
}

/// What `serde_json` makes of a given text: the model of the parsed value,
/// or the parser's error message.  The outcome depends on the text alone.
pub uninterp spec fn json_parse(s: Seq<char>) -> Result<JsonModel, Seq<char>>;

/// Relies on `serde_json::from_str::<serde_json::Value>`: the text is either
/// parsed into a JSON value tree, whose shape `convert_json` carries over
/// node for node, or rejected with an error message.  Integral numbers are
/// split from the rest by `serde_json::Number::as_i64`, which returns the
/// exact value if and only if the number is an integer that fits in an
/// `i64`.
#[verifier::external_body]
pub fn parse_attachment(s: &str) -> (r: Result<JsonValue, String>)
    ensures
        (r is Ok <==> json_parse(s@) is Ok),
        (r matches Ok(v) ==> json_parse(s@) matches Ok(m) && json_model(v) == m),
        (r matches Err(e) ==> json_parse(s@) matches Err(m) && e@ == m),
{
    match serde_json::from_str::<serde_json::Value>(s) {
        Ok(v) => Ok(convert_json(v)),
        Err(e) => Err(e.to_string()),
    }
}

/// The conversion half of `parse_attachment`'s trusted body: maps each node
/// of a `serde_json::Value` tree onto the corresponding [`JsonValue`] node,
/// moving the payloads.  Relies on `serde_json::Number::as_i64` and
/// `as_f64` to tell integral numbers from the rest; with arbitrary
/// precision off, `as_f64` answers for every non-integral number.
#[verifier::external_body]
fn convert_json(v: serde_json::Value) -> JsonValue {
    match v {
        serde_json::Value::Null => JsonValue::Null,
        serde_json::Value::Bool(b) => JsonValue::Bool(b),
        serde_json::Value::Number(n) => match n.as_i64() {
            Some(i) => JsonValue::Int(i),
            None => JsonValue::Float(FloatBits(n.as_f64().map(|x| x.to_bits()).unwrap_or(0))),
        },
        serde_json::Value::String(s) => JsonValue::Str(s),
        serde_json::Value::Array(a) => JsonValue::Array(a.into_iter().map(convert_json).collect()),
        serde_json::Value::Object(o) => {
            JsonValue::Object(o.into_iter().map(|(k, x)| (k, convert_json(x))).collect())
        },
    }
}

} // verus!
