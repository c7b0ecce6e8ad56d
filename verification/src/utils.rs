//! Pure translation helpers between the evaluation framework's vocabulary
//! and the remote service's wire shapes: context filtering, upstream-error
//! translation, JSON-to-resolved-value translation, and reason rendering.
use vstd::prelude::*;

verus! {

use crate::json::json_entry_models;
use crate::json::json_model;
use crate::json::json_models;
use crate::json::lemma_json_entry_models_push;
use crate::json::lemma_json_models_push;
use crate::json::JsonModel;
use crate::json::JsonValue;
use crate::models::lemma_fields_model_push;
use crate::models::lemma_values_model_push;
use crate::models::fields_model;
use crate::models::value_model;
use crate::models::values_model;
use crate::models::ContextFieldValue;
use crate::models::EvaluationContext;
use crate::models::EvaluationError;
use crate::models::EvaluationErrorCode;
use crate::models::EvaluationReason;
use crate::models::ResolvedModel;
use crate::models::ResolvedValue;
use crate::models::StructValue;
use crate::models::UpstreamError;

// ---------------------------------------------------------------------
// Reason rendering
// ---------------------------------------------------------------------

/// The fixed lowercase phrase for each evaluation reason.
pub open spec fn reason_phrase(r: EvaluationReason) -> Seq<char> {
    match r {
        EvaluationReason::Unknown => "unknown"@,
        EvaluationReason::FlagDisabled => "flag disabled"@,
        EvaluationReason::Match => "match"@,
        EvaluationReason::Default => "default"@,
    }
}

/// Render an evaluation reason as its fixed lowercase phrase.
pub fn reason_as_str(reason: &EvaluationReason) -> (s: &'static str)
    ensures
        s@ == reason_phrase(*reason),
{
    match reason {
        EvaluationReason::Unknown => "unknown",
        EvaluationReason::FlagDisabled => "flag disabled",
        EvaluationReason::Match => "match",
        EvaluationReason::Default => "default",
    }
}

// ---------------------------------------------------------------------
// Decimal rendering of upstream error codes
// ---------------------------------------------------------------------

/// The character for a single decimal digit.
pub open spec fn digit_char(d: nat) -> char {
    ((48 + d) as u8) as char
}

/// The decimal rendering of a natural number, most significant digit first.
pub open spec fn dec_digits(n: nat) -> Seq<char>
    decreases n,
{
    if n < 10 {
        seq![digit_char(n)]
    } else {
        dec_digits(n / 10).push(digit_char(n % 10))
    }
}

/// The one-character string for a decimal digit.
fn digit_str(d: u8) -> (s: &'static str)
    requires
        d < 10,
    ensures
        s@ == seq![digit_char(d as nat)],
{
    proof {
        reveal_strlit("0");
        reveal_strlit("1");
        reveal_strlit("2");
        reveal_strlit("3");
        reveal_strlit("4");
        reveal_strlit("5");
        reveal_strlit("6");
        reveal_strlit("7");
        reveal_strlit("8");
        reveal_strlit("9");
    }
    match d {
        0 => "0",
        1 => "1",
        2 => "2",
        3 => "3",
        4 => "4",
        5 => "5",
        6 => "6",
        7 => "7",
        8 => "8",
        _ => "9",
    }
}

/// Render a number in decimal, as the remote client renders its error
/// codes.
pub fn decimal_string(n: u64) -> (s: String)
    ensures
        s@ == dec_digits(n as nat),
    decreases n,
{
    if n < 10 {
        String::from_str(digit_str(n as u8))
    } else {
        let mut s = decimal_string(n / 10);
        s.append(digit_str((n % 10) as u8));
        proof {
            assert(s@ == dec_digits((n / 10) as nat) + seq![digit_char((n % 10) as nat)]);
            assert(dec_digits((n / 10) as nat).push(digit_char((n % 10) as nat)) =~= dec_digits(
                (n / 10) as nat,
            ) + seq![digit_char((n % 10) as nat)]);
        }
        s
    }
}

// ---------------------------------------------------------------------
// Upstream-error translation
// ---------------------------------------------------------------------

/// What it means for a framework error to be the translation of an
/// upstream one: a general error whose code is the upstream code rendered
/// in decimal, and whose message is the upstream message, unchanged.
pub open spec fn translated_error(r: EvaluationError, e: UpstreamError) -> bool {
    &&& r.code matches EvaluationErrorCode::General(c) && c@ == dec_digits(e.code as nat)
    &&& r.message matches Some(m) && m@ == e.message@
}

/// Translate a remote upstream error into the framework's error shape.
pub fn translate_error(e: UpstreamError) -> (r: EvaluationError)
    ensures
        translated_error(r, e),
{
    EvaluationError {
        code: EvaluationErrorCode::General(decimal_string(e.code)),
        message: Some(e.message),
    }
}

// ---------------------------------------------------------------------
// Context translation
// ---------------------------------------------------------------------

/// The contribution of one custom field to the translated context: its
/// key/value pair if the value is a string, nothing otherwise.
pub open spec fn field_entry(x: (String, ContextFieldValue)) -> Seq<(Seq<char>, Seq<char>)> {
    match x.1 {
        ContextFieldValue::Str(v) => seq![(x.0@, v@)],
        _ => Seq::empty(),
    }
}

/// The translated form of a list of custom fields: exactly the entries
/// whose value is a string, in order, with everything else dropped.
pub open spec fn string_fields(s: Seq<(String, ContextFieldValue)>) -> Seq<(Seq<char>, Seq<char>)>
    decreases s,
{
    if s.len() == 0 {
        Seq::empty()
    } else {
        field_entry(s[0]) + string_fields(s.drop_first())
    }
}

/// The view of a list of owned string pairs.
pub open spec fn string_pairs_view(s: Seq<(String, String)>) -> Seq<(Seq<char>, Seq<char>)> {
    Seq::new(s.len(), |i: int| (s[i].0@, s[i].1@))
}

/// Appending one field on the right adds exactly its contribution.
proof fn lemma_string_fields_push(s: Seq<(String, ContextFieldValue)>, x: (String, ContextFieldValue))
    ensures
        string_fields(s.push(x)) == string_fields(s) + field_entry(x),
    decreases s.len(),
{
    if s.len() == 0 {
        assert(s.push(x).drop_first() =~= s);
        assert(string_fields(s.push(x)) =~= string_fields(s) + field_entry(x));
    } else {
        assert(s.push(x).drop_first() =~= s.drop_first().push(x));
        lemma_string_fields_push(s.drop_first(), x);
        assert(string_fields(s.push(x)) =~= string_fields(s) + field_entry(x));
    }
}

/// Build the string-to-string context mapping sent to the remote service:
/// custom fields whose value is a string are kept, all others are silently
/// dropped.  The targeting key is not part of this mapping.
pub fn translate_context(ctx: &EvaluationContext) -> (r: Vec<(String, String)>)
    ensures
        string_pairs_view(r@) == string_fields(ctx.custom_fields@),
{
    let fields = &ctx.custom_fields;
    let mut map: Vec<(String, String)> = Vec::new();
    let mut i: usize = 0;
    while i < fields.len()
        invariant
            i <= fields@.len(),
            string_pairs_view(map@) == string_fields(fields@.take(i as int)),
        decreases fields@.len() - i,
    {
        let ghost prefix = fields@.take(i as int);
        let ghost before = map@;
        match &fields[i].1 {
            ContextFieldValue::Str(v) => {
                let key = fields[i].0.clone();
                map.push((key, v.clone()));
            },
            _ => {},
        }
        proof {
            lemma_string_fields_push(prefix, fields@[i as int]);
            assert(fields@.take(i as int + 1) =~= prefix.push(fields@[i as int]));
            assert(string_pairs_view(map@) =~= string_fields(prefix) + field_entry(
                fields@[i as int],
            ));
        }
        i = i + 1;
    }
    proof {
        assert(fields@.take(fields@.len() as int) =~= fields@);
    }
    map
}

// ---------------------------------------------------------------------
// JSON-to-resolved-value translation
// ---------------------------------------------------------------------

/// The translation of one JSON value into a resolved value: scalars map to
/// their own kind, objects and arrays recurse, and a null anywhere fails
/// with a fixed message.
pub open spec fn translate_model(m: JsonModel) -> Result<ResolvedModel, Seq<char>>
    decreases m,
{
    match m {
        JsonModel::Null => Err("null value is not supported"@),
        JsonModel::Bool(b) => Ok(ResolvedModel::Bool(b)),
        JsonModel::Int(i) => Ok(ResolvedModel::Int(i)),
        JsonModel::Float(f) => Ok(ResolvedModel::Float(f)),
        JsonModel::Str(s) => Ok(ResolvedModel::Str(s)),
        JsonModel::Array(a) => match translate_models(a) {
            Ok(vs) => Ok(ResolvedModel::Array(vs)),
            Err(e) => Err(e),
        },
        JsonModel::Object(o) => match translate_entry_models(o) {
            Ok(fs) => Ok(ResolvedModel::Struct(fs)),
            Err(e) => Err(e),
        },
    }
}

/// The translation of a list of JSON values, element by element, stopping
/// at the first failure.
pub open spec fn translate_models(s: Seq<JsonModel>) -> Result<Seq<ResolvedModel>, Seq<char>>
    decreases s,
{
    if s.len() == 0 {
        Ok(Seq::empty())
    } else {
        match translate_model(s[0]) {
            Err(e) => Err(e),
            Ok(v) => match translate_models(s.drop_first()) {
                Err(e) => Err(e),
                Ok(rest) => Ok(seq![v] + rest),
            },
        }
    }
}

/// The translation of a list of JSON object entries, entry by entry,
/// stopping at the first failure.
pub open spec fn translate_entry_models(s: Seq<(Seq<char>, JsonModel)>) -> Result<
    Seq<(Seq<char>, ResolvedModel)>,
    Seq<char>,
>
    decreases s,
{
    if s.len() == 0 {
        Ok(Seq::empty())
    } else {
        match translate_model(s[0].1) {
            Err(e) => Err(e),
            Ok(v) => match translate_entry_models(s.drop_first()) {
                Err(e) => Err(e),
                Ok(rest) => Ok(seq![(s[0].0, v)] + rest),
            },
        }
    }
}

/// If every element so far translates, appending one more element either
/// extends the translation or fails with that element's message.
proof fn lemma_translate_models_push(s: Seq<JsonModel>, x: JsonModel)
    requires
        translate_models(s) is Ok,
    ensures
        translate_model(x) matches Ok(v) ==> translate_models(s.push(x)) == Ok::<
            Seq<ResolvedModel>,
            Seq<char>,
        >(translate_models(s)->Ok_0.push(v)),
        translate_model(x) matches Err(e) ==> translate_models(s.push(x)) == Err::<
            Seq<ResolvedModel>,
            Seq<char>,
        >(e),
    decreases s.len(),
{
    if s.len() == 0 {
        assert(s.push(x).drop_first() =~= s);
        if translate_model(x) is Ok {
            assert(translate_models(s.push(x))->Ok_0 =~= translate_models(s)->Ok_0.push(
                translate_model(x)->Ok_0,
            ));
        }
    } else {
        assert(s.push(x).drop_first() =~= s.drop_first().push(x));
        lemma_translate_models_push(s.drop_first(), x);
        if translate_model(x) is Ok {
            assert(translate_models(s.push(x))->Ok_0 =~= translate_models(s)->Ok_0.push(
                translate_model(x)->Ok_0,
            ));
        }
    }
}

/// Like [`lemma_translate_models_push`], for object entries.
proof fn lemma_translate_entry_models_push(s: Seq<(Seq<char>, JsonModel)>, x: (Seq<char>, JsonModel))
    requires
        translate_entry_models(s) is Ok,
    ensures
        translate_model(x.1) matches Ok(v) ==> translate_entry_models(s.push(x)) == Ok::<
            Seq<(Seq<char>, ResolvedModel)>,
            Seq<char>,
        >(translate_entry_models(s)->Ok_0.push((x.0, v))),
        translate_model(x.1) matches Err(e) ==> translate_entry_models(s.push(x)) == Err::<
            Seq<(Seq<char>, ResolvedModel)>,
            Seq<char>,
        >(e),
    decreases s.len(),
{
    if s.len() == 0 {
        assert(s.push(x).drop_first() =~= s);
        if translate_model(x.1) is Ok {
            assert(translate_entry_models(s.push(x))->Ok_0 =~= translate_entry_models(s)->Ok_0.push(
                (x.0, translate_model(x.1)->Ok_0),
            ));
        }
    } else {
        assert(s.push(x).drop_first() =~= s.drop_first().push(x));
        lemma_translate_entry_models_push(s.drop_first(), x);
        if translate_model(x.1) is Ok {
            assert(translate_entry_models(s.push(x))->Ok_0 =~= translate_entry_models(s)->Ok_0.push(
                (x.0, translate_model(x.1)->Ok_0),
            ));
        }
    }
}

/// If every element before position `i` translates and the element at `i`
/// fails, the whole list fails with that element's message.
proof fn lemma_translate_models_err_at(s: Seq<JsonModel>, i: int)
    requires
        0 <= i < s.len(),
        translate_models(s.take(i)) is Ok,
        translate_model(s[i]) is Err,
    ensures
        translate_models(s) == Err::<Seq<ResolvedModel>, Seq<char>>(translate_model(s[i])->Err_0),
    decreases i,
{
    if i == 0 {
    } else {
        assert(s.take(i)[0] == s[0]);
        assert(s.take(i).drop_first() =~= s.drop_first().take(i - 1));
        assert(s.drop_first()[i - 1] == s[i]);
        lemma_translate_models_err_at(s.drop_first(), i - 1);
    }
}

/// Like [`lemma_translate_models_err_at`], for object entries.
proof fn lemma_translate_entry_models_err_at(s: Seq<(Seq<char>, JsonModel)>, i: int)
    requires
        0 <= i < s.len(),
        translate_entry_models(s.take(i)) is Ok,
        translate_model(s[i].1) is Err,
    ensures
        translate_entry_models(s) == Err::<Seq<(Seq<char>, ResolvedModel)>, Seq<char>>(
            translate_model(s[i].1)->Err_0,
        ),
    decreases i,
{
    if i == 0 {
    } else {
        assert(s.take(i)[0] == s[0]);
        assert(s.take(i).drop_first() =~= s.drop_first().take(i - 1));
        assert(s.drop_first()[i - 1] == s[i]);
        lemma_translate_entry_models_err_at(s.drop_first(), i - 1);
    }
}

/// The shapes of a list of JSON values, characterized pointwise.
proof fn lemma_json_models_spec(s: Seq<JsonValue>)
    ensures
        json_models(s).len() == s.len(),
        forall|i: int| 0 <= i < s.len() ==> json_models(s)[i] == json_model(s[i]),
    decreases s.len(),
{
    if s.len() > 0 {
        lemma_json_models_spec(s.drop_first());
    }
}

/// The shapes of a list of JSON object entries, characterized pointwise.
proof fn lemma_json_entry_models_spec(s: Seq<(String, JsonValue)>)
    ensures
        json_entry_models(s).len() == s.len(),
        forall|i: int|
            0 <= i < s.len() ==> json_entry_models(s)[i] == (s[i].0@, json_model(s[i].1)),
    decreases s.len(),
{
    if s.len() > 0 {
        lemma_json_entry_models_spec(s.drop_first());
    }
}

/// Value translation sends each JSON scalar kind to the resolved-value
/// kind of the same name — booleans to booleans, integers to integers,
/// floating-point numbers to floating-point numbers, strings to strings —
/// and a null fails with the fixed message.
pub proof fn lemma_scalar_translation(m: JsonModel)
    ensures
        m matches JsonModel::Bool(b) ==> translate_model(m) == Ok::<ResolvedModel, Seq<char>>(
            ResolvedModel::Bool(b),
        ),
        m matches JsonModel::Int(i) ==> translate_model(m) == Ok::<ResolvedModel, Seq<char>>(
            ResolvedModel::Int(i),
        ),
        m matches JsonModel::Float(f) ==> translate_model(m) == Ok::<ResolvedModel, Seq<char>>(
            ResolvedModel::Float(f),
        ),
        m matches JsonModel::Str(s) ==> translate_model(m) == Ok::<ResolvedModel, Seq<char>>(
            ResolvedModel::Str(s),
        ),
        m is Null ==> translate_model(m) == Err::<ResolvedModel, Seq<char>>(
            "null value is not supported"@,
        ),
{
}

/// Translate a parsed JSON value into a resolved value, recursively:
/// booleans, integers, floating-point numbers and strings map to their own
/// kind, objects become structured records, arrays become ordered lists,
/// and a null anywhere fails with a fixed message.
#[verifier::loop_isolation(false)]
pub fn translate_value(v: &JsonValue) -> (r: Result<ResolvedValue, String>)
    ensures
        (r is Ok <==> translate_model(json_model(*v)) is Ok),
        (r matches Ok(rv) ==> translate_model(json_model(*v)) matches Ok(m) && value_model(rv)
            == m),
        (r matches Err(e) ==> translate_model(json_model(*v)) matches Err(m) && e@ == m),
    decreases *v,
{
    match v {
        JsonValue::Null => Err(String::from_str("null value is not supported")),
        JsonValue::Bool(b) => Ok(ResolvedValue::Bool(*b)),
        JsonValue::Int(i) => Ok(ResolvedValue::Int(*i)),
        JsonValue::Float(f) => Ok(ResolvedValue::Float(*f)),
        JsonValue::Str(s) => Ok(ResolvedValue::Str(s.clone())),
        JsonValue::Array(a) => {
            let mut out: Vec<ResolvedValue> = Vec::new();
            let mut i: usize = 0;
            while i < a.len()
                invariant
                    i <= a@.len(),
                    translate_models(json_models(a@.take(i as int))) == Ok::<
                        Seq<ResolvedModel>,
                        Seq<char>,
                    >(values_model(out@)),
                decreases a@.len() - i,
            {
                let ghost prefix = a@.take(i as int);
                let ghost before = out@;
                proof {
                    assert(decreases_to!(*v => *a));
                    assert(decreases_to!(*a => a@[i as int]));
                }
                match translate_value(&a[i]) {
                    Ok(x) => {
                        proof {
                            lemma_json_models_push(prefix, a@[i as int]);
                            assert(a@.take(i as int + 1) =~= prefix.push(a@[i as int]));
                            lemma_translate_models_push(json_models(prefix), json_model(
                                a@[i as int],
                            ));
                            lemma_values_model_push(before, x);
                        }
                        out.push(x);
                    },
                    Err(e) => {
                        proof {
                            lemma_json_models_spec(a@);
                            lemma_json_models_spec(prefix);
                            assert(json_models(prefix) =~= json_models(a@).take(i as int));
                            assert(json_models(a@)[i as int] == json_model(a@[i as int]));
                            lemma_translate_models_err_at(json_models(a@), i as int);
                            assert(json_model(*v) == JsonModel::Array(json_models(a@)));
                        }
                        return Err(e);
                    },
                }
                i = i + 1;
            }
            proof {
                assert(a@.take(a@.len() as int) =~= a@);
            }
            Ok(ResolvedValue::Array(out))
        },
        JsonValue::Object(o) => {
            let mut fields: Vec<(String, ResolvedValue)> = Vec::new();
            let mut i: usize = 0;
            while i < o.len()
                invariant
                    i <= o@.len(),
                    translate_entry_models(json_entry_models(o@.take(i as int))) == Ok::<
                        Seq<(Seq<char>, ResolvedModel)>,
                        Seq<char>,
                    >(fields_model(fields@)),
                decreases o@.len() - i,
            {
                let ghost prefix = o@.take(i as int);
                let ghost before = fields@;
                proof {
                    assert(decreases_to!(*v => *o));
                    assert(decreases_to!(*o => o@[i as int]));
                    assert(decreases_to!(o@[i as int] => o@[i as int].1));
                }
                match translate_value(&o[i].1) {
                    Ok(x) => {
                        let key = o[i].0.clone();
                        proof {
                            lemma_json_entry_models_push(prefix, o@[i as int]);
                            assert(o@.take(i as int + 1) =~= prefix.push(o@[i as int]));
                            lemma_translate_entry_models_push(json_entry_models(prefix), (
                                o@[i as int].0@,
                                json_model(o@[i as int].1),
                            ));
                            lemma_fields_model_push(before, (key, x));
                        }
                        fields.push((key, x));
                    },
                    Err(e) => {
                        proof {
                            lemma_json_entry_models_spec(o@);
                            lemma_json_entry_models_spec(prefix);
                            assert(json_entry_models(prefix) =~= json_entry_models(o@).take(
                                i as int,
                            ));
                            assert(json_entry_models(o@)[i as int] == (
                                o@[i as int].0@,
                                json_model(o@[i as int].1),
                            ));
                            lemma_translate_entry_models_err_at(json_entry_models(o@), i as int);
                            assert(json_model(*v) == JsonModel::Object(json_entry_models(o@)));
                        }
                        return Err(e);
                    },
                }
                i = i + 1;
            }
            proof {
                assert(o@.take(o@.len() as int) =~= o@);
            }
            Ok(ResolvedValue::Struct(StructValue { fields }))
        },
    }
}

/// Translate every entry of a parsed JSON object into a field of a
/// structured record, stopping at the first failure.
#[verifier::loop_isolation(false)]
pub fn translate_object(entries: &Vec<(String, JsonValue)>) -> (r: Result<
    Vec<(String, ResolvedValue)>,
    String,
>)
    ensures
        (r is Ok <==> translate_entry_models(json_entry_models(entries@)) is Ok),
        (r matches Ok(fs) ==> translate_entry_models(json_entry_models(entries@)) matches Ok(ms)
            && fields_model(fs@) == ms),
        (r matches Err(e) ==> translate_entry_models(json_entry_models(entries@)) matches Err(me)
            && e@ == me),
{
    let mut fields: Vec<(String, ResolvedValue)> = Vec::new();
    let mut i: usize = 0;
    while i < entries.len()
        invariant
            i <= entries@.len(),
            translate_entry_models(json_entry_models(entries@.take(i as int))) == Ok::<
                Seq<(Seq<char>, ResolvedModel)>,
                Seq<char>,
            >(fields_model(fields@)),
        decreases entries@.len() - i,
    {
        let ghost prefix = entries@.take(i as int);
        let ghost before = fields@;
        match translate_value(&entries[i].1) {
            Ok(x) => {
                let key = entries[i].0.clone();
                proof {
                    lemma_json_entry_models_push(prefix, entries@[i as int]);
                    assert(entries@.take(i as int + 1) =~= prefix.push(entries@[i as int]));
                    lemma_translate_entry_models_push(json_entry_models(prefix), (
                        entries@[i as int].0@,
                        json_model(entries@[i as int].1),
                    ));
                    lemma_fields_model_push(before, (key, x));
                }
                fields.push((key, x));
            },
            Err(e) => {
                proof {
                    lemma_json_entry_models_spec(entries@);
                    lemma_json_entry_models_spec(prefix);
                    assert(json_entry_models(prefix) =~= json_entry_models(entries@).take(i as int));
                    lemma_translate_entry_models_err_at(json_entry_models(entries@), i as int);
                }
                return Err(e);
            },
        }
        i = i + 1;
    }
    proof {
        assert(entries@.take(entries@.len() as int) =~= entries@);
    }
    Ok(fields)
}

} // verus!
