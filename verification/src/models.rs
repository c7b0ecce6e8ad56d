//! Plain-data models of the vocabulary this provider translates between:
//! the evaluation framework's context, value and error types on one side,
//! and the remote flag service's request, response and error shapes on the
//! other.
use vstd::prelude::*;

verus! {

/// The bit pattern of an IEEE 754 double-precision number.
///
/// Floating-point values never take part in any decision this crate makes;
/// they are carried through opaquely as their bit pattern, and the embedding
/// application reconstitutes the machine float at the boundary.
#[derive(PartialEq, Eq, Structural, Clone, Copy, Debug)]
pub struct FloatBits(pub u64);

/// How the remote-service client authenticates against the Flipt endpoint.
///
/// The set of supported strategies is small and closed, so it is modelled
/// as a sum type; the credential material is carried verbatim.
#[derive(Clone, Debug)]
pub enum AuthStrategy {
    NoAuthentication,
    ClientTokenAuthentication(String),
    JwtAuthentication(String),
}

/// Connection settings for a Flipt evaluation client: where to reach the
/// service, how to authenticate, and the client-side timeout (in the time
/// unit the transport layer applies).
///
/// No validation happens here; the endpoint string is checked only when a
/// provider is constructed from the configuration.
pub struct Config {
    pub endpoint: String,
    pub auth_strategy: AuthStrategy,
    pub timeout: u64,
}

impl Config {
    /// Bundle endpoint, authentication strategy and timeout, unvalidated.
    pub fn new(endpoint: String, authentication_strategy: AuthStrategy, timeout: u64) -> (c: Config)
        ensures
            c.endpoint == endpoint,
            c.auth_strategy == authentication_strategy,
            c.timeout == timeout,
    {
        Config { endpoint, auth_strategy: authentication_strategy, timeout }
    }
}

/// A value attached to a custom field of an evaluation context.
///
/// Only whether a value is a string matters to this provider; date-time
/// and structure values, whose payloads belong to the framework, are
/// represented by their kind alone, since they are dropped either way.
#[derive(Debug)]
pub enum ContextFieldValue {
    Bool(bool),
    Int(i64),
    Float(FloatBits),
    Str(String),
    DateTime,
    Struct,
}

impl ContextFieldValue {
    /// Whether this custom-field value is a string.
    pub open spec fn is_string(self) -> bool {
        self is Str
    }
}

/// The caller-supplied evaluation context: an optional targeting key and
/// custom key/value fields, kept in the order the caller supplied them.
#[derive(Debug)]
pub struct EvaluationContext {
    pub targeting_key: Option<String>,
    pub custom_fields: Vec<(String, ContextFieldValue)>,
}

/// The request body sent to the remote service's boolean- and
/// variant-evaluation endpoints.
#[derive(Debug)]
pub struct EvaluationRequest {
    pub namespace_key: String,
    pub flag_key: String,
    pub entity_id: String,
    pub context: Vec<(String, String)>,
    pub reference: Option<String>,
}

/// The remote service's answer to a boolean evaluation.
#[derive(Debug)]
pub struct BooleanEvaluation {
    pub enabled: bool,
}

/// Why the remote service resolved a variant evaluation the way it did.
#[derive(PartialEq, Eq, Structural, Clone, Copy, Debug)]
pub enum EvaluationReason {
    Unknown,
    FlagDisabled,
    Match,
    Default,
}

/// The remote service's answer to a variant evaluation.  `matched` mirrors
/// the wire field `match`; `variant_attachment` is a string that should
/// contain JSON.
#[derive(Debug)]
pub struct VariantEvaluation {
    pub matched: bool,
    pub reason: EvaluationReason,
    pub variant_attachment: String,
}

/// An error reported by the remote flag service: a numeric code and a
/// human-readable message.
#[derive(Debug)]
pub struct UpstreamError {
    pub code: u64,
    pub message: String,
}

/// The error code of an abnormal evaluation, in the evaluation framework's
/// vocabulary.  This provider only ever produces the two variants below.
#[derive(Debug)]
pub enum EvaluationErrorCode {
    ProviderNotReady,
    General(String),
}

/// A structured evaluation-time error: a code plus an optional message.
#[derive(Debug)]
pub struct EvaluationError {
    pub code: EvaluationErrorCode,
    pub message: Option<String>,
}

/// The result type of every resolve operation.
pub type EvaluationResult<T> = Result<T, EvaluationError>;

/// The framework-level wrapper around a resolved flag value.
#[derive(Debug)]
pub struct ResolutionDetails<T> {
    pub value: T,
}

impl<T> ResolutionDetails<T> {
    /// Wrap a resolved value.
    pub fn new(value: T) -> (r: ResolutionDetails<T>)
        ensures
            r.value == value,
    {
        ResolutionDetails { value }
    }
}

/// Identity of a provider, as reported to the evaluation framework.
#[derive(Debug)]
pub struct ProviderMetadata {
    pub name: String,
}

/// A resolved flag value: one of the framework's supported kinds.
/// Structured records and lists are built recursively.
#[derive(Debug)]
pub enum ResolvedValue {
    Bool(bool),
    Int(i64),
    Float(FloatBits),
    Str(String),
    Array(Vec<ResolvedValue>),
    Struct(StructValue),
}

/// A structured record of resolved values, keyed by field name, in the
/// order the fields were produced.
#[derive(Debug)]
pub struct StructValue {
    pub fields: Vec<(String, ResolvedValue)>,
}

/// The mathematical shape of a resolved value, used by contracts.
pub enum ResolvedModel {
    Bool(bool),
    Int(i64),
    Float(u64),
    Str(Seq<char>),
    Array(Seq<ResolvedModel>),
    Struct(Seq<(Seq<char>, ResolvedModel)>),
}

/// The mathematical shape of a resolved value.
pub open spec fn value_model(v: ResolvedValue) -> ResolvedModel
    decreases v,
{
    match v {
        ResolvedValue::Bool(b) => ResolvedModel::Bool(b),
        ResolvedValue::Int(i) => ResolvedModel::Int(i),
        ResolvedValue::Float(f) => ResolvedModel::Float(f.0),
        ResolvedValue::Str(s) => ResolvedModel::Str(s@),
        ResolvedValue::Array(a) => ResolvedModel::Array(values_model(a@)),
        ResolvedValue::Struct(s) => ResolvedModel::Struct(fields_model(s.fields@)),
    }
}

/// The mathematical shape of a list of resolved values, element by element.
pub open spec fn values_model(s: Seq<ResolvedValue>) -> Seq<ResolvedModel>
    decreases s,
{
    if s.len() == 0 {
        Seq::empty()
    } else {
        seq![value_model(s[0])] + values_model(s.drop_first())
    }
}

/// The mathematical shape of a structured record's fields, entry by entry.
pub open spec fn fields_model(s: Seq<(String, ResolvedValue)>) -> Seq<(Seq<char>, ResolvedModel)>
    decreases s,
{
    if s.len() == 0 {
        Seq::empty()
    } else {
        seq![(s[0].0@, value_model(s[0].1))] + fields_model(s.drop_first())
    }
}

/// The mathematical shape of a structured record.
pub open spec fn struct_model(s: StructValue) -> Seq<(Seq<char>, ResolvedModel)> {
    fields_model(s.fields@)
}

/// Appending one value on the right appends exactly its shape.
pub proof fn lemma_values_model_push(s: Seq<ResolvedValue>, x: ResolvedValue)
    ensures
        values_model(s.push(x)) == values_model(s).push(value_model(x)),
    decreases s.len(),
{
    if s.len() == 0 {
        assert(s.push(x).drop_first() =~= s);
        assert(values_model(s.push(x)) =~= values_model(s).push(value_model(x)));
    } else {
        assert(s.push(x).drop_first() =~= s.drop_first().push(x));
        lemma_values_model_push(s.drop_first(), x);
        assert(values_model(s.push(x)) =~= values_model(s).push(value_model(x)));
    }
}

/// Appending one field on the right appends exactly its shape.
pub proof fn lemma_fields_model_push(s: Seq<(String, ResolvedValue)>, x: (String, ResolvedValue))
    ensures
        fields_model(s.push(x)) == fields_model(s).push((x.0@, value_model(x.1))),
    decreases s.len(),
{
    if s.len() == 0 {
        assert(s.push(x).drop_first() =~= s);
        assert(fields_model(s.push(x)) =~= fields_model(s).push((x.0@, value_model(x.1))));
    } else {
        assert(s.push(x).drop_first() =~= s.drop_first().push(x));
        lemma_fields_model_push(s.drop_first(), x);
        assert(fields_model(s.push(x)) =~= fields_model(s).push((x.0@, value_model(x.1))));
    }
}

} // verus!
