//! The Flipt flag provider: construction from a configuration, provider
//! metadata, the unsupported value kinds, and the decision logic of the
//! boolean and variant resolve operations.
//!
//! The network call itself is the embedding application's job: it builds
//! the wire request with [`evaluation_request`], performs the transport,
//! and hands the outcome to [`resolve_bool_response`] or
//! [`resolve_variant_response`], which decide the result exactly as
//! specified.
use vstd::prelude::*;

pub use crate::models::AuthStrategy;
pub use crate::models::Config;

verus! {

use crate::json::json_parse;
use crate::json::parse_attachment;
use crate::json::JsonModel;
use crate::json::JsonValue;
use crate::models::BooleanEvaluation;
use crate::models::EvaluationContext;
use crate::models::EvaluationError;
use crate::models::EvaluationErrorCode;
use crate::models::EvaluationRequest;
use crate::models::EvaluationResult;
use crate::models::ProviderMetadata;
use crate::models::ResolutionDetails;
use crate::models::StructValue;
use crate::models::UpstreamError;
use crate::models::VariantEvaluation;
use crate::models::struct_model;
use crate::utils::reason_as_str;
use crate::utils::reason_phrase;
use crate::utils::string_fields;
use crate::utils::string_pairs_view;
use crate::utils::translate_context;
use crate::utils::translate_entry_models;
use crate::utils::translate_error;
use crate::utils::translate_object;
use crate::utils::translated_error;
use crate::models::FloatBits;

/// Declares `url::Url` so that a provider can hold a parsed endpoint; the
/// type stays opaque to the verifier.
#[verifier::external_type_specification]
#[verifier::external_body]
pub struct ExUrl(url::Url);

/// What `url::Url::parse` makes of a given endpoint string: nothing if the
/// string parses as an absolute URL, the parser's error message otherwise.
/// The outcome depends on the string alone.
pub uninterp spec fn url_parse_error(s: Seq<char>) -> Option<Seq<char>>;

/// Relies on `url::Url::parse`: the string is either parsed as an absolute
/// URL or rejected with an error message.
#[verifier::external_body]
fn parse_endpoint(s: &str) -> (r: Result<url::Url, String>)
    ensures
        (r is Ok <==> url_parse_error(s@) is None),
        (r matches Err(e) ==> url_parse_error(s@) matches Some(m) && e@ == m),
{
    url::Url::parse(s).map_err(|e| e.to_string())
}

/// The validated connection settings a provider holds for its transport:
/// the parsed endpoint, the authentication strategy, and the timeout.
pub struct ClientSettings {
    pub endpoint: url::Url,
    pub auth_strategy: AuthStrategy,
    pub timeout: u64,
}

/// The Flipt provider: its metadata, and the client settings its transport
/// is to be built with.  `None` settings mean the transport's built-in
/// defaults.  Immutable after construction.
pub struct FliptProvider {
    pub metadata: ProviderMetadata,
    pub settings: Option<ClientSettings>,
}

impl FliptProvider {
    /// Build a provider from a configuration.  The endpoint string must
    /// parse as an absolute URL; otherwise construction fails with the
    /// parser's message as a plain string, before any network access.  On
    /// success the provider's metadata name is `"flipt"` and the
    /// configuration is carried over into the client settings.
    pub fn new(config: Config) -> (r: Result<FliptProvider, String>)
        ensures
            (r is Ok <==> url_parse_error(config.endpoint@) is None),
            (r matches Ok(p) ==> {
                &&& p.metadata.name@ == "flipt"@
                &&& p.settings matches Some(s) && s.auth_strategy == config.auth_strategy
                    && s.timeout == config.timeout
            }),
            (r matches Err(e) ==> url_parse_error(config.endpoint@) matches Some(m) && e@ == m),
    {
        let url = match parse_endpoint(config.endpoint.as_str()) {
            Ok(url) => url,
            Err(e) => {
                return Err(e);
            },
        };
        Ok(FliptProvider {
            metadata: ProviderMetadata { name: String::from_str("flipt") },
            settings: Some(
                ClientSettings {
                    endpoint: url,
                    auth_strategy: config.auth_strategy,
                    timeout: config.timeout,
                },
            ),
        })
    }

    /// The provider's metadata record.
    pub fn metadata(&self) -> (m: &ProviderMetadata)
        ensures
            m == &self.metadata,
    {
        &self.metadata
    }

    /// Integer flags are not supported by the remote service; resolving one
    /// always fails with a provider-not-ready error and a fixed message,
    /// whatever the flag key and context, and without any network access.
    pub fn resolve_int_value(&self, _flag_key: &str, _evaluation_context: &EvaluationContext) -> (r:
        EvaluationResult<ResolutionDetails<i64>>)
        ensures
            r matches Err(e) && (e.code is ProviderNotReady && (e.message matches Some(m) && m@
                == "flipt does not support int values"@)),
    {
        error("flipt does not support int values")
    }

    /// Floating-point flags are not supported; see
    /// [`Self::resolve_int_value`].
    pub fn resolve_float_value(
        &self,
        _flag_key: &str,
        _evaluation_context: &EvaluationContext,
    ) -> (r: EvaluationResult<ResolutionDetails<FloatBits>>)
        ensures
            r matches Err(e) && (e.code is ProviderNotReady && (e.message matches Some(m) && m@
                == "flipt does not support float values"@)),
    {
        error("flipt does not support float values")
    }

    /// String flags are not supported; see [`Self::resolve_int_value`].
    pub fn resolve_string_value(
        &self,
        _flag_key: &str,
        _evaluation_context: &EvaluationContext,
    ) -> (r: EvaluationResult<ResolutionDetails<String>>)
        ensures
            r matches Err(e) && (e.code is ProviderNotReady && (e.message matches Some(m) && m@
                == "flipt does not support string values"@)),
    {
        error("flipt does not support string values")
    }
}

impl Default for FliptProvider {
    /// A provider over the transport's built-in default client settings;
    /// cannot fail.
    fn default() -> (r: FliptProvider)
        ensures
            r.metadata.name@ == "flipt"@,
            r.settings is None,
    {
        FliptProvider {
            metadata: ProviderMetadata { name: String::from_str("flipt") },
            settings: None,
        }
    }
}

/// A provider-not-ready evaluation error with the given message.
fn error<T>(msg: &str) -> (r: EvaluationResult<T>)
    ensures
        r matches Err(e) && (e.code is ProviderNotReady && (e.message matches Some(m) && m@
            == msg@)),
{
    Err(
        EvaluationError {
            code: EvaluationErrorCode::ProviderNotReady,
            message: Some(String::from_str(msg)),
        },
    )
}

/// The namespace a request is made under: the context's targeting key, or
/// the literal `"default"` when there is none.
pub open spec fn namespace_for(targeting_key: Option<String>) -> Seq<char> {
    match targeting_key {
        Some(k) => k@,
        None => "default"@,
    }
}

/// Build the evaluation request for a flag key and a context, as both the
/// boolean and the variant operations send it: the namespace defaults to
/// `"default"` when the context has no targeting key, the entity id is
/// always the literal `"entity"`, the context mapping keeps exactly the
/// string-valued custom fields, and no flag-state reference is given.
pub fn evaluation_request(flag_key: &str, ctx: &EvaluationContext) -> (r: EvaluationRequest)
    ensures
        r.namespace_key@ == namespace_for(ctx.targeting_key),
        r.flag_key@ == flag_key@,
        r.entity_id@ == "entity"@,
        string_pairs_view(r.context@) == string_fields(ctx.custom_fields@),
        r.reference is None,
{
    let namespace_key = match &ctx.targeting_key {
        Some(k) => k.clone(),
        None => String::from_str("default"),
    };
    EvaluationRequest {
        namespace_key,
        flag_key: String::from_str(flag_key),
        entity_id: String::from_str("entity"),
        context: translate_context(ctx),
        reference: None,
    }
}

/// Decide a boolean resolution from the remote outcome: a response wraps
/// its `enabled` flag, an upstream error is translated into a general
/// evaluation error.
pub fn resolve_bool_response(outcome: Result<BooleanEvaluation, UpstreamError>) -> (r:
    EvaluationResult<ResolutionDetails<bool>>)
    ensures
        (outcome matches Ok(b) ==> r matches Ok(d) && d.value == b.enabled),
        (outcome matches Err(e) ==> r matches Err(err) && translated_error(err, e)),
{
    match outcome {
        Ok(res) => Ok(ResolutionDetails::new(res.enabled)),
        Err(e) => Err(translate_error(e)),
    }
}

/// What it means for an evaluation error to be a general error with the
/// given code and, optionally, the given message.
pub open spec fn general_error(r: EvaluationError, code: Seq<char>, message: Option<Seq<char>>) -> bool {
    &&& r.code matches EvaluationErrorCode::General(c) && c@ == code
    &&& match message {
        Some(m) => r.message matches Some(ms) && ms@ == m,
        None => r.message is None,
    }
}

/// The message of the error raised when a variant attachment is valid JSON
/// but not an object: it names the offending attachment text.
pub open spec fn non_object_msg(att: Seq<char>) -> Seq<char> {
    "variant attachment must be an object, but found `"@ + att + "`"@
}

/// Build the non-object error message around the attachment text.
fn non_object_message(att: &str) -> (r: String)
    ensures
        r@ == non_object_msg(att@),
{
    let mut s = String::from_str("variant attachment must be an object, but found `");
    s.append(att);
    s.append("`");
    proof {
        assert(s@ =~= non_object_msg(att@));
    }
    s
}

/// What a variant resolution must be, given the attachment text of a
/// matched response: a parse failure or a non-object document or an
/// untranslatable field is a general error coded
/// `"invalid variant attachment"` with the respective message, and an
/// object whose fields all translate is a structured resolution of exactly
/// those fields.
pub open spec fn attachment_outcome(
    att: Seq<char>,
    r: EvaluationResult<ResolutionDetails<StructValue>>,
) -> bool {
    match json_parse(att) {
        Err(pe) => r matches Err(err) && general_error(
            err,
            "invalid variant attachment"@,
            Some(pe),
        ),
        Ok(m) => match m {
            JsonModel::Object(entries) => match translate_entry_models(entries) {
                Ok(fields) => r matches Ok(d) && struct_model(d.value) == fields,
                Err(te) => r matches Err(err) && general_error(
                    err,
                    "invalid variant attachment"@,
                    Some(te),
                ),
            },
            _ => r matches Err(err) && general_error(
                err,
                "invalid variant attachment"@,
                Some(non_object_msg(att)),
            ),
        },
    }
}

/// Decide a variant (structured) resolution from the remote outcome, in
/// order: an upstream error is translated into a general evaluation error;
/// a response whose `match` flag is false fails with the rendered reason as
/// the error code and no message; otherwise the attachment is parsed as
/// JSON and must be an object whose fields all translate, else the
/// operation fails as [`attachment_outcome`] states.
pub fn resolve_variant_response(outcome: Result<VariantEvaluation, UpstreamError>) -> (r:
    EvaluationResult<ResolutionDetails<StructValue>>)
    ensures
        (outcome matches Err(e) ==> r matches Err(err) && translated_error(err, e)),
        (outcome matches Ok(v) ==> (!v.matched ==> (r matches Err(err) && general_error(
            err,
            reason_phrase(v.reason),
            None,
        )))),
        (outcome matches Ok(v) ==> (v.matched ==> attachment_outcome(v.variant_attachment@, r))),
{
    let res = match outcome {
        Ok(res) => res,
        Err(e) => {
            return Err(translate_error(e));
        },
    };
    if !res.matched {
        return Err(
            EvaluationError {
                code: EvaluationErrorCode::General(String::from_str(reason_as_str(&res.reason))),
                message: None,
            },
        );
    }
    let parsed = match parse_attachment(res.variant_attachment.as_str()) {
        Ok(v) => v,
        Err(e) => {
            return Err(
                EvaluationError {
                    code: EvaluationErrorCode::General(
                        String::from_str("invalid variant attachment"),
                    ),
                    message: Some(e),
                },
            );
        },
    };
    match parsed {
        JsonValue::Object(entries) => match translate_object(&entries) {
            Ok(fields) => Ok(ResolutionDetails::new(StructValue { fields })),
            Err(e) => Err(
                EvaluationError {
                    code: EvaluationErrorCode::General(
                        String::from_str("invalid variant attachment"),
                    ),
                    message: Some(e),
                },
            ),
        },
        _ => Err(
            EvaluationError {
                code: EvaluationErrorCode::General(String::from_str("invalid variant attachment")),
                message: Some(non_object_message(res.variant_attachment.as_str())),
            },
        ),
    }
}

} // verus!
