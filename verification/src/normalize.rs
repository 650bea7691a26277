//! The response/error normalizer: turns the typed client's outcome into
//! either a canonical dynamic value (data) or a raised error.  Structured
//! error bodies and parseable unexpected bodies come back as data; only a
//! transport-level failure, or a body that is not JSON, raises.

use vstd::prelude::*;
use vstd::string::*;
use crate::dynvalue::{Dyn, DynValue};
use crate::transcode::{snake_dyn, snake_case_hash_keys};

verus! {

/// The typed client's error taxonomy, modelled as a closed tagged union.
/// An `ErrorResponse` carries its already-structured body;
/// `UnexpectedResponse` carries the drained body bytes (the caller drains
/// the still-open stream before handing the error in);
/// `InvalidResponsePayload` carries the bytes captured before validation
/// failed; `Other` carries the stringified transport-level cause.
#[derive(Debug)]
pub enum ApiError {
    ErrorResponse(DynValue),
    UnexpectedResponse(Vec<u8>),
    InvalidResponsePayload(Vec<u8>),
    Other(String),
}

/// The model of a typed client error.
pub enum ApiErrorSpec {
    ErrorResponse(Dyn),
    UnexpectedResponse(Seq<u8>),
    InvalidResponsePayload(Seq<u8>),
    Other(Seq<char>),
}

impl View for ApiError {
    type V = ApiErrorSpec;

    open spec fn view(&self) -> ApiErrorSpec {
        match self {
            ApiError::ErrorResponse(b) => ApiErrorSpec::ErrorResponse(b@),
            ApiError::UnexpectedResponse(bytes) => ApiErrorSpec::UnexpectedResponse(bytes@),
            ApiError::InvalidResponsePayload(bytes) => ApiErrorSpec::InvalidResponsePayload(bytes@),
            ApiError::Other(cause) => ApiErrorSpec::Other(cause@),
        }
    }
}

/// A host-level raised error: the one outcome that is not data.
#[derive(Debug)]
pub struct RaisedError {
    pub message: String,
}

impl View for RaisedError {
    type V = Seq<char>;

    open spec fn view(&self) -> Seq<char> {
        self.message@
    }
}

/// Declares serde_json's value type so the parsing wrapper below can
/// hold one; nothing inside it is visible here.
#[verifier::external_type_specification]
#[verifier::external_body]
pub struct ExJsonValue(serde_json::Value);

/// What one whole JSON document held in the given bytes parses to, as a
/// dynamic value; `None` when the bytes are not one valid JSON document.
pub uninterp spec fn parsed_json(b: Seq<u8>) -> Option<Dyn>;

/// The conversion half of [`parse_json`]: relies on serde_json::Value's
/// variants, one dynamic variant per JSON kind, numbers carried as their
/// decimal text.
#[verifier::external_body]
fn dyn_of_json(v: &serde_json::Value) -> DynValue {
    match v {
        serde_json::Value::Null => DynValue::Null,
        serde_json::Value::Bool(b) => DynValue::Bool(*b),
        serde_json::Value::Number(n) => DynValue::Num(n.to_string()),
        serde_json::Value::String(s) => DynValue::Str(s.clone()),
        serde_json::Value::Array(a) => DynValue::List(a.iter().map(dyn_of_json).collect()),
        serde_json::Value::Object(m) => DynValue::Object(
            m.iter().map(|(k, w)| (k.clone(), dyn_of_json(w))).collect(),
        ),
    }
}

/// Relies on serde_json::from_slice: parses the bytes as one JSON
/// document; the result depends on the bytes alone.
#[verifier::external_body]
fn parse_json(bytes: &Vec<u8>) -> (r: Option<DynValue>)
    ensures
        match r {
            Some(v) => parsed_json(bytes@) == Some(v@),
            None => parsed_json(bytes@) is None,
        },
{
    match serde_json::from_slice::<serde_json::Value>(bytes) {
        Ok(v) => Some(dyn_of_json(&v)),
        Err(_) => None,
    }
}

/// The model of the typed client's outcome as handed to the normalizer.
pub open spec fn outcome_model(r: Result<DynValue, ApiError>) -> Result<Dyn, ApiErrorSpec> {
    match r {
        Ok(v) => Ok(v@),
        Err(e) => Err(e@),
    }
}

/// The model of what the normalizer hands back.
pub open spec fn result_model(r: Result<DynValue, RaisedError>) -> Result<Dyn, Seq<char>> {
    match r {
        Ok(v) => Ok(v@),
        Err(e) => Err(e@),
    }
}

/// What the normalizer returns for each outcome: the success payload or a
/// structured error body as data, a parseable unexpected or invalid body
/// as data, and otherwise a raised error message.
pub open spec fn normalize_spec(r: Result<Dyn, ApiErrorSpec>) -> Result<Dyn, Seq<char>> {
    match r {
        Ok(v) => Ok(v),
        Err(ApiErrorSpec::ErrorResponse(b)) => Ok(b),
        Err(ApiErrorSpec::UnexpectedResponse(bytes)) => match parsed_json(bytes) {
            Some(d) => Ok(d),
            None => Err("error: malformed JSON in response body"@),
        },
        Err(ApiErrorSpec::InvalidResponsePayload(bytes)) => match parsed_json(bytes) {
            Some(d) => Ok(d),
            None => Err("error: malformed JSON in response body"@),
        },
        Err(ApiErrorSpec::Other(cause)) => Err("error: "@ + cause),
    }
}

/// The outcomes on which the normalizer raises instead of returning data:
/// a transport-level failure, or a body that is not one JSON document.
pub open spec fn normalize_raises(r: Result<Dyn, ApiErrorSpec>) -> bool {
    match r {
        Ok(_) => false,
        Err(ApiErrorSpec::ErrorResponse(_)) => false,
        Err(ApiErrorSpec::UnexpectedResponse(bytes)) => parsed_json(bytes) is None,
        Err(ApiErrorSpec::InvalidResponsePayload(bytes)) => parsed_json(bytes) is None,
        Err(ApiErrorSpec::Other(_)) => true,
    }
}

/// Law: the normalizer turns a success, a structured error body, and a
/// parseable unexpected or invalid body into data, and raises exactly on
/// a transport-level failure or an unparseable body.
pub proof fn law_normalizer_outcome_class(r: Result<Dyn, ApiErrorSpec>)
    ensures
        r matches Err(ApiErrorSpec::ErrorResponse(_)) ==> normalize_spec(r) is Ok,
        (r matches Err(ApiErrorSpec::UnexpectedResponse(b)) && parsed_json(b) is Some)
            ==> normalize_spec(r) is Ok,
        (r matches Err(ApiErrorSpec::InvalidResponsePayload(b)) && parsed_json(b) is Some)
            ==> normalize_spec(r) is Ok,
        r matches Err(ApiErrorSpec::Other(_)) ==> normalize_spec(r) is Err,
        normalize_spec(r) is Err <==> normalize_raises(r),
{
}

/// Normalizes the typed client's outcome: data for a success, for a
/// structured error body, and for a body that parses as JSON; a raised
/// error for a transport-level failure or an unparseable body.
pub fn extract_response(result: Result<DynValue, ApiError>) -> (r: Result<DynValue, RaisedError>)
    ensures
        result_model(r) == normalize_spec(outcome_model(result)),
        r is Err <==> normalize_raises(outcome_model(result)),
{
    match result {
        Ok(v) => Ok(v),
        Err(e) => match e {
            ApiError::ErrorResponse(b) => Ok(b),
            ApiError::UnexpectedResponse(bytes) => match parse_json(&bytes) {
                Some(v) => Ok(v),
                None => Err(RaisedError {
                    message: String::from_str("error: malformed JSON in response body"),
                }),
            },
            ApiError::InvalidResponsePayload(bytes) => match parse_json(&bytes) {
                Some(v) => Ok(v),
                None => Err(RaisedError {
                    message: String::from_str("error: malformed JSON in response body"),
                }),
            },
            ApiError::Other(cause) => Err(RaisedError {
                message: String::from_str("error: ").concat(cause.as_str()),
            }),
        },
    }
}

/// What a whole façade call hands the host once the typed client's
/// outcome is in: the normalized data with every nested key rewritten to
/// the host convention, or the raised error unchanged.
pub open spec fn finish_spec(r: Result<Dyn, ApiErrorSpec>) -> Result<Dyn, Seq<char>> {
    match normalize_spec(r) {
        Ok(d) => Ok(snake_dyn(d)),
        Err(m) => Err(m),
    }
}

/// Completes a façade call from the typed client's outcome: normalizes
/// it, then rewrites every key of a data outcome to snake_case.
pub fn finish_call(result: Result<DynValue, ApiError>) -> (r: Result<DynValue, RaisedError>)
    ensures
        result_model(r) == finish_spec(outcome_model(result)),
        r is Err <==> normalize_raises(outcome_model(result)),
{
    match extract_response(result) {
        Ok(v) => Ok(snake_case_hash_keys(&v)),
        Err(e) => Err(e),
    }
}

} // verus!
