//! Classification of the remote side's JSON response envelope: every answer
//! carries a numeric `code`, 0 on success; errors surface a conventional
//! `message` member. Reading the JSON itself is delegated to `serde_json`
//! behind trusted wrappers; everything decided from the extracted facts is
//! verified.

use vstd::prelude::*;

use super::api::common::MessageCode;
use super::api::error::ApiError;
use super::auth::AccessToken;
use crate::spec_status_success;
use crate::status_is_success;

verus! {

/// What the conventional `/message` location of an envelope holds.
#[derive(Debug, Clone)]
pub enum MessageField {
    /// A plain string message.
    Text(String),
    /// Some JSON value that is not a string.
    Object,
    /// No such member.
    Missing,
}

/// The facts the validation chain reads off one response body.
#[derive(Debug, Clone)]
pub enum EnvelopeSummary {
    /// The body is not valid JSON.
    NotJson,
    /// The body is JSON; `code_is_zero` says whether its `code` member exists
    /// and equals 0.
    Json { code_is_zero: bool, message: MessageField },
}

/// The summary that inspecting `body` as a JSON envelope yields; a function
/// of the bytes alone.
pub uninterp spec fn envelope_of(body: Seq<u8>) -> EnvelopeSummary;

/// The token payload a token-exchange response body holds, when the body is a
/// JSON object with a string `app_access_token` and an unsigned integer
/// `expire`; a function of the bytes alone.
pub uninterp spec fn token_payload_of(body: Seq<u8>) -> Option<AccessToken>;

/// The message-post payload a response body holds, when the body is a JSON
/// object with an unsigned integer `code` that fits `u32` and a string
/// `message_id`; a function of the bytes alone.
pub uninterp spec fn message_code_of(body: Seq<u8>) -> Option<MessageCode>;

/// Relies on `serde_json::from_slice::<Value>`, `Value::get`,
/// `Value::pointer` and `Value::as_str`: whether the body parses as JSON,
/// whether its `code` member equals 0, and what its `/message` member holds
/// all depend on the bytes alone.
#[verifier::external_body]
fn read_envelope(body: &[u8]) -> (r: EnvelopeSummary)
    ensures
        r == envelope_of(body@),
{
    let v: serde_json::Value = match serde_json::from_slice(body) {
        Ok(v) => v,
        Err(_) => return EnvelopeSummary::NotJson,
    };
    let code_is_zero = matches!(v.get("code"), Some(c) if c == 0);
    let message = match v.pointer("/message") {
        None => MessageField::Missing,
        Some(m) => match m.as_str() {
            Some(s) => MessageField::Text(s.to_owned()),
            None => MessageField::Object,
        },
    };
    EnvelopeSummary::Json { code_is_zero, message }
}

/// Relies on `serde_json::from_slice::<Value>`, `Value::get`, `Value::as_str`
/// and `Value::as_u64`: the extracted token fields depend on the bytes alone.
#[verifier::external_body]
fn read_token_payload(body: &[u8]) -> (r: Option<AccessToken>)
    ensures
        r == token_payload_of(body@),
{
    let v: serde_json::Value = serde_json::from_slice(body).ok()?;
    let app_access_token = v.get("app_access_token")?.as_str()?.to_owned();
    let expire = v.get("expire")?.as_u64()?;
    Some(AccessToken { app_access_token, expire })
}

/// Relies on `serde_json::from_slice::<Value>`, `Value::get`, `Value::as_str`
/// and `Value::as_u64`: the extracted fields depend on the bytes alone.
#[verifier::external_body]
fn read_message_code(body: &[u8]) -> (r: Option<MessageCode>)
    ensures
        r == message_code_of(body@),
{
    let v: serde_json::Value = serde_json::from_slice(body).ok()?;
    let code = u32::try_from(v.get("code")?.as_u64()?).ok()?;
    let message_id = v.get("message_id")?.as_str()?.to_owned();
    Some(MessageCode { code, message_id })
}

/// A response passes validation exactly when its HTTP status lies in the
/// success class, its body is JSON, and the envelope's `code` equals 0.
pub open spec fn spec_envelope_ok(status: u16, body: Seq<u8>) -> bool {
    &&& spec_status_success(status)
    &&& envelope_of(body) matches EnvelopeSummary::Json { code_is_zero: true, .. }
}

/// The classified remote error built from the envelope's message field: a
/// string becomes a plain message error, any other value an opaque object
/// error, and an absent member an unrecognized-shape error.
pub open spec fn spec_from_seatalk<E>(message: MessageField) -> ApiError<E> {
    match message {
        MessageField::Text(msg) => ApiError::Seatalk { msg },
        MessageField::Object => ApiError::SeatalkObject,
        MessageField::Missing => ApiError::SeatalkUnrecognized,
    }
}

/// Builds the classified remote error for an error envelope.
pub fn from_seatalk<E>(message: MessageField) -> (r: ApiError<E>)
    ensures
        r == spec_from_seatalk::<E>(message),
{
    match message {
        MessageField::Text(msg) => ApiError::Seatalk { msg },
        MessageField::Object => ApiError::SeatalkObject,
        MessageField::Missing => ApiError::SeatalkUnrecognized,
    }
}

/// Runs the validation chain on one response. Success comes exactly on a
/// success-class status with a JSON body whose `code` is 0; a body that is
/// not JSON yields the raw-bytes service error; any other failure yields the
/// classified remote error — never success.
pub fn check_envelope<E>(status: u16, body: Vec<u8>) -> (r: Result<(), ApiError<E>>)
    ensures
        r is Ok <==> spec_envelope_ok(status, body@),
        envelope_of(body@) is NotJson ==> (r matches Err(ApiError::SeatalkService {
            status: s,
            data,
        }) && s == status && data@ == body@),
        envelope_of(body@) matches EnvelopeSummary::Json { code_is_zero, message } ==> (!(
        spec_status_success(status) && code_is_zero) ==> r == Err::<(), ApiError<E>>(
            spec_from_seatalk::<E>(message))),
{
    let summary = read_envelope(body.as_slice());
    match summary {
        EnvelopeSummary::NotJson => Err(ApiError::SeatalkService { status, data: body }),
        EnvelopeSummary::Json { code_is_zero, message } => {
            if !status_is_success(status) || !code_is_zero {
                Err(from_seatalk(message))
            } else {
                Ok(())
            }
        },
    }
}

/// Interprets a token-exchange response: the validation chain, then the
/// typed token payload; a valid envelope whose payload does not have the
/// expected shape yields the mismatch error naming the expected type.
pub fn interpret_token_response<E>(status: u16, body: Vec<u8>) -> (r: Result<
    AccessToken,
    ApiError<E>,
>)
    ensures
        r is Ok <==> spec_envelope_ok(status, body@) && token_payload_of(body@) is Some,
        r matches Ok(t) ==> token_payload_of(body@) == Some(t),
        (spec_envelope_ok(status, body@) && token_payload_of(body@) is None) ==> (r matches Err(
            ApiError::DataType { typename },
        ) && typename@ == ("AccessToken")@),
        envelope_of(body@) is NotJson ==> (r matches Err(ApiError::SeatalkService {
            status: s,
            data,
        }) && s == status && data@ == body@),
        envelope_of(body@) matches EnvelopeSummary::Json { code_is_zero, message } ==> (!(
        spec_status_success(status) && code_is_zero) ==> r == Err::<AccessToken, ApiError<E>>(
            spec_from_seatalk::<E>(message))),
{
    let payload = read_token_payload(body.as_slice());
    match check_envelope::<E>(status, body) {
        Err(e) => Err(e),
        Ok(()) => match payload {
            Some(t) => Ok(t),
            None => Err(ApiError::DataType { typename: "AccessToken" }),
        },
    }
}

/// Interprets a message-post response: the validation chain, then the typed
/// payload carrying the remote-assigned message id.
pub fn interpret_message_code_response<E>(status: u16, body: Vec<u8>) -> (r: Result<
    MessageCode,
    ApiError<E>,
>)
    ensures
        r is Ok <==> spec_envelope_ok(status, body@) && message_code_of(body@) is Some,
        r matches Ok(c) ==> message_code_of(body@) == Some(c),
        (spec_envelope_ok(status, body@) && message_code_of(body@) is None) ==> (r matches Err(
            ApiError::DataType { typename },
        ) && typename@ == ("MessageCode")@),
        envelope_of(body@) is NotJson ==> (r matches Err(ApiError::SeatalkService {
            status: s,
            data,
        }) && s == status && data@ == body@),
        envelope_of(body@) matches EnvelopeSummary::Json { code_is_zero, message } ==> (!(
        spec_status_success(status) && code_is_zero) ==> r == Err::<MessageCode, ApiError<E>>(
            spec_from_seatalk::<E>(message))),
{
    let payload = read_message_code(body.as_slice());
    match check_envelope::<E>(status, body) {
        Err(e) => Err(e),
        Ok(()) => match payload {
            Some(c) => Ok(c),
            None => Err(ApiError::DataType { typename: "MessageCode" }),
        },
    }
}

} // verus!
