use vstd::prelude::*;

use crate::error_code::{code_maps_to, ApiErrorCode};
use crate::json::{spec_obj_get, JsonValue};

verus! {

/// Error type returned by fallible operations in this library.
#[derive(Debug, PartialEq)]
pub enum EnergiaProError {
    /// A provided argument failed client-side validation.
    InvalidArgument(String),
    /// Failed to generate the one-time secret key hash.
    SecretKeyGeneration(String),
    /// HTTP transport-level failure.
    Http(String),
    /// Non-success HTTP status not mapped to a typed API error.
    HttpStatus {
        /// HTTP status code returned by the server.
        status: u16,
        /// Endpoint URL that produced the response.
        endpoint: String,
        /// Trimmed excerpt of the response body for diagnostics.
        body_snippet: String,
    },
    /// The response payload could not be parsed or decoded.
    Json(String),
    /// Authentication response did not contain a token.
    MissingToken,
    /// Structured API error payload.
    Api {
        /// Parsed API error code.
        code: ApiErrorCode,
        /// API-provided message.
        message: String,
    },
}

/// The raw `errorCode` text of a payload: the string itself for a string
/// field, the literal for a numeric field, absent for anything else.
pub open spec fn spec_error_code_text(p: JsonValue) -> Option<Seq<char>> {
    match p {
        JsonValue::Object(fs) => match spec_obj_get(fs@, "errorCode"@) {
            Some(JsonValue::String(code)) => Some(code@),
            Some(JsonValue::Number(code)) => Some(code@),
            _ => None,
        },
        _ => None,
    }
}

/// The message an error payload carries, with the vendor's stock text
/// where the `error` field is missing or not a string.
pub open spec fn spec_error_message(p: JsonValue) -> Seq<char> {
    match p {
        JsonValue::Object(fs) => match spec_obj_get(fs@, "error"@) {
            Some(JsonValue::String(message)) => message@,
            _ => "Not allowed."@,
        },
        _ => "Not allowed."@,
    }
}

/// True when the payload is a vendor error: it carries an `errorCode`
/// other than the `"0"` success sentinel. A payload without the field is
/// not an error payload at all.
pub open spec fn is_error_payload(p: JsonValue) -> bool {
    match spec_error_code_text(p) {
        Some(code) => code != "0"@,
        None => false,
    }
}

/// True when `e` is the typed API error that the error payload `p`
/// classifies to: its code mapped through the fixed table, its message
/// the payload's.
pub open spec fn api_error_is(e: EnergiaProError, p: JsonValue) -> bool {
    e matches EnergiaProError::Api { code, message } && code_maps_to(
        spec_error_code_text(p).unwrap(),
        code,
    ) && message@ == spec_error_message(p)
}

impl EnergiaProError {
    /// Classify a decoded payload: a typed API error exactly when the
    /// payload carries a non-success `errorCode`, with the code mapped
    /// through the fixed table and the vendor message attached.
    pub fn from_api_payload(payload: &JsonValue) -> (r: Option<EnergiaProError>)
        ensures
            match r {
                Some(e) => is_error_payload(*payload) && api_error_is(e, *payload),
                None => !is_error_payload(*payload),
            },
    {
        let fields = match payload {
            JsonValue::Object(fields) => fields,
            _ => {
                return None;
            },
        };
        let code_text: &String = match obj_get_code(fields) {
            Some(code) => code,
            None => {
                return None;
            },
        };
        if crate::text::str_eq(code_text.as_str(), "0") {
            return None;
        }
        let message: String = match crate::json::obj_get(fields, "error") {
            Some(JsonValue::String(message)) => message.clone(),
            _ => "Not allowed.".to_owned(),
        };
        Some(EnergiaProError::Api {
            code: ApiErrorCode::from_api_code(code_text.as_str()),
            message,
        })
    }
}

/// The `errorCode` field's text, for a string or a numeric field.
fn obj_get_code(fields: &Vec<(String, JsonValue)>) -> (r: Option<&String>)
    ensures
        match r {
            Some(code) => {
                ||| spec_obj_get(fields@, "errorCode"@) == Some(JsonValue::String(*code))
                ||| spec_obj_get(fields@, "errorCode"@) == Some(JsonValue::Number(*code))
            },
            None => match spec_obj_get(fields@, "errorCode"@) {
                Some(JsonValue::String(c)) => false,
                Some(JsonValue::Number(c)) => false,
                _ => true,
            },
        },
{
    match crate::json::obj_get(fields, "errorCode") {
        Some(JsonValue::String(code)) => Some(code),
        Some(JsonValue::Number(code)) => Some(code),
        _ => None,
    }
}

} // verus!
