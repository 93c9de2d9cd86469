//! Shared error taxonomy and the response decoding policy every dispatched
//! operation applies.

use vstd::prelude::*;
use vstd::string::StringExecFns;

use crate::json::{api_error_of, parse_api_error};

verus! {

/// Error type for engine calls.
///
/// Wraps both engine-reported API errors and deserialization failures so that
/// callers never see a panic from malformed responses and always handle a
/// single failure channel.
#[derive(Debug)]
pub enum TdError {
    /// A standard engine API error (e.g. 404, 429, etc.).
    Api {
        /// The numeric error code the engine reported.
        code: i32,
        /// The error message the engine reported.
        message: String,
    },
    /// The response could not be deserialized into the expected type.
    Deserialization {
        /// The type we attempted to deserialize into (e.g. "Chat").
        expected_type: String,
        /// The raw payload that failed to deserialize.
        payload: String,
        /// The decoder's own account of the failure.
        error: String,
    },
}

impl TdError {
    /// Returns the API error code, or -1 for deserialization errors, so
    /// callers can branch on a single integer without matching on the kind.
    pub fn code(&self) -> (r: i32)
        ensures
            r == if self is Api {
                self->Api_code as int
            } else {
                -1int
            },
    {
        match self {
            TdError::Api { code, .. } => *code,
            TdError::Deserialization { .. } => -1,
        }
    }

    /// A human-readable account of the error.
    pub fn describe(&self) -> (r: String)
        ensures
            r@ == if self is Api {
                "engine error: "@ + self->Api_message@
            } else {
                "failed to deserialize "@ + self->Deserialization_expected_type@
            },
    {
        match self {
            TdError::Api { message, .. } => {
                let pre: String = "engine error: ".to_owned();
                pre.concat(message.as_str())
            },
            TdError::Deserialization { expected_type, .. } => {
                let pre: String = "failed to deserialize ".to_owned();
                pre.concat(expected_type.as_str())
            },
        }
    }
}

/// Decode the response of a unit-returning operation: only the API-error
/// shape is tried; matching it fails the call with that error, and anything
/// else succeeds with no value — nothing is ever decoded against the success
/// type, because there is nothing to decode into.
pub fn decode_unit_response(response: &str) -> (r: Result<(), TdError>)
    ensures
        match api_error_of(response@) {
            Some(e) => r matches Err(TdError::Api { code, message }) && code == e.0 && message@
                == e.1,
            None => r is Ok,
        },
{
    match parse_api_error(response) {
        Some((code, message)) => Err(TdError::Api { code, message }),
        None => Ok(()),
    }
}

/// Decode the response of a value-returning operation, given the outcome of
/// the caller's attempt to decode the expected success type (that attempt is
/// the engine binding's own deserialization of the raw text). A successful
/// decode wins immediately — even over a payload that would also satisfy the
/// error shape. Only on decode failure is the API-error shape tried; if that
/// fails too, a deserialization error reports the expected type's name, the
/// raw response verbatim, and the original decode failure.
pub fn decode_value_response<V>(expected: &str, response: String, attempt: Result<V, String>) -> (r:
    Result<V, TdError>)
    ensures
        match attempt {
            Ok(v) => r matches Ok(rv) && rv == v,
            Err(e) => match api_error_of(response@) {
                Some(ae) => r matches Err(TdError::Api { code, message }) && code == ae.0
                    && message@ == ae.1,
                None => r matches Err(
                    TdError::Deserialization { expected_type, payload, error },
                ) && expected_type@ == expected@ && payload@ == response@ && error@ == e@,
            },
        },
{
    match attempt {
        Ok(v) => Ok(v),
        Err(e) => match parse_api_error(response.as_str()) {
            Some((code, message)) => Err(TdError::Api { code, message }),
            None => Err(
                TdError::Deserialization {
                    expected_type: expected.to_owned(),
                    payload: response,
                    error: e,
                },
            ),
        },
    }
}

} // verus!
