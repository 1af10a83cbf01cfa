//! The error taxonomy: errors that the remote service reports, and errors
//! of the exchange itself.
use vstd::prelude::*;

use crate::decimal::{decimal, decimal_spec};
use crate::envelope::FromJson;
use crate::json::{JsonValue, get_str, get_u32, str_field, u32_field};

verus! {

#[verifier::external_type_specification]
#[verifier::external_body]
pub struct ExReqwestError(reqwest::Error);

/// A response body is either the payload of a success or an error record;
/// the two are told apart by the fields present, with no tag.
pub enum ApiResult<T> {
    Success(T),
    Failure(ApiError),
}

/// An error record returned by the remote service.
#[derive(Debug)]
pub struct ApiError {
    pub code: u32,
    pub message: String,
    pub more_info: String,
    pub status: u32,
}

/// The error of a call: either the exchange failed, or the service answered
/// with an error record.
#[derive(Debug)]
pub enum AuthyErr {
    /// The service answered with an error record.
    Api(ApiError),
    /// The exchange failed: no answer, or an answer that could not be read.
    Http(Transport),
}

/// A failed exchange.
#[derive(Debug)]
pub enum Transport {
    /// The request could not be sent or its answer not be received.
    Request(reqwest::Error),
    /// The answer's body was neither the expected payload nor an error
    /// record.
    Decode,
}

/// Relies on the `Display` impl of reqwest::Error for its message.
#[verifier::external_body]
fn http_error_text(e: &reqwest::Error) -> String {
    e.to_string()
}

impl FromJson for ApiError {
    open spec fn has_shape(v: JsonValue) -> bool {
        &&& u32_field(v, "code"@) is Some
        &&& str_field(v, "message"@) is Some
        &&& str_field(v, "more_info"@) is Some
        &&& u32_field(v, "status"@) is Some
    }

    open spec fn decoded_from(self, v: JsonValue) -> bool {
        &&& Some(self.code) == u32_field(v, "code"@)
        &&& Some(self.message@) == str_field(v, "message"@)
        &&& Some(self.more_info@) == str_field(v, "more_info"@)
        &&& Some(self.status) == u32_field(v, "status"@)
    }

    fn from_json(v: &JsonValue) -> (r: Option<ApiError>) {
        let code = get_u32(v, "code");
        let message = get_str(v, "message");
        let more_info = get_str(v, "more_info");
        let status = get_u32(v, "status");
        match (code, message, more_info, status) {
            (Some(code), Some(message), Some(more_info), Some(status)) => Some(
                ApiError { code, message, more_info, status },
            ),
            _ => None,
        }
    }
}

impl ApiError {
    /// The human-readable message.
    pub fn description(&self) -> (r: &str)
        ensures
            r@ == self.message@,
    {
        self.message.as_str()
    }

    /// The text shown for this error: `ErrorResponse #<code>: <message>`.
    pub fn to_display_string(&self) -> (r: String)
        ensures
            r@ == "ErrorResponse #"@ + decimal_spec(self.code as nat) + ": "@ + self.message@,
    {
        let code = decimal(self.code as u64);
        let s = String::from_str("ErrorResponse #");
        let s = s.concat(code.as_str());
        let s = s.concat(": ");
        s.concat(self.message.as_str())
    }
}

impl From<ApiError> for u32 {
    fn from(e: ApiError) -> (r: u32) {
        e.code
    }
}

impl vstd::std_specs::convert::FromSpecImpl<ApiError> for u32 {
    open spec fn obeys_from_spec() -> bool {
        true
    }

    open spec fn from_spec(e: ApiError) -> u32 {
        e.code
    }
}

impl<T> ApiResult<T> {
    /// The payload as `Ok`, the error record as `Err`.
    pub fn into_result(self) -> (r: Result<T, ApiError>)
        ensures
            match self {
                ApiResult::Success(x) => r == Ok::<T, ApiError>(x),
                ApiResult::Failure(e) => r == Err::<T, ApiError>(e),
            },
    {
        match self {
            ApiResult::Success(x) => Ok(x),
            ApiResult::Failure(e) => Err(e),
        }
    }
}

/// The text of the message for a decoding failure.
pub open spec fn decode_failure_text() -> Seq<char> {
    "response body is neither the expected payload nor an error record"@
}

impl AuthyErr {
    /// The error record, where the service sent one.
    pub fn api_error(&self) -> (r: Option<&ApiError>)
        ensures
            match self {
                AuthyErr::Api(e) => r == Some(e),
                _ => r is None,
            },
    {
        match self {
            AuthyErr::Api(e) => Some(e),
            _ => None,
        }
    }

    /// A human-readable description: the service's message for an error
    /// record, the transport's message for a failed exchange.
    pub fn description(&self) -> (r: String)
        ensures
            self matches AuthyErr::Api(e) ==> r@ == e.message@,
            self matches AuthyErr::Http(Transport::Decode) ==> r@ == decode_failure_text(),
    {
        match self {
            AuthyErr::Api(e) => String::from_str(e.description()),
            AuthyErr::Http(Transport::Request(e)) => http_error_text(e),
            AuthyErr::Http(Transport::Decode) => String::from_str(
                "response body is neither the expected payload nor an error record",
            ),
        }
    }
}

} // verus!
