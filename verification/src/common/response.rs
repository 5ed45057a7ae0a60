//! The envelope of an API response.

use vstd::prelude::*;
use vstd::string::StringExecFns;

verus! {

/// The error part of a response.
#[derive(Debug, Clone, PartialEq, Eq)]
pub struct ApiError {
    /// A short, stable code.
    pub code: String,
    /// The message for the caller.
    pub message: String,
}

/// The envelope of a response: data or an error, never both, with the
/// status it is sent with.
#[derive(Debug)]
pub struct ApiResponse<T> {
    /// The data of a successful response.
    pub data: Option<T>,
    /// The error of a failed response.
    pub error: Option<ApiError>,
    /// Whether the response is a success.
    pub success: bool,
    /// The status the response is sent with; it is no part of the body.
    pub http_status: u16,
}

/// The status of a successful response.
pub const OK: u16 = 200;

impl<T> ApiResponse<T> {
    /// A successful response with `data`, sent with status 200.
    pub fn success(data: T) -> (response: ApiResponse<T>)
        ensures
            response.data == Some(data),
            response.error is None,
            response.success,
            response.http_status == OK,
    {
        ApiResponse { data: Some(data), error: None, success: true, http_status: OK }
    }

    /// A failed response with the given code and message, sent with
    /// `status`.
    pub fn error(status: u16, code: &str, message: &str) -> (response: ApiResponse<T>)
        ensures
            response.data is None,
            response.error matches Some(e) && e.code@ == code@ && e.message@ == message@,
            !response.success,
            response.http_status == status,
    {
        ApiResponse {
            data: None,
            error: Some(ApiError { code: String::from_str(code), message: String::from_str(message) }),
            success: false,
            http_status: status,
        }
    }
}

} // verus!
