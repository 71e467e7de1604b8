//! The daemon-wide HTTP error surface: a status, a stable machine-readable
//! code and a human-readable message.

use vstd::prelude::*;

verus! {

/// An HTTP status code (a number in `100..=999`).
#[derive(Debug, Clone, Copy, PartialEq, Eq, Structural)]
pub struct StatusCode {
    code: u16,
}

impl View for StatusCode {
    type V = u16;

    closed spec fn view(&self) -> u16 {
        self.code
    }
}

/// 204: the request succeeded with nothing to return.
pub open spec fn status_no_content() -> u16 {
    204
}

impl StatusCode {
    /// The status for the given number, or `None` outside `100..=999`.
    pub fn from_u16(code: u16) -> (s: Option<StatusCode>)
        ensures
            s is Some <==> 100 <= code <= 999,
            s matches Some(st) ==> st@ == code,
    {
        if 100 <= code && code <= 999 {
            Some(StatusCode { code })
        } else {
            None
        }
    }

    pub fn as_u16(&self) -> (c: u16)
        ensures
            c == self@,
            100 <= c <= 999,
    {
        proof {
            use_type_invariant(self);
        }
        self.code
    }

    #[verifier::type_invariant]
    closed spec fn in_range(self) -> bool {
        100 <= self.code <= 999
    }

    pub fn no_content() -> (s: StatusCode)
        ensures
            s@ == 204,
    {
        StatusCode { code: 204 }
    }

    pub fn bad_request() -> (s: StatusCode)
        ensures
            s@ == 400,
    {
        StatusCode { code: 400 }
    }

    pub fn not_found() -> (s: StatusCode)
        ensures
            s@ == 404,
    {
        StatusCode { code: 404 }
    }

    pub fn conflict() -> (s: StatusCode)
        ensures
            s@ == 409,
    {
        StatusCode { code: 409 }
    }

    pub fn internal_server_error() -> (s: StatusCode)
        ensures
            s@ == 500,
    {
        StatusCode { code: 500 }
    }

    pub fn service_unavailable() -> (s: StatusCode)
        ensures
            s@ == 503,
    {
        StatusCode { code: 503 }
    }
}

/// The mathematical content of an [`ApiError`].
pub struct ApiErrorView {
    pub status: u16,
    pub code: Seq<char>,
    pub message: Seq<char>,
}

/// An error answered to an HTTP client.
#[derive(Debug, Clone)]
pub struct ApiError {
    pub status: StatusCode,
    pub code: String,
    pub message: String,
}

impl View for ApiError {
    type V = ApiErrorView;

    open spec fn view(&self) -> ApiErrorView {
        ApiErrorView { status: self.status@, code: self.code@, message: self.message@ }
    }
}

/// The error with the given status, code and message.
pub open spec fn api_error_view(status: u16, code: Seq<char>, message: Seq<char>) -> ApiErrorView {
    ApiErrorView { status, code, message }
}

/// 400 with the code `bad_request`.
pub open spec fn bad_request_view(message: Seq<char>) -> ApiErrorView {
    api_error_view(400, "bad_request"@, message)
}

/// 404 with the code `not_found`.
pub open spec fn not_found_view(message: Seq<char>) -> ApiErrorView {
    api_error_view(404, "not_found"@, message)
}

/// 409 with the code `conflict`.
pub open spec fn conflict_view(message: Seq<char>) -> ApiErrorView {
    api_error_view(409, "conflict"@, message)
}

/// 500 with the code `internal`.
pub open spec fn internal_view(message: Seq<char>) -> ApiErrorView {
    api_error_view(500, "internal"@, message)
}

/// 503 with the code `service_unavailable`.
pub open spec fn service_unavailable_view(message: Seq<char>) -> ApiErrorView {
    api_error_view(503, "service_unavailable"@, message)
}

/// The same error under another machine-readable code.
pub open spec fn with_code_view(e: ApiErrorView, code: Seq<char>) -> ApiErrorView {
    ApiErrorView { code, ..e }
}

impl ApiError {
    pub fn bad_request(message: &str) -> (e: ApiError)
        ensures
            e@ == bad_request_view(message@),
    {
        ApiError {
            status: StatusCode::bad_request(),
            code: "bad_request".to_owned(),
            message: message.to_owned(),
        }
    }

    pub fn not_found(message: &str) -> (e: ApiError)
        ensures
            e@ == not_found_view(message@),
    {
        ApiError {
            status: StatusCode::not_found(),
            code: "not_found".to_owned(),
            message: message.to_owned(),
        }
    }

    pub fn conflict(message: &str) -> (e: ApiError)
        ensures
            e@ == conflict_view(message@),
    {
        ApiError {
            status: StatusCode::conflict(),
            code: "conflict".to_owned(),
            message: message.to_owned(),
        }
    }

    pub fn internal(message: &str) -> (e: ApiError)
        ensures
            e@ == internal_view(message@),
    {
        ApiError {
            status: StatusCode::internal_server_error(),
            code: "internal".to_owned(),
            message: message.to_owned(),
        }
    }

    pub fn service_unavailable(message: &str) -> (e: ApiError)
        ensures
            e@ == service_unavailable_view(message@),
    {
        ApiError {
            status: StatusCode::service_unavailable(),
            code: "service_unavailable".to_owned(),
            message: message.to_owned(),
        }
    }

    /// Replaces the machine-readable code, keeping status and message.
    pub fn with_code(self, code: &str) -> (e: ApiError)
        ensures
            e@ == with_code_view(self@, code@),
    {
        ApiError { status: self.status, code: code.to_owned(), message: self.message }
    }
}

} // verus!
