//! The one error type that crosses every boundary of the gateway: an
//! HTTP-style status code and a message for the caller.

use vstd::prelude::*;

verus! {

/// An error as the gateway reports it.
#[derive(Debug, Clone)]
pub struct ApiError {
    pub status_code: u16,
    pub message: String,
}

/// What an `ApiError` holds, as plain values.
pub struct ApiErrorView {
    pub status_code: u16,
    pub message: Seq<char>,
}

impl View for ApiError {
    type V = ApiErrorView;

    open spec fn view(&self) -> ApiErrorView {
        ApiErrorView { status_code: self.status_code, message: self.message@ }
    }
}

/// An error as the HTTP response that reports it.
#[derive(Debug, Clone)]
pub struct ErrorResponse {
    pub status: u16,
    pub content_type: String,
    pub body: String,
}

/// The status of the response that reports an error of status `code`: the
/// code itself where it is an HTTP status, which has three digits, and 500
/// where it is not.
pub open spec fn response_status(code: u16) -> u16 {
    if 100 <= code <= 999 {
        code
    } else {
        500
    }
}

/// The error for an IP address that leads to no device: status 404.
pub open spec fn device_not_found(ip_address: Seq<char>) -> ApiErrorView {
    ApiErrorView {
        status_code: 404,
        message: "UISP Didn't find a device with the IP "@ + ip_address,
    }
}

/// The error that tells the caller nothing but that the gateway failed:
/// status 500.
pub open spec fn internal_server_error() -> ApiErrorView {
    ApiErrorView { status_code: 500, message: "Internal Server Error"@ }
}

/// The error for a failed cache command, with the backend's own words:
/// status 500.
pub open spec fn cache_command_failed(detail: Seq<char>) -> ApiErrorView {
    ApiErrorView { status_code: 500, message: "Redis error: "@ + detail }
}

/// The error for a failed request to the inventory service, with the
/// transport's own words: status 500.
pub open spec fn inventory_request_failed(detail: Seq<char>) -> ApiErrorView {
    ApiErrorView { status_code: 500, message: "Request error: "@ + detail }
}

impl ApiError {
    pub fn new(status_code: u16, message: String) -> (error: ApiError)
        ensures
            error@ == (ApiErrorView { status_code, message: message@ }),
    {
        ApiError { status_code, message }
    }

    /// No device is known under `ip_address`, or the inventory service would
    /// not issue a ticket for it.
    pub fn uisp_device_not_found(ip_address: String) -> (error: ApiError)
        ensures
            error@ == device_not_found(ip_address@),
    {
        let mut message = String::from_str("UISP Didn't find a device with the IP ");
        message.append(ip_address.as_str());
        ApiError::new(404, message)
    }

    pub fn internal_error() -> (error: ApiError)
        ensures
            error@ == internal_server_error(),
    {
        ApiError::new(500, String::from_str("Internal Server Error"))
    }

    /// A cache command failed; `detail` is what the backend said.
    pub fn redis_error(detail: &str) -> (error: ApiError)
        ensures
            error@ == cache_command_failed(detail@),
    {
        let mut message = String::from_str("Redis error: ");
        message.append(detail);
        ApiError::new(500, message)
    }

    /// A request to the inventory service failed; `detail` is what the
    /// transport said.
    pub fn request_error(detail: &str) -> (error: ApiError)
        ensures
            error@ == inventory_request_failed(detail@),
    {
        let mut message = String::from_str("Request error: ");
        message.append(detail);
        ApiError::new(500, message)
    }

    /// The response that reports the error: its status is the status code,
    /// its body the message, as HTML.
    pub fn error_response(&self) -> (response: ErrorResponse)
        ensures
            response.status == response_status(self.status_code),
            response.content_type@ == "text/html; charset=utf-8"@,
            response.body@ == self.message@,
    {
        let status = if 100 <= self.status_code && self.status_code <= 999 {
            self.status_code
        } else {
            500
        };
        ErrorResponse {
            status,
            content_type: String::from_str("text/html; charset=utf-8"),
            body: self.message.clone(),
        }
    }

    /// The text shown to the caller: the message, and nothing else.
    pub fn to_string(&self) -> (text: String)
        ensures
            text@ == self.message@,
    {
        self.message.clone()
    }
}

} // verus!
