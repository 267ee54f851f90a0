//! Error values for a web service.
//!
//! [`AppError`] pairs an HTTP status with a message and becomes an HTTP
//! response; [`setup_error::SetupError`] carries the message of a failure
//! during start-up. The module [`app_error`] offers the same error value under
//! its revised constructors.

use crate::model::{display_text, error_value, format_error, ErrorValue};
use crate::response::{response_body, response_status, text_response};
use crate::status::{bad_request_status, internal_server_error_status, not_found_status};
use axum::http::StatusCode;
use axum::response::Response;
use axum::Json;
use vstd::prelude::*;
use vstd::string::to_string_from_display_ensures;
use vstd::utf8::encode_utf8;

pub mod app_error;
pub mod decimal;
pub mod model;
pub mod response;
pub mod setup_error;
pub mod status;

verus! {

/// The error of a request: an HTTP status and a message. It is made where an
/// operation fails and ends as the response to the request.
#[derive(Debug)]
pub struct AppError {
    pub code: StatusCode,
    pub message: String,
}

impl View for AppError {
    type V = ErrorValue;

    open spec fn view(&self) -> ErrorValue {
        error_value(self.code, self.message@)
    }
}

impl AppError {
    /// An error with the status `code` whose message is the display text of
    /// `message`.
    pub fn new<T: core::fmt::Display>(code: StatusCode, message: T) -> (e: Self)
        ensures
            e.code == code,
            to_string_from_display_ensures::<T>(&message, e.message),
    {
        AppError { code, message: message.to_string() }
    }

    /// The error with status 404 and the message `Not Found`.
    pub fn not_found() -> (e: Self)
        ensures
            e@ == (ErrorValue { status: 404, message: "Not Found"@ }),
    {
        AppError { code: not_found_status(), message: "Not Found".to_owned() }
    }

    /// An error with status 500 whose message is the display text of
    /// `message`.
    pub fn server_error<T: core::fmt::Display>(message: T) -> (e: Self)
        ensures
            e@.status == 500,
            to_string_from_display_ensures::<T>(&message, e.message),
    {
        AppError { code: internal_server_error_status(), message: message.to_string() }
    }

    /// An error with status 400 whose message is the display text of
    /// `message`.
    pub fn bad_request<T: core::fmt::Display>(message: T) -> (e: Self)
        ensures
            e@.status == 400,
            to_string_from_display_ensures::<T>(&message, e.message),
    {
        AppError { code: bad_request_status(), message: message.to_string() }
    }

    /// The catch-all conversion: an error with status 500 whose message is the
    /// display text of `obj`. It is an associated function and not an impl of
    /// `From`, which would overlap with the impls of std.
    pub fn from<T: core::fmt::Display>(obj: T) -> (e: Self)
        ensures
            e@.status == 500,
            to_string_from_display_ensures::<T>(&obj, e.message),
    {
        AppError { code: internal_server_error_status(), message: obj.to_string() }
    }

    /// The factory for the status `code`: a function that can be called any
    /// number of times, on any value, and makes of it the error with that
    /// status and the value's display text as the message.
    pub fn fact<T: core::fmt::Display>(code: StatusCode) -> (make: impl Fn(T) -> Self)
        ensures
            forall|obj: T| make.requires((obj,)),
            forall|obj: T, e: Self| #[trigger]
                make.ensures((obj,), e) ==> e.code == code && to_string_from_display_ensures::<T>(
                    &obj,
                    e.message,
                ),
    {
        move |obj: T| -> (e: Self)
            ensures
                e.code == code,
                to_string_from_display_ensures::<T>(&obj, e.message),
            { AppError { code, message: obj.to_string() } }
    }

    /// The display text: `Code: <status>; <message>;`, the status as its
    /// number in base ten, which has three digits.
    pub fn to_string(&self) -> (text: String)
        ensures
            text@ == display_text(self@),
            text@.len() == self.message@.len() + 12,
    {
        let text = format_error(self.code, self.message.as_str());
        proof {
            crate::model::lemma_display_text_layout(self@);
        }
        text
    }

    /// The response to the request: its status is that of the error and its
    /// body is the message, byte for byte.
    pub fn into_response(self) -> (response: Response)
        ensures
            response_status(response) == self@.status,
            response_body(response) == encode_utf8(self@.message),
    {
        text_response(self.code, self.message)
    }
}

/// The result of an operation that may fail with an [`AppError`].
pub type AppResult<T> = Result<T, AppError>;

/// The result of an operation that answers with JSON.
pub type JsonResult<T> = AppResult<Json<T>>;

/// Wraps `obj` as the success of a [`JsonResult`]. The payload is `obj`
/// itself: nothing is checked or encoded here.
pub fn json_ok<T>(obj: T) -> (result: JsonResult<T>)
    ensures
        result matches Ok(json) && json.0 == obj,
{
    Ok(Json(obj))
}

} // verus!
