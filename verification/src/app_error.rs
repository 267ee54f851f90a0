//! The error of a request, with `new` as the catch-all conversion and `code`
//! as the status factory, and the result types for JSON and HTML answers.

use crate::model::{display_text, error_value, format_error, ErrorValue};
use crate::response::{response_body, response_status, text_response};
use crate::status::internal_server_error_status;
use axum::http::StatusCode;
use axum::response::{Html, Response};
use axum::Json;
use vstd::prelude::*;
use vstd::string::to_string_from_display_ensures;
use vstd::utf8::encode_utf8;

verus! {

/// The error of a request: an HTTP status and a message. It is made where an
/// operation fails and ends as the response to the request.
#[derive(Debug)]
pub struct AppError {
    pub code: StatusCode,
    pub message: String,
}

impl View for AppError {
    type V = ErrorValue;

    open spec fn view(&self) -> ErrorValue {
        error_value(self.code, self.message@)
    }
}

impl AppError {
    /// An error with status 500 whose message is the display text of `obj`.
    /// For another status, use the factory [`AppError::code`].
    pub fn new<T: core::fmt::Display>(obj: T) -> (e: Self)
        ensures
            e@.status == 500,
            to_string_from_display_ensures::<T>(&obj, e.message),
    {
        AppError { code: internal_server_error_status(), message: obj.to_string() }
    }

    /// The same as [`AppError::new`], for callers that know the conversion
    /// under this name. Prefer `new`.
    pub fn from<T: core::fmt::Display>(obj: T) -> (e: Self)
        ensures
            e@.status == 500,
            to_string_from_display_ensures::<T>(&obj, e.message),
    {
        AppError { code: internal_server_error_status(), message: obj.to_string() }
    }

    /// The factory for the status `code`: a function that can be called any
    /// number of times, on any value, and makes of it the error with that
    /// status and the value's display text as the message.
    pub fn code<T: core::fmt::Display>(code: StatusCode) -> (make: impl Fn(T) -> Self)
        ensures
            forall|obj: T| make.requires((obj,)),
            forall|obj: T, e: Self| #[trigger]
                make.ensures((obj,), e) ==> e.code == code && to_string_from_display_ensures::<T>(
                    &obj,
                    e.message,
                ),
    {
        move |obj: T| -> (e: Self)
            ensures
                e.code == code,
                to_string_from_display_ensures::<T>(&obj, e.message),
            { AppError { code, message: obj.to_string() } }
    }

    /// The display text: `Code: <status>; <message>;`, the status as its
    /// number in base ten, which has three digits.
    pub fn to_string(&self) -> (text: String)
        ensures
            text@ == display_text(self@),
            text@.len() == self.message@.len() + 12,
    {
        let text = format_error(self.code, self.message.as_str());
        proof {
            crate::model::lemma_display_text_layout(self@);
        }
        text
    }

    /// The response to the request: its status is that of the error and its
    /// body is the message, byte for byte.
    pub fn into_response(self) -> (response: Response)
        ensures
            response_status(response) == self@.status,
            response_body(response) == encode_utf8(self@.message),
    {
        text_response(self.code, self.message)
    }
}

/// The result of an operation that may fail with an [`AppError`].
pub type AppResult<T> = Result<T, AppError>;

/// The result of an operation that answers with JSON.
pub type JsonResult<T> = AppResult<Json<T>>;

/// Wraps `obj` as the success of a [`JsonResult`]. The payload is `obj`
/// itself: nothing is checked or encoded here.
pub fn json_ok<T>(obj: T) -> (result: JsonResult<T>)
    ensures
        result matches Ok(json) && json.0 == obj,
{
    Ok(Json(obj))
}

/// The result of an operation that answers with HTML.
pub type HtmlResult = AppResult<Html<String>>;

/// Wraps the display text of `s` as the success of an [`HtmlResult`]. The text
/// is taken as it is: escaping is the caller's business.
pub fn html_ok<T: core::fmt::Display>(s: T) -> (result: HtmlResult)
    ensures
        result matches Ok(html) && to_string_from_display_ensures::<T>(&s, html.0),
{
    Ok(Html(s.to_string()))
}

} // verus!
