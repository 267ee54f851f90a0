//! The transport response: what axum hands to the HTTP layer.
//!
//! A `Response` is opaque to the verifier. This library speaks of two things
//! in it: the number on its status line and the bytes of its body.

use crate::status::status_number;
use axum::body::Body;
use axum::http::StatusCode;
use axum::response::{IntoResponse, Response};
use vstd::prelude::*;
use vstd::utf8::encode_utf8;

verus! {

/// `http::Response`, carried through verified code as an opaque value.
#[verifier::external_type_specification]
#[verifier::external_body]
#[verifier::reject_recursive_types(T)]
pub struct ExResponse<T>(axum::http::Response<T>);

/// `axum::body::Body`, the body type of axum's responses.
#[verifier::external_type_specification]
#[verifier::external_body]
pub struct ExBody(Body);

/// `axum::Json`: a payload that is to be sent as JSON. The type is a plain
/// wrapper with one public field, which the verifier reads as it stands.
#[verifier::external_type_specification]
#[verifier::reject_recursive_types(T)]
pub struct ExJson<T>(axum::Json<T>);

/// `axum::response::Html`: a body that is to be sent as HTML. Like `Json`, a
/// plain wrapper with one public field.
#[verifier::external_type_specification]
#[verifier::reject_recursive_types(T)]
pub struct ExHtml<T>(axum::response::Html<T>);

/// The number on the status line of a response: that of the status code which
/// `Response::status` returns.
pub uninterp spec fn response_status(response: Response) -> u16;

/// The bytes of the body of a response, in the order in which the body yields
/// them.
pub uninterp spec fn response_body(response: Response) -> Seq<u8>;

/// `IntoResponse::into_response` on a pair of a status code and a `String`.
/// axum builds the response from the string, which becomes the body as it is
/// (with the content type `text/plain; charset=utf-8`), and then sets the
/// status of that response to the code.
#[verifier::external_body]
pub(crate) fn text_response(code: StatusCode, body: String) -> (response: Response)
    ensures
        response_status(response) == status_number(code),
        response_body(response) == encode_utf8(body@),
{
    (code, body).into_response()
}

} // verus!
