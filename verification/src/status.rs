//! The HTTP status classification, as the `http` crate defines it and axum
//! re-exports it.
//!
//! `StatusCode` is opaque to the verifier. Everything this library knows about
//! a status is its number, `status_number`, and the items below are the only
//! statements about that number that are taken on trust.

use axum::http::StatusCode;
use vstd::prelude::*;

verus! {

/// `http::StatusCode`, carried through verified code as an opaque value.
#[verifier::external_type_specification]
#[verifier::external_body]
pub struct ExStatusCode(StatusCode);

/// The number of a status code, such as 404 for "Not Found": what
/// `StatusCode::as_u16` returns for it.
pub uninterp spec fn status_number(code: StatusCode) -> u16;

/// Whether `n` is a number that a `StatusCode` can hold.
pub open spec fn is_status_number(n: int) -> bool {
    100 <= n <= 999
}

/// `StatusCode::as_u16` returns the number of the status code. The type holds
/// numbers from 100 to 999 only: `from_u16` and `from_bytes` accept no others,
/// and every constant the crate defines lies in that range.
pub assume_specification[ StatusCode::as_u16 ](code: &StatusCode) -> (n: u16)
    ensures
        n == status_number(*code),
        is_status_number(n as int),
;

/// The constant `StatusCode::BAD_REQUEST`, which the `http` crate defines as
/// status 400.
#[verifier::external_body]
pub(crate) fn bad_request_status() -> (code: StatusCode)
    ensures
        status_number(code) == 400,
{
    StatusCode::BAD_REQUEST
}

/// The constant `StatusCode::NOT_FOUND`, which the `http` crate defines as
/// status 404.
#[verifier::external_body]
pub(crate) fn not_found_status() -> (code: StatusCode)
    ensures
        status_number(code) == 404,
{
    StatusCode::NOT_FOUND
}

/// The constant `StatusCode::INTERNAL_SERVER_ERROR`, which the `http` crate
/// defines as status 500.
#[verifier::external_body]
pub(crate) fn internal_server_error_status() -> (code: StatusCode)
    ensures
        status_number(code) == 500,
{
    StatusCode::INTERNAL_SERVER_ERROR
}

} // verus!
