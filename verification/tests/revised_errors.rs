use axum::http::StatusCode;
use web_errors::app_error::{html_ok, json_ok, AppError, HtmlResult, JsonResult};

#[test]
fn app_error_test_fmt() {
    let err = AppError {
        code: StatusCode::OK,
        message: "ok".to_string(),
    };

    assert_eq!(err.to_string(), "Code: 200; ok;");
}

/// `new` makes an error of any value that can be displayed.
#[test]
fn app_error_test_from() {
    let err2: AppError = AppError::new("hi");

    assert_eq!(err2.message, "hi");
    assert_eq!(err2.code, StatusCode::INTERNAL_SERVER_ERROR);
}

/// The types of `json_ok` fit together.
#[test]
fn app_error_test_json() {
    let resp: JsonResult<String> = json_ok("hi".to_string());
    assert_eq!(resp.unwrap().to_string(), "hi");
}

#[test]
fn app_error_test_traits() {
    assert_eq!(AppError::new("hi").message, "hi");
    assert_eq!(AppError::new("hi".to_string()).message, "hi");
}

#[test]
fn test_code() {
    let r: Result<(), String> = Err("hi".to_string());
    let mapped = r.map_err(AppError::code(StatusCode::METHOD_NOT_ALLOWED));

    assert!(mapped.is_err());

    let e = mapped.unwrap_err();

    assert_eq!(e.code, StatusCode::METHOD_NOT_ALLOWED);
    assert_eq!(e.message, "hi");
}

#[test]
fn from_is_new_under_another_name() {
    let e = AppError::from("hi");
    assert_eq!(e.message, "hi");
    assert_eq!(e.code, StatusCode::INTERNAL_SERVER_ERROR);
    assert_eq!(e.code.as_u16(), 500);
}

#[test]
fn code_makes_405_of_hi() {
    let make = AppError::code(StatusCode::METHOD_NOT_ALLOWED);
    let first = make("hi");
    let second = make("ho");
    assert_eq!(first.code.as_u16(), 405);
    assert_eq!(first.message, "hi");
    assert_eq!(second.code.as_u16(), 405);
    assert_eq!(second.message, "ho");
}

#[test]
fn display_of_a_made_error() {
    assert_eq!(AppError::new("boom").to_string(), "Code: 500; boom;");
    let make = AppError::code(StatusCode::UNAUTHORIZED);
    assert_eq!(make("who?").to_string(), "Code: 401; who?;");
}

#[test]
fn json_ok_keeps_the_payload() {
    let resp: JsonResult<(u8, &str)> = json_ok((1, "a"));
    assert_eq!(resp.unwrap().0, (1, "a"));
}

#[test]
fn html_ok_keeps_the_text() {
    let resp: HtmlResult = html_ok("<p>hi & bye</p>");
    assert_eq!(resp.unwrap().0, "<p>hi & bye</p>");
}

#[test]
fn html_ok_takes_values_that_are_not_strings() {
    let resp: HtmlResult = html_ok(12);
    assert_eq!(resp.unwrap().0, "12");
}
