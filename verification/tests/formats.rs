use axum::http::StatusCode;
use web_errors::model::format_error;

#[test]
fn format_error_writes_the_status_and_the_message() {
    assert_eq!(format_error(StatusCode::OK, "ok"), "Code: 200; ok;");
    assert_eq!(
        format_error(StatusCode::NOT_FOUND, "Not Found"),
        "Code: 404; Not Found;"
    );
}

#[test]
fn format_error_with_an_empty_message() {
    assert_eq!(format_error(StatusCode::ACCEPTED, ""), "Code: 202; ;");
}
