//! The mathematical model of an error value and of its display text.

use crate::decimal::{decimal_digits, lemma_three_digits, push_decimal};
use crate::status::{is_status_number, status_number};
use axum::http::StatusCode;
use vstd::prelude::*;
use vstd::string::StringExecFns;

verus! {

/// What an error value is: the number of its HTTP status and its message.
pub struct ErrorValue {
    pub status: int,
    pub message: Seq<char>,
}

/// The model of the pair of a status code and a message.
pub open spec fn error_value(code: StatusCode, message: Seq<char>) -> ErrorValue {
    ErrorValue { status: status_number(code) as int, message }
}

/// The display text of an error value: `Code: <status>; <message>;`, with the
/// status written in base ten.
pub open spec fn display_text(e: ErrorValue) -> Seq<char> {
    "Code: "@ + decimal_digits(e.status as nat) + "; "@ + e.message + ";"@
}

/// With a status from 100 to 999 the display text is `Code: `, three digits,
/// `; `, the message and `;`: the message starts at position 11 and the text is
/// 12 characters longer than the message.
pub proof fn lemma_display_text_layout(e: ErrorValue)
    requires
        is_status_number(e.status),
    ensures
        display_text(e).len() == e.message.len() + 12,
        display_text(e).subrange(0, 6) == "Code: "@,
        display_text(e).subrange(6, 9) == decimal_digits(e.status as nat),
        display_text(e).subrange(9, 11) == "; "@,
        display_text(e).subrange(11, display_text(e).len() - 1) == e.message,
        display_text(e).last() == ';',
{
    reveal_strlit("Code: ");
    reveal_strlit("; ");
    reveal_strlit(";");
    lemma_three_digits(e.status as nat);
    let text = display_text(e);
    assert(text.subrange(0, 6) =~= "Code: "@);
    assert(text.subrange(6, 9) =~= decimal_digits(e.status as nat));
    assert(text.subrange(9, 11) =~= "; "@);
    assert(text.subrange(11, text.len() - 1) =~= e.message);
}

/// Writes the display text of the error value with status `code` and message
/// `message`.
pub fn format_error(code: StatusCode, message: &str) -> (text: String)
    ensures
        text@ == display_text(error_value(code, message@)),
        is_status_number(status_number(code) as int),
{
    let number: u16 = code.as_u16();
    let mut text = "Code: ".to_owned();
    push_decimal(&mut text, number);
    text.append("; ");
    text.append(message);
    text.append(";");
    text
}

} // verus!
