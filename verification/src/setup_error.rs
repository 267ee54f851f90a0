//! Failures during process start-up: a message and nothing else.

use vstd::prelude::*;
use vstd::string::{to_string_from_display_ensures, StringExecFns};

verus! {

/// An unrecoverable failure during start-up, such as a missing setting. It
/// has no HTTP status: it is reported and the process ends.
#[derive(Debug)]
pub struct SetupError {
    pub msg: String,
}

/// What a setup error is: its message.
pub struct SetupErrorValue {
    pub message: Seq<char>,
}

/// The display text of a setup error: `Setup Error: <message>` and a line
/// feed.
pub open spec fn setup_display_text(e: SetupErrorValue) -> Seq<char> {
    "Setup Error: "@ + e.message + "\n"@
}

/// The display text is the message between a fixed heading of 13 characters
/// and a closing line feed.
pub proof fn lemma_setup_display_text_layout(e: SetupErrorValue)
    ensures
        setup_display_text(e).len() == e.message.len() + 14,
        setup_display_text(e).subrange(0, 13) == "Setup Error: "@,
        setup_display_text(e).subrange(13, setup_display_text(e).len() - 1) == e.message,
        setup_display_text(e).last() == '\n',
{
    reveal_strlit("Setup Error: ");
    reveal_strlit("\n");
    let text = setup_display_text(e);
    assert(text.subrange(0, 13) =~= "Setup Error: "@);
    assert(text.subrange(13, text.len() - 1) =~= e.message);
}

impl View for SetupError {
    type V = SetupErrorValue;

    open spec fn view(&self) -> SetupErrorValue {
        SetupErrorValue { message: self.msg@ }
    }
}

impl SetupError {
    /// A setup error whose message is the display text of `msg`.
    pub fn new<T: core::fmt::Display>(msg: T) -> (e: Self)
        ensures
            to_string_from_display_ensures::<T>(&msg, e.msg),
    {
        SetupError { msg: msg.to_string() }
    }

    /// The display text: `Setup Error: <message>`, ended by a line feed.
    pub fn to_string(&self) -> (text: String)
        ensures
            text@ == setup_display_text(self@),
    {
        let mut text = "Setup Error: ".to_owned();
        text.append(self.msg.as_str());
        text.append("\n");
        text
    }
}

/// The result of a start-up step.
pub type SetupResult = Result<(), SetupError>;

} // verus!
