//! The proxy's error type.

use vstd::prelude::*;
use vstd::std_specs::convert::FromSpecImpl;

verus! {

#[verifier::external_type_specification]
#[verifier::external_body]
pub struct ExIoError(std::io::Error);

/// An error of the proxy: one from I/O, or any other, by its message.
#[derive(Debug)]
pub enum BurleyError {
    Io(std::io::Error),
    Other(String),
}

/// `io::Error`'s `Display`, as text. What it says comes from the system and
/// is not stated.
#[verifier::external_body]
fn io_error_text(err: &std::io::Error) -> String {
    err.to_string()
}

/// The line for an I/O error whose own text is `detail`: `IO Error: ` and
/// the text.
pub fn io_message(detail: &str) -> (text: String)
    ensures
        text@ == "IO Error: "@ + detail@,
{
    "IO Error: ".to_string().concat(detail)
}

/// The line for any other error with message `message`: `Error: ` and the
/// message.
pub fn other_message(message: &str) -> (text: String)
    ensures
        text@ == "Error: "@ + message@,
{
    "Error: ".to_string().concat(message)
}

impl BurleyError {
    /// The error as a line of text: [`io_message`] of the I/O error's own
    /// text, or [`other_message`] of the message. The I/O error's text comes
    /// from the system (it may depend on the locale), so it is not stated here;
    /// [`io_message`] states the rest.
    pub fn message(&self) -> (text: String)
        ensures
            match self {
                BurleyError::Io(_) => text@.len() >= 10 && text@.take(10) == "IO Error: "@,
                BurleyError::Other(m) => text@ == "Error: "@ + m@,
            },
    {
        match self {
            BurleyError::Io(err) => {
                let detail = io_error_text(err);
                let text = io_message(detail.as_str());
                proof {
                    reveal_strlit("IO Error: ");
                    assert(text@.take(10) =~= "IO Error: "@);
                }
                text
            },
            BurleyError::Other(m) => other_message(m.as_str()),
        }
    }
}

impl From<std::io::Error> for BurleyError {
    fn from(err: std::io::Error) -> (converted: Self) {
        BurleyError::Io(err)
    }
}

impl FromSpecImpl<std::io::Error> for BurleyError {
    open spec fn obeys_from_spec() -> bool {
        true
    }

    open spec fn from_spec(err: std::io::Error) -> Self {
        BurleyError::Io(err)
    }
}

} // verus!
