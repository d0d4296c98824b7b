//! The errors the interface reports, with the text each one displays.

use vstd::prelude::*;

verus! {

/// An error of the interface layer, with what went wrong.
#[derive(Debug, Clone, PartialEq, Eq)]
pub enum Error {
    Asset { message: String },
    Theme { message: String },
    Navigation { message: String },
    Screen { message: String },
}

/// The text an error displays: its kind, then its message.
pub open spec fn error_text(e: Error) -> Seq<char> {
    match e {
        Error::Asset { message } => "Asset error: "@ + message@,
        Error::Theme { message } => "Theme error: "@ + message@,
        Error::Navigation { message } => "Navigation error: "@ + message@,
        Error::Screen { message } => "Screen error: "@ + message@,
    }
}

impl Error {
    /// The text the error displays.
    pub fn describe(&self) -> (text: String)
        ensures
            text@ == error_text(*self),
    {
        let (kind, message) = match self {
            Error::Asset { message } => ("Asset error: ", message),
            Error::Theme { message } => ("Theme error: ", message),
            Error::Navigation { message } => ("Navigation error: ", message),
            Error::Screen { message } => ("Screen error: ", message),
        };
        let mut text = String::from_str(kind);
        text.append(message.as_str());
        text
    }
}

} // verus!
