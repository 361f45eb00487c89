//! The errors of the editor, each with the message shown to the user, and
//! `WithErrMsg`, which turns an absent value into a message.

use std::fmt::Display;
use vstd::prelude::*;
use vstd::string::to_string_from_display_ensures;

verus! {

/// A section of a step's markdown.
#[derive(Clone, Copy, Debug, PartialEq, Eq, Structural)]
pub enum Section {
    Instructions,
    ExpectedResults,
    Ac,
}

/// A text that is not what it has to be: a step's markdown, or a text that
/// should carry an embedded document.
#[derive(Clone, Copy, Debug, PartialEq, Eq, Structural)]
pub enum ParseError {
    /// The header of this section was not found.
    MissingSection(Section),
    /// The text holds no embedding marker.
    MarkerNotFound,
    /// No double quote follows the embedding marker.
    TerminatorNotFound,
    /// What stands between marker and quote is not base64, or its bytes are
    /// not UTF-8, or the text they spell is not a list of steps.
    DecodeFailed,
}

/// A command that needs something that is not there.
#[derive(Clone, Copy, Debug, PartialEq, Eq, Structural)]
pub enum StateError {
    /// No row is selected.
    NoSelection,
    /// Nothing was cut or copied yet.
    EmptyRegister,
    /// No template has that name.
    NotFound,
    /// The position is not one of the document.
    OutOfRange,
}

/// What can go wrong when an edited step comes back.
#[derive(Clone, Copy, Debug, PartialEq, Eq, Structural)]
pub enum EditError {
    Parse(ParseError),
    State(StateError),
}

impl ParseError {
    /// The message of this error.
    pub open spec fn message_spec(self) -> Seq<char> {
        match self {
            ParseError::MissingSection(Section::Instructions) => "Failed to find instructions"@,
            ParseError::MissingSection(Section::ExpectedResults) => "Could not find expected results section"@,
            ParseError::MissingSection(Section::Ac) => "Could not find ac section"@,
            ParseError::MarkerNotFound => "Could not find MDEMBEDDING marker"@,
            ParseError::TerminatorNotFound => "Could not find ending quote for MDEMBEDDING"@,
            ParseError::DecodeFailed => "Failed to decode the embedded items"@,
        }
    }

    /// The message of this error.
    pub fn message(&self) -> (r: String)
        ensures
            r@ == self.message_spec(),
    {
        let text: &str = match self {
            ParseError::MissingSection(Section::Instructions) => "Failed to find instructions",
            ParseError::MissingSection(Section::ExpectedResults) => "Could not find expected results section",
            ParseError::MissingSection(Section::Ac) => "Could not find ac section",
            ParseError::MarkerNotFound => "Could not find MDEMBEDDING marker",
            ParseError::TerminatorNotFound => "Could not find ending quote for MDEMBEDDING",
            ParseError::DecodeFailed => "Failed to decode the embedded items",
        };
        text.to_owned()
    }
}

impl StateError {
    /// The message of this error.
    pub open spec fn message_spec(self) -> Seq<char> {
        match self {
            StateError::NoSelection => "No item is currently selected"@,
            StateError::EmptyRegister => "No step in internal register"@,
            StateError::NotFound => "No template found with matching name"@,
            StateError::OutOfRange => "Items vec did not contain index"@,
        }
    }

    /// The message of this error.
    pub fn message(&self) -> (r: String)
        ensures
            r@ == self.message_spec(),
    {
        let text: &str = match self {
            StateError::NoSelection => "No item is currently selected",
            StateError::EmptyRegister => "No step in internal register",
            StateError::NotFound => "No template found with matching name",
            StateError::OutOfRange => "Items vec did not contain index",
        };
        text.to_owned()
    }
}

impl EditError {
    /// The message of this error.
    pub open spec fn message_spec(self) -> Seq<char> {
        match self {
            EditError::Parse(e) => e.message_spec(),
            EditError::State(e) => e.message_spec(),
        }
    }

    /// The message of this error.
    pub fn message(&self) -> (r: String)
        ensures
            r@ == self.message_spec(),
    {
        match self {
            EditError::Parse(e) => e.message(),
            EditError::State(e) => e.message(),
        }
    }
}

/// A value that may be absent, and becomes an error message when it is.
pub trait WithErrMsg<T>: Sized {
    /// The value, where there is one.
    spec fn present(self) -> Option<T>;

    /// `Ok` with the value where there is one; else `Err` with `msg` as a
    /// string.
    fn with_err_msg<U: Display>(self, msg: &U) -> (r: Result<T, String>)
        ensures
            match self.present() {
                Some(v) => r == Ok::<T, String>(v),
                None => r is Err && to_string_from_display_ensures::<U>(msg, r->Err_0),
            },
    ;
}

impl<T> WithErrMsg<T> for Option<T> {
    open spec fn present(self) -> Option<T> {
        self
    }

    fn with_err_msg<U: Display>(self, msg: &U) -> (r: Result<T, String>) {
        match self {
            Some(val) => Ok(val),
            None => Err(msg.to_string()),
        }
    }
}

impl<T, E: Display> WithErrMsg<T> for Result<T, E> {
    open spec fn present(self) -> Option<T> {
        match self {
            Ok(v) => Some(v),
            Err(_) => None,
        }
    }

    fn with_err_msg<U: Display>(self, msg: &U) -> (r: Result<T, String>) {
        match self {
            Ok(val) => Ok(val),
            Err(_) => Err(msg.to_string()),
        }
    }
}

} // verus!
