use super::de::Error as DeError;
use super::parse::{Error as ParseError, SyntaxError};
use super::void::{ResultVoidExt, Void};
use vstd::prelude::*;
use vstd::std_specs::convert::FromSpecImpl;
use vstd::string::StringExecFns;

verus! {

/// An error that says in words what went wrong.
pub trait Message {
    /// The words.
    spec fn text(&self) -> Seq<char>;

    fn message(&self) -> (out: String)
        ensures
            out@ == self.text(),
    ;
}

impl Message for String {
    open spec fn text(&self) -> Seq<char> {
        self@
    }

    fn message(&self) -> (out: String) {
        self.clone()
    }
}

impl Message for Void {
    open spec fn text(&self) -> Seq<char> {
        Seq::empty()
    }

    fn message(&self) -> (out: String) {
        Err::<String, Void>(*self).void_unwrap()
    }
}

impl Message for SyntaxError {
    open spec fn text(&self) -> Seq<char> {
        "missing '='"@
    }

    fn message(&self) -> (out: String) {
        match *self {
            SyntaxError::MissingEquals => "missing '='".to_owned(),
        }
    }
}

impl<E: Message> Message for ParseError<E> {
    open spec fn text(&self) -> Seq<char> {
        match *self {
            ParseError::Inner(e) => e.text(),
            ParseError::Syntax(e) => "syntax error "@ + e.text(),
        }
    }

    fn message(&self) -> (out: String) {
        match self {
            ParseError::Inner(e) => e.message(),
            ParseError::Syntax(e) => "syntax error ".to_owned().concat(e.message().as_str()),
        }
    }
}

/// The error that a caller of this library sees: a message.
#[derive(Debug, Clone)]
pub enum Error {
    Custom(String),
}

impl View for Error {
    type V = Seq<char>;

    open spec fn view(&self) -> Seq<char> {
        match *self {
            Error::Custom(msg) => msg@,
        }
    }
}

impl Message for Error {
    open spec fn text(&self) -> Seq<char> {
        self@
    }

    fn message(&self) -> (out: String) {
        match self {
            Error::Custom(msg) => msg.clone(),
        }
    }
}

impl From<DeError> for Error {
    /// Keeps of an error only what it says in words.
    fn from(e: DeError) -> (out: Self)
        ensures
            out@ == e.text(),
    {
        Error::Custom(e.message())
    }
}

/// The message is a new `String`, of which only the characters are known:
/// `from` states its result by its view, and nothing is claimed through
/// `from_spec`.
impl FromSpecImpl<DeError> for Error {
    open spec fn obeys_from_spec() -> bool {
        false
    }

    open spec fn from_spec(e: DeError) -> Self {
        arbitrary()
    }
}

} // verus!
