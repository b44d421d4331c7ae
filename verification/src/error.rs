//! The ways in which the supervisor can fail.

use vstd::prelude::*;
use crate::text::copy_str;

verus! {

/// A failure, with the text that describes it to the user.
#[derive(Debug, PartialEq, Eq)]
pub enum Error {
    /// The configuration is not valid.
    Config(String),
    /// The multiplexer could not be run, or ended with a failure.
    MuxInvocation(String),
    /// The multiplexer's reply does not have the expected shape.
    MuxParse(String),
}

/// An [`Error`] with its text as a sequence of characters.
pub enum ErrorView {
    Config(Seq<char>),
    MuxInvocation(Seq<char>),
    MuxParse(Seq<char>),
}

impl View for Error {
    type V = ErrorView;

    open spec fn view(&self) -> ErrorView {
        match self {
            Error::Config(m) => ErrorView::Config(m@),
            Error::MuxInvocation(m) => ErrorView::MuxInvocation(m@),
            Error::MuxParse(m) => ErrorView::MuxParse(m@),
        }
    }
}

impl Clone for Error {
    fn clone(&self) -> (r: Self)
        ensures
            r@ == self@,
    {
        match self {
            Error::Config(m) => Error::Config(copy_str(m.as_str())),
            Error::MuxInvocation(m) => Error::MuxInvocation(copy_str(m.as_str())),
            Error::MuxParse(m) => Error::MuxParse(copy_str(m.as_str())),
        }
    }
}


/// The text that tells the user of an error.
pub open spec fn error_text(e: ErrorView) -> Seq<char> {
    match e {
        ErrorView::Config(m) => m,
        ErrorView::MuxInvocation(m) => m,
        ErrorView::MuxParse(m) => m,
    }
}

impl Error {
    /// The text that tells the user of the error.
    pub fn message(&self) -> (r: String)
        ensures
            r@ == error_text(self@),
    {
        match self {
            Error::Config(m) => m.clone(),
            Error::MuxInvocation(m) => m.clone(),
            Error::MuxParse(m) => m.clone(),
        }
    }
}

} // verus!
