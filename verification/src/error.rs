//! The ways in which watching the disks can fail.

use vstd::prelude::*;

verus! {

/// Why a line could not be turned into an event, or why the worker gave up.
#[derive(Debug, PartialEq, Eq)]
pub enum Error {
    /// The command could not be started, its output could not be read, or
    /// the check for its exit failed; the system's message.
    Io(String),
    /// A line of output that is not UTF-8; its bytes, without the line end.
    Utf8(Vec<u8>),
    /// A time token that does not follow the fixed layout; the token.
    Time(String),
    /// Nobody receives events any more.
    SendError,
    /// The command could not be terminated; the system's message.
    Kill(String),
}

/// An [`Error`] with its payload as plain sequences.
pub enum ErrorView {
    Io(Seq<char>),
    Utf8(Seq<u8>),
    Time(Seq<char>),
    SendError,
    Kill(Seq<char>),
}

impl View for Error {
    type V = ErrorView;

    open spec fn view(&self) -> ErrorView {
        match self {
            Error::Io(message) => ErrorView::Io(message@),
            Error::Utf8(bytes) => ErrorView::Utf8(bytes@),
            Error::Time(token) => ErrorView::Time(token@),
            Error::SendError => ErrorView::SendError,
            Error::Kill(message) => ErrorView::Kill(message@),
        }
    }
}

impl Clone for Error {
    fn clone(&self) -> (error: Error)
        ensures
            error@ == self@,
    {
        match self {
            Error::Io(message) => Error::Io(message.clone()),
            Error::Utf8(bytes) => Error::Utf8(bytes.clone()),
            Error::Time(token) => Error::Time(token.clone()),
            Error::SendError => Error::SendError,
            Error::Kill(message) => Error::Kill(message.clone()),
        }
    }
}

/// The view of a worker's result: success, or the view of its error.
pub open spec fn outcome_view(outcome: Result<(), Error>) -> Result<(), ErrorView> {
    match outcome {
        Ok(()) => Ok(()),
        Err(error) => Err(error@),
    }
}

} // verus!
