//! The failures a request can meet.

use vstd::prelude::*;

verus! {

/// Why a candidate string is not an identifier.
#[derive(Clone, Copy, PartialEq, Eq, Structural, Debug)]
pub enum ValidationError {
    /// The candidate has the wrong length or a character outside the alphabet.
    MalformedIdentifier,
}

/// The mathematical value of an [`IoError`].
pub enum Failure {
    NotFound,
    Other(Seq<char>),
}

/// A failure of the backing store or of the transport.
#[derive(Debug, PartialEq, Eq)]
pub enum IoError {
    /// The object is absent.
    NotFound,
    /// Any other failure, with the underlying message.
    Other(String),
}

impl View for IoError {
    type V = Failure;

    open spec fn view(&self) -> Failure {
        match self {
            IoError::NotFound => Failure::NotFound,
            IoError::Other(message) => Failure::Other(message@),
        }
    }
}

/// The text by which a failure is reported to a client.
pub open spec fn failure_message(failure: Failure) -> Seq<char> {
    match failure {
        Failure::NotFound => "not found"@,
        Failure::Other(message) => message,
    }
}

impl IoError {
    /// The message that describes this failure.
    pub fn message(&self) -> (text: String)
        ensures
            text@ == failure_message(self@),
    {
        match self {
            IoError::NotFound => String::from_str("not found"),
            IoError::Other(message) => message.clone(),
        }
    }
}

/// Wraps the message of a failed transfer as a failure of unspecified kind.
pub fn other(message: String) -> (error: IoError)
    ensures
        error@ == Failure::Other(message@),
{
    IoError::Other(message)
}

} // verus!
