//! What the service answers.

use vstd::prelude::*;
use vstd::string::*;
use crate::identifier::Identifier;

verus! {

/// The status of a response.
#[derive(Clone, Copy, PartialEq, Eq, Structural, Debug)]
pub enum StatusCode {
    Success,
    NotFound,
    ServerError,
}

/// The number that stands for `status` on the wire.
pub open spec fn status_number(status: StatusCode) -> int {
    match status {
        StatusCode::Success => 200,
        StatusCode::NotFound => 404,
        StatusCode::ServerError => 500,
    }
}

impl StatusCode {
    /// The number that stands for this status on the wire.
    pub fn as_u16(&self) -> (number: u16)
        ensures
            number == status_number(*self),
    {
        match self {
            StatusCode::Success => 200,
            StatusCode::NotFound => 404,
            StatusCode::ServerError => 500,
        }
    }
}

/// The mathematical value of a [`Body`].
pub enum Content {
    /// No bytes.
    Empty,
    /// The given text.
    Text(Seq<char>),
    /// The bytes stored under the given identifier.
    Object(Seq<char>),
}

/// The payload of a response.
#[derive(Debug, PartialEq, Eq)]
pub enum Body {
    /// No bytes.
    Empty,
    /// The given text.
    Text(String),
    /// The bytes stored under the identifier, to be streamed from its
    /// already opened object.
    Object(Identifier),
}

impl View for Body {
    type V = Content;

    open spec fn view(&self) -> Content {
        match self {
            Body::Empty => Content::Empty,
            Body::Text(text) => Content::Text(text@),
            Body::Object(id) => Content::Object(id@),
        }
    }
}

/// The mathematical value of a [`Response`].
pub struct Reply {
    pub status: StatusCode,
    pub content: Content,
}

/// A complete answer to one request.
#[derive(Debug, PartialEq, Eq)]
pub struct Response {
    pub status: StatusCode,
    pub body: Body,
}

impl View for Response {
    type V = Reply;

    open spec fn view(&self) -> Reply {
        Reply { status: self.status, content: self.body@ }
    }
}

/// The reply that carries `status` and no bytes.
pub open spec fn bare(status: StatusCode) -> Reply {
    Reply { status, content: Content::Empty }
}

/// The reply that carries success and `text`.
pub open spec fn success(text: Seq<char>) -> Reply {
    Reply { status: StatusCode::Success, content: Content::Text(text) }
}

/// Answers with `status_code` and an empty body.
pub fn response_with_code(status_code: StatusCode) -> (response: Response)
    ensures
        response@ == bare(status_code),
{
    Response { status: status_code, body: Body::Empty }
}

/// Answers with success and `text` as the whole body.
pub fn response_with_text(text: String) -> (response: Response)
    ensures
        response@ == success(text@),
{
    Response { status: StatusCode::Success, body: Body::Text(text) }
}

} // verus!
