//! The download of one object.
//!
//! A candidate taken from a request path is checked for the shape of an
//! identifier before anything is asked of the store. A candidate that fails
//! the check and an object that cannot be opened are answered alike, so that
//! a reply does not tell which identifiers exist.

use vstd::prelude::*;
use crate::error::{Failure, IoError};
use crate::identifier::{validate, well_formed, Identifier};
use crate::response::{bare, response_with_code, Body, Content, Reply, Response, StatusCode};
use crate::service::{Decision, Outcome};

verus! {

/// What a download of `candidate` calls for: the opening of the object it
/// names, or, where it names none, the reply that nothing was found.
pub open spec fn download_decision(candidate: Seq<char>) -> Decision {
    if well_formed(candidate) {
        Decision::Download(candidate)
    } else {
        Decision::Respond(bare(StatusCode::NotFound))
    }
}

/// Checks `candidate` and decides what its download calls for.
pub fn download_handler(candidate: &str) -> (outcome: Outcome)
    ensures
        outcome@ == download_decision(candidate@),
{
    match validate(candidate) {
        Ok(id) => Outcome::Download(id),
        Err(_) => Outcome::Respond(response_with_code(StatusCode::NotFound)),
    }
}

/// The reply to the download of the object under `id`, given what came of
/// opening it: its bytes, or, whatever the failure, that nothing was found.
pub open spec fn download_reply(id: Seq<char>, opened: Result<(), Failure>) -> Reply {
    match opened {
        Ok(_) => Reply { status: StatusCode::Success, content: Content::Object(id) },
        Err(_) => bare(StatusCode::NotFound),
    }
}

/// Answers the download of the object under `id`, once the program has
/// tried to open it.
pub fn download_response(id: Identifier, opened: Result<(), IoError>) -> (response: Response)
    ensures
        response@ == download_reply(
            id@,
            match opened {
                Ok(_) => Ok(()),
                Err(error) => Err(error@),
            },
        ),
        well_formed(id@),
{
    proof {
        use_type_invariant(&id);
    }
    match opened {
        Ok(_) => Response { status: StatusCode::Success, body: Body::Object(id) },
        Err(_) => response_with_code(StatusCode::NotFound),
    }
}

} // verus!
