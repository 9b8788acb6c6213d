//! The handling of one request.

use vstd::prelude::*;
use vstd::string::*;
use crate::download::{download_decision, download_handler};
use crate::identifier::{generate, well_formed, Identifier, ID_LENGTH};
use crate::response::{bare, response_with_code, response_with_text, success, Reply, Response, StatusCode};
use crate::router::{resolve, route, Method, Route, Target};
use crate::upload::{upload_begin, UploadAction, UploadOutput, UploadSession, UploadState};

verus! {

/// The text of the informational page.
pub open spec fn index_text() -> Seq<char> {
    "Image Service"@
}

/// The mathematical value of an [`Outcome`].
pub enum Decision {
    Respond(Reply),
    Upload(UploadState, UploadOutput),
    Download(Seq<char>),
}

/// What a request calls for.
#[derive(Debug)]
pub enum Outcome {
    /// Answer at once. The store is not touched.
    Respond(Response),
    /// Take the body in: perform the action, report to the session what came
    /// of it, and go on with the actions it names until it commits or aborts.
    Upload(UploadSession, UploadAction),
    /// Open the object under the identifier for reading and answer by what
    /// comes of it.
    Download(Identifier),
}

impl View for Outcome {
    type V = Decision;

    open spec fn view(&self) -> Decision {
        match self {
            Outcome::Respond(response) => Decision::Respond(response@),
            Outcome::Upload(session, action) => Decision::Upload(session@, action@),
            Outcome::Download(id) => Decision::Download(id@),
        }
    }
}

/// What a request dispatched to `target` calls for, where `fresh` is the
/// identifier drawn for it in case it is an upload.
pub open spec fn decide(target: Target, fresh: Seq<char>) -> Decision {
    match target {
        Target::Index => Decision::Respond(success(index_text())),
        Target::Upload => Decision::Upload(upload_begin(fresh).0, upload_begin(fresh).1),
        Target::Download(candidate) => download_decision(candidate),
        Target::NotFound => Decision::Respond(bare(StatusCode::NotFound)),
    }
}

/// Starts the upload that will store its bytes under `fresh`.
pub fn upload_handler(fresh: Identifier) -> (outcome: Outcome)
    ensures
        outcome@ == decide(Target::Upload, fresh@),
        well_formed(fresh@),
{
    let (session, action) = UploadSession::begin(fresh);
    Outcome::Upload(session, action)
}

/// Decides what the request with the given method and path calls for. An
/// upload is given an identifier drawn for it alone.
pub fn microservice_handler(method: Method, path: &str) -> (outcome: Outcome)
    ensures
        exists|fresh: Seq<char>|
            well_formed(fresh) && outcome@ == #[trigger] decide(resolve(method, path@), fresh),
{
    match route(method, path) {
        Route::Upload => {
            let fresh = generate();
            let outcome = upload_handler(fresh);
            assert(outcome@ == decide(resolve(method, path@), fresh@));
            outcome
        },
        settled => {
            let outcome = match settled {
                Route::Index => Outcome::Respond(
                    response_with_text(String::from_str("Image Service")),
                ),
                Route::Download(candidate) => download_handler(candidate.as_str()),
                _ => Outcome::Respond(response_with_code(StatusCode::NotFound)),
            };
            proof {
                let unused = Seq::new(ID_LENGTH as nat, |i: int| 'a');
                assert(well_formed(unused));
                assert(outcome@ == decide(resolve(method, path@), unused));
            }
            outcome
        },
    }
}

} // verus!
