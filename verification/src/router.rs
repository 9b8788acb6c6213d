//! The dispatch of a request by method and path.

use vstd::prelude::*;
use vstd::string::*;

verus! {

/// The method of a request, as far as the dispatch tells methods apart.
#[derive(Clone, Copy, PartialEq, Eq, Structural, Debug)]
pub enum Method {
    Get,
    Post,
    /// Any method but GET and POST.
    Other,
}

/// The path of the informational page.
pub open spec fn index_path() -> Seq<char> {
    "/"@
}

/// The path that accepts uploads.
pub open spec fn upload_path() -> Seq<char> {
    "/upload"@
}

/// What every download path begins with; the candidate identifier follows.
pub open spec fn download_prefix() -> Seq<char> {
    "/download/"@
}

/// The mathematical value of a [`Route`].
pub enum Target {
    Index,
    Upload,
    /// A download of the candidate that follows the prefix, not yet checked.
    Download(Seq<char>),
    NotFound,
}

/// Where a request is dispatched to.
#[derive(Debug, PartialEq, Eq)]
pub enum Route {
    /// The informational page.
    Index,
    /// The upload handler.
    Upload,
    /// The download handler, with the candidate taken from the path.
    Download(String),
    /// No handler.
    NotFound,
}

impl View for Route {
    type V = Target;

    open spec fn view(&self) -> Target {
        match self {
            Route::Index => Target::Index,
            Route::Upload => Target::Upload,
            Route::Download(candidate) => Target::Download(candidate@),
            Route::NotFound => Target::NotFound,
        }
    }
}

/// The dispatch table.
pub open spec fn resolve(method: Method, path: Seq<char>) -> Target {
    if method == Method::Get && path == index_path() {
        Target::Index
    } else if method == Method::Post && path == upload_path() {
        Target::Upload
    } else if method == Method::Get && download_prefix().is_prefix_of(path) {
        Target::Download(path.skip(download_prefix().len() as int))
    } else {
        Target::NotFound
    }
}

/// Decides whether `text` begins with `prefix`.
pub fn has_prefix(text: &str, prefix: &str) -> (yes: bool)
    ensures
        yes == prefix@.is_prefix_of(text@),
{
    let n = prefix.unicode_len();
    if text.unicode_len() < n {
        return false;
    }
    let mut i: usize = 0;
    while i < n
        invariant
            i <= n,
            n == prefix@.len(),
            n <= text@.len(),
            forall|j: int| 0 <= j < i ==> text@[j] == prefix@[j],
        decreases n - i,
    {
        if text.get_char(i) != prefix.get_char(i) {
            assert(text@.subrange(0, n as int)[i as int] != prefix@[i as int]);
            return false;
        }
        i += 1;
    }
    assert(prefix@ =~= text@.subrange(0, n as int));
    true
}

/// Decides whether `a` and `b` hold the same characters.
pub fn same_text(a: &str, b: &str) -> (yes: bool)
    ensures
        yes == (a@ == b@),
{
    if a.unicode_len() != b.unicode_len() {
        return false;
    }
    let yes = has_prefix(a, b);
    assert(b@.is_prefix_of(a@) ==> b@ =~= a@);
    yes
}

/// Dispatches a request by its method and path.
pub fn route(method: Method, path: &str) -> (found: Route)
    ensures
        found@ == resolve(method, path@),
{
    match method {
        Method::Get => {
            if same_text(path, "/") {
                Route::Index
            } else if has_prefix(path, "/download/") {
                let from = "/download/".unicode_len();
                let to = path.unicode_len();
                Route::Download(path.substring_char(from, to).to_owned())
            } else {
                Route::NotFound
            }
        },
        Method::Post => {
            if same_text(path, "/upload") {
                Route::Upload
            } else {
                Route::NotFound
            }
        },
        Method::Other => Route::NotFound,
    }
}

} // verus!
