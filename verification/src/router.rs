//! Routing: which handler answers a request.
//!
//! The decision looks at the method and the path and at nothing else. The
//! rules are tried in order and the first that matches wins:
//!
//! 1. `GET /` is answered with the informational text;
//! 2. `POST`, whatever the path, is forwarded to the upstream;
//! 3. everything else is not found.

use crate::method::Method;
use vstd::prelude::*;

verus! {

/// The handler chosen for a request.
#[derive(Clone, Copy, Debug, PartialEq, Eq, Hash, Structural)]
pub enum Route {
    /// Answer with the fixed informational text.
    Info,
    /// Relay the body to the upstream.
    Forward,
    /// Answer that there is nothing here.
    NotFound,
}

/// The path of the service root, `/`.
pub open spec fn root_path() -> Seq<char> {
    seq!['/']
}

/// The routing table as a function of method and path.
pub open spec fn route_of(method: Method, path: Seq<char>) -> Route {
    if method == Method::Get && path == root_path() {
        Route::Info
    } else if method == Method::Post {
        Route::Forward
    } else {
        Route::NotFound
    }
}

/// Whether `path` is exactly `/`.
pub fn is_root(path: &str) -> (root: bool)
    ensures
        root == (path@ == root_path()),
{
    if path.unicode_len() == 1 {
        let first = path.get_char(0);
        assert(first == '/' ==> path@ =~= root_path());
        first == '/'
    } else {
        false
    }
}

/// Chooses the handler for a request with the given method and path. `path`
/// is the path component alone, without a query string.
pub fn route(method: Method, path: &str) -> (chosen: Route)
    ensures
        chosen == route_of(method, path@),
{
    match method {
        Method::Get => {
            if is_root(path) {
                Route::Info
            } else {
                Route::NotFound
            }
        },
        Method::Post => Route::Forward,
        _ => Route::NotFound,
    }
}

} // verus!
