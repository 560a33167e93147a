//! Responses that the proxy writes itself.

use vstd::prelude::*;
use vstd::string::StringExecFns;

verus! {

/// A response produced by the proxy rather than by the upstream: a status
/// code and a text body. It carries no headers of its own.
#[derive(Debug, PartialEq, Eq)]
pub struct Response {
    pub status: u16,
    pub body: String,
}

/// The mathematical content of a [`Response`].
pub struct ResponseView {
    pub status: u16,
    pub body: Seq<char>,
}

impl View for Response {
    type V = ResponseView;

    open spec fn view(&self) -> ResponseView {
        ResponseView { status: self.status, body: self.body@ }
    }
}

impl ResponseView {
    /// A status in the 4xx class.
    pub open spec fn is_client_error(self) -> bool {
        400 <= self.status < 500
    }

    /// A status in the 5xx class.
    pub open spec fn is_server_error(self) -> bool {
        500 <= self.status < 600
    }
}

/// The text served at the root.
pub open spec fn info_text() -> Seq<char> {
    "Try POSTing data to /echo"@
}

/// What the informational handler answers: 200 with the fixed text.
pub open spec fn info_view() -> ResponseView {
    ResponseView { status: 200, body: info_text() }
}

/// What the not-found handler answers: 404 with nothing in the body.
pub open spec fn not_found_view() -> ResponseView {
    ResponseView { status: 404, body: Seq::empty() }
}

/// The informational handler. It looks at nothing of the request.
pub fn info_response() -> (response: Response)
    ensures
        response@ == info_view(),
{
    Response { status: 200, body: String::from_str("Try POSTing data to /echo") }
}

/// The not-found handler. It looks at nothing of the request.
pub fn not_found_response() -> (response: Response)
    ensures
        response@ == not_found_view(),
{
    Response { status: 404, body: String::new() }
}

} // verus!
