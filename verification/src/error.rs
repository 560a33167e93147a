//! The ways in which forwarding a request can fail, and the response that
//! each failure turns into.

use crate::response::{Response, ResponseView};
use vstd::prelude::*;
use vstd::string::StringExecFns;

verus! {

/// `hyper::Error`, the failure that hyper's client and server report.
/// Declared as an opaque type: the library only asks it where it arose.
#[verifier::external_type_specification]
#[verifier::external_body]
pub struct ExError(hyper::Error);

/// Calls `hyper::Error::is_connect`, which tells whether the failure came
/// from establishing the connection. Nothing is claimed of the answer.
#[verifier::external_body]
fn failed_to_connect(error: &hyper::Error) -> (connect: bool) {
    error.is_connect()
}

/// Why a request that was routed to the upstream did not yield the
/// upstream's response.
#[derive(Clone, Copy, Debug, PartialEq, Eq, Hash, Structural)]
pub enum ProxyError {
    /// The inbound request has no `Content-Length` header.
    MissingContentLength,
    /// The upstream could not be reached.
    UpstreamUnavailable,
    /// The upstream did not answer in time.
    UpstreamTimeout,
    /// The upstream answered with something that is not valid HTTP, or the
    /// exchange broke off.
    UpstreamProtocol,
}

impl ProxyError {
    /// The status code that reports this failure: 400 for a request that
    /// lacks its length, 504 for a timeout, 502 for the other upstream
    /// failures.
    pub open spec fn status_of(self) -> u16 {
        match self {
            ProxyError::MissingContentLength => 400,
            ProxyError::UpstreamUnavailable => 502,
            ProxyError::UpstreamTimeout => 504,
            ProxyError::UpstreamProtocol => 502,
        }
    }

    /// The text that reports this failure.
    pub open spec fn message_of(self) -> Seq<char> {
        match self {
            ProxyError::MissingContentLength => "missing Content-Length header"@,
            ProxyError::UpstreamUnavailable => "upstream unavailable"@,
            ProxyError::UpstreamTimeout => "upstream timed out"@,
            ProxyError::UpstreamProtocol => "upstream protocol error"@,
        }
    }

    /// The response that reports this failure.
    pub open spec fn response_of(self) -> ResponseView {
        ResponseView { status: self.status_of(), body: self.message_of() }
    }

    /// Whether the failure lies with the upstream rather than with the caller.
    pub open spec fn is_upstream(self) -> bool {
        self != ProxyError::MissingContentLength
    }

    /// The kind of an upstream failure, given whether it arose while
    /// connecting.
    pub open spec fn failure_kind(connect: bool) -> ProxyError {
        if connect {
            ProxyError::UpstreamUnavailable
        } else {
            ProxyError::UpstreamProtocol
        }
    }

    /// The kind of an upstream failure: one that arose while connecting means
    /// that the upstream is unavailable, any other that the exchange broke
    /// the protocol.
    pub fn of_failure(connect: bool) -> (kind: ProxyError)
        ensures
            kind == Self::failure_kind(connect),
    {
        if connect {
            ProxyError::UpstreamUnavailable
        } else {
            ProxyError::UpstreamProtocol
        }
    }

    /// The kind of the failure that the HTTP client reported. Which of the
    /// two it is depends on the client's answer alone; either way it is an
    /// upstream failure.
    pub fn from_upstream(error: &hyper::Error) -> (kind: ProxyError)
        ensures
            kind == ProxyError::UpstreamUnavailable || kind == ProxyError::UpstreamProtocol,
    {
        Self::of_failure(failed_to_connect(error))
    }

    /// The status code that reports this failure.
    pub fn status(&self) -> (code: u16)
        ensures
            code == self.status_of(),
    {
        match self {
            ProxyError::MissingContentLength => 400,
            ProxyError::UpstreamUnavailable => 502,
            ProxyError::UpstreamTimeout => 504,
            ProxyError::UpstreamProtocol => 502,
        }
    }

    /// The text that reports this failure.
    pub fn message(&self) -> (text: String)
        ensures
            text@ == self.message_of(),
    {
        match self {
            ProxyError::MissingContentLength => String::from_str("missing Content-Length header"),
            ProxyError::UpstreamUnavailable => String::from_str("upstream unavailable"),
            ProxyError::UpstreamTimeout => String::from_str("upstream timed out"),
            ProxyError::UpstreamProtocol => String::from_str("upstream protocol error"),
        }
    }

    /// Turns the failure into the response that the caller receives.
    pub fn response(&self) -> (response: Response)
        ensures
            response@ == self.response_of(),
    {
        Response { status: self.status(), body: self.message() }
    }
}

} // verus!
