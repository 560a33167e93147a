//! Requests: the one that arrives and the one that leaves for the upstream.
//!
//! Both are generic in the body. The proxy never looks into a body, it only
//! moves it from the inbound request to the outbound one, so any type will do:
//! a byte vector as well as a stream that can be read once.

use crate::headers::header_values;
use crate::method::Method;
use vstd::prelude::*;

verus! {

/// A request as it arrives at the proxy.
#[derive(Debug)]
pub struct InboundRequest<B> {
    pub method: Method,
    /// The path component of the request target, without the query string.
    pub path: String,
    pub headers: hyper::HeaderMap,
    pub body: B,
}

/// The mathematical content of an [`InboundRequest`].
pub struct InboundRequestView<B> {
    pub method: Method,
    pub path: Seq<char>,
    /// Lower-case header name to the values received under it, in order.
    pub headers: Map<Seq<char>, Seq<Seq<u8>>>,
    pub body: B,
}

impl<B> View for InboundRequest<B> {
    type V = InboundRequestView<B>;

    open spec fn view(&self) -> InboundRequestView<B> {
        InboundRequestView {
            method: self.method,
            path: self.path@,
            headers: header_values(self.headers),
            body: self.body,
        }
    }
}

/// A request on its way to the upstream. It is always sent as a `POST`, with
/// `Content-Length` as its only header. The body is the inbound one, handed on
/// as it came, so the length that arrived with it still describes it.
#[derive(Debug, PartialEq, Eq)]
pub struct OutboundRequest<B> {
    /// Where the request goes.
    pub url: String,
    /// The value of the `Content-Length` header, as raw bytes.
    pub content_length: Vec<u8>,
    pub body: B,
}

/// The mathematical content of an [`OutboundRequest`].
pub struct OutboundRequestView<B> {
    pub url: Seq<char>,
    pub content_length: Seq<u8>,
    pub body: B,
}

impl<B> View for OutboundRequest<B> {
    type V = OutboundRequestView<B>;

    open spec fn view(&self) -> OutboundRequestView<B> {
        OutboundRequestView {
            url: self.url@,
            content_length: self.content_length@,
            body: self.body,
        }
    }
}

} // verus!
