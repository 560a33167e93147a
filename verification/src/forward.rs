//! The forwarder: from an inbound `POST` to the request for the upstream, and
//! from the upstream's outcome to what the caller receives.

use crate::error::ProxyError;
use crate::headers::{first_value, first_value_of, header_values, is_canonical_name};
use crate::request::{OutboundRequest, OutboundRequestView};
use crate::response::{Response, ResponseView};
use vstd::prelude::*;

verus! {

/// The header that must accompany every forwarded body, as header maps spell
/// it.
pub open spec fn content_length_name() -> Seq<char> {
    "content-length"@
}

/// What the forwarder makes of a request: the outbound request when the length
/// is known, a refusal when it is not. The length and the body are handed on
/// as they came.
pub open spec fn plan<B>(upstream: Seq<char>, content_length: Option<Seq<u8>>, body: B) -> Result<
    OutboundRequestView<B>,
    ProxyError,
> {
    match content_length {
        Some(length) => Ok(OutboundRequestView { url: upstream, content_length: length, body }),
        None => Err(ProxyError::MissingContentLength),
    }
}

/// The bytes of a header value that may be absent.
pub open spec fn bytes_of(value: Option<Vec<u8>>) -> Option<Seq<u8>> {
    match value {
        Some(bytes) => Some(bytes@),
        None => None,
    }
}

/// The mathematical content of what the forwarder built.
pub open spec fn prepared_view<B>(prepared: Result<OutboundRequest<B>, ProxyError>) -> Result<
    OutboundRequestView<B>,
    ProxyError,
> {
    match prepared {
        Ok(outbound) => Ok(outbound@),
        Err(error) => Err(error),
    }
}

/// What goes back to the caller of a forwarded request.
#[derive(Debug)]
pub enum Reply<R> {
    /// The upstream's response, exactly as it was received.
    Upstream(R),
    /// A response of the proxy's own, reporting a failure.
    Local(Response),
}

/// The mathematical content of a [`Reply`].
pub enum ReplyView<R> {
    Upstream(R),
    Local(ResponseView),
}

impl<R> View for Reply<R> {
    type V = ReplyView<R>;

    open spec fn view(&self) -> ReplyView<R> {
        match self {
            Reply::Upstream(response) => ReplyView::Upstream(*response),
            Reply::Local(response) => ReplyView::Local(response@),
        }
    }
}

/// The reply for each outcome of asking the upstream: its response passes
/// through, a failure becomes the response that reports it.
pub open spec fn settled<R>(outcome: Result<R, ProxyError>) -> ReplyView<R> {
    match outcome {
        Ok(response) => ReplyView::Upstream(response),
        Err(error) => ReplyView::Local(error.response_of()),
    }
}

/// Relays request bodies to one upstream.
#[derive(Debug)]
pub struct Forwarder {
    upstream: String,
}

impl Forwarder {
    /// The URL that every outbound request is sent to.
    pub closed spec fn upstream_url(&self) -> Seq<char> {
        self.upstream@
    }

    /// A forwarder for the upstream at `upstream`.
    pub fn new(upstream: String) -> (forwarder: Forwarder)
        ensures
            forwarder.upstream_url() == upstream@,
    {
        Forwarder { upstream }
    }

    /// The URL that every outbound request is sent to.
    pub fn upstream(&self) -> (url: &str)
        ensures
            url@ == self.upstream_url(),
    {
        self.upstream.as_str()
    }

    /// Builds the outbound request from the `Content-Length` value that was
    /// found, if any, and the body.
    pub fn prepare<B>(&self, content_length: Option<Vec<u8>>, body: B) -> (prepared: Result<
        OutboundRequest<B>,
        ProxyError,
    >)
        ensures
            prepared_view(prepared) == plan(self.upstream_url(), bytes_of(content_length), body),
    {
        match content_length {
            Some(length) => Ok(
                OutboundRequest { url: self.upstream.clone(), content_length: length, body },
            ),
            None => Err(ProxyError::MissingContentLength),
        }
    }

    /// Builds the outbound request for an inbound one with the given headers
    /// and body. The first `Content-Length` value is copied; without one the
    /// request is refused and the body dropped unread.
    pub fn forward<B>(&self, headers: &hyper::HeaderMap, body: B) -> (prepared: Result<
        OutboundRequest<B>,
        ProxyError,
    >)
        ensures
            prepared_view(prepared) == plan(
                self.upstream_url(),
                first_value_of(header_values(*headers), content_length_name()),
                body,
            ),
    {
        proof {
            lemma_content_length_is_canonical();
        }
        let content_length = first_value(headers, "content-length");
        self.prepare(content_length, body)
    }

    /// Decides what the caller receives once the upstream has been asked.
    pub fn settle<R>(outcome: Result<R, ProxyError>) -> (reply: Reply<R>)
        ensures
            reply@ == settled(outcome),
    {
        match outcome {
            Ok(response) => Reply::Upstream(response),
            Err(error) => Reply::Local(error.response()),
        }
    }

    /// Decides what the caller receives from what the HTTP client returned:
    /// the upstream's response as it is, or, for any failure of the client,
    /// the response that reports an upstream failure.
    pub fn conclude<R>(outcome: Result<R, hyper::Error>) -> (reply: Reply<R>)
        ensures
            match outcome {
                Ok(response) => reply@ == ReplyView::Upstream(response),
                Err(_) => {
                    ||| reply@ == settled(Err::<R, ProxyError>(ProxyError::UpstreamUnavailable))
                    ||| reply@ == settled(Err::<R, ProxyError>(ProxyError::UpstreamProtocol))
                },
            },
    {
        match outcome {
            Ok(response) => Self::settle(Ok(response)),
            Err(error) => {
                let kind = ProxyError::from_upstream(&error);
                Self::settle(Err(kind))
            },
        }
    }
}

proof fn lemma_content_length_is_canonical()
    ensures
        is_canonical_name(content_length_name()),
{
    reveal_strlit("content-length");
}

} // verus!
