//! The service: one call per inbound request.
//!
//! A request passes through these stages. It is received and routed by
//! [`Proxy::call`]. The informational and the not-found handler complete it on
//! the spot, and so does a `POST` that is refused for want of its length: all
//! three end in [`Handling::Respond`]. A `POST` that can be forwarded ends the
//! call in [`Handling::Forward`]; the request it holds is sent by the caller of
//! the library, and the outcome goes to [`Forwarder::conclude`], which
//! completes the request with the upstream's response or with the report of
//! the failure. Values are moved from stage to stage, so a request is
//! completed once, and its body is read by one party at most.

use crate::forward::{content_length_name, plan, Forwarder};
use crate::headers::first_value_of;
use crate::request::{InboundRequest, InboundRequestView, OutboundRequest, OutboundRequestView};
use crate::response::{info_response, info_view, not_found_response, not_found_view};
use crate::response::{Response, ResponseView};
use crate::router::{route, route_of, Route};
use vstd::prelude::*;
use vstd::string::StringExecFns;

verus! {

/// What the proxy decided for an inbound request.
#[derive(Debug)]
pub enum Handling<B> {
    /// Answer at once with this response.
    Respond(Response),
    /// Send this request to the upstream and answer with what
    /// [`Forwarder::conclude`] makes of the outcome.
    Forward(OutboundRequest<B>),
}

/// The mathematical content of a [`Handling`].
pub enum HandlingView<B> {
    Respond(ResponseView),
    Forward(OutboundRequestView<B>),
}

impl<B> View for Handling<B> {
    type V = HandlingView<B>;

    open spec fn view(&self) -> HandlingView<B> {
        match self {
            Handling::Respond(response) => HandlingView::Respond(response@),
            Handling::Forward(outbound) => HandlingView::Forward(outbound@),
        }
    }
}

/// What the handler behind `route` makes of a request. The informational and
/// the not-found handler ignore the request altogether; the forwarder reads
/// the `Content-Length` header and takes the body.
pub open spec fn handler_output<B>(
    route: Route,
    upstream: Seq<char>,
    request: InboundRequestView<B>,
) -> HandlingView<B> {
    match route {
        Route::Info => HandlingView::Respond(info_view()),
        Route::NotFound => HandlingView::Respond(not_found_view()),
        Route::Forward => match plan(
            upstream,
            first_value_of(request.headers, content_length_name()),
            request.body,
        ) {
            Ok(outbound) => HandlingView::Forward(outbound),
            Err(error) => HandlingView::Respond(error.response_of()),
        },
    }
}

/// What a proxy in front of `upstream` decides for a request: the output of
/// the handler that the router chooses from the method and the path.
pub open spec fn handle<B>(upstream: Seq<char>, request: InboundRequestView<B>) -> HandlingView<
    B,
> {
    handler_output(route_of(request.method, request.path), upstream, request)
}

/// The upstream that a proxy made by [`spawn_service`] relays to.
pub open spec fn default_upstream() -> Seq<char> {
    "http://httpbin.org/post"@
}

/// The proxy service. It holds no state but the address of its upstream.
#[derive(Debug)]
pub struct Proxy {
    forwarder: Forwarder,
}

impl Proxy {
    /// The URL that `POST` bodies are relayed to.
    pub closed spec fn upstream_url(&self) -> Seq<char> {
        self.forwarder.upstream_url()
    }

    /// A proxy in front of the upstream at `upstream`.
    pub fn new(upstream: String) -> (proxy: Proxy)
        ensures
            proxy.upstream_url() == upstream@,
    {
        Proxy { forwarder: Forwarder::new(upstream) }
    }

    /// The URL that `POST` bodies are relayed to.
    pub fn upstream(&self) -> (url: &str)
        ensures
            url@ == self.upstream_url(),
    {
        self.forwarder.upstream()
    }

    /// Handles one inbound request: routes it on method and path and runs the
    /// handler chosen. The proxy itself is left as it was.
    pub fn call<B>(&mut self, request: InboundRequest<B>) -> (handling: Handling<B>)
        ensures
            handling@ == handle(old(self).upstream_url(), request@),
            *final(self) == *old(self),
    {
        let InboundRequest { method, path, headers, body } = request;
        match route(method, path.as_str()) {
            Route::Info => Handling::Respond(info_response()),
            Route::NotFound => Handling::Respond(not_found_response()),
            Route::Forward => match self.forwarder.forward(&headers, body) {
                Ok(outbound) => Handling::Forward(outbound),
                Err(error) => Handling::Respond(error.response()),
            },
        }
    }
}

/// Makes the service for a new connection: a proxy in front of the default
/// upstream. This never fails.
pub fn spawn_service() -> (made: Result<Proxy, hyper::Error>)
    ensures
        made matches Ok(proxy) && proxy.upstream_url() == default_upstream(),
{
    Ok(Proxy::new(String::from_str("http://httpbin.org/post")))
}

} // verus!
