//! What holds of the proxy for every request, proved from the definitions
//! that the contracts of [`Proxy::call`](crate::proxy::Proxy::call) and
//! [`Forwarder::settle`](crate::forward::Forwarder::settle) are stated in.

use crate::error::ProxyError;
use crate::forward::{content_length_name, settled, ReplyView};
use crate::headers::first_value_of;
use crate::method::Method;
use crate::proxy::{handle, handler_output, HandlingView};
use crate::request::{InboundRequestView, OutboundRequestView};
use crate::response::{info_view, not_found_view};
use crate::router::{root_path, route_of, Route};
use vstd::prelude::*;

verus! {

/// Exactly one handler answers a request, and which one is a function of the
/// method and the path alone: the output of a handler is what the proxy
/// decides if and only if that handler is the one the routing table names.
pub proof fn law_exactly_one_handler<B>(
    upstream: Seq<char>,
    request: InboundRequestView<B>,
    route: Route,
)
    ensures
        handler_output(route, upstream, request) == handle(upstream, request) <==> route
            == route_of(request.method, request.path),
{
}

/// `GET /` is answered with status 200 and the informational text, whatever
/// the headers and the body.
pub proof fn law_root_get_is_informational<B>(upstream: Seq<char>, request: InboundRequestView<B>)
    requires
        request.method == Method::Get,
        request.path == root_path(),
    ensures
        handle(upstream, request) == HandlingView::<B>::Respond(info_view()),
        info_view().status == 200,
{
}

/// A request whose method is neither `GET` nor `POST` is answered with status
/// 404 and an empty body, whatever its path.
pub proof fn law_other_methods_are_not_found<B>(
    upstream: Seq<char>,
    request: InboundRequestView<B>,
)
    requires
        request.method != Method::Get,
        request.method != Method::Post,
    ensures
        handle(upstream, request) == HandlingView::<B>::Respond(not_found_view()),
        not_found_view().status == 404,
        not_found_view().body.len() == 0,
{
}

/// A `GET` for any path but the root is answered with status 404 and an empty
/// body.
pub proof fn law_get_elsewhere_is_not_found<B>(upstream: Seq<char>, request: InboundRequestView<B>)
    requires
        request.method == Method::Get,
        request.path != root_path(),
    ensures
        handle(upstream, request) == HandlingView::<B>::Respond(not_found_view()),
{
}

/// A `POST` that carries a `Content-Length` is forwarded, whatever its path:
/// the outbound request goes to the upstream with the first `Content-Length`
/// value and the body of the inbound request, both unchanged.
pub proof fn law_post_with_length_is_forwarded<B>(
    upstream: Seq<char>,
    request: InboundRequestView<B>,
    length: Seq<u8>,
)
    requires
        request.method == Method::Post,
        first_value_of(request.headers, content_length_name()) == Some(length),
    ensures
        handle(upstream, request) == HandlingView::Forward(
            OutboundRequestView { url: upstream, content_length: length, body: request.body },
        ),
{
}

/// Forwarded requests do not mix: each outbound request carries the body of
/// the inbound request it was made from, so two requests with different
/// bodies leave for the upstream with different bodies.
pub proof fn law_forwarded_bodies_do_not_mix<B>(
    upstream: Seq<char>,
    first: InboundRequestView<B>,
    second: InboundRequestView<B>,
)
    requires
        first.method == Method::Post,
        second.method == Method::Post,
        first_value_of(first.headers, content_length_name()) is Some,
        first_value_of(second.headers, content_length_name()) is Some,
    ensures
        handle(upstream, first) matches HandlingView::Forward(outbound) && outbound.body
            == first.body,
        handle(upstream, second) matches HandlingView::Forward(outbound) && outbound.body
            == second.body,
        first.body != second.body ==> handle(upstream, first) != handle(upstream, second),
{
}

/// A `POST` without a `Content-Length` is answered by the proxy itself with a
/// client-error status; nothing is sent to the upstream.
pub proof fn law_post_without_length_is_refused<B>(
    upstream: Seq<char>,
    request: InboundRequestView<B>,
)
    requires
        request.method == Method::Post,
        first_value_of(request.headers, content_length_name()) is None,
    ensures
        handle(upstream, request) == HandlingView::<B>::Respond(
            ProxyError::MissingContentLength.response_of(),
        ),
        ProxyError::MissingContentLength.response_of().is_client_error(),
{
}

/// The upstream's response goes back to the caller as it was received.
pub proof fn law_upstream_response_passes_through<R>(response: R)
    ensures
        settled(Ok::<R, ProxyError>(response)) == ReplyView::Upstream(response),
{
}

/// When the upstream cannot be reached, does not answer in time or breaks
/// the protocol, the caller receives a server-error status.
pub proof fn law_upstream_failure_is_server_error<R>(error: ProxyError)
    requires
        error.is_upstream(),
    ensures
        settled(Err::<R, ProxyError>(error)) == ReplyView::<R>::Local(error.response_of()),
        error.response_of().is_server_error(),
{
}

} // verus!
