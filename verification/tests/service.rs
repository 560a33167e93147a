use hyper::header::{HeaderValue, ACCEPT, CONTENT_LENGTH, HOST};
use hyper::HeaderMap;
use post_proxy::error::ProxyError;
use post_proxy::forward::{Forwarder, Reply};
use post_proxy::method::Method;
use post_proxy::proxy::{spawn_service, Handling, Proxy};
use post_proxy::request::{InboundRequest, OutboundRequest};
use post_proxy::response::Response;

fn proxy() -> Proxy {
    Proxy::new("http://upstream.test/post".to_string())
}

fn request(method: Method, path: &str, length: Option<&'static str>, body: &[u8]) -> InboundRequest<Vec<u8>> {
    let mut headers = HeaderMap::new();
    headers.insert(HOST, HeaderValue::from_static("proxy.test"));
    if let Some(length) = length {
        headers.insert(CONTENT_LENGTH, HeaderValue::from_static(length));
    }
    InboundRequest { method, path: path.to_string(), headers, body: body.to_vec() }
}

fn responded(handling: Handling<Vec<u8>>) -> Response {
    match handling {
        Handling::Respond(response) => response,
        Handling::Forward(outbound) => panic!("forwarded {:?}", outbound),
    }
}

fn forwarded(handling: Handling<Vec<u8>>) -> OutboundRequest<Vec<u8>> {
    match handling {
        Handling::Forward(outbound) => outbound,
        Handling::Respond(response) => panic!("answered {:?}", response),
    }
}

/// What a stub upstream saw and what it answered.
#[derive(Debug, PartialEq, Eq)]
struct StubResponse {
    status: u16,
    seen_length: Vec<u8>,
    body: Vec<u8>,
}

/// An upstream that answers 201 and echoes the request it received.
fn echoing_upstream(outbound: OutboundRequest<Vec<u8>>) -> Result<StubResponse, ProxyError> {
    Ok(StubResponse { status: 201, seen_length: outbound.content_length, body: outbound.body })
}

#[test]
fn spawned_service_relays_to_the_default_upstream() {
    let made = spawn_service();
    let proxy = made.expect("spawning never fails");
    assert_eq!(proxy.upstream(), "http://httpbin.org/post");
}

#[test]
fn new_proxy_keeps_its_upstream() {
    assert_eq!(proxy().upstream(), "http://upstream.test/post");
}

#[test]
fn get_root_is_answered_with_the_instructions() {
    let response = responded(proxy().call(request(Method::Get, "/", None, b"")));
    assert_eq!(response, Response { status: 200, body: "Try POSTing data to /echo".to_string() });
}

#[test]
fn get_root_ignores_headers_and_body() {
    let mut inbound = request(Method::Get, "/", Some("5"), b"hello");
    inbound.headers.insert(ACCEPT, HeaderValue::from_static("application/json"));
    let response = responded(proxy().call(inbound));
    assert_eq!(response, Response { status: 200, body: "Try POSTing data to /echo".to_string() });
}

#[test]
fn get_elsewhere_is_answered_with_404() {
    for path in ["/echo", "", "//", "/index.html"] {
        let response = responded(proxy().call(request(Method::Get, path, None, b"")));
        assert_eq!(response, Response { status: 404, body: String::new() }, "GET {:?}", path);
    }
}

#[test]
fn put_and_delete_are_not_found() {
    for method in [Method::Put, Method::Delete] {
        for path in ["/", "/anything"] {
            let response = responded(proxy().call(request(method, path, Some("5"), b"hello")));
            assert_eq!(response, Response { status: 404, body: String::new() });
        }
    }
}

#[test]
fn every_other_method_is_not_found() {
    for method in [
        Method::Head,
        Method::Put,
        Method::Delete,
        Method::Connect,
        Method::Options,
        Method::Trace,
        Method::Patch,
        Method::Other,
    ] {
        let response = responded(proxy().call(request(method, "/", Some("0"), b"")));
        assert_eq!(response.status, 404, "{:?}", method);
        assert!(response.body.is_empty(), "{:?}", method);
    }
}

#[test]
fn post_with_a_length_is_forwarded() {
    let outbound = forwarded(proxy().call(request(Method::Post, "/anything", Some("5"), b"hello")));
    assert_eq!(
        outbound,
        OutboundRequest {
            url: "http://upstream.test/post".to_string(),
            content_length: b"5".to_vec(),
            body: b"hello".to_vec(),
        }
    );
}

#[test]
fn post_is_forwarded_to_the_same_place_from_every_path() {
    for path in ["/", "/echo", "/a/b", ""] {
        let outbound = forwarded(proxy().call(request(Method::Post, path, Some("2"), b"hi")));
        assert_eq!(outbound.url, "http://upstream.test/post", "POST {:?}", path);
        assert_eq!(outbound.content_length, b"2".to_vec());
        assert_eq!(outbound.body, b"hi".to_vec());
    }
}

#[test]
fn post_without_a_length_is_a_client_error() {
    let response = responded(proxy().call(request(Method::Post, "/anything", None, b"hello")));
    assert_eq!(
        response,
        Response { status: 400, body: "missing Content-Length header".to_string() }
    );
    assert!((400..500).contains(&response.status));
}

#[test]
fn the_proxy_goes_on_after_a_refused_request() {
    let mut proxy = proxy();
    let refused = responded(proxy.call(request(Method::Post, "/", None, b"x")));
    assert_eq!(refused.status, 400);
    let info = responded(proxy.call(request(Method::Get, "/", None, b"")));
    assert_eq!(info.status, 200);
    let outbound = forwarded(proxy.call(request(Method::Post, "/", Some("1"), b"x")));
    assert_eq!(outbound.body, b"x".to_vec());
    assert_eq!(proxy.upstream(), "http://upstream.test/post");
}

#[test]
fn echoing_upstream_sees_the_request_and_its_answer_comes_back() {
    let mut proxy = proxy();
    let handling = proxy.call(request(Method::Post, "/anything", Some("5"), b"hello"));
    let outcome = echoing_upstream(forwarded(handling));
    match Forwarder::settle(outcome) {
        Reply::Upstream(response) => assert_eq!(
            response,
            StubResponse { status: 201, seen_length: b"5".to_vec(), body: b"hello".to_vec() }
        ),
        Reply::Local(response) => panic!("replaced by {:?}", response),
    }
}

#[test]
fn unreachable_upstream_is_a_server_error_and_others_are_served() {
    let mut proxy = proxy();
    let pending = forwarded(proxy.call(request(Method::Post, "/anything", Some("5"), b"hello")));
    // While the forward is pending, another request is served as usual.
    let info = responded(proxy.call(request(Method::Get, "/", None, b"")));
    assert_eq!(info, Response { status: 200, body: "Try POSTing data to /echo".to_string() });
    // The upstream refuses the connection.
    drop(pending);
    match Forwarder::settle(Err::<StubResponse, ProxyError>(ProxyError::UpstreamUnavailable)) {
        Reply::Local(response) => {
            assert_eq!(response, Response { status: 502, body: "upstream unavailable".to_string() });
            assert!((500..600).contains(&response.status));
        }
        Reply::Upstream(response) => panic!("a failure let {:?} through", response),
    }
    let info = responded(proxy.call(request(Method::Get, "/", None, b"")));
    assert_eq!(info.status, 200);
}

#[test]
fn interleaved_posts_each_get_their_own_answer() {
    let mut proxy = proxy();
    let bodies: Vec<Vec<u8>> = (0u8..16).map(|i| vec![b'a' + i; usize::from(i) + 1]).collect();
    // All requests are handled before any upstream call is settled.
    let mut pending = Vec::new();
    for body in &bodies {
        let mut inbound = request(Method::Post, "/anything", None, body);
        let length = HeaderValue::from_bytes(format!("{}", body.len()).as_bytes()).unwrap();
        inbound.headers.insert(CONTENT_LENGTH, length);
        pending.push(forwarded(proxy.call(inbound)));
    }
    // The upstream answers in the opposite order.
    let mut answers = Vec::new();
    while let Some(outbound) = pending.pop() {
        answers.push(Forwarder::settle(echoing_upstream(outbound)));
    }
    answers.reverse();
    assert_eq!(answers.len(), bodies.len());
    for (answer, body) in answers.into_iter().zip(bodies) {
        match answer {
            Reply::Upstream(response) => {
                assert_eq!(response.seen_length, format!("{}", body.len()).as_bytes().to_vec());
                assert_eq!(response.body, body);
            }
            Reply::Local(response) => panic!("replaced by {:?}", response),
        }
    }
}
