use post_proxy::error::ProxyError;
use post_proxy::response::{info_response, not_found_response, Response};

#[test]
fn info_is_200_with_the_instructions() {
    let response = info_response();
    assert_eq!(response.status, 200);
    assert_eq!(response.body, "Try POSTing data to /echo");
}

#[test]
fn not_found_is_404_and_empty() {
    let response = not_found_response();
    assert_eq!(response.status, 404);
    assert!(response.body.is_empty());
    assert_eq!(response, Response { status: 404, body: String::new() });
}

#[test]
fn missing_length_is_a_client_error() {
    let error = ProxyError::MissingContentLength;
    assert_eq!(error.status(), 400);
    assert_eq!(error.message(), "missing Content-Length header");
    assert_eq!(
        error.response(),
        Response { status: 400, body: "missing Content-Length header".to_string() }
    );
}

#[test]
fn unavailable_upstream_is_502() {
    let error = ProxyError::UpstreamUnavailable;
    assert_eq!(error.status(), 502);
    assert_eq!(error.message(), "upstream unavailable");
    assert_eq!(
        error.response(),
        Response { status: 502, body: "upstream unavailable".to_string() }
    );
}

#[test]
fn upstream_timeout_is_504() {
    let error = ProxyError::UpstreamTimeout;
    assert_eq!(error.status(), 504);
    assert_eq!(error.message(), "upstream timed out");
    assert_eq!(error.response(), Response { status: 504, body: "upstream timed out".to_string() });
}

#[test]
fn upstream_protocol_error_is_502() {
    let error = ProxyError::UpstreamProtocol;
    assert_eq!(error.status(), 502);
    assert_eq!(error.message(), "upstream protocol error");
    assert_eq!(
        error.response(),
        Response { status: 502, body: "upstream protocol error".to_string() }
    );
}

#[test]
fn every_upstream_failure_is_a_server_error() {
    for error in [
        ProxyError::UpstreamUnavailable,
        ProxyError::UpstreamTimeout,
        ProxyError::UpstreamProtocol,
    ] {
        let status = error.status();
        assert!((500..600).contains(&status), "{:?} gave {}", error, status);
        assert_eq!(error.response().status, status);
    }
}

#[test]
fn failures_are_told_apart_by_where_they_arose() {
    assert_eq!(ProxyError::of_failure(true), ProxyError::UpstreamUnavailable);
    assert_eq!(ProxyError::of_failure(false), ProxyError::UpstreamProtocol);
}
