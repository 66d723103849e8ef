use smartcat::error::TransportError;
use smartcat::transport::{classify, HttpReply};

fn response(status: u16, body: Option<&str>) -> HttpReply {
    HttpReply::Response { status, body: body.map(|b| b.to_string()) }
}

#[test]
fn success_statuses_give_the_body() {
    for status in [200, 201, 204, 299] {
        assert_eq!(classify(response(status, Some("{}"))), Ok("{}".to_string()));
    }
}

#[test]
fn other_statuses_are_status_errors() {
    for status in [0, 100, 199, 300, 301, 400, 404, 429, 500, 503, u16::MAX] {
        assert_eq!(
            classify(response(status, Some("why"))),
            Err(TransportError::Status { code: status, body: "why".to_string() })
        );
    }
}

#[test]
fn undecodable_body_gets_a_placeholder() {
    assert_eq!(
        classify(response(500, None)),
        Err(TransportError::Status { code: 500, body: "(non-UTF-8 response)".to_string() })
    );
    assert_eq!(classify(response(200, None)), Ok("(non-UTF-8 response)".to_string()));
}

#[test]
fn failure_below_http_is_a_connection_error() {
    assert_eq!(
        classify(HttpReply::Failure { cause: "connection refused".to_string() }),
        Err(TransportError::Connection { cause: "connection refused".to_string() })
    );
}
