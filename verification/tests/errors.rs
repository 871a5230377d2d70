use chat_relay::error::{APIError, ErrorKind};

#[test]
fn malformed_input_is_status_400() {
    for error in [APIError::UnreadableRequest, APIError::InvalidJson, APIError::UnserializableRequest] {
        assert_eq!(error.kind(), ErrorKind::MalformedInput);
        assert_eq!(error.code(), 400);
    }
}

#[test]
fn unreachable_upstream_is_status_502() {
    for error in [APIError::UpstreamUnreachable, APIError::UnreadableResponse] {
        assert_eq!(error.kind(), ErrorKind::UpstreamUnreachable);
        assert_eq!(error.code(), 502);
    }
}

#[test]
fn bad_upstream_response_is_status_502() {
    assert_eq!(APIError::InvalidResponse.kind(), ErrorKind::BadUpstreamResponse);
    assert_eq!(APIError::InvalidResponse.code(), 502);
}

#[test]
fn upstream_error_keeps_its_status() {
    for status in [100u16, 301, 404, 429, 500, 503, 599] {
        let error = APIError::UpstreamStatus(status);
        assert_eq!(error.kind(), ErrorKind::UpstreamError);
        assert_eq!(error.code(), status);
        assert_eq!(error.body(), "Upstream service error");
    }
}

#[test]
fn texts_are_fixed() {
    assert_eq!(APIError::UnreadableRequest.body(), "Failed to read request body");
    assert_eq!(APIError::InvalidJson.body(), "Invalid JSON");
    assert_eq!(APIError::UnserializableRequest.body(), "Failed to serialize request");
    assert_eq!(APIError::UpstreamUnreachable.body(), "Failed to connect to upstream service");
    assert_eq!(APIError::UnreadableResponse.body(), "Failed to read upstream response");
    assert_eq!(APIError::InvalidResponse.body(), "Invalid response from upstream service");
}
