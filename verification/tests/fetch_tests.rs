use turbo_tasks_fetch::FetchError;
use turbo_tasks_fetch::FetchErrorKind;
use turbo_tasks_fetch::FetchResult;
use turbo_tasks_fetch::HttpResponseBody;
use turbo_tasks_fetch::IssueSeverity;
use turbo_tasks_fetch::TransportError;
use turbo_tasks_fetch::TransportOutcome;
use turbo_tasks_fetch::fetch::fetch_result_of;
use turbo_tasks_fetch::fetch::is_error_status;
use turbo_tasks_fetch::issue::status_to_string;
use turbo_tasks_fetch::request::prepare_request;

fn transport_error(connect: bool, timeout: bool, status: Option<u16>, detail: &str) -> TransportError {
    TransportError { connect, timeout, status, detail: detail.to_string() }
}

#[test]
fn connect_failure_classifies_as_connect() {
    let e = transport_error(true, false, None, "connection refused");
    let err = FetchError::from_transport_error(&e, "https://x.test");
    assert_eq!(err.kind, FetchErrorKind::Connect);
    assert_eq!(err.url, "https://x.test");
    assert_eq!(err.detail, "connection refused");
}

#[test]
fn timed_out_connect_never_falls_through() {
    // A timed-out connection attempt carries both marks; the pre-connection
    // mark wins and the result is never Timeout, Status or Other.
    let e = transport_error(true, true, Some(504), "connect timed out");
    let err = FetchError::from_transport_error(&e, "https://x.test");
    assert_eq!(err.kind, FetchErrorKind::Connect);
}

#[test]
fn timeout_classifies_as_timeout() {
    let e = transport_error(false, true, None, "operation timed out");
    let err = FetchError::from_transport_error(&e, "https://x.test");
    assert_eq!(err.kind, FetchErrorKind::Timeout);
}

#[test]
fn timeout_wins_over_carried_status() {
    let e = transport_error(false, true, Some(504), "gateway timeout");
    let err = FetchError::from_transport_error(&e, "https://x.test");
    assert_eq!(err.kind, FetchErrorKind::Timeout);
}

#[test]
fn carried_status_classifies_as_status() {
    let e = transport_error(false, false, Some(404), "not found");
    let err = FetchError::from_transport_error(&e, "https://x.test");
    assert_eq!(err.kind, FetchErrorKind::Status(404));
}

#[test]
fn unmarked_failure_classifies_as_other() {
    let e = transport_error(false, false, None, "body decode failure");
    let err = FetchError::from_transport_error(&e, "https://x.test");
    assert_eq!(err.kind, FetchErrorKind::Other);
}

#[test]
fn success_status_yields_response_with_exact_body() {
    let outcome = TransportOutcome::Response {
        status: 200,
        body: vec![104, 101, 108, 108, 111],
        detail: String::new(),
    };
    let FetchResult(result) = fetch_result_of("https://x.test", outcome);
    let response = result.expect("a 200 response is a successful fetch");
    assert_eq!(response.status, 200);
    assert_eq!(response.body.0, vec![104, 101, 108, 108, 111]);
}

#[test]
fn empty_body_is_a_valid_response() {
    let outcome = TransportOutcome::Response { status: 204, body: Vec::new(), detail: String::new() };
    let FetchResult(result) = fetch_result_of("https://x.test", outcome);
    let response = result.expect("a 204 response is a successful fetch");
    assert_eq!(response.status, 204);
    assert_eq!(response.body.0.len(), 0);
}

#[test]
fn last_success_status_is_299() {
    assert!(!is_error_status(299));
    assert!(is_error_status(300));
    let outcome = TransportOutcome::Response { status: 299, body: vec![1], detail: String::new() };
    let FetchResult(result) = fetch_result_of("https://x.test", outcome);
    assert!(result.is_ok());
}

#[test]
fn error_status_yields_status_error_with_exact_code() {
    let outcome = TransportOutcome::Response {
        status: 503,
        body: Vec::new(),
        detail: "HTTP status server error (503 Service Unavailable)".to_string(),
    };
    let FetchResult(result) = fetch_result_of("https://x.test", outcome);
    let err = result.expect_err("a 503 response is a failed fetch");
    assert_eq!(err.kind, FetchErrorKind::Status(503));
    assert_eq!(err.url, "https://x.test");
    assert_eq!(err.detail, "HTTP status server error (503 Service Unavailable)");
}

#[test]
fn redirect_status_yields_status_error() {
    let outcome = TransportOutcome::Response {
        status: 300,
        body: Vec::new(),
        detail: "multiple choices".to_string(),
    };
    let FetchResult(result) = fetch_result_of("https://x.test", outcome);
    let err = result.expect_err("a 300 response is a failed fetch");
    assert_eq!(err.kind, FetchErrorKind::Status(300));
}

#[test]
fn transport_failure_yields_classified_error() {
    let outcome = TransportOutcome::Failed(transport_error(true, false, None, "refused"));
    let FetchResult(result) = fetch_result_of("https://x.test", outcome);
    let err = result.expect_err("a transport failure is a failed fetch");
    assert_eq!(err.kind, FetchErrorKind::Connect);
    assert_eq!(err.url, "https://x.test");
    assert_eq!(err.detail, "refused");
}

#[test]
fn status_rendering_is_exact() {
    assert_eq!(status_to_string(0), "0");
    assert_eq!(status_to_string(7), "7");
    assert_eq!(status_to_string(503), "503");
    assert_eq!(status_to_string(65535), "65535");
}

#[test]
fn no_user_agent_means_no_header() {
    let request = prepare_request("https://x.test".to_string(), None);
    assert_eq!(request.url, "https://x.test");
    assert!(request.headers.is_empty());
}

#[test]
fn supplied_user_agent_becomes_the_one_header() {
    let request = prepare_request(
        "https://x.test".to_string(),
        Some("turbopack-test".to_string()),
    );
    assert_eq!(request.headers.len(), 1);
    assert_eq!(request.headers[0].0, "User-Agent");
    assert_eq!(request.headers[0].1, "turbopack-test");
}

#[test]
fn severity_and_context_pass_through_to_issue() {
    let e = transport_error(false, true, None, "operation timed out");
    let err = FetchError::from_transport_error(&e, "https://x.test");
    let issue = err.to_issue(IssueSeverity::Warning, "app/src/entry.js".to_string());
    assert_eq!(issue.severity(), IssueSeverity::Warning);
    assert_eq!(issue.file_path(), "app/src/entry.js");
    assert_eq!(issue.detail(), "operation timed out");
    assert_eq!(issue.url, "https://x.test");
    assert_eq!(issue.kind, FetchErrorKind::Timeout);
}

#[test]
fn lossy_decode_of_valid_utf8_is_exact() {
    let body = HttpResponseBody("grüße, 世界".as_bytes().to_vec());
    assert_eq!(body.to_string(), "grüße, 世界");
}

#[test]
fn lossy_decode_never_fails_on_invalid_bytes() {
    let body = HttpResponseBody(vec![0x61, 0x62, 0xFF, 0x63, 0x64]);
    assert_eq!(body.to_string(), "ab\u{FFFD}cd");
}

#[test]
fn lossy_decode_of_empty_body_is_empty() {
    let body = HttpResponseBody(Vec::new());
    assert_eq!(body.to_string(), "");
}

#[test]
fn lossy_decode_replaces_truncated_sequence_at_the_end() {
    // The first two bytes of a three-byte sequence, cut off: the valid
    // prefix stays as it is and the tail is replaced.
    let body = HttpResponseBody(vec![0x6F, 0x6B, 0xE4, 0xB8]);
    assert_eq!(body.to_string(), "ok\u{FFFD}");
}
