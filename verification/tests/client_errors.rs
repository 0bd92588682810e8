use hashtrack::client::{self, Method, PreparedRequest, TransportOutcome};
use hashtrack::errors::{ApiError, CliError};
use hashtrack::store::CredentialStore;

struct MockTransport {
    calls: usize,
}

impl MockTransport {
    fn send(&mut self, _req: &PreparedRequest) -> TransportOutcome {
        self.calls += 1;
        TransportOutcome::Responded { status: 200, body: String::new() }
    }
}

#[test]
fn no_token_fails_before_any_network_request() {
    let store = CredentialStore::new(None);
    let mut mock = MockTransport { calls: 0 };
    let prepared = client::prepare(Method::Get, String::from("/tweets?filter="), None, true, &store);
    match prepared {
        Ok(req) => {
            mock.send(&req);
            panic!("an authenticated request was prepared without a token");
        },
        Err(e) => assert_eq!(e, ApiError::Unauthenticated),
    }
    assert_eq!(mock.calls, 0);
}

#[test]
fn stored_token_becomes_bearer_header() {
    let store = CredentialStore::new(Some(String::from("T1")));
    let req = client::prepare(Method::Post, String::from("/tracks"), Some(String::from("rust")), true, &store)
        .unwrap();
    assert_eq!(req.bearer, Some(String::from("Bearer T1")));
    assert_eq!(req.path, "/tracks");
    assert_eq!(req.body, Some(String::from("rust")));
}

#[test]
fn unauthenticated_request_has_no_bearer() {
    let store = CredentialStore::new(Some(String::from("T1")));
    let req = client::prepare(Method::Get, String::from("/session"), None, false, &store).unwrap();
    assert!(req.bearer.is_none());
}

#[test]
fn connection_failure_is_network() {
    let r = client::complete(TransportOutcome::ConnectionFailed);
    assert!(matches!(r, Err(ApiError::Network)));
}

#[test]
fn success_status_passes_body_through() {
    let outcome = TransportOutcome::Responded { status: 204, body: String::from("payload") };
    let resp = client::complete(outcome).unwrap();
    assert_eq!(resp.status, 204);
    assert_eq!(resp.body, "payload");
}

#[test]
fn unauthorized_statuses_are_rejected() {
    for status in [401u16, 403u16] {
        let outcome = TransportOutcome::Responded { status, body: String::new() };
        assert!(matches!(client::complete(outcome), Err(ApiError::Rejected)));
    }
}

#[test]
fn missing_resource_is_not_found() {
    let outcome = TransportOutcome::Responded { status: 404, body: String::new() };
    assert!(matches!(client::complete(outcome), Err(ApiError::NotFound)));
}

#[test]
fn server_fault_statuses_are_server_error() {
    for status in [500u16, 503u16, 302u16, 418u16] {
        let outcome = TransportOutcome::Responded { status, body: String::new() };
        assert!(matches!(client::complete(outcome), Err(ApiError::ServerError)));
    }
}

#[test]
fn api_errors_render_their_kind() {
    let cases = [
        (ApiError::Network, "Network"),
        (ApiError::Unauthenticated, "Unauthenticated"),
        (ApiError::Rejected, "Rejected"),
        (ApiError::NotFound, "NotFound"),
        (ApiError::ServerError, "ServerError"),
        (ApiError::Malformed, "Malformed"),
    ];
    for (e, text) in cases {
        let cli: CliError = CliError::from_api(e);
        assert_eq!(cli.message, text);
        assert!(!cli.is_usage_error);
    }
}
