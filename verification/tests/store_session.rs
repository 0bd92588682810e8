use hashtrack::client::TransportOutcome;
use hashtrack::errors::ApiError;
use hashtrack::session;
use hashtrack::store::CredentialStore;

#[test]
fn load_returns_last_saved_value() {
    let mut store = CredentialStore::new(None);
    assert!(store.load().is_none());
    store.save(Some(String::from("T1")));
    assert_eq!(store.load(), Some(String::from("T1")));
    store.save(Some(String::from("T2")));
    assert_eq!(store.load(), Some(String::from("T2")));
    store.save(None);
    assert!(store.load().is_none());
}

#[test]
fn store_starts_from_persisted_value() {
    let store = CredentialStore::new(Some(String::from("persisted")));
    assert_eq!(store.load(), Some(String::from("persisted")));
}

#[test]
fn login_request_carries_credentials_unauthenticated() {
    let creation = session::Creation {
        email: String::from("a@b.com"),
        password: String::from("secret"),
    };
    let req = session::login_request(&creation);
    assert_eq!(req.path, "/session");
    assert_eq!(req.body, Some(String::from("a@b.com\nsecret")));
    assert!(req.bearer.is_none());
}

#[test]
fn successful_login_persists_token() {
    let mut store = CredentialStore::new(None);
    let outcome = TransportOutcome::Responded { status: 200, body: String::from("T1") };
    let r = session::finish_login(&mut store, outcome);
    assert_eq!(r.unwrap().token, "T1");
    assert_eq!(store.load(), Some(String::from("T1")));
}

#[test]
fn failed_login_leaves_store_unchanged() {
    let mut store = CredentialStore::new(None);
    let outcome = TransportOutcome::Responded { status: 401, body: String::from("nope") };
    let r = session::finish_login(&mut store, outcome);
    assert!(matches!(r, Err(ApiError::Rejected)));
    assert!(store.load().is_none());
}

#[test]
fn failed_login_keeps_previous_token() {
    let mut store = CredentialStore::new(Some(String::from("OLD")));
    let outcome = TransportOutcome::ConnectionFailed;
    let r = session::finish_login(&mut store, outcome);
    assert!(matches!(r, Err(ApiError::Network)));
    assert_eq!(store.load(), Some(String::from("OLD")));
}

#[test]
fn empty_login_body_is_malformed() {
    let mut store = CredentialStore::new(None);
    let outcome = TransportOutcome::Responded { status: 200, body: String::new() };
    let r = session::finish_login(&mut store, outcome);
    assert!(matches!(r, Err(ApiError::Malformed)));
    assert!(store.load().is_none());
}

#[test]
fn multi_line_login_body_is_malformed() {
    let mut store = CredentialStore::new(None);
    let outcome = TransportOutcome::Responded { status: 200, body: String::from("T1\nT2") };
    let r = session::finish_login(&mut store, outcome);
    assert!(matches!(r, Err(ApiError::Malformed)));
}

#[test]
fn logout_clears_token() {
    let mut store = CredentialStore::new(Some(String::from("T1")));
    session::logout(&mut store);
    assert!(store.load().is_none());
}

#[test]
fn authenticated_call_after_logout_is_unauthenticated() {
    let mut store = CredentialStore::new(None);
    let outcome = TransportOutcome::Responded { status: 200, body: String::from("T1") };
    session::finish_login(&mut store, outcome).unwrap();
    session::logout(&mut store);
    let r = hashtrack::tweet::latest_request("", &store);
    assert!(matches!(r, Err(ApiError::Unauthenticated)));
}
