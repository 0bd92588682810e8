use hashtrack::client::Method;
use hashtrack::command::{self, Command, ParsedCommand};
use hashtrack::errors::ApiError;
use hashtrack::store::CredentialStore;
use hashtrack::track;

#[test]
fn every_command_word_is_recognized() {
    let cases = [
        ("status", Command::Status),
        ("login", Command::Login),
        ("logout", Command::Logout),
        ("list", Command::List),
        ("watch", Command::Watch),
        ("tracks", Command::Tracks),
        ("track", Command::Track),
        ("untrack", Command::Untrack),
    ];
    for (word, expected) in cases {
        match command::parse_command(Some(String::from(word))) {
            ParsedCommand::Known(c) => assert_eq!(c, expected),
            _ => panic!("word was not recognized"),
        }
    }
}

#[test]
fn unknown_word_is_a_usage_error() {
    let parsed = command::parse_command(Some(String::from("frobnicate")));
    match &parsed {
        ParsedCommand::Unknown(w) => assert_eq!(w, "frobnicate"),
        _ => panic!("expected an unknown command"),
    }
    let err = command::dispatch_error(&parsed).unwrap();
    assert!(err.is_usage_error);
    assert_eq!(err.message, "Unknown command frobnicate");
}

#[test]
fn missing_word_is_a_usage_error() {
    let parsed = command::parse_command(None);
    assert!(matches!(parsed, ParsedCommand::Missing));
    let err = command::dispatch_error(&parsed).unwrap();
    assert!(err.is_usage_error);
    assert_eq!(err.message, "Missing argument");
}

#[test]
fn recognized_command_has_no_dispatch_error() {
    let parsed = command::parse_command(Some(String::from("list")));
    assert!(command::dispatch_error(&parsed).is_none());
}

#[test]
fn track_needs_a_hashtag_argument() {
    let r = command::require_hashtag(None, false);
    let e = r.err().unwrap();
    assert_eq!(e.message, "Expected hashtag name to start tracking");
    assert!(!e.is_usage_error);

    let r = command::require_hashtag(Some(String::from("rust")), false);
    assert_eq!(r.ok().unwrap(), "rust");
}

#[test]
fn untrack_needs_a_hashtag_argument() {
    let r = command::require_hashtag(None, true);
    let e = r.err().unwrap();
    assert_eq!(e.message, "Expected hashtag name to untrack");
}

#[test]
fn track_requests_have_the_expected_shape() {
    let store = CredentialStore::new(Some(String::from("T1")));

    let create = track::create_track_request(String::from("rust"), &store).unwrap();
    assert_eq!(create.method, Method::Post);
    assert_eq!(create.path, "/tracks");
    assert_eq!(create.body, Some(String::from("rust")));
    assert_eq!(create.bearer, Some(String::from("Bearer T1")));

    let remove = track::remove_track_request(String::from("rust"), &store).unwrap();
    assert_eq!(remove.method, Method::Delete);
    assert_eq!(remove.body, Some(String::from("rust")));

    let list = track::tracks_request(&store).unwrap();
    assert_eq!(list.method, Method::Get);
    assert_eq!(list.path, "/tracks");
    assert!(list.body.is_none());
}

#[test]
fn track_requests_fail_without_token() {
    let store = CredentialStore::new(None);
    assert!(matches!(
        track::create_track_request(String::from("rust"), &store),
        Err(ApiError::Unauthenticated)
    ));
    assert!(matches!(track::tracks_request(&store), Err(ApiError::Unauthenticated)));
}

#[test]
fn latest_request_has_filter_in_path() {
    let store = CredentialStore::new(Some(String::from("T1")));
    let req = hashtrack::tweet::latest_request("rust", &store).unwrap();
    assert_eq!(req.method, Method::Get);
    assert_eq!(req.path, "/tweets?filter=rust");
    assert_eq!(req.bearer, Some(String::from("Bearer T1")));
}
