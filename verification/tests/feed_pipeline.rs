use hashtrack::client::Method;
use hashtrack::errors::ApiError;
use hashtrack::feed::{FeedEvent, FeedHandle, ProducerAction};
use hashtrack::store::CredentialStore;

/// Stands in for the live connection: a fixed script of records and a
/// flag that records whether the shell released the resource.
struct MockSource {
    records: Vec<&'static str>,
    pos: usize,
    closed: bool,
}

impl MockSource {
    fn new(records: Vec<&'static str>) -> MockSource {
        MockSource { records, pos: 0, closed: false }
    }

    fn next_event(&mut self) -> FeedEvent {
        if self.pos < self.records.len() {
            let line = self.records[self.pos];
            self.pos += 1;
            FeedEvent::Record(String::from(line))
        } else {
            FeedEvent::Closed
        }
    }

    fn release(&mut self) {
        self.closed = true;
    }
}

/// Drives the producer loop the way the application shell does: poll the
/// source, hand the event to the handle, perform the returned action.
fn run_producer(source: &mut MockSource, handle: &mut FeedHandle) {
    loop {
        let event = source.next_event();
        match handle.on_event(event) {
            ProducerAction::Stop => {
                source.release();
                break;
            },
            _ => {},
        }
    }
}

#[test]
fn three_posts_arrive_in_order_then_none() {
    let mut source = MockSource::new(vec!["1|100|alice|first", "2|200|bob|second", "3|300|carol|third"]);
    let mut handle = FeedHandle::subscribe(String::from("rust"));
    run_producer(&mut source, &mut handle);

    let p1 = handle.next().unwrap();
    assert_eq!((p1.id, p1.text.as_str()), (1, "first"));
    let p2 = handle.next().unwrap();
    assert_eq!((p2.id, p2.text.as_str()), (2, "second"));
    let p3 = handle.next().unwrap();
    assert_eq!((p3.id, p3.text.as_str()), (3, "third"));
    assert!(handle.next().is_none());
    assert!(source.closed);
}

#[test]
fn malformed_record_is_skipped_not_fatal() {
    let mut source = MockSource::new(vec!["1|100|alice|first", "garbage", "2|200|bob|second"]);
    let mut handle = FeedHandle::subscribe(String::from("rust"));
    run_producer(&mut source, &mut handle);

    let p1 = handle.next().unwrap();
    assert_eq!(p1.id, 1);
    let p2 = handle.next().unwrap();
    assert_eq!(p2.id, 2);
    assert!(handle.next().is_none());
}

#[test]
fn malformed_record_reports_skip_action() {
    let mut handle = FeedHandle::subscribe(String::from("rust"));
    let act = handle.on_event(FeedEvent::Record(String::from("not a record")));
    assert_eq!(act, ProducerAction::Skipped);
    assert!(!handle.is_closed());
}

#[test]
fn cancel_releases_connection_and_stops_sends() {
    let mut source = MockSource::new(vec!["1|100|alice|first", "2|200|bob|second"]);
    let mut handle = FeedHandle::subscribe(String::from("rust"));

    // Mid-stream: one record has been produced and consumed is pending.
    let act = handle.on_event(source.next_event());
    assert_eq!(act, ProducerAction::Delivered);

    handle.cancel();
    assert!(!handle.connection_open());

    // The producer's next poll sees the cancelled handle, stops, and
    // releases the mock resource; nothing further is queued.
    let act = handle.on_event(source.next_event());
    assert_eq!(act, ProducerAction::Stop);
    source.release();
    assert!(source.closed);

    let p1 = handle.next().unwrap();
    assert_eq!(p1.id, 1);
    assert!(handle.next().is_none());
}

#[test]
fn clean_close_ends_the_feed() {
    let mut handle = FeedHandle::subscribe(String::from("rust"));
    let act = handle.on_event(FeedEvent::Closed);
    assert_eq!(act, ProducerAction::Stop);
    assert!(handle.is_closed());
    assert!(!handle.connection_open());
    assert!(handle.next().is_none());
}

#[test]
fn auth_failures_terminate_without_retry() {
    for err in [ApiError::Rejected, ApiError::Unauthenticated] {
        let mut handle = FeedHandle::subscribe(String::from("rust"));
        let act = handle.on_event(FeedEvent::Failed(err));
        assert_eq!(act, ProducerAction::Stop);
        assert!(handle.is_closed());
    }
}

#[test]
fn per_record_failures_are_skipped() {
    for err in [ApiError::ServerError, ApiError::Malformed] {
        let mut handle = FeedHandle::subscribe(String::from("rust"));
        let act = handle.on_event(FeedEvent::Failed(err));
        assert_eq!(act, ProducerAction::Skipped);
        assert!(!handle.is_closed());
    }
}

#[test]
fn network_failures_reconnect_until_budget_is_spent() {
    let mut handle = FeedHandle::subscribe(String::from("rust"));
    for _ in 0..3 {
        let act = handle.on_event(FeedEvent::Failed(ApiError::Network));
        assert_eq!(act, ProducerAction::Reconnect);
        assert!(!handle.is_closed());
    }
    let act = handle.on_event(FeedEvent::Failed(ApiError::Network));
    assert_eq!(act, ProducerAction::Stop);
    assert!(handle.is_closed());
}

#[test]
fn posts_survive_a_reconnect_in_order() {
    let mut handle = FeedHandle::subscribe(String::from("rust"));
    handle.on_event(FeedEvent::Record(String::from("1|100|alice|before")));
    handle.on_event(FeedEvent::Failed(ApiError::Network));
    handle.on_event(FeedEvent::Record(String::from("2|200|bob|after")));
    handle.on_event(FeedEvent::Closed);
    let posts = handle.drain();
    assert_eq!(posts.len(), 2);
    assert_eq!(posts[0].id, 1);
    assert_eq!(posts[1].id, 2);
    assert!(handle.next().is_none());
}

#[test]
fn pump_matches_event_by_event_driving() {
    let events = vec![
        FeedEvent::Record(String::from("1|100|alice|first")),
        FeedEvent::Record(String::from("oops")),
        FeedEvent::Record(String::from("2|200|bob|second")),
        FeedEvent::Closed,
    ];
    let mut handle = FeedHandle::subscribe(String::from("rust"));
    handle.pump(events);
    let posts = handle.drain();
    assert_eq!(posts.len(), 2);
    assert_eq!(posts[0].id, 1);
    assert_eq!(posts[1].id, 2);
}

#[test]
fn stream_request_needs_a_token() {
    let logged_out = CredentialStore::new(None);
    assert!(matches!(
        hashtrack::feed::stream_request("rust", &logged_out),
        Err(ApiError::Unauthenticated)
    ));

    let logged_in = CredentialStore::new(Some(String::from("T1")));
    let req = hashtrack::feed::stream_request("rust", &logged_in).unwrap();
    assert_eq!(req.method, Method::Get);
    assert_eq!(req.path, "/stream?filter=rust");
    assert_eq!(req.bearer, Some(String::from("Bearer T1")));
}
