//! Feed subscription pipeline: one live connection, one consumer.
//!
//! A subscription decouples a long-running producer — the connection
//! and decode loop the application shell drives — from the consumer
//! that reads posts at its own pace. This module owns every decision of
//! that pipeline: `on_event` absorbs one connection event, queues the
//! post it carries when it is well-formed, skips records that are not,
//! consumes the bounded reconnect budget on transient network failures,
//! and terminates the feed on a clean close, on an authentication
//! failure, or on cancellation. The shell performs the returned action
//! (send, reopen, release) and does nothing else; the channel between
//! producer and consumer delivers the queue in order, so every property
//! proved here carries over to the running pipeline.

use vstd::prelude::*;

use crate::client::{self, Method, PreparedRequest};
use crate::errors::ApiError;
use crate::store::CredentialStore;
use crate::tweet::{parse_post, parse_post_spec, posts_view, PostRecord, PostView};
use vstd::string::*;

verus! {

/// Bound on reconnect attempts after transient network failures.
pub const RETRY_LIMIT: u8 = 3;

/// One thing the live connection reports to the producer.
pub enum FeedEvent {
    /// One raw record line arrived.
    Record(String),
    /// The connection closed cleanly.
    Closed,
    /// The connection failed with a classified error.
    Failed(ApiError),
}

/// Mathematical image of a `FeedEvent`.
pub ghost enum EventView {
    Record(Seq<char>),
    Closed,
    Failed(ApiError),
}

impl View for FeedEvent {
    type V = EventView;

    open spec fn view(&self) -> EventView {
        match self {
            FeedEvent::Record(line) => EventView::Record(line@),
            FeedEvent::Closed => EventView::Closed,
            FeedEvent::Failed(e) => EventView::Failed(*e),
        }
    }
}

/// What the application shell must do with the connection after an
/// event.
#[derive(Clone, Copy, Debug, PartialEq, Eq, Structural)]
pub enum ProducerAction {
    /// A post was queued; keep reading.
    Delivered,
    /// The event was dropped; keep reading.
    Skipped,
    /// Reopen the connection, then keep reading.
    Reconnect,
    /// Release the connection; the feed is over.
    Stop,
}

/// Consumer-side handle over a live subscription's output sequence: a
/// lazy, non-restartable sequence of posts that terminates by yielding
/// end-of-sequence once.
pub struct FeedHandle {
    filter: String,
    queue: Vec<PostRecord>,
    closed: bool,
    cancelled: bool,
    connection_open: bool,
    retries_left: u8,
}

/// Mathematical image of a `FeedHandle`.
#[verifier::ext_equal]
pub ghost struct FeedView {
    pub filter: Seq<char>,
    /// Posts queued for the consumer, in arrival order.
    pub queue: Seq<PostView>,
    /// No further post will ever be queued.
    pub closed: bool,
    /// The owner gave the feed up.
    pub cancelled: bool,
    /// The underlying connection resource is still held.
    pub connection_open: bool,
    /// Remaining reconnect budget.
    pub retries_left: u8,
}

impl View for FeedHandle {
    type V = FeedView;

    closed spec fn view(&self) -> FeedView {
        FeedView {
            filter: self.filter@,
            queue: posts_view(self.queue@),
            closed: self.closed,
            cancelled: self.cancelled,
            connection_open: self.connection_open,
            retries_left: self.retries_left,
        }
    }
}

/// Failures of an individual record that must not end a live feed.
pub open spec fn skippable(e: ApiError) -> bool {
    e == ApiError::ServerError || e == ApiError::Malformed
}

/// The producer transition: the state after one connection event, and
/// the action the shell owes. A terminated feed absorbs nothing more; a
/// well-formed record is queued at the end; a malformed record and a
/// per-record failure are skipped; a clean close and an authentication
/// failure release the connection and close the feed; a network failure
/// spends the reconnect budget, and terminates the feed once it is gone.
pub open spec fn step_spec(s: FeedView, e: EventView) -> (FeedView, ProducerAction) {
    if s.closed || s.cancelled {
        (s, ProducerAction::Stop)
    } else {
        match e {
            EventView::Record(line) => match parse_post_spec(line) {
                Some(p) => (
                    FeedView { queue: s.queue + seq![p], ..s },
                    ProducerAction::Delivered,
                ),
                None => (s, ProducerAction::Skipped),
            },
            EventView::Closed => (
                FeedView { closed: true, connection_open: false, ..s },
                ProducerAction::Stop,
            ),
            EventView::Failed(err) => if skippable(err) {
                (s, ProducerAction::Skipped)
            } else if err == ApiError::Network && s.retries_left > 0 {
                (
                    FeedView { retries_left: (s.retries_left - 1) as u8, ..s },
                    ProducerAction::Reconnect,
                )
            } else {
                (
                    FeedView { closed: true, connection_open: false, ..s },
                    ProducerAction::Stop,
                )
            },
        }
    }
}

impl FeedHandle {
    /// Opens a subscription. Returns at once, before any post arrived;
    /// the shell then starts the one producer that owns the connection.
    pub fn subscribe(filter: String) -> (h: FeedHandle)
        ensures
            h@ == (FeedView {
                filter: filter@,
                queue: Seq::<PostView>::empty(),
                closed: false,
                cancelled: false,
                connection_open: true,
                retries_left: RETRY_LIMIT,
            }),
    {
        let h = FeedHandle {
            filter,
            queue: Vec::new(),
            closed: false,
            cancelled: false,
            connection_open: true,
            retries_left: RETRY_LIMIT,
        };
        proof {
            assert(posts_view(h.queue@) =~= Seq::<PostView>::empty());
        }
        h
    }

    /// Producer side: absorbs one connection event and returns the
    /// action the shell owes, exactly as `step_spec` says.
    pub fn on_event(&mut self, event: FeedEvent) -> (act: ProducerAction)
        ensures
            final(self)@ == step_spec(old(self)@, event@).0,
            act == step_spec(old(self)@, event@).1,
    {
        if self.closed || self.cancelled {
            return ProducerAction::Stop;
        }
        match event {
            FeedEvent::Record(line) => match parse_post(line.as_str()) {
                Some(p) => {
                    let ghost old_queue = self.queue@;
                    self.queue.push(p);
                    proof {
                        assert(posts_view(self.queue@) =~= posts_view(old_queue) + seq![p@]);
                        assert(final(self)@ =~= step_spec(old(self)@, event@).0);
                    }
                    ProducerAction::Delivered
                },
                None => ProducerAction::Skipped,
            },
            FeedEvent::Closed => {
                self.closed = true;
                self.connection_open = false;
                ProducerAction::Stop
            },
            FeedEvent::Failed(err) => {
                if err == ApiError::ServerError || err == ApiError::Malformed {
                    ProducerAction::Skipped
                } else if err == ApiError::Network && self.retries_left > 0 {
                    self.retries_left = self.retries_left - 1;
                    ProducerAction::Reconnect
                } else {
                    self.closed = true;
                    self.connection_open = false;
                    ProducerAction::Stop
                }
            },
        }
    }

    /// Consumer side: the next post, in arrival order, or end of feed.
    /// Blocking for a post while the feed is still live is the shell's
    /// channel receive; this core is asked only once a post is queued or
    /// the feed has terminated.
    pub fn next(&mut self) -> (r: Option<PostRecord>)
        requires
            old(self)@.queue.len() > 0 || old(self)@.closed,
        ensures
            old(self)@.queue.len() > 0 ==> (r matches Some(p) && p@ == old(self)@.queue[0]
                && final(self)@ == (FeedView { queue: old(self)@.queue.drop_first(), ..old(self)@ })),
            old(self)@.queue.len() == 0 ==> r is None && final(self)@ == old(self)@,
    {
        if self.queue.len() > 0 {
            let p = self.queue.remove(0);
            proof {
                assert(posts_view(self.queue@) =~= old(self)@.queue.drop_first());
                assert(final(self)@ =~= (FeedView {
                    queue: old(self)@.queue.drop_first(),
                    ..old(self)@
                }));
            }
            Some(p)
        } else {
            None
        }
    }

    /// Cancels the subscription: the connection is released, the feed is
    /// closed, and no further post will ever be queued; posts already
    /// delivered remain readable.
    pub fn cancel(&mut self)
        ensures
            final(self)@ == (FeedView {
                closed: true,
                cancelled: true,
                connection_open: false,
                ..old(self)@
            }),
    {
        self.closed = true;
        self.cancelled = true;
        self.connection_open = false;
    }

    /// Whether the underlying connection resource is still held.
    pub fn connection_open(&self) -> (r: bool)
        ensures
            r == self@.connection_open,
    {
        self.connection_open
    }

    /// Whether the feed has terminated: once true, `next` yields the
    /// remaining queue and then only end-of-sequence.
    pub fn is_closed(&self) -> (r: bool)
        ensures
            r == self@.closed,
    {
        self.closed
    }

    /// Consumer loop tail: every remaining post in arrival order, once
    /// the feed has ended.
    pub fn drain(&mut self) -> (posts: Vec<PostRecord>)
        requires
            old(self)@.closed,
        ensures
            posts_view(posts@) == old(self)@.queue,
            final(self)@ == (FeedView { queue: Seq::<PostView>::empty(), ..old(self)@ }),
    {
        let mut out: Vec<PostRecord> = Vec::new();
        proof {
            assert(posts_view(out@) + posts_view(self.queue@) =~= old(self)@.queue);
        }
        while self.queue.len() > 0
            invariant
                posts_view(out@) + posts_view(self.queue@) == old(self)@.queue,
                self@.closed == old(self)@.closed,
                self@.cancelled == old(self)@.cancelled,
                self@.connection_open == old(self)@.connection_open,
                self@.retries_left == old(self)@.retries_left,
                self@.filter == old(self)@.filter,
            decreases self.queue.len(),
        {
            let ghost prev_out = out@;
            let ghost prev_queue = self.queue@;
            let p = self.queue.remove(0);
            out.push(p);
            proof {
                assert(posts_view(out@) =~= posts_view(prev_out) + seq![p@]);
                assert(posts_view(self.queue@) =~= posts_view(prev_queue).drop_first());
                assert(posts_view(out@) + posts_view(self.queue@) =~= (posts_view(prev_out)
                    + posts_view(prev_queue)));
            }
        }
        proof {
            assert(posts_view(self.queue@) =~= Seq::<PostView>::empty());
            assert(posts_view(out@) + Seq::<PostView>::empty() =~= posts_view(out@));
            assert(final(self)@ =~= (FeedView { queue: Seq::<PostView>::empty(), ..old(self)@ }));
        }
        out
    }

    /// Producer loop in one call: absorbs a whole sequence of events, in
    /// order.
    pub fn pump(&mut self, events: Vec<FeedEvent>)
        ensures
            final(self)@ == steps_spec(old(self)@, events_view(events@)),
    {
        let mut rest = events;
        proof {
            assert(events_view(rest@) =~= events_view(events@));
        }
        while rest.len() > 0
            invariant
                steps_spec(self@, events_view(rest@)) == steps_spec(
                    old(self)@,
                    events_view(events@),
                ),
            decreases rest.len(),
        {
            let ghost prev_rest = rest@;
            let e = rest.remove(0);
            proof {
                assert(events_view(prev_rest)[0] == e@);
                assert(events_view(rest@) =~= events_view(prev_rest).drop_first());
            }
            self.on_event(e);
        }
    }
}

/// The images of a sequence of events.
pub open spec fn events_view(s: Seq<FeedEvent>) -> Seq<EventView> {
    Seq::new(s.len(), |i: int| s[i]@)
}

/// The producer state after a whole sequence of events, in order.
pub open spec fn steps_spec(s: FeedView, events: Seq<EventView>) -> FeedView
    decreases events.len(),
{
    if events.len() == 0 {
        s
    } else {
        steps_spec(step_spec(s, events[0]).0, events.drop_first())
    }
}

/// The posts a run delivers, given the reconnect budget at its start:
/// every well-formed record before termination, in arrival order;
/// malformed records and per-record failures are passed over.
pub open spec fn posts_of_events(retries: u8, events: Seq<EventView>) -> Seq<PostView>
    decreases events.len(),
{
    if events.len() == 0 {
        Seq::empty()
    } else {
        match events[0] {
            EventView::Record(line) => match parse_post_spec(line) {
                Some(p) => seq![p] + posts_of_events(retries, events.drop_first()),
                None => posts_of_events(retries, events.drop_first()),
            },
            EventView::Closed => Seq::empty(),
            EventView::Failed(err) => if skippable(err) {
                posts_of_events(retries, events.drop_first())
            } else if err == ApiError::Network && retries > 0 {
                posts_of_events((retries - 1) as u8, events.drop_first())
            } else {
                Seq::empty()
            },
        }
    }
}

/// A terminated feed is final: no event changes it in any way.
pub proof fn law_closed_is_final(s: FeedView, events: Seq<EventView>)
    requires
        s.closed || s.cancelled,
    ensures
        steps_spec(s, events) == s,
    decreases events.len(),
{
    if events.len() > 0 {
        law_closed_is_final(s, events.drop_first());
    }
}

/// After cancellation nothing is ever queued again and the released
/// connection is never reacquired, whatever the source still emits.
pub proof fn law_cancelled_is_silent(s: FeedView, events: Seq<EventView>)
    requires
        s.cancelled,
    ensures
        steps_spec(s, events).queue == s.queue,
        steps_spec(s, events).connection_open == s.connection_open,
{
    law_closed_is_final(s, events);
}

/// A malformed record is skipped, not fatal and not visible: it leaves
/// the live feed exactly as it was, so the posts around it are
/// delivered as if it had never arrived.
pub proof fn law_malformed_record_is_skipped(s: FeedView, line: Seq<char>)
    requires
        !s.closed,
        !s.cancelled,
        parse_post_spec(line) is None,
    ensures
        step_spec(s, EventView::Record(line)).0 == s,
        step_spec(s, EventView::Record(line)).1 == ProducerAction::Skipped,
{
}

/// Posts reach the consumer in the exact order the service emitted
/// them: a run from a live state appends precisely the well-formed
/// records that precede termination, in arrival order — nothing is
/// reordered, batched or silently dropped, and a malformed record is
/// skipped without ending the feed.
pub proof fn law_delivery_in_order(s: FeedView, events: Seq<EventView>)
    requires
        !s.closed,
        !s.cancelled,
    ensures
        steps_spec(s, events).queue == s.queue + posts_of_events(s.retries_left, events),
    decreases events.len(),
{
    if events.len() == 0 {
        assert(s.queue + Seq::<PostView>::empty() =~= s.queue);
    } else {
        let e = events[0];
        let rest = events.drop_first();
        let s1 = step_spec(s, e).0;
        match e {
            EventView::Record(line) => {
                match parse_post_spec(line) {
                    Some(p) => {
                        law_delivery_in_order(s1, rest);
                        assert(s.queue + (seq![p] + posts_of_events(s.retries_left, rest)) =~= (
                        s.queue + seq![p]) + posts_of_events(s.retries_left, rest));
                    },
                    None => {
                        law_delivery_in_order(s1, rest);
                    },
                }
            },
            EventView::Closed => {
                law_closed_is_final(s1, rest);
                assert(s.queue + Seq::<PostView>::empty() =~= s.queue);
            },
            EventView::Failed(err) => {
                if skippable(err) {
                    law_delivery_in_order(s1, rest);
                } else if err == ApiError::Network && s.retries_left > 0 {
                    law_delivery_in_order(s1, rest);
                } else {
                    law_closed_is_final(s1, rest);
                    assert(s.queue + Seq::<PostView>::empty() =~= s.queue);
                }
            },
        }
    }
}

/// Path of the live streaming endpoint for a filter.
pub open spec fn stream_path_spec(filter: Seq<char>) -> Seq<char> {
    "/stream?filter="@ + filter
}

/// Prepares the authenticated streaming request the producer opens its
/// connection with; fails with `Unauthenticated` when no token is
/// stored, before any connection is attempted.
pub fn stream_request(filter: &str, store: &CredentialStore) -> (r: Result<
    PreparedRequest,
    ApiError,
>)
    ensures
        client::req_result_view(r) == client::prepare_spec(
            Method::Get,
            stream_path_spec(filter@),
            None,
            true,
            store@,
        ),
{
    let path = String::from_str("/stream?filter=").concat(filter);
    client::prepare(Method::Get, path, None, true, store)
}

} // verus!
