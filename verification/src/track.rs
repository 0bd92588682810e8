//! Tracks: hashtags registered with the service.
//!
//! A track travels as the line `id|name`: the id is a decimal numeral
//! and the name is the rest of the line. The display form is the name
//! prefixed with `#`. A list of tracks is one track per line; the
//! remote service is the single source of truth, nothing is cached.

use vstd::prelude::*;
use vstd::string::*;

use crate::client::{self, Method, PreparedRequest, TransportOutcome};
use crate::errors::ApiError;
use crate::store::CredentialStore;
use crate::text::{find_sep, first_idx, lemma_first_idx, parse_u64, parse_u64_spec};

verus! {

/// One registered hashtag.
pub struct Track {
    pub id: u64,
    pub name: String,
    pub pretty_name: String,
}

/// Mathematical image of a `Track`.
pub ghost struct TrackView {
    pub id: u64,
    pub name: Seq<char>,
    pub pretty_name: Seq<char>,
}

impl View for Track {
    type V = TrackView;

    open spec fn view(&self) -> TrackView {
        TrackView { id: self.id, name: self.name@, pretty_name: self.pretty_name@ }
    }
}

/// The display form of a hashtag name.
pub open spec fn pretty_of(name: Seq<char>) -> Seq<char> {
    "#"@ + name
}

/// What one wire line decodes to: the track whose id is the decimal
/// field before the first `|` and whose name is the rest of the line.
pub open spec fn parse_track_spec(s: Seq<char>) -> Option<TrackView> {
    match first_idx(s, '|') {
        None => None,
        Some(i) => {
            let name = s.skip(i + 1);
            match parse_u64_spec(s.take(i)) {
                Some(id) => Some(TrackView { id, name, pretty_name: pretty_of(name) }),
                None => None,
            }
        },
    }
}

/// Decodes one wire line into a track.
pub fn parse_track(line: &str) -> (r: Option<Track>)
    ensures
        (match r {
            Some(t) => parse_track_spec(line@) == Some(t@),
            None => parse_track_spec(line@) is None,
        }),
{
    let n = line.unicode_len();
    let i = match find_sep(line, '|') {
        Some(i) => i,
        None => {
            return None;
        },
    };
    proof {
        lemma_first_idx(line@, '|');
    }
    let id_part = line.substring_char(0, i);
    let name = line.substring_char(i + 1, n);
    proof {
        assert(id_part@ =~= line@.take(i as int));
        assert(name@ =~= line@.skip(i + 1));
    }
    let id = match parse_u64(id_part) {
        Some(id) => id,
        None => {
            return None;
        },
    };
    let pretty_name = String::from_str("#").concat(name);
    Some(Track { id, name: String::from_str(name), pretty_name })
}

/// What a list body decodes to: every newline-separated line must be a
/// well-formed track; the empty body is the empty list.
pub open spec fn parse_tracks_spec(s: Seq<char>) -> Option<Seq<TrackView>>
    decreases s.len(),
{
    if s.len() == 0 {
        Some(Seq::empty())
    } else {
        match first_idx(s, '\n') {
            None => match parse_track_spec(s) {
                Some(t) => Some(seq![t]),
                None => None,
            },
            Some(i) => {
                proof {
                    lemma_first_idx(s, '\n');
                }
                match (parse_track_spec(s.take(i)), parse_tracks_spec(s.skip(i + 1))) {
                    (Some(t), Some(rest)) => Some(seq![t] + rest),
                    _ => None,
                }
            },
        }
    }
}

/// The images of a sequence of tracks.
pub open spec fn tracks_view(s: Seq<Track>) -> Seq<TrackView> {
    Seq::new(s.len(), |i: int| s[i]@)
}

/// Prefixes a decoded list with already-decoded tracks; a failed list
/// stays failed.
pub open spec fn opt_cat_tracks(a: Seq<TrackView>, o: Option<Seq<TrackView>>) -> Option<
    Seq<TrackView>,
> {
    match o {
        Some(v) => Some(a + v),
        None => None,
    }
}

/// Decodes a list body; `None` when any line is malformed.
pub fn parse_tracks(body: &str) -> (r: Option<Vec<Track>>)
    ensures
        (match r {
            Some(v) => parse_tracks_spec(body@) == Some(tracks_view(v@)),
            None => parse_tracks_spec(body@) is None,
        }),
{
    let n = body.unicode_len();
    let mut out: Vec<Track> = Vec::new();
    let mut pos: usize = 0;
    proof {
        assert(body@.skip(0) =~= body@);
        assert(tracks_view(out@) =~= Seq::<TrackView>::empty());
    }
    while pos < n
        invariant
            pos <= n,
            n == body@.len(),
            opt_cat_tracks(tracks_view(out@), parse_tracks_spec(body@.skip(pos as int)))
                == parse_tracks_spec(body@),
        decreases n - pos,
    {
        let ghost remaining = body@.skip(pos as int);
        let rest = body.substring_char(pos, n);
        proof {
            assert(rest@ =~= remaining);
        }
        let nr = rest.unicode_len();
        let sep = find_sep(rest, '\n');
        let line_end: usize;
        let next_pos: usize;
        match sep {
            Some(k) => {
                proof {
                    lemma_first_idx(rest@, '\n');
                }
                line_end = k;
                next_pos = pos + k + 1;
            },
            None => {
                line_end = nr;
                next_pos = n;
            },
        }
        let line = rest.substring_char(0, line_end);
        match parse_track(line) {
            Some(t) => {
                let ghost old_out = out@;
                out.push(t);
                proof {
                    assert(tracks_view(out@) =~= tracks_view(old_out) + seq![t@]);
                    match sep {
                        Some(k) => {
                            assert(line@ =~= remaining.take(k as int));
                            assert(remaining.skip(k + 1) =~= body@.skip(next_pos as int));
                            assert(parse_tracks_spec(remaining) == opt_cat_tracks(
                                seq![t@],
                                parse_tracks_spec(body@.skip(next_pos as int)),
                            ));
                        },
                        None => {
                            assert(line@ =~= remaining);
                            assert(parse_tracks_spec(remaining) == Some(seq![t@]));
                            assert(body@.skip(next_pos as int) =~= Seq::<char>::empty());
                        },
                    }
                    assert(opt_cat_tracks(
                        tracks_view(out@),
                        parse_tracks_spec(body@.skip(next_pos as int)),
                    ) == opt_cat_tracks(tracks_view(old_out), parse_tracks_spec(remaining))) by {
                        match parse_tracks_spec(body@.skip(next_pos as int)) {
                            Some(v) => {
                                assert(tracks_view(old_out) + (seq![t@] + v) =~= (tracks_view(
                                    old_out,
                                ) + seq![t@]) + v);
                            },
                            None => {},
                        }
                    }
                }
            },
            None => {
                proof {
                    match sep {
                        Some(k) => {
                            assert(line@ =~= remaining.take(k as int));
                        },
                        None => {
                            assert(line@ =~= remaining);
                        },
                    }
                    assert(parse_tracks_spec(remaining) is None);
                }
                return None;
            },
        }
        pos = next_pos;
    }
    proof {
        assert(body@.skip(pos as int) =~= Seq::<char>::empty());
        assert(tracks_view(out@) + Seq::<TrackView>::empty() =~= tracks_view(out@));
    }
    Some(out)
}

/// Prepares the authenticated "list tracks" request.
pub fn tracks_request(store: &CredentialStore) -> (r: Result<PreparedRequest, ApiError>)
    ensures
        client::req_result_view(r) == client::prepare_spec(
            Method::Get,
            "/tracks"@,
            None,
            true,
            store@,
        ),
{
    client::prepare(Method::Get, String::from_str("/tracks"), None, true, store)
}

/// Prepares the authenticated request that starts tracking a hashtag.
pub fn create_track_request(hashtag: String, store: &CredentialStore) -> (r: Result<
    PreparedRequest,
    ApiError,
>)
    ensures
        client::req_result_view(r) == client::prepare_spec(
            Method::Post,
            "/tracks"@,
            Some(hashtag@),
            true,
            store@,
        ),
{
    client::prepare(Method::Post, String::from_str("/tracks"), Some(hashtag), true, store)
}

/// Prepares the authenticated request that stops tracking a hashtag.
pub fn remove_track_request(hashtag: String, store: &CredentialStore) -> (r: Result<
    PreparedRequest,
    ApiError,
>)
    ensures
        client::req_result_view(r) == client::prepare_spec(
            Method::Delete,
            "/tracks"@,
            Some(hashtag@),
            true,
            store@,
        ),
{
    client::prepare(Method::Delete, String::from_str("/tracks"), Some(hashtag), true, store)
}

/// What a single-track call returns for every transport outcome: the
/// classified error, or the decoded track; a body that fails to decode
/// is `Malformed`.
pub open spec fn track_result_spec(o: client::OutcomeView) -> Result<TrackView, ApiError> {
    match client::classify_spec(o) {
        Err(e) => Err(e),
        Ok(resp) => match parse_track_spec(resp.body) {
            Some(t) => Ok(t),
            None => Err(ApiError::Malformed),
        },
    }
}

/// Classifies a transport outcome and decodes a single track body.
pub fn track_outcome(outcome: TransportOutcome) -> (r: Result<Track, ApiError>)
    ensures
        (match r {
            Ok(t) => track_result_spec(outcome@) == Ok::<TrackView, ApiError>(t@),
            Err(e) => track_result_spec(outcome@) == Err::<TrackView, ApiError>(e),
        }),
{
    match client::complete(outcome) {
        Err(e) => Err(e),
        Ok(resp) => match parse_track(resp.body.as_str()) {
            Some(t) => Ok(t),
            None => Err(ApiError::Malformed),
        },
    }
}

/// What the "list tracks" call returns for every transport outcome.
pub open spec fn tracks_result_spec(o: client::OutcomeView) -> Result<Seq<TrackView>, ApiError> {
    match client::classify_spec(o) {
        Err(e) => Err(e),
        Ok(resp) => match parse_tracks_spec(resp.body) {
            Some(ts) => Ok(ts),
            None => Err(ApiError::Malformed),
        },
    }
}

/// Classifies a transport outcome and decodes the track list body.
pub fn tracks_outcome(outcome: TransportOutcome) -> (r: Result<Vec<Track>, ApiError>)
    ensures
        (match r {
            Ok(v) => tracks_result_spec(outcome@) == Ok::<Seq<TrackView>, ApiError>(
                tracks_view(v@),
            ),
            Err(e) => tracks_result_spec(outcome@) == Err::<Seq<TrackView>, ApiError>(e),
        }),
{
    match client::complete(outcome) {
        Err(e) => Err(e),
        Ok(resp) => match parse_tracks(resp.body.as_str()) {
            Some(ts) => Ok(ts),
            None => Err(ApiError::Malformed),
        },
    }
}

} // verus!
