//! Post records: the wire form of one post and of a finite batch.
//!
//! One post travels as the line `id|timestamp|author|text`: the first
//! two fields are decimal numerals, the author may not contain `|`, and
//! the text is everything after the third separator. A batch is posts
//! joined by newlines; an empty body is an empty batch, and one trailing
//! newline is tolerated.

use vstd::prelude::*;
use vstd::string::*;

use crate::client::{self, Method, PreparedRequest, TransportOutcome};
use crate::errors::ApiError;
use crate::store::CredentialStore;
use crate::text::{find_sep, first_idx, lemma_first_idx, parse_u64, parse_u64_spec};

verus! {

/// One post as received from the service.
pub struct PostRecord {
    pub id: u64,
    pub timestamp: u64,
    pub author: String,
    pub text: String,
}

/// Mathematical image of a `PostRecord`.
pub ghost struct PostView {
    pub id: u64,
    pub timestamp: u64,
    pub author: Seq<char>,
    pub text: Seq<char>,
}

impl View for PostRecord {
    type V = PostView;

    open spec fn view(&self) -> PostView {
        PostView {
            id: self.id,
            timestamp: self.timestamp,
            author: self.author@,
            text: self.text@,
        }
    }
}

/// What one wire line decodes to, if anything: the post whose id and
/// timestamp are the first two `|`-separated decimal fields, whose
/// author is the third field, and whose text is the rest of the line.
pub open spec fn parse_post_spec(s: Seq<char>) -> Option<PostView> {
    match first_idx(s, '|') {
        None => None,
        Some(i) => {
            let id_part = s.take(i);
            let rest1 = s.skip(i + 1);
            match first_idx(rest1, '|') {
                None => None,
                Some(j) => {
                    let ts_part = rest1.take(j);
                    let rest2 = rest1.skip(j + 1);
                    match first_idx(rest2, '|') {
                        None => None,
                        Some(k) => {
                            let author = rest2.take(k);
                            let text = rest2.skip(k + 1);
                            match (parse_u64_spec(id_part), parse_u64_spec(ts_part)) {
                                (Some(id), Some(ts)) => Some(
                                    PostView { id, timestamp: ts, author, text },
                                ),
                                _ => None,
                            }
                        },
                    }
                },
            }
        },
    }
}

/// Decodes one wire line into a post.
pub fn parse_post(line: &str) -> (r: Option<PostRecord>)
    ensures
        (match r {
            Some(p) => parse_post_spec(line@) == Some(p@),
            None => parse_post_spec(line@) is None,
        }),
{
    let n = line.unicode_len();
    let i = match find_sep(line, '|') {
        Some(i) => i,
        None => {
            return None;
        },
    };
    proof {
        lemma_first_idx(line@, '|');
    }
    let id_part = line.substring_char(0, i);
    let rest1 = line.substring_char(i + 1, n);
    proof {
        assert(id_part@ =~= line@.take(i as int));
        assert(rest1@ =~= line@.skip(i + 1));
    }
    let n1 = rest1.unicode_len();
    let j = match find_sep(rest1, '|') {
        Some(j) => j,
        None => {
            return None;
        },
    };
    proof {
        lemma_first_idx(rest1@, '|');
    }
    let ts_part = rest1.substring_char(0, j);
    let rest2 = rest1.substring_char(j + 1, n1);
    proof {
        assert(ts_part@ =~= rest1@.take(j as int));
        assert(rest2@ =~= rest1@.skip(j + 1));
    }
    let n2 = rest2.unicode_len();
    let k = match find_sep(rest2, '|') {
        Some(k) => k,
        None => {
            return None;
        },
    };
    proof {
        lemma_first_idx(rest2@, '|');
    }
    let author = rest2.substring_char(0, k);
    let text = rest2.substring_char(k + 1, n2);
    proof {
        assert(author@ =~= rest2@.take(k as int));
        assert(text@ =~= rest2@.skip(k + 1));
    }
    let id = match parse_u64(id_part) {
        Some(id) => id,
        None => {
            return None;
        },
    };
    let timestamp = match parse_u64(ts_part) {
        Some(ts) => ts,
        None => {
            return None;
        },
    };
    Some(
        PostRecord {
            id,
            timestamp,
            author: String::from_str(author),
            text: String::from_str(text),
        },
    )
}

/// What a batch body decodes to: every newline-separated line must be a
/// well-formed post; the empty body is the empty batch.
pub open spec fn parse_posts_spec(s: Seq<char>) -> Option<Seq<PostView>>
    decreases s.len(),
{
    if s.len() == 0 {
        Some(Seq::empty())
    } else {
        match first_idx(s, '\n') {
            None => match parse_post_spec(s) {
                Some(p) => Some(seq![p]),
                None => None,
            },
            Some(i) => {
                proof {
                    lemma_first_idx(s, '\n');
                }
                match (parse_post_spec(s.take(i)), parse_posts_spec(s.skip(i + 1))) {
                    (Some(p), Some(rest)) => Some(seq![p] + rest),
                    _ => None,
                }
            },
        }
    }
}

/// The images of a sequence of posts.
pub open spec fn posts_view(s: Seq<PostRecord>) -> Seq<PostView> {
    Seq::new(s.len(), |i: int| s[i]@)
}

/// Prefixes a decoded batch with already-decoded posts; a failed batch
/// stays failed.
pub open spec fn opt_cat(a: Seq<PostView>, o: Option<Seq<PostView>>) -> Option<Seq<PostView>> {
    match o {
        Some(v) => Some(a + v),
        None => None,
    }
}

/// Decodes a batch body; `None` when any line is malformed.
pub fn parse_posts(body: &str) -> (r: Option<Vec<PostRecord>>)
    ensures
        (match r {
            Some(v) => parse_posts_spec(body@) == Some(posts_view(v@)),
            None => parse_posts_spec(body@) is None,
        }),
{
    let n = body.unicode_len();
    let mut out: Vec<PostRecord> = Vec::new();
    let mut pos: usize = 0;
    proof {
        assert(body@.skip(0) =~= body@);
        assert(posts_view(out@) =~= Seq::<PostView>::empty());
    }
    while pos < n
        invariant
            pos <= n,
            n == body@.len(),
            opt_cat(posts_view(out@), parse_posts_spec(body@.skip(pos as int))) == parse_posts_spec(
                body@,
            ),
        decreases n - pos,
    {
        let ghost remaining = body@.skip(pos as int);
        let rest = body.substring_char(pos, n);
        proof {
            assert(rest@ =~= remaining);
        }
        let nr = rest.unicode_len();
        let sep = find_sep(rest, '\n');
        let line_end: usize;
        let next_pos: usize;
        match sep {
            Some(k) => {
                proof {
                    lemma_first_idx(rest@, '\n');
                }
                line_end = k;
                next_pos = pos + k + 1;
            },
            None => {
                line_end = nr;
                next_pos = n;
            },
        }
        let line = rest.substring_char(0, line_end);
        match parse_post(line) {
            Some(p) => {
                let ghost old_out = out@;
                out.push(p);
                proof {
                    assert(posts_view(out@) =~= posts_view(old_out) + seq![p@]);
                    match sep {
                        Some(k) => {
                            assert(line@ =~= remaining.take(k as int));
                            assert(remaining.skip(k + 1) =~= body@.skip(next_pos as int));
                            assert(parse_posts_spec(remaining) == opt_cat(
                                seq![p@],
                                parse_posts_spec(body@.skip(next_pos as int)),
                            ));
                        },
                        None => {
                            assert(line@ =~= remaining);
                            assert(parse_posts_spec(remaining) == Some(seq![p@]));
                            assert(body@.skip(next_pos as int) =~= Seq::<char>::empty());
                        },
                    }
                    assert(opt_cat(posts_view(out@), parse_posts_spec(body@.skip(next_pos as int)))
                        == opt_cat(
                        posts_view(old_out),
                        parse_posts_spec(remaining),
                    )) by {
                        match parse_posts_spec(body@.skip(next_pos as int)) {
                            Some(v) => {
                                assert(posts_view(old_out) + (seq![p@] + v) =~= (posts_view(old_out)
                                    + seq![p@]) + v);
                            },
                            None => {},
                        }
                    }
                }
            },
            None => {
                proof {
                    match sep {
                        Some(k) => {
                            assert(line@ =~= remaining.take(k as int));
                        },
                        None => {
                            assert(line@ =~= remaining);
                        },
                    }
                    assert(parse_posts_spec(remaining) is None);
                }
                return None;
            },
        }
        pos = next_pos;
    }
    proof {
        assert(body@.skip(pos as int) =~= Seq::<char>::empty());
        assert(posts_view(out@) + Seq::<PostView>::empty() =~= posts_view(out@));
    }
    Some(out)
}

/// Path of the one-shot batch endpoint for a filter.
pub open spec fn latest_path_spec(filter: Seq<char>) -> Seq<char> {
    "/tweets?filter="@ + filter
}

/// Prepares the authenticated one-shot "latest posts" request; fails
/// with `Unauthenticated` when no token is stored.
pub fn latest_request(filter: &str, store: &CredentialStore) -> (r: Result<
    PreparedRequest,
    ApiError,
>)
    ensures
        client::req_result_view(r) == client::prepare_spec(
            Method::Get,
            latest_path_spec(filter@),
            None,
            true,
            store@,
        ),
{
    let path = String::from_str("/tweets?filter=").concat(filter);
    client::prepare(Method::Get, path, None, true, store)
}

/// What the one-shot batch call returns for every transport outcome: the
/// classified error, or the decoded batch; a body that fails to decode
/// is `Malformed`.
pub open spec fn latest_result_spec(o: client::OutcomeView) -> Result<Seq<PostView>, ApiError> {
    match client::classify_spec(o) {
        Err(e) => Err(e),
        Ok(resp) => match parse_posts_spec(resp.body) {
            Some(posts) => Ok(posts),
            None => Err(ApiError::Malformed),
        },
    }
}

/// Classifies a transport outcome and decodes the batch body.
pub fn latest_outcome(outcome: TransportOutcome) -> (r: Result<Vec<PostRecord>, ApiError>)
    ensures
        (match r {
            Ok(v) => latest_result_spec(outcome@) == Ok::<Seq<PostView>, ApiError>(posts_view(v@)),
            Err(e) => latest_result_spec(outcome@) == Err::<Seq<PostView>, ApiError>(e),
        }),
{
    match client::complete(outcome) {
        Err(e) => Err(e),
        Ok(resp) => match parse_posts(resp.body.as_str()) {
            Some(posts) => Ok(posts),
            None => Err(ApiError::Malformed),
        },
    }
}

} // verus!
