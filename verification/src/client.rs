//! API client: request preparation and response classification.
//!
//! A request against the configured endpoint is first *prepared*: the
//! method, path and body are fixed, and for an authenticated call the
//! stored token is attached as a bearer credential. When no token is
//! stored, preparation fails with `Unauthenticated` and no request value
//! exists to send. The application shell performs the network exchange
//! and hands the raw outcome back to `complete`, which maps it onto the
//! error taxonomy; the token is never mutated here.

use vstd::prelude::*;

use crate::errors::ApiError;
use crate::store::CredentialStore;

verus! {

/// HTTP method of a prepared request.
#[derive(Clone, Copy, Debug, PartialEq, Eq, Structural)]
pub enum Method {
    Get,
    Post,
    Delete,
}

/// A fully determined outbound request, ready for the transport.
pub struct PreparedRequest {
    pub method: Method,
    pub path: String,
    pub body: Option<String>,
    /// Value of the authorization header, when the call is authenticated.
    pub bearer: Option<String>,
}

/// Mathematical image of a `PreparedRequest`.
pub ghost struct RequestView {
    pub method: Method,
    pub path: Seq<char>,
    pub body: Option<Seq<char>>,
    pub bearer: Option<Seq<char>>,
}

/// View of an optional owned string.
pub open spec fn opt_str_view(o: Option<String>) -> Option<Seq<char>> {
    match o {
        Some(s) => Some(s@),
        None => None,
    }
}

impl View for PreparedRequest {
    type V = RequestView;

    open spec fn view(&self) -> RequestView {
        RequestView {
            method: self.method,
            path: self.path@,
            body: opt_str_view(self.body),
            bearer: opt_str_view(self.bearer),
        }
    }
}

/// The authorization header value derived from a token.
pub open spec fn bearer_of(token: Seq<char>) -> Seq<char> {
    "Bearer "@ + token
}

/// What `prepare` returns for every combination of inputs and stored token.
pub open spec fn prepare_spec(
    method: Method,
    path: Seq<char>,
    body: Option<Seq<char>>,
    authenticated: bool,
    token: Option<Seq<char>>,
) -> Result<RequestView, ApiError> {
    if authenticated {
        match token {
            None => Err(ApiError::Unauthenticated),
            Some(t) => Ok(
                RequestView { method, path, body, bearer: Some(bearer_of(t)) },
            ),
        }
    } else {
        Ok(RequestView { method, path, body, bearer: None })
    }
}

/// View of a preparation result.
pub open spec fn req_result_view(r: Result<PreparedRequest, ApiError>) -> Result<
    RequestView,
    ApiError,
> {
    match r {
        Ok(req) => Ok(req@),
        Err(e) => Err(e),
    }
}

/// Fixes a request for the transport. When `authenticated` holds and no
/// token is stored, this fails with `Unauthenticated` immediately: the
/// failure happens locally, before any network round trip.
pub fn prepare(
    method: Method,
    path: String,
    body: Option<String>,
    authenticated: bool,
    store: &CredentialStore,
) -> (r: Result<PreparedRequest, ApiError>)
    ensures
        req_result_view(r) == prepare_spec(method, path@, opt_str_view(body), authenticated, store@),
{
    if authenticated {
        match store.load() {
            None => Err(ApiError::Unauthenticated),
            Some(t) => {
                let header = String::from_str("Bearer ").concat(t.as_str());
                Ok(PreparedRequest { method, path, body, bearer: Some(header) })
            },
        }
    } else {
        Ok(PreparedRequest { method, path, body, bearer: None })
    }
}

/// What the transport reports back for a sent request.
pub enum TransportOutcome {
    /// The service answered with a status code and a body.
    Responded { status: u16, body: String },
    /// The connection failed or timed out before a response arrived.
    ConnectionFailed,
}

/// Mathematical image of a `TransportOutcome`.
pub ghost enum OutcomeView {
    Responded { status: u16, body: Seq<char> },
    ConnectionFailed,
}

impl View for TransportOutcome {
    type V = OutcomeView;

    open spec fn view(&self) -> OutcomeView {
        match self {
            TransportOutcome::Responded { status, body } => OutcomeView::Responded {
                status: *status,
                body: body@,
            },
            TransportOutcome::ConnectionFailed => OutcomeView::ConnectionFailed,
        }
    }
}

/// A successful response: a 2xx status and its body.
pub struct Response {
    pub status: u16,
    pub body: String,
}

/// Mathematical image of a `Response`.
pub ghost struct ResponseView {
    pub status: u16,
    pub body: Seq<char>,
}

impl View for Response {
    type V = ResponseView;

    open spec fn view(&self) -> ResponseView {
        ResponseView { status: self.status, body: self.body@ }
    }
}

/// How every transport outcome is classified: a failed connection is
/// `Network`; 2xx succeeds; 401 and 403 are `Rejected`; 404 is
/// `NotFound`; every other status is treated as a server fault.
pub open spec fn classify_spec(o: OutcomeView) -> Result<ResponseView, ApiError> {
    match o {
        OutcomeView::ConnectionFailed => Err(ApiError::Network),
        OutcomeView::Responded { status, body } => if 200 <= status && status < 300 {
            Ok(ResponseView { status, body })
        } else if status == 401 || status == 403 {
            Err(ApiError::Rejected)
        } else if status == 404 {
            Err(ApiError::NotFound)
        } else {
            Err(ApiError::ServerError)
        },
    }
}

/// View of a classification result.
pub open spec fn resp_result_view(r: Result<Response, ApiError>) -> Result<
    ResponseView,
    ApiError,
> {
    match r {
        Ok(resp) => Ok(resp@),
        Err(e) => Err(e),
    }
}

/// Maps a raw transport outcome onto the error taxonomy.
pub fn complete(outcome: TransportOutcome) -> (r: Result<Response, ApiError>)
    ensures
        resp_result_view(r) == classify_spec(outcome@),
{
    match outcome {
        TransportOutcome::ConnectionFailed => Err(ApiError::Network),
        TransportOutcome::Responded { status, body } => {
            if 200 <= status && status < 300 {
                Ok(Response { status, body })
            } else if status == 401 || status == 403 {
                Err(ApiError::Rejected)
            } else if status == 404 {
                Err(ApiError::NotFound)
            } else {
                Err(ApiError::ServerError)
            }
        },
    }
}

/// An authenticated call with no stored token fails with
/// `Unauthenticated`, whatever the request would have been: no prepared
/// request exists, so no network request can be issued.
pub proof fn law_no_token_no_request(method: Method, path: Seq<char>, body: Option<Seq<char>>)
    ensures
        prepare_spec(method, path, body, true, None) == Err::<RequestView, ApiError>(
            ApiError::Unauthenticated,
        ),
{
}

} // verus!
