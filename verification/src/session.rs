//! Session manager: exchanges user credentials for a token, and
//! invalidates the local token.
//!
//! A successful login yields a `Session` whose token the caller persists
//! through the credential store; a failed login leaves the store
//! untouched. Logout is purely local: it clears the stored token and
//! never contacts the remote service.

use vstd::prelude::*;
use vstd::string::*;

use crate::client::{self, Method, PreparedRequest, TransportOutcome};
use crate::errors::ApiError;
use crate::store::CredentialStore;
use crate::text::{find_sep, first_idx};

verus! {

/// Ephemeral result of a successful login exchange.
pub struct Session {
    pub token: String,
}

/// Login credentials as the user handed them over.
pub struct Creation {
    pub email: String,
    pub password: String,
}

/// Wire body of the login request: email and password joined by one
/// newline.
pub open spec fn login_body_spec(email: Seq<char>, password: Seq<char>) -> Seq<char> {
    email + "\n"@ + password
}

/// Prepares the unauthenticated login request; no token is read or
/// required.
pub fn login_request(creation: &Creation) -> (r: PreparedRequest)
    ensures
        Ok::<client::RequestView, ApiError>(r@) == client::prepare_spec(
            Method::Post,
            "/session"@,
            Some(login_body_spec(creation.email@, creation.password@)),
            false,
            None,
        ),
{
    let body = creation.email.clone().concat("\n").concat(creation.password.as_str());
    PreparedRequest {
        method: Method::Post,
        path: String::from_str("/session"),
        body: Some(body),
        bearer: None,
    }
}

/// The token carried by a login response body: the whole body, which
/// must be one nonempty line.
pub open spec fn token_of_body(body: Seq<char>) -> Option<Seq<char>> {
    if body.len() > 0 && first_idx(body, '\n') is None {
        Some(body)
    } else {
        None
    }
}

/// What the login call returns for every transport outcome: the
/// classified error, or the token extracted from the body; a body that
/// is empty or spans several lines is `Malformed`.
pub open spec fn login_result_spec(o: client::OutcomeView) -> Result<Seq<char>, ApiError> {
    match client::classify_spec(o) {
        Err(e) => Err(e),
        Ok(resp) => match token_of_body(resp.body) {
            Some(t) => Ok(t),
            None => Err(ApiError::Malformed),
        },
    }
}

/// Classifies a transport outcome and extracts the session token.
pub fn login_outcome(outcome: TransportOutcome) -> (r: Result<Session, ApiError>)
    ensures
        (match r {
            Ok(s) => login_result_spec(outcome@) == Ok::<Seq<char>, ApiError>(s.token@),
            Err(e) => login_result_spec(outcome@) == Err::<Seq<char>, ApiError>(e),
        }),
{
    match client::complete(outcome) {
        Err(e) => Err(e),
        Ok(resp) => {
            let n = resp.body.as_str().unicode_len();
            if n == 0 {
                return Err(ApiError::Malformed);
            }
            match find_sep(resp.body.as_str(), '\n') {
                Some(_) => Err(ApiError::Malformed),
                None => Ok(Session { token: resp.body }),
            }
        },
    }
}

/// Completes a login against the store: a successful exchange persists
/// the extracted token; a failed one leaves the store unchanged.
pub fn finish_login(store: &mut CredentialStore, outcome: TransportOutcome) -> (r: Result<
    Session,
    ApiError,
>)
    ensures
        (match r {
            Ok(s) => login_result_spec(outcome@) == Ok::<Seq<char>, ApiError>(s.token@)
                && final(store)@ == Some(s.token@),
            Err(e) => login_result_spec(outcome@) == Err::<Seq<char>, ApiError>(e) && final(store)@
                == old(store)@,
        }),
{
    match login_outcome(outcome) {
        Ok(session) => {
            store.save(Some(session.token.clone()));
            Ok(session)
        },
        Err(e) => Err(e),
    }
}

/// Clears the local token. Purely local: the remote service is not
/// contacted, and no failure is possible here.
pub fn logout(store: &mut CredentialStore)
    ensures
        final(store)@ is None,
{
    store.save(None);
}

/// Once the token is cleared — as `logout` leaves it — every
/// authenticated call fails with `Unauthenticated` before any request
/// exists to send.
pub proof fn law_logout_then_unauthenticated(
    method: Method,
    path: Seq<char>,
    body: Option<Seq<char>>,
    token: Option<Seq<char>>,
)
    requires
        token is None,
    ensures
        client::prepare_spec(method, path, body, true, token) == Err::<
            client::RequestView,
            ApiError,
        >(ApiError::Unauthenticated),
{
}

} // verus!
