//! The authentication interceptor: the guard that runs once per request
//! routed through a protected scope.
//!
//! It extracts a candidate token — preferring the one stored in the
//! session and falling back to a bearer token in the Authorization
//! header — validates it, and either populates the request-scoped
//! [`IdentityContext`] or short-circuits with a well-formed 401
//! rejection carrying the failure reason.  Every failure path produces a
//! rejection; no unhandled fault leaves this component.

use vstd::prelude::*;

use crate::config::Config;
use crate::errors::AuthError;
use crate::jwt::Claims;
use crate::jwt::token_of;
use crate::jwt::validate;
use crate::session::spec_token_key;
use crate::session::SessionState;
use crate::text::spec_trim_spaces;
use crate::text::trim_spaces;

verus! {

/// Ephemeral, request-scoped record of the authenticated caller.  It is
/// created by the interceptor on success, never shared across requests,
/// and read-only afterwards: the claims can be inspected, not replaced.
#[derive(Debug)]
pub struct IdentityContext {
    claims: Claims,
}

impl IdentityContext {
    /// The validated claims this context carries.
    pub closed spec fn spec_claims(&self) -> Claims {
        self.claims
    }

    /// Wraps validated claims for the duration of one request.
    pub fn new(claims: Claims) -> (r: IdentityContext)
        ensures
            r.spec_claims() == claims,
    {
        IdentityContext { claims }
    }

    /// Read-only access to the validated claims.
    pub fn claims(&self) -> (r: &Claims)
        ensures
            *r == self.spec_claims(),
    {
        &self.claims
    }
}

/// The rejection response produced when authentication fails: an HTTP
/// 401 with a short diagnostic naming the reason.
#[derive(Debug)]
pub struct Rejection {
    /// HTTP status of the rejection; always 401 here.
    pub status: u16,
    /// Why the request was rejected.
    pub reason: AuthError,
    /// Short textual diagnostic naming the reason.
    pub message: String,
}

impl Rejection {
    /// A well-formed rejection: status 401 and the diagnostic that names
    /// its reason.
    pub open spec fn wf(&self) -> bool {
        &&& self.status == 401
        &&& self.message@ == self.reason.spec_message()
    }
}

/// Builds the well-formed rejection for a failure reason.
pub fn reject(reason: AuthError) -> (r: Rejection)
    ensures
        r.wf(),
        r.reason == reason,
{
    let message = reason.message();
    Rejection { status: 401, reason, message }
}

/// Whether a header value starts with the bearer scheme marker.
pub open spec fn spec_has_bearer_prefix(h: Seq<char>) -> bool {
    &&& h.len() >= 7
    &&& h[0] == 'B'
    &&& h[1] == 'e'
    &&& h[2] == 'a'
    &&& h[3] == 'r'
    &&& h[4] == 'e'
    &&& h[5] == 'r'
    &&& h[6] == ' '
}

/// The token carried by an Authorization header value: what follows the
/// bearer scheme marker, with surrounding spaces removed; nothing for a
/// header of any other scheme.
pub open spec fn spec_bearer_token(h: Seq<char>) -> Option<Seq<char>> {
    if spec_has_bearer_prefix(h) {
        Some(spec_trim_spaces(h.skip(7)))
    } else {
        None
    }
}

/// Extracts the bearer token from an Authorization header value.
pub fn bearer_token(h: &str) -> (r: Option<String>)
    ensures
        match r {
            Some(t) => spec_bearer_token(h@) == Some(t@),
            None => spec_bearer_token(h@) is None,
        },
{
    let n = h.unicode_len();
    if n < 7 {
        return None;
    }
    if !(h.get_char(0) == 'B' && h.get_char(1) == 'e' && h.get_char(2) == 'a' && h.get_char(3)
        == 'r' && h.get_char(4) == 'e' && h.get_char(5) == 'r' && h.get_char(6) == ' ') {
        return None;
    }
    let rest = h.substring_char(7, n);
    proof {
        assert(rest@ =~= h@.skip(7));
    }
    Some(trim_spaces(rest))
}

/// The candidate token of a request: the session-stored token when there
/// is one, else the bearer token of the Authorization header, else
/// nothing.  Session first, header fallback.
pub open spec fn spec_candidate(
    session: Map<Seq<char>, Seq<char>>,
    authorization: Option<Seq<char>>,
) -> Option<Seq<char>> {
    if session.contains_key(spec_token_key()) {
        Some(session[spec_token_key()])
    } else {
        match authorization {
            Some(h) => spec_bearer_token(h),
            None => None,
        }
    }
}

/// The view of an optional header value.
pub open spec fn spec_header_view(authorization: Option<&str>) -> Option<Seq<char>> {
    match authorization {
        Some(h) => Some(h@),
        None => None,
    }
}

/// Extracts the candidate token, session first, header as fallback.
pub fn extract_candidate(session: &SessionState, authorization: Option<&str>) -> (r: Option<
    String,
>)
    ensures
        match r {
            Some(t) => spec_candidate(session@, spec_header_view(authorization)) == Some(t@),
            None => spec_candidate(session@, spec_header_view(authorization)) is None,
        },
{
    match session.get("token") {
        Some(t) => Some(t),
        None => match authorization {
            Some(h) => bearer_token(h),
            None => None,
        },
    }
}

/// What one interceptor run promises.
///
/// Every rejection is a well-formed 401, and its reason is `Missing`
/// exactly when no candidate token existed.  When the candidate is a
/// token that signing with the process secret produced, the outcome is
/// pinned: an unexpired token authenticates with exactly its claims, an
/// expired one is rejected as `Expired`.  Whatever the candidate was, a
/// populated identity carries unexpired claims.
pub open spec fn auth_call_ensures(
    secret: Seq<char>,
    session: Map<Seq<char>, Seq<char>>,
    authorization: Option<Seq<char>>,
    now: u64,
    r: Result<IdentityContext, Rejection>,
) -> bool {
    let cand = spec_candidate(session, authorization);
    &&& (r matches Err(rej) ==> rej.wf() && (rej.reason == AuthError::Missing <==> cand is None))
    &&& (cand is None ==> r is Err)
    &&& (cand matches Some(t) ==> forall|sub: Seq<char>, role: Seq<char>, exp: u64|
        t == #[trigger] token_of(secret, sub, role, exp) ==> if exp > now {
            r matches Ok(ctx) && ctx.spec_claims().sub@ == sub && ctx.spec_claims().role@ == role
                && ctx.spec_claims().exp == exp
        } else {
            r matches Err(rej) && rej.reason == AuthError::Expired
        })
    &&& (r matches Ok(ctx) ==> cand is Some && ctx.spec_claims().exp > now)
}

/// Session first: while the session stores a token, that token is the
/// candidate and the Authorization header is not consulted — any two
/// headers leave the choice unchanged.
pub proof fn lemma_session_token_takes_precedence(
    session: Map<Seq<char>, Seq<char>>,
    a1: Option<Seq<char>>,
    a2: Option<Seq<char>>,
)
    requires
        session.contains_key(spec_token_key()),
    ensures
        spec_candidate(session, a1) == Some(session[spec_token_key()]),
        spec_candidate(session, a1) == spec_candidate(session, a2),
{
}

/// Header fallback: without a session-stored token, the candidate is the
/// bearer token of the Authorization header.
pub proof fn lemma_header_is_the_fallback(session: Map<Seq<char>, Seq<char>>, h: Seq<char>)
    requires
        !session.contains_key(spec_token_key()),
    ensures
        spec_candidate(session, Some(h)) == spec_bearer_token(h),
        spec_candidate(session, None) is None,
{
}

/// The authentication interceptor's policy marker: wraps a service in
/// the per-request guard.
#[derive(Debug)]
pub struct Authentication;

impl Authentication {
    /// Builds the per-request guard around the process configuration.
    pub fn new_transform(&self, config: Config) -> (m: AuthenticationMiddleware)
        ensures
            m.config == config,
    {
        AuthenticationMiddleware { config }
    }
}

/// The per-request authentication guard.
#[derive(Debug)]
pub struct AuthenticationMiddleware {
    /// The process-wide signing configuration, shared read-only.
    pub config: Config,
}

impl AuthenticationMiddleware {
    /// Runs the guard once for a request: extracts the candidate token,
    /// validates it at the given clock value, and either returns the
    /// populated identity context or the 401 rejection that
    /// short-circuits the chain.
    pub fn call(&self, session: &SessionState, authorization: Option<&str>, now: u64) -> (r:
        Result<IdentityContext, Rejection>)
        requires
            self.config.wf(),
        ensures
            auth_call_ensures(
                self.config.jwt_secret@,
                session@,
                spec_header_view(authorization),
                now,
                r,
            ),
    {
        let candidate = match extract_candidate(session, authorization) {
            Some(t) => t,
            None => {
                return Err(reject(AuthError::Missing));
            },
        };
        match validate(&self.config, candidate.as_str(), now) {
            Ok(claims) => Ok(IdentityContext::new(claims)),
            Err(e) => Err(reject(e)),
        }
    }
}

/// Hands the validated claims to the wrapped handler's scope: the claims
/// when the interceptor populated an identity, the missing-credential
/// rejection when it did not.
pub fn handler(identity: Option<&IdentityContext>) -> (r: Result<Claims, Rejection>)
    ensures
        match identity {
            Some(ctx) => r matches Ok(c) && c == ctx.spec_claims(),
            None => r matches Err(rej) && rej.wf() && rej.reason == AuthError::Missing,
        },
{
    match identity {
        Some(ctx) => Ok(ctx.claims().clone()),
        None => Err(reject(AuthError::Missing)),
    }
}

} // verus!
