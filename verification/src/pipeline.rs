//! The middleware pipeline: the ordered, fixed composition of
//! interceptors wrapping a route handler.
//!
//! Order is a correctness property here.  Logging wraps the entire chain
//! so both successful and short-circuited outcomes are recorded; CORS
//! runs before the protected-scope check so a preflight request is never
//! rejected as unauthenticated; session attachment runs before
//! authentication, which reads the session.  A short-circuit at any
//! stage skips every later link except the unwinding exit log entry.
//!
//! The structured log is redaction-aware by construction: an entry
//! carries a request path or a response status and can hold neither a
//! token nor the secret.

use vstd::prelude::*;

use crate::auth::auth_call_ensures;
use crate::auth::spec_candidate;
use crate::auth::AuthenticationMiddleware;
use crate::auth::IdentityContext;
use crate::errors::AuthError;
use crate::jwt::token_of;
use crate::session::SessionState;

verus! {

/// One structured log record.
#[derive(Debug)]
pub enum LogEvent {
    /// A request entered the pipeline, with its path.
    Enter { path: String },
    /// A response left the pipeline, with its final status.
    Exit { status: u16 },
}

/// The view of a log record.
pub enum LogEntry {
    /// A request entered the pipeline.
    Enter(Seq<char>),
    /// A response left the pipeline.
    Exit(u16),
}

impl View for LogEvent {
    type V = LogEntry;

    open spec fn view(&self) -> LogEntry {
        match self {
            LogEvent::Enter { path } => LogEntry::Enter(path@),
            LogEvent::Exit { status } => LogEntry::Exit(*status),
        }
    }
}

/// The access-logging interceptor's policy marker.
#[derive(Debug)]
pub struct Logging;

impl Logging {
    /// Builds the log accumulator that wraps one service.
    pub fn new_transform(&self) -> (m: LoggingMiddleware)
        ensures
            m@ == Seq::<LogEntry>::empty(),
    {
        LoggingMiddleware { events: Vec::new() }
    }
}

/// The access log: records a request's entry and, on unwinding, the
/// final status of whatever outcome the chain produced.
#[derive(Debug)]
pub struct LoggingMiddleware {
    events: Vec<LogEvent>,
}

impl View for LoggingMiddleware {
    type V = Seq<LogEntry>;

    closed spec fn view(&self) -> Seq<LogEntry> {
        Seq::new(self.events@.len(), |i: int| self.events@[i]@)
    }
}

impl LoggingMiddleware {
    /// Records that a request entered the pipeline.
    pub fn enter(&mut self, path: &str)
        ensures
            final(self)@ == old(self)@.push(LogEntry::Enter(path@)),
    {
        self.events.push(LogEvent::Enter { path: path.to_owned() });
        proof {
            assert(final(self)@ =~= old(self)@.push(LogEntry::Enter(path@)));
        }
    }

    /// Records the final status of the response leaving the pipeline.
    pub fn exit(&mut self, status: u16)
        ensures
            final(self)@ == old(self)@.push(LogEntry::Exit(status)),
    {
        self.events.push(LogEvent::Exit { status });
        proof {
            assert(final(self)@ =~= old(self)@.push(LogEntry::Exit(status)));
        }
    }

    /// Read-only access to the recorded events.
    pub fn events(&self) -> (r: &Vec<LogEvent>)
        ensures
            r@.len() == self@.len(),
            forall|i: int| 0 <= i < r@.len() ==> r@[i]@ == self@[i],
    {
        &self.events
    }
}

/// The links of the chain, in the order they run.
#[derive(Debug, Clone, Copy, PartialEq, Eq, Structural)]
pub enum Stage {
    /// CORS policy; answers preflight requests itself.
    Cors,
    /// Makes the session store available to later links.
    SessionAttach,
    /// The authentication guard of a protected scope.
    Auth,
    /// The wrapped route handler.
    Handler,
}

/// What a request looks like to the pipeline: the inputs the chain reads.
pub struct RequestModel {
    /// Request path, recorded by the access log.
    pub path: String,
    /// Whether this is a CORS preflight request.
    pub preflight: bool,
    /// Whether the route lies in a protected scope.
    pub protected: bool,
    /// The Authorization header, when the caller sent one.
    pub authorization: Option<String>,
    /// The session state decoded from the request's cookie.
    pub session: SessionState,
}

impl RequestModel {
    /// The candidate token this request offers, session first.
    pub open spec fn spec_candidate_token(&self) -> Option<Seq<char>> {
        spec_candidate(
            self.session@,
            match self.authorization {
                Some(h) => Some(h@),
                None => None,
            },
        )
    }
}

/// What one pipeline run produced.
pub struct PipelineOutcome {
    /// Status of the response: the handler's status when the chain
    /// reached the handler, the short-circuiting link's status otherwise.
    pub status: u16,
    /// Whether the wrapped handler was invoked.
    pub handler_ran: bool,
    /// The request-scoped identity, populated only when the guard of a
    /// protected scope authenticated the caller.
    pub identity: Option<IdentityContext>,
    /// The authentication failure that short-circuited the chain, if one.
    pub rejection: Option<AuthError>,
    /// The links that ran, in order.
    pub stages: Vec<Stage>,
}

/// The exact sequence of links that runs for a request: CORS always;
/// session attachment unless CORS answered a preflight; the guard only
/// for a protected scope; the handler unless something short-circuited.
pub open spec fn spec_stages(preflight: bool, protected: bool, handler_ran: bool) -> Seq<Stage> {
    if preflight {
        seq![Stage::Cors]
    } else if !protected {
        seq![Stage::Cors, Stage::SessionAttach, Stage::Handler]
    } else if handler_ran {
        seq![Stage::Cors, Stage::SessionAttach, Stage::Auth, Stage::Handler]
    } else {
        seq![Stage::Cors, Stage::SessionAttach, Stage::Auth]
    }
}

/// What one pipeline run promises.
pub open spec fn pipeline_ensures(
    secret: Seq<char>,
    req: &RequestModel,
    now: u64,
    handler_status: u16,
    calls_before: u64,
    calls_after: u64,
    log_before: Seq<LogEntry>,
    log_after: Seq<LogEntry>,
    out: PipelineOutcome,
) -> bool {
    let cand = req.spec_candidate_token();
    // Logging wraps the whole chain: one entry record, one exit record
    // with the final status, whatever happened in between.
    &&& log_after == log_before + seq![LogEntry::Enter(req.path@), LogEntry::Exit(out.status)]
    // The links run in their fixed order, nothing skipped, nothing added.
    &&& out.stages@ == spec_stages(req.preflight, req.protected, out.handler_ran)
    // The handler's side effects happen exactly when the handler ran.
    &&& calls_after == if out.handler_ran {
        calls_before + 1
    } else {
        calls_before as int
    }
    // A preflight request is answered by the CORS link, never rejected
    // as unauthenticated.
    &&& (req.preflight ==> !out.handler_ran && out.status == 200 && out.identity is None
        && out.rejection is None)
    // An unprotected route runs the handler without an identity.
    &&& (!req.preflight && !req.protected ==> out.handler_ran && out.identity is None
        && out.rejection is None)
    // On a protected route without any candidate token, the guard
    // rejects with the missing-credential reason.
    &&& (!req.preflight && req.protected && cand is None ==> out.rejection == Some(
        AuthError::Missing,
    ))
    // On a protected route whose candidate is a token the process secret
    // signed, the outcome is pinned by the token's own claims.
    &&& (!req.preflight && req.protected && cand is Some ==> forall|
        sub: Seq<char>,
        role: Seq<char>,
        exp: u64,
    |
        cand->0 == #[trigger] token_of(secret, sub, role, exp) ==> if exp > now {
            (out.identity matches Some(ctx) && out.handler_ran && ctx.spec_claims().sub@ == sub
                && ctx.spec_claims().role@ == role && ctx.spec_claims().exp == exp)
        } else {
            out.rejection == Some(AuthError::Expired)
        })
    // A populated identity only ever carries unexpired claims, and only
    // the guard of a protected route populates one.
    &&& (out.identity matches Some(ctx) ==> req.protected && ctx.spec_claims().exp > now)
    // The handler's status is the response status whenever it ran; on a
    // protected route the identity was populated for it.
    &&& (out.handler_ran ==> out.status == handler_status && out.rejection is None && (
    req.protected ==> out.identity is Some))
    // A rejection short-circuits: the handler never runs, no identity
    // exists, and the response is a 401 naming the reason.
    &&& (out.rejection is Some ==> !out.handler_ran && out.status == 401 && out.identity is None)
    // The missing-credential reason arises exactly when no candidate
    // token existed.
    &&& (out.rejection matches Some(reason) ==> (reason == AuthError::Missing <==> cand is None))
    &&& (!req.preflight && req.protected && !out.handler_ran ==> out.rejection is Some
        && out.status == 401 && out.identity is None)
}

/// Runs the fixed chain for one request at the given clock value.
///
/// `handler_status` stands for the wrapped handler's response, and
/// `handler_calls` counts its side effects: the counter moves exactly
/// when the handler runs, so a short-circuited request provably causes
/// no handler effect.
pub fn run_pipeline(
    auth: &AuthenticationMiddleware,
    log: &mut LoggingMiddleware,
    req: &RequestModel,
    now: u64,
    handler_status: u16,
    handler_calls: &mut u64,
) -> (out: PipelineOutcome)
    requires
        auth.config.wf(),
        *old(handler_calls) < u64::MAX,
    ensures
        pipeline_ensures(
            auth.config.jwt_secret@,
            req,
            now,
            handler_status,
            *old(handler_calls),
            *final(handler_calls),
            old(log)@,
            final(log)@,
            out,
        ),
{
    log.enter(req.path.as_str());
    let mut stages: Vec<Stage> = Vec::new();
    stages.push(Stage::Cors);
    if req.preflight {
        log.exit(200);
        proof {
            assert(stages@ =~= spec_stages(true, req.protected, false));
            assert(final(log)@ =~= old(log)@ + seq![
                LogEntry::Enter(req.path@),
                LogEntry::Exit(200u16),
            ]);
        }
        return PipelineOutcome {
            status: 200,
            handler_ran: false,
            identity: None,
            rejection: None,
            stages,
        };
    }
    stages.push(Stage::SessionAttach);
    if !req.protected {
        stages.push(Stage::Handler);
        *handler_calls = *handler_calls + 1;
        log.exit(handler_status);
        proof {
            assert(stages@ =~= spec_stages(false, false, true));
            assert(final(log)@ =~= old(log)@ + seq![
                LogEntry::Enter(req.path@),
                LogEntry::Exit(handler_status),
            ]);
        }
        return PipelineOutcome {
            status: handler_status,
            handler_ran: true,
            identity: None,
            rejection: None,
            stages,
        };
    }
    stages.push(Stage::Auth);
    let authorization: Option<&str> = match &req.authorization {
        Some(h) => Some(h.as_str()),
        None => None,
    };
    match auth.call(&req.session, authorization, now) {
        Ok(ctx) => {
            stages.push(Stage::Handler);
            *handler_calls = *handler_calls + 1;
            log.exit(handler_status);
            proof {
                assert(stages@ =~= spec_stages(false, true, true));
                assert(final(log)@ =~= old(log)@ + seq![
                    LogEntry::Enter(req.path@),
                    LogEntry::Exit(handler_status),
                ]);
            }
            PipelineOutcome {
                status: handler_status,
                handler_ran: true,
                identity: Some(ctx),
                rejection: None,
                stages,
            }
        },
        Err(rejection) => {
            log.exit(rejection.status);
            proof {
                assert(stages@ =~= spec_stages(false, true, false));
                assert(final(log)@ =~= old(log)@ + seq![
                    LogEntry::Enter(req.path@),
                    LogEntry::Exit(401u16),
                ]);
            }
            PipelineOutcome {
                status: rejection.status,
                handler_ran: false,
                identity: None,
                rejection: Some(rejection.reason),
                stages,
            }
        },
    }
}

/// A protected request offering no candidate token — no session-stored
/// token, no Authorization header — is rejected with 401 and the
/// missing-credential reason, and the handler's effects provably stay
/// untouched.
pub proof fn lemma_no_credentials_rejected(
    secret: Seq<char>,
    req: &RequestModel,
    now: u64,
    handler_status: u16,
    calls_before: u64,
    calls_after: u64,
    log_before: Seq<LogEntry>,
    log_after: Seq<LogEntry>,
    out: PipelineOutcome,
)
    requires
        !req.preflight,
        req.protected,
        req.spec_candidate_token() is None,
        pipeline_ensures(
            secret,
            req,
            now,
            handler_status,
            calls_before,
            calls_after,
            log_before,
            log_after,
            out,
        ),
    ensures
        out.rejection == Some(AuthError::Missing),
        out.status == 401,
        !out.handler_ran,
        out.identity is None,
        calls_after == calls_before,
{
}

/// A protected request whose session stores an unexpired token signed by
/// the process secret reaches the handler with an identity carrying
/// exactly the token's subject and role.
pub proof fn lemma_session_token_authenticates(
    secret: Seq<char>,
    req: &RequestModel,
    now: u64,
    handler_status: u16,
    calls_before: u64,
    calls_after: u64,
    log_before: Seq<LogEntry>,
    log_after: Seq<LogEntry>,
    out: PipelineOutcome,
    sub: Seq<char>,
    role: Seq<char>,
    exp: u64,
)
    requires
        !req.preflight,
        req.protected,
        req.spec_candidate_token() == Some(token_of(secret, sub, role, exp)),
        exp > now,
        pipeline_ensures(
            secret,
            req,
            now,
            handler_status,
            calls_before,
            calls_after,
            log_before,
            log_after,
            out,
        ),
    ensures
        out.handler_ran,
        out.status == handler_status,
        out.identity matches Some(ctx) && ctx.spec_claims().sub@ == sub && ctx.spec_claims().role@
            == role && ctx.spec_claims().exp == exp,
        calls_after == calls_before + 1,
{
    assert(token_of(secret, sub, role, exp) == token_of(secret, sub, role, exp));
}

} // verus!
