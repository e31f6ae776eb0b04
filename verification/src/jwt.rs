//! Token issuance and validation.
//!
//! A bearer token is a signed, self-contained credential encoding a
//! subject, a role, and an absolute expiry.  Signing and signature
//! checking are delegated to the `jsonwebtoken` crate with the one fixed
//! algorithm (HS256); the token produced for a given secret and claim
//! triple is named by the spec function [`token_of`].  Expiry is *not*
//! checked by the decoding call: it is checked here, in verified code,
//! against a caller-supplied clock value, so the whole accept/reject
//! decision — expiry, precedence of errors, claim recovery — is verified.

use jsonwebtoken::errors::ErrorKind::InvalidSignature;
use jsonwebtoken::{decode, encode, Algorithm, DecodingKey, EncodingKey, Header, Validation};
use serde_json::Value;
use vstd::prelude::*;

use crate::config::Config;
use crate::errors::AuthError;
use crate::errors::SigningFailure;
use crate::errors::VerifyFailure;

verus! {

/// The decoded identity payload carried by a bearer token.  Claims are
/// immutable once issued; a new token must be minted to change them.
#[derive(Debug)]
pub struct Claims {
    /// Opaque subject identifier (the user id).
    pub sub: String,
    /// Role tag.
    pub role: String,
    /// Absolute expiry, in seconds since the Unix epoch.
    pub exp: u64,
}

impl Clone for Claims {
    /// Clones the claims, field for field.
    fn clone(&self) -> (r: Self)
        ensures
            r == *self,
    {
        Claims { sub: self.sub.clone(), role: self.role.clone(), exp: self.exp }
    }
}

/// The token that HS256 signing produces for a secret and a claim
/// triple.  The encoding is deterministic, so the token is a function of
/// these arguments alone; what the string looks like is the signing
/// crate's business.  (The signing crate would let a process install a
/// different crypto provider; nothing in this program does, so the
/// default HMAC-SHA256 provider stands behind this name.)
pub uninterp spec fn token_of(secret: Seq<char>, sub: Seq<char>, role: Seq<char>, exp: u64) -> Seq<
    char,
>;

/// Relies on jsonwebtoken::encode with the default header (HS256) and a
/// claim object holding exactly the subject, role and expiry: the
/// resulting token is a deterministic function of the secret and the
/// claim triple, named `token_of`.  The call always succeeds: an HMAC
/// key accepts a secret of any length, serializing a string-keyed claim
/// object cannot error, and HMAC signing is infallible.
#[verifier::external_body]
fn hs256_sign(secret: &str, sub: &str, role: &str, exp: u64) -> (r: Result<String, SigningFailure>)
    ensures
        r is Ok,
        r matches Ok(t) ==> t@ == token_of(secret@, sub@, role@, exp),
{
    let mut claims = serde_json::Map::new();
    claims.insert("sub".to_owned(), Value::from(sub));
    claims.insert("role".to_owned(), Value::from(role));
    claims.insert("exp".to_owned(), Value::from(exp));
    let key = EncodingKey::from_secret(secret.as_bytes());
    match encode(&Header::default(), &Value::Object(claims), &key) {
        Ok(token) => Ok(token),
        Err(_) => Err(SigningFailure),
    }
}

/// The full verdict of the restricted decode for a secret and a
/// candidate: the claim triple when the candidate is a well-formed HS256
/// token whose signature matches the secret, and otherwise which of the
/// two checks — structure or signature — it failed.  The decode is
/// deterministic, so the verdict is a function of these arguments alone.
pub uninterp spec fn verdict_of(secret: Seq<char>, token: Seq<char>) -> Result<
    (Seq<char>, Seq<char>, u64),
    VerifyFailure,
>;

/// The view of a raw signature-check result: the claim triple by views,
/// the failure as it stands.
pub open spec fn spec_verify_view(r: Result<(String, String, u64), VerifyFailure>) -> Result<
    (Seq<char>, Seq<char>, u64),
    VerifyFailure,
> {
    match r {
        Ok(c) => Ok((c.0@, c.1@, c.2)),
        Err(e) => Err(e),
    }
}

/// What the raw signature check promises of its result: any token that
/// signing with the same secret produced decodes to exactly the claim
/// triple that was signed.
pub open spec fn hs256_verify_ensures(
    secret: Seq<char>,
    token: Seq<char>,
    r: Result<(String, String, u64), VerifyFailure>,
) -> bool {
    forall|sub: Seq<char>, role: Seq<char>, exp: u64|
        token == #[trigger] token_of(secret, sub, role, exp) ==> (r matches Ok(c) && c.0@ == sub
            && c.1@ == role && c.2 == exp)
}

/// Relies on jsonwebtoken::decode restricted to HS256, with expiry
/// validation turned off (expiry is checked by the caller against an
/// injected clock): the outcome is the deterministic verdict named
/// `verdict_of` — a mismatched signature is reported as such, every
/// other failure is structural — and decoding with the signing secret
/// recovers exactly the claim triple that was signed.
#[verifier::external_body]
fn hs256_verify(secret: &str, token: &str) -> (r: Result<(String, String, u64), VerifyFailure>)
    ensures
        spec_verify_view(r) == verdict_of(secret@, token@),
        hs256_verify_ensures(secret@, token@, r),
{
    let mut v = Validation::new(Algorithm::HS256);
    v.validate_exp = false;
    v.required_spec_claims.clear();
    let key = DecodingKey::from_secret(secret.as_bytes());
    let data = match decode::<Value>(token, &key, &v) {
        Ok(d) => d.claims,
        Err(e) if matches!(e.kind(), InvalidSignature) => return Err(VerifyFailure::BadSignature),
        Err(_) => return Err(VerifyFailure::BadStructure),
    };
    match (data.get("sub").and_then(Value::as_str), data.get("role").and_then(Value::as_str), data.get("exp").and_then(Value::as_u64)) {
        (Some(s), Some(r), Some(e)) => Ok((s.to_owned(), r.to_owned(), e)),
        _ => Err(VerifyFailure::BadStructure),
    }
}

/// Relies on std::time::SystemTime::now, read relative to the Unix
/// epoch: seconds since the epoch by the system clock, with a clock that
/// reads before the epoch taken as the epoch (the one error
/// duration_since can report).  Nothing more is assumed of the value.
#[verifier::external_body]
fn current_unix_time() -> u64 {
    match std::time::SystemTime::now().duration_since(std::time::UNIX_EPOCH) {
        Ok(since_epoch) => since_epoch.as_secs(),
        Err(_) => 0,
    }
}

/// Issues a signed bearer token for the subject and role, expiring at
/// `now + cfg.jwt_expiration`.
///
/// Subject and role are free-form and never make issuance fail: it
/// succeeds exactly when the expiry is representable, and the token is
/// then a deterministic function of the secret and the claim triple.
pub fn issue(cfg: &Config, subject: &str, role: &str, now: u64) -> (r: Result<
    String,
    SigningFailure,
>)
    requires
        cfg.wf(),
    ensures
        r is Ok <==> now + cfg.jwt_expiration <= u64::MAX,
        r matches Ok(t) ==> t@ == token_of(
            cfg.jwt_secret@,
            subject@,
            role@,
            (now + cfg.jwt_expiration) as u64,
        ) && now < now + cfg.jwt_expiration,
{
    if now > u64::MAX - cfg.jwt_expiration {
        return Err(SigningFailure);
    }
    hs256_sign(cfg.jwt_secret.as_str(), subject, role, now + cfg.jwt_expiration)
}

/// What the validator decides once the signature check has spoken: a
/// recovered claim triple is accepted exactly when its expiry is still
/// in the future; a structural failure is a malformed token; a signature
/// mismatch is an invalid signature.
pub open spec fn spec_classify(
    decoded: Result<(String, String, u64), VerifyFailure>,
    now: u64,
) -> Result<Claims, AuthError> {
    match decoded {
        Ok(c) => if c.2 > now {
            Ok(Claims { sub: c.0, role: c.1, exp: c.2 })
        } else {
            Err(AuthError::Expired)
        },
        Err(VerifyFailure::BadStructure) => Err(AuthError::Malformed),
        Err(VerifyFailure::BadSignature) => Err(AuthError::SignatureInvalid),
    }
}

/// Turns the outcome of the raw signature check into the validator's
/// verdict, checking the expiry against the given clock value.
pub fn classify(decoded: Result<(String, String, u64), VerifyFailure>, now: u64) -> (r: Result<
    Claims,
    AuthError,
>)
    ensures
        r == spec_classify(decoded, now),
{
    match decoded {
        Ok(c) => if c.2 > now {
            Ok(Claims { sub: c.0, role: c.1, exp: c.2 })
        } else {
            Err(AuthError::Expired)
        },
        Err(VerifyFailure::BadStructure) => Err(AuthError::Malformed),
        Err(VerifyFailure::BadSignature) => Err(AuthError::SignatureInvalid),
    }
}

/// What validation promises.
///
/// A token produced by signing with the same secret is accepted exactly
/// when its expiry lies strictly after `now`, and then yields its own
/// claim triple.  Whatever the candidate was: accepted claims are never
/// expired, and a missing-credential error never arises here (that
/// distinction belongs to the interceptor, which knows whether a
/// candidate existed at all).
pub open spec fn validate_ensures(
    secret: Seq<char>,
    token: Seq<char>,
    now: u64,
    r: Result<Claims, AuthError>,
) -> bool {
    &&& forall|sub: Seq<char>, role: Seq<char>, exp: u64|
        token == #[trigger] token_of(secret, sub, role, exp) ==> if exp > now {
            r matches Ok(c) && c.sub@ == sub && c.role@ == role && c.exp == exp
        } else {
            r == Err::<Claims, AuthError>(AuthError::Expired)
        }
    &&& (r matches Ok(c) ==> c.exp > now)
    &&& (r matches Err(e) ==> e != AuthError::Missing)
}

/// What classification makes of each decode outcome: a recovered
/// triple is accepted with exactly its claims while unexpired and
/// rejected as expired afterwards; each failed check maps to its own
/// error.  The verdict is a function of secret and candidate alone, so
/// the whole result is a function of (secret, token, now): only a
/// candidate the signature check accepts is ever accepted, equal inputs
/// give equal answers, and — no revocation existing — an accepted token
/// stays accepted at any later clock value before its expiry.
pub open spec fn classify_matches_verdict(
    verdict: Result<(Seq<char>, Seq<char>, u64), VerifyFailure>,
    now: u64,
    r: Result<Claims, AuthError>,
) -> bool {
    match verdict {
        Ok(t) => if t.2 > now {
            r matches Ok(c) && c.sub@ == t.0 && c.role@ == t.1 && c.exp == t.2
        } else {
            r == Err::<Claims, AuthError>(AuthError::Expired)
        },
        Err(VerifyFailure::BadStructure) => r == Err::<Claims, AuthError>(AuthError::Malformed),
        Err(VerifyFailure::BadSignature) => r == Err::<Claims, AuthError>(
            AuthError::SignatureInvalid,
        ),
    }
}

/// Validates a candidate token at the given clock value: checks the
/// signature against the process secret with the one fixed algorithm,
/// recovers the claims, and rejects an expiry at or before `now`.  The
/// result follows the decode verdict exactly, so success
/// comes only of a well-formed, correctly signed, unexpired token.
pub fn validate(cfg: &Config, token: &str, now: u64) -> (r: Result<Claims, AuthError>)
    ensures
        validate_ensures(cfg.jwt_secret@, token@, now, r),
        classify_matches_verdict(verdict_of(cfg.jwt_secret@, token@), now, r),
{
    let decoded = hs256_verify(cfg.jwt_secret.as_str(), token);
    classify(decoded, now)
}

/// For every subject and role, validating a freshly issued token at the
/// time of issuance succeeds and recovers exactly that subject and role,
/// with an expiry strictly in the future.
pub proof fn lemma_issue_then_validate(
    secret: Seq<char>,
    sub: Seq<char>,
    role: Seq<char>,
    ttl: u64,
    now: u64,
    r: Result<Claims, AuthError>,
)
    requires
        1 <= ttl,
        now + ttl <= u64::MAX,
        validate_ensures(secret, token_of(secret, sub, role, (now + ttl) as u64), now, r),
    ensures
        r matches Ok(c) && c.sub@ == sub && c.role@ == role && c.exp == now + ttl && c.exp > now,
{
    let exp = (now + ttl) as u64;
    assert(token_of(secret, sub, role, exp) == token_of(secret, sub, role, exp));
}

/// No revocation exists: a candidate that validation accepted at one
/// clock value is accepted again, with the same claims, at every clock
/// value up to the expiry — whatever the candidate was, since the decode
/// verdict it follows does not depend on the clock.
pub proof fn lemma_accepted_until_expiry(
    verdict: Result<(Seq<char>, Seq<char>, u64), VerifyFailure>,
    n1: u64,
    n2: u64,
    c: Claims,
    r1: Result<Claims, AuthError>,
    r2: Result<Claims, AuthError>,
)
    requires
        classify_matches_verdict(verdict, n1, r1),
        classify_matches_verdict(verdict, n2, r2),
        r1 == Ok::<Claims, AuthError>(c),
        n1 <= n2 < c.exp,
    ensures
        r2 matches Ok(c2) && c2.sub@ == c.sub@ && c2.role@ == c.role@ && c2.exp == c.exp,
{
}

/// A token whose expiry has elapsed validates to `Expired`, never to
/// success: at any clock value at or past the expiry that was signed
/// into the token, validation with the signing secret rejects it.
pub proof fn lemma_expired_never_validates(
    secret: Seq<char>,
    sub: Seq<char>,
    role: Seq<char>,
    exp: u64,
    later: u64,
    r: Result<Claims, AuthError>,
)
    requires
        later >= exp,
        validate_ensures(secret, token_of(secret, sub, role, exp), later, r),
    ensures
        r == Err::<Claims, AuthError>(AuthError::Expired),
{
    assert(token_of(secret, sub, role, exp) == token_of(secret, sub, role, exp));
}

/// Issues a token for the subject and role with the expiry taken from
/// the system clock plus the configured lifetime.  Fails only when that
/// expiry cannot be represented, never on input shape.
pub fn create_jwt(cfg: &Config, user_id: &str, role: &str) -> (r: Result<String, SigningFailure>)
    requires
        cfg.wf(),
    ensures
        r matches Ok(t) ==> exists|exp: u64| t@ == token_of(cfg.jwt_secret@, user_id@, role@, exp),
{
    let now = current_unix_time();
    let r = issue(cfg, user_id, role, now);
    proof {
        match &r {
            Ok(t) => {
                assert(t@ == token_of(
                    cfg.jwt_secret@,
                    user_id@,
                    role@,
                    (now + cfg.jwt_expiration) as u64,
                ));
            },
            Err(_) => {},
        }
    }
    r
}

/// Validates a token against the system clock.  Whatever the clock read:
/// a token the process secret signed yields exactly its own claims or
/// the expiry rejection, and anything accepted carries exactly the claim
/// triple that the decode verdict recovered.
pub fn decode_jwt(cfg: &Config, token: &str) -> (r: Result<Claims, AuthError>)
    ensures
        forall|sub: Seq<char>, role: Seq<char>, exp: u64|
            token@ == #[trigger] token_of(cfg.jwt_secret@, sub, role, exp) ==> ((r matches Ok(c)
                && c.sub@ == sub && c.role@ == role && c.exp == exp) || r == Err::<
                Claims,
                AuthError,
            >(AuthError::Expired)),
        r matches Ok(c) ==> verdict_of(cfg.jwt_secret@, token@) == Ok::<
            (Seq<char>, Seq<char>, u64),
            VerifyFailure,
        >((c.sub@, c.role@, c.exp)),
        r matches Err(e) ==> e != AuthError::Missing,
{
    let now = current_unix_time();
    validate(cfg, token, now)
}

} // verus!
