//! Error taxonomy of the authentication pipeline.
//!
//! `ConfigError` is fatal and raised once at startup; `AuthError` is
//! per-request and always recovered into a rejection response;
//! `SessionError` is raised by the session store.  A decode failure on a
//! session read degrades to "value absent", while an encode failure on a
//! write surfaces to the caller.

use vstd::prelude::*;

verus! {

/// Startup configuration failure: the process refuses to start on either.
#[derive(Debug, Clone, Copy, PartialEq, Eq, Structural)]
pub enum ConfigError {
    /// A required configuration variable is absent.
    MissingVar,
    /// A configuration variable is present but cannot be read as the
    /// required type (here: the token lifetime as a positive integer).
    ParseFailure,
}

/// Per-request authentication failure; every variant is recovered into a
/// 401 rejection by the interceptor and never propagated further.
#[derive(Debug, Clone, Copy, PartialEq, Eq, Structural)]
pub enum AuthError {
    /// Neither the session nor the Authorization header supplied a token.
    Missing,
    /// The candidate token cannot be parsed as a token at all.
    Malformed,
    /// The token parses but its signature does not match the process secret.
    SignatureInvalid,
    /// The token is structurally valid and correctly signed, but past expiry.
    Expired,
}

/// Session store failure.
#[derive(Debug, Clone, Copy, PartialEq, Eq, Structural)]
pub enum SessionError {
    /// A value could not be encoded into the outgoing cookie.
    EncodeFailure,
    /// The inbound cookie could not be decoded.  On reads this is degraded
    /// to "no value" rather than surfaced.
    DecodeFailure,
}

/// Token issuance failure: an encoding or cryptographic error inside the
/// signing call.  Issuance never fails on input shape.
#[derive(Debug, Clone, Copy, PartialEq, Eq, Structural)]
pub struct SigningFailure;

/// Outcome of the raw signature check, before expiry is considered.
#[derive(Debug, Clone, Copy, PartialEq, Eq, Structural)]
pub enum VerifyFailure {
    /// The candidate does not have the structure of a token.
    BadStructure,
    /// The token structure is fine but the signature does not match.
    BadSignature,
}

impl AuthError {
    /// The short diagnostic carried by a 401 rejection for this reason.
    pub open spec fn spec_message(self) -> Seq<char> {
        match self {
            AuthError::Missing => "missing credentials"@,
            AuthError::Malformed => "malformed token"@,
            AuthError::SignatureInvalid => "invalid signature"@,
            AuthError::Expired => "token expired"@,
        }
    }

    /// Renders the diagnostic named by the variant.
    pub fn message(&self) -> (r: String)
        ensures
            r@ == self.spec_message(),
    {
        match self {
            AuthError::Missing => "missing credentials".to_owned(),
            AuthError::Malformed => "malformed token".to_owned(),
            AuthError::SignatureInvalid => "invalid signature".to_owned(),
            AuthError::Expired => "token expired".to_owned(),
        }
    }
}

} // verus!
