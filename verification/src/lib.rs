//! Request authentication and session pipeline.
//!
//! The crate issues and validates signed, time-bounded bearer tokens,
//! keeps small per-browser-session state in a cookie-backed store, and
//! composes the request interceptors (logging, CORS, session attachment,
//! authentication) that guard protected route groups.  Signing and
//! signature checking are delegated to the `jsonwebtoken` crate behind a
//! small set of trusted declarations; everything around those calls —
//! configuration validation, expiry checking, credential extraction and
//! precedence, short-circuiting, and the session map — is verified.

pub mod auth;
pub mod config;
mod errors;
pub mod jwt;
pub mod pipeline;
pub mod post;
pub mod session;
pub mod tag;
pub mod text;
pub mod user;

pub use auth::Authentication;
pub use auth::AuthenticationMiddleware;
pub use auth::IdentityContext;
pub use auth::Rejection;
pub use config::Config;
pub use errors::AuthError;
pub use errors::ConfigError;
pub use errors::SessionError;
pub use errors::SigningFailure;
pub use errors::VerifyFailure;
pub use jwt::Claims;
pub use pipeline::Logging;
pub use pipeline::LoggingMiddleware;
pub use session::CookieModel;
pub use session::SessionState;
