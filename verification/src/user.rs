//! The user model and its request/response shapes.
//!
//! Identifiers are carried as their hexadecimal string form and
//! timestamps as milliseconds since the Unix epoch; storage and wire
//! encodings of either are the business of the surrounding application.

use vstd::prelude::*;

verus! {

/// Account standing of a user.
#[derive(Debug, Clone, Copy, PartialEq, Eq, Structural)]
pub enum Status {
    /// The account is in good standing.
    Active,
    /// The account is temporarily disabled.
    Suspended,
    /// The account has been removed.
    Deleted,
}

/// A stored user record.
#[derive(Debug)]
pub struct User {
    /// Identifier, as a hexadecimal string.
    pub id: String,
    /// Unique login name.
    pub username: String,
    /// Contact address.
    pub email: String,
    /// Password material; never exposed in responses.
    pub password: String,
    /// Optional avatar location.
    pub avatar: Option<String>,
    /// Optional profile text.
    pub bio: Option<String>,
    /// Number of followers.
    pub follower_count: i32,
    /// Number of accounts followed.
    pub following_count: i32,
    /// Whether the account is verified.
    pub is_verified: bool,
    /// Last login time, in milliseconds since the epoch.
    pub last_login: Option<i64>,
    /// Account standing.
    pub status: Status,
    /// Creation time, in milliseconds since the epoch.
    pub created_at: i64,
    /// Last modification time, in milliseconds since the epoch.
    pub updated_at: i64,
}

impl Default for User {
    /// A blank, active, unverified user with empty identifiers and
    /// epoch timestamps.
    fn default() -> (r: User)
        ensures
            r.id@ == Seq::<char>::empty(),
            r.username@ == Seq::<char>::empty(),
            r.email@ == Seq::<char>::empty(),
            r.password@ == Seq::<char>::empty(),
            r.avatar is None,
            r.bio is None,
            r.follower_count == 0,
            r.following_count == 0,
            !r.is_verified,
            r.last_login is None,
            r.status == Status::Active,
            r.created_at == 0,
            r.updated_at == 0,
    {
        User {
            id: String::new(),
            username: String::new(),
            email: String::new(),
            password: String::new(),
            avatar: None,
            bio: None,
            follower_count: 0,
            following_count: 0,
            is_verified: false,
            last_login: None,
            status: Status::Active,
            created_at: 0,
            updated_at: 0,
        }
    }
}

/// The outward-facing projection of a user: every stored field except
/// the password material.
#[derive(Debug)]
pub struct UserFilter {
    /// Identifier, as a hexadecimal string.
    pub id: String,
    /// Unique login name.
    pub username: String,
    /// Contact address.
    pub email: String,
    /// Optional avatar location.
    pub avatar: Option<String>,
    /// Optional profile text.
    pub bio: Option<String>,
    /// Number of followers.
    pub follower_count: i32,
    /// Number of accounts followed.
    pub following_count: i32,
    /// Whether the account is verified.
    pub is_verified: bool,
    /// Last login time, in milliseconds since the epoch.
    pub last_login: Option<i64>,
    /// Account standing.
    pub status: Status,
    /// Creation time, in milliseconds since the epoch.
    pub created_at: i64,
    /// Last modification time, in milliseconds since the epoch.
    pub updated_at: i64,
}

impl User {
    /// Projects a stored user onto its outward-facing shape: every field
    /// carries over unchanged, and the password material is dropped.
    pub fn to_user(user: User) -> (r: UserFilter)
        ensures
            r.id == user.id,
            r.username == user.username,
            r.email == user.email,
            r.avatar == user.avatar,
            r.bio == user.bio,
            r.follower_count == user.follower_count,
            r.following_count == user.following_count,
            r.is_verified == user.is_verified,
            r.last_login == user.last_login,
            r.status == user.status,
            r.created_at == user.created_at,
            r.updated_at == user.updated_at,
    {
        UserFilter {
            id: user.id,
            username: user.username,
            email: user.email,
            avatar: user.avatar,
            bio: user.bio,
            follower_count: user.follower_count,
            following_count: user.following_count,
            is_verified: user.is_verified,
            last_login: user.last_login,
            status: user.status,
            created_at: user.created_at,
            updated_at: user.updated_at,
        }
    }
}

/// Payload of a registration request.
#[derive(Debug)]
pub struct RegisterRequest {
    /// Requested login name.
    pub username: String,
    /// Chosen password, in the clear only within the request.
    pub password: String,
}

/// Payload of a login request.
#[derive(Debug)]
pub struct LoginRequest {
    /// Login name.
    pub username: String,
    /// Password to check.
    pub password: String,
}

} // verus!
