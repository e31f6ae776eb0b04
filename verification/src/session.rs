//! The cookie-backed session store.
//!
//! A session is a small mapping of string keys to string values — here,
//! one fixed key holding the current bearer token — kept in a signed and
//! encrypted cookie scoped to the browser session.  This module holds the
//! verified in-process model of that mapping: what `set` and `get` do to
//! it, and the round-trip law.  Attaching the mapping to the outgoing
//! response and decoding it from the inbound cookie is transport work and
//! lives outside the library; a missing or corrupt cookie simply yields
//! an empty mapping, never an error.

use vstd::hash_map::StringHashMap;
use vstd::prelude::*;

use crate::errors::SessionError;

verus! {

/// The fixed session key under which the current bearer token is stored.
/// The session schema is deliberately small: this is its only key.
pub open spec fn spec_token_key() -> Seq<char> {
    "token"@
}

/// The typed shape of the session contents: the current bearer token.
#[derive(Debug)]
pub struct CookieModel {
    /// The bearer token stored in the session.
    pub token: String,
}

/// Per-request view of the session: the key/value state decoded from the
/// inbound cookie, plus any writes made while handling the request.  Its
/// mathematical view is the map of string keys to string values.
pub struct SessionState {
    values: StringHashMap<String>,
}

impl View for SessionState {
    type V = Map<Seq<char>, Seq<char>>;

    closed spec fn view(&self) -> Map<Seq<char>, Seq<char>> {
        Map::new(
            |k: Seq<char>| self.values@.contains_key(k),
            |k: Seq<char>| self.values@[k]@,
        )
    }
}

impl SessionState {
    /// An empty session: what a request without a cookie, or with a
    /// cookie that fails to decode, starts from.
    pub fn new() -> (r: SessionState)
        ensures
            r@ == Map::<Seq<char>, Seq<char>>::empty(),
    {
        let r = SessionState { values: StringHashMap::new() };
        proof {
            assert(r@ =~= Map::<Seq<char>, Seq<char>>::empty());
        }
        r
    }

    /// Reads the value stored under `key`; absence is not an error.
    pub fn get(&self, key: &str) -> (r: Option<String>)
        ensures
            match r {
                Some(v) => self@.contains_key(key@) && v@ == self@[key@],
                None => !self@.contains_key(key@),
            },
    {
        match self.values.get(key) {
            Some(v) => Some(v.clone()),
            None => None,
        }
    }

    /// Stores `value` under `key`, replacing any previous value.  The
    /// write affects only this request's outgoing state; encoding it into
    /// the cookie is the transport's business, and a failure there is
    /// reported by the transport as [`SessionError::EncodeFailure`].
    pub fn set(&mut self, key: &str, value: &str) -> (r: Result<(), SessionError>)
        ensures
            r is Ok,
            final(self)@ == old(self)@.insert(key@, value@),
    {
        self.values.insert(key.to_owned(), value.to_owned());
        proof {
            assert(final(self)@ =~= old(self)@.insert(key@, value@));
        }
        Ok(())
    }

    /// The number of keys in the session.
    pub fn len(&self) -> (r: usize)
        ensures
            r == self@.dom().len(),
    {
        proof {
            assert(self@.dom() =~= self.values@.dom());
        }
        self.values.len()
    }
}

/// Stores a value in the session under the given key (the historical
/// free-function shape of [`SessionState::set`]).
pub fn set_session(session: &mut SessionState, key: &str, data: &str) -> (r: Result<
    (),
    SessionError,
>)
    ensures
        r is Ok,
        final(session)@ == old(session)@.insert(key@, data@),
{
    session.set(key, data)
}

/// Round trip: a value stored under a key is exactly what a read of that
/// key sees before the cookie leaves the process, whatever the session
/// held before.
pub proof fn lemma_session_round_trip(m: Map<Seq<char>, Seq<char>>, key: Seq<char>, value: Seq<
    char,
>)
    ensures
        m.insert(key, value).contains_key(key),
        m.insert(key, value)[key] == value,
{
}

} // verus!
