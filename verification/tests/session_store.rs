//! The session store model.

use auth_core::session::{set_session, SessionState};

#[test]
fn set_then_get_round_trips() {
    let mut session = SessionState::new();
    session
        .set("token", "eyJhbGciOiJIUzI1NiJ9.x.y")
        .expect("setting a session value succeeds");
    assert_eq!(
        session.get("token"),
        Some("eyJhbGciOiJIUzI1NiJ9.x.y".to_owned())
    );
}

#[test]
fn absent_keys_read_as_nothing() {
    let session = SessionState::new();
    assert_eq!(session.get("token"), None);
    assert_eq!(session.get(""), None);
}

#[test]
fn set_replaces_the_previous_value() {
    let mut session = SessionState::new();
    session.set("token", "first").expect("set succeeds");
    session.set("token", "second").expect("set succeeds");
    assert_eq!(session.get("token"), Some("second".to_owned()));
    assert_eq!(session.len(), 1);
}

#[test]
fn keys_are_independent() {
    let mut session = SessionState::new();
    session.set("token", "t").expect("set succeeds");
    session.set("message", "m").expect("set succeeds");
    assert_eq!(session.get("token"), Some("t".to_owned()));
    assert_eq!(session.get("message"), Some("m".to_owned()));
    assert_eq!(session.len(), 2);
}

#[test]
fn set_session_is_the_free_function_shape() {
    let mut session = SessionState::new();
    set_session(&mut session, "token", "T").expect("set succeeds");
    assert_eq!(session.get("token"), Some("T".to_owned()));
}
