use auth_core::flash::{
    attach, genre_response, login_response, partition_response, person_response, read,
    signup_response, Level, SEE_OTHER,
};
use auth_core::session::{
    format_id, parse_id, Session, SessionError, SessionState, SessionStore,
};

#[test]
fn created_session_loads_until_it_expires() {
    let mut store = SessionStore::new();
    let id = store.create(1000, 60).unwrap();
    assert!(store.load(id, 1000).is_some());
    assert!(store.load(id, 1060).is_some());
    assert!(store.load(id, 1061).is_none());
    assert_eq!(store.state(id, 1060), SessionState::Active);
    assert_eq!(store.state(id, 1061), SessionState::Expired);
}

#[test]
fn invalidated_session_is_absent() {
    let mut store = SessionStore::new();
    let id = store.create(0, 3600).unwrap();
    let other = store.create(0, 3600).unwrap();
    store.invalidate(id);
    assert!(store.load(id, 1).is_none());
    assert_eq!(store.state(id, 1), SessionState::Absent);
    assert!(store.load(other, 1).is_some());
}

#[test]
fn taken_identifier_is_refused() {
    let mut store = SessionStore::new();
    assert!(store.insert_session(5, 10).is_ok());
    assert_eq!(store.insert_session(5, 20), Err(SessionError::IdTaken));
    assert_eq!(store.load(5, 0).unwrap().expires_at, 10);
}

#[test]
fn bag_values_are_kept_per_key() {
    let mut store = SessionStore::new();
    store.insert_session(1, 100).unwrap();
    assert!(store.set(1, "a", "x"));
    assert!(store.set(1, "b", "y"));
    assert!(store.set(1, "a", "z"));
    let s = store.load(1, 0).unwrap();
    assert_eq!(s.get("a").as_deref(), Some("z"));
    assert_eq!(s.get("b").as_deref(), Some("y"));
    assert_eq!(s.get("c"), None);
    assert!(!store.set(2, "a", "x"));
}

#[test]
fn bag_remove_and_clear() {
    let mut s = Session::new(1, 10);
    s.set("k", "v");
    s.set("j", "w");
    assert_eq!(s.remove("k").as_deref(), Some("v"));
    assert_eq!(s.get("k"), None);
    assert_eq!(s.get("j").as_deref(), Some("w"));
    assert_eq!(s.remove("k"), None);
    s.clear();
    assert_eq!(s.get("j"), None);
}

#[test]
fn cookie_text_round_trips() {
    let id: u128 = 0x0123_4567_89ab_cdef_0123_4567_89ab_cdef;
    let text = format_id(id);
    assert_eq!(text, "01234567-89ab-cdef-0123-456789abcdef");
    assert_eq!(parse_id(&text), Some(id));
    assert_eq!(parse_id("not-a-session"), None);
    let mut store = SessionStore::new();
    store.insert_session(id, 50).unwrap();
    assert!(store.load_cookie(&text, 50).is_some());
    assert!(store.load_cookie(&text, 51).is_none());
    assert!(store.load_cookie("garbage", 0).is_none());
}

#[test]
fn flash_is_read_exactly_once() {
    let mut s = Session::new(1, 10);
    attach(&mut s, Level::Success, "Saved.");
    let m = read(&mut s).unwrap();
    assert_eq!(m.level, Level::Success);
    assert_eq!(m.text, "Saved.");
    assert!(read(&mut s).is_none());
    assert!(read(&mut s).is_none());
}

#[test]
fn later_flash_replaces_a_pending_one() {
    let mut s = Session::new(1, 10);
    attach(&mut s, Level::Info, "first");
    attach(&mut s, Level::Error, "second");
    let m = read(&mut s).unwrap();
    assert_eq!((m.level, m.text.as_str()), (Level::Error, "second"));
    assert!(read(&mut s).is_none());
}

#[test]
fn flash_leaves_other_bag_entries_alone() {
    let mut s = Session::new(1, 10);
    s.set("user-id", "12");
    attach(&mut s, Level::Info, "");
    assert_eq!(read(&mut s).unwrap().text, "");
    assert_eq!(s.get("user-id").as_deref(), Some("12"));
}

#[test]
fn redirects_carry_a_flash_and_a_target() {
    let mut s = Session::new(1, 10);
    let r = login_response(&mut s, Level::Error, "Wrong password");
    assert_eq!((r.status, r.location.as_str()), (SEE_OTHER, "/auth/login"));
    assert_eq!(read(&mut s).unwrap().text, "Wrong password");
    let r = signup_response(&mut s, Level::Success, "ok");
    assert_eq!(r.location, "/auth/signup");
    let r = person_response(&mut s, Level::Success, "ok");
    assert_eq!(r.location, "/persons");
    let r = partition_response(&mut s, Level::Success, "ok");
    assert_eq!(r.location, "/partitions");
    let r = genre_response(&mut s, "added");
    assert_eq!(r.location, "/genres");
    let m = read(&mut s).unwrap();
    assert_eq!((m.level, m.text.as_str()), (Level::Info, "added"));
}

#[test]
fn only_the_canonical_identifier_text_is_read() {
    let id: u128 = 0x0123_4567_89ab_cdef_0123_4567_89ab_cdef;
    assert_eq!(parse_id("01234567-89ab-cdef-0123-456789abcdef"), Some(id));
    assert_eq!(parse_id("01234567-89AB-CDEF-0123-456789ABCDEF"), None);
    assert_eq!(parse_id("0123456789abcdef0123456789abcdef"), None);
    assert_eq!(parse_id("{01234567-89ab-cdef-0123-456789abcdef}"), None);
}

#[test]
fn sessions_can_be_taken_out_and_put_back() {
    let mut store = SessionStore::new();
    store.insert_session(9, 100).unwrap();
    let mut s = store.take(9).unwrap();
    assert!(store.load(9, 0).is_none());
    s.set("k", "v");
    store.put(s);
    assert_eq!(store.load(9, 0).unwrap().get("k").as_deref(), Some("v"));
    assert!(store.take(10).is_none());
}
