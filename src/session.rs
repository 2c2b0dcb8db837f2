//! Server-side sessions: opaque random identifiers, each with an expiry
//! and a small key-value bag.
//!
//! This is the in-process store; a durable backing keeps the same records
//! outside the process.
use crate::codec::hex_char;
use crate::text::owned;
use crate::users::str_eq;
use uuid::Uuid;
use vstd::prelude::*;

verus! {

broadcast use vstd::std_specs::hash::group_hash_axioms;

/// The `n` low hexadecimal digits of `x`, most significant first.
pub open spec fn hex_digits(x: nat, n: nat) -> Seq<char>
    decreases n,
{
    if n == 0 {
        seq![]
    } else {
        hex_digits(x / 16, (n - 1) as nat).push(hex_char(x % 16))
    }
}

/// The text form of an identifier: its 32 lowercase hexadecimal digits in
/// groups of 8-4-4-4-12 joined by hyphens.
pub open spec fn uuid_text(id: u128) -> Seq<char> {
    let h = hex_digits(id as nat, 32);
    h.subrange(0, 8) + seq!['-'] + h.subrange(8, 12) + seq!['-'] + h.subrange(12, 16) + seq!['-']
        + h.subrange(16, 20) + seq!['-'] + h.subrange(20, 32)
}

/// The text form of an identifier is 36 characters long.
pub proof fn lemma_uuid_text_len(id: u128)
    ensures
        uuid_text(id).len() == 36,
{
    lemma_hex_digits_len(id as nat, 32);
}

proof fn lemma_hex_digits_len(x: nat, n: nat)
    ensures
        hex_digits(x, n).len() == n,
    decreases n,
{
    if n > 0 {
        lemma_hex_digits_len(x / 16, (n - 1) as nat);
    }
}

/// Lengths of the spellings that the identifier parser reads: plain,
/// hyphenated, braced and URN.
pub open spec fn uuid_length(n: nat) -> bool {
    n == 32 || n == 36 || n == 38 || n == 45
}

/// Relies on `uuid::Uuid::new_v4`: a random identifier from the operating
/// system's source.
#[verifier::external_body]
pub(crate) fn random_id() -> (r: u128) {
    Uuid::new_v4().as_u128()
}

/// Relies on `uuid::Uuid::from_u128` and the hyphenated rendering of
/// `Uuid::to_string`.
#[verifier::external_body]
fn uuid_string(id: u128) -> (r: String)
    ensures
        r@ == uuid_text(id),
{
    Uuid::from_u128(id).to_string()
}

/// The text form of an identifier, as session cookies and messages carry
/// it.
pub fn format_id(id: u128) -> (r: String)
    ensures
        r@ == uuid_text(id),
{
    uuid_string(id)
}

/// Relies on `uuid::Uuid::parse_str`, which reads back the hyphenated
/// rendering (and other UUID spellings, all of them ASCII of 32, 36, 38 or
/// 45 characters); anything else is refused.
#[verifier::external_body]
fn parse_uuid(s: &str) -> (r: Option<u128>)
    ensures
        forall|id: u128| s@ == #[trigger] uuid_text(id) ==> r == Some(id),
        !uuid_length(s@.len()) ==> r is None,
{
    match Uuid::parse_str(s) {
        Ok(u) => Some(u.as_u128()),
        Err(_) => None,
    }
}

/// Value stored under `key` in a bag; later entries win.
pub open spec fn bag_get(b: Seq<(String, String)>, key: Seq<char>) -> Option<Seq<char>>
    decreases b.len(),
{
    if b.len() == 0 {
        None
    } else if b.last().0@ == key {
        Some(b.last().1@)
    } else {
        bag_get(b.drop_last(), key)
    }
}

/// One session record.
#[derive(Debug)]
pub struct Session {
    pub id: u128,
    /// Last instant (seconds since the Unix epoch) at which the session is
    /// still active.
    pub expires_at: i64,
    /// Key-value entries; a later entry for a key hides earlier ones.
    pub bag: Vec<(String, String)>,
}

/// Lifecycle state of a session identifier at a given instant.
#[derive(Debug, Clone, Copy, PartialEq, Eq, Structural)]
pub enum SessionState {
    Absent,
    Active,
    Expired,
}

impl Session {
    /// What the bag maps `key` to.
    pub open spec fn value(&self, key: Seq<char>) -> Option<Seq<char>> {
        bag_get(self.bag@, key)
    }

    /// A session with an empty bag.
    pub fn new(id: u128, expires_at: i64) -> (r: Session)
        ensures
            r.id == id,
            r.expires_at == expires_at,
            forall|k: Seq<char>| #[trigger] r.value(k) is None,
    {
        Session { id, expires_at, bag: Vec::new() }
    }

    /// Empties the bag.
    pub fn clear(&mut self)
        ensures
            final(self).id == old(self).id,
            final(self).expires_at == old(self).expires_at,
            forall|k: Seq<char>| #[trigger] final(self).value(k) is None,
    {
        self.bag = Vec::new();
    }

    /// The value stored under `key`.
    pub fn get(&self, key: &str) -> (r: Option<String>)
        ensures
            match self.value(key@) {
                Some(v) => r matches Some(s) && s@ == v,
                None => r is None,
            },
    {
        let mut i = self.bag.len();
        assert(self.bag@.subrange(0, i as int) =~= self.bag@);
        while i > 0
            invariant
                i <= self.bag@.len(),
                bag_get(self.bag@, key@) == bag_get(self.bag@.subrange(0, i as int), key@),
            decreases i,
        {
            let ghost p = self.bag@.subrange(0, i as int);
            assert(p.drop_last() =~= self.bag@.subrange(0, i as int - 1));
            if str_eq(self.bag[i - 1].0.as_str(), key) {
                return Some(self.bag[i - 1].1.clone());
            }
            i = i - 1;
        }
        assert(self.bag@.subrange(0, 0) =~= Seq::<(String, String)>::empty());
        None
    }

    /// Removes `key` from the bag, returning what it held.
    pub fn remove(&mut self, key: &str) -> (r: Option<String>)
        ensures
            final(self).id == old(self).id,
            final(self).expires_at == old(self).expires_at,
            final(self).value(key@) is None,
            forall|k: Seq<char>| k != key@ ==> #[trigger] final(self).value(k) == old(self).value(k),
            match old(self).value(key@) {
                Some(v) => r matches Some(s) && s@ == v,
                None => r is None,
            },
    {
        let r = self.get(key);
        let mut kept: Vec<(String, String)> = Vec::new();
        let mut i: usize = 0;
        while i < self.bag.len()
            invariant
                i <= self.bag@.len(),
                bag_get(kept@, key@) is None,
                forall|k: Seq<char>| k != key@ ==> #[trigger] bag_get(kept@, k) == bag_get(
                    self.bag@.subrange(0, i as int),
                    k,
                ),
            decreases self.bag@.len() - i,
        {
            let ghost p = self.bag@.subrange(0, i as int + 1);
            assert(p.drop_last() =~= self.bag@.subrange(0, i as int));
            if !str_eq(self.bag[i].0.as_str(), key) {
                let e = (self.bag[i].0.clone(), self.bag[i].1.clone());
                let ghost before = kept@;
                kept.push(e);
                assert(kept@.drop_last() =~= before);
                assert forall|k: Seq<char>| k != key@ implies #[trigger] bag_get(kept@, k) == bag_get(
                    p,
                    k,
                ) by {
                    assert(p.last() == self.bag@[i as int]);
                    assert(kept@.last() == p.last());
                    assert(bag_get(before, k) == bag_get(p.drop_last(), k));
                    assert(bag_get(kept@, k) == if kept@.last().0@ == k {
                        Some(kept@.last().1@)
                    } else {
                        bag_get(before, k)
                    });
                }
            } else {
                assert forall|k: Seq<char>| k != key@ implies #[trigger] bag_get(kept@, k) == bag_get(
                    p,
                    k,
                ) by {
                    assert(p.last() == self.bag@[i as int]);
                    assert(bag_get(p, k) == bag_get(p.drop_last(), k));
                }
            }
            i = i + 1;
        }
        assert(self.bag@.subrange(0, self.bag@.len() as int) =~= self.bag@);
        self.bag = kept;
        r
    }

    /// Stores `value` under `key`, replacing what was there.
    pub fn set(&mut self, key: &str, value: &str)
        ensures
            final(self).id == old(self).id,
            final(self).expires_at == old(self).expires_at,
            final(self).value(key@) == Some(value@),
            forall|k: Seq<char>| k != key@ ==> #[trigger] final(self).value(k) == old(self).value(k),
    {
        let _ = self.remove(key);
        let ghost mid = *self;
        let ghost before = self.bag@;
        let entry = (owned(key), owned(value));
        self.bag.push(entry);
        assert(self.bag@.drop_last() =~= before);
        assert(self.bag@.last() == entry);
        assert forall|k: Seq<char>| k != key@ implies #[trigger] self.value(k) == old(self).value(k) by {
            assert(mid.value(k) == old(self).value(k));
            assert(bag_get(self.bag@, k) == bag_get(before, k));
        }
    }
}

/// What `load` finds for `id` at instant `now` in a store whose records are
/// `m`.
pub open spec fn state_of(m: Map<u128, Session>, id: u128, now: i64) -> SessionState {
    if !m.contains_key(id) {
        SessionState::Absent
    } else if m[id].expires_at < now {
        SessionState::Expired
    } else {
        SessionState::Active
    }
}

/// Why a session could not be created.
#[derive(Debug, Clone, Copy, PartialEq, Eq, Structural)]
pub enum SessionError {
    /// The identifier drawn is in use already.
    IdTaken,
}

/// The sessions of this process, by identifier.
#[derive(Debug)]
pub struct SessionStore {
    sessions: std::collections::HashMap<u128, Session>,
}

impl SessionStore {
    pub closed spec fn view(&self) -> Map<u128, Session> {
        self.sessions@
    }

    /// A store without sessions.
    pub fn new() -> (r: SessionStore)
        ensures
            r.view() == Map::<u128, Session>::empty(),
    {
        SessionStore { sessions: std::collections::HashMap::new() }
    }

    /// Records a new session `id`, active until `expires_at`.
    pub fn insert_session(&mut self, id: u128, expires_at: i64) -> (r: Result<(), SessionError>)
        ensures
            old(self).view().contains_key(id) ==> r is Err && final(self).view() == old(self).view(),
            !old(self).view().contains_key(id) ==> r is Ok && final(self).view().dom()
                == old(self).view().dom().insert(id) && (forall|j: u128|
                j != id && old(self).view().contains_key(j) ==> #[trigger] final(self).view()[j]
                == old(self).view()[j]) && final(self).view()[id].id == id
                && final(self).view()[id].expires_at == expires_at && (forall|k: Seq<char>|
                #[trigger] final(self).view()[id].value(k) is None),
    {
        if self.sessions.contains_key(&id) {
            return Err(SessionError::IdTaken);
        }
        self.sessions.insert(id, Session::new(id, expires_at));
        Ok(())
    }

    /// Opens a session under a fresh random identifier, active for `ttl`
    /// seconds after `now` (or until the largest instant), and returns its
    /// identifier.
    pub fn create(&mut self, now: i64, ttl: u32) -> (r: Result<u128, SessionError>)
        ensures
            r matches Ok(id) ==> !old(self).view().contains_key(id) && final(self).view().dom()
                == old(self).view().dom().insert(id) && state_of(final(self).view(), id, now)
                == SessionState::Active && final(self).view()[id].expires_at == (if now > i64::MAX
                - ttl { i64::MAX as int } else { now + ttl }),
            r is Err ==> final(self).view() == old(self).view(),
            r is Err ==> old(self).view().dom().len() > 0,
    {
        let id = random_id();
        let expires_at = if now > i64::MAX - ttl as i64 {
            i64::MAX
        } else {
            now + ttl as i64
        };
        match self.insert_session(id, expires_at) {
            Ok(()) => Ok(id),
            Err(e) => {
                proof {
                    let d = old(self).view().dom();
                    assert(d.contains(id));
                    if d.len() == 0 {
                        d.lemma_len0_is_empty();
                    }
                }
                Err(e)
            },
        }
    }

    /// The lifecycle state of `id` at `now`.
    pub fn state(&self, id: u128, now: i64) -> (r: SessionState)
        ensures
            r == state_of(self.view(), id, now),
    {
        match self.sessions.get(&id) {
            None => SessionState::Absent,
            Some(s) => {
                if s.expires_at < now {
                    SessionState::Expired
                } else {
                    SessionState::Active
                }
            },
        }
    }

    /// Takes the record of `id` out of the store, to be changed and put
    /// back.
    pub fn take(&mut self, id: u128) -> (r: Option<Session>)
        ensures
            final(self).view() == old(self).view().remove(id),
            r is Some <==> old(self).view().contains_key(id),
            r matches Some(s) ==> s == old(self).view()[id],
    {
        self.sessions.remove(&id)
    }

    /// Stores `s` under its own identifier, replacing any record there.
    pub fn put(&mut self, s: Session)
        ensures
            final(self).view() == old(self).view().insert(s.id, s),
    {
        let id = s.id;
        self.sessions.insert(id, s);
    }

    /// The record of `id`, active or not.
    pub fn lookup(&self, id: u128) -> (r: Option<&Session>)
        ensures
            r is Some <==> self.view().contains_key(id),
            r matches Some(s) ==> *s == self.view()[id],
    {
        self.sessions.get(&id)
    }

    /// The session `id` if it is active at `now`; unknown and expired
    /// identifiers give nothing.
    pub fn load(&self, id: u128, now: i64) -> (r: Option<&Session>)
        ensures
            r is Some <==> state_of(self.view(), id, now) == SessionState::Active,
            r matches Some(s) ==> *s == self.view()[id],
    {
        match self.sessions.get(&id) {
            None => None,
            Some(s) => {
                if s.expires_at < now {
                    None
                } else {
                    Some(s)
                }
            },
        }
    }

    /// The session named by a cookie value, if that value is a session
    /// identifier and the session is active at `now`.
    pub fn load_cookie(&self, cookie: &str, now: i64) -> (r: Option<&Session>)
        ensures
            forall|id: u128| cookie@ == #[trigger] uuid_text(id) ==> (r is Some <==> state_of(
                self.view(),
                id,
                now,
            ) == SessionState::Active),
            r matches Some(s) ==> exists|id: u128|
                cookie@ == #[trigger] uuid_text(id) && state_of(self.view(), id, now) == SessionState::Active
                    && *s == self.view()[id],
            !uuid_length(cookie@.len()) ==> r is None,
    {
        match parse_id(cookie) {
            Some(id) => self.load(id, now),
            None => None,
        }
    }

    /// Ends the session `id`; later loads of it find nothing.
    pub fn invalidate(&mut self, id: u128)
        ensures
            final(self).view() == old(self).view().remove(id),
    {
        let _ = self.sessions.remove(&id);
    }

    /// Stores `value` under `key` in the session `id`; false when there is
    /// no such session.
    pub fn set(&mut self, id: u128, key: &str, value: &str) -> (r: bool)
        ensures
            r == old(self).view().contains_key(id),
            final(self).view().dom() == old(self).view().dom(),
            forall|j: u128| j != id && old(self).view().contains_key(j) ==> #[trigger] final(self).view()[j] == old(self).view()[j],
            r ==> final(self).view()[id].value(key@) == Some(value@),
            r ==> final(self).view()[id].expires_at == old(self).view()[id].expires_at,
            r ==> forall|k: Seq<char>| k != key@ ==> #[trigger] final(self).view()[id].value(k) == old(self).view()[id].value(k),
    {
        match self.sessions.remove(&id) {
            None => false,
            Some(mut s) => {
                s.set(key, value);
                self.sessions.insert(id, s);
                assert(final(self).view().dom() =~= old(self).view().dom());
                true
            },
        }
    }
}

} // verus!

verus! {

/// Once a session is invalidated, loading its identifier finds nothing,
/// whatever the instant.
pub proof fn lemma_invalidated_is_absent(m: Map<u128, Session>, id: u128, now: i64)
    ensures
        state_of(m.remove(id), id, now) == SessionState::Absent,
{
}

} // verus!

verus! {

/// Reads an identifier from its text form (as `format_id` writes it);
/// any other text is refused.
pub fn parse_id(text: &str) -> (r: Option<u128>)
    ensures
        forall|id: u128| text@ == #[trigger] uuid_text(id) ==> r == Some(id),
        r matches Some(id) ==> text@ == uuid_text(id),
        !uuid_length(text@.len()) ==> r is None,
{
    match parse_uuid(text) {
        Some(id) => {
            let formatted = format_id(id);
            if str_eq(formatted.as_str(), text) {
                Some(id)
            } else {
                None
            }
        },
        None => None,
    }
}

} // verus!
