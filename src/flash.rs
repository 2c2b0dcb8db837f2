//! One-shot flash messages, carried in the session bag from the response
//! that sets one to the next request that reads it.
use crate::session::Session;
use crate::text::{push_all, push_char};
use vstd::prelude::*;

verus! {

/// Severity of a flash message.
#[derive(Debug, Clone, Copy, PartialEq, Eq, Structural)]
pub enum Level {
    Info,
    Success,
    Error,
}

/// A flash message.
#[derive(Debug)]
pub struct FlashMessage {
    pub level: Level,
    pub text: String,
}

/// The bag key under which the pending message is kept.
pub open spec fn flash_key() -> Seq<char> {
    seq!['_', 'f', 'l', 'a', 's', 'h']
}

pub open spec fn level_tag(level: Level) -> char {
    match level {
        Level::Info => 'i',
        Level::Success => 's',
        Level::Error => 'e',
    }
}

/// Stored form of a message: its level tag, then its text.
pub open spec fn flash_text(level: Level, text: Seq<char>) -> Seq<char> {
    seq![level_tag(level)] + text
}

/// The message that a stored form stands for.
pub open spec fn decode_flash(t: Seq<char>) -> Option<(Level, Seq<char>)> {
    if t.len() == 0 {
        None
    } else if t[0] == 'i' {
        Some((Level::Info, t.drop_first()))
    } else if t[0] == 's' {
        Some((Level::Success, t.drop_first()))
    } else if t[0] == 'e' {
        Some((Level::Error, t.drop_first()))
    } else {
        None
    }
}

/// What reading the flash channel of a session gives.
pub open spec fn pending_flash(s: Session) -> Option<(Level, Seq<char>)> {
    match s.value(flash_key()) {
        Some(t) => decode_flash(t),
        None => None,
    }
}

fn flash_key_str() -> (r: String)
    ensures
        r@ == flash_key(),
{
    let mut k = String::new();
    let chars = ['_', 'f', 'l', 'a', 's', 'h'];
    assert(chars@ =~= flash_key());
    push_all(&mut k, &chars);
    k
}

/// Leaves `text` at `level` for the next request of this session,
/// replacing a message still pending.
pub fn attach(session: &mut Session, level: Level, text: &str)
    ensures
        final(session).id == old(session).id,
        final(session).expires_at == old(session).expires_at,
        pending_flash(*final(session)) == Some((level, text@)),
        forall|k: Seq<char>| k != flash_key() ==> #[trigger] final(session).value(k) == old(session).value(k),
{
    let mut stored = String::new();
    let tag = match level {
        Level::Info => 'i',
        Level::Success => 's',
        Level::Error => 'e',
    };
    push_char(&mut stored, tag);
    let mut i: usize = 0;
    let n = text.unicode_len();
    while i < n
        invariant
            n == text@.len(),
            i <= n,
            stored@ == seq![tag] + text@.subrange(0, i as int),
        decreases n - i,
    {
        push_char(&mut stored, text.get_char(i));
        assert(text@.subrange(0, i as int + 1) =~= text@.subrange(0, i as int).push(text@[i as int]));
        assert(stored@ =~= seq![tag] + text@.subrange(0, i as int + 1));
        i = i + 1;
    }
    assert(text@.subrange(0, n as int) =~= text@);
    assert(stored@.drop_first() =~= text@);
    let key = flash_key_str();
    session.set(key.as_str(), stored.as_str());
}

/// Takes the pending message of this session, if any; it is gone
/// afterwards.
pub fn read(session: &mut Session) -> (r: Option<FlashMessage>)
    ensures
        final(session).id == old(session).id,
        final(session).expires_at == old(session).expires_at,
        pending_flash(*final(session)) is None,
        forall|k: Seq<char>| k != flash_key() ==> #[trigger] final(session).value(k) == old(session).value(k),
        match pending_flash(*old(session)) {
            Some((level, text)) => r matches Some(m) && m.level == level && m.text@ == text,
            None => r is None,
        },
{
    let key = flash_key_str();
    match session.remove(key.as_str()) {
        None => None,
        Some(t) => {
            let n = t.unicode_len();
            if n == 0 {
                return None;
            }
            let c = t.get_char(0);
            let level = if c == 'i' {
                Level::Info
            } else if c == 's' {
                Level::Success
            } else if c == 'e' {
                Level::Error
            } else {
                return None;
            };
            let rest = t.as_str().substring_char(1, n);
            assert(rest@ =~= t@.drop_first());
            Some(FlashMessage { level, text: crate::text::owned(rest) })
        },
    }
}

/// A message attached to a session is what the next read returns, and a
/// read after that returns nothing until another is attached.
pub proof fn lemma_flash_exactly_once(attached: Session, after_read: Session, level: Level, text: Seq<char>)
    requires
        attached.value(flash_key()) == Some(flash_text(level, text)),
        after_read.value(flash_key()) is None,
    ensures
        pending_flash(attached) == Some((level, text)),
        pending_flash(after_read) is None,
{
    assert(flash_text(level, text).drop_first() =~= text);
}

/// An HTTP redirect: status code and target path.
#[derive(Debug)]
pub struct Redirect {
    pub status: u16,
    pub location: String,
}

/// HTTP status of the redirects below ("See Other").
pub const SEE_OTHER: u16 = 303;

fn redirect_after(session: &mut Session, level: Level, message: &str, path: &[char]) -> (r: Redirect)
    ensures
        final(session).id == old(session).id,
        final(session).expires_at == old(session).expires_at,
        forall|k: Seq<char>| k != flash_key() ==> #[trigger] final(session).value(k) == old(session).value(k),
        pending_flash(*final(session)) == Some((level, message@)),
        r.status == SEE_OTHER,
        r.location@ == path@,
{
    attach(session, level, message);
    let mut location = String::new();
    push_all(&mut location, path);
    Redirect { status: SEE_OTHER, location }
}

/// Flashes `message` and sends the client back to the musicians list.
pub fn person_response(session: &mut Session, level: Level, message: &str) -> (r: Redirect)
    ensures
        final(session).id == old(session).id,
        final(session).expires_at == old(session).expires_at,
        forall|k: Seq<char>| k != flash_key() ==> #[trigger] final(session).value(k) == old(session).value(k),
        pending_flash(*final(session)) == Some((level, message@)),
        r.status == SEE_OTHER,
        r.location@ == seq!['/', 'p', 'e', 'r', 's', 'o', 'n', 's'],
{
    let path = ['/', 'p', 'e', 'r', 's', 'o', 'n', 's'];
    assert(path@ =~= seq!['/', 'p', 'e', 'r', 's', 'o', 'n', 's']);
    redirect_after(session, level, message, &path)
}

/// Flashes `message` as information and sends the client back to the
/// genres list.
pub fn genre_response(session: &mut Session, message: &str) -> (r: Redirect)
    ensures
        final(session).id == old(session).id,
        final(session).expires_at == old(session).expires_at,
        forall|k: Seq<char>| k != flash_key() ==> #[trigger] final(session).value(k) == old(session).value(k),
        pending_flash(*final(session)) == Some((Level::Info, message@)),
        r.status == SEE_OTHER,
        r.location@ == seq!['/', 'g', 'e', 'n', 'r', 'e', 's'],
{
    let path = ['/', 'g', 'e', 'n', 'r', 'e', 's'];
    assert(path@ =~= seq!['/', 'g', 'e', 'n', 'r', 'e', 's']);
    redirect_after(session, Level::Info, message, &path)
}

/// Flashes `message` and sends the client back to the scores list.
pub fn partition_response(session: &mut Session, level: Level, message: &str) -> (r: Redirect)
    ensures
        final(session).id == old(session).id,
        final(session).expires_at == old(session).expires_at,
        forall|k: Seq<char>| k != flash_key() ==> #[trigger] final(session).value(k) == old(session).value(k),
        pending_flash(*final(session)) == Some((level, message@)),
        r.status == SEE_OTHER,
        r.location@ == seq!['/', 'p', 'a', 'r', 't', 'i', 't', 'i', 'o', 'n', 's'],
{
    let path = ['/', 'p', 'a', 'r', 't', 'i', 't', 'i', 'o', 'n', 's'];
    assert(path@ =~= seq!['/', 'p', 'a', 'r', 't', 'i', 't', 'i', 'o', 'n', 's']);
    redirect_after(session, level, message, &path)
}

/// Flashes `message` and sends the client back to the sign-up form.
pub fn signup_response(session: &mut Session, level: Level, message: &str) -> (r: Redirect)
    ensures
        final(session).id == old(session).id,
        final(session).expires_at == old(session).expires_at,
        forall|k: Seq<char>| k != flash_key() ==> #[trigger] final(session).value(k) == old(session).value(k),
        pending_flash(*final(session)) == Some((level, message@)),
        r.status == SEE_OTHER,
        r.location@ == seq!['/', 'a', 'u', 't', 'h', '/', 's', 'i', 'g', 'n', 'u', 'p'],
{
    let path = ['/', 'a', 'u', 't', 'h', '/', 's', 'i', 'g', 'n', 'u', 'p'];
    assert(path@ =~= seq!['/', 'a', 'u', 't', 'h', '/', 's', 'i', 'g', 'n', 'u', 'p']);
    redirect_after(session, level, message, &path)
}

/// Flashes `message` and sends the client back to the login form.
pub fn login_response(session: &mut Session, level: Level, message: &str) -> (r: Redirect)
    ensures
        final(session).id == old(session).id,
        final(session).expires_at == old(session).expires_at,
        forall|k: Seq<char>| k != flash_key() ==> #[trigger] final(session).value(k) == old(session).value(k),
        pending_flash(*final(session)) == Some((level, message@)),
        r.status == SEE_OTHER,
        r.location@ == seq!['/', 'a', 'u', 't', 'h', '/', 'l', 'o', 'g', 'i', 'n'],
{
    let path = ['/', 'a', 'u', 't', 'h', '/', 'l', 'o', 'g', 'i', 'n'];
    assert(path@ =~= seq!['/', 'a', 'u', 't', 'h', '/', 'l', 'o', 'g', 'i', 'n']);
    redirect_after(session, level, message, &path)
}

} // verus!
