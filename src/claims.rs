//! Identity claims and the signed bearer tokens that carry them.
//!
//! A token is a JWT signed with HMAC-SHA256 under a server-held secret. Its
//! payload is the JSON object
//! `{"sub":"<user id, hyphenated UUID>","exp":<unix seconds>,"username":<name as a JSON string>}`,
//! framed and read by this module (serde_json writes and reads the name);
//! the token layer checks the signature only, and expiry is decided here
//! against a caller-supplied clock value.
use crate::codec::{int_text, lemma_nat_text, nat_text, read_int, write_int};
use crate::session::{format_id, lemma_uuid_text_len, parse_id, uuid_text};
use crate::text::{owned, push_all};
use jsonwebtoken::errors::ErrorKind;
use jsonwebtoken::{Algorithm, DecodingKey, EncodingKey, Header, Validation};
use serde_json::value::RawValue;
use vstd::prelude::*;

verus! {

/// Seconds that a freshly issued token stays valid.
pub const TOKEN_VALIDITY_SECS: i64 = 86400;

/// The identity facts that a token asserts.
#[derive(Debug, Clone)]
pub struct Claims {
    /// Id of the user the token was issued to.
    pub sub: u128,
    pub username: String,
    /// Expiry, in seconds since the Unix epoch.
    pub exp: i64,
}

/// Why a token was not accepted, or could not be made.
#[derive(Debug, Clone, Copy, PartialEq, Eq, Structural)]
pub enum TokenError {
    /// The signature does not match the key.
    InvalidSignature,
    /// Correctly signed, but `exp` lies before the clock value.
    Expired,
    /// Not a token, or a payload that is not a claims object.
    Malformed,
    /// The signing layer refused to make a token.
    Creation,
}

/// The token that `jsonwebtoken` makes with the default HS256 header for a
/// JSON payload and an HMAC secret.
pub uninterp spec fn jwt_hs256(payload: Seq<char>, key: Seq<u8>) -> Seq<char>;

pub open spec fn sub_open() -> Seq<char> {
    seq!['{', '"', 's', 'u', 'b', '"', ':', '"']
}

pub open spec fn exp_open() -> Seq<char> {
    seq!['"', ',', '"', 'e', 'x', 'p', '"', ':']
}

pub open spec fn name_open() -> Seq<char> {
    seq![',', '"', 'u', 's', 'e', 'r', 'n', 'a', 'm', 'e', '"', ':']
}

pub open spec fn claims_close() -> Seq<char> {
    seq!['}']
}

/// The JSON string literal that serde_json writes for a text.
pub uninterp spec fn json_string(s: Seq<char>) -> Seq<char>;

/// The JSON payload that carries a set of claims.
pub open spec fn claims_text(sub: u128, username: Seq<char>, exp: i64) -> Seq<char> {
    sub_open() + uuid_text(sub) + exp_open() + int_text(exp as int) + name_open() + json_string(
        username,
    ) + claims_close()
}

/// Relies on `serde_json::to_string` of a `str`: the quoted, escaped JSON
/// string; serialising a string does not fail.
#[verifier::external_body]
fn json_quote(s: &str) -> (r: Option<String>)
    ensures
        r is Some,
        r matches Some(t) ==> t@ == json_string(s@),
{
    serde_json::to_string(s).ok()
}

/// Relies on `serde_json::from_str` into a `String`: a JSON string literal
/// that `to_string` wrote reads back as the text it was written from.
#[verifier::external_body]
fn json_unquote(t: &str) -> (r: Option<String>)
    ensures
        forall|u: Seq<char>| t@ == #[trigger] json_string(u) ==> r is Some && r->Some_0@ == u,
{
    serde_json::from_str::<String>(t).ok()
}

/// The claims `c` carry exactly these facts.
pub open spec fn claims_are(c: Claims, sub: u128, username: Seq<char>, exp: i64) -> bool {
    c.sub == sub && c.username@ == username && c.exp == exp
}

/// What checking a correctly signed payload gives at clock value `now`.
pub open spec fn accepted(r: Result<Claims, TokenError>, sub: u128, username: Seq<char>, exp: i64, now: i64) -> bool {
    if exp >= now {
        r matches Ok(c) && claims_are(c, sub, username, exp)
    } else {
        r == Err::<Claims, TokenError>(TokenError::Expired)
    }
}

/// The payload that `jsonwebtoken::decode` gives back for a token whose
/// HS256 signature checks under an HMAC secret, if it does.
pub uninterp spec fn jwt_payload(token: Seq<char>, key: Seq<u8>) -> Option<Seq<char>>;

/// A character of the URL-safe base64 alphabet.
pub open spec fn is_url_safe_char(c: char) -> bool {
    let u = c as u32;
    ||| 65 <= u <= 90
    ||| 97 <= u <= 122
    ||| 48 <= u <= 57
    ||| c == '-'
    ||| c == '_'
}

/// Three non-empty URL-safe base64 segments joined by dots.
pub open spec fn compact_token(t: Seq<char>) -> bool {
    exists|i: int, j: int|
        0 < i && i + 1 < j && j + 1 < t.len() && t[i] == '.' && t[j] == '.' && forall|k: int|
            0 <= k < t.len() && k != i && k != j ==> is_url_safe_char(#[trigger] t[k])
}

/// The text holds at least two dots, as every token does.
pub open spec fn has_two_dots(t: Seq<char>) -> bool {
    exists|i: int, j: int| 0 <= i < j < t.len() && t[i] == '.' && t[j] == '.'
}

/// Relies on `serde_json::value::RawValue::from_string`, to carry the
/// payload text unchanged, and `jsonwebtoken::encode` with
/// `Header::default()` (HS256) and `EncodingKey::from_secret`: the token is
/// the base64url header, payload and HMAC joined by dots; a claims payload
/// is valid JSON and HMAC signing does not fail, so it is always signed.
#[verifier::external_body]
fn jwt_sign(payload: &str, key: &[u8]) -> (r: Option<String>)
    ensures
        r matches Some(t) ==> t@ == jwt_hs256(payload@, key@) && compact_token(t@),
        (exists|sub: u128, name: Seq<char>, exp: i64| payload@ == #[trigger] claims_text(sub, name, exp)) ==> r is Some,
{
    match RawValue::from_string(payload.to_owned()) {
        Ok(raw) => jsonwebtoken::encode(&Header::default(), &raw, &EncodingKey::from_secret(key)).ok(),
        Err(_) => None,
    }
}

/// Relies on `jsonwebtoken::decode` into a `RawValue`, with
/// `DecodingKey::from_secret` and a validation that checks the HS256
/// signature and no claim, so the outcome depends on token and key alone.
/// A token that `encode` made from a claims payload under the same secret
/// gives that payload back; a text with fewer than two dots is refused as
/// no token at all.
#[verifier::external_body]
fn jwt_open(token: &str, key: &[u8]) -> (r: Result<String, TokenError>)
    ensures
        r matches Ok(p) ==> jwt_payload(token@, key@) == Some(p@),
        jwt_payload(token@, key@) is Some ==> r is Ok,
        r is Err ==> r->Err_0 == TokenError::InvalidSignature || r->Err_0 == TokenError::Malformed,
        forall|sub: u128, name: Seq<char>, exp: i64|
            token@ == #[trigger] jwt_hs256(claims_text(sub, name, exp), key@)
            ==> r is Ok && r->Ok_0@ == claims_text(sub, name, exp),
        !has_two_dots(token@) ==> r is Err && r->Err_0 == TokenError::Malformed,
{
    let mut validation = Validation::new(Algorithm::HS256);
    validation.validate_exp = false;
    validation.required_spec_claims.clear();
    match jsonwebtoken::decode::<Box<RawValue>>(token, &DecodingKey::from_secret(key), &validation) {
        Ok(data) => Ok(data.claims.get().to_owned()),
        Err(e) => match e.kind() {
            ErrorKind::InvalidSignature => Err(TokenError::InvalidSignature),
            _ => Err(TokenError::Malformed),
        },
    }
}

/// Relies on `chrono::Utc::now`: the current time in seconds since the Unix
/// epoch.
#[verifier::external_body]
pub(crate) fn now_timestamp() -> (r: i64) {
    chrono::Utc::now().timestamp()
}

/// Appends the JSON payload of `c`.
pub fn write_claims(c: &Claims, out: &mut String)
    ensures
        final(out)@ == old(out)@ + claims_text(c.sub, c.username@, c.exp),
{
    let ghost start = out@;
    let a = ['{', '"', 's', 'u', 'b', '"', ':', '"'];
    assert(a@ =~= sub_open());
    push_all(out, &a);
    let id = format_id(c.sub);
    out.append(id.as_str());
    let b = ['"', ',', '"', 'e', 'x', 'p', '"', ':'];
    assert(b@ =~= exp_open());
    push_all(out, &b);
    write_int(c.exp, out);
    let d = [',', '"', 'u', 's', 'e', 'r', 'n', 'a', 'm', 'e', '"', ':'];
    assert(d@ =~= name_open());
    push_all(out, &d);
    match json_quote(c.username.as_str()) {
        Some(name) => {
            out.append(name.as_str());
        },
        None => {},
    }
    let e = ['}'];
    assert(e@ =~= claims_close());
    push_all(out, &e);
    assert(out@ =~= start + claims_text(c.sub, c.username@, c.exp));
}

} // verus!

verus! {

/// Index of the first `ch` in `t` at or after `from`, or the length of `t`.
fn find_char(t: &str, from: usize, ch: char) -> (r: usize)
    requires
        from <= t@.len(),
    ensures
        from <= r <= t@.len(),
        forall|j: int| from <= j < r ==> t@[j] != ch,
        r < t@.len() ==> t@[r as int] == ch,
{
    let n = t.unicode_len();
    let mut i = from;
    while i < n
        invariant
            n == t@.len(),
            from <= i <= n,
            forall|j: int| from <= j < i ==> t@[j] != ch,
        decreases n - i,
    {
        if t.get_char(i) == ch {
            return i;
        }
        i = i + 1;
    }
    i
}

/// Where the parts of a claims payload stand.
proof fn lemma_claims_layout(sub: u128, name: Seq<char>, exp: i64)
    ensures
        ({
            let t = claims_text(sub, name, exp);
            let i = int_text(exp as int);
            let exp_end = 52 + i.len();
            &&& t.len() == exp_end + 12 + json_string(name).len() + 1
            &&& t.subrange(8, 44) == uuid_text(sub)
            &&& t.subrange(52, exp_end as int) == i
            &&& t[exp_end as int] == ','
            &&& (forall|j: int| 52 <= j < exp_end ==> t[j] != ',')
            &&& t.subrange(exp_end + 12int, t.len() - 1int) == json_string(name)
        }),
{
    let t = claims_text(sub, name, exp);
    let u = uuid_text(sub);
    let i = int_text(exp as int);
    let e = json_string(name);
    lemma_uuid_text_len(sub);
    let m: nat = if exp < 0 { (-exp) as nat } else { exp as nat };
    lemma_nat_text(m);
    assert(forall|j: int| 0 <= j < i.len() ==> i[j] != ',') by {
        if exp < 0 {
            assert forall|j: int| 0 <= j < i.len() implies i[j] != ',' by {
                if j > 0 {
                    assert(i[j] == nat_text(m)[j - 1]);
                }
            }
        }
    }
    let exp_end = 52 + i.len();
    let t1 = sub_open() + u;
    let t2 = t1 + exp_open();
    let t3 = t2 + i;
    let t4 = t3 + name_open();
    let t5 = t4 + e;
    assert(t == t5 + claims_close());
    assert(t.subrange(8, 44) =~= u);
    assert(t.subrange(52, exp_end as int) =~= i);
    assert(t[exp_end as int] == ',');
    assert forall|j: int| 52 <= j < exp_end implies t[j] != ',' by {
        assert(t[j] == i[j - 52]);
    }
    assert(t.subrange(exp_end + 12int, t.len() - 1int) =~= e);
}

/// Reads a claims payload. Exactly the texts that `write_claims` produces
/// are accepted, each giving back the claims it was written from.
pub fn read_claims(t: &str) -> (r: Option<Claims>)
    ensures
        r matches Some(c) ==> t@ == claims_text(c.sub, c.username@, c.exp),
        forall|sub: u128, name: Seq<char>, exp: i64| t@ == #[trigger] claims_text(sub, name, exp)
            ==> r is Some && claims_are(r->Some_0, sub, name, exp),
{
    let n = t.unicode_len();
    if n < 52 {
        proof {
            assert forall|s: u128, nm: Seq<char>, e: i64| t@ != #[trigger] claims_text(s, nm, e) by {
                lemma_claims_layout(s, nm, e);
            }
        }
        return None;
    }
    let exp_end = find_char(t, 52, ',');
    proof {
        assert forall|s: u128, nm: Seq<char>, e: i64| t@ == #[trigger] claims_text(s, nm, e) implies exp_end
            == 52 + int_text(e as int).len() by {
            lemma_claims_layout(s, nm, e);
            let k = 52 + int_text(e as int).len();
            if exp_end < k {
                assert(t@[exp_end as int] == ',');
            } else if exp_end > k {
                assert(t@[k as int] == ',');
            }
        }
    }
    if n - exp_end < 13 {
        proof {
            assert forall|s: u128, nm: Seq<char>, e: i64| t@ != #[trigger] claims_text(s, nm, e) by {
                lemma_claims_layout(s, nm, e);
            }
        }
        return None;
    }
    let sub_text = t.substring_char(8, 44);
    let exp_text = t.substring_char(52, exp_end);
    let name_text = t.substring_char(exp_end + 12, n - 1);
    let sub = parse_id(sub_text);
    let exp = read_int(exp_text);
    let name = json_unquote(name_text);
    let r = match (sub, exp, name) {
        (Some(s), Some(e), Some(nm)) => {
            let c = Claims { sub: s, username: nm, exp: e };
            let mut text = String::new();
            write_claims(&c, &mut text);
            if text == owned(t) {
                Some(c)
            } else {
                None
            }
        },
        _ => None,
    };
    proof {
        assert forall|s: u128, nm: Seq<char>, e: i64| t@ == #[trigger] claims_text(s, nm, e) implies r is Some
            && claims_are(r->Some_0, s, nm, e) by {
            lemma_claims_layout(s, nm, e);
            assert(sub_text@ == uuid_text(s));
            assert(exp_text@ == int_text(e as int));
            assert(name_text@ == json_string(nm));
        }
    }
    r
}

} // verus!

verus! {

/// Expiry of a token issued at `now`, capped at the largest timestamp.
pub open spec fn expiry_after(now: i64) -> i64 {
    if now > i64::MAX - TOKEN_VALIDITY_SECS {
        i64::MAX
    } else {
        (now + TOKEN_VALIDITY_SECS) as i64
    }
}

impl Claims {
    /// Claims for a user, valid for `TOKEN_VALIDITY_SECS` after `now`.
    pub fn expiring(sub: u128, username: String, now: i64) -> (r: Claims)
        ensures
            claims_are(r, sub, username@, expiry_after(now)),
    {
        let exp = if now > i64::MAX - TOKEN_VALIDITY_SECS {
            i64::MAX
        } else {
            now + TOKEN_VALIDITY_SECS
        };
        Claims { sub, username, exp }
    }

    /// Claims with no user name for the user `id`, valid for
    /// `TOKEN_VALIDITY_SECS` from the current time.
    pub fn new(id: u128) -> (r: Claims)
        ensures
            r.sub == id,
            r.username@ == Seq::<char>::empty(),
    {
        let now = now_timestamp();
        Claims::expiring(id, String::new(), now)
    }
}

/// What checking the signed payload `payload` at clock value `now` may
/// give: its claims when it is a claims object that has not expired,
/// `Expired` when it is one that has, and `Malformed` otherwise.
pub open spec fn payload_verdict(r: Result<Claims, TokenError>, payload: Seq<char>, now: i64) -> bool {
    &&& (r matches Ok(c) ==> payload == claims_text(c.sub, c.username@, c.exp) && c.exp >= now)
    &&& (r matches Err(e) ==> e == TokenError::Expired || e == TokenError::Malformed)
    &&& (r == Err::<Claims, TokenError>(TokenError::Expired) ==> exists|sub: u128, name: Seq<char>, exp: i64|
        payload == #[trigger] claims_text(sub, name, exp) && exp < now)
    &&& (forall|sub: u128, name: Seq<char>, exp: i64| payload == #[trigger] claims_text(sub, name, exp)
        ==> accepted(r, sub, name, exp, now))
}

/// Checks a payload whose signature was verified: it must be a claims
/// object, and its expiry must not lie before `now`.
pub fn check_claims(payload: &str, now: i64) -> (r: Result<Claims, TokenError>)
    ensures
        payload_verdict(r, payload@, now),
{
    match read_claims(payload) {
        Some(c) => {
            if c.exp < now {
                proof {
                    let w = (c.sub, c.username@, c.exp);
                    assert(payload@ == claims_text(w.0, w.1, w.2) && w.2 < now);
                }
                Err(TokenError::Expired)
            } else {
                Ok(c)
            }
        },
        None => Err(TokenError::Malformed),
    }
}

/// Signs the claims `c` into a token under the secret `key`. Signing
/// always succeeds, and the same claims and key always give the same token.
pub fn generate_jwt(c: &Claims, key: &[u8]) -> (r: Result<String, TokenError>)
    ensures
        r is Ok,
        r matches Ok(t) ==> t@ == jwt_hs256(claims_text(c.sub, c.username@, c.exp), key@) && compact_token(t@),
{
    let mut payload = String::new();
    write_claims(c, &mut payload);
    assert(payload@ == claims_text(c.sub, c.username@, c.exp));
    match jwt_sign(payload.as_str(), key) {
        Some(t) => Ok(t),
        None => Err(TokenError::Creation),
    }
}

/// Signs fresh claims for the user `id` (see `Claims::new`).
pub fn sign_jwt(id: u128, key: &[u8]) -> (r: Result<String, TokenError>)
    ensures
        r is Ok,
        r matches Ok(t) ==> compact_token(t@) && exists|exp: i64|
            t@ == #[trigger] jwt_hs256(claims_text(id, Seq::<char>::empty(), exp), key@),
{
    let c = Claims::new(id);
    generate_jwt(&c, key)
}

/// Verifies a token under the secret `key` at clock value `now`: the
/// signature first, then the payload, then the expiry. A token issued by
/// `generate_jwt` under the same key gives back its claims while they have
/// not expired, and `Expired` afterwards; claims are only ever returned
/// from a payload whose signature checks.
pub fn verify_jwt(token: &str, key: &[u8], now: i64) -> (r: Result<Claims, TokenError>)
    ensures
        forall|sub: u128, name: Seq<char>, exp: i64|
            token@ == #[trigger] jwt_hs256(claims_text(sub, name, exp), key@)
            ==> accepted(r, sub, name, exp, now),
        match jwt_payload(token@, key@) {
            Some(p) => payload_verdict(r, p, now),
            None => r == Err::<Claims, TokenError>(TokenError::InvalidSignature) || r == Err::<Claims, TokenError>(TokenError::Malformed),
        },
        !has_two_dots(token@) ==> r == Err::<Claims, TokenError>(TokenError::Malformed),
        r matches Ok(c) ==> c.exp >= now,
{
    match jwt_open(token, key) {
        Ok(payload) => check_claims(payload.as_str(), now),
        Err(e) => Err(e),
    }
}

/// The body that answers a successful token login.
#[derive(Debug, Clone)]
pub struct AuthBody {
    pub access_token: String,
    pub token_type: String,
}

impl AuthBody {
    /// A bearer-token answer carrying `access_token`.
    pub fn new(access_token: String) -> (r: AuthBody)
        ensures
            r.access_token@ == access_token@,
            r.token_type@ == seq!['B', 'e', 'a', 'r', 'e', 'r'],
    {
        let mut token_type = String::new();
        let kind = ['B', 'e', 'a', 'r', 'e', 'r'];
        assert(kind@ =~= seq!['B', 'e', 'a', 'r', 'e', 'r']);
        push_all(&mut token_type, &kind);
        AuthBody { access_token, token_type }
    }
}

} // verus!
