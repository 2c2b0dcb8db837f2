//! The composition point: sign-up and login against the credential store,
//! and turning a request's credentials back into an identity.
use crate::claims::{
    claims_are, claims_text, generate_jwt, has_two_dots, jwt_hs256, jwt_payload, verify_jwt, AuthBody,
    Claims,
};
use crate::codec::{lemma_nat_text, nat_text, read_digits, write_nat};
use crate::password::{
    hash_password, is_digest_of, phc_check, phc_of, verify_password, HashAlgorithm, PasswordCheck,
    MAX_PASSWORD_CHARS,
};
use crate::session::{
    random_id, parse_id, state_of, uuid_length, uuid_text, Session, SessionState,
    SessionStore,
};
use crate::text::{owned, push_all};
use crate::username::{count_graphemes, grapheme_count, username_is_valid, valid_username};
use crate::users::{has_name, NewUser, NewUserName, User, UserStore, AddUserError};

use vstd::prelude::*;

verus! {

/// A sign-up submission.
#[derive(Debug, Clone, Default)]
pub struct RegisterRequest {
    pub username: String,
    pub password: String,
    pub confirm_pwd: String,
    pub role: String,
}

/// A login submission.
#[derive(Debug, Clone, Default)]
pub struct LoginRequest {
    pub username: String,
    pub password: String,
}

/// A sign-up submission of a token deployment (no confirmation field).
#[derive(Debug, Clone, Default)]
pub struct SignInPayload {
    pub username: String,
    pub password: String,
    pub role: String,
}

/// Answer to a sign-up request.
#[derive(Debug, Clone, Copy, Default)]
pub struct RegisterResponse {
    pub success: bool,
}

/// Answer to a login request of a token deployment.
#[derive(Debug, Clone, Default)]
pub struct LoginResponse {
    pub success: bool,
    pub token: String,
}

/// Why a sign-up was refused.
#[derive(Debug, Clone, Copy, PartialEq, Eq, Structural)]
pub enum SignupError {
    UsernameExists,
    InvalidUsername,
    PasswordsDoNotMatch,
    MissingPassword,
    MissingUserName,
    MissingPwConfirm,
    MissingRole,
    InvalidPassword,
    InternalError,
}

/// Why a login was refused.
#[derive(Debug, Clone, Copy, PartialEq, Eq, Structural)]
pub enum LoginError {
    MissingPassword,
    MissingUserName,
    UserDoesNotExist,
    WrongPassword,
    /// The stored digest of the user cannot be read.
    MalformedDigest,
    /// The identity could not be handed out (no session, no token).
    InternalError,
}

/// Why a request carries no usable identity.
#[derive(Debug, Clone, Copy, PartialEq, Eq, Structural)]
pub enum AuthError {
    NoAuthHeader,
    InvalidAuthHeader,
    InvalidOrExpiredToken,
    NoSession,
    SessionExpired,
}

/// The first rule of the sign-up form that the submission breaks, checked
/// in order: each field present, the confirmation equal to the password,
/// the user name well shaped (`graphemes` is its cluster count).
pub open spec fn signup_form_error(
    username: Seq<char>,
    password: Seq<char>,
    confirm: Seq<char>,
    role: Seq<char>,
    graphemes: nat,
) -> Option<SignupError> {
    if username.len() == 0 {
        Some(SignupError::MissingUserName)
    } else if password.len() == 0 {
        Some(SignupError::MissingPassword)
    } else if confirm.len() == 0 {
        Some(SignupError::MissingPwConfirm)
    } else if role.len() == 0 {
        Some(SignupError::MissingRole)
    } else if password != confirm {
        Some(SignupError::PasswordsDoNotMatch)
    } else if !valid_username(username, graphemes) {
        Some(SignupError::InvalidUsername)
    } else {
        None
    }
}

pub open spec fn form_error(form: RegisterRequest) -> Option<SignupError> {
    signup_form_error(
        form.username@,
        form.password@,
        form.confirm_pwd@,
        form.role@,
        grapheme_count(form.username@),
    )
}

/// Checks a sign-up form whose user name has `graphemes` clusters.
pub fn check_signup_form(form: &RegisterRequest, graphemes: usize) -> (r: Result<(), SignupError>)
    ensures
        match signup_form_error(form.username@, form.password@, form.confirm_pwd@, form.role@, graphemes as nat) {
            Some(e) => r == Err::<(), SignupError>(e),
            None => r is Ok,
        },
{
    if form.username.unicode_len() == 0 {
        return Err(SignupError::MissingUserName);
    }
    if form.password.unicode_len() == 0 {
        return Err(SignupError::MissingPassword);
    }
    if form.confirm_pwd.unicode_len() == 0 {
        return Err(SignupError::MissingPwConfirm);
    }
    if form.role.unicode_len() == 0 {
        return Err(SignupError::MissingRole);
    }
    if !(form.password == form.confirm_pwd) {
        return Err(SignupError::PasswordsDoNotMatch);
    }
    if !username_is_valid(form.username.as_str(), graphemes) {
        return Err(SignupError::InvalidUsername);
    }
    Ok(())
}

/// The refusal that a sign-up owes before any identifier is drawn: the
/// first broken form rule, then a taken name, then a password too long to
/// hash.
pub open spec fn signup_refusal(form: RegisterRequest, users: Seq<User>) -> Option<SignupError> {
    match form_error(form) {
        Some(e) => Some(e),
        None => if has_name(users, form.username@) {
            Some(SignupError::UsernameExists)
        } else if form.password@.len() > MAX_PASSWORD_CHARS {
            Some(SignupError::InvalidPassword)
        } else {
            None
        },
    }
}

/// Registers the user of a sign-up form: the form is checked, the name
/// must be free, the password is hashed by `alg` under a fresh salt, and
/// the record is stored. Nothing is stored on any refusal.
pub fn sign_up(store: &mut UserStore, form: &RegisterRequest, alg: HashAlgorithm) -> (r: Result<User, SignupError>)
    requires
        old(store).wf(),
    ensures
        final(store).wf(),
        r is Err ==> final(store).view() == old(store).view(),
        signup_refusal(*form, old(store).view()) matches Some(e) ==> r == Err::<User, SignupError>(e),
        signup_refusal(*form, old(store).view()) is None ==> r is Ok || (r == Err::<User, SignupError>(SignupError::InternalError) && old(store).view().len() > 0),
        r matches Ok(u) ==> {
            &&& signup_refusal(*form, old(store).view()) is None
            &&& u.name@ == form.username@
            &&& u.role@ == form.role@
            &&& is_digest_of(form.password@, u.password_hash@)
            &&& final(store).view() == old(store).view().push(u)
        },
{
    let graphemes = count_graphemes(form.username.as_str());
    match check_signup_form(form, graphemes) {
        Err(e) => {
            return Err(e);
        },
        Ok(()) => {},
    }
    if store.find_user_by_name(form.username.as_str()).is_some() {
        return Err(SignupError::UsernameExists);
    }
    let digest = match hash_password(alg, form.password.as_str()) {
        Ok(d) => d,
        Err(_) => {
            return Err(SignupError::InvalidPassword);
        },
    };
    proof {
        let s = choose|s: Seq<char>| crate::password::hashable(form.password@, s) && digest@ == #[trigger] phc_of(alg, form.password@, s)
            && crate::password::digest_layout(digest@, crate::password::head_of(alg), s);
        assert(digest@ == crate::password::argon2_phc(form.password@, s) || digest@ == crate::password::pbkdf2_phc(form.password@, s));
    }
    let name = match NewUserName::parse(form.username.clone()) {
        Ok(n) => n,
        Err(_) => {
            return Err(SignupError::InvalidUsername);
        },
    };
    let new_user = NewUser { name, password: digest, role: form.role.clone() };
    let id = random_id();
    match store.add_user(&new_user, id) {
        Ok(u) => Ok(u),
        Err(AddUserError::UsernameExists) => Err(SignupError::UsernameExists),
        Err(AddUserError::DuplicateId) => {
            assert(crate::users::has_id(old(store).view(), id));
            Err(SignupError::InternalError)
        },
    }
}

/// What a login with these credentials gives, for a store whose records are
/// `users` (names unique): a refusal for a missing field or an unknown
/// name, and otherwise what checking the password against the named user's
/// digest says: the user's id on a match (always the case when the digest
/// was made from this password), `WrongPassword` on a mismatch, and
/// `MalformedDigest` when the stored digest cannot be read.
pub open spec fn login_outcome_ok(users: Seq<User>, username: Seq<char>, password: Seq<char>, r: Result<u128, LoginError>) -> bool {
    if username.len() == 0 {
        r == Err::<u128, LoginError>(LoginError::MissingUserName)
    } else if password.len() == 0 {
        r == Err::<u128, LoginError>(LoginError::MissingPassword)
    } else if !has_name(users, username) {
        r == Err::<u128, LoginError>(LoginError::UserDoesNotExist)
    } else {
        forall|i: int| 0 <= i < users.len() && #[trigger] users[i].name@ == username ==> {
            let h = users[i].password_hash@;
            &&& r == match phc_check(password, h) {
                PasswordCheck::Match => Ok::<u128, LoginError>(users[i].id),
                PasswordCheck::Mismatch => Err::<u128, LoginError>(LoginError::WrongPassword),
                PasswordCheck::MalformedDigest => Err::<u128, LoginError>(LoginError::MalformedDigest),
            }
            &&& (is_digest_of(password, h) ==> r == Ok::<u128, LoginError>(users[i].id))
            &&& (h.len() == 0 || h[0] != '$' ==> r == Err::<u128, LoginError>(LoginError::MalformedDigest))
        }
    }
}

/// Checks credentials against the store. An unknown name is refused
/// without consulting the hasher.
pub fn authenticate(store: &UserStore, username: &str, password: &str) -> (r: Result<u128, LoginError>)
    requires
        store.wf(),
    ensures
        login_outcome_ok(store.view(), username@, password@, r),
{
    if username.unicode_len() == 0 {
        return Err(LoginError::MissingUserName);
    }
    if password.unicode_len() == 0 {
        return Err(LoginError::MissingPassword);
    }
    let user = match store.find_user_by_name(username) {
        None => {
            return Err(LoginError::UserDoesNotExist);
        },
        Some(u) => u,
    };
    proof {
        store.lemma_unique_name(username@);
    }
    match verify_password(password, user.password_hash.as_str()) {
        PasswordCheck::Match => Ok(user.id),
        PasswordCheck::Mismatch => Err(LoginError::WrongPassword),
        PasswordCheck::MalformedDigest => Err(LoginError::MalformedDigest),
    }
}

} // verus!

verus! {

/// The bag key under which a session keeps the id of its user.
pub open spec fn user_id_key() -> Seq<char> {
    seq!['u', 's', 'e', 'r', '-', 'i', 'd']
}

fn user_id_key_str() -> (r: String)
    ensures
        r@ == user_id_key(),
{
    let mut k = String::new();
    let chars = ['u', 's', 'e', 'r', '-', 'i', 'd'];
    assert(chars@ =~= user_id_key());
    push_all(&mut k, &chars);
    k
}

/// Records `id` as the user of `session`.
fn remember_user(session: &mut Session, id: u128)
    ensures
        final(session).id == old(session).id,
        final(session).expires_at == old(session).expires_at,
        final(session).value(user_id_key()) == Some(nat_text(id as nat)),
        forall|k: Seq<char>| k != user_id_key() ==> #[trigger] final(session).value(k) == old(session).value(k),
{
    let mut text = String::new();
    write_nat(id, &mut text);
    assert(text@ =~= nat_text(id as nat));
    let key = user_id_key_str();
    session.set(key.as_str(), text.as_str());
}

/// Logs a user in on a session-based deployment: on success the session
/// records the user's id; on a refusal the session is left as it was.
pub fn login_session(store: &UserStore, session: &mut Session, username: &str, password: &str) -> (r: Result<u128, LoginError>)
    requires
        store.wf(),
    ensures
        login_outcome_ok(store.view(), username@, password@, r),
        r matches Ok(id) ==> final(session).value(user_id_key()) == Some(nat_text(id as nat)),
        r matches Ok(id) ==> forall|k: Seq<char>| k != user_id_key() ==> #[trigger] final(session).value(k) == old(session).value(k),
        final(session).id == old(session).id,
        final(session).expires_at == old(session).expires_at,
        r is Err ==> *final(session) == *old(session),
{
    match authenticate(store, username, password) {
        Ok(id) => {
            remember_user(session, id);
            Ok(id)
        },
        Err(e) => Err(e),
    }
}

/// Registers a user on a session-based deployment (see `sign_up`); on
/// success the session is emptied and then records the new user's id.
pub fn signup_session(store: &mut UserStore, session: &mut Session, form: &RegisterRequest, alg: HashAlgorithm) -> (r: Result<u128, SignupError>)
    requires
        old(store).wf(),
    ensures
        final(store).wf(),
        final(session).id == old(session).id,
        final(session).expires_at == old(session).expires_at,
        r is Err ==> final(store).view() == old(store).view() && *final(session) == *old(session),
        signup_refusal(*form, old(store).view()) matches Some(e) ==> r == Err::<u128, SignupError>(e),
        signup_refusal(*form, old(store).view()) is None ==> r is Ok || (r == Err::<u128, SignupError>(SignupError::InternalError) && old(store).view().len() > 0),
        r matches Ok(id) ==> {
            &&& signup_refusal(*form, old(store).view()) is None
            &&& final(store).view().len() == old(store).view().len() + 1
            &&& final(store).view().drop_last() == old(store).view()
            &&& final(store).view().last().id == id
            &&& final(store).view().last().name@ == form.username@
            &&& final(store).view().last().role@ == form.role@
            &&& is_digest_of(form.password@, final(store).view().last().password_hash@)
            &&& final(session).value(user_id_key()) == Some(nat_text(id as nat))
            &&& forall|k: Seq<char>| k != user_id_key() ==> #[trigger] final(session).value(k) is None
        },
{
    match sign_up(store, form, alg) {
        Ok(u) => {
            session.clear();
            remember_user(session, u.id);
            Ok(u.id)
        },
        Err(e) => Err(e),
    }
}

/// Logs a user in on a token-based deployment: the answer carries a token
/// for the user's claims, valid for a day from `now`; a refusal is the one
/// `authenticate` gives.
pub fn login_token(store: &UserStore, username: &str, password: &str, key: &[u8], now: i64) -> (r: Result<AuthBody, LoginError>)
    requires
        store.wf(),
    ensures
        r matches Ok(b) ==> exists|id: u128| #[trigger] login_outcome_ok(store.view(), username@, password@, Ok::<u128, LoginError>(id))
            && b.access_token@ == jwt_hs256(claims_text(id, username@, crate::claims::expiry_after(now)), key@),
        r matches Err(e) ==> login_outcome_ok(store.view(), username@, password@, Err::<u128, LoginError>(e)),
{
    let id = match authenticate(store, username, password) {
        Ok(id) => id,
        Err(e) => {
            return Err(e);
        },
    };
    let claims = Claims::expiring(id, owned(username), now);
    match generate_jwt(&claims, key) {
        Ok(t) => Ok(AuthBody::new(t)),
        Err(_) => Err(LoginError::InternalError),
    }
}

/// ASCII letter `c` equals the lowercase letter `lower`, ignoring case.
pub open spec fn same_letter(c: char, lower: char) -> bool {
    c == lower || (c as u32) + 32 == (lower as u32)
}

/// The token of an `Authorization` value of the form `Bearer <token>` (the
/// scheme in any case), if the value has that form and a non-empty token.
pub open spec fn bearer_token(h: Seq<char>) -> Option<Seq<char>> {
    if h.len() > 7 && same_letter(h[0], 'b') && same_letter(h[1], 'e') && same_letter(h[2], 'a')
        && same_letter(h[3], 'r') && same_letter(h[4], 'e') && same_letter(h[5], 'r') && h[6] == ' ' {
        Some(h.subrange(7, h.len() as int))
    } else {
        None
    }
}

/// The token of an `Authorization` header value.
pub fn bearer_from_header(h: &str) -> (r: Option<&str>)
    ensures
        match bearer_token(h@) {
            Some(t) => r matches Some(s) && s@ == t,
            None => r is None,
        },
{
    let n = h.unicode_len();
    if n <= 7 {
        return None;
    }
    let scheme = ['b', 'e', 'a', 'r', 'e', 'r'];
    let mut i: usize = 0;
    while i < 6
        invariant
            n == h@.len(),
            n > 7,
            i <= 6,
            scheme@ == seq!['b', 'e', 'a', 'r', 'e', 'r'],
            forall|j: int| 0 <= j < i ==> same_letter(#[trigger] h@[j], scheme@[j]),
        decreases 6 - i,
    {
        let c = h.get_char(i);
        let want = scheme[i];
        if !(c == want || (c as u32) + 32 == (want as u32)) {
            return None;
        }
        i = i + 1;
    }
    if h.get_char(6) != ' ' {
        return None;
    }
    Some(h.substring_char(7, n))
}

/// The claims of a request on a token-based deployment, from its
/// `Authorization` header value, at clock value `now`.
pub fn extract_claims(header: Option<&str>, key: &[u8], now: i64) -> (r: Result<Claims, AuthError>)
    ensures
        header is None ==> r == Err::<Claims, AuthError>(AuthError::NoAuthHeader),
        header is Some && bearer_token(header->Some_0@) is None ==> r == Err::<Claims, AuthError>(AuthError::InvalidAuthHeader),
        header is Some && bearer_token(header->Some_0@) is Some ==> forall|sub: u128, name: Seq<char>, exp: i64|
            bearer_token(header->Some_0@)->Some_0 == #[trigger] jwt_hs256(claims_text(sub, name, exp), key@) ==> if exp >= now {
                r matches Ok(c) && claims_are(c, sub, name, exp)
            } else {
                r == Err::<Claims, AuthError>(AuthError::InvalidOrExpiredToken)
            },
        header is Some && bearer_token(header->Some_0@) is Some && jwt_payload(bearer_token(header->Some_0@)->Some_0, key@) is None ==> r == Err::<Claims, AuthError>(AuthError::InvalidOrExpiredToken),
        header is Some && bearer_token(header->Some_0@) is Some && !has_two_dots(bearer_token(header->Some_0@)->Some_0) ==> r == Err::<Claims, AuthError>(AuthError::InvalidOrExpiredToken),
        r matches Ok(c) ==> c.exp >= now && header is Some && bearer_token(header->Some_0@) is Some
            && jwt_payload(bearer_token(header->Some_0@)->Some_0, key@) == Some(claims_text(c.sub, c.username@, c.exp)),
        r matches Err(e) ==> e == AuthError::NoAuthHeader || e == AuthError::InvalidAuthHeader || e == AuthError::InvalidOrExpiredToken,
        header is Some && bearer_token(header->Some_0@) is Some && r is Err ==> r == Err::<Claims, AuthError>(AuthError::InvalidOrExpiredToken),
{
    let h = match header {
        None => {
            return Err(AuthError::NoAuthHeader);
        },
        Some(h) => h,
    };
    let token = match bearer_from_header(h) {
        None => {
            return Err(AuthError::InvalidAuthHeader);
        },
        Some(t) => t,
    };
    match verify_jwt(token, key, now) {
        Ok(c) => Ok(c),
        Err(_) => Err(AuthError::InvalidOrExpiredToken),
    }
}

/// The user of a request on a session-based deployment, from its session
/// cookie value, at instant `now`.
pub fn extract_session_identity(sessions: &SessionStore, cookie: Option<&str>, now: i64) -> (r: Result<u128, AuthError>)
    ensures
        cookie is None ==> r == Err::<u128, AuthError>(AuthError::NoSession),
        cookie is Some ==> forall|sid: u128| cookie->Some_0@ == #[trigger] uuid_text(sid) ==> match state_of(sessions.view(), sid, now) {
            SessionState::Absent => r == Err::<u128, AuthError>(AuthError::NoSession),
            SessionState::Expired => r == Err::<u128, AuthError>(AuthError::SessionExpired),
            SessionState::Active => {
                &&& (forall|uid: u128| sessions.view()[sid].value(user_id_key()) == Some(nat_text(uid as nat)) ==> r == Ok::<u128, AuthError>(uid))
                &&& (sessions.view()[sid].value(user_id_key()) is None ==> r == Err::<u128, AuthError>(AuthError::NoSession))
            },
        },
        cookie is Some && !uuid_length(cookie->Some_0@.len()) ==> r == Err::<u128, AuthError>(AuthError::NoSession),
        r is Ok ==> cookie is Some && exists|sid: u128| cookie->Some_0@ == #[trigger] uuid_text(sid) && state_of(sessions.view(), sid, now) == SessionState::Active,
        r matches Err(e) ==> e == AuthError::NoSession || e == AuthError::SessionExpired,
{
    let c = match cookie {
        None => {
            return Err(AuthError::NoSession);
        },
        Some(c) => c,
    };
    let sid = match parse_id(c) {
        None => {
            return Err(AuthError::NoSession);
        },
        Some(sid) => sid,
    };
    let s = match sessions.lookup(sid) {
        None => {
            return Err(AuthError::NoSession);
        },
        Some(s) => s,
    };
    if s.expires_at < now {
        return Err(AuthError::SessionExpired);
    }
    let key = user_id_key_str();
    match s.get(key.as_str()) {
        None => Err(AuthError::NoSession),
        Some(text) => {
            proof {
                assert forall|uid: u128| text@ == nat_text(uid as nat) implies digits_value_is(text@, uid) by {
                    lemma_nat_text(uid as nat);
                }
            }
            match read_digits(text.as_str()) {
                Some(v) => Ok(v),
                None => Err(AuthError::NoSession),
            }
        },
    }
}

spec fn digits_value_is(t: Seq<char>, v: u128) -> bool {
    t.len() > 0 && crate::codec::all_digits(t) && crate::codec::digits_value(t) == v
}

} // verus!

verus! {

/// The text shown to the user for a sign-up refusal.
pub open spec fn signup_message(e: SignupError) -> Seq<char> {
    match e {
        SignupError::InvalidUsername => "Nom d'utilisateur incorrect"@,
        SignupError::UsernameExists => "Cet Utilisateur existe déjà"@,
        SignupError::PasswordsDoNotMatch => "Mot de passe non confirmé"@,
        SignupError::MissingPassword => "Il faut entrer un mot de passe"@,
        SignupError::MissingUserName => "Il faut entrer un nom d'utilisateur"@,
        SignupError::MissingPwConfirm => "Il faut confirmer le mot de passe"@,
        SignupError::MissingRole => "Il faut entrer un rôle"@,
        SignupError::InvalidPassword => "Mot de passe incorrect"@,
        SignupError::InternalError => "Erreur Serveur"@,
    }
}

/// The HTTP status that answers a sign-up refusal.
pub open spec fn signup_status(e: SignupError) -> u16 {
    match e {
        SignupError::InvalidUsername => 400,
        SignupError::UsernameExists => 401,
        SignupError::PasswordsDoNotMatch => 401,
        SignupError::MissingPassword => 400,
        SignupError::MissingUserName => 400,
        SignupError::MissingPwConfirm => 400,
        SignupError::MissingRole => 400,
        SignupError::InvalidPassword => 401,
        SignupError::InternalError => 500,
    }
}

impl SignupError {
    /// The text shown to the user.
    pub fn message(&self) -> (r: String)
        ensures
            r@ == signup_message(*self),
    {
        match self {
            SignupError::InvalidUsername => owned("Nom d'utilisateur incorrect"),
            SignupError::UsernameExists => owned("Cet Utilisateur existe déjà"),
            SignupError::PasswordsDoNotMatch => owned("Mot de passe non confirmé"),
            SignupError::MissingPassword => owned("Il faut entrer un mot de passe"),
            SignupError::MissingUserName => owned("Il faut entrer un nom d'utilisateur"),
            SignupError::MissingPwConfirm => owned("Il faut confirmer le mot de passe"),
            SignupError::MissingRole => owned("Il faut entrer un rôle"),
            SignupError::InvalidPassword => owned("Mot de passe incorrect"),
            SignupError::InternalError => owned("Erreur Serveur"),
        }
    }

    /// The HTTP status of the answer.
    pub fn status_code(&self) -> (r: u16)
        ensures
            r == signup_status(*self),
    {
        match self {
            SignupError::InvalidUsername => 400,
            SignupError::UsernameExists => 401,
            SignupError::PasswordsDoNotMatch => 401,
            SignupError::MissingPassword => 400,
            SignupError::MissingUserName => 400,
            SignupError::MissingPwConfirm => 400,
            SignupError::MissingRole => 400,
            SignupError::InvalidPassword => 401,
            SignupError::InternalError => 500,
        }
    }
}

/// The text shown to the user for a login refusal.
pub open spec fn login_message(e: LoginError) -> Seq<char> {
    match e {
        LoginError::UserDoesNotExist => "Cet Utilisateur n'existe pas"@,
        LoginError::MissingPassword => "Il faut entrer un Mot de Passe"@,
        LoginError::MissingUserName => "Il faut entrer le Nom d'Utilisateur"@,
        LoginError::WrongPassword => "Mot de passe incorrect"@,
        LoginError::MalformedDigest => "Erreur Serveur"@,
        LoginError::InternalError => "Erreur Serveur"@,
    }
}

/// The HTTP status that answers a login refusal.
pub open spec fn login_status(e: LoginError) -> u16 {
    match e {
        LoginError::MissingPassword => 400,
        LoginError::MissingUserName => 400,
        LoginError::UserDoesNotExist => 401,
        LoginError::WrongPassword => 401,
        LoginError::MalformedDigest => 500,
        LoginError::InternalError => 500,
    }
}

impl LoginError {
    /// The HTTP status of the answer.
    pub fn status_code(&self) -> (r: u16)
        ensures
            r == login_status(*self),
    {
        match self {
            LoginError::MissingPassword => 400,
            LoginError::MissingUserName => 400,
            LoginError::UserDoesNotExist => 401,
            LoginError::WrongPassword => 401,
            LoginError::MalformedDigest => 500,
            LoginError::InternalError => 500,
        }
    }

    /// The text shown to the user.
    pub fn message(&self) -> (r: String)
        ensures
            r@ == login_message(*self),
    {
        match self {
            LoginError::UserDoesNotExist => owned("Cet Utilisateur n'existe pas"),
            LoginError::MissingPassword => owned("Il faut entrer un Mot de Passe"),
            LoginError::MissingUserName => owned("Il faut entrer le Nom d'Utilisateur"),
            LoginError::WrongPassword => owned("Mot de passe incorrect"),
            LoginError::MalformedDigest => owned("Erreur Serveur"),
            LoginError::InternalError => owned("Erreur Serveur"),
        }
    }
}

/// The flash text that confirms a login.
pub open spec fn logged_in_message() -> Seq<char> {
    "Vous êtes loggé !"@
}

/// The flash text that confirms a sign-up of the user `id`.
pub open spec fn registered_message(id: u128) -> Seq<char> {
    "Vous êtes enregistré avec id : "@ + uuid_text(id) + " !"@
}

/// Handles a login form on a session-based deployment: the outcome is
/// flashed to the session and the client is sent back to the login page.
pub fn login_hdl(store: &UserStore, session: &mut Session, form: &LoginRequest) -> (r: crate::flash::Redirect)
    requires
        store.wf(),
    ensures
        r.status == crate::flash::SEE_OTHER,
        r.location@ == seq!['/', 'a', 'u', 't', 'h', '/', 'l', 'o', 'g', 'i', 'n'],
        final(session).id == old(session).id,
        final(session).expires_at == old(session).expires_at,
        exists|res: Result<u128, LoginError>| #[trigger] login_outcome_ok(store.view(), form.username@, form.password@, res) && match res {
            Ok(id) => {
                &&& final(session).value(user_id_key()) == Some(nat_text(id as nat))
                &&& crate::flash::pending_flash(*final(session)) == Some((crate::flash::Level::Success, logged_in_message()))
            },
            Err(e) => {
                &&& crate::flash::pending_flash(*final(session)) == Some((crate::flash::Level::Error, login_message(e)))
                &&& forall|k: Seq<char>| k != crate::flash::flash_key() ==> #[trigger] final(session).value(k) == old(session).value(k)
            },
        },
{
    let res = login_session(store, session, form.username.as_str(), form.password.as_str());
    let ghost after_login = *session;
    let r = match res {
        Ok(_) => {
            let m = owned("Vous êtes loggé !");
            crate::flash::login_response(session, crate::flash::Level::Success, m.as_str())
        },
        Err(e) => {
            let m = e.message();
            crate::flash::login_response(session, crate::flash::Level::Error, m.as_str())
        },
    };
    proof {
        if res is Ok {
            assert(user_id_key()[0] != crate::flash::flash_key()[0]);
            assert(session.value(user_id_key()) == after_login.value(user_id_key()));
        }
    }
    r
}

/// A sign-up was refused with `e`: nothing stored, the refusal's text
/// flashed as an error, and the rest of the session bag kept.
pub open spec fn refused_with(old_store: UserStore, new_store: UserStore, old_session: Session, new_session: Session, e: SignupError) -> bool {
    &&& new_store.view() == old_store.view()
    &&& crate::flash::pending_flash(new_session) == Some((crate::flash::Level::Error, signup_message(e)))
    &&& forall|k: Seq<char>| k != crate::flash::flash_key() ==> #[trigger] new_session.value(k) == old_session.value(k)
}

/// A sign-up stored one new user from `form`, recorded it in the session
/// and flashed the confirmation.
pub open spec fn registered(old_store: UserStore, new_store: UserStore, new_session: Session, form: RegisterRequest) -> bool {
    let u = new_store.view().last();
    &&& new_store.view().len() == old_store.view().len() + 1
    &&& new_store.view().drop_last() == old_store.view()
    &&& u.name@ == form.username@
    &&& u.role@ == form.role@
    &&& is_digest_of(form.password@, u.password_hash@)
    &&& new_session.value(user_id_key()) == Some(nat_text(u.id as nat))
    &&& crate::flash::pending_flash(new_session) == Some((crate::flash::Level::Success, registered_message(u.id)))
}

/// Handles a sign-up form on a session-based deployment: the outcome is
/// flashed to the session and the client is sent back to the sign-up page.
pub fn sign_up_hdl(store: &mut UserStore, session: &mut Session, form: &RegisterRequest, alg: HashAlgorithm) -> (r: crate::flash::Redirect)
    requires
        old(store).wf(),
    ensures
        final(store).wf(),
        r.status == crate::flash::SEE_OTHER,
        r.location@ == seq!['/', 'a', 'u', 't', 'h', '/', 's', 'i', 'g', 'n', 'u', 'p'],
        final(session).id == old(session).id,
        final(session).expires_at == old(session).expires_at,
        match signup_refusal(*form, old(store).view()) {
            Some(e) => refused_with(*old(store), *final(store), *old(session), *final(session), e),
            None => registered(*old(store), *final(store), *final(session), *form)
                || (old(store).view().len() > 0 && refused_with(*old(store), *final(store), *old(session), *final(session), SignupError::InternalError)),
        },
{
    match signup_session(store, session, form, alg) {
        Ok(id) => {
            let ghost after_signup = *session;
            let mut m = owned("Vous êtes enregistré avec id : ");
            let t = crate::session::format_id(id);
            m.append(t.as_str());
            m.append(" !");
            let r = crate::flash::signup_response(session, crate::flash::Level::Success, m.as_str());
            proof {
                assert(user_id_key()[0] != crate::flash::flash_key()[0]);
                assert(session.value(user_id_key()) == after_signup.value(user_id_key()));
            }
            r
        },
        Err(e) => {
            let m = e.message();
            crate::flash::signup_response(session, crate::flash::Level::Error, m.as_str())
        },
    }
}

} // verus!
