use auth_core::gateway::{
    authenticate, bearer_from_header, check_signup_form, extract_claims,
    extract_session_identity, login_session, login_token, sign_up, signup_session, AuthError,
    LoginError, RegisterRequest, SignupError,
};
use auth_core::claims::verify_jwt;
use auth_core::flash::{read, Level};
use auth_core::gateway::{login_hdl, sign_up_hdl, LoginRequest};
use auth_core::password::{verify_password, HashAlgorithm, PasswordCheck};
use auth_core::session::{format_id, Session, SessionStore};
use auth_core::users::{NewUser, NewUserName, UserStore};

fn form(u: &str, p: &str, c: &str, r: &str) -> RegisterRequest {
    RegisterRequest {
        username: u.to_string(),
        password: p.to_string(),
        confirm_pwd: c.to_string(),
        role: r.to_string(),
    }
}

#[test]
fn signup_then_login_as_ana() {
    let mut users = UserStore::new();
    let u = sign_up(&mut users, &form("ana", "secret1", "secret1", "user"), HashAlgorithm::Argon2).unwrap();
    assert_eq!(u.name, "ana");
    assert_eq!(u.role, "user");
    assert_ne!(u.password_hash, "secret1");
    assert_eq!(verify_password("secret1", &u.password_hash), PasswordCheck::Match);
    assert_eq!(authenticate(&users, "ana", "secret1"), Ok(u.id));
    assert_eq!(authenticate(&users, "ana", "wrong"), Err(LoginError::WrongPassword));
    assert_eq!(authenticate(&users, "ghost", "x"), Err(LoginError::UserDoesNotExist));
}

#[test]
fn second_signup_with_same_name_changes_nothing() {
    let mut users = UserStore::new();
    let first = sign_up(&mut users, &form("ana", "secret1", "secret1", "user"), HashAlgorithm::Pbkdf2).unwrap();
    let again = sign_up(&mut users, &form("ana", "other22", "other22", "admin"), HashAlgorithm::Pbkdf2);
    assert_eq!(again.unwrap_err(), SignupError::UsernameExists);
    assert_eq!(users.len(), 1);
    let stored = users.find_user_by_name("ana").unwrap();
    assert_eq!(stored.id, first.id);
    assert_eq!(stored.password_hash, first.password_hash);
    assert_eq!(stored.role, "user");
    assert_eq!(authenticate(&users, "ana", "secret1"), Ok(first.id));
    assert_eq!(authenticate(&users, "ana", "other22"), Err(LoginError::WrongPassword));
}

#[test]
fn signup_form_errors_in_order() {
    let mut users = UserStore::new();
    let cases = [
        (form("", "", "", ""), SignupError::MissingUserName),
        (form("ana", "", "", ""), SignupError::MissingPassword),
        (form("ana", "pw", "", ""), SignupError::MissingPwConfirm),
        (form("ana", "pw", "pw", ""), SignupError::MissingRole),
        (form("ana", "pw", "px", "user"), SignupError::PasswordsDoNotMatch),
        (form("an a", "pw", "pw", "user"), SignupError::InvalidUsername),
        (form("a{b}", "pw", "pw", "user"), SignupError::InvalidUsername),
    ];
    for (f, e) in cases.iter() {
        assert_eq!(sign_up(&mut users, f, HashAlgorithm::Pbkdf2).unwrap_err(), *e);
    }
    assert_eq!(users.len(), 0);
    assert_eq!(check_signup_form(&form("bob", "pw", "pw", "admin"), 3), Ok(()));
    assert_eq!(check_signup_form(&form("bob", "pw", "pw", "admin"), 300), Err(SignupError::InvalidUsername));
}

#[test]
fn login_field_errors() {
    let users = UserStore::new();
    assert_eq!(authenticate(&users, "", "x"), Err(LoginError::MissingUserName));
    assert_eq!(authenticate(&users, "ana", ""), Err(LoginError::MissingPassword));
}

#[test]
fn users_are_found_by_name_and_id() {
    let mut users = UserStore::new();
    let a = sign_up(&mut users, &form("ana", "pw", "pw", "user"), HashAlgorithm::Pbkdf2).unwrap();
    let b = sign_up(&mut users, &form("bob", "pw", "pw", "admin"), HashAlgorithm::Pbkdf2).unwrap();
    assert_eq!(users.find_user_by_id(b.id).unwrap().name, "bob");
    assert_eq!(users.find_user_by_id(a.id).unwrap().name, "ana");
    assert!(users.find_user_by_name("carl").is_none());
}

#[test]
fn session_login_records_the_user() {
    let mut users = UserStore::new();
    let u = sign_up(&mut users, &form("ana", "secret1", "secret1", "user"), HashAlgorithm::Pbkdf2).unwrap();
    let mut sessions = SessionStore::new();
    let sid = sessions.create(0, 3600).unwrap();
    let mut s = Session::new(sid, 3600);
    assert_eq!(login_session(&users, &mut s, "ana", "nope"), Err(LoginError::WrongPassword));
    assert_eq!(s.get("user-id"), None);
    assert_eq!(login_session(&users, &mut s, "ana", "secret1"), Ok(u.id));
    assert_eq!(s.get("user-id"), Some(u.id.to_string()));
    sessions.set(sid, "user-id", &u.id.to_string());
    let cookie = format_id(sid);
    assert_eq!(extract_session_identity(&sessions, Some(&cookie), 10), Ok(u.id));
    assert_eq!(extract_session_identity(&sessions, Some(&cookie), 3601), Err(AuthError::SessionExpired));
    assert_eq!(extract_session_identity(&sessions, None, 10), Err(AuthError::NoSession));
    assert_eq!(extract_session_identity(&sessions, Some("junk"), 10), Err(AuthError::NoSession));
    sessions.invalidate(sid);
    assert_eq!(extract_session_identity(&sessions, Some(&cookie), 10), Err(AuthError::NoSession));
}

#[test]
fn session_without_user_is_not_an_identity() {
    let mut sessions = SessionStore::new();
    let sid = sessions.create(0, 100).unwrap();
    let cookie = format_id(sid);
    assert_eq!(extract_session_identity(&sessions, Some(&cookie), 1), Err(AuthError::NoSession));
}

#[test]
fn signup_session_opens_a_fresh_bag() {
    let mut users = UserStore::new();
    let mut s = Session::new(1, 100);
    s.set("stale", "x");
    let id = signup_session(&mut users, &mut s, &form("ana", "pw", "pw", "user"), HashAlgorithm::Pbkdf2).unwrap();
    assert_eq!(s.get("user-id"), Some(id.to_string()));
    assert_eq!(s.get("stale"), None);
    let again = signup_session(&mut users, &mut s, &form("ana", "pw", "pw", "user"), HashAlgorithm::Pbkdf2);
    assert_eq!(again, Err(SignupError::UsernameExists));
    assert_eq!(s.get("user-id"), Some(id.to_string()));
}

#[test]
fn token_login_and_header_extraction() {
    let mut users = UserStore::new();
    let u = sign_up(&mut users, &form("ana", "secret1", "secret1", "user"), HashAlgorithm::Pbkdf2).unwrap();
    let key = b"jwt secret";
    let body = login_token(&users, "ana", "secret1", key, 1000).unwrap();
    assert_eq!(body.token_type, "Bearer");
    let c = verify_jwt(&body.access_token, key, 1000).unwrap();
    assert_eq!((c.sub, c.username.as_str(), c.exp), (u.id, "ana", 1000 + 86400));
    assert_eq!(login_token(&users, "ana", "bad", key, 1000).unwrap_err(), LoginError::WrongPassword);

    let header = format!("Bearer {}", body.access_token);
    let c = extract_claims(Some(&header), key, 2000).unwrap();
    assert_eq!(c.sub, u.id);
    let lower = format!("bearer {}", body.access_token);
    assert!(extract_claims(Some(&lower), key, 2000).is_ok());
    assert_eq!(extract_claims(None, key, 0).unwrap_err(), AuthError::NoAuthHeader);
    assert_eq!(extract_claims(Some("Basic abc"), key, 0).unwrap_err(), AuthError::InvalidAuthHeader);
    assert_eq!(extract_claims(Some("Bearer "), key, 0).unwrap_err(), AuthError::InvalidAuthHeader);
    assert_eq!(extract_claims(Some(&header), b"other", 2000).unwrap_err(), AuthError::InvalidOrExpiredToken);
    assert_eq!(extract_claims(Some(&header), key, 1000 + 86401).unwrap_err(), AuthError::InvalidOrExpiredToken);
}

#[test]
fn bearer_header_parsing() {
    assert_eq!(bearer_from_header("Bearer abc"), Some("abc"));
    assert_eq!(bearer_from_header("BEARER abc"), Some("abc"));
    assert_eq!(bearer_from_header("Bearerabc"), None);
    assert_eq!(bearer_from_header("Token abcdef"), None);
    assert_eq!(bearer_from_header("Bearer"), None);
}

#[test]
fn signup_and_login_texts_and_statuses() {
    assert_eq!(SignupError::UsernameExists.message(), "Cet Utilisateur existe déjà");
    assert_eq!(SignupError::MissingRole.message(), "Il faut entrer un rôle");
    assert_eq!(SignupError::UsernameExists.status_code(), 401);
    assert_eq!(SignupError::InvalidUsername.status_code(), 400);
    assert_eq!(SignupError::InternalError.status_code(), 500);
    assert_eq!(LoginError::UserDoesNotExist.message(), "Cet Utilisateur n'existe pas");
    assert_eq!(LoginError::WrongPassword.message(), "Mot de passe incorrect");
}

#[test]
fn handlers_flash_the_outcome_and_redirect() {
    let mut users = UserStore::new();
    let mut s = Session::new(1, 100);
    let r = sign_up_hdl(&mut users, &mut s, &form("ana", "pw1", "pw1", "user"), HashAlgorithm::Pbkdf2);
    assert_eq!((r.status, r.location.as_str()), (303, "/auth/signup"));
    let m = read(&mut s).unwrap();
    let id = users.find_user_by_name("ana").unwrap().id;
    assert_eq!(m.level, Level::Success);
    assert_eq!(m.text, format!("Vous êtes enregistré avec id : {} !", format_id(id)));
    let r = sign_up_hdl(&mut users, &mut s, &form("ana", "pw1", "pw1", "user"), HashAlgorithm::Pbkdf2);
    assert_eq!(r.location, "/auth/signup");
    let m = read(&mut s).unwrap();
    assert_eq!((m.level, m.text.as_str()), (Level::Error, "Cet Utilisateur existe déjà"));

    let login = LoginRequest { username: "ana".to_string(), password: "pw1".to_string() };
    let r = login_hdl(&users, &mut s, &login);
    assert_eq!(r.location, "/auth/login");
    let m = read(&mut s).unwrap();
    assert_eq!((m.level, m.text.as_str()), (Level::Success, "Vous êtes loggé !"));
    assert_eq!(s.get("user-id"), Some(id.to_string()));
    let bad = LoginRequest { username: "ana".to_string(), password: "nope".to_string() };
    login_hdl(&users, &mut s, &bad);
    let m = read(&mut s).unwrap();
    assert_eq!((m.level, m.text.as_str()), (Level::Error, "Mot de passe incorrect"));
}

#[test]
fn unreadable_stored_digest_is_a_typed_error() {
    let mut users = UserStore::new();
    let nu = NewUser {
        name: NewUserName::parse("ana".to_string()).unwrap(),
        password: "plain".to_string(),
        role: "user".to_string(),
    };
    users.add_user(&nu, 1).unwrap();
    assert_eq!(authenticate(&users, "ana", "x"), Err(LoginError::MalformedDigest));
    assert_eq!(LoginError::MalformedDigest.status_code(), 500);
    assert_eq!(LoginError::MissingPassword.status_code(), 400);
    assert_eq!(LoginError::WrongPassword.status_code(), 401);
}

#[test]
fn malformed_cookie_is_no_session() {
    let sessions = SessionStore::new();
    assert_eq!(extract_session_identity(&sessions, Some("1234"), 0), Err(AuthError::NoSession));
    assert!(sessions.load_cookie("1234", 0).is_none());
}

#[test]
fn refused_signup_flashes_its_own_text_and_keeps_the_session() {
    let mut users = UserStore::new();
    let mut s = Session::new(4, 77);
    s.set("user-id", "1");
    let r = sign_up_hdl(&mut users, &mut s, &form("ana", "pw1", "pw2", "user"), HashAlgorithm::Pbkdf2);
    assert_eq!(r.location, "/auth/signup");
    assert_eq!((s.id, s.expires_at), (4, 77));
    assert_eq!(s.get("user-id").as_deref(), Some("1"));
    let m = read(&mut s).unwrap();
    assert_eq!((m.level, m.text.as_str()), (Level::Error, "Mot de passe non confirmé"));
    assert_eq!(users.len(), 0);
}
