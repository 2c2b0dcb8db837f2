use auth_core::password::{
    hash_password, hash_password_argon2, hash_password_pbkdf2, verify_password, HashAlgorithm,
    PasswordCheck,
};

#[test]
fn argon2_digest_verifies_against_its_password() {
    let d = hash_password(HashAlgorithm::Argon2, "secret1").unwrap();
    assert!(d.starts_with("$argon2"));
    assert_eq!(verify_password("secret1", &d), PasswordCheck::Match);
}

#[test]
fn other_password_is_a_mismatch() {
    let d = hash_password(HashAlgorithm::Argon2, "secret1").unwrap();
    assert_eq!(verify_password("secret2", &d), PasswordCheck::Mismatch);
    assert_eq!(verify_password("", &d), PasswordCheck::Mismatch);
}

#[test]
fn two_digests_of_one_password_differ_and_both_verify() {
    let a = hash_password(HashAlgorithm::Argon2, "secret1").unwrap();
    let b = hash_password(HashAlgorithm::Argon2, "secret1").unwrap();
    assert_ne!(a, b);
    assert_eq!(verify_password("secret1", &a), PasswordCheck::Match);
    assert_eq!(verify_password("secret1", &b), PasswordCheck::Match);
}

#[test]
fn pbkdf2_digest_verifies_and_names_its_algorithm() {
    let d = hash_password(HashAlgorithm::Pbkdf2, "secret1").unwrap();
    assert!(d.starts_with("$pbkdf2"));
    assert_eq!(verify_password("secret1", &d), PasswordCheck::Match);
    assert_eq!(verify_password("wrong", &d), PasswordCheck::Mismatch);
}

#[test]
fn fixed_salt_gives_a_fixed_digest() {
    let salt = "c2FsdHNhbHRzYWx0c2FsdA";
    let a = hash_password_argon2("pw", salt).unwrap();
    let b = hash_password_argon2("pw", salt).unwrap();
    assert_eq!(a, b);
    assert!(a.contains(salt));
    let p = hash_password_pbkdf2("pw", salt).unwrap();
    assert!(p.contains(salt));
    assert_ne!(p, "pw");
}

#[test]
fn unusable_salt_is_refused() {
    assert!(hash_password_argon2("pw", "").is_err());
    assert!(hash_password_pbkdf2("pw", "not a salt!").is_err());
}

#[test]
fn malformed_digest_is_reported_apart() {
    assert_eq!(verify_password("pw", "not a digest"), PasswordCheck::MalformedDigest);
    assert_eq!(verify_password("pw", ""), PasswordCheck::MalformedDigest);
}

#[test]
fn digests_carry_algorithm_parameters_and_salt() {
    let salt = "c2FsdHNhbHRzYWx0c2FsdA";
    let a = hash_password_argon2("pw", salt).unwrap();
    assert!(a.starts_with(&format!("$argon2id$v=19$m=4096,t=3,p=1${}$", salt)));
    let p = hash_password_pbkdf2("pw", salt).unwrap();
    assert!(p.starts_with(&format!("$pbkdf2-sha256$i=10000,l=32${}$", salt)));
    assert_eq!(verify_password("pw", &p), PasswordCheck::Match);
    assert_eq!(verify_password("px", &p), PasswordCheck::Mismatch);
}

#[test]
fn digest_without_leading_dollar_is_malformed() {
    assert_eq!(verify_password("pw", "argon2id$v=19"), PasswordCheck::MalformedDigest);
}
