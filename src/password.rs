//! Salted, self-describing password digests (PHC strings).
//!
//! Hashing is deliberately slow; callers that serve network traffic run
//! these functions on a worker pool of their own.
use argon2::password_hash::{PasswordHash, PasswordHasher, SaltString};
use argon2::Argon2;
use pbkdf2::Pbkdf2;
use rand_core::OsRng;
use vstd::prelude::*;

verus! {

/// Longest password, in characters, that both hashers take: Argon2 refuses
/// passwords over `u32::MAX` bytes, and a character is at most four bytes.
pub const MAX_PASSWORD_CHARS: usize = 0x3fff_ffff;

/// A character of the standard base64 alphabet.
pub open spec fn is_b64_char(c: char) -> bool {
    let u = c as u32;
    ||| 65 <= u <= 90
    ||| 97 <= u <= 122
    ||| 48 <= u <= 57
    ||| c == '+'
    ||| c == '/'
}

/// A salt as `SaltString::generate` makes it: 16 random bytes in unpadded
/// base64, which is 22 characters whose last one carries no stray bits.
pub open spec fn salt_form(s: Seq<char>) -> bool {
    &&& s.len() == 22
    &&& forall|i: int| 0 <= i < 22 ==> is_b64_char(#[trigger] s[i])
    &&& (s[21] == 'A' || s[21] == 'Q' || s[21] == 'g' || s[21] == 'w')
}

/// Inputs on which both hashers succeed.
pub open spec fn hashable(password: Seq<char>, salt: Seq<char>) -> bool {
    salt_form(salt) && password.len() <= MAX_PASSWORD_CHARS
}

/// The PHC string that Argon2 (default parameters) gives for a password and
/// a base64 salt.
pub uninterp spec fn argon2_phc(password: Seq<char>, salt: Seq<char>) -> Seq<char>;

/// The PHC string that PBKDF2-SHA256 (default parameters) gives for a
/// password and a base64 salt.
pub uninterp spec fn pbkdf2_phc(password: Seq<char>, salt: Seq<char>) -> Seq<char>;

/// The outcome of checking a password against a digest.
pub uninterp spec fn phc_check(password: Seq<char>, digest: Seq<char>) -> PasswordCheck;

/// Start of every Argon2 digest: algorithm, version and cost parameters.
pub open spec fn argon2_head() -> Seq<char> {
    "$argon2id$v=19$m=4096,t=3,p=1$"@
}

/// Start of every PBKDF2 digest: algorithm and parameters.
pub open spec fn pbkdf2_head() -> Seq<char> {
    "$pbkdf2-sha256$i=10000,l=32$"@
}

/// `d` begins with `head`, then the salt, then the separator before the
/// hash.
pub open spec fn digest_layout(d: Seq<char>, head: Seq<char>, salt: Seq<char>) -> bool {
    let pre = head + salt + seq!['$'];
    d.len() > pre.len() && d.subrange(0, pre.len() as int) == pre
}

/// The digest was computed from `password`, under a generated salt, by one
/// of the supported algorithms.
pub open spec fn is_digest_of(password: Seq<char>, digest: Seq<char>) -> bool {
    exists|salt: Seq<char>|
        hashable(password, salt) && (digest == argon2_phc(password, salt) || digest == pbkdf2_phc(password, salt))
}

/// The digest was computed by one of the supported algorithms from some
/// password under a generated salt.
pub open spec fn is_generated(digest: Seq<char>) -> bool {
    exists|password: Seq<char>, salt: Seq<char>|
        hashable(password, salt) && (digest == argon2_phc(password, salt) || digest == pbkdf2_phc(password, salt))
}

/// Which key-derivation function a deployment hashes new passwords with.
#[derive(Debug, Clone, Copy, PartialEq, Eq, Structural)]
pub enum HashAlgorithm {
    Argon2,
    Pbkdf2,
}

/// The digest that `alg` gives for a password and a salt.
pub open spec fn phc_of(alg: HashAlgorithm, password: Seq<char>, salt: Seq<char>) -> Seq<char> {
    match alg {
        HashAlgorithm::Argon2 => argon2_phc(password, salt),
        HashAlgorithm::Pbkdf2 => pbkdf2_phc(password, salt),
    }
}

/// Outcome of checking a password against a stored digest.
#[derive(Debug, Clone, Copy, PartialEq, Eq, Structural)]
pub enum PasswordCheck {
    Match,
    Mismatch,
    MalformedDigest,
}

/// The hashing function refused its input (an unusable salt or password).
#[derive(Debug, Clone, Copy, PartialEq, Eq, Structural)]
pub enum HashError {
    InvalidPassword,
}

/// Relies on `argon2::password_hash::SaltString::generate` over the
/// operating system's random source: 16 bytes in unpadded base64.
#[verifier::external_body]
fn random_salt() -> (r: String)
    ensures
        salt_form(r@),
{
    SaltString::generate(&mut OsRng).as_str().to_owned()
}

/// Relies on `PasswordHash::generate` with `Argon2::default()`, rendered as
/// its PHC string `$argon2id$v=19$m=4096,t=3,p=1$<salt>$<hash>`; it fails
/// only on a salt it cannot decode to at least 8 bytes or a password over
/// `u32::MAX` bytes.
#[verifier::external_body]
fn argon2_generate(password: &str, salt: &str) -> (r: Option<String>)
    ensures
        r matches Some(d) ==> d@ == argon2_phc(password@, salt@),
        r matches Some(d) ==> digest_layout(d@, argon2_head(), salt@),
        hashable(password@, salt@) ==> r is Some,
{
    match PasswordHash::generate(Argon2::default(), password, salt) {
        Ok(h) => Some(h.to_string()),
        Err(_) => None,
    }
}

/// Relies on `PasswordHasher::hash_password` of `Pbkdf2` (default
/// parameters), rendered as its PHC string
/// `$pbkdf2-sha256$i=10000,l=32$<salt>$<hash>`; it fails only on a salt it
/// cannot decode.
#[verifier::external_body]
fn pbkdf2_generate(password: &str, salt: &str) -> (r: Option<String>)
    ensures
        r matches Some(d) ==> d@ == pbkdf2_phc(password@, salt@),
        r matches Some(d) ==> digest_layout(d@, pbkdf2_head(), salt@),
        hashable(password@, salt@) ==> r is Some,
{
    match Pbkdf2.hash_password(password.as_bytes(), salt) {
        Ok(h) => Some(h.to_string()),
        Err(_) => None,
    }
}

/// Relies on `PasswordHash::new` and `PasswordHash::verify_password` with
/// `Argon2::default()` and `Pbkdf2` as verifiers. The outcome depends on
/// the two texts alone; a digest that either hasher produced parses and
/// verifies against the password it was made from; a text that is empty or
/// does not start with `$` does not parse.
#[verifier::external_body]
fn phc_verify(password: &str, digest: &str) -> (r: PasswordCheck)
    ensures
        r == phc_check(password@, digest@),
        forall|salt: Seq<char>|
            hashable(password@, salt) && digest@ == #[trigger] argon2_phc(password@, salt) ==> r == PasswordCheck::Match,
        forall|salt: Seq<char>|
            hashable(password@, salt) && digest@ == #[trigger] pbkdf2_phc(password@, salt) ==> r == PasswordCheck::Match,
        is_generated(digest@) ==> r != PasswordCheck::MalformedDigest,
        digest@.len() == 0 || digest@[0] != '$' ==> r == PasswordCheck::MalformedDigest,
{
    match PasswordHash::new(digest) {
        Err(_) => PasswordCheck::MalformedDigest,
        Ok(h) => match h.verify_password(&[&Argon2::default(), &Pbkdf2], password) {
            Ok(()) => PasswordCheck::Match,
            Err(_) => PasswordCheck::Mismatch,
        },
    }
}

/// Argon2 digest of `password` under the given base64 salt.
pub fn hash_password_argon2(password: &str, salt: &str) -> (r: Result<String, HashError>)
    ensures
        r matches Ok(d) ==> d@ == argon2_phc(password@, salt@) && digest_layout(d@, argon2_head(), salt@),
        hashable(password@, salt@) ==> r is Ok,
{
    match argon2_generate(password, salt) {
        Some(d) => Ok(d),
        None => Err(HashError::InvalidPassword),
    }
}

/// PBKDF2 digest of `password` under the given base64 salt.
pub fn hash_password_pbkdf2(password: &str, salt: &str) -> (r: Result<String, HashError>)
    ensures
        r matches Ok(d) ==> d@ == pbkdf2_phc(password@, salt@) && digest_layout(d@, pbkdf2_head(), salt@),
        hashable(password@, salt@) ==> r is Ok,
{
    match pbkdf2_generate(password, salt) {
        Some(d) => Ok(d),
        None => Err(HashError::InvalidPassword),
    }
}

/// The head that digests made by `alg` start with.
pub open spec fn head_of(alg: HashAlgorithm) -> Seq<char> {
    match alg {
        HashAlgorithm::Argon2 => argon2_head(),
        HashAlgorithm::Pbkdf2 => pbkdf2_head(),
    }
}

/// Digest of `password` by `alg` under a fresh random salt, which the
/// digest embeds after the algorithm and its parameters. Every password of
/// at most `MAX_PASSWORD_CHARS` characters is hashed.
pub fn hash_password(alg: HashAlgorithm, password: &str) -> (r: Result<String, HashError>)
    ensures
        r matches Ok(d) ==> exists|salt: Seq<char>|
            hashable(password@, salt) && d@ == #[trigger] phc_of(alg, password@, salt) && digest_layout(d@, head_of(alg), salt),
        password@.len() <= MAX_PASSWORD_CHARS <==> r is Ok,
{
    let salt = random_salt();
    if password.unicode_len() > MAX_PASSWORD_CHARS {
        return Err(HashError::InvalidPassword);
    }
    let r = match alg {
        HashAlgorithm::Argon2 => hash_password_argon2(password, salt.as_str()),
        HashAlgorithm::Pbkdf2 => hash_password_pbkdf2(password, salt.as_str()),
    };
    assert(r matches Ok(d) ==> d@ == phc_of(alg, password@, salt@) && digest_layout(d@, head_of(alg), salt@));
    r
}

/// Checks `password` against a stored digest; the digest names its own
/// algorithm, parameters and salt. A digest made from this password always
/// matches; a digest made by either hasher is never reported malformed; a
/// text that is empty or does not start with `$` always is.
pub fn verify_password(password: &str, digest: &str) -> (r: PasswordCheck)
    ensures
        r == phc_check(password@, digest@),
        is_digest_of(password@, digest@) ==> r == PasswordCheck::Match,
        is_generated(digest@) ==> r != PasswordCheck::MalformedDigest,
        digest@.len() == 0 || digest@[0] != '$' ==> r == PasswordCheck::MalformedDigest,
{
    phc_verify(password, digest)
}

} // verus!
