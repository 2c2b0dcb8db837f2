use auth_core::error::AppError;
use auth_core::username::{is_allowed_char, parse, username_is_valid};
use auth_core::users::NewUserName;

#[test]
fn plain_name_is_accepted() {
    let r = parse(&"ana".to_string());
    assert_eq!(r.unwrap(), "ana");
}

#[test]
fn empty_and_blank_names_are_refused() {
    assert!(matches!(parse(&String::new()), Err(AppError::ValidationError)));
    assert!(matches!(parse(&"   ".to_string()), Err(AppError::ValidationError)));
}

#[test]
fn whitespace_inside_a_name_is_refused() {
    assert!(parse(&"ana maria".to_string()).is_err());
    assert!(parse(&"ana\tmaria".to_string()).is_err());
    assert!(parse(&"ana\u{3000}".to_string()).is_err());
}

#[test]
fn each_forbidden_character_is_refused() {
    for c in ['/', '(', ')', '"', '<', '>', '\\', '{', '}', '#', '*'] {
        let name = format!("ana{}", c);
        assert!(parse(&name).is_err(), "{}", name);
        assert!(!is_allowed_char(c));
    }
    assert!(is_allowed_char('a'));
    assert!(is_allowed_char('-'));
}

#[test]
fn length_limit_counts_grapheme_clusters() {
    let at_limit = "a".repeat(256);
    assert!(parse(&at_limit).is_ok());
    let over = "a".repeat(257);
    assert!(parse(&over).is_err());
    // 256 clusters of two characters each: 512 chars, still within the limit.
    let combined = "e\u{301}".repeat(256);
    assert!(parse(&combined).is_ok());
    let combined_over = "e\u{301}".repeat(257);
    assert!(parse(&combined_over).is_err());
}

#[test]
fn validity_with_a_given_cluster_count() {
    assert!(username_is_valid("bob", 3));
    assert!(username_is_valid("bob", 256));
    assert!(!username_is_valid("bob", 257));
    assert!(!username_is_valid("", 0));
}

#[test]
fn new_user_name_parse_explains_refusals() {
    let ok = NewUserName::parse("ana".to_string()).unwrap();
    assert_eq!(ok.as_str(), "ana");
    match NewUserName::parse("a/b".to_string()) {
        Err(m) => assert_eq!(m, "a/b is not a valid new user name."),
        Ok(_) => panic!("accepted a forbidden character"),
    }
}

#[test]
fn status_codes_of_errors() {
    assert_eq!(AppError::Unauthorized.status_code(), 401);
    assert_eq!(AppError::Forbidden.status_code(), 403);
    assert_eq!(AppError::NotFound.status_code(), 404);
    assert_eq!(AppError::UnprocessableEntity.status_code(), 422);
    assert_eq!(AppError::Internal.status_code(), 500);
    assert_eq!(AppError::WrongCredentials.status_code(), 401);
    assert_eq!(AppError::MissingCredentials.status_code(), 400);
    assert_eq!(AppError::InvalidJWTToken.status_code(), 401);
    assert_eq!(AppError::JWTTokenCreationError.status_code(), 401);
    assert_eq!(AppError::NoAuthHeaderError.status_code(), 400);
    assert_eq!(AppError::InvalidAuthHeaderError.status_code(), 400);
    assert_eq!(AppError::ValidationError.status_code(), 400);
}

#[test]
fn error_texts() {
    assert_eq!(AppError::Unauthorized.message(), "Il faut s'identifier");
    assert_eq!(AppError::NotFound.message(), "Page non trouvée");
    assert_eq!(AppError::ValidationError.message(), "Validations error");
    assert_eq!(AppError::InvalidJWTToken.message(), "jwt token not valid");
}
