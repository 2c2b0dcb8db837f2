//! Error kinds shared by the request handlers, with their HTTP status codes.
use crate::text::owned;
use vstd::prelude::*;

verus! {

/// Failures that a request handler reports to its client.
#[derive(Debug, Clone, Copy, PartialEq, Eq, Structural)]
pub enum AppError {
    Unauthorized,
    Forbidden,
    NotFound,
    UnprocessableEntity,
    Internal,
    WrongCredentials,
    MissingCredentials,
    InvalidJWTToken,
    JWTTokenCreationError,
    NoAuthHeaderError,
    InvalidAuthHeaderError,
    ValidationError,
}

/// The HTTP status that each error kind is answered with.
pub open spec fn status_of(e: AppError) -> u16 {
    match e {
        AppError::Unauthorized => 401,
        AppError::Forbidden => 403,
        AppError::NotFound => 404,
        AppError::UnprocessableEntity => 422,
        AppError::Internal => 500,
        AppError::WrongCredentials => 401,
        AppError::MissingCredentials => 400,
        AppError::InvalidJWTToken => 401,
        AppError::JWTTokenCreationError => 401,
        AppError::NoAuthHeaderError => 400,
        AppError::InvalidAuthHeaderError => 400,
        AppError::ValidationError => 400,
    }
}

/// The text that answers each error kind.
pub open spec fn message_of(e: AppError) -> Seq<char> {
    match e {
        AppError::Unauthorized => "Il faut s'identifier"@,
        AppError::Forbidden => "l'Utilisateur ne peut faire cette action"@,
        AppError::NotFound => "Page non trouvée"@,
        AppError::UnprocessableEntity => "error in the request body"@,
        AppError::Internal => "Erreur Serveur"@,
        AppError::WrongCredentials => "wrong credentials"@,
        AppError::MissingCredentials => "missing credentials"@,
        AppError::InvalidJWTToken => "jwt token not valid"@,
        AppError::JWTTokenCreationError => "jwt token creation error"@,
        AppError::NoAuthHeaderError => "no auth header"@,
        AppError::InvalidAuthHeaderError => "invalid auth header"@,
        AppError::ValidationError => "Validations error"@,
    }
}

impl AppError {
    /// The text of this error.
    pub fn message(&self) -> (r: String)
        ensures
            r@ == message_of(*self),
    {
        match self {
            AppError::Unauthorized => owned("Il faut s'identifier"),
            AppError::Forbidden => owned("l'Utilisateur ne peut faire cette action"),
            AppError::NotFound => owned("Page non trouvée"),
            AppError::UnprocessableEntity => owned("error in the request body"),
            AppError::Internal => owned("Erreur Serveur"),
            AppError::WrongCredentials => owned("wrong credentials"),
            AppError::MissingCredentials => owned("missing credentials"),
            AppError::InvalidJWTToken => owned("jwt token not valid"),
            AppError::JWTTokenCreationError => owned("jwt token creation error"),
            AppError::NoAuthHeaderError => owned("no auth header"),
            AppError::InvalidAuthHeaderError => owned("invalid auth header"),
            AppError::ValidationError => owned("Validations error"),
        }
    }

    /// The HTTP status code of this error.
    pub fn status_code(&self) -> (r: u16)
        ensures
            r == status_of(*self),
    {
        match self {
            AppError::Unauthorized => 401,
            AppError::Forbidden => 403,
            AppError::NotFound => 404,
            AppError::UnprocessableEntity => 422,
            AppError::Internal => 500,
            AppError::WrongCredentials => 401,
            AppError::MissingCredentials => 400,
            AppError::InvalidJWTToken => 401,
            AppError::JWTTokenCreationError => 401,
            AppError::NoAuthHeaderError => 400,
            AppError::InvalidAuthHeaderError => 400,
            AppError::ValidationError => 400,
        }
    }
}

} // verus!
