//! The error taxonomy shared by every component.

use vstd::prelude::*;

verus! {

/// Failures that the components of this crate report to their callers.
#[derive(Debug, PartialEq, Eq)]
pub enum CustomError {
    /// A failure that fits no other variant.
    Unknown,
    /// An identity with the same lookup digest is already stored.
    UserAlreadyExists,
    /// The password hasher could not produce a record.
    HashingError,
    /// The field cipher could not encrypt.
    EncryptionError,
    /// The field cipher rejected its input: tampering, a wrong key, or
    /// malformed text.
    DecryptionError,
    /// The record store reported a failure.
    DatabaseError(String),
    /// A stored password record did not accept the candidate password.
    InvalidPassword,
    /// No identity is stored under the given lookup digest.
    UserNotFound,
    /// Logging could not be initialised.
    TracingInitializationError(String),
    /// The server could not bind its address.
    ActixWebBindingError(String),
    /// The server failed while running.
    ActixWebRuntimeError(String),
    /// A required configuration value is absent.
    EnvironmentVariableError(String),
    /// The configured server port is not a number.
    ParsingServerPortError(String),
    /// The rate limiter could not be configured.
    GovernorCreationError(String),
    /// A session token has a bad signature, is malformed, or has expired.
    TokenInvalid,
    /// A login was refused; the cause (unknown identity or wrong password)
    /// is deliberately not distinguished.
    CredentialRejected,
}

impl CustomError {
    /// The text of the message that belongs to this error.
    pub open spec fn message_text(self) -> Seq<char> {
        match self {
            CustomError::Unknown => "Unknown error occurred"@,
            CustomError::UserAlreadyExists => "User already exists"@,
            CustomError::HashingError => "Hashing error"@,
            CustomError::EncryptionError => "Encryption error"@,
            CustomError::DecryptionError => "Decryption error"@,
            CustomError::DatabaseError(detail) => "Database error: "@ + detail@,
            CustomError::InvalidPassword => "Invalid password"@,
            CustomError::UserNotFound => "User not found"@,
            CustomError::TracingInitializationError(detail) => "Tracing initialization error: "@
                + detail@,
            CustomError::ActixWebBindingError(detail) => "Actix Web binding error: "@ + detail@,
            CustomError::ActixWebRuntimeError(detail) => "Actix Web runtime error: "@ + detail@,
            CustomError::EnvironmentVariableError(detail) => "Environment variable error: "@
                + detail@,
            CustomError::ParsingServerPortError(detail) => "Environment variable error: "@
                + detail@,
            CustomError::GovernorCreationError(detail) => "Environment variable error: "@
                + detail@,
            CustomError::TokenInvalid => "Invalid token"@,
            CustomError::CredentialRejected => "Invalid credentials"@,
        }
    }

    /// Renders the error as the message shown to operators.
    pub fn message(&self) -> (text: String)
        ensures
            text@ == self.message_text(),
    {
        match self {
            CustomError::Unknown => "Unknown error occurred".to_owned(),
            CustomError::UserAlreadyExists => "User already exists".to_owned(),
            CustomError::HashingError => "Hashing error".to_owned(),
            CustomError::EncryptionError => "Encryption error".to_owned(),
            CustomError::DecryptionError => "Decryption error".to_owned(),
            CustomError::DatabaseError(detail) => "Database error: ".to_owned().concat(
                detail.as_str(),
            ),
            CustomError::InvalidPassword => "Invalid password".to_owned(),
            CustomError::UserNotFound => "User not found".to_owned(),
            CustomError::TracingInitializationError(detail) => "Tracing initialization error: "
                .to_owned().concat(detail.as_str()),
            CustomError::ActixWebBindingError(detail) => "Actix Web binding error: ".to_owned()
                .concat(detail.as_str()),
            CustomError::ActixWebRuntimeError(detail) => "Actix Web runtime error: ".to_owned()
                .concat(detail.as_str()),
            CustomError::EnvironmentVariableError(detail) => "Environment variable error: "
                .to_owned().concat(detail.as_str()),
            CustomError::ParsingServerPortError(detail) => "Environment variable error: "
                .to_owned().concat(detail.as_str()),
            CustomError::GovernorCreationError(detail) => "Environment variable error: "
                .to_owned().concat(detail.as_str()),
            CustomError::TokenInvalid => "Invalid token".to_owned(),
            CustomError::CredentialRejected => "Invalid credentials".to_owned(),
        }
    }
}

} // verus!
