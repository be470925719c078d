use gameshop::errors::CustomError;

#[test]
fn messages_of_plain_errors() {
    assert_eq!(CustomError::Unknown.message(), "Unknown error occurred");
    assert_eq!(CustomError::UserAlreadyExists.message(), "User already exists");
    assert_eq!(CustomError::HashingError.message(), "Hashing error");
    assert_eq!(CustomError::EncryptionError.message(), "Encryption error");
    assert_eq!(CustomError::DecryptionError.message(), "Decryption error");
    assert_eq!(CustomError::InvalidPassword.message(), "Invalid password");
    assert_eq!(CustomError::UserNotFound.message(), "User not found");
    assert_eq!(CustomError::TokenInvalid.message(), "Invalid token");
    assert_eq!(CustomError::CredentialRejected.message(), "Invalid credentials");
}

#[test]
fn messages_of_errors_with_detail() {
    assert_eq!(CustomError::DatabaseError("down".to_string()).message(), "Database error: down");
    assert_eq!(
        CustomError::TracingInitializationError("x".to_string()).message(),
        "Tracing initialization error: x"
    );
    assert_eq!(
        CustomError::ActixWebBindingError("x".to_string()).message(),
        "Actix Web binding error: x"
    );
    assert_eq!(
        CustomError::ActixWebRuntimeError("x".to_string()).message(),
        "Actix Web runtime error: x"
    );
    assert_eq!(
        CustomError::EnvironmentVariableError("x".to_string()).message(),
        "Environment variable error: x"
    );
    assert_eq!(
        CustomError::ParsingServerPortError("x".to_string()).message(),
        "Environment variable error: x"
    );
    assert_eq!(
        CustomError::GovernorCreationError("".to_string()).message(),
        "Environment variable error: "
    );
}
