use vstd::prelude::*;

verus! {

/// Why an untrusted string was not accepted as a domain value.
#[derive(Debug, Clone, Copy, PartialEq, Eq, Structural)]
pub enum ParseError {
    InvalidEmail,
    PasswordTooShort,
    InvalidLoginAttemptId,
    InvalidTwoFACode,
}

/// The errors that the request flows report to a caller.
#[derive(Debug, Clone, Copy, PartialEq, Eq, Structural)]
pub enum AuthAPIError {
    UserAlreadyExists,
    InvalidCredentials,
    IncorrectCredentials,
    MissingToken,
    InvalidToken,
    VerificationFailed,
    UnexpectedError,
}

/// The body sent with an error status.
pub struct ErrorResponse {
    pub error: String,
}

pub open spec fn status_of(e: AuthAPIError) -> u16 {
    match e {
        AuthAPIError::UserAlreadyExists => 409,
        AuthAPIError::InvalidCredentials => 400,
        AuthAPIError::MissingToken => 400,
        AuthAPIError::InvalidToken => 401,
        AuthAPIError::VerificationFailed => 402,
        AuthAPIError::IncorrectCredentials => 401,
        AuthAPIError::UnexpectedError => 500,
    }
}

pub open spec fn message_of(e: AuthAPIError) -> Seq<char> {
    match e {
        AuthAPIError::UserAlreadyExists => "User already exists"@,
        AuthAPIError::InvalidCredentials => "Invalid credentials"@,
        AuthAPIError::MissingToken => "Missing token"@,
        AuthAPIError::InvalidToken => "Invalid token"@,
        AuthAPIError::VerificationFailed => "Verification failed"@,
        AuthAPIError::IncorrectCredentials => "Incorrect credentials"@,
        AuthAPIError::UnexpectedError => "Unexpected error"@,
    }
}

impl AuthAPIError {
    /// The HTTP status that reports this error.
    pub fn status_code(&self) -> (r: u16)
        ensures
            r == status_of(*self),
    {
        match self {
            AuthAPIError::UserAlreadyExists => 409,
            AuthAPIError::InvalidCredentials => 400,
            AuthAPIError::MissingToken => 400,
            AuthAPIError::InvalidToken => 401,
            AuthAPIError::VerificationFailed => 402,
            AuthAPIError::IncorrectCredentials => 401,
            AuthAPIError::UnexpectedError => 500,
        }
    }

    /// The status and the body that report this error to a client; the
    /// message never carries internal detail.
    pub fn into_response(self) -> (r: (u16, ErrorResponse))
        ensures
            r.0 == status_of(self),
            r.1.error@ == message_of(self),
    {
        let message = match self {
            AuthAPIError::UserAlreadyExists => "User already exists",
            AuthAPIError::InvalidCredentials => "Invalid credentials",
            AuthAPIError::MissingToken => "Missing token",
            AuthAPIError::InvalidToken => "Invalid token",
            AuthAPIError::VerificationFailed => "Verification failed",
            AuthAPIError::IncorrectCredentials => "Incorrect credentials",
            AuthAPIError::UnexpectedError => "Unexpected error",
        };
        (self.status_code(), ErrorResponse { error: message.to_owned() })
    }
}

/// Failures of a user store. Two errors are equal when they are of the same
/// kind; the cause carried by `UnexpectedError` is for logging only.
#[derive(Debug, Clone)]
pub enum UserStoreError {
    UserAlreadyExists,
    UserNotFound,
    InvalidCredentials,
    UnexpectedError(String),
}

impl PartialEq for UserStoreError {
    fn eq(&self, other: &UserStoreError) -> (r: bool) {
        match (self, other) {
            (UserStoreError::UserAlreadyExists, UserStoreError::UserAlreadyExists) => true,
            (UserStoreError::UserNotFound, UserStoreError::UserNotFound) => true,
            (UserStoreError::InvalidCredentials, UserStoreError::InvalidCredentials) => true,
            (UserStoreError::UnexpectedError(_), UserStoreError::UnexpectedError(_)) => true,
            _ => false,
        }
    }
}

impl vstd::std_specs::cmp::PartialEqSpecImpl for UserStoreError {
    open spec fn obeys_eq_spec() -> bool {
        true
    }

    open spec fn eq_spec(&self, other: &UserStoreError) -> bool {
        match (*self, *other) {
            (UserStoreError::UserAlreadyExists, UserStoreError::UserAlreadyExists) => true,
            (UserStoreError::UserNotFound, UserStoreError::UserNotFound) => true,
            (UserStoreError::InvalidCredentials, UserStoreError::InvalidCredentials) => true,
            (UserStoreError::UnexpectedError(_), UserStoreError::UnexpectedError(_)) => true,
            _ => false,
        }
    }
}

/// Failures of a revocation store.
#[derive(Debug, Clone)]
pub enum BannedTokenStoreError {
    TokenIsBanned,
    UnexpectedError(String),
}

/// Failures of a challenge store; equal when of the same kind.
#[derive(Debug, Clone)]
pub enum TwoFACodeStoreError {
    LoginAttemptIdNotFound,
    UnexpectedError(String),
}

impl PartialEq for TwoFACodeStoreError {
    fn eq(&self, other: &TwoFACodeStoreError) -> (r: bool) {
        match (self, other) {
            (
                TwoFACodeStoreError::LoginAttemptIdNotFound,
                TwoFACodeStoreError::LoginAttemptIdNotFound,
            ) => true,
            (TwoFACodeStoreError::UnexpectedError(_), TwoFACodeStoreError::UnexpectedError(_)) => {
                true
            },
            _ => false,
        }
    }
}

impl vstd::std_specs::cmp::PartialEqSpecImpl for TwoFACodeStoreError {
    open spec fn obeys_eq_spec() -> bool {
        true
    }

    open spec fn eq_spec(&self, other: &TwoFACodeStoreError) -> bool {
        (*self is LoginAttemptIdNotFound && *other is LoginAttemptIdNotFound) || (
        *self is UnexpectedError && *other is UnexpectedError)
    }
}

} // verus!
