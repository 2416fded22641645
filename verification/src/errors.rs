//! The failure kinds of the token lifecycle and of configuration parsing.

use vstd::prelude::*;

verus! {

/// Why a login or a verification was turned down. The kinds carry no detail:
/// in particular an expired token and a forged one give the same kind.
#[derive(Debug, Clone, Copy, PartialEq, Eq, Structural)]
pub enum AuthError {
    /// The credentials did not match an identity.
    WrongCredentials,
    /// The login request left the client identifier or the client secret empty.
    MissingCredentials,
    /// Signing failed while a token was being issued.
    TokenCreation,
    /// The token, or the authorization header that should carry it, was not
    /// acceptable: malformed, forged or expired.
    InvalidToken,
}

impl AuthError {
    /// The HTTP status under which the kind is reported.
    pub open spec fn spec_status_code(self) -> u16 {
        match self {
            AuthError::WrongCredentials => 401,
            AuthError::MissingCredentials => 400,
            AuthError::TokenCreation => 500,
            AuthError::InvalidToken => 400,
        }
    }

    /// The generic text under which the kind is reported.
    pub open spec fn spec_message(self) -> Seq<char> {
        match self {
            AuthError::WrongCredentials => "Wrong credentials"@,
            AuthError::MissingCredentials => "Missing credentials"@,
            AuthError::TokenCreation => "Token creation error"@,
            AuthError::InvalidToken => "Invalid token"@,
        }
    }

    /// The HTTP status under which the kind is reported.
    #[verifier::when_used_as_spec(spec_status_code)]
    pub fn status_code(self) -> (status: u16)
        ensures
            status == self.spec_status_code(),
    {
        match self {
            AuthError::WrongCredentials => 401,
            AuthError::MissingCredentials => 400,
            AuthError::TokenCreation => 500,
            AuthError::InvalidToken => 400,
        }
    }

    /// The generic text under which the kind is reported. It names the kind
    /// and nothing of the request, the key or the token.
    pub fn message(self) -> (text: &'static str)
        ensures
            text@ == self.spec_message(),
    {
        match self {
            AuthError::WrongCredentials => "Wrong credentials",
            AuthError::MissingCredentials => "Missing credentials",
            AuthError::TokenCreation => "Token creation error",
            AuthError::InvalidToken => "Invalid token",
        }
    }
}

/// Why a configuration value was turned down.
#[derive(Debug, Clone, Copy, PartialEq, Eq, Structural)]
pub enum Errors {
    /// The stage is none of the known stage names.
    StageParseError,
}

} // verus!
