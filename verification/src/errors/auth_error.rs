//! Why a request could not be authenticated.

use vstd::prelude::*;

verus! {

#[derive(Debug, Clone, Copy, PartialEq, Eq, Structural)]
pub enum AuthError {
    MissingToken,
    InvalidToken,
}

/// What the error says.
pub open spec fn auth_text(e: AuthError) -> Seq<char> {
    match e {
        AuthError::MissingToken =>
            "Authorization token is missing in the request. Please provide a valid JWT token."@,
        AuthError::InvalidToken => "Invalid JWT token. Please provide a valid token."@,
    }
}

impl AuthError {
    /// What the error says.
    pub fn text(&self) -> (r: String)
        ensures
            r@ == auth_text(*self),
    {
        match self {
            AuthError::MissingToken =>
                "Authorization token is missing in the request. Please provide a valid JWT token.".to_string(),
            AuthError::InvalidToken =>
                "Invalid JWT token. Please provide a valid token.".to_string(),
        }
    }
}

} // verus!
