//! The ways in which a login attempt can fail.

use vstd::prelude::*;

verus! {

/// Why a login attempt ended without a result. Every variant carries the message that is
/// shown to the caller.
#[derive(Debug, PartialEq, Eq)]
pub enum AuthError {
    /// The service credentials are missing or unusable; found before any request is made.
    Configuration(String),
    /// A request could not be carried out at all.
    Transport(String),
    /// The provider answered, and refused: a status outside 2xx, or a verdict other than
    /// success where only success lets the attempt go on.
    Protocol(String),
    /// The provider's answer was not JSON, or not of the expected shape.
    Decode(String),
    /// A step was given something it cannot work with.
    InvariantViolation(String),
}

/// The mathematical value of an [`AuthError`].
pub enum AuthErrorView {
    Configuration(Seq<char>),
    Transport(Seq<char>),
    Protocol(Seq<char>),
    Decode(Seq<char>),
    InvariantViolation(Seq<char>),
}

impl AuthErrorView {
    /// The message that the error carries.
    pub open spec fn message(self) -> Seq<char> {
        match self {
            AuthErrorView::Configuration(m) => m,
            AuthErrorView::Transport(m) => m,
            AuthErrorView::Protocol(m) => m,
            AuthErrorView::Decode(m) => m,
            AuthErrorView::InvariantViolation(m) => m,
        }
    }
}

impl View for AuthError {
    type V = AuthErrorView;

    open spec fn view(&self) -> AuthErrorView {
        match self {
            AuthError::Configuration(m) => AuthErrorView::Configuration(m@),
            AuthError::Transport(m) => AuthErrorView::Transport(m@),
            AuthError::Protocol(m) => AuthErrorView::Protocol(m@),
            AuthError::Decode(m) => AuthErrorView::Decode(m@),
            AuthError::InvariantViolation(m) => AuthErrorView::InvariantViolation(m@),
        }
    }
}

impl AuthError {
    /// The message that the error carries, as the caller is to see it.
    pub fn message(&self) -> (text: String)
        ensures
            text@ == self@.message(),
    {
        match self {
            AuthError::Configuration(m) => m.clone(),
            AuthError::Transport(m) => m.clone(),
            AuthError::Protocol(m) => m.clone(),
            AuthError::Decode(m) => m.clone(),
            AuthError::InvariantViolation(m) => m.clone(),
        }
    }
}

} // verus!
