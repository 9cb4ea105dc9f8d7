//! What a client submits to the account mutations.
use vstd::prelude::*;

verus! {

/// Credentials to sign in with.
#[derive(Debug, Clone, PartialEq, Eq)]
pub struct SignInInput {
    pub email: String,
    pub password: String,
}

/// A new account.
#[derive(Debug, Clone, PartialEq, Eq)]
pub struct SignUpInput {
    pub code: String,
    pub name: String,
    pub email: String,
    pub password: String,
    pub password_confirm: String,
    pub comment: Option<String>,
    pub avatar: Option<String>,
}

/// The new profile of the signed-in user.
#[derive(Debug, Clone, PartialEq, Eq)]
pub struct EditProfileInput {
    pub code: String,
    pub name: String,
    pub email: String,
    pub comment: Option<String>,
    pub avatar: Option<String>,
}

/// The current password and the new one, twice.
#[derive(Debug, Clone, PartialEq, Eq)]
pub struct ChangePasswordInput {
    pub password: String,
    pub new_password: String,
    pub new_password_confirm: String,
}

} // verus!
