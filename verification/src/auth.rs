//! Authentication: the outcome of a login attempt and a toy credential
//! scheme.
//!
//! The scheme stands in for a real one. A stored credential is the password
//! behind a fixed prefix; it hides nothing and must not guard anything of
//! value.

use vstd::prelude::*;
use vstd::string::StringExecFns;
use crate::ident::is_random_id;
use crate::user::User;

verus! {

/// Trait for entities that can be authenticated.
pub trait Authenticatable {
    /// Get the authentication token.
    fn get_token(&self) -> Option<String>;

    /// Validate the authentication.
    fn validate(&self) -> bool;

    /// Refresh the authentication.
    fn refresh(&mut self) -> Result<(), AuthError>;
}

/// Authentication error types.
#[derive(Debug, Clone, Copy, PartialEq, Eq, Structural)]
pub enum AuthError {
    InvalidToken,
    Expired,
    NotFound,
}

/// The email address given to a user who logs in as `username`.
pub open spec fn email_for(username: Seq<char>) -> Seq<char> {
    username + "@example.com"@
}

/// The stored form of `password`.
pub open spec fn hashed(password: Seq<char>) -> Seq<char> {
    "hashed_"@ + password
}

/// Authenticate a user with the given credentials.
///
/// The attempt is rejected with [`AuthError::InvalidToken`] exactly when the
/// username or the password is empty. Otherwise it succeeds with a new user
/// of age zero, named `username`, whose email is [`email_for`] that name and
/// whose identifier is freshly drawn.
pub fn authenticate_user(username: &str, password: &str) -> (outcome: Result<User, AuthError>)
    ensures
        match outcome {
            Ok(user) => {
                &&& username@.len() > 0
                &&& password@.len() > 0
                &&& is_random_id(user@.id)
                &&& user@.name == username@
                &&& user@.email == email_for(username@)
                &&& user@.age == 0
            },
            Err(error) => {
                &&& username@.len() == 0 || password@.len() == 0
                &&& error == AuthError::InvalidToken
            },
        },
{
    if username.is_empty() || password.is_empty() {
        return Err(AuthError::InvalidToken);
    }
    Ok(User::new(username.to_string(), username.to_string().concat("@example.com")))
}

/// Hash a password for storage.
pub fn hash_password(password: &str) -> (hash: String)
    ensures
        hash@ == hashed(password@),
{
    "hashed_".to_string().concat(password)
}

/// Whether `hash` is the stored form of `password`.
pub open spec fn verifies(password: Seq<char>, hash: Seq<char>) -> bool {
    hash == hashed(password)
}

/// Verify a password against a hash.
pub fn verify_password(password: &str, hash: &str) -> (matches: bool)
    ensures
        matches == verifies(password@, hash@),
{
    hash.to_string() == hash_password(password)
}

/// A stored credential verifies the password it was made from and no other.
pub proof fn lemma_hash_verifies_its_password_only(password: Seq<char>, other: Seq<char>)
    ensures
        verifies(other, hashed(password)) <==> other == password,
{
    let prefix = "hashed_"@;
    assert(password =~= hashed(password).skip(prefix.len() as int));
    assert(other =~= hashed(other).skip(prefix.len() as int));
}

} // verus!
