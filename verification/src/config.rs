//! Configuration for the authentication system.

use vstd::prelude::*;

verus! {

/// Default token expiry in seconds.
pub const TOKEN_EXPIRY: u64 = 3600;

/// Maximum login attempts before lockout.
pub const MAX_LOGIN_ATTEMPTS: u32 = 5;

/// Get the secret key for signing tokens.
pub fn get_secret_key() -> (key: &'static str)
    ensures
        key@ == "super-secret-key"@,
{
    "super-secret-key"
}

} // verus!
