use sample_project::auth::{
    authenticate_user, hash_password, verify_password, AuthError, Authenticatable,
};
use sample_project::config::{get_secret_key, MAX_LOGIN_ATTEMPTS, TOKEN_EXPIRY};

#[test]
fn authenticate_builds_the_user_from_the_username() {
    let user = authenticate_user("alice", "secret").unwrap();
    assert_eq!(user.name, "alice");
    assert_eq!(user.email, "alice@example.com");
    assert_eq!(user.age, 0);
    assert_eq!(user.id.len(), 36);
    assert_eq!(uuid::Uuid::parse_str(&user.id).unwrap().get_version_num(), 4);
}

#[test]
fn authenticate_rejects_an_empty_username() {
    assert_eq!(authenticate_user("", "secret").unwrap_err(), AuthError::InvalidToken);
}

#[test]
fn authenticate_rejects_an_empty_password() {
    assert_eq!(authenticate_user("alice", "").unwrap_err(), AuthError::InvalidToken);
}

#[test]
fn authenticate_rejects_two_empty_credentials() {
    assert_eq!(authenticate_user("", "").unwrap_err(), AuthError::InvalidToken);
}

#[test]
fn authenticate_accepts_any_non_empty_credentials() {
    assert!(authenticate_user(" ", " ").is_ok());
    let user = authenticate_user("a@b", "x").unwrap();
    assert_eq!(user.name, "a@b");
    assert_eq!(user.email, "a@b@example.com");
}

#[test]
fn hash_password_puts_the_prefix_in_front() {
    assert_eq!(hash_password("secret"), "hashed_secret");
    assert_eq!(hash_password(""), "hashed_");
    assert_eq!(hash_password("hashed_"), "hashed_hashed_");
}

#[test]
fn verify_password_accepts_the_hash_of_the_password() {
    assert!(verify_password("secret", "hashed_secret"));
    assert!(verify_password("", "hashed_"));
    assert!(verify_password("secret", &hash_password("secret")));
}

#[test]
fn verify_password_rejects_everything_else() {
    assert!(!verify_password("secret", "hashed_other"));
    assert!(!verify_password("secret", "secret"));
    assert!(!verify_password("secret", "hashed_secret "));
    assert!(!verify_password("secret", "HASHED_secret"));
    assert!(!verify_password("secret", ""));
    assert!(!verify_password("a", &hash_password("b")));
}

#[test]
fn auth_errors_are_three_distinct_values() {
    assert_ne!(AuthError::InvalidToken, AuthError::Expired);
    assert_ne!(AuthError::Expired, AuthError::NotFound);
    assert_ne!(AuthError::NotFound, AuthError::InvalidToken);
    assert_eq!(format!("{:?}", AuthError::Expired), "Expired");
}

struct Session {
    token: Option<String>,
    refreshes_left: u32,
}

impl Authenticatable for Session {
    fn get_token(&self) -> Option<String> {
        self.token.clone()
    }

    fn validate(&self) -> bool {
        self.token.is_some()
    }

    fn refresh(&mut self) -> Result<(), AuthError> {
        if self.token.is_none() {
            return Err(AuthError::NotFound);
        }
        if self.refreshes_left == 0 {
            self.token = None;
            return Err(AuthError::Expired);
        }
        self.refreshes_left -= 1;
        Ok(())
    }
}

#[test]
fn authenticatable_can_be_implemented_by_callers() {
    let mut session = Session { token: Some("t".to_string()), refreshes_left: 1 };
    assert!(session.validate());
    assert_eq!(session.get_token(), Some("t".to_string()));
    assert_eq!(session.refresh(), Ok(()));
    assert_eq!(session.refresh(), Err(AuthError::Expired));
    assert!(!session.validate());
    assert_eq!(session.refresh(), Err(AuthError::NotFound));
}

#[test]
fn config_constants_have_their_values() {
    assert_eq!(TOKEN_EXPIRY, 3600);
    assert_eq!(MAX_LOGIN_ATTEMPTS, 5);
    assert_eq!(get_secret_key(), "super-secret-key");
}
