use uptime_ledger::accounts::{
    admitted, is_valid_user, login_handler, login_response, new_user, refusal_message,
    signup_handler, LoginInfo, LoginResponse, NewUser, StoredCredentials, UserRegister,
};
use uptime_ledger::auth::{token_for, AuthError};

const SALT: &str = "c29tZXNhbHRzb21lc2FsdA";

fn request(id: Option<u128>) -> UserRegister {
    UserRegister {
        username: "alice".to_string(),
        password: "correct horse".to_string(),
        email: "alice@example.org".to_string(),
        id,
    }
}

fn stored() -> StoredCredentials {
    let user = signup_handler(&request(Some(41)), SALT, 1).unwrap();
    StoredCredentials { user_id: user.id, password_hash: user.password_hash }
}

#[test]
fn signup_hashes_the_password_with_argon2id() {
    let user = signup_handler(&request(None), SALT, 77).unwrap();
    assert_eq!(user.id, 77);
    assert_eq!(user.username, "alice");
    assert_eq!(user.email, "alice@example.org");
    assert!(user.password_hash.starts_with("$argon2id$v=19$m=19456,t=2,p=1$c29tZXNhbHRzb21lc2FsdA$"));
    assert_ne!(user.password_hash, "correct horse");
    assert_eq!(user.password_hash.len(), "$argon2id$v=19$m=19456,t=2,p=1$".len() + 22 + 1 + 43);
}

#[test]
fn signup_keeps_the_identifier_of_the_request() {
    let user = signup_handler(&request(Some(41)), SALT, 77).unwrap();
    assert_eq!(user.id, 41);
}

#[test]
fn signup_is_a_function_of_password_and_salt() {
    let first = signup_handler(&request(None), SALT, 1).unwrap();
    let second = signup_handler(&request(None), SALT, 1).unwrap();
    assert_eq!(first, second);
    let other_salt = signup_handler(&request(None), "YW5vdGhlcnNhbHRzYWx0cw", 1).unwrap();
    assert_ne!(first.password_hash, other_salt.password_hash);
}

#[test]
fn signup_fails_on_unusable_salt() {
    assert_eq!(signup_handler(&request(None), "", 1), None);
    assert_eq!(signup_handler(&request(None), "not base64!", 1), None);
}

#[test]
fn new_user_needs_a_hash() {
    assert_eq!(new_user(&request(None), None, 5), None);
    assert_eq!(
        new_user(&request(None), Some("h".to_string()), 5),
        Some(NewUser {
            id: 5,
            username: "alice".to_string(),
            email: "alice@example.org".to_string(),
            password_hash: "h".to_string()
        })
    );
}

#[test]
fn password_check_admits_the_right_password_only() {
    let credentials = stored();
    assert_eq!(is_valid_user(Some(&credentials), "correct horse"), Some(41));
    assert_eq!(is_valid_user(Some(&credentials), "wrong horse"), None);
    assert_eq!(is_valid_user(Some(&credentials), ""), None);
    assert_eq!(is_valid_user(None, "correct horse"), None);
}

#[test]
fn password_check_rejects_a_hash_that_does_not_parse() {
    let broken = StoredCredentials { user_id: 3, password_hash: "correct horse".to_string() };
    assert_eq!(is_valid_user(Some(&broken), "correct horse"), None);
    let empty = StoredCredentials { user_id: 3, password_hash: String::new() };
    assert_eq!(is_valid_user(Some(&empty), ""), None);
}

#[test]
fn admitted_follows_the_password_check() {
    assert_eq!(admitted(Some(4), true), Some(4));
    assert_eq!(admitted(Some(4), false), None);
    assert_eq!(admitted(None, true), None);
}

#[test]
fn login_by_email_returns_token_and_user() {
    let credentials = stored();
    let info =
        LoginInfo { email: "alice@example.org".to_string(), password: "correct horse".to_string() };
    let response = login_handler(Some(&credentials), &info, 1_700_000_000, "secret").unwrap();
    assert_eq!(response.user_id, 41);
    assert_eq!(
        Some(response.token),
        token_for("alice@example.org", 1_700_000_000, "secret")
    );
}

#[test]
fn login_by_email_with_wrong_password_is_unauthorized() {
    let credentials = stored();
    let info = LoginInfo { email: "alice@example.org".to_string(), password: "nope".to_string() };
    assert_eq!(
        login_handler(Some(&credentials), &info, 1_700_000_000, "secret"),
        Err(AuthError::Unauthorized)
    );
    assert_eq!(login_handler(None, &info, 1_700_000_000, "secret"), Err(AuthError::Unauthorized));
}

#[test]
fn login_response_by_email_cases() {
    assert_eq!(
        login_response(Some(4), Some("t".to_string())),
        Ok(LoginResponse { token: "t".to_string(), user_id: 4 })
    );
    assert_eq!(login_response(None, Some("t".to_string())), Err(AuthError::Unauthorized));
    assert_eq!(login_response(None, None), Err(AuthError::Unauthorized));
    assert_eq!(login_response(Some(4), None), Err(AuthError::TokenFailed));
}

#[test]
fn refused_login_is_unauthorized_even_where_no_token_can_be_encoded() {
    let credentials = stored();
    let wrong = LoginInfo { email: "alice@example.org".to_string(), password: "nope".to_string() };
    assert_eq!(
        login_handler(Some(&credentials), &wrong, i64::MIN, "secret"),
        Err(AuthError::Unauthorized)
    );
    assert_eq!(login_handler(None, &wrong, -40_000, "secret"), Err(AuthError::Unauthorized));
    let right =
        LoginInfo { email: "alice@example.org".to_string(), password: "correct horse".to_string() };
    assert_eq!(
        login_handler(Some(&credentials), &right, i64::MIN, "secret"),
        Err(AuthError::TokenFailed)
    );
}

#[test]
fn refusal_messages() {
    assert_eq!(refusal_message(AuthError::Unauthorized), "Invalid email or password");
    assert_eq!(
        refusal_message(AuthError::TokenFailed),
        "Failed to generate authentication token"
    );
    assert_eq!(AuthError::Unauthorized.status_code(), 401);
}
