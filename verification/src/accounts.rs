//! Accounts with a stored password: signing up and logging in by e-mail
//! address.

use argon2::password_hash::{PasswordHash, PasswordHasher, PasswordVerifier, SaltString};
use argon2::Argon2;
use vstd::prelude::*;
use crate::auth::{login_token, token_for, AuthError};

verus! {

/// A login attempt by e-mail address.
#[derive(Clone, Debug, PartialEq, Eq)]
pub struct LoginInfo {
    pub email: String,
    pub password: String,
}

/// The answer to a successful login.
#[derive(Clone, Debug, PartialEq, Eq)]
pub struct LoginResponse {
    pub token: String,
    pub user_id: u128,
}

/// What is stored of a user to check a password against.
#[derive(Clone, Debug, PartialEq, Eq)]
pub struct StoredCredentials {
    pub user_id: u128,
    /// The password hash in PHC string format.
    pub password_hash: String,
}

/// A request to sign up. The identifier is optional: a fresh one is drawn
/// where none is given.
#[derive(Clone, Debug, PartialEq, Eq)]
pub struct UserRegister {
    pub username: String,
    pub password: String,
    pub email: String,
    pub id: Option<u128>,
}

/// A user as it is stored on signing up.
#[derive(Clone, Debug, PartialEq, Eq)]
pub struct NewUser {
    pub id: u128,
    pub username: String,
    pub email: String,
    pub password_hash: String,
}

/// Whether Argon2 with its default parameters accepts the password for the
/// hash stored in PHC string format. A text that is no such hash accepts
/// nothing.
pub uninterp spec fn argon2_accepts(password: Seq<char>, stored_hash: Seq<char>) -> bool;

/// The Argon2 hash, in PHC string format, of the password under a salt given
/// in Base64 without padding, `None` where the salt is not acceptable.
pub uninterp spec fn argon2_phc(password: Seq<char>, salt: Seq<char>) -> Option<Seq<char>>;

/// `PasswordHash::new` and `PasswordVerifier::verify_password` on
/// `Argon2::default()`: parses the stored hash and recomputes it from the
/// password with the parameters and salt that it names. The answer is a
/// function of the two texts.
#[verifier::external_body]
fn verify_password(password: &str, stored_hash: &str) -> (accepted: bool)
    ensures
        accepted == argon2_accepts(password@, stored_hash@),
{
    match PasswordHash::new(stored_hash) {
        Ok(parsed) => Argon2::default().verify_password(password.as_bytes(), &parsed).is_ok(),
        Err(_) => false,
    }
}

/// `SaltString::from_b64` and `PasswordHasher::hash_password` on
/// `Argon2::default()`: hashes the password under the salt. The hash is a
/// function of the two texts.
#[verifier::external_body]
fn argon2_hash(password: &str, salt: &str) -> (hash: Option<String>)
    ensures
        match hash {
            Some(h) => argon2_phc(password@, salt@) == Some(h@),
            None => argon2_phc(password@, salt@) is None,
        },
{
    match SaltString::from_b64(salt) {
        Ok(salt) => Argon2::default().hash_password(password.as_bytes(), &salt).ok().map(
            |hash| hash.to_string(),
        ),
        Err(_) => None,
    }
}

/// The user that a password check lets in: the one whose credentials were
/// found, if the password was accepted for them.
pub fn admitted(user_id: Option<u128>, accepted: bool) -> (r: Option<u128>)
    ensures
        r == if accepted {
            user_id
        } else {
            None
        },
{
    if accepted {
        user_id
    } else {
        None
    }
}

/// Checks a password against the credentials found for an e-mail address:
/// the user's identifier if credentials were found and the password is
/// accepted for their hash, `None` otherwise.
pub fn is_valid_user(found: Option<&StoredCredentials>, password: &str) -> (r: Option<u128>)
    ensures
        r == match found {
            Some(stored) => if argon2_accepts(password@, stored.password_hash@) {
                Some(stored.user_id)
            } else {
                None
            },
            None => None,
        },
{
    match found {
        Some(stored) => admitted(
            Some(stored.user_id),
            verify_password(password, stored.password_hash.as_str()),
        ),
        None => None,
    }
}

/// The answer to a login by e-mail address, given the user that the
/// password check let in and the token encoded for the address.
pub fn login_response(user_id: Option<u128>, token: Option<String>) -> (r: Result<
    LoginResponse,
    AuthError,
>)
    ensures
        match r {
            Ok(response) => {
                &&& user_id == Some(response.user_id)
                &&& token matches Some(t) && response.token@ == t@
            },
            Err(AuthError::Unauthorized) => user_id is None,
            Err(AuthError::TokenFailed) => user_id is Some && token is None,
        },
{
    match user_id {
        None => Err(AuthError::Unauthorized),
        Some(user_id) => match token {
            Some(token) => Ok(LoginResponse { token, user_id }),
            None => Err(AuthError::TokenFailed),
        },
    }
}

/// What a refused login is told: the same whether the address is unknown
/// or the password wrong.
pub fn refusal_message(error: AuthError) -> (text: &'static str)
    ensures
        text@ == match error {
            AuthError::Unauthorized => "Invalid email or password"@,
            AuthError::TokenFailed => "Failed to generate authentication token"@,
        },
{
    match error {
        AuthError::Unauthorized => "Invalid email or password",
        AuthError::TokenFailed => "Failed to generate authentication token",
    }
}

/// Answers a login by e-mail address: `Unauthorized` unless credentials
/// were found and the password is accepted for them, otherwise the user's
/// identifier and a token for the address that expires eight hours after
/// `now`, or `TokenFailed` where no such token can be encoded. A refused
/// login is answered `Unauthorized` whatever the clock and the secret are.
pub fn login_handler(
    found: Option<&StoredCredentials>,
    info: &LoginInfo,
    now: i64,
    secret: &str,
) -> (r: Result<LoginResponse, AuthError>)
    ensures
        match r {
            Ok(response) => {
                &&& found matches Some(stored) && argon2_accepts(
                    info.password@,
                    stored.password_hash@,
                ) && response.user_id == stored.user_id
                &&& login_token(info.email@, now, secret@) == Some(response.token@)
            },
            Err(AuthError::Unauthorized) => !(found matches Some(stored) && argon2_accepts(
                info.password@,
                stored.password_hash@,
            )),
            Err(AuthError::TokenFailed) => {
                &&& found matches Some(stored) && argon2_accepts(
                    info.password@,
                    stored.password_hash@,
                )
                &&& login_token(info.email@, now, secret@) is None
            },
        },
{
    let user_id = is_valid_user(found, info.password.as_str());
    let token = if user_id.is_some() {
        token_for(info.email.as_str(), now, secret)
    } else {
        None
    };
    login_response(user_id, token)
}

/// The user to store for a sign-up request, given the hash of its password
/// and a fresh identifier: the request's own identifier is kept where it
/// has one. `None` where the password could not be hashed.
pub fn new_user(request: &UserRegister, password_hash: Option<String>, fresh_id: u128) -> (r:
    Option<NewUser>)
    ensures
        match r {
            Some(user) => {
                &&& password_hash matches Some(h) && user.password_hash@ == h@
                &&& user.id == match request.id {
                    Some(id) => id,
                    None => fresh_id,
                }
                &&& user.username@ == request.username@
                &&& user.email@ == request.email@
            },
            None => password_hash is None,
        },
{
    match password_hash {
        Some(password_hash) => Some(
            NewUser {
                id: match request.id {
                    Some(id) => id,
                    None => fresh_id,
                },
                username: request.username.clone(),
                email: request.email.clone(),
                password_hash,
            },
        ),
        None => None,
    }
}

/// Prepares the user to store for a sign-up request: the password is hashed
/// under `salt`, which the caller draws at random, as `fresh_id`.
pub fn signup_handler(request: &UserRegister, salt: &str, fresh_id: u128) -> (r: Option<NewUser>)
    ensures
        match r {
            Some(user) => {
                &&& argon2_phc(request.password@, salt@) == Some(user.password_hash@)
                &&& user.id == match request.id {
                    Some(id) => id,
                    None => fresh_id,
                }
                &&& user.username@ == request.username@
                &&& user.email@ == request.email@
            },
            None => argon2_phc(request.password@, salt@) is None,
        },
{
    new_user(request, argon2_hash(request.password.as_str(), salt), fresh_id)
}

} // verus!
