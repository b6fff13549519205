//! Shapes of the requests and answers of the service's interface.

use vstd::prelude::*;

verus! {

/// A login attempt by user name.
#[derive(Clone, Debug, PartialEq, Eq)]
pub struct LoginInfo {
    pub username: String,
    pub password: String,
}

/// The answer to a successful login.
#[derive(Clone, Debug, PartialEq, Eq)]
pub struct LoginResponse {
    pub token: String,
}

/// The claims carried by an access token: whom it was issued to, and the
/// second, counted from the Unix epoch, at which it expires.
#[derive(Clone, Debug, PartialEq, Eq)]
pub struct Claims {
    pub sub: String,
    pub exp: usize,
}

/// A website as its owner submits it.
#[derive(Clone, Debug, PartialEq, Eq)]
pub struct Website {
    pub url: String,
    pub user_id: u128,
    pub disabled: bool,
}

/// Names one website of one user.
#[derive(Clone, Copy, Debug, PartialEq, Eq, Structural)]
pub struct WebsiteQuery {
    pub id: u128,
    pub user_id: u128,
}

/// A registered user.
#[derive(Clone, Debug, PartialEq, Eq)]
pub struct User {
    pub id: u128,
    pub email: String,
}

/// Names one user.
#[derive(Clone, Copy, Debug, PartialEq, Eq, Structural)]
pub struct UserIdQuery {
    pub user_id: u128,
}

} // verus!
