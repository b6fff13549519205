//! Logging in by user name and checking the bearer token of a request.

use jsonwebtoken::{decode, encode, DecodingKey, EncodingKey, Header, Validation};
use vstd::prelude::*;
use crate::models::{Claims, LoginInfo, LoginResponse};

verus! {

/// Seconds for which an access token is valid: eight hours.
pub const TOKEN_LIFETIME_SECONDS: i64 = 28_800;

/// Why a request was turned away.
#[derive(Clone, Copy, Debug, PartialEq, Eq, Structural)]
pub enum AuthError {
    /// The credentials or the token were not accepted.
    Unauthorized,
    /// The credentials were accepted and no token could be issued.
    TokenFailed,
}

impl AuthError {
    /// HTTP status of the refusal: 401 or 500.
    pub fn status_code(&self) -> (code: u16)
        ensures
            code == match *self {
                AuthError::Unauthorized => 401u16,
                AuthError::TokenFailed => 500u16,
            },
    {
        match self {
            AuthError::Unauthorized => 401,
            AuthError::TokenFailed => 500,
        }
    }
}

/// A login attempt is well-formed when neither the user name nor the password
/// is empty.
pub fn is_valid_user(username: &str, password: &str) -> (ok: bool)
    ensures
        ok == (username@.len() > 0 && password@.len() > 0),
{
    username.unicode_len() > 0 && password.unicode_len() > 0
}

/// The second at which a token issued at `now` expires, `None` where that
/// second lies before the epoch or does not fit the machine's word.
pub open spec fn expiry(now: i64) -> Option<usize> {
    if 0 <= now + TOKEN_LIFETIME_SECONDS <= usize::MAX {
        Some((now + TOKEN_LIFETIME_SECONDS) as usize)
    } else {
        None
    }
}

pub fn expiry_at(now: i64) -> (exp: Option<usize>)
    ensures
        exp == expiry(now),
{
    let at = now as i128 + TOKEN_LIFETIME_SECONDS as i128;
    if at < 0 || at > usize::MAX as i128 {
        None
    } else {
        Some(at as usize)
    }
}

/// The HS256-signed token that carries the claims `sub` and `exp` under a
/// secret, `None` where it cannot be encoded.
pub uninterp spec fn hs256_token(sub: Seq<char>, exp: usize, secret: Seq<char>) -> Option<
    Seq<char>,
>;

/// `jsonwebtoken::encode` with the default header, which selects HS256, and
/// a key made from the secret's bytes: signs a claims object with the
/// members `sub` and `exp`. The token is a function of the three values.
#[verifier::external_body]
fn encode_token(claims: &Claims, secret: &str) -> (token: Option<String>)
    ensures
        match token {
            Some(t) => hs256_token(claims.sub@, claims.exp, secret@) == Some(t@),
            None => hs256_token(claims.sub@, claims.exp, secret@) is None,
        },
{
    let mut body = serde_json::Map::new();
    body.insert("sub".to_string(), serde_json::Value::from(claims.sub.as_str()));
    body.insert("exp".to_string(), serde_json::Value::from(claims.exp));
    encode(&Header::default(), &body, &EncodingKey::from_secret(secret.as_bytes())).ok()
}

/// What a token that passed verification carries under `sub` and `exp`:
/// a member that is missing or of another type is `None`.
#[derive(Clone, Debug, PartialEq, Eq)]
pub struct TokenBody {
    pub sub: Option<String>,
    pub exp: Option<u64>,
}

/// `jsonwebtoken::decode` with the default validation: checks the HS256
/// signature under the secret and that the token has not expired by the
/// system clock. Nothing is claimed of the result, which changes with time.
#[verifier::external_body]
fn decode_token(token: &str, secret: &str) -> (body: Option<TokenBody>) {
    let key = DecodingKey::from_secret(secret.as_bytes());
    match decode::<serde_json::Value>(token, &key, &Validation::default()) {
        Ok(data) => Some(
            TokenBody {
                sub: data.claims.get("sub").and_then(|v| v.as_str()).map(|s| s.to_string()),
                exp: data.claims.get("exp").and_then(|v| v.as_u64()),
            },
        ),
        Err(_) => None,
    }
}

/// The claims of a verified token: present when the token names a subject
/// and an expiry that fits the machine's word.
pub fn claims_of(body: TokenBody) -> (claims: Option<Claims>)
    ensures
        match claims {
            Some(c) => body.sub matches Some(sub) && body.exp matches Some(exp) && c.sub@ == sub@
                && c.exp == exp && exp <= usize::MAX,
            None => body.sub is None || body.exp is None || body.exp->0 > usize::MAX,
        },
{
    match (body.sub, body.exp) {
        (Some(sub), Some(exp)) => {
            if exp <= usize::MAX as u64 {
                Some(Claims { sub, exp: exp as usize })
            } else {
                None
            }
        },
        _ => None,
    }
}

/// The claims issued to `subject` at `now`.
pub fn issue_claims(subject: &str, now: i64) -> (claims: Option<Claims>)
    ensures
        match claims {
            Some(c) => c.sub@ == subject@ && expiry(now) == Some(c.exp),
            None => expiry(now) is None,
        },
{
    match expiry_at(now) {
        Some(exp) => Some(Claims { sub: subject.to_owned(), exp }),
        None => None,
    }
}

/// The answer to a login whose credentials and claims are settled: the
/// token if there is one, `TokenFailed` otherwise.
pub fn login_response(token: Option<String>) -> (r: Result<LoginResponse, AuthError>)
    ensures
        match r {
            Ok(response) => token matches Some(t) && response.token@ == t@,
            Err(e) => token is None && e == AuthError::TokenFailed,
        },
{
    match token {
        Some(token) => Ok(LoginResponse { token }),
        None => Err(AuthError::TokenFailed),
    }
}

/// The token that a login at `now` is answered with.
pub open spec fn login_token(username: Seq<char>, now: i64, secret: Seq<char>) -> Option<
    Seq<char>,
> {
    match expiry(now) {
        Some(exp) => hs256_token(username, exp, secret),
        None => None,
    }
}

/// Issues and encodes the token for `subject` at `now`.
pub fn token_for(subject: &str, now: i64, secret: &str) -> (token: Option<String>)
    ensures
        match token {
            Some(t) => login_token(subject@, now, secret@) == Some(t@),
            None => login_token(subject@, now, secret@) is None,
        },
{
    match issue_claims(subject, now) {
        Some(claims) => encode_token(&claims, secret),
        None => None,
    }
}

/// Answers a login by user name: `Unauthorized` unless user name and
/// password are both given, otherwise a token for the user name that expires
/// eight hours after `now`.
pub fn login_handler(info: &LoginInfo, now: i64, secret: &str) -> (r: Result<
    LoginResponse,
    AuthError,
>)
    ensures
        match r {
            Ok(response) => info.username@.len() > 0 && info.password@.len() > 0 && login_token(
                info.username@,
                now,
                secret@,
            ) == Some(response.token@),
            Err(AuthError::Unauthorized) => !(info.username@.len() > 0 && info.password@.len()
                > 0),
            Err(AuthError::TokenFailed) => info.username@.len() > 0 && info.password@.len() > 0
                && login_token(info.username@, now, secret@) is None,
        },
{
    if !is_valid_user(info.username.as_str(), info.password.as_str()) {
        return Err(AuthError::Unauthorized);
    }
    login_response(token_for(info.username.as_str(), now, secret))
}

/// The scheme that an authorization header has to open with.
pub open spec fn bearer_prefix() -> Seq<char> {
    seq!['B', 'e', 'a', 'r', 'e', 'r', ' ']
}

/// Whether `text` opens with the bearer scheme.
pub open spec fn opens_with_bearer(text: Seq<char>) -> bool {
    text.len() >= 7 && text.subrange(0, 7) == bearer_prefix()
}

/// `text` without every repetition of the bearer scheme at its start.
pub open spec fn without_bearer(text: Seq<char>) -> Seq<char>
    decreases text.len(),
{
    if opens_with_bearer(text) {
        without_bearer(text.skip(7))
    } else {
        text
    }
}

/// The token of an authorization header: what follows the bearer scheme,
/// `None` where the header does not open with it.
pub open spec fn bearer_token_of(header: Seq<char>) -> Option<Seq<char>> {
    if opens_with_bearer(header) {
        Some(without_bearer(header))
    } else {
        None
    }
}

fn bearer_at(header: &str, len: usize, at: usize) -> (found: bool)
    requires
        len == header@.len(),
        at <= len,
    ensures
        found == opens_with_bearer(header@.skip(at as int)),
{
    let ghost rest = header@.skip(at as int);
    if len - at < 7 {
        return false;
    }
    let found = header.get_char(at) == 'B' && header.get_char(at + 1) == 'e' && header.get_char(
        at + 2,
    ) == 'a' && header.get_char(at + 3) == 'r' && header.get_char(at + 4) == 'e'
        && header.get_char(at + 5) == 'r' && header.get_char(at + 6) == ' ';
    proof {
        let head = rest.subrange(0, 7);
        assert(head.len() == 7);
        assert(forall|k: int| 0 <= k < 7 ==> head[k] == header@[at + k]);
        if found {
            assert(head =~= bearer_prefix());
        } else {
            assert(head != bearer_prefix()) by {
                if head == bearer_prefix() {
                    assert(head[0] == 'B' && head[1] == 'e' && head[2] == 'a' && head[3] == 'r'
                        && head[4] == 'e' && head[5] == 'r' && head[6] == ' ');
                }
            }
        }
    }
    found
}

/// Reads the token out of an authorization header.
pub fn bearer_token(header: &str) -> (token: Option<String>)
    ensures
        match token {
            Some(t) => bearer_token_of(header@) == Some(t@),
            None => bearer_token_of(header@) is None,
        },
{
    let len = header.unicode_len();
    assert(header@.skip(0) =~= header@);
    if !bearer_at(header, len, 0) {
        return None;
    }
    let mut at: usize = 0;
    while bearer_at(header, len, at)
        invariant
            len == header@.len(),
            at <= len,
            without_bearer(header@) == without_bearer(header@.skip(at as int)),
        decreases len - at,
    {
        assert(header@.skip(at as int).skip(7) =~= header@.skip(at + 7));
        at = at + 7;
    }
    let rest = header.substring_char(at, len);
    assert(header@.subrange(at as int, len as int) =~= header@.skip(at as int));
    Some(rest.to_owned())
}

/// The answer to a request whose token was looked at: `Authorized` when
/// the token carries claims, `Unauthorized` otherwise.
pub fn authorization(claims: Option<Claims>) -> (r: Result<String, AuthError>)
    ensures
        match r {
            Ok(text) => claims is Some && text@ == "Authorized"@,
            Err(e) => claims is None && e == AuthError::Unauthorized,
        },
{
    match claims {
        Some(_) => Ok("Authorized".to_owned()),
        None => Err(AuthError::Unauthorized),
    }
}

/// Checks the authorization header of a request: it has to be there, open
/// with the bearer scheme, and carry a token that verifies under the secret
/// and names a subject and an expiry. A request without such a header is
/// turned away without a look at the clock.
pub fn get_info_handler(header: Option<&str>, secret: &str) -> (r: Result<String, AuthError>)
    ensures
        match r {
            Ok(text) => {
                &&& text@ == "Authorized"@
                &&& header matches Some(h) && bearer_token_of(h@) is Some
            },
            Err(e) => e == AuthError::Unauthorized,
        },
{
    let token = match header {
        Some(text) => bearer_token(text),
        None => None,
    };
    let claims = match token {
        Some(token) => match decode_token(token.as_str(), secret) {
            Some(body) => claims_of(body),
            None => None,
        },
        None => None,
    };
    authorization(claims)
}

} // verus!
