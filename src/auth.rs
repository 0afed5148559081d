use vstd::prelude::*;
use crate::password::{password_matches, verify_password};
use crate::token::{
    check_token, header_claims, issue_token, issued, lemma_issued_token_in_header, token_text, valid_claims, Claims, RefreshHeader, TokenKeys, TokenKind,
    ACCESS_TOKEN_TTL, REFRESH_TOKEN_TTL,
};
use crate::types::{AuthError, AuthErrors};

verus! {

/// The body of a registration request.
pub struct UserRegister {
    pub username: String,
    pub email: String,
    pub password: String,
}

/// The body of a login request.
pub struct UserLogin {
    pub email: String,
    pub password: String,
}

/// The query of a validation request.
pub struct QueryValidate {
    pub token: String,
}

/// The body of a logout request.
pub struct LogoutBody {
    pub refresh_token: String,
}

/// The two tokens handed out on registration and login.
pub struct TokensResponse {
    pub jwt_token: String,
    pub refresh_token: String,
}

/// A password is between 4 and 64 characters long.
pub open spec fn password_ok(password: Seq<char>) -> bool {
    4 <= password.len() <= 64
}

/// A username is between 1 and 32 characters long, an email is not empty.
pub open spec fn register_input_ok(username: Seq<char>, email: Seq<char>, password: Seq<char>) -> bool {
    1 <= username.len() <= 32 && email.len() > 0 && password_ok(password)
}

pub open spec fn login_input_ok(email: Seq<char>, password: Seq<char>) -> bool {
    email.len() > 0 && password_ok(password)
}

fn password_in_bounds(password: &String) -> (r: bool)
    ensures
        r == password_ok(password@),
{
    let n = password.as_str().unicode_len();
    4 <= n && n <= 64
}

impl UserRegister {
    pub open spec fn input_ok(&self) -> bool {
        register_input_ok(self.username@, self.email@, self.password@)
    }

    /// Refuses a registration whose fields are out of bounds.
    pub fn check(&self) -> (r: Result<(), AuthError>)
        ensures
            r is Ok <==> self.input_ok(),
            r matches Err(e) ==> e.kind() == AuthErrors::BadData,
    {
        let n = self.username.as_str().unicode_len();
        if 1 <= n && n <= 32 && self.email.as_str().unicode_len() > 0 && password_in_bounds(&self.password) {
            Ok(())
        } else {
            Err(AuthError::new(AuthErrors::BadData, "Provided data is bad"))
        }
    }
}

impl UserLogin {
    pub open spec fn input_ok(&self) -> bool {
        login_input_ok(self.email@, self.password@)
    }

    /// Refuses a login whose fields are out of bounds.
    pub fn check(&self) -> (r: Result<(), AuthError>)
        ensures
            r is Ok <==> self.input_ok(),
            r matches Err(e) ==> e.kind() == AuthErrors::BadData,
    {
        if self.email.as_str().unicode_len() > 0 && password_in_bounds(&self.password) {
            Ok(())
        } else {
            Err(AuthError::new(AuthErrors::BadData, "Provided data is bad"))
        }
    }
}

/// Both tokens of a session for `id`, issued at `now`.
pub open spec fn session_issued(keys: TokenKeys, t: TokensResponse, id: u32, now: i64) -> bool {
    &&& issued(keys.access_secret@, t.jwt_token@, id, (now + ACCESS_TOKEN_TTL) as i64)
    &&& issued(keys.refresh_secret@, t.refresh_token@, id, (now + REFRESH_TOKEN_TTL) as i64)
    &&& token_text(t.jwt_token@)
    &&& token_text(t.refresh_token@)
}

/// Both expiry instants of a session begun at `now` fit in the claims.
pub open spec fn session_fits(now: i64) -> bool {
    now + REFRESH_TOKEN_TTL <= i64::MAX
}

fn issue_session(keys: &TokenKeys, id: u32, now: i64) -> (r: Result<TokensResponse, AuthError>)
    ensures
        session_fits(now) ==> (r matches Ok(t) && session_issued(*keys, t, id, now)),
        !session_fits(now) ==> (r matches Err(e) && e.kind() == AuthErrors::InternalError),
{
    let jwt_token = issue_token(keys, TokenKind::Access, id, now)?;
    let refresh_token = issue_token(keys, TokenKind::Refresh, id, now)?;
    Ok(TokensResponse { jwt_token, refresh_token })
}

/// Why a registration is refused, if it is: bad input first, then a taken email or username.
pub open spec fn register_refusal(user: UserRegister, created: Option<u32>) -> Option<AuthErrors> {
    if !user.input_ok() {
        Some(AuthErrors::BadData)
    } else if created is None {
        Some(AuthErrors::UserAlreadyExists)
    } else {
        None
    }
}

/// Completes a registration once the credential store has answered: `created` is the id of the
/// new user, or `None` where the email or username was taken. On success the caller records the
/// refresh token in the ledger.
pub fn register(keys: &TokenKeys, user: &UserRegister, created: Option<u32>, now: i64) -> (r: Result<TokensResponse, AuthError>)
    ensures
        match register_refusal(*user, created) {
            Some(k) => (r matches Err(e) && e.kind() == k),
            None => if session_fits(now) {
                r matches Ok(t) && session_issued(*keys, t, created->0, now)
            } else {
                r matches Err(e) && e.kind() == AuthErrors::InternalError
            },
        },
{
    user.check()?;
    match created {
        Some(id) => issue_session(keys, id, now),
        None => Err(AuthError::new(AuthErrors::UserAlreadyExists, "User is already registered")),
    }
}

/// Why a login is refused, if it is: bad input, then an unknown email, then a wrong password.
pub open spec fn login_refusal(user: UserLogin, account: Option<(u32, String)>) -> Option<AuthErrors> {
    if !user.input_ok() {
        Some(AuthErrors::BadData)
    } else {
        match account {
            None => Some(AuthErrors::UserNotExists),
            Some((_, h)) => if password_matches(user.password@, h@) {
                None
            } else {
                Some(AuthErrors::InvalidCreds)
            },
        }
    }
}

/// Completes a login once the credential store has answered: `account` is the id and stored
/// password hash of the user with the given email, or `None` where there is none. On success
/// the caller records the refresh token in the ledger.
pub fn login(keys: &TokenKeys, user: &UserLogin, account: Option<(u32, String)>, now: i64) -> (r: Result<TokensResponse, AuthError>)
    ensures
        match login_refusal(*user, account) {
            Some(k) => (r matches Err(e) && e.kind() == k),
            None => if session_fits(now) {
                r matches Ok(t) && session_issued(*keys, t, (account->0).0, now)
            } else {
                r matches Err(e) && e.kind() == AuthErrors::InternalError
            },
        },
{
    user.check()?;
    match account {
        None => Err(AuthError::new(AuthErrors::UserNotExists, "User does not exist")),
        Some((id, hash)) => {
            if verify_password(user.password.as_str(), hash.as_str()) {
                issue_session(keys, id, now)
            } else {
                Err(AuthError::new(AuthErrors::InvalidCreds, "Invalid credentials"))
            }
        },
    }
}

/// Issues a new access token for the holder of a refresh token. `in_ledger` is whether the
/// ledger still holds the token: it is authoritative, so a revoked token is refused even while
/// its signature and expiry are valid. The refresh token itself is not rotated.
pub fn update_jwt_token(keys: &TokenKeys, header: &RefreshHeader, in_ledger: bool, now: i64) -> (r: Result<String, AuthError>)
    ensures
        !in_ledger ==> (r matches Err(e) && e.kind() == AuthErrors::RefreshTokenExpired),
        in_ledger && now + ACCESS_TOKEN_TTL <= i64::MAX
            ==> (r matches Ok(t) && issued(keys.access_secret@, t@, header.claims.id, (now + ACCESS_TOKEN_TTL) as i64)),
        in_ledger && now + ACCESS_TOKEN_TTL > i64::MAX
            ==> (r matches Err(e) && e.kind() == AuthErrors::InternalError),
{
    if !in_ledger {
        return Err(AuthError::new(AuthErrors::RefreshTokenExpired, "Refresh token expired"));
    }
    issue_token(keys, TokenKind::Access, header.claims.id, now)
}

/// Checks an access token at `now`, changing nothing.
pub fn validate(keys: &TokenKeys, query: &QueryValidate, now: i64) -> (r: Result<(), AuthError>)
    ensures
        r is Ok <==> valid_claims(keys.access_secret@, query.token@, now) is Some,
        r matches Err(e) ==> e.kind() == AuthErrors::JwtTokenExpired,
{
    match check_token(keys, TokenKind::Access, query.token.as_str(), now) {
        Some(_) => Ok(()),
        None => Err(AuthError::new(AuthErrors::JwtTokenExpired, "Token was not verified")),
    }
}

/// Both tokens of a new session verify, at the instant of issue, to the user they were issued
/// for: the access token under the access secret, the refresh token under the refresh secret,
/// whether checked as they are or sent as `Bearer <token>` headers.
pub proof fn lemma_session_tokens_verify(keys: TokenKeys, t: TokensResponse, id: u32, now: i64)
    requires
        session_issued(keys, t, id, now),
        session_fits(now),
    ensures
        valid_claims(keys.access_secret@, t.jwt_token@, now)
            == Some(Claims { id, exp: (now + ACCESS_TOKEN_TTL) as i64 }),
        valid_claims(keys.refresh_secret@, t.refresh_token@, now)
            == Some(Claims { id, exp: (now + REFRESH_TOKEN_TTL) as i64 }),
        header_claims(keys, TokenKind::Access, "Bearer "@ + t.jwt_token@, now)
            == Ok::<(Seq<char>, Claims), AuthErrors>((t.jwt_token@, Claims { id, exp: (now + ACCESS_TOKEN_TTL) as i64 })),
        header_claims(keys, TokenKind::Refresh, "Bearer "@ + t.refresh_token@, now)
            == Ok::<(Seq<char>, Claims), AuthErrors>((t.refresh_token@, Claims { id, exp: (now + REFRESH_TOKEN_TTL) as i64 })),
{
    lemma_issued_token_in_header(keys, TokenKind::Access, t.jwt_token@, id, (now + ACCESS_TOKEN_TTL) as i64, now);
    lemma_issued_token_in_header(keys, TokenKind::Refresh, t.refresh_token@, id, (now + REFRESH_TOKEN_TTL) as i64, now);
}

/// A token is valid up to its expiry instant and at no instant from then on.
pub proof fn lemma_token_valid_until_expiry(secret: Seq<u8>, token: Seq<char>, id: u32, exp: i64, now: i64)
    requires
        issued(secret, token, id, exp),
    ensures
        valid_claims(secret, token, now) is Some <==> now < exp,
        now < exp ==> valid_claims(secret, token, now) == Some(Claims { id, exp }),
{
}

/// A login with a known email and a wrong password is refused for bad credentials, never as an
/// unknown user.
pub proof fn lemma_wrong_password_is_invalid_creds(user: UserLogin, id: u32, hash: String)
    requires
        user.input_ok(),
        !password_matches(user.password@, hash@),
    ensures
        login_refusal(user, Some((id, hash))) == Some(AuthErrors::InvalidCreds),
{
}

} // verus!
