use vstd::prelude::*;
use crate::types::{AuthError, AuthErrors};
use crate::header::{bearer_token, is_space, last_word, lemma_last_word_after_space};
use vstd::utf8::is_ascii_chars;
use std::collections::BTreeMap;
use std::collections::HashSet;
use jsonwebtoken::{Algorithm, DecodingKey, EncodingKey, Header, Validation};

verus! {

/// Lifetime of an access token, in seconds (one hour).
pub const ACCESS_TOKEN_TTL: i64 = 3600;

/// Lifetime of a refresh token, in seconds (seven days).
pub const REFRESH_TOKEN_TTL: i64 = 604800;

/// The error type of jsonwebtoken, carried through opaque.
#[verifier::external_type_specification]
#[verifier::external_body]
pub struct ExJwtError(jsonwebtoken::errors::Error);

/// What a token was decoded to with a given secret, expiry left unchecked: the `id` and `exp`
/// claims, or `None` where the signature or the payload does not check out.
pub uninterp spec fn jwt_claims(secret: Seq<u8>, token: Seq<char>) -> Option<(Option<i64>, Option<i64>)>;

/// A character of a compact token: the URL-safe base64 alphabet and the dot between parts.
pub open spec fn token_char(c: char) -> bool {
    ('A' <= c && c <= 'Z') || ('a' <= c && c <= 'z') || ('0' <= c && c <= '9') || c == '-' || c == '_' || c == '.'
}

/// The text of a compact token: not empty, and made of token characters only.
pub open spec fn token_text(t: Seq<char>) -> bool {
    t.len() > 0 && forall|i: int| 0 <= i < t.len() ==> token_char(#[trigger] t[i])
}

/// Relies on jsonwebtoken::encode with the default header (HS256) and an HMAC key: the signed
/// token carries the claims `id` and `exp`, and jsonwebtoken::decode with the same secret gives
/// them back. It succeeds here: the key's family matches the header's algorithm, a header and a
/// map of strings to integers always serialise, and HMAC signing does not fail. The token is its
/// three parts in unpadded URL-safe base64, joined by dots.
#[verifier::external_body]
fn jwt_encode(secret: &[u8], id: u32, exp: i64) -> (r: Result<String, jsonwebtoken::errors::Error>)
    ensures
        r is Ok,
        r matches Ok(t) ==> jwt_claims(secret@, t@) == Some((Some(id as i64), Some(exp))),
        r matches Ok(t) ==> token_text(t@),
{
    let mut claims: BTreeMap<String, i64> = BTreeMap::new();
    claims.insert("id".to_owned(), id as i64);
    claims.insert("exp".to_owned(), exp);
    jsonwebtoken::encode(&Header::default(), &claims, &EncodingKey::from_secret(secret))
}

/// Relies on jsonwebtoken::decode with an HMAC key, HS256 only and no claim validation: it
/// checks the signature and reads the payload, and its result depends on the token and the
/// secret alone.
#[verifier::external_body]
fn jwt_decode(secret: &[u8], token: &str) -> (r: Option<(Option<i64>, Option<i64>)>)
    ensures
        r == jwt_claims(secret@, token@),
{
    let mut validation = Validation::new(Algorithm::HS256);
    validation.validate_exp = false;
    validation.required_spec_claims = HashSet::new();
    jsonwebtoken::decode::<BTreeMap<String, i64>>(token, &DecodingKey::from_secret(secret), &validation)
        .ok()
        .map(|data| (data.claims.get("id").copied(), data.claims.get("exp").copied()))
}

/// A bound on every instant the clock can read, in seconds since the Unix epoch.
pub const CLOCK_MAX: i64 = 10_000_000_000_000;

/// Relies on chrono::Utc::now: the current time in whole seconds since the Unix epoch. It is not
/// negative (chrono panics on a clock before the epoch) and lies within chrono's range of dates,
/// which ends in the year 262142.
#[verifier::external_body]
fn now_timestamp() -> (r: i64)
    ensures
        0 <= r <= CLOCK_MAX,
{
    chrono::Utc::now().timestamp()
}

/// The claim set of a token: whose it is and when it stops being valid.
#[derive(Debug, Clone, Copy, PartialEq, Eq, Structural)]
pub struct Claims {
    pub id: u32,
    pub exp: i64,
}

/// The two classes of token, each with its own secret and lifetime.
#[derive(Debug, Clone, Copy, PartialEq, Eq, Structural)]
pub enum TokenKind {
    Access,
    Refresh,
}

pub open spec fn token_ttl(kind: TokenKind) -> i64 {
    match kind {
        TokenKind::Access => ACCESS_TOKEN_TTL,
        TokenKind::Refresh => REFRESH_TOKEN_TTL,
    }
}

/// The signing secrets, one per class of token.
pub struct TokenKeys {
    pub access_secret: Vec<u8>,
    pub refresh_secret: Vec<u8>,
}

impl TokenKeys {
    pub open spec fn secret(&self, kind: TokenKind) -> Seq<u8> {
        match kind {
            TokenKind::Access => self.access_secret@,
            TokenKind::Refresh => self.refresh_secret@,
        }
    }

    fn secret_bytes(&self, kind: TokenKind) -> (r: &[u8])
        ensures
            r@ == self.secret(kind),
    {
        match kind {
            TokenKind::Access => self.access_secret.as_slice(),
            TokenKind::Refresh => self.refresh_secret.as_slice(),
        }
    }
}

/// The claims a token carries under a secret, whatever the time.
pub open spec fn signed_claims(secret: Seq<u8>, token: Seq<char>) -> Option<Claims> {
    match jwt_claims(secret, token) {
        Some((Some(id), Some(exp))) => if 0 <= id <= u32::MAX {
            Some(Claims { id: id as u32, exp })
        } else {
            None
        },
        _ => None,
    }
}

/// The claims of a token that is valid at `now`: signed with `secret` and not yet expired.
/// A token expires at the instant `exp` itself.
pub open spec fn valid_claims(secret: Seq<u8>, token: Seq<char>, now: i64) -> Option<Claims> {
    match signed_claims(secret, token) {
        Some(c) => if now < c.exp {
            Some(c)
        } else {
            None
        },
        None => None,
    }
}

/// The token was signed with `secret` for `id`, to expire at `exp`.
pub open spec fn issued(secret: Seq<u8>, token: Seq<char>, id: u32, exp: i64) -> bool {
    jwt_claims(secret, token) == Some((Some(id as i64), Some(exp)))
}

/// The token was signed with `secret` for `id` at the instant `now`, to live `ttl` seconds.
pub open spec fn issued_at(secret: Seq<u8>, token: Seq<char>, id: u32, now: i64, ttl: i64) -> bool {
    issued(secret, token, id, (now + ttl) as i64)
}

/// Signs a token of class `kind` for `user_id` at the instant `now`.
pub fn issue_token(keys: &TokenKeys, kind: TokenKind, user_id: u32, now: i64) -> (r: Result<String, AuthError>)
    ensures
        now + token_ttl(kind) <= i64::MAX ==> (r matches Ok(t) && issued(keys.secret(kind), t@, user_id, (now + token_ttl(kind)) as i64)),
        r matches Ok(t) ==> token_text(t@),
        now + token_ttl(kind) > i64::MAX ==> (r matches Err(e) && e.kind() == AuthErrors::InternalError),
{
    let ttl = match kind {
        TokenKind::Access => ACCESS_TOKEN_TTL,
        TokenKind::Refresh => REFRESH_TOKEN_TTL,
    };
    if now > i64::MAX - ttl {
        return Err(AuthError::new(AuthErrors::InternalError, "Token expiry out of range"));
    }
    match jwt_encode(keys.secret_bytes(kind), user_id, now + ttl) {
        Ok(t) => Ok(t),
        Err(_) => Err(AuthError::new(AuthErrors::InternalError, "Could not sign token")),
    }
}

/// Reads the claims of a token of class `kind` that is valid at the instant `now`.
pub fn check_token(keys: &TokenKeys, kind: TokenKind, token: &str, now: i64) -> (r: Option<Claims>)
    ensures
        r == valid_claims(keys.secret(kind), token@, now),
{
    match jwt_decode(keys.secret_bytes(kind), token) {
        Some((Some(id), Some(exp))) => {
            if 0 <= id && id <= u32::MAX as i64 && now < exp {
                Some(Claims { id: id as u32, exp })
            } else {
                None
            }
        },
        _ => None,
    }
}

/// Signs an access token for `user_id`, valid for an hour from now.
pub fn make_jwt_token(keys: &TokenKeys, user_id: u32) -> (r: Result<String, AuthError>)
    ensures
        r matches Ok(t) && token_text(t@),
        r matches Ok(t) ==> signed_claims(keys.access_secret@, t@) matches Some(c) && c.id == user_id,
        r matches Ok(t) ==> exists|now: i64|
            0 <= now <= CLOCK_MAX && #[trigger] issued_at(keys.access_secret@, t@, user_id, now, ACCESS_TOKEN_TTL),
{
    let now = now_timestamp();
    let r = issue_token(keys, TokenKind::Access, user_id, now);
    proof {
        assert(r matches Ok(t) ==> issued_at(keys.access_secret@, t@, user_id, now, ACCESS_TOKEN_TTL));
    }
    r
}

/// Signs a refresh token for `user_id`, valid for seven days from now.
pub fn make_refresh_token(keys: &TokenKeys, user_id: u32) -> (r: Result<String, AuthError>)
    ensures
        r matches Ok(t) && token_text(t@),
        r matches Ok(t) ==> signed_claims(keys.refresh_secret@, t@) matches Some(c) && c.id == user_id,
        r matches Ok(t) ==> exists|now: i64|
            0 <= now <= CLOCK_MAX && #[trigger] issued_at(keys.refresh_secret@, t@, user_id, now, REFRESH_TOKEN_TTL),
{
    let now = now_timestamp();
    let r = issue_token(keys, TokenKind::Refresh, user_id, now);
    proof {
        assert(r matches Ok(t) ==> issued_at(keys.refresh_secret@, t@, user_id, now, REFRESH_TOKEN_TTL));
    }
    r
}

/// The user id of an access token that is valid now: the token is accepted exactly when it is
/// valid at the instant the clock read.
pub fn verify_jwt_token(keys: &TokenKeys, token: &str) -> (r: Result<u32, AuthError>)
    ensures
        exists|now: i64|
            0 <= now <= CLOCK_MAX
            && (r is Ok <==> #[trigger] valid_claims(keys.access_secret@, token@, now) is Some)
            && (r matches Ok(id) ==> valid_claims(keys.access_secret@, token@, now) matches Some(c) && c.id == id),
        signed_claims(keys.access_secret@, token@) matches Some(c) && c.exp > CLOCK_MAX ==> r is Ok,
        signed_claims(keys.access_secret@, token@) is None ==> r is Err,
        r matches Err(e) ==> e.kind() == AuthErrors::JwtTokenExpired,
{
    let now = now_timestamp();
    let r = match check_token(keys, TokenKind::Access, token, now) {
        Some(c) => Ok(c.id),
        None => Err(AuthError::new(AuthErrors::JwtTokenExpired, "Token was not verified")),
    };
    proof {
        assert((r is Ok <==> valid_claims(keys.access_secret@, token@, now) is Some)
            && (r matches Ok(id) ==> valid_claims(keys.access_secret@, token@, now) matches Some(c) && c.id == id));
    }
    r
}

/// The token that an `Authorization` header value holds, if any.
pub open spec fn header_token(value: Seq<char>) -> Option<Seq<char>> {
    if is_ascii_chars(value) {
        last_word(value)
    } else {
        None
    }
}

/// How a request without a valid token of class `kind` is refused: 401 for an access token,
/// 403 for a refresh token.
pub open spec fn token_refusal(kind: TokenKind) -> AuthErrors {
    match kind {
        TokenKind::Access => AuthErrors::JwtTokenExpired,
        TokenKind::Refresh => AuthErrors::RefreshTokenExpired,
    }
}

/// What the header of a request yields under `kind` at `now`: the token and its claims, or the
/// refusal. A missing or unreadable token is refused as an invalid one is.
pub open spec fn header_claims(keys: TokenKeys, kind: TokenKind, value: Seq<char>, now: i64) -> Result<(Seq<char>, Claims), AuthErrors> {
    match header_token(value) {
        None => Err(token_refusal(kind)),
        Some(t) => match valid_claims(keys.secret(kind), t, now) {
            Some(c) => Ok((t, c)),
            None => Err(token_refusal(kind)),
        },
    }
}

fn read_header(keys: &TokenKeys, kind: TokenKind, value: &str, now: i64) -> (r: Result<(String, Claims), AuthError>)
    ensures
        match header_claims(*keys, kind, value@, now) {
            Ok((t, c)) => r matches Ok(p) && p.0@ == t && p.1 == c,
            Err(k) => r matches Err(e) && e.kind() == k,
        },
{
    let refusal = match kind {
        TokenKind::Access => AuthError::new(AuthErrors::JwtTokenExpired, "Token was not verified"),
        TokenKind::Refresh => AuthError::new(AuthErrors::RefreshTokenExpired, "Refresh token expired"),
    };
    let token = match bearer_token(value) {
        Some(t) => t,
        None => return Err(refusal),
    };
    match check_token(keys, kind, token, now) {
        Some(c) => Ok((token.to_owned(), c)),
        None => Err(refusal),
    }
}

/// A request authorised by a valid access token.
pub struct AuthHeader {
    pub claims: Claims,
    pub token: String,
}

impl AuthHeader {
    /// Reads the access token of an `Authorization` header value (empty where the header is
    /// missing) and checks it at `now`.
    pub fn from_authorization(keys: &TokenKeys, value: &str, now: i64) -> (r: Result<AuthHeader, AuthError>)
        ensures
            match header_claims(*keys, TokenKind::Access, value@, now) {
                Ok((t, c)) => r matches Ok(h) && h.token@ == t && h.claims == c,
                Err(k) => r matches Err(e) && e.kind() == k,
            },
    {
        match read_header(keys, TokenKind::Access, value, now) {
            Ok((token, claims)) => Ok(AuthHeader { claims, token }),
            Err(e) => Err(e),
        }
    }
}

/// A request that carries a valid refresh token.
pub struct RefreshHeader {
    pub claims: Claims,
    pub token: String,
}

impl RefreshHeader {
    /// Reads the refresh token of an `Authorization` header value (empty where the header is
    /// missing) and checks its signature and expiry at `now`.
    pub fn from_authorization(keys: &TokenKeys, value: &str, now: i64) -> (r: Result<RefreshHeader, AuthError>)
        ensures
            match header_claims(*keys, TokenKind::Refresh, value@, now) {
                Ok((t, c)) => r matches Ok(h) && h.token@ == t && h.claims == c,
                Err(k) => r matches Err(e) && e.kind() == k,
            },
    {
        match read_header(keys, TokenKind::Refresh, value, now) {
            Ok((token, claims)) => Ok(RefreshHeader { claims, token }),
            Err(e) => Err(e),
        }
    }
}

/// The refresh token to evict from the ledger when a refresh is refused: the one the header
/// carries, where it does not verify at `now` (expired or forged). `None` where the header holds
/// no token or a valid one.
pub fn stale_refresh_token<'a>(keys: &TokenKeys, value: &'a str, now: i64) -> (r: Option<&'a str>)
    ensures
        match header_token(value@) {
            Some(t) => if valid_claims(keys.refresh_secret@, t, now) is None {
                r matches Some(s) && s@ == t
            } else {
                r is None
            },
            None => r is None,
        },
{
    match bearer_token(value) {
        Some(t) => match check_token(keys, TokenKind::Refresh, t, now) {
            Some(_) => None,
            None => Some(t),
        },
        None => None,
    }
}

/// A token as issued, sent as `Bearer <token>` before it expires, is read back from the header
/// with the claims it was issued with.
pub proof fn lemma_issued_token_in_header(keys: TokenKeys, kind: TokenKind, t: Seq<char>, id: u32, exp: i64, now: i64)
    requires
        issued(keys.secret(kind), t, id, exp),
        token_text(t),
        now < exp,
    ensures
        header_claims(keys, kind, "Bearer "@ + t, now) == Ok::<(Seq<char>, Claims), AuthErrors>((t, Claims { id, exp })),
{
    reveal_strlit("Bearer ");
    let p = "Bearer "@;
    assert(p.last() == ' ');
    assert forall|i: int| 0 <= i < t.len() implies !is_space(#[trigger] t[i]) by {
        assert(token_char(t[i]));
    }
    lemma_last_word_after_space(p, t);
    let v = p + t;
    assert forall|i: int| 0 <= i < v.len() implies '\0' <= #[trigger] v[i] <= '\u{7f}' by {
        if i >= p.len() {
            assert(v[i] == t[i - p.len()]);
            assert(token_char(t[i - p.len()]));
        }
    }
}

} // verus!
