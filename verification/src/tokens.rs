use vstd::prelude::*;

use crate::clock::now_unix;
use crate::digest::{sha256_hex, token_digest};
use crate::error::{result_view, text, AppError, ErrorView};
use crate::jwt::{hs256_token, is_json_value, sign_token};
use crate::models::{AuthenticatedUser, Claims, ClaimsView, TokenPairResponse, TokenPairView};
use crate::role::Role;

verus! {

/// Lifetime of an access token: 15 minutes.
pub const ACCESS_TOKEN_TTL_SECS: usize = 15 * 60;

/// Lifetime of a refresh token and of its session row: 7 days.
pub const REFRESH_TOKEN_TTL_SECS: usize = 7 * 24 * 60 * 60;

/// The claims of a token of the given type for a user, expiring at `exp`, at the given
/// rotation of the user's refresh chain.
pub open spec fn claims_of(sub: u128, role: Role, token_type: Seq<char>, exp: int, rotation: u64) -> ClaimsView {
    ClaimsView { sub, role, token_type, exp: exp as usize, rotation }
}

/// The claims of a token of type `token_type` for `sub`, at rotation `rotation`, issued at
/// `now` and valid for `ttl_secs` seconds. An expiry beyond the range of `usize` is an
/// internal error.
pub fn claims_at(
    sub: u128,
    role: Role,
    token_type: &str,
    ttl_secs: usize,
    now: usize,
    rotation: u64,
) -> (res: Result<
    Claims,
    AppError,
>)
    ensures
        now + ttl_secs <= usize::MAX ==> (res matches Ok(c) && c@ == claims_of(
            sub,
            role,
            token_type@,
            now + ttl_secs,
            rotation,
        )),
        now + ttl_secs > usize::MAX ==> (res matches Err(e) && e@ == ErrorView::Internal(
            "token expiry out of range"@,
        )),
{
    match now.checked_add(ttl_secs) {
        Some(exp) => Ok(Claims { sub, role, token_type: text(token_type), exp, rotation }),
        None => Err(AppError::internal("token expiry out of range")),
    }
}

/// The signing secret, from the value of the `JWT_SECRET` setting: a missing setting is
/// an internal error.
pub fn jwt_secret(setting: Option<String>) -> (res: Result<String, AppError>)
    ensures
        match setting {
            Some(s) => res == Ok::<String, AppError>(s),
            None => res matches Err(e) && e@ == ErrorView::Internal("JWT_SECRET not set"@),
        },
{
    match setting {
        Some(s) => Ok(s),
        None => Err(AppError::internal("JWT_SECRET not set")),
    }
}

/// The claims of both tokens of a pair, with the secret to sign them with and the clock
/// readings (seconds since the epoch) that each token's lifetime was counted from.
#[derive(Debug, Clone, PartialEq, Eq)]
pub struct TokenPairClaims {
    pub access: Claims,
    pub refresh: Claims,
    pub secret: String,
    pub access_issued_at: usize,
    pub refresh_issued_at: usize,
}

/// True of a pair for `user_id` with `role` at rotation `rotation`: the access token
/// expires 15 minutes after its issuing instant, the refresh token 7 days after its own.
pub open spec fn is_token_pair_for(p: TokenPairClaims, user_id: u128, role: Role, rotation: u64) -> bool {
    &&& p.access_issued_at + ACCESS_TOKEN_TTL_SECS <= usize::MAX
    &&& p.refresh_issued_at + REFRESH_TOKEN_TTL_SECS <= usize::MAX
    &&& p.access@ == claims_of(
        user_id,
        role,
        "access"@,
        p.access_issued_at + ACCESS_TOKEN_TTL_SECS,
        rotation,
    )
    &&& p.refresh@ == claims_of(
        user_id,
        role,
        "refresh"@,
        p.refresh_issued_at + REFRESH_TOKEN_TTL_SECS,
        rotation,
    )
}

/// The rotation that follows `rotation`: a pair issued by a refresh carries the next
/// rotation of the consumed token, so the new refresh token never repeats the old one.
pub open spec fn next_rotation_spec(rotation: u64) -> u64 {
    if rotation == u64::MAX {
        0
    } else {
        (rotation + 1) as u64
    }
}

/// The rotation that follows `rotation`, wrapping to 0 after the largest value.
pub fn next_rotation(rotation: u64) -> (res: u64)
    ensures
        res == next_rotation_spec(rotation),
        res != rotation,
{
    if rotation == u64::MAX {
        0
    } else {
        rotation + 1
    }
}

/// The claims of the pair for a user issued at the two given instants, at rotation
/// `rotation`, with the secret from the `JWT_SECRET` setting. A missing secret is refused
/// first; an expiry beyond the range of `usize` is an internal error.
pub fn issue_token_pair_at(
    user_id: u128,
    role: Role,
    secret: Option<String>,
    access_now: usize,
    refresh_now: usize,
    rotation: u64,
) -> (res: Result<TokenPairClaims, AppError>)
    ensures
        secret is None ==> (res matches Err(e) && e@ == ErrorView::Internal(
            "JWT_SECRET not set"@,
        )),
        secret is Some && (access_now + ACCESS_TOKEN_TTL_SECS > usize::MAX || refresh_now
            + REFRESH_TOKEN_TTL_SECS > usize::MAX) ==> (res matches Err(e) && e@
            == ErrorView::Internal("token expiry out of range"@)),
        secret is Some && access_now + ACCESS_TOKEN_TTL_SECS <= usize::MAX && refresh_now
            + REFRESH_TOKEN_TTL_SECS <= usize::MAX ==> (res matches Ok(p) && is_token_pair_for(
            p,
            user_id,
            role,
            rotation,
        ) && secret == Some(p.secret) && p.access_issued_at == access_now && p.refresh_issued_at
            == refresh_now),
{
    let secret = jwt_secret(secret)?;
    let access = claims_at(user_id, role, "access", ACCESS_TOKEN_TTL_SECS, access_now, rotation)?;
    let refresh = claims_at(
        user_id,
        role,
        "refresh",
        REFRESH_TOKEN_TTL_SECS,
        refresh_now,
        rotation,
    )?;
    Ok(
        TokenPairClaims {
            access,
            refresh,
            secret,
            access_issued_at: access_now,
            refresh_issued_at: refresh_now,
        },
    )
}

/// The ways issuing a pair can fail, with a secret present or not: a missing secret, and
/// otherwise only the clock (reading before the epoch) or an expiry beyond the range of
/// `usize`. Nothing about the user, its role or the rotation makes issuing fail.
pub open spec fn issuing_failure(e: ErrorView, secret_present: bool) -> bool {
    if secret_present {
        e == ErrorView::Internal("system clock before unix epoch"@) || e == ErrorView::Internal(
            "token expiry out of range"@,
        )
    } else {
        e == ErrorView::Internal("JWT_SECRET not set"@)
    }
}

/// The claims of a fresh pair for a user at rotation `rotation`, each token stamped with its
/// own reading of the clock, together with the signing secret. A missing secret is refused
/// before the clock is read.
pub fn issue_token_pair(user_id: u128, role: Role, secret: Option<String>, rotation: u64) -> (res: Result<
    TokenPairClaims,
    AppError,
>)
    ensures
        secret is None ==> (res matches Err(e) && e@ == ErrorView::Internal(
            "JWT_SECRET not set"@,
        )),
        res matches Ok(p) ==> is_token_pair_for(p, user_id, role, rotation) && secret == Some(
            p.secret,
        ),
        res matches Err(e) ==> e@ is Internal,
        res matches Err(e) ==> issuing_failure(e@, secret is Some),
{
    if secret.is_none() {
        return Err(AppError::internal("JWT_SECRET not set"));
    }
    let access_now = now_unix()?;
    let refresh_now = now_unix()?;
    issue_token_pair_at(user_id, role, secret, access_now, refresh_now, rotation)
}

/// A session row to be stored: the user, the SHA-256 hex of the refresh token, and the
/// lifetime of the row; with the pair that is handed to the client once it is stored.
#[derive(Debug, Clone, PartialEq, Eq)]
pub struct NewSession {
    pub user_id: u128,
    pub refresh_token_hash: String,
    pub ttl_secs: usize,
    pub tokens: TokenPairResponse,
}

/// The session that records a pair of tokens: what `issue_token_pair_signed` computes.
pub open spec fn session_spec(user_id: u128, tokens: TokenPairView) -> (u128, Seq<char>, usize, TokenPairView) {
    (user_id, token_digest(tokens.refresh_token), REFRESH_TOKEN_TTL_SECS, tokens)
}

/// Signs the two claims of `pair`, given as their JSON texts (or the reason they could not
/// be written), and yields the session row that records the refresh token by its SHA-256
/// hex, together with the two tokens.
pub fn issue_token_pair_signed(pair: &TokenPairClaims, claims_json: Result<(String, String), String>) -> (res: Result<
    NewSession,
    AppError,
>)
    ensures
        claims_json matches Err(m) ==> (res matches Err(e) && e@ == ErrorView::Internal(m@)),
        claims_json matches Ok((a, r)) ==> (res is Ok <==> is_json_value(a@) && is_json_value(
            r@,
        )),
        claims_json matches Ok((a, r)) ==> match (
            hs256_token(a@, pair.secret@),
            hs256_token(r@, pair.secret@),
        ) {
            (Some(ta), Some(tr)) => res matches Ok(s) && (
                s.user_id,
                s.refresh_token_hash@,
                s.ttl_secs,
                s.tokens@,
            ) == session_spec(pair.refresh.sub, TokenPairView { access_token: ta, refresh_token: tr }),
            _ => res matches Err(e) && e@ is Internal,
        },
{
    let (access_json, refresh_json) = match claims_json {
        Err(m) => return Err(AppError::Internal(m)),
        Ok(texts) => texts,
    };
    let access_token = sign_token(access_json, pair.secret.as_str())?;
    let refresh_token = sign_token(refresh_json, pair.secret.as_str())?;
    let refresh_token_hash = sha256_hex(refresh_token.as_str());
    Ok(
        NewSession {
            user_id: pair.refresh.sub,
            refresh_token_hash,
            ttl_secs: REFRESH_TOKEN_TTL_SECS,
            tokens: TokenPairResponse { access_token, refresh_token },
        },
    )
}

/// Once the session row is stored, the pair goes to the client; a failed insert is an
/// internal error and the pair is withheld.
pub fn issue_token_pair_stored(session: NewSession, stored: Result<(), String>) -> (res: Result<
    TokenPairResponse,
    AppError,
>)
    ensures
        stored matches Err(m) ==> (res matches Err(e) && e@ == ErrorView::Internal(m@)),
        stored is Ok ==> res == Ok::<TokenPairResponse, AppError>(session.tokens),
{
    match stored {
        Err(m) => Err(AppError::Internal(m)),
        Ok(()) => Ok(session.tokens),
    }
}

/// The claims of a decoded token, by value; `None` where the token did not decode.
pub open spec fn decoded_view(d: Option<Claims>) -> Option<ClaimsView> {
    match d {
        Some(c) => Some(c@),
        None => None,
    }
}

/// The grace, in seconds, that a token keeps past its expiry (the default leeway of
/// `jsonwebtoken`'s validation).
pub const EXPIRY_LEEWAY_SECS: usize = 60;

/// True when a token expiring at `exp` is no longer accepted at `now`.
pub open spec fn is_expired(exp: usize, now: usize) -> bool {
    exp + EXPIRY_LEEWAY_SECS < now
}

/// What a decoded token authenticates at time `now`, if a token of type `token_type` is
/// expected: the subject and role of an unexpired token of that type; 401 for an expired
/// token, a token of the other type, and one that did not decode (malformed, badly signed,
/// or with claims that do not parse).
pub open spec fn accept_token_spec(decoded: Option<ClaimsView>, token_type: Seq<char>, now: usize) -> Result<
    AuthenticatedUser,
    ErrorView,
> {
    match decoded {
        None => Err(ErrorView::Unauthorized),
        Some(c) => if is_expired(c.exp, now) {
            Err(ErrorView::Unauthorized)
        } else if c.token_type == token_type {
            Ok(AuthenticatedUser { id: c.sub, role: c.role })
        } else {
            Err(ErrorView::Unauthorized)
        },
    }
}

/// Accepts, at time `now`, a decoded token of the expected type that has not expired, and
/// yields its subject and role.
pub fn accept_token(decoded: Option<Claims>, token_type: &str, now: usize) -> (res: Result<
    AuthenticatedUser,
    AppError,
>)
    ensures
        result_view(res) == accept_token_spec(decoded_view(decoded), token_type@, now),
{
    match decoded {
        None => Err(AppError::Unauthorized),
        Some(claims) => {
            if now > claims.exp && now - claims.exp > EXPIRY_LEEWAY_SECS {
                return Err(AppError::Unauthorized);
            }
            if claims.token_type == text(token_type) {
                Ok(AuthenticatedUser { id: claims.sub, role: claims.role })
            } else {
                Err(AppError::Unauthorized)
            }
        },
    }
}

/// What accepting a decoded token now may answer, whatever the clock reads: 401 where the
/// token did not decode (the clock is then not read); for decoded claims, the answer at the
/// time read, or the clock's own internal error.
pub open spec fn accept_token_now_spec(
    decoded: Option<ClaimsView>,
    token_type: Seq<char>,
    res: Result<AuthenticatedUser, ErrorView>,
) -> bool {
    match decoded {
        None => res == Err::<AuthenticatedUser, ErrorView>(ErrorView::Unauthorized),
        Some(_) => res == Err::<AuthenticatedUser, ErrorView>(
            ErrorView::Internal("system clock before unix epoch"@),
        ) || exists|now: usize| res == accept_token_spec(decoded, token_type, now),
    }
}

/// Accepts a decoded token of the expected type that has not expired by the current time.
pub fn accept_token_now(decoded: Option<Claims>, token_type: &str) -> (res: Result<
    AuthenticatedUser,
    AppError,
>)
    ensures
        accept_token_now_spec(decoded_view(decoded), token_type@, result_view(res)),
{
    if decoded.is_none() {
        return Err(AppError::Unauthorized);
    }
    let now = now_unix()?;
    accept_token(decoded, token_type, now)
}

} // verus!
