use vstd::prelude::*;

use crate::error::{AppError, ErrorView};
use crate::digest::{sha256_hex, token_digest};
use crate::models::{
    public_view, AuthenticatedUser, Claims, ClaimsView, LoginRequest, RefreshRequest, RegisterRequest,
    UserResponse, UserRow, UserRowView,
};
use crate::password::{
    bcrypt_verify_outcome, hash_password, is_random_source_failure, password_matches,
    verify_password,
};
use crate::role::Role;
use crate::tokens::{
    accept_token, accept_token_now, accept_token_now_spec, accept_token_spec, decoded_view,
    is_token_pair_for, issue_token_pair, issuing_failure, next_rotation, next_rotation_spec,
    TokenPairClaims,
};

verus! {

/// The length of a password as the server measures it: the number of its UTF-8 bytes.
pub open spec fn byte_len(s: Seq<char>) -> nat {
    vstd::utf8::encode_utf8(s).len()
}

/// The shortest password accepted at registration, in bytes.
pub const MIN_PASSWORD_LEN: usize = 8;

/// A failed database call, by its text.
pub open spec fn db_view<T>(r: Result<T, String>) -> Result<T, Seq<char>> {
    match r {
        Ok(t) => Ok(t),
        Err(m) => Err(m@),
    }
}

/// The answer of a lookup of one user row, by value.
pub open spec fn found_view(found: Result<Option<UserRow>, String>) -> Result<
    Option<UserRowView>,
    Seq<char>,
> {
    match found {
        Ok(Some(row)) => Ok(Some(row@)),
        Ok(None) => Ok(None),
        Err(m) => Err(m@),
    }
}

// ----------------------------------------------------------------------------------------
// POST /auth/register
// ----------------------------------------------------------------------------------------

/// A registration whose input passed validation; it waits for the answer to
/// "is the users table empty?".
#[derive(Debug, Clone, PartialEq, Eq)]
pub struct RegisterPending {
    pub email: String,
    pub password: String,
    pub requested_role: Role,
}

/// Validates a registration: a password shorter than 8 bytes is refused with 422 before
/// anything is looked up.
pub fn register(req: RegisterRequest) -> (res: Result<RegisterPending, AppError>)
    ensures
        byte_len(req.password@) < MIN_PASSWORD_LEN ==> (res matches Err(e) && e@
            == ErrorView::UnprocessableEntity("password must be at least 8 characters"@)),
        byte_len(req.password@) >= MIN_PASSWORD_LEN ==> res == Ok::<RegisterPending, AppError>(
            RegisterPending {
                email: req.email,
                password: req.password,
                requested_role: req.role,
            },
        ),
{
    if req.password.as_str().as_bytes().len() < MIN_PASSWORD_LEN {
        return Err(AppError::unprocessable("password must be at least 8 characters"));
    }
    Ok(RegisterPending { email: req.email, password: req.password, requested_role: req.role })
}

/// The account to create, before its password is hashed.
#[derive(Debug, Clone, PartialEq, Eq)]
pub struct UserPlan {
    pub email: String,
    pub password: String,
    pub role: Role,
    pub approved: bool,
}

/// The role and approval of a new account, given the requested role and the answer to
/// "is the users table empty?" (no answer counts as empty): the first user becomes an
/// approved Admin whatever was requested; a later user may not pick Admin (422), and
/// otherwise gets the requested role, unapproved.
pub open spec fn register_plan_spec(requested: Role, no_users: Result<Option<bool>, Seq<char>>) -> Result<
    (Role, bool),
    ErrorView,
> {
    match no_users {
        Err(m) => Err(ErrorView::Internal(m)),
        Ok(answer) => {
            let is_first_user = match answer {
                Some(b) => b,
                None => true,
            };
            if is_first_user {
                Ok((Role::Admin, true))
            } else if requested == Role::Admin {
                Err(ErrorView::UnprocessableEntity("cannot self-register as admin"@))
            } else {
                Ok((requested, false))
            }
        },
    }
}

/// Decides the role and approval of the account to create.
pub fn register_plan(pending: RegisterPending, no_users: Result<Option<bool>, String>) -> (res: Result<
    UserPlan,
    AppError,
>)
    ensures
        match register_plan_spec(pending.requested_role, db_view(no_users)) {
            Ok((role, approved)) => res == Ok::<UserPlan, AppError>(
                UserPlan { email: pending.email, password: pending.password, role, approved },
            ),
            Err(e) => res matches Err(err) && err@ == e,
        },
{
    let is_first_user = match no_users {
        Err(m) => return Err(AppError::Internal(m)),
        Ok(answer) => answer.unwrap_or(true),
    };
    if !is_first_user && pending.requested_role == Role::Admin {
        return Err(AppError::unprocessable("cannot self-register as admin"));
    }
    let (role, approved) = if is_first_user {
        (Role::Admin, true)
    } else {
        (pending.requested_role, false)
    };
    Ok(UserPlan { email: pending.email, password: pending.password, role, approved })
}

/// The row to insert into `users`.
#[derive(Debug, Clone, PartialEq, Eq)]
pub struct NewUser {
    pub email: String,
    pub password_hash: String,
    pub role: Role,
    pub approved: bool,
}

/// True of a row to insert that carries out a plan: same email, role and approval, and a
/// stored bcrypt hash (`$2b$12$` and 53 more characters) that accepts the planned password.
pub open spec fn carries_out(plan: UserPlan, user: NewUser) -> bool {
    &&& user.email == plan.email
    &&& user.role == plan.role
    &&& user.approved == plan.approved
    &&& password_matches(plan.password@, user.password_hash@)
    &&& user.password_hash@.len() == 60
    &&& user.password_hash@.subrange(0, 7) == "$2b$12$"@
}

/// Hashes the planned password; the hasher fails only where its random source does, which
/// is an internal error.
pub fn hash_user_password(plan: UserPlan) -> (res: Result<NewUser, AppError>)
    ensures
        res matches Ok(u) ==> carries_out(plan, u),
        res matches Err(e) ==> e@ is Internal,
        res matches Err(e) ==> (e@ matches ErrorView::Internal(m) && is_random_source_failure(m)),
{
    let password_hash = hash_password(plan.password.as_str())?;
    Ok(NewUser { email: plan.email, password_hash, role: plan.role, approved: plan.approved })
}

/// What a validated registration ends with, given the answer to "is the users table
/// empty?": where the rules refuse it, that refusal; otherwise the row that carries out the
/// plan, and no other failure than one of the hasher's random source.
pub open spec fn registration_outcome(
    pending: RegisterPending,
    no_users: Result<Option<bool>, Seq<char>>,
    res: Result<NewUser, AppError>,
) -> bool {
    match register_plan_spec(pending.requested_role, no_users) {
        Ok((role, approved)) => match res {
            Ok(u) => carries_out(
                UserPlan { email: pending.email, password: pending.password, role, approved },
                u,
            ),
            Err(e) => e@ matches ErrorView::Internal(m) && is_random_source_failure(m),
        },
        Err(e) => res matches Err(err) && err@ == e,
    }
}

/// Everything a registration decides between the emptiness check and the insert.
pub fn register_with_count(pending: RegisterPending, no_users: Result<Option<bool>, String>) -> (res: Result<
    NewUser,
    AppError,
>)
    ensures
        match register_plan_spec(pending.requested_role, db_view(no_users)) {
            Ok((role, approved)) => match res {
                Ok(u) => carries_out(
                    UserPlan { email: pending.email, password: pending.password, role, approved },
                    u,
                ),
                Err(e) => e@ is Internal,
            },
            Err(e) => res matches Err(err) && err@ == e,
        },
        registration_outcome(pending, db_view(no_users), res),
{
    let plan = register_plan(pending, no_users)?;
    hash_user_password(plan)
}

/// Why inserting a user failed.
#[derive(Debug, Clone, PartialEq, Eq)]
pub enum InsertUserError {
    /// The email is already registered (a unique violation).
    EmailTaken,
    /// Any other database failure.
    Database(String),
}

/// HTTP 201 Created: the status of a registration that created an account.
pub const CREATED: u16 = 201;

/// The answer to a registration once the insert has run: 201 with the new account, 422 for
/// a taken email, 500 for any other failure.
pub fn register_finish(inserted: Result<UserRow, InsertUserError>) -> (res: Result<
    (u16, UserResponse),
    AppError,
>)
    ensures
        match inserted {
            Ok(row) => res matches Ok((status, r)) && status == CREATED && r@ == public_view(row@),
            Err(InsertUserError::EmailTaken) => res matches Err(e) && e@
                == ErrorView::UnprocessableEntity("email already registered"@),
            Err(InsertUserError::Database(m)) => res matches Err(e) && e@ == ErrorView::Internal(
                m@,
            ),
        },
{
    match inserted {
        Ok(row) => Ok((CREATED, UserResponse::from_row(row))),
        Err(InsertUserError::EmailTaken) => Err(AppError::unprocessable("email already registered")),
        Err(InsertUserError::Database(m)) => Err(AppError::Internal(m)),
    }
}

// ----------------------------------------------------------------------------------------
// POST /auth/login
// ----------------------------------------------------------------------------------------

/// How a login ends once the account is looked up.
pub enum LoginVerdict {
    /// The credentials hold: the login goes on for this row.
    Admit(UserRowView),
    /// The login is refused with this error.
    Refuse(ErrorView),
    /// The stored hash could not be checked: an internal error whose text the hasher gives.
    Fail,
}

/// The verdict on a login's password and the answer of the lookup by email: 401 for an
/// unknown email and for a wrong password alike, 403 for an account not yet approved, and
/// the row where the password matches an approved account.
pub open spec fn login_verdict(password: Seq<char>, found: Result<Option<UserRowView>, Seq<char>>) -> LoginVerdict {
    match found {
        Err(m) => LoginVerdict::Refuse(ErrorView::Internal(m)),
        Ok(None) => LoginVerdict::Refuse(ErrorView::Unauthorized),
        Ok(Some(row)) => match bcrypt_verify_outcome(password, row.password_hash) {
            None => LoginVerdict::Fail,
            Some(false) => LoginVerdict::Refuse(ErrorView::Unauthorized),
            Some(true) => if row.approved {
                LoginVerdict::Admit(row)
            } else {
                LoginVerdict::Refuse(ErrorView::Forbidden)
            },
        },
    }
}

/// Checks the credentials of a login against the row found for its email.
pub fn login_check(req: &LoginRequest, found: Result<Option<UserRow>, String>) -> (res: Result<
    UserRow,
    AppError,
>)
    ensures
        match login_verdict(req.password@, found_view(found)) {
            LoginVerdict::Admit(row) => res matches Ok(r) && r@ == row,
            LoginVerdict::Refuse(e) => res matches Err(err) && err@ == e,
            LoginVerdict::Fail => res matches Err(err) && err@ is Internal,
        },
{
    let row = match found {
        Err(m) => return Err(AppError::Internal(m)),
        Ok(None) => return Err(AppError::Unauthorized),
        Ok(Some(row)) => row,
    };
    let valid = verify_password(req.password.as_str(), row.password_hash.as_str())?;
    if !valid {
        return Err(AppError::Unauthorized);
    }
    if !row.approved {
        return Err(AppError::Forbidden);
    }
    Ok(row)
}

/// What a login ends with, given the password, the lookup by email and the signing
/// secret: for an admitted row, a pair for that row's user and role at rotation 0 signed
/// with the secret, and no failure but one of issuing; otherwise the verdict's refusal.
pub open spec fn login_outcome(
    password: Seq<char>,
    found: Result<Option<UserRowView>, Seq<char>>,
    secret: Option<String>,
    res: Result<TokenPairClaims, AppError>,
) -> bool {
    match login_verdict(password, found) {
        LoginVerdict::Admit(row) => match res {
            Ok(p) => is_token_pair_for(p, row.id, row.role, 0) && secret == Some(p.secret),
            Err(e) => issuing_failure(e@, secret is Some),
        },
        LoginVerdict::Refuse(e) => res matches Err(err) && err@ == e,
        LoginVerdict::Fail => res matches Err(err) && err@ is Internal,
    }
}

/// Logs a user in: checks the credentials against the row found for the email and, where
/// they hold, yields the claims of a fresh token pair for that user and role, to be signed
/// with the secret from the `JWT_SECRET` setting. A login starts a new refresh chain, at
/// rotation 0.
pub fn login(req: &LoginRequest, found: Result<Option<UserRow>, String>, secret: Option<String>) -> (res: Result<
    TokenPairClaims,
    AppError,
>)
    ensures
        match login_verdict(req.password@, found_view(found)) {
            LoginVerdict::Admit(row) => match res {
                Ok(p) => is_token_pair_for(p, row.id, row.role, 0) && secret == Some(p.secret),
                Err(e) => e@ is Internal && (secret is None ==> e@ == ErrorView::Internal(
                    "JWT_SECRET not set"@,
                )),
            },
            LoginVerdict::Refuse(e) => res matches Err(err) && err@ == e,
            LoginVerdict::Fail => res matches Err(err) && err@ is Internal,
        },
        login_outcome(req.password@, found_view(found), secret, res),
{
    let row = login_check(req, found)?;
    issue_token_pair(row.id, row.role, secret, 0)
}

// ----------------------------------------------------------------------------------------
// POST /auth/refresh
// ----------------------------------------------------------------------------------------

/// The live session a refresh must consume: the token's subject and role, the rotation
/// it was issued at, and the SHA-256 hex of the presented token.
#[derive(Debug, Clone, PartialEq, Eq)]
pub struct SessionRevocation {
    pub user_id: u128,
    pub role: Role,
    pub rotation: u64,
    pub refresh_token_hash: String,
}

/// True of the revocation a refresh names for an accepted token: its subject, role and
/// rotation, and the digest of the presented token.
pub open spec fn revokes(r: SessionRevocation, claims: Option<ClaimsView>, token: Seq<char>) -> bool {
    &&& claims matches Some(c)
    &&& r.user_id == c.sub
    &&& r.role == c.role
    &&& r.rotation == c.rotation
    &&& r.refresh_token_hash@ == token_digest(token)
}

/// Accepts, at time `now`, the decoded refresh token (an access token, or an invalid or
/// expired one, is refused with 401) and names the session row to delete.
pub fn refresh_at(req: &RefreshRequest, decoded: Option<Claims>, now: usize) -> (res: Result<
    SessionRevocation,
    AppError,
>)
    ensures
        match accept_token_spec(decoded_view(decoded), "refresh"@, now) {
            Ok(_) => res matches Ok(r) && revokes(r, decoded_view(decoded), req.refresh_token@),
            Err(e) => res matches Err(err) && err@ == e,
        },
{
    let rotation = match &decoded {
        Some(c) => c.rotation,
        None => 0,
    };
    let user = accept_token(decoded, "refresh", now)?;
    let refresh_token_hash = sha256_hex(req.refresh_token.as_str());
    Ok(SessionRevocation { user_id: user.id, role: user.role, rotation, refresh_token_hash })
}

/// Accepts the decoded refresh token at the current time and names the session row to
/// delete. Where the token did not decode, the answer is 401 and the clock is not read;
/// otherwise the answer is that of `refresh_at` at the time read, or the clock's own
/// internal error.
pub fn refresh(req: &RefreshRequest, decoded: Option<Claims>) -> (res: Result<
    SessionRevocation,
    AppError,
>)
    ensures
        accept_token_now_spec(decoded_view(decoded), "refresh"@, match res {
            Ok(r) => Ok(AuthenticatedUser { id: r.user_id, role: r.role }),
            Err(e) => Err(e@),
        }),
        res matches Ok(r) ==> revokes(r, decoded_view(decoded), req.refresh_token@),
{
    let rotation = match &decoded {
        Some(c) => c.rotation,
        None => 0,
    };
    let user = accept_token_now(decoded, "refresh")?;
    let refresh_token_hash = sha256_hex(req.refresh_token.as_str());
    Ok(SessionRevocation { user_id: user.id, role: user.role, rotation, refresh_token_hash })
}

/// What a refresh ends with once the delete of its session has run: 500 for a failed
/// delete, 401 where no live session was deleted, and otherwise a pair for the session's
/// user and role at the next rotation, signed with the secret, with no failure but one of
/// issuing.
pub open spec fn refresh_outcome(
    revocation: SessionRevocation,
    deleted: Result<u64, Seq<char>>,
    secret: Option<String>,
    res: Result<TokenPairClaims, AppError>,
) -> bool {
    match deleted {
        Err(m) => res matches Err(e) && e@ == ErrorView::Internal(m),
        Ok(n) => if n == 0 {
            res matches Err(e) && e@ == ErrorView::Unauthorized
        } else {
            match res {
                Ok(p) => is_token_pair_for(
                    p,
                    revocation.user_id,
                    revocation.role,
                    next_rotation_spec(revocation.rotation),
                ) && secret == Some(p.secret),
                Err(e) => issuing_failure(e@, secret is Some),
            }
        },
    }
}

/// Once the matching live session is deleted, a new pair is issued at the next rotation,
/// so its refresh token differs from the consumed one; where no row was deleted (the token
/// was already used, or its session expired) the refresh is refused with 401.
pub fn refresh_after_revoke(
    revocation: &SessionRevocation,
    deleted: Result<u64, String>,
    secret: Option<String>,
) -> (res: Result<
    TokenPairClaims,
    AppError,
>)
    ensures
        match deleted {
            Err(m) => res matches Err(e) && e@ == ErrorView::Internal(m@),
            Ok(n) => if n == 0 {
                res matches Err(e) && e@ == ErrorView::Unauthorized
            } else {
                match res {
                    Ok(p) => is_token_pair_for(
                        p,
                        revocation.user_id,
                        revocation.role,
                        next_rotation_spec(revocation.rotation),
                    ) && secret == Some(p.secret),
                    Err(e) => e@ is Internal && (secret is None ==> e@ == ErrorView::Internal(
                        "JWT_SECRET not set"@,
                    )),
                }
            },
        },
        refresh_outcome(*revocation, db_view(deleted), secret, res),
{
    let rows = match deleted {
        Err(m) => return Err(AppError::Internal(m)),
        Ok(n) => n,
    };
    if rows == 0 {
        return Err(AppError::Unauthorized);
    }
    let rotation = next_rotation(revocation.rotation);
    issue_token_pair(revocation.user_id, revocation.role, secret, rotation)
}

// ----------------------------------------------------------------------------------------
// POST /auth/logout, GET /users/me, PATCH /users/me
// ----------------------------------------------------------------------------------------

/// HTTP 204 No Content.
pub const NO_CONTENT: u16 = 204;

/// Logging out deletes every session of the caller; the answer is 204, or 500 where the
/// delete failed.
pub fn logout(user: &AuthenticatedUser, deleted: Result<(), String>) -> (res: Result<u16, AppError>)
    ensures
        match deleted {
            Ok(()) => res == Ok::<u16, AppError>(NO_CONTENT),
            Err(m) => res matches Err(e) && e@ == ErrorView::Internal(m@),
        },
{
    match deleted {
        Ok(()) => Ok(NO_CONTENT),
        Err(m) => Err(AppError::Internal(m)),
    }
}

/// The caller's own account, looked up by id: 404 where it no longer exists.
pub fn get_me(user: &AuthenticatedUser, found: Result<Option<UserRow>, String>) -> (res: Result<
    UserResponse,
    AppError,
>)
    ensures
        match found_view(found) {
            Ok(Some(row)) => res matches Ok(r) && r@ == public_view(row),
            Ok(None) => res matches Err(e) && e@ == ErrorView::NotFound,
            Err(m) => res matches Err(e) && e@ == ErrorView::Internal(m),
        },
{
    match found {
        Err(m) => Err(AppError::Internal(m)),
        Ok(None) => Err(AppError::NotFound),
        Ok(Some(row)) => Ok(UserResponse::from_row(row)),
    }
}

/// Profile fields are not stored yet: every update is refused with 422.
pub fn update_me(user: &AuthenticatedUser) -> (res: Result<u16, AppError>)
    ensures
        res matches Err(e) && e@ == ErrorView::UnprocessableEntity(
            "profile fields not yet implemented — see trainee_profiles/trainer_profiles TODO"@,
        ),
{
    Err(
        AppError::unprocessable(
            "profile fields not yet implemented — see trainee_profiles/trainer_profiles TODO",
        ),
    )
}

} // verus!
