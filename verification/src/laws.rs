use vstd::prelude::*;

use crate::auth::{
    carries_out, login_outcome, login_verdict, refresh_outcome, register_plan_spec,
    registration_outcome, LoginVerdict, NewUser, RegisterPending, SessionRevocation, UserPlan,
};
use crate::error::AppError;
use crate::password::{is_random_source_failure, password_matches};
use crate::error::{client_message_of, status_of, ErrorView};
use crate::middleware::require_role_spec;
use crate::models::{AuthenticatedUser, ClaimsView, TokenPairView, UserRowView};
use crate::password::bcrypt_verify_outcome;
use crate::role::{Role, RoleMarker};
use crate::tokens::{
    accept_token_spec, is_expired, is_token_pair_for, next_rotation_spec, session_spec,
    TokenPairClaims, ACCESS_TOKEN_TTL_SECS, EXPIRY_LEEWAY_SECS, REFRESH_TOKEN_TTL_SECS,
};
use crate::digest::token_digest;

verus! {

/// The bootstrap rule: while the users table is empty (or the emptiness check gives no
/// answer), whoever registers becomes an approved Admin, whatever role was requested.
pub proof fn first_user_becomes_approved_admin(requested: Role, answer: Option<bool>)
    requires
        answer != Some(false),
    ensures
        register_plan_spec(requested, Ok(answer)) == Ok::<(Role, bool), ErrorView>(
            (Role::Admin, true),
        ),
{
}

/// Once a user exists, nobody can register as Admin (422), and every other registration
/// gets exactly the requested role and starts unapproved.
pub proof fn later_users_start_unapproved_and_never_admin(requested: Role)
    ensures
        requested == Role::Admin ==> register_plan_spec(requested, Ok(Some(false))) == Err::<
            (Role, bool),
            ErrorView,
        >(ErrorView::UnprocessableEntity("cannot self-register as admin"@)),
        requested != Role::Admin ==> register_plan_spec(requested, Ok(Some(false))) == Ok::<
            (Role, bool),
            ErrorView,
        >((requested, false)),
{
}

/// What registration stores, login accepts: the row created for a registration, once
/// approved, admits a login with the password that was registered.
pub proof fn registered_password_logs_in(plan: UserPlan, user: NewUser, row: UserRowView)
    requires
        carries_out(plan, user),
        row.password_hash == user.password_hash@,
        row.approved,
    ensures
        login_verdict(plan.password@, Ok(Some(row))) == LoginVerdict::Admit(row),
{
}

/// The approval gate: an account created by a later registration is unapproved, so a
/// login with its own correct password is refused with 403 until an Admin approves it.
pub proof fn unapproved_account_is_forbidden(
    plan: UserPlan,
    user: NewUser,
    row: UserRowView,
    requested: Role,
)
    requires
        register_plan_spec(requested, Ok(Some(false))) == Ok::<(Role, bool), ErrorView>(
            (plan.role, plan.approved),
        ),
        carries_out(plan, user),
        row.password_hash == user.password_hash@,
        row.approved == user.approved,
    ensures
        login_verdict(plan.password@, Ok(Some(row))) == LoginVerdict::Refuse(ErrorView::Forbidden),
{
}

/// A login does not tell an unknown email from a wrong password: both are 401.
pub proof fn unknown_email_looks_like_wrong_password(password: Seq<char>, row: UserRowView)
    requires
        bcrypt_verify_outcome(password, row.password_hash) == Some(false),
    ensures
        login_verdict(password, Ok(None)) == login_verdict(password, Ok(Some(row))),
        login_verdict(password, Ok(None)) == LoginVerdict::Refuse(ErrorView::Unauthorized),
{
}

/// The two tokens of an issued pair each work for their own purpose only: the access
/// token authenticates its user until 15 minutes (and the leeway) after it was issued, and
/// is refused by refresh; the refresh token renews the pair until 7 days (and the leeway)
/// after it was issued, and is refused as a credential at any time.
pub proof fn token_types_are_not_interchangeable(
    p: TokenPairClaims,
    id: u128,
    role: Role,
    rotation: u64,
    now: usize,
)
    requires
        is_token_pair_for(p, id, role, rotation),
    ensures
        now <= p.access_issued_at + ACCESS_TOKEN_TTL_SECS + EXPIRY_LEEWAY_SECS ==> accept_token_spec(
            Some(p.access@),
            "access"@,
            now,
        ) == Ok::<AuthenticatedUser, ErrorView>(AuthenticatedUser { id, role }),
        now <= p.refresh_issued_at + REFRESH_TOKEN_TTL_SECS + EXPIRY_LEEWAY_SECS
            ==> accept_token_spec(Some(p.refresh@), "refresh"@, now) == Ok::<
            AuthenticatedUser,
            ErrorView,
        >(AuthenticatedUser { id, role }),
        accept_token_spec(Some(p.refresh@), "access"@, now) == Err::<AuthenticatedUser, ErrorView>(
            ErrorView::Unauthorized,
        ),
        accept_token_spec(Some(p.access@), "refresh"@, now) == Err::<AuthenticatedUser, ErrorView>(
            ErrorView::Unauthorized,
        ),
{
    reveal_strlit("access");
    reveal_strlit("refresh");
    assert("access"@[0] != "refresh"@[0]);
}

/// A token past its expiry and the leeway is refused with 401, whatever its type and
/// whoever it names.
pub proof fn expired_tokens_are_refused(claims: ClaimsView, token_type: Seq<char>, now: usize)
    requires
        is_expired(claims.exp, now),
    ensures
        accept_token_spec(Some(claims), token_type, now) == Err::<AuthenticatedUser, ErrorView>(
            ErrorView::Unauthorized,
        ),
{
}

/// Rotation finds what issuing stored: the session row recorded for a signed pair names
/// the pair's user and the SHA-256 hex of its refresh token, which is exactly the user and
/// the hash that a refresh with that token, presented before it expires, deletes.
pub proof fn refresh_consumes_the_issued_session(
    p: TokenPairClaims,
    id: u128,
    role: Role,
    rotation: u64,
    tokens: TokenPairView,
    presented: Seq<char>,
    now: usize,
)
    requires
        is_token_pair_for(p, id, role, rotation),
        presented == tokens.refresh_token,
        now <= p.refresh_issued_at + REFRESH_TOKEN_TTL_SECS + EXPIRY_LEEWAY_SECS,
    ensures
        accept_token_spec(Some(p.refresh@), "refresh"@, now) == Ok::<AuthenticatedUser, ErrorView>(
            AuthenticatedUser { id, role },
        ),
        session_spec(p.refresh.sub, tokens).0 == id,
        session_spec(p.refresh.sub, tokens).1 == token_digest(presented),
{
}

/// A refresh never hands back the refresh token it consumed: the pair it issues carries the
/// next rotation, so its refresh claims differ from those of the consumed token, even when
/// both are issued within the same second.
pub proof fn reissued_refresh_claims_differ(
    consumed: TokenPairClaims,
    reissued: TokenPairClaims,
    id: u128,
    role: Role,
    rotation: u64,
)
    requires
        is_token_pair_for(consumed, id, role, rotation),
        is_token_pair_for(reissued, id, role, next_rotation_spec(rotation)),
    ensures
        reissued.refresh@ != consumed.refresh@,
        reissued.access@ != consumed.access@,
{
}

/// The role guard admits exactly the callers of its role, answers 403 to any other valid
/// caller, and leaves an authentication failure as it was (a bad token stays 401).
pub proof fn role_guard_admits_exactly_its_role<R: RoleMarker>(
    user: AuthenticatedUser,
    failure: ErrorView,
)
    ensures
        require_role_spec::<R>(Ok(user)) is Ok <==> user.role == R::ROLE,
        user.role != R::ROLE ==> require_role_spec::<R>(Ok(user)) == Err::<
            AuthenticatedUser,
            ErrorView,
        >(ErrorView::Forbidden),
        require_role_spec::<R>(Err(failure)) == Err::<AuthenticatedUser, ErrorView>(failure),
{
}

/// The status convention: 401 for missing or invalid credentials, 403 for a valid caller
/// without permission, 404 for a missing resource, 422 for refused input, 500 for server
/// failures; and an internal failure never shows its cause to the client.
pub proof fn status_convention(m: Seq<char>, n: Seq<char>)
    ensures
        status_of(ErrorView::Unauthorized) == 401,
        status_of(ErrorView::Forbidden) == 403,
        status_of(ErrorView::NotFound) == 404,
        status_of(ErrorView::UnprocessableEntity(m)) == 422,
        status_of(ErrorView::Internal(m)) == 500,
        client_message_of(ErrorView::UnprocessableEntity(m)) == m,
        client_message_of(ErrorView::Internal(m)) == client_message_of(ErrorView::Internal(n)),
{
}

/// The bootstrap registration succeeds: while the users table is empty (or its emptiness
/// gives no answer), a validated registration yields an approved Admin account for the
/// registered email whose stored hash accepts the registered password, whatever role was
/// requested; it can fail only where the hasher's random source fails.
pub proof fn first_registration_creates_the_admin(
    pending: RegisterPending,
    answer: Option<bool>,
    res: Result<NewUser, AppError>,
)
    requires
        answer != Some(false),
        registration_outcome(pending, Ok(answer), res),
    ensures
        res matches Ok(u) ==> u.role == Role::Admin && u.approved && u.email == pending.email
            && password_matches(pending.password@, u.password_hash@),
        res matches Err(e) ==> (e@ matches ErrorView::Internal(m) && is_random_source_failure(m)),
{
}

/// Once users exist, a registration for a role other than Admin yields an unapproved
/// account of exactly that role, and fails only where the hasher's random source fails.
pub proof fn later_registration_creates_an_unapproved_account(
    pending: RegisterPending,
    res: Result<NewUser, AppError>,
)
    requires
        pending.requested_role != Role::Admin,
        registration_outcome(pending, Ok(Some(false)), res),
    ensures
        res matches Ok(u) ==> u.role == pending.requested_role && !u.approved && u.email
            == pending.email && password_matches(pending.password@, u.password_hash@),
        res matches Err(e) ==> (e@ matches ErrorView::Internal(m) && is_random_source_failure(m)),
{
}

/// A login with the right password for an approved account, with the secret set, is
/// answered with a pair for that account's own user and role, whatever the role; the only
/// failures left are the clock's and an expiry out of range, never a refusal.
pub proof fn approved_login_is_issued_for_every_role(
    password: Seq<char>,
    row: UserRowView,
    secret: String,
    res: Result<TokenPairClaims, AppError>,
)
    requires
        password_matches(password, row.password_hash),
        row.approved,
        login_outcome(password, Ok(Some(row)), Some(secret), res),
    ensures
        res matches Ok(p) ==> is_token_pair_for(p, row.id, row.role, 0) && p.secret == secret,
        res matches Err(e) ==> e@ == ErrorView::Internal("system clock before unix epoch"@)
            || e@ == ErrorView::Internal("token expiry out of range"@),
{
}

/// A refresh whose live session was deleted, with the secret set, is answered with a new
/// pair for the session's user and role, at a rotation other than the consumed one,
/// whatever the role; the only failures left are the clock's and an expiry out of range.
pub proof fn live_session_is_renewed_for_every_role(
    revocation: SessionRevocation,
    deleted: u64,
    secret: String,
    res: Result<TokenPairClaims, AppError>,
)
    requires
        deleted > 0,
        refresh_outcome(revocation, Ok(deleted), Some(secret), res),
    ensures
        res matches Ok(p) ==> p.access@.sub == revocation.user_id && p.refresh@.sub
            == revocation.user_id && p.access@.role == revocation.role && p.refresh@.role
            == revocation.role && p.refresh@.rotation != revocation.rotation && p.secret == secret,
        res matches Err(e) ==> e@ == ErrorView::Internal("system clock before unix epoch"@)
            || e@ == ErrorView::Internal("token expiry out of range"@),
{
}

/// An access token is accepted exactly until 60 seconds past its expiry: at any time
/// after that it is refused with 401, and up to then it authenticates its subject with its
/// role.
pub proof fn access_token_is_accepted_exactly_until_expiry(claims: ClaimsView, now: usize)
    requires
        claims.token_type == "access"@,
    ensures
        now <= claims.exp + EXPIRY_LEEWAY_SECS ==> accept_token_spec(Some(claims), "access"@, now)
            == Ok::<AuthenticatedUser, ErrorView>(AuthenticatedUser { id: claims.sub, role: claims.role }),
        now > claims.exp + EXPIRY_LEEWAY_SECS ==> accept_token_spec(Some(claims), "access"@, now)
            == Err::<AuthenticatedUser, ErrorView>(ErrorView::Unauthorized),
{
}

} // verus!
