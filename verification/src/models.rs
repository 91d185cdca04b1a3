use vstd::prelude::*;

use crate::role::Role;

verus! {

/// The claims carried inside a signed token.
///
/// A user is identified by the 128-bit value of its UUID; `token_type` is
/// `"access"` or `"refresh"`, `exp` is the expiry in seconds since the epoch, and
/// `rotation` counts the refreshes since login, so that a refresh token, once used, is
/// not issued again even within the same second.
#[derive(Debug, Clone, PartialEq, Eq)]
pub struct Claims {
    pub sub: u128,
    pub role: Role,
    pub token_type: String,
    pub exp: usize,
    pub rotation: u64,
}

/// The mathematical value of [`Claims`].
pub struct ClaimsView {
    pub sub: u128,
    pub role: Role,
    pub token_type: Seq<char>,
    pub exp: usize,
    pub rotation: u64,
}

impl View for Claims {
    type V = ClaimsView;

    open spec fn view(&self) -> ClaimsView {
        ClaimsView {
            sub: self.sub,
            role: self.role,
            token_type: self.token_type@,
            exp: self.exp,
            rotation: self.rotation,
        }
    }
}

/// The caller behind a valid access token.
#[derive(Debug, Clone, Copy, PartialEq, Eq, Structural)]
pub struct AuthenticatedUser {
    pub id: u128,
    pub role: Role,
}

impl View for AuthenticatedUser {
    type V = AuthenticatedUser;

    open spec fn view(&self) -> AuthenticatedUser {
        *self
    }
}

/// Body of `POST /auth/register`.
#[derive(Debug, Clone, PartialEq, Eq)]
pub struct RegisterRequest {
    pub email: String,
    pub password: String,
    /// Ignored (forced to Admin) for the very first user in the table.
    /// Rejected with 422 if a non-bootstrap request tries to self-select Admin.
    pub role: Role,
}

/// Body of `POST /auth/login`.
#[derive(Debug, Clone, PartialEq, Eq)]
pub struct LoginRequest {
    pub email: String,
    pub password: String,
}

/// The public view of a user account.
#[derive(Debug, Clone, PartialEq, Eq)]
pub struct UserResponse {
    pub id: u128,
    pub email: String,
    pub role: Role,
    pub approved: bool,
}

/// The mathematical value of a [`UserResponse`].
pub struct UserResponseView {
    pub id: u128,
    pub email: Seq<char>,
    pub role: Role,
    pub approved: bool,
}

impl View for UserResponse {
    type V = UserResponseView;

    open spec fn view(&self) -> UserResponseView {
        UserResponseView { id: self.id, email: self.email@, role: self.role, approved: self.approved }
    }
}

/// An access token together with the refresh token that renews it.
#[derive(Debug, Clone, PartialEq, Eq)]
pub struct TokenPairResponse {
    pub access_token: String,
    pub refresh_token: String,
}

/// The mathematical value of a [`TokenPairResponse`].
pub struct TokenPairView {
    pub access_token: Seq<char>,
    pub refresh_token: Seq<char>,
}

impl View for TokenPairResponse {
    type V = TokenPairView;

    open spec fn view(&self) -> TokenPairView {
        TokenPairView { access_token: self.access_token@, refresh_token: self.refresh_token@ }
    }
}

/// Body of `POST /auth/refresh`.
#[derive(Debug, Clone, PartialEq, Eq)]
pub struct RefreshRequest {
    pub refresh_token: String,
}

/// A row of the `users` table.
#[derive(Debug, Clone, PartialEq, Eq)]
pub struct UserRow {
    pub id: u128,
    pub email: String,
    pub password_hash: String,
    pub role: Role,
    pub approved: bool,
}

/// The mathematical value of a [`UserRow`].
pub struct UserRowView {
    pub id: u128,
    pub email: Seq<char>,
    pub password_hash: Seq<char>,
    pub role: Role,
    pub approved: bool,
}

impl View for UserRow {
    type V = UserRowView;

    open spec fn view(&self) -> UserRowView {
        UserRowView {
            id: self.id,
            email: self.email@,
            password_hash: self.password_hash@,
            role: self.role,
            approved: self.approved,
        }
    }
}

/// What a row shows of itself to its owner: everything but the password hash.
pub open spec fn public_view(row: UserRowView) -> UserResponseView {
    UserResponseView { id: row.id, email: row.email, role: row.role, approved: row.approved }
}

impl From<UserRow> for UserResponse {
    fn from(row: UserRow) -> (res: UserResponse) {
        UserResponse { id: row.id, email: row.email, role: row.role, approved: row.approved }
    }
}

impl vstd::std_specs::convert::FromSpecImpl<UserRow> for UserResponse {
    open spec fn obeys_from_spec() -> bool {
        true
    }

    open spec fn from_spec(row: UserRow) -> UserResponse {
        UserResponse { id: row.id, email: row.email, role: row.role, approved: row.approved }
    }
}

impl UserResponse {
    /// The response for a row: its id, email, role and approval, never its password hash.
    pub fn from_row(row: UserRow) -> (res: UserResponse)
        ensures
            res@ == public_view(row@),
    {
        UserResponse::from(row)
    }
}

} // verus!
