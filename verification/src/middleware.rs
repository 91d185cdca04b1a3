use vstd::prelude::*;

use crate::error::{result_view, AppError, ErrorView};
use crate::models::{AuthenticatedUser, Claims};
use crate::role::RoleMarker;
use crate::tokens::{
    accept_token, accept_token_now, accept_token_now_spec, accept_token_spec, decoded_view,
    jwt_secret,
};

verus! {

impl AuthenticatedUser {
    /// The first checks on a protected request: a bearer token must be present (else 401),
    /// and the signing secret must be set (else 500). The token and the secret returned are
    /// what the token is then decoded with.
    pub fn credentials(header: Option<String>, secret: Option<String>) -> (res: Result<
        (String, String),
        AppError,
    >)
        ensures
            match (header, secret) {
                (Some(t), Some(s)) => res == Ok::<(String, String), AppError>((t, s)),
                (None, _) => res matches Err(e) && e@ == ErrorView::Unauthorized,
                (Some(_), None) => res matches Err(e) && e@ == ErrorView::Internal(
                    "JWT_SECRET not set"@,
                ),
            },
    {
        let token = match header {
            Some(t) => t,
            None => return Err(AppError::Unauthorized),
        };
        let secret = jwt_secret(secret)?;
        Ok((token, secret))
    }

    /// Authenticates the caller at time `now` from the decoded bearer token: only an access
    /// token that has not expired is accepted (a refresh token is refused with 401, as is an
    /// invalid or expired one), and the caller is its subject with its role.
    pub fn from_claims_at(decoded: Option<Claims>, now: usize) -> (res: Result<
        AuthenticatedUser,
        AppError,
    >)
        ensures
            result_view(res) == accept_token_spec(decoded_view(decoded), "access"@, now),
    {
        accept_token(decoded, "access", now)
    }

    /// Authenticates the caller from the decoded bearer token at the current time.
    pub fn from_claims(decoded: Option<Claims>) -> (res: Result<
        AuthenticatedUser,
        AppError,
    >)
        ensures
            accept_token_now_spec(decoded_view(decoded), "access"@, result_view(res)),
    {
        accept_token_now(decoded, "access")
    }
}

/// A caller who holds exactly the role `R` names.
pub struct RequireRole<R: RoleMarker> {
    pub user: AuthenticatedUser,
    _marker: std::marker::PhantomData<R>,
}

/// What the role guard answers for the outcome of authentication: the caller's own
/// error where authentication failed (so a bad token stays 401), 403 for a valid caller
/// of another role, and the caller where the roles agree.
pub open spec fn require_role_spec<R: RoleMarker>(user: Result<AuthenticatedUser, ErrorView>) -> Result<
    AuthenticatedUser,
    ErrorView,
> {
    match user {
        Err(e) => Err(e),
        Ok(u) => if u.role == R::ROLE {
            Ok(u)
        } else {
            Err(ErrorView::Forbidden)
        },
    }
}

impl<R: RoleMarker> View for RequireRole<R> {
    type V = AuthenticatedUser;

    /// The admitted caller.
    closed spec fn view(&self) -> AuthenticatedUser {
        self.user
    }
}

impl<R: RoleMarker> RequireRole<R> {
    /// The admitted caller.
    pub fn user(&self) -> (res: AuthenticatedUser)
        ensures
            res == self@,
    {
        self.user
    }

    /// Admits an authenticated caller whose role is `R::ROLE`.
    pub fn from_user(user: Result<AuthenticatedUser, AppError>) -> (res: Result<Self, AppError>)
        ensures
            match res {
                Ok(g) => require_role_spec::<R>(result_view(user)) == Ok::<
                    AuthenticatedUser,
                    ErrorView,
                >(g@),
                Err(e) => require_role_spec::<R>(result_view(user)) == Err::<
                    AuthenticatedUser,
                    ErrorView,
                >(e@),
            },
    {
        let user = user?;
        if user.role != R::ROLE {
            return Err(AppError::Forbidden);
        }
        Ok(RequireRole { user, _marker: std::marker::PhantomData })
    }
}

} // verus!
