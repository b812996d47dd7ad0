pub mod dto;
pub mod rto;

use vstd::prelude::*;

use crate::auth::dto::LoginDto;
use crate::shared::database::InMemoryDatabase;
use crate::shared::hash_worker::{HashWorker, HashWorkerError};
use crate::shared::role::Role;
use crate::users::dto::ValidationError;
use crate::users::model::User;
use crate::users::repository::{FindOneProperty, UserRepositoryImpl};

verus! {

/// Access-token lifetime: 15 minutes in seconds.
pub const ACCESS_TOKEN_EXPIRY: u64 = 15 * 60;

/// Refresh-token lifetime: 7 days in seconds.
pub const REFRESH_TOKEN_EXPIRY: u64 = 7 * 24 * 60 * 60;

/// The claims carried by an access token.  Encoding them into a signed token
/// is the surrounding program's job.
#[derive(Debug, Clone)]
pub struct AccessTokenClaims {
    pub uuid: String,
    pub role: Role,
    pub sub: String,
    pub iat: u64,
    pub exp: u64,
}

/// The claims carried by a refresh token.
#[derive(Debug, Clone)]
pub struct RefreshTokenClaims {
    pub uuid: String,
    pub iat: u64,
    pub exp: u64,
}

/// Builds the claims for the token pair issued to `user` at time `now`.
pub fn generate_token_claims(user: &User, now: u64) -> (r: (AccessTokenClaims, RefreshTokenClaims))
    requires
        now + REFRESH_TOKEN_EXPIRY <= u64::MAX,
    ensures
        r.0.uuid@ == user.uuid@,
        r.0.role == user.role,
        r.0.sub@ == user.user_name@,
        r.0.iat == now,
        r.0.exp == now + ACCESS_TOKEN_EXPIRY,
        r.1.uuid@ == user.uuid@,
        r.1.iat == now,
        r.1.exp == now + REFRESH_TOKEN_EXPIRY,
{
    let access = AccessTokenClaims {
        uuid: user.uuid.clone(),
        role: user.role,
        sub: user.user_name.clone(),
        iat: now,
        exp: now + ACCESS_TOKEN_EXPIRY,
    };
    let refresh = RefreshTokenClaims { uuid: user.uuid.clone(), iat: now, exp: now + REFRESH_TOKEN_EXPIRY };
    (access, refresh)
}

/// How a login request is answered.
#[derive(Debug)]
pub enum LoginOutcome {
    /// The password matched; these claims are to be encoded and returned.
    Authorized(AccessTokenClaims, RefreshTokenClaims),
    /// Unknown email, or the password did not match.
    Unauthorized,
    /// The request broke a validation rule.
    Invalid(ValidationError),
    /// The hashing pool failed to check the password: a server-side fault,
    /// never to be conflated with a failed match.
    HasherFailed(HashWorkerError),
}

/// Handles a login request: validate, look the user up by email, check the
/// password on the hashing pool, and issue claims for the token pair.
///
/// Whether the pool reports a match is decided by the bcrypt primitive; the
/// exact statement lives on `execute_verify` in the pool.  Whatever it
/// answers, claims are only ever issued for the stored user with the
/// requested email, a mismatch is answered as unauthorized, and a pool
/// failure is surfaced as its own outcome, never as a failed match.
pub fn auth_login(
    user_repository: &UserRepositoryImpl<InMemoryDatabase>,
    hasher: &HashWorker,
    dto: &LoginDto,
    now: u64,
) -> (r: LoginOutcome)
    requires
        now + REFRESH_TOKEN_EXPIRY <= u64::MAX,
    ensures
        r is Invalid <==> !dto.spec_valid(),
        dto.spec_valid() && (forall|i: int|
            0 <= i < user_repository.spec_users().len()
            ==> (#[trigger] user_repository.spec_users()[i]).email@ != dto.email@)
            ==> r is Unauthorized,
        r is HasherFailed ==> dto.spec_valid() && (exists|i: int|
            0 <= i < user_repository.spec_users().len()
            && (#[trigger] user_repository.spec_users()[i]).email@ == dto.email@),
        r matches LoginOutcome::Authorized(access, refresh) ==> exists|i: int|
            {
                let user = #[trigger] user_repository.spec_users()[i];
                &&& 0 <= i < user_repository.spec_users().len()
                &&& user.email@ == dto.email@
                &&& access.uuid@ == user.uuid@
                &&& access.role == user.role
                &&& access.sub@ == user.user_name@
                &&& access.iat == now
                &&& access.exp == now + ACCESS_TOKEN_EXPIRY
                &&& refresh.uuid@ == user.uuid@
                &&& refresh.iat == now
                &&& refresh.exp == now + REFRESH_TOKEN_EXPIRY
            },
{
    if let Err(e) = dto.validate() {
        return LoginOutcome::Invalid(e);
    }

    let user = match user_repository.find_one(FindOneProperty::Email(dto.email.as_str())) {
        Ok(user) => user,
        Err(_) => {
            return LoginOutcome::Unauthorized;
        }
    };

    match hasher.verify_password(dto.password.as_str(), user.password_hash.as_str()) {
        Ok(true) => {
            let (access, refresh) = generate_token_claims(&user, now);
            LoginOutcome::Authorized(access, refresh)
        }
        Ok(false) => LoginOutcome::Unauthorized,
        Err(e) => LoginOutcome::HasherFailed(e),
    }
}

/// Handles a token-refresh request, after the surrounding program has
/// decoded and checked the refresh token: look the user up by the token's
/// uuid and issue claims for a fresh token pair; `None` is answered as
/// unauthorized.
pub fn access_token(
    user_repository: &UserRepositoryImpl<InMemoryDatabase>,
    uuid: &str,
    now: u64,
) -> (r: Option<(AccessTokenClaims, RefreshTokenClaims)>)
    requires
        now + REFRESH_TOKEN_EXPIRY <= u64::MAX,
    ensures
        r is None <==> (forall|i: int|
            0 <= i < user_repository.spec_users().len()
            ==> (#[trigger] user_repository.spec_users()[i]).uuid@ != uuid@),
        r matches Some((access, refresh)) ==> exists|i: int|
            {
                let user = #[trigger] user_repository.spec_users()[i];
                &&& 0 <= i < user_repository.spec_users().len()
                &&& user.uuid@ == uuid@
                &&& access.uuid@ == user.uuid@
                &&& access.role == user.role
                &&& access.sub@ == user.user_name@
                &&& access.iat == now
                &&& access.exp == now + ACCESS_TOKEN_EXPIRY
                &&& refresh.uuid@ == user.uuid@
                &&& refresh.iat == now
                &&& refresh.exp == now + REFRESH_TOKEN_EXPIRY
            },
{
    let user = match user_repository.find_one(FindOneProperty::Uuid(uuid)) {
        Ok(user) => user,
        Err(_) => {
            return None;
        }
    };
    let (access, refresh) = generate_token_claims(&user, now);
    Some((access, refresh))
}

} // verus!
