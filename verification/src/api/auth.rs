//! Logging in with Google and managing the users allowed to log in.

use vstd::prelude::*;

use super::ApiError;
use crate::ids::{is_random_uuid, new_random_id};
use crate::models::{AuthenticatedUser, PermissionLevel, User};
use crate::session::require_admin;

verus! {

/// The email address Google's answer for a valid ID token names; refused
/// when it names none.
pub fn credential_email(email: Option<String>) -> (res: Result<String, ApiError>)
    ensures
        email matches Some(e) ==> res matches Ok(v) && v == e,
        email is None ==> res matches Err(ApiError::NoEmail),
{
    match email {
        Some(e) => Ok(e),
        None => Err(ApiError::NoEmail),
    }
}

/// The user a login makes of an email address and the permission level the
/// users table holds for it; refused when the address is not a user's.
pub fn authorize_user(email: String, permission: Option<PermissionLevel>) -> (res: Result<
    AuthenticatedUser,
    ApiError,
>)
    ensures
        permission matches Some(p) ==> res matches Ok(u) && u.email == email && u.permission == p,
        permission is None ==> res matches Err(ApiError::NotAuthorizedUser),
{
    match permission {
        Some(p) => Ok(AuthenticatedUser { email, permission: p }),
        None => Err(ApiError::NotAuthorizedUser),
    }
}

/// A new user with the given email address and permission level, under a
/// fresh random id; only an administrator may add one.
pub fn add_user(current: Option<AuthenticatedUser>, email: String, permission: PermissionLevel) -> (res:
    Result<User, ApiError>)
    ensures
        current is None ==> res matches Err(ApiError::NotLoggedIn),
        current matches Some(u) && u.permission != PermissionLevel::Admin ==> res matches Err(
            ApiError::Forbidden,
        ),
        current matches Some(u) && u.permission == PermissionLevel::Admin ==> (res matches Ok(user) && {
            &&& user.email == email
            &&& user.admin == (permission == PermissionLevel::Admin)
            &&& is_random_uuid(user.id@)
        }),
{
    match require_admin(current) {
        Ok(_) => {},
        Err(e) => return Err(e),
    }
    Ok(User { id: new_random_id(), email, admin: permission == PermissionLevel::Admin })
}

} // verus!
