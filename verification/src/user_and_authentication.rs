//! The UserAndAuthentication resource: per-operation outcome enums and the
//! handler contract the dispatcher calls.

use vstd::prelude::*;
use crate::auth::ApiKeyAuthHeader;
use crate::http::{CookieJar, Host, Method};
use crate::models;

verus! {

#[derive(Debug, PartialEq)]
#[must_use]
pub enum CreateUserResponse {
    /// User
    Status201_User(models::Login200Response),
    /// Unexpected error
    Status422_UnexpectedError(models::GenericErrorModel),
}

#[derive(Debug, PartialEq)]
#[must_use]
pub enum GetCurrentUserResponse {
    /// User
    Status200_User(models::Login200Response),
    /// Unauthorized
    Status401_Unauthorized,
    /// Unexpected error
    Status422_UnexpectedError(models::GenericErrorModel),
}

#[derive(Debug, PartialEq)]
#[must_use]
pub enum LoginResponse {
    /// User
    Status200_User(models::Login200Response),
    /// Unauthorized
    Status401_Unauthorized,
    /// Unexpected error
    Status422_UnexpectedError(models::GenericErrorModel),
}

#[derive(Debug, PartialEq)]
#[must_use]
pub enum UpdateCurrentUserResponse {
    /// User
    Status200_User(models::Login200Response),
    /// Unauthorized
    Status401_Unauthorized,
    /// Unexpected error
    Status422_UnexpectedError(models::GenericErrorModel),
}

/// UserAndAuthentication: the domain operations behind the user endpoints.
pub trait UserAndAuthentication: ApiKeyAuthHeader {
    /// Register a new user.
    ///
    /// CreateUser - POST /api/users
    fn create_user(
        &self,
        method: Method,
        host: Host,
        cookies: CookieJar,
        body: models::CreateUserRequest,
    ) -> Result<CreateUserResponse, ()>;

    /// Get current user.
    ///
    /// GetCurrentUser - GET /api/user
    fn get_current_user(
        &self,
        method: Method,
        host: Host,
        cookies: CookieJar,
        claims: Self::Claims,
    ) -> Result<GetCurrentUserResponse, ()>;

    /// Existing user login.
    ///
    /// Login - POST /api/users/login
    fn login(&self, method: Method, host: Host, cookies: CookieJar, body: models::LoginRequest)
        -> Result<LoginResponse, ()>;

    /// Update current user.
    ///
    /// UpdateCurrentUser - PUT /api/user
    fn update_current_user(
        &self,
        method: Method,
        host: Host,
        cookies: CookieJar,
        claims: Self::Claims,
        body: models::UpdateCurrentUserRequest,
    ) -> Result<UpdateCurrentUserResponse, ()>;
}

} // verus!
