//! The Profile resource: per-operation outcome enums and the handler
//! contract the dispatcher calls.

use vstd::prelude::*;
use crate::auth::ApiKeyAuthHeader;
use crate::http::{CookieJar, Host, Method};
use crate::models;

verus! {

#[derive(Debug, PartialEq)]
#[must_use]
pub enum FollowUserByUsernameResponse {
    /// Profile
    Status200_Profile(models::GetProfileByUsername200Response),
    /// Unauthorized
    Status401_Unauthorized,
    /// Unexpected error
    Status422_UnexpectedError(models::GenericErrorModel),
}

#[derive(Debug, PartialEq)]
#[must_use]
pub enum GetProfileByUsernameResponse {
    /// Profile
    Status200_Profile(models::GetProfileByUsername200Response),
    /// Unauthorized
    Status401_Unauthorized,
    /// Unexpected error
    Status422_UnexpectedError(models::GenericErrorModel),
}

#[derive(Debug, PartialEq)]
#[must_use]
pub enum UnfollowUserByUsernameResponse {
    /// Profile
    Status200_Profile(models::GetProfileByUsername200Response),
    /// Unauthorized
    Status401_Unauthorized,
    /// Unexpected error
    Status422_UnexpectedError(models::GenericErrorModel),
}

/// Profile: the domain operations behind the profile endpoints.
pub trait Profile: ApiKeyAuthHeader {
    /// Follow a user.
    ///
    /// FollowUserByUsername - POST /api/profiles/{username}/follow
    fn follow_user_by_username(
        &self,
        method: Method,
        host: Host,
        cookies: CookieJar,
        claims: Self::Claims,
        path_params: models::FollowUserByUsernamePathParams,
    ) -> Result<FollowUserByUsernameResponse, ()>;

    /// Get a profile.
    ///
    /// GetProfileByUsername - GET /api/profiles/{username}
    fn get_profile_by_username(
        &self,
        method: Method,
        host: Host,
        cookies: CookieJar,
        path_params: models::GetProfileByUsernamePathParams,
    ) -> Result<GetProfileByUsernameResponse, ()>;

    /// Unfollow a user.
    ///
    /// UnfollowUserByUsername - DELETE /api/profiles/{username}/follow
    fn unfollow_user_by_username(
        &self,
        method: Method,
        host: Host,
        cookies: CookieJar,
        claims: Self::Claims,
        path_params: models::UnfollowUserByUsernamePathParams,
    ) -> Result<UnfollowUserByUsernameResponse, ()>;
}

} // verus!
