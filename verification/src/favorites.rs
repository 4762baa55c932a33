//! The Favorites resource: per-operation outcome enums and the handler
//! contract the dispatcher calls.

use vstd::prelude::*;
use crate::auth::ApiKeyAuthHeader;
use crate::http::{CookieJar, Host, Method};
use crate::models;

verus! {

#[derive(Debug, PartialEq)]
#[must_use]
pub enum CreateArticleFavoriteResponse {
    /// Single article
    Status200_SingleArticle(models::CreateArticle201Response),
    /// Unauthorized
    Status401_Unauthorized,
    /// Unexpected error
    Status422_UnexpectedError(models::GenericErrorModel),
}

#[derive(Debug, PartialEq)]
#[must_use]
pub enum DeleteArticleFavoriteResponse {
    /// Single article
    Status200_SingleArticle(models::CreateArticle201Response),
    /// Unauthorized
    Status401_Unauthorized,
    /// Unexpected error
    Status422_UnexpectedError(models::GenericErrorModel),
}

/// Favorites: the domain operations behind the favorite endpoints.
pub trait Favorites: ApiKeyAuthHeader {
    /// Favorite an article.
    ///
    /// CreateArticleFavorite - POST /api/articles/{slug}/favorite
    fn create_article_favorite(
        &self,
        method: Method,
        host: Host,
        cookies: CookieJar,
        claims: Self::Claims,
        path_params: models::CreateArticleFavoritePathParams,
    ) -> Result<CreateArticleFavoriteResponse, ()>;

    /// Unfavorite an article.
    ///
    /// DeleteArticleFavorite - DELETE /api/articles/{slug}/favorite
    fn delete_article_favorite(
        &self,
        method: Method,
        host: Host,
        cookies: CookieJar,
        claims: Self::Claims,
        path_params: models::DeleteArticleFavoritePathParams,
    ) -> Result<DeleteArticleFavoriteResponse, ()>;
}

} // verus!
