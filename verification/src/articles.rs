//! The Articles resource: per-operation outcome enums and the handler
//! contract the dispatcher calls.

use vstd::prelude::*;
use crate::auth::ApiKeyAuthHeader;
use crate::http::{CookieJar, Host, Method};
use crate::models;

verus! {

#[derive(Debug, PartialEq)]
#[must_use]
pub enum CreateArticleResponse {
    /// Single article
    Status201_SingleArticle(models::CreateArticle201Response),
    /// Unauthorized
    Status401_Unauthorized,
    /// Unexpected error
    Status422_UnexpectedError(models::GenericErrorModel),
}

#[derive(Debug, PartialEq)]
#[must_use]
pub enum DeleteArticleResponse {
    /// No content
    Status200_NoContent,
    /// Unauthorized
    Status401_Unauthorized,
    /// Unexpected error
    Status422_UnexpectedError(models::GenericErrorModel),
}

#[derive(Debug, PartialEq)]
#[must_use]
pub enum GetArticleResponse {
    /// Single article
    Status200_SingleArticle(models::CreateArticle201Response),
    /// Unexpected error
    Status422_UnexpectedError(models::GenericErrorModel),
}

#[derive(Debug, PartialEq)]
#[must_use]
pub enum GetArticlesResponse {
    /// Multiple articles
    Status200_MultipleArticles(models::GetArticlesFeed200Response),
    /// Unauthorized
    Status401_Unauthorized,
    /// Unexpected error
    Status422_UnexpectedError(models::GenericErrorModel),
}

#[derive(Debug, PartialEq)]
#[must_use]
pub enum GetArticlesFeedResponse {
    /// Multiple articles
    Status200_MultipleArticles(models::GetArticlesFeed200Response),
    /// Unauthorized
    Status401_Unauthorized,
    /// Unexpected error
    Status422_UnexpectedError(models::GenericErrorModel),
}

#[derive(Debug, PartialEq)]
#[must_use]
pub enum UpdateArticleResponse {
    /// Single article
    Status200_SingleArticle(models::CreateArticle201Response),
    /// Unauthorized
    Status401_Unauthorized,
    /// Unexpected error
    Status422_UnexpectedError(models::GenericErrorModel),
}

/// Articles: the domain operations behind the article endpoints. The
/// dispatcher trusts an implementation only to return one of the declared
/// outcomes, or the internal-failure signal mapped to `500`.
pub trait Articles: ApiKeyAuthHeader {
    /// Create an article.
    ///
    /// CreateArticle - POST /api/articles
    fn create_article(
        &self,
        method: Method,
        host: Host,
        cookies: CookieJar,
        claims: Self::Claims,
        body: models::CreateArticleRequest,
    ) -> Result<CreateArticleResponse, ()>;

    /// Delete an article.
    ///
    /// DeleteArticle - DELETE /api/articles/{slug}
    fn delete_article(
        &self,
        method: Method,
        host: Host,
        cookies: CookieJar,
        claims: Self::Claims,
        path_params: models::DeleteArticlePathParams,
    ) -> Result<DeleteArticleResponse, ()>;

    /// Get an article.
    ///
    /// GetArticle - GET /api/articles/{slug}
    fn get_article(
        &self,
        method: Method,
        host: Host,
        cookies: CookieJar,
        path_params: models::GetArticlePathParams,
    ) -> Result<GetArticleResponse, ()>;

    /// Get recent articles globally.
    ///
    /// GetArticles - GET /api/articles
    fn get_articles(
        &self,
        method: Method,
        host: Host,
        cookies: CookieJar,
        query_params: models::GetArticlesQueryParams,
    ) -> Result<GetArticlesResponse, ()>;

    /// Get recent articles from users you follow.
    ///
    /// GetArticlesFeed - GET /api/articles/feed
    fn get_articles_feed(
        &self,
        method: Method,
        host: Host,
        cookies: CookieJar,
        claims: Self::Claims,
        query_params: models::GetArticlesFeedQueryParams,
    ) -> Result<GetArticlesFeedResponse, ()>;

    /// Update an article.
    ///
    /// UpdateArticle - PUT /api/articles/{slug}
    fn update_article(
        &self,
        method: Method,
        host: Host,
        cookies: CookieJar,
        claims: Self::Claims,
        path_params: models::UpdateArticlePathParams,
        body: models::UpdateArticleRequest,
    ) -> Result<UpdateArticleResponse, ()>;
}

} // verus!
