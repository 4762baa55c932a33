//! The Comments resource: per-operation outcome enums and the handler
//! contract the dispatcher calls.

use vstd::prelude::*;
use crate::auth::ApiKeyAuthHeader;
use crate::http::{CookieJar, Host, Method};
use crate::models;

verus! {

#[derive(Debug, PartialEq)]
#[must_use]
pub enum CreateArticleCommentResponse {
    /// Single comment
    Status200_SingleComment(models::CreateArticleComment200Response),
    /// Unauthorized
    Status401_Unauthorized,
    /// Unexpected error
    Status422_UnexpectedError(models::GenericErrorModel),
}

#[derive(Debug, PartialEq)]
#[must_use]
pub enum DeleteArticleCommentResponse {
    /// No content
    Status200_NoContent,
    /// Unauthorized
    Status401_Unauthorized,
    /// Unexpected error
    Status422_UnexpectedError(models::GenericErrorModel),
}

#[derive(Debug, PartialEq)]
#[must_use]
pub enum GetArticleCommentsResponse {
    /// Multiple comments
    Status200_MultipleComments(models::GetArticleComments200Response),
    /// Unauthorized
    Status401_Unauthorized,
    /// Unexpected error
    Status422_UnexpectedError(models::GenericErrorModel),
}

/// Comments: the domain operations behind the comment endpoints.
pub trait Comments: ApiKeyAuthHeader {
    /// Create a comment for an article.
    ///
    /// CreateArticleComment - POST /api/articles/{slug}/comments
    fn create_article_comment(
        &self,
        method: Method,
        host: Host,
        cookies: CookieJar,
        claims: Self::Claims,
        path_params: models::CreateArticleCommentPathParams,
        body: models::CreateArticleCommentRequest,
    ) -> Result<CreateArticleCommentResponse, ()>;

    /// Delete a comment for an article.
    ///
    /// DeleteArticleComment - DELETE /api/articles/{slug}/comments/{id}
    fn delete_article_comment(
        &self,
        method: Method,
        host: Host,
        cookies: CookieJar,
        claims: Self::Claims,
        path_params: models::DeleteArticleCommentPathParams,
    ) -> Result<DeleteArticleCommentResponse, ()>;

    /// Get comments for an article.
    ///
    /// GetArticleComments - GET /api/articles/{slug}/comments
    fn get_article_comments(
        &self,
        method: Method,
        host: Host,
        cookies: CookieJar,
        path_params: models::GetArticleCommentsPathParams,
    ) -> Result<GetArticleCommentsResponse, ()>;
}

} // verus!
