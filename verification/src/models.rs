//! Typed models of the API: path and query parameter sets, request bodies,
//! and response payloads.

use vstd::prelude::*;

verus! {

/// A UTC timestamp carried as RFC 3339 text. The pipeline never computes on
/// timestamps; it stores and re-emits the text. `parse` asks the chrono
/// crate whether the text is a valid timestamp.
#[derive(Debug, Clone, PartialEq, Eq)]
pub struct DateTime {
    pub text: String,
}

/// Whether chrono's `DateTime::<Utc>::from_str` accepts the text; a function
/// of the text alone.
pub uninterp spec fn chrono_utc_accepts(s: Seq<char>) -> bool;

/// Relies on chrono's `DateTime::<Utc>::from_str`: acceptance of the text as
/// an RFC 3339 UTC timestamp depends on the text alone.
#[verifier::external_body]
fn rfc3339_accepted(s: &str) -> (r: bool)
    ensures
        r == chrono_utc_accepts(s@),
{
    <chrono::DateTime<chrono::Utc> as core::str::FromStr>::from_str(s).is_ok()
}

impl DateTime {
    pub fn new(text: String) -> (r: DateTime)
        ensures
            r.text == text,
    {
        DateTime { text }
    }

    /// Accepts exactly the texts that chrono parses as UTC timestamps.
    pub fn parse(s: &str) -> (r: Option<DateTime>)
        ensures
            match r {
                Some(d) => chrono_utc_accepts(s@) && d.text@ == s@,
                None => !chrono_utc_accepts(s@),
            },
    {
        if rfc3339_accepted(s) {
            Some(DateTime { text: s.to_owned() })
        } else {
            None
        }
    }
}

#[derive(Debug, Clone, PartialEq)]
pub struct DeleteArticlePathParams {
    /// Slug of the article to delete
    pub slug: String,
}

#[derive(Debug, Clone, PartialEq)]
pub struct GetArticlePathParams {
    /// Slug of the article to get
    pub slug: String,
}

#[derive(Debug, Clone, PartialEq)]
pub struct GetArticlesQueryParams {
    /// Filter by tag
    pub tag: Option<String>,
    /// Filter by author (username)
    pub author: Option<String>,
    /// Filter by favorites of a user (username)
    pub favorited: Option<String>,
    /// The number of items to skip before starting to collect the result
    /// set; validated to be at least 0.
    pub offset: Option<i32>,
    /// The numbers of items to return; validated to be at least 1.
    pub limit: Option<i32>,
}

#[derive(Debug, Clone, PartialEq)]
pub struct GetArticlesFeedQueryParams {
    /// The number of items to skip before starting to collect the result
    /// set; validated to be at least 0.
    pub offset: Option<i32>,
    /// The numbers of items to return; validated to be at least 1.
    pub limit: Option<i32>,
}

#[derive(Debug, Clone, PartialEq)]
pub struct UpdateArticlePathParams {
    /// Slug of the article to update
    pub slug: String,
}

#[derive(Debug, Clone, PartialEq)]
pub struct CreateArticleCommentPathParams {
    /// Slug of the article that you want to create a comment for
    pub slug: String,
}

#[derive(Debug, Clone, PartialEq)]
pub struct DeleteArticleCommentPathParams {
    /// Slug of the article that you want to delete a comment for
    pub slug: String,
    /// ID of the comment you want to delete
    pub id: i32,
}

#[derive(Debug, Clone, PartialEq)]
pub struct GetArticleCommentsPathParams {
    /// Slug of the article that you want to get comments for
    pub slug: String,
}

#[derive(Debug, Clone, PartialEq)]
pub struct CreateArticleFavoritePathParams {
    /// Slug of the article that you want to favorite
    pub slug: String,
}

#[derive(Debug, Clone, PartialEq)]
pub struct DeleteArticleFavoritePathParams {
    /// Slug of the article that you want to unfavorite
    pub slug: String,
}

#[derive(Debug, Clone, PartialEq)]
pub struct FollowUserByUsernamePathParams {
    /// Username of the profile you want to follow
    pub username: String,
}

#[derive(Debug, Clone, PartialEq)]
pub struct GetProfileByUsernamePathParams {
    /// Username of the profile to get
    pub username: String,
}

#[derive(Debug, Clone, PartialEq)]
pub struct UnfollowUserByUsernamePathParams {
    /// Username of the profile you want to unfollow
    pub username: String,
}

#[derive(Debug, Clone, PartialEq)]
pub struct Profile {
    pub username: String,
    pub bio: String,
    pub image: String,
    pub following: bool,
}

impl Profile {
    pub fn new(username: String, bio: String, image: String, following: bool) -> (r: Profile)
        ensures
            r == (Profile { username, bio, image, following }),
    {
        Profile { username, bio, image, following }
    }
}

#[derive(Debug, Clone, PartialEq)]
pub struct Article {
    pub slug: String,
    pub title: String,
    pub description: String,
    pub body: String,
    pub tag_list: Vec<String>,
    pub created_at: DateTime,
    pub updated_at: DateTime,
    pub favorited: bool,
    pub favorites_count: i32,
    pub author: Profile,
}

impl Article {
    #[allow(clippy::too_many_arguments)]
    pub fn new(
        slug: String,
        title: String,
        description: String,
        body: String,
        tag_list: Vec<String>,
        created_at: DateTime,
        updated_at: DateTime,
        favorited: bool,
        favorites_count: i32,
        author: Profile,
    ) -> (r: Article)
        ensures
            r == (Article {
                slug,
                title,
                description,
                body,
                tag_list,
                created_at,
                updated_at,
                favorited,
                favorites_count,
                author,
            }),
    {
        Article {
            slug,
            title,
            description,
            body,
            tag_list,
            created_at,
            updated_at,
            favorited,
            favorites_count,
            author,
        }
    }
}

#[derive(Debug, Clone, PartialEq)]
pub struct Comment {
    pub id: i32,
    pub created_at: DateTime,
    pub updated_at: DateTime,
    pub body: String,
    pub author: Profile,
}

impl Comment {
    pub fn new(id: i32, created_at: DateTime, updated_at: DateTime, body: String, author: Profile)
        -> (r: Comment)
        ensures
            r == (Comment { id, created_at, updated_at, body, author }),
    {
        Comment { id, created_at, updated_at, body, author }
    }
}

#[derive(Debug, Clone, PartialEq)]
pub struct CreateArticle201Response {
    pub article: Article,
}

impl CreateArticle201Response {
    pub fn new(article: Article) -> (r: CreateArticle201Response)
        ensures
            r == (CreateArticle201Response { article }),
    {
        CreateArticle201Response { article }
    }
}

#[derive(Debug, Clone, PartialEq)]
pub struct CreateArticleComment200Response {
    pub comment: Comment,
}

impl CreateArticleComment200Response {
    pub fn new(comment: Comment) -> (r: CreateArticleComment200Response)
        ensures
            r == (CreateArticleComment200Response { comment }),
    {
        CreateArticleComment200Response { comment }
    }
}

#[derive(Debug, Clone, PartialEq)]
pub struct NewComment {
    pub body: String,
}

impl NewComment {
    pub fn new(body: String) -> (r: NewComment)
        ensures
            r == (NewComment { body }),
    {
        NewComment { body }
    }
}

#[derive(Debug, Clone, PartialEq)]
pub struct CreateArticleCommentRequest {
    pub comment: NewComment,
}

impl CreateArticleCommentRequest {
    pub fn new(comment: NewComment) -> (r: CreateArticleCommentRequest)
        ensures
            r == (CreateArticleCommentRequest { comment }),
    {
        CreateArticleCommentRequest { comment }
    }
}

#[derive(Debug, Clone, PartialEq)]
pub struct NewArticle {
    pub title: String,
    pub description: String,
    pub body: String,
    pub tag_list: Option<Vec<String>>,
}

impl NewArticle {
    pub fn new(title: String, description: String, body: String) -> (r: NewArticle)
        ensures
            r == (NewArticle { title, description, body, tag_list: None }),
    {
        NewArticle { title, description, body, tag_list: None }
    }
}

#[derive(Debug, Clone, PartialEq)]
pub struct CreateArticleRequest {
    pub article: NewArticle,
}

impl CreateArticleRequest {
    pub fn new(article: NewArticle) -> (r: CreateArticleRequest)
        ensures
            r == (CreateArticleRequest { article }),
    {
        CreateArticleRequest { article }
    }
}

#[derive(Debug, Clone, PartialEq)]
pub struct NewUser {
    pub username: String,
    pub email: String,
    pub password: String,
}

impl NewUser {
    pub fn new(username: String, email: String, password: String) -> (r: NewUser)
        ensures
            r == (NewUser { username, email, password }),
    {
        NewUser { username, email, password }
    }
}

#[derive(Debug, Clone, PartialEq)]
pub struct CreateUserRequest {
    pub user: NewUser,
}

impl CreateUserRequest {
    pub fn new(user: NewUser) -> (r: CreateUserRequest)
        ensures
            r == (CreateUserRequest { user }),
    {
        CreateUserRequest { user }
    }
}

#[derive(Debug, Clone, PartialEq)]
pub struct GenericErrorModelErrors {
    pub body: Vec<String>,
}

impl GenericErrorModelErrors {
    pub fn new(body: Vec<String>) -> (r: GenericErrorModelErrors)
        ensures
            r == (GenericErrorModelErrors { body }),
    {
        GenericErrorModelErrors { body }
    }
}

#[derive(Debug, Clone, PartialEq)]
pub struct GenericErrorModel {
    pub errors: GenericErrorModelErrors,
}

impl GenericErrorModel {
    pub fn new(errors: GenericErrorModelErrors) -> (r: GenericErrorModel)
        ensures
            r == (GenericErrorModel { errors }),
    {
        GenericErrorModel { errors }
    }
}

#[derive(Debug, Clone, PartialEq)]
pub struct GetArticleComments200Response {
    pub comments: Vec<Comment>,
}

impl GetArticleComments200Response {
    pub fn new(comments: Vec<Comment>) -> (r: GetArticleComments200Response)
        ensures
            r == (GetArticleComments200Response { comments }),
    {
        GetArticleComments200Response { comments }
    }
}

#[derive(Debug, Clone, PartialEq)]
pub struct GetArticlesFeed200ResponseArticlesInner {
    pub slug: String,
    pub title: String,
    pub description: String,
    pub tag_list: Vec<String>,
    pub created_at: DateTime,
    pub updated_at: DateTime,
    pub favorited: bool,
    pub favorites_count: i32,
    pub author: Profile,
}

impl GetArticlesFeed200ResponseArticlesInner {
    #[allow(clippy::too_many_arguments)]
    pub fn new(
        slug: String,
        title: String,
        description: String,
        tag_list: Vec<String>,
        created_at: DateTime,
        updated_at: DateTime,
        favorited: bool,
        favorites_count: i32,
        author: Profile,
    ) -> (r: GetArticlesFeed200ResponseArticlesInner)
        ensures
            r == (GetArticlesFeed200ResponseArticlesInner {
                slug,
                title,
                description,
                tag_list,
                created_at,
                updated_at,
                favorited,
                favorites_count,
                author,
            }),
    {
        GetArticlesFeed200ResponseArticlesInner {
            slug,
            title,
            description,
            tag_list,
            created_at,
            updated_at,
            favorited,
            favorites_count,
            author,
        }
    }
}

#[derive(Debug, Clone, PartialEq)]
pub struct GetArticlesFeed200Response {
    pub articles: Vec<GetArticlesFeed200ResponseArticlesInner>,
    pub articles_count: i32,
}

impl GetArticlesFeed200Response {
    pub fn new(articles: Vec<GetArticlesFeed200ResponseArticlesInner>, articles_count: i32) -> (r:
        GetArticlesFeed200Response)
        ensures
            r == (GetArticlesFeed200Response { articles, articles_count }),
    {
        GetArticlesFeed200Response { articles, articles_count }
    }
}

#[derive(Debug, Clone, PartialEq)]
pub struct GetProfileByUsername200Response {
    pub profile: Profile,
}

impl GetProfileByUsername200Response {
    pub fn new(profile: Profile) -> (r: GetProfileByUsername200Response)
        ensures
            r == (GetProfileByUsername200Response { profile }),
    {
        GetProfileByUsername200Response { profile }
    }
}

#[derive(Debug, Clone, PartialEq)]
pub struct GetTags200Response {
    pub tags: Vec<String>,
}

impl GetTags200Response {
    pub fn new(tags: Vec<String>) -> (r: GetTags200Response)
        ensures
            r == (GetTags200Response { tags }),
    {
        GetTags200Response { tags }
    }
}

#[derive(Debug, Clone, PartialEq)]
pub struct User {
    pub email: String,
    pub token: String,
    pub username: String,
    pub bio: String,
    pub image: String,
}

impl User {
    pub fn new(email: String, token: String, username: String, bio: String, image: String) -> (r:
        User)
        ensures
            r == (User { email, token, username, bio, image }),
    {
        User { email, token, username, bio, image }
    }
}

#[derive(Debug, Clone, PartialEq)]
pub struct Login200Response {
    pub user: User,
}

impl Login200Response {
    pub fn new(user: User) -> (r: Login200Response)
        ensures
            r == (Login200Response { user }),
    {
        Login200Response { user }
    }
}

#[derive(Debug, Clone, PartialEq)]
pub struct LoginUser {
    pub email: String,
    pub password: String,
}

impl LoginUser {
    pub fn new(email: String, password: String) -> (r: LoginUser)
        ensures
            r == (LoginUser { email, password }),
    {
        LoginUser { email, password }
    }
}

#[derive(Debug, Clone, PartialEq)]
pub struct LoginRequest {
    pub user: LoginUser,
}

impl LoginRequest {
    pub fn new(user: LoginUser) -> (r: LoginRequest)
        ensures
            r == (LoginRequest { user }),
    {
        LoginRequest { user }
    }
}

#[derive(Debug, Clone, PartialEq)]
pub struct UpdateArticle {
    pub title: Option<String>,
    pub description: Option<String>,
    pub body: Option<String>,
}

impl UpdateArticle {
    pub fn new() -> (r: UpdateArticle)
        ensures
            r == (UpdateArticle { title: None, description: None, body: None }),
    {
        UpdateArticle { title: None, description: None, body: None }
    }
}

#[derive(Debug, Clone, PartialEq)]
pub struct UpdateArticleRequest {
    pub article: UpdateArticle,
}

impl UpdateArticleRequest {
    pub fn new(article: UpdateArticle) -> (r: UpdateArticleRequest)
        ensures
            r == (UpdateArticleRequest { article }),
    {
        UpdateArticleRequest { article }
    }
}

#[derive(Debug, Clone, PartialEq)]
pub struct UpdateUser {
    pub email: Option<String>,
    pub password: Option<String>,
    pub username: Option<String>,
    pub bio: Option<String>,
    pub image: Option<String>,
}

impl UpdateUser {
    pub fn new() -> (r: UpdateUser)
        ensures
            r == (UpdateUser {
                email: None,
                password: None,
                username: None,
                bio: None,
                image: None,
            }),
    {
        UpdateUser { email: None, password: None, username: None, bio: None, image: None }
    }
}

#[derive(Debug, Clone, PartialEq)]
pub struct UpdateCurrentUserRequest {
    pub user: UpdateUser,
}

impl UpdateCurrentUserRequest {
    pub fn new(user: UpdateUser) -> (r: UpdateCurrentUserRequest)
        ensures
            r == (UpdateCurrentUserRequest { user }),
    {
        UpdateCurrentUserRequest { user }
    }
}

} // verus!
