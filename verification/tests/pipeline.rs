//! End-to-end tests of the dispatchers against a call-counting stub handler.

use std::cell::Cell;

use conduit_core::articles::{
    Articles, CreateArticleResponse, DeleteArticleResponse, GetArticleResponse,
    GetArticlesFeedResponse, GetArticlesResponse, UpdateArticleResponse,
};
use conduit_core::auth::ApiKeyAuthHeader;
use conduit_core::comments::{
    Comments, CreateArticleCommentResponse, DeleteArticleCommentResponse,
    GetArticleCommentsResponse,
};
use conduit_core::decode::parse_json;
use conduit_core::favorites::{
    CreateArticleFavoriteResponse, DeleteArticleFavoriteResponse, Favorites,
};
use conduit_core::http::{CookieJar, HeaderMap, Host, Method};
use conduit_core::models;
use conduit_core::profile::{
    FollowUserByUsernameResponse, GetProfileByUsernameResponse, Profile,
    UnfollowUserByUsernameResponse,
};
use conduit_core::server;
use conduit_core::tags::{GetTagsResponse, Tags};
use conduit_core::user_and_authentication::{
    CreateUserResponse, GetCurrentUserResponse, LoginResponse, UpdateCurrentUserResponse,
    UserAndAuthentication,
};

/// A stub domain handler: counts invocations and echoes fixed payloads.
struct Stub {
    calls: Cell<u32>,
}

impl Stub {
    fn new() -> Stub {
        Stub { calls: Cell::new(0) }
    }

    fn bump(&self) {
        self.calls.set(self.calls.get() + 1);
    }
}

fn sample_profile() -> models::Profile {
    models::Profile {
        username: "bob".to_string(),
        bio: String::new(),
        image: String::new(),
        following: false,
    }
}

fn article_from(new: &models::NewArticle) -> models::Article {
    models::Article {
        slug: new.title.to_lowercase(),
        title: new.title.clone(),
        description: new.description.clone(),
        body: new.body.clone(),
        tag_list: new.tag_list.clone().unwrap_or_default(),
        created_at: models::DateTime { text: "2024-01-01T00:00:00Z".to_string() },
        updated_at: models::DateTime { text: "2024-01-01T00:00:00Z".to_string() },
        favorited: false,
        favorites_count: 0,
        author: sample_profile(),
    }
}

fn sample_article() -> models::Article {
    article_from(&models::NewArticle {
        title: "T".to_string(),
        description: "D".to_string(),
        body: "B".to_string(),
        tag_list: None,
    })
}

fn sample_user() -> models::User {
    models::User {
        email: "bob@x.com".to_string(),
        token: "token-abc".to_string(),
        username: "bob".to_string(),
        bio: String::new(),
        image: String::new(),
    }
}

impl ApiKeyAuthHeader for Stub {
    type Claims = String;

    fn extract_claims_from_header(&self, headers: &HeaderMap, key: &str) -> Option<String> {
        for (name, value) in headers.entries.iter() {
            if name == key {
                return Some(value.clone());
            }
        }
        None
    }
}

impl Articles for Stub {
    fn create_article(
        &self,
        _method: Method,
        _host: Host,
        _cookies: CookieJar,
        _claims: String,
        body: models::CreateArticleRequest,
    ) -> Result<CreateArticleResponse, ()> {
        self.bump();
        Ok(CreateArticleResponse::Status201_SingleArticle(
            models::CreateArticle201Response { article: article_from(&body.article) },
        ))
    }

    fn delete_article(
        &self,
        _method: Method,
        _host: Host,
        _cookies: CookieJar,
        _claims: String,
        _path_params: models::DeleteArticlePathParams,
    ) -> Result<DeleteArticleResponse, ()> {
        self.bump();
        Ok(DeleteArticleResponse::Status200_NoContent)
    }

    fn get_article(
        &self,
        _method: Method,
        _host: Host,
        _cookies: CookieJar,
        _path_params: models::GetArticlePathParams,
    ) -> Result<GetArticleResponse, ()> {
        self.bump();
        Ok(GetArticleResponse::Status200_SingleArticle(models::CreateArticle201Response {
            article: sample_article(),
        }))
    }

    fn get_articles(
        &self,
        _method: Method,
        _host: Host,
        _cookies: CookieJar,
        _query_params: models::GetArticlesQueryParams,
    ) -> Result<GetArticlesResponse, ()> {
        self.bump();
        Ok(GetArticlesResponse::Status200_MultipleArticles(models::GetArticlesFeed200Response {
            articles: vec![],
            articles_count: 0,
        }))
    }

    fn get_articles_feed(
        &self,
        _method: Method,
        _host: Host,
        _cookies: CookieJar,
        _claims: String,
        _query_params: models::GetArticlesFeedQueryParams,
    ) -> Result<GetArticlesFeedResponse, ()> {
        self.bump();
        Ok(GetArticlesFeedResponse::Status200_MultipleArticles(
            models::GetArticlesFeed200Response { articles: vec![], articles_count: 0 },
        ))
    }

    fn update_article(
        &self,
        _method: Method,
        _host: Host,
        _cookies: CookieJar,
        _claims: String,
        _path_params: models::UpdateArticlePathParams,
        _body: models::UpdateArticleRequest,
    ) -> Result<UpdateArticleResponse, ()> {
        self.bump();
        Err(())
    }
}

impl Comments for Stub {
    fn create_article_comment(
        &self,
        _method: Method,
        _host: Host,
        _cookies: CookieJar,
        _claims: String,
        _path_params: models::CreateArticleCommentPathParams,
        _body: models::CreateArticleCommentRequest,
    ) -> Result<CreateArticleCommentResponse, ()> {
        self.bump();
        Ok(CreateArticleCommentResponse::Status401_Unauthorized)
    }

    fn delete_article_comment(
        &self,
        _method: Method,
        _host: Host,
        _cookies: CookieJar,
        _claims: String,
        path_params: models::DeleteArticleCommentPathParams,
    ) -> Result<DeleteArticleCommentResponse, ()> {
        self.bump();
        assert_eq!(path_params.id, 12);
        Ok(DeleteArticleCommentResponse::Status200_NoContent)
    }

    fn get_article_comments(
        &self,
        _method: Method,
        _host: Host,
        _cookies: CookieJar,
        _path_params: models::GetArticleCommentsPathParams,
    ) -> Result<GetArticleCommentsResponse, ()> {
        self.bump();
        Ok(GetArticleCommentsResponse::Status200_MultipleComments(
            models::GetArticleComments200Response { comments: vec![] },
        ))
    }
}

impl Favorites for Stub {
    fn create_article_favorite(
        &self,
        _method: Method,
        _host: Host,
        _cookies: CookieJar,
        _claims: String,
        _path_params: models::CreateArticleFavoritePathParams,
    ) -> Result<CreateArticleFavoriteResponse, ()> {
        self.bump();
        Ok(CreateArticleFavoriteResponse::Status200_SingleArticle(
            models::CreateArticle201Response { article: sample_article() },
        ))
    }

    fn delete_article_favorite(
        &self,
        _method: Method,
        _host: Host,
        _cookies: CookieJar,
        _claims: String,
        _path_params: models::DeleteArticleFavoritePathParams,
    ) -> Result<DeleteArticleFavoriteResponse, ()> {
        self.bump();
        Ok(DeleteArticleFavoriteResponse::Status200_SingleArticle(
            models::CreateArticle201Response { article: sample_article() },
        ))
    }
}

impl Profile for Stub {
    fn follow_user_by_username(
        &self,
        _method: Method,
        _host: Host,
        _cookies: CookieJar,
        _claims: String,
        _path_params: models::FollowUserByUsernamePathParams,
    ) -> Result<FollowUserByUsernameResponse, ()> {
        self.bump();
        Ok(FollowUserByUsernameResponse::Status200_Profile(
            models::GetProfileByUsername200Response { profile: sample_profile() },
        ))
    }

    fn get_profile_by_username(
        &self,
        _method: Method,
        _host: Host,
        _cookies: CookieJar,
        path_params: models::GetProfileByUsernamePathParams,
    ) -> Result<GetProfileByUsernameResponse, ()> {
        self.bump();
        assert_eq!(path_params.username, "bob");
        Ok(GetProfileByUsernameResponse::Status200_Profile(
            models::GetProfileByUsername200Response { profile: sample_profile() },
        ))
    }

    fn unfollow_user_by_username(
        &self,
        _method: Method,
        _host: Host,
        _cookies: CookieJar,
        _claims: String,
        _path_params: models::UnfollowUserByUsernamePathParams,
    ) -> Result<UnfollowUserByUsernameResponse, ()> {
        self.bump();
        Err(())
    }
}

impl Tags for Stub {
    fn get_tags(
        &self,
        _method: Method,
        _host: Host,
        _cookies: CookieJar,
    ) -> Result<GetTagsResponse, ()> {
        self.bump();
        Ok(GetTagsResponse::Status200_ListOfTags(models::GetTags200Response {
            tags: vec!["rust".to_string()],
        }))
    }
}

impl UserAndAuthentication for Stub {
    fn create_user(
        &self,
        _method: Method,
        _host: Host,
        _cookies: CookieJar,
        body: models::CreateUserRequest,
    ) -> Result<CreateUserResponse, ()> {
        self.bump();
        assert_eq!(body.user.username, "bob");
        Ok(CreateUserResponse::Status201_User(models::Login200Response { user: sample_user() }))
    }

    fn get_current_user(
        &self,
        _method: Method,
        _host: Host,
        _cookies: CookieJar,
        _claims: String,
    ) -> Result<GetCurrentUserResponse, ()> {
        self.bump();
        Ok(GetCurrentUserResponse::Status200_User(models::Login200Response {
            user: sample_user(),
        }))
    }

    fn login(
        &self,
        _method: Method,
        _host: Host,
        _cookies: CookieJar,
        _body: models::LoginRequest,
    ) -> Result<LoginResponse, ()> {
        self.bump();
        Ok(LoginResponse::Status200_User(models::Login200Response { user: sample_user() }))
    }

    fn update_current_user(
        &self,
        _method: Method,
        _host: Host,
        _cookies: CookieJar,
        _claims: String,
        _body: models::UpdateCurrentUserRequest,
    ) -> Result<UpdateCurrentUserResponse, ()> {
        self.bump();
        Ok(UpdateCurrentUserResponse::Status200_User(models::Login200Response {
            user: sample_user(),
        }))
    }
}

fn host() -> Host {
    Host("example.com".to_string())
}

fn no_auth_headers() -> HeaderMap {
    HeaderMap { entries: vec![] }
}

fn auth_headers() -> HeaderMap {
    HeaderMap {
        entries: vec![("Authorization".to_string(), "Token abc".to_string())],
    }
}

#[test]
fn missing_claims_yield_401_and_no_handler_call() {
    let api = Stub::new();
    let body = r#"{"article":{"title":"T","description":"D","body":"B"}}"#;
    let r = server::create_article(&api, Method::Post, host(), CookieJar::new(),
        &no_auth_headers(), body);
    assert_eq!(r.status, 401);
    assert!(r.body.is_empty());
    assert!(r.headers.is_empty());
    assert_eq!(api.calls.get(), 0);

    let r = server::delete_article(&api, Method::Delete, host(), CookieJar::new(),
        &no_auth_headers(), "slug");
    assert_eq!(r.status, 401);
    assert_eq!(api.calls.get(), 0);

    let r = server::get_current_user(&api, Method::Get, host(), CookieJar::new(),
        &no_auth_headers());
    assert_eq!(r.status, 401);
    assert_eq!(api.calls.get(), 0);

    let r = server::get_articles_feed(&api, Method::Get, host(), CookieJar::new(),
        &no_auth_headers(), "");
    assert_eq!(r.status, 401);
    let r = server::update_article(&api, Method::Put, host(), CookieJar::new(),
        &no_auth_headers(), "t", r#"{"article":{}}"#);
    assert_eq!(r.status, 401);
    let r = server::create_article_comment(&api, Method::Post, host(), CookieJar::new(),
        &no_auth_headers(), "t", r#"{"comment":{"body":"x"}}"#);
    assert_eq!(r.status, 401);
    let r = server::delete_article_comment(&api, Method::Delete, host(), CookieJar::new(),
        &no_auth_headers(), "t", "1");
    assert_eq!(r.status, 401);
    let r = server::create_article_favorite(&api, Method::Post, host(), CookieJar::new(),
        &no_auth_headers(), "t");
    assert_eq!(r.status, 401);
    let r = server::delete_article_favorite(&api, Method::Delete, host(), CookieJar::new(),
        &no_auth_headers(), "t");
    assert_eq!(r.status, 401);
    let r = server::follow_user_by_username(&api, Method::Post, host(), CookieJar::new(),
        &no_auth_headers(), "bob");
    assert_eq!(r.status, 401);
    let r = server::unfollow_user_by_username(&api, Method::Delete, host(), CookieJar::new(),
        &no_auth_headers(), "bob");
    assert_eq!(r.status, 401);
    let r = server::update_current_user(&api, Method::Put, host(), CookieJar::new(),
        &no_auth_headers(), r#"{"user":{}}"#);
    assert_eq!(r.status, 401);
    assert_eq!(api.calls.get(), 0);
}

#[test]
fn auth_comes_before_body_errors() {
    // even a malformed body yields 401 first when claims are absent
    let api = Stub::new();
    let r = server::create_article(&api, Method::Post, host(), CookieJar::new(),
        &no_auth_headers(), "not json");
    assert_eq!(r.status, 401);
    assert_eq!(api.calls.get(), 0);
}

#[test]
fn below_bound_offset_yields_400_naming_the_field() {
    let api = Stub::new();
    let r = server::get_articles(&api, Method::Get, host(), CookieJar::new(),
        "offset=-1&tag=rust&limit=5");
    assert_eq!(r.status, 400);
    assert_eq!(r.body, "offset: must be at least 0");
    assert_eq!(api.calls.get(), 0);

    let r = server::get_articles_feed(&api, Method::Get, host(), CookieJar::new(),
        &auth_headers(), "limit=0");
    assert_eq!(r.status, 400);
    assert_eq!(r.body, "limit: must be at least 1");
    assert_eq!(api.calls.get(), 0);
}

#[test]
fn missing_nested_body_field_yields_400_with_full_path() {
    let api = Stub::new();
    let r = server::create_article(&api, Method::Post, host(), CookieJar::new(),
        &auth_headers(), r#"{"article":{"description":"D","body":"B"}}"#);
    assert_eq!(r.status, 400);
    assert_eq!(r.body, "article.title missing");
    assert_eq!(api.calls.get(), 0);
}

#[test]
fn malformed_body_yields_400_decode_text() {
    let api = Stub::new();
    let r = server::create_user(&api, Method::Post, host(), CookieJar::new(), "{");
    assert_eq!(r.status, 400);
    assert_eq!(r.body, "invalid request body");
    assert_eq!(api.calls.get(), 0);
}

#[test]
fn identical_article_reads_are_byte_identical() {
    let api = Stub::new();
    let r1 = server::get_article(&api, Method::Get, host(), CookieJar::new(), "t");
    let r2 = server::get_article(&api, Method::Get, host(), CookieJar::new(), "t");
    assert_eq!(r1, r2);
    assert_eq!(r1.status, 200);
    assert_eq!(api.calls.get(), 2);
}

#[test]
fn create_user_returns_201_json_envelope() {
    let api = Stub::new();
    let body = r#"{"user":{"username":"bob","email":"bob@x.com","password":"secret"}}"#;
    let r = server::create_user(&api, Method::Post, host(), CookieJar::new(), body);
    assert_eq!(r.status, 201);
    assert_eq!(api.calls.get(), 1);
    assert_eq!(r.headers.len(), 1);
    assert_eq!(r.headers[0].0, "content-type");
    assert_eq!(r.headers[0].1, "application/json");
    let v: serde_json::Value = serde_json::from_str(&r.body).expect("body is JSON");
    let user = v.get("user").expect("user envelope");
    assert_eq!(user.get("email").and_then(|x| x.as_str()), Some("bob@x.com"));
    assert_eq!(user.get("username").and_then(|x| x.as_str()), Some("bob"));
    assert!(user.get("token").is_some());
}

#[test]
fn created_article_echoes_required_fields_with_default_tags() {
    let api = Stub::new();
    let body = r#"{"article":{"title":"T","description":"D","body":"B"}}"#;
    let r = server::create_article(&api, Method::Post, host(), CookieJar::new(),
        &auth_headers(), body);
    assert_eq!(r.status, 201);
    assert_eq!(api.calls.get(), 1);
    let tree = parse_json(&r.body).expect("response body parses");
    let back = conduit_core::bind::bind_create_article_201(&tree).expect("binds");
    assert_eq!(back.article.title, "T");
    assert_eq!(back.article.description, "D");
    assert_eq!(back.article.body, "B");
    assert_eq!(back.article.tag_list, Vec::<String>::new());
}

#[test]
fn handler_contract_violation_maps_to_500_empty() {
    let api = Stub::new();
    let r = server::update_article(&api, Method::Put, host(), CookieJar::new(), &auth_headers(),
        "slug", r#"{"article":{}}"#);
    assert_eq!(r.status, 500);
    assert!(r.body.is_empty());
    assert_eq!(api.calls.get(), 1);

    let r = server::unfollow_user_by_username(&api, Method::Delete, host(), CookieJar::new(),
        &auth_headers(), "bob");
    assert_eq!(r.status, 500);
    assert_eq!(api.calls.get(), 2);
}

#[test]
fn remaining_endpoints_dispatch() {
    let api = Stub::new();
    let r = server::get_tags(&api, Method::Get, host(), CookieJar::new());
    assert_eq!(r.status, 200);
    let r = server::get_profile_by_username(&api, Method::Get, host(), CookieJar::new(), "bob");
    assert_eq!(r.status, 200);
    let r = server::get_article_comments(&api, Method::Get, host(), CookieJar::new(), "t");
    assert_eq!(r.status, 200);
    let r = server::login(&api, Method::Post, host(), CookieJar::new(),
        r#"{"user":{"email":"a@b.c","password":"p"}}"#);
    assert_eq!(r.status, 200);
    let r = server::update_current_user(&api, Method::Put, host(), CookieJar::new(),
        &auth_headers(), r#"{"user":{"bio":"hi"}}"#);
    assert_eq!(r.status, 200);
    let r = server::create_article_favorite(&api, Method::Post, host(), CookieJar::new(),
        &auth_headers(), "t");
    assert_eq!(r.status, 200);
    let r = server::delete_article_favorite(&api, Method::Delete, host(), CookieJar::new(),
        &auth_headers(), "t");
    assert_eq!(r.status, 200);
    let r = server::follow_user_by_username(&api, Method::Post, host(), CookieJar::new(),
        &auth_headers(), "bob");
    assert_eq!(r.status, 200);
    let r = server::create_article_comment(&api, Method::Post, host(), CookieJar::new(),
        &auth_headers(), "t", r#"{"comment":{"body":"nice"}}"#);
    assert_eq!(r.status, 401);
    let r = server::get_articles(&api, Method::Get, host(), CookieJar::new(), "limit=5");
    assert_eq!(r.status, 200);
    assert_eq!(api.calls.get(), 10);
}

#[test]
fn comment_id_segment_must_be_an_integer() {
    let api = Stub::new();
    let r = server::delete_article_comment(&api, Method::Delete, host(), CookieJar::new(),
        &auth_headers(), "t", "12");
    assert_eq!(r.status, 200);
    assert_eq!(api.calls.get(), 1);
    let r = server::delete_article_comment(&api, Method::Delete, host(), CookieJar::new(),
        &auth_headers(), "t", "twelve");
    assert_eq!(r.status, 400);
    assert_eq!(r.body, "id must be an integer");
    assert_eq!(api.calls.get(), 1);
}
