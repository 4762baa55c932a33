//! The route dispatchers: one entry point per endpoint, each running the
//! uniform pipeline. For an endpoint that requires authentication the order
//! is: resolve claims (absent claims end the request with `401` before
//! anything else), decode and bind the parameters (`400` with the decode or
//! binding error), validate (`400` with the collected report), call the
//! handler exactly once, and map its outcome to the one response it is
//! declared with (`500`, empty, for the undeclared failure signal).
//!
//! The `*_with_claims` functions carry the exact contract of everything
//! after authentication; the entry points of the original names resolve
//! claims through the deployment's `ApiKeyAuthHeader` and then delegate.

use vstd::prelude::*;
use crate::articles::{
    Articles, CreateArticleResponse, DeleteArticleResponse, GetArticleResponse,
    GetArticlesFeedResponse, GetArticlesResponse, UpdateArticleResponse,
};
use crate::auth::ApiKeyAuthHeader;
use crate::bind::{
    bind_create_article_comment_request, bind_create_article_request, bind_create_user_request,
    bind_login_request, bind_update_article_request, bind_update_current_user_request,
    create_article_comment_request_err, create_article_request_err, create_user_request_err,
    login_request_err, update_article_request_err, update_current_user_request_err,
};
use crate::comments::{
    Comments, CreateArticleCommentResponse, DeleteArticleCommentResponse,
    GetArticleCommentsResponse,
};
use crate::decode::{parse_json, spec_parse_json};
use crate::encode::{
    article_envelope_to_json, comment_envelope_to_json, comments_to_json, error_model_to_json,
    feed_to_json, json_of_article_envelope, json_of_comment_envelope, json_of_comments,
    json_of_error_model, json_of_feed, json_of_profile_envelope, json_of_tags,
    json_of_user_envelope, profile_envelope_to_json, tags_to_json, user_envelope_to_json,
};
use crate::favorites::{CreateArticleFavoriteResponse, DeleteArticleFavoriteResponse, Favorites};
use crate::http::{
    bad_request_response, empty_response, internal_error_response, is_empty_response,
    is_json_response, is_text_response, json_response, unauthorized_response, CookieJar,
    HeaderMap, Host, HttpResponse, Method,
};
use crate::json::spec_write;
use crate::models;
use crate::profile::{
    FollowUserByUsernameResponse, GetProfileByUsernameResponse, UnfollowUserByUsernameResponse,
};
use crate::query::{
    extract_get_articles_feed_query, extract_get_articles_query, get_articles_feed_query_err,
    get_articles_query_err, spec_q_i32,
};
use crate::tags::{GetTagsResponse, Tags};
use crate::text::{parse_i32_str, spec_parse_i32};
use crate::user_and_authentication::{
    CreateUserResponse, GetCurrentUserResponse, LoginResponse, UpdateCurrentUserResponse,
    UserAndAuthentication,
};
use crate::validation::{
    create_article_comment_validation, create_article_favorite_validation,
    create_article_validation, create_user_validation, delete_article_comment_validation,
    delete_article_favorite_validation, delete_article_validation,
    follow_user_by_username_validation, get_article_comments_validation, get_article_validation,
    get_articles_feed_validation, get_articles_validation, get_current_user_validation,
    get_profile_by_username_validation, get_tags_validation, lemma_range_report,
    limit_violation, login_validation, offset_violation, range_report,
    unfollow_user_by_username_validation, update_article_validation,
    update_current_user_validation,
};

verus! {

/// The one response each CreateArticle outcome maps to.
pub open spec fn maps_create_article(res: Result<CreateArticleResponse, ()>, r: HttpResponse) -> bool {
    match res {
        Ok(CreateArticleResponse::Status201_SingleArticle(b)) => is_json_response(
            r,
            201,
            spec_write(json_of_article_envelope(b)),
        ),
        Ok(CreateArticleResponse::Status401_Unauthorized) => is_empty_response(r, 401),
        Ok(CreateArticleResponse::Status422_UnexpectedError(b)) => is_json_response(
            r,
            422,
            spec_write(json_of_error_model(b)),
        ),
        Err(_) => is_empty_response(r, 500),
    }
}

/// Maps a CreateArticle outcome to its response.
pub fn create_article_respond(result: Result<CreateArticleResponse, ()>) -> (r: HttpResponse)
    ensures
        maps_create_article(result, r),
{
    match result {
        Ok(rsp) => match rsp {
            CreateArticleResponse::Status201_SingleArticle(body) => json_response(
                201,
                &article_envelope_to_json(&body),
            ),
            CreateArticleResponse::Status401_Unauthorized => empty_response(401),
            CreateArticleResponse::Status422_UnexpectedError(body) => json_response(
                422,
                &error_model_to_json(&body),
            ),
        },
        Err(_) => internal_error_response(),
    }
}

/// The pipeline of CreateArticle after claims resolution.
pub fn create_article_with_claims<A: Articles>(
    api: &A,
    method: Method,
    host: Host,
    cookies: CookieJar,
    claims: Option<A::Claims>,
    body_raw: &str,
) -> (r: HttpResponse)
    ensures
        claims is None ==> is_empty_response(r, 401),
        claims is Some && spec_parse_json(body_raw@) is None ==> is_text_response(
            r,
            400,
            "invalid request body"@,
        ),
        (claims is Some && spec_parse_json(body_raw@) is Some && create_article_request_err(
            spec_parse_json(body_raw@)->Some_0,
        ) is Some) ==> is_text_response(
            r,
            400,
            create_article_request_err(spec_parse_json(body_raw@)->Some_0)->Some_0,
        ),
        (claims is Some && spec_parse_json(body_raw@) is Some && create_article_request_err(
            spec_parse_json(body_raw@)->Some_0,
        ) is None) ==> exists|res: Result<CreateArticleResponse, ()>| #[trigger] maps_create_article(res, r),
{
    let claims = match claims {
        Some(c) => c,
        None => {
            return unauthorized_response();
        },
    };
    let tree = match parse_json(body_raw) {
        Some(t) => t,
        None => {
            return bad_request_response("invalid request body".to_owned());
        },
    };
    let body = match bind_create_article_request(&tree) {
        Ok(b) => b,
        Err(e) => {
            return bad_request_response(e);
        },
    };
    let (body,) = match create_article_validation(body) {
        Ok(t) => t,
        Err(e) => {
            return bad_request_response(e.to_text());
        },
    };
    let result = api.create_article(method, host, cookies, claims, body);
    create_article_respond(result)
}

/// Every response CreateArticle can produce for a given body.
pub open spec fn create_article_outcomes(r: HttpResponse, body: Seq<char>) -> bool {
    ||| is_empty_response(r, 401)
    ||| (spec_parse_json(body) is None && is_text_response(r, 400, "invalid request body"@))
    ||| (spec_parse_json(body) matches Some(j) && create_article_request_err(j) matches Some(e)
        && is_text_response(r, 400, e))
    ||| (exists|res: Result<CreateArticleResponse, ()>| #[trigger] maps_create_article(res, r))
}

/// CreateArticle - POST /api/articles
pub fn create_article<A: Articles>(
    api: &A,
    method: Method,
    host: Host,
    cookies: CookieJar,
    headers: &HeaderMap,
    body_raw: &str,
) -> (r: HttpResponse)
    ensures
        create_article_outcomes(r, body_raw@),
{
    let claims = api.extract_claims_from_header(headers, "Authorization");
    create_article_with_claims(api, method, host, cookies, claims, body_raw)
}

/// The one response each DeleteArticle outcome maps to.
pub open spec fn maps_delete_article(res: Result<DeleteArticleResponse, ()>, r: HttpResponse) -> bool {
    match res {
        Ok(DeleteArticleResponse::Status200_NoContent) => is_empty_response(r, 200),
        Ok(DeleteArticleResponse::Status401_Unauthorized) => is_empty_response(r, 401),
        Ok(DeleteArticleResponse::Status422_UnexpectedError(b)) => is_json_response(
            r,
            422,
            spec_write(json_of_error_model(b)),
        ),
        Err(_) => is_empty_response(r, 500),
    }
}

/// Maps a DeleteArticle outcome to its response.
pub fn delete_article_respond(result: Result<DeleteArticleResponse, ()>) -> (r: HttpResponse)
    ensures
        maps_delete_article(result, r),
{
    match result {
        Ok(rsp) => match rsp {
            DeleteArticleResponse::Status200_NoContent => empty_response(200),
            DeleteArticleResponse::Status401_Unauthorized => empty_response(401),
            DeleteArticleResponse::Status422_UnexpectedError(body) => json_response(
                422,
                &error_model_to_json(&body),
            ),
        },
        Err(_) => internal_error_response(),
    }
}

/// The pipeline of DeleteArticle after claims resolution.
pub fn delete_article_with_claims<A: Articles>(
    api: &A,
    method: Method,
    host: Host,
    cookies: CookieJar,
    claims: Option<A::Claims>,
    slug: &str,
) -> (r: HttpResponse)
    ensures
        claims is None ==> is_empty_response(r, 401),
        claims is Some ==> exists|res: Result<DeleteArticleResponse, ()>| #[trigger] maps_delete_article(res, r),
{
    let claims = match claims {
        Some(c) => c,
        None => {
            return unauthorized_response();
        },
    };
    let path_params = models::DeleteArticlePathParams { slug: slug.to_owned() };
    let (path_params,) = match delete_article_validation(path_params) {
        Ok(t) => t,
        Err(e) => {
            return bad_request_response(e.to_text());
        },
    };
    let result = api.delete_article(method, host, cookies, claims, path_params);
    delete_article_respond(result)
}

/// DeleteArticle - DELETE /api/articles/{slug}
pub fn delete_article<A: Articles>(
    api: &A,
    method: Method,
    host: Host,
    cookies: CookieJar,
    headers: &HeaderMap,
    slug: &str,
) -> (r: HttpResponse)
    ensures
        is_empty_response(r, 401) || (exists|res: Result<DeleteArticleResponse, ()>| #[trigger] maps_delete_article(res, r)),
{
    let claims = api.extract_claims_from_header(headers, "Authorization");
    delete_article_with_claims(api, method, host, cookies, claims, slug)
}

/// The one response each GetArticle outcome maps to.
pub open spec fn maps_get_article(res: Result<GetArticleResponse, ()>, r: HttpResponse) -> bool {
    match res {
        Ok(GetArticleResponse::Status200_SingleArticle(b)) => is_json_response(
            r,
            200,
            spec_write(json_of_article_envelope(b)),
        ),
        Ok(GetArticleResponse::Status422_UnexpectedError(b)) => is_json_response(
            r,
            422,
            spec_write(json_of_error_model(b)),
        ),
        Err(_) => is_empty_response(r, 500),
    }
}

/// Maps a GetArticle outcome to its response.
pub fn get_article_respond(result: Result<GetArticleResponse, ()>) -> (r: HttpResponse)
    ensures
        maps_get_article(result, r),
{
    match result {
        Ok(rsp) => match rsp {
            GetArticleResponse::Status200_SingleArticle(body) => json_response(
                200,
                &article_envelope_to_json(&body),
            ),
            GetArticleResponse::Status422_UnexpectedError(body) => json_response(
                422,
                &error_model_to_json(&body),
            ),
        },
        Err(_) => internal_error_response(),
    }
}

/// GetArticle - GET /api/articles/{slug}
pub fn get_article<A: Articles>(
    api: &A,
    method: Method,
    host: Host,
    cookies: CookieJar,
    slug: &str,
) -> (r: HttpResponse)
    ensures
        exists|res: Result<GetArticleResponse, ()>| #[trigger] maps_get_article(res, r),
{
    let path_params = models::GetArticlePathParams { slug: slug.to_owned() };
    let (path_params,) = match get_article_validation(path_params) {
        Ok(t) => t,
        Err(e) => {
            return bad_request_response(e.to_text());
        },
    };
    let result = api.get_article(method, host, cookies, path_params);
    get_article_respond(result)
}

/// The one response each GetArticles outcome maps to.
pub open spec fn maps_get_articles(res: Result<GetArticlesResponse, ()>, r: HttpResponse) -> bool {
    match res {
        Ok(GetArticlesResponse::Status200_MultipleArticles(b)) => is_json_response(
            r,
            200,
            spec_write(json_of_feed(b)),
        ),
        Ok(GetArticlesResponse::Status401_Unauthorized) => is_empty_response(r, 401),
        Ok(GetArticlesResponse::Status422_UnexpectedError(b)) => is_json_response(
            r,
            422,
            spec_write(json_of_error_model(b)),
        ),
        Err(_) => is_empty_response(r, 500),
    }
}

/// Maps a GetArticles outcome to its response.
pub fn get_articles_respond(result: Result<GetArticlesResponse, ()>) -> (r: HttpResponse)
    ensures
        maps_get_articles(result, r),
{
    match result {
        Ok(rsp) => match rsp {
            GetArticlesResponse::Status200_MultipleArticles(body) => json_response(
                200,
                &feed_to_json(&body),
            ),
            GetArticlesResponse::Status401_Unauthorized => empty_response(401),
            GetArticlesResponse::Status422_UnexpectedError(body) => json_response(
                422,
                &error_model_to_json(&body),
            ),
        },
        Err(_) => internal_error_response(),
    }
}

/// GetArticles - GET /api/articles
pub fn get_articles<A: Articles>(
    api: &A,
    method: Method,
    host: Host,
    cookies: CookieJar,
    query_raw: &str,
) -> (r: HttpResponse)
    ensures
        get_articles_query_err(query_raw@) is Some ==> is_text_response(
            r,
            400,
            get_articles_query_err(query_raw@)->Some_0,
        ),
        (get_articles_query_err(query_raw@) is None && (offset_violation(
            spec_q_i32(query_raw@, "offset"@),
        ) || limit_violation(spec_q_i32(query_raw@, "limit"@)))) ==> is_text_response(
            r,
            400,
            range_report(
                offset_violation(spec_q_i32(query_raw@, "offset"@)),
                limit_violation(spec_q_i32(query_raw@, "limit"@)),
            ),
        ),
        (get_articles_query_err(query_raw@) is None && !offset_violation(
            spec_q_i32(query_raw@, "offset"@),
        ) && !limit_violation(spec_q_i32(query_raw@, "limit"@))) ==> exists|res: Result<GetArticlesResponse, ()>| #[trigger] maps_get_articles(res, r),
{
    let query_params = match extract_get_articles_query(query_raw) {
        Ok(q) => q,
        Err(e) => {
            return bad_request_response(e);
        },
    };
    proof {
        assert(query_params.offset == spec_q_i32(query_raw@, "offset"@));
        assert(query_params.limit == spec_q_i32(query_raw@, "limit"@));
    }
    let ghost qoff = query_params.offset;
    let ghost qlim = query_params.limit;
    let (query_params,) = match get_articles_validation(query_params) {
        Ok(t) => t,
        Err(e) => {
            proof {
                lemma_range_report(e.errors@, qoff, qlim);
            }
            return bad_request_response(e.to_text());
        },
    };
    let result = api.get_articles(method, host, cookies, query_params);
    get_articles_respond(result)
}

/// The one response each GetArticlesFeed outcome maps to.
pub open spec fn maps_get_articles_feed(res: Result<GetArticlesFeedResponse, ()>, r: HttpResponse) -> bool {
    match res {
        Ok(GetArticlesFeedResponse::Status200_MultipleArticles(b)) => is_json_response(
            r,
            200,
            spec_write(json_of_feed(b)),
        ),
        Ok(GetArticlesFeedResponse::Status401_Unauthorized) => is_empty_response(r, 401),
        Ok(GetArticlesFeedResponse::Status422_UnexpectedError(b)) => is_json_response(
            r,
            422,
            spec_write(json_of_error_model(b)),
        ),
        Err(_) => is_empty_response(r, 500),
    }
}

/// Maps a GetArticlesFeed outcome to its response.
pub fn get_articles_feed_respond(result: Result<GetArticlesFeedResponse, ()>) -> (r: HttpResponse)
    ensures
        maps_get_articles_feed(result, r),
{
    match result {
        Ok(rsp) => match rsp {
            GetArticlesFeedResponse::Status200_MultipleArticles(body) => json_response(
                200,
                &feed_to_json(&body),
            ),
            GetArticlesFeedResponse::Status401_Unauthorized => empty_response(401),
            GetArticlesFeedResponse::Status422_UnexpectedError(body) => json_response(
                422,
                &error_model_to_json(&body),
            ),
        },
        Err(_) => internal_error_response(),
    }
}

/// The pipeline of GetArticlesFeed after claims resolution.
pub fn get_articles_feed_with_claims<A: Articles>(
    api: &A,
    method: Method,
    host: Host,
    cookies: CookieJar,
    claims: Option<A::Claims>,
    query_raw: &str,
) -> (r: HttpResponse)
    ensures
        claims is None ==> is_empty_response(r, 401),
        claims is Some && get_articles_feed_query_err(query_raw@) is Some ==> is_text_response(
            r,
            400,
            get_articles_feed_query_err(query_raw@)->Some_0,
        ),
        (claims is Some && get_articles_feed_query_err(query_raw@) is None && (offset_violation(
            spec_q_i32(query_raw@, "offset"@),
        ) || limit_violation(spec_q_i32(query_raw@, "limit"@)))) ==> is_text_response(
            r,
            400,
            range_report(
                offset_violation(spec_q_i32(query_raw@, "offset"@)),
                limit_violation(spec_q_i32(query_raw@, "limit"@)),
            ),
        ),
        (claims is Some && get_articles_feed_query_err(query_raw@) is None && !offset_violation(
            spec_q_i32(query_raw@, "offset"@),
        ) && !limit_violation(spec_q_i32(query_raw@, "limit"@))) ==> exists|res: Result<GetArticlesFeedResponse, ()>| #[trigger] maps_get_articles_feed(res, r),
{
    let claims = match claims {
        Some(c) => c,
        None => {
            return unauthorized_response();
        },
    };
    let query_params = match extract_get_articles_feed_query(query_raw) {
        Ok(q) => q,
        Err(e) => {
            return bad_request_response(e);
        },
    };
    proof {
        assert(query_params.offset == spec_q_i32(query_raw@, "offset"@));
        assert(query_params.limit == spec_q_i32(query_raw@, "limit"@));
    }
    let ghost qoff = query_params.offset;
    let ghost qlim = query_params.limit;
    let (query_params,) = match get_articles_feed_validation(query_params) {
        Ok(t) => t,
        Err(e) => {
            proof {
                lemma_range_report(e.errors@, qoff, qlim);
            }
            return bad_request_response(e.to_text());
        },
    };
    let result = api.get_articles_feed(method, host, cookies, claims, query_params);
    get_articles_feed_respond(result)
}

/// GetArticlesFeed - GET /api/articles/feed
pub fn get_articles_feed<A: Articles>(
    api: &A,
    method: Method,
    host: Host,
    cookies: CookieJar,
    headers: &HeaderMap,
    query_raw: &str,
) -> (r: HttpResponse)
    ensures
        is_empty_response(r, 401) || (get_articles_feed_query_err(query_raw@) is Some && is_text_response(
            r,
            400,
            get_articles_feed_query_err(query_raw@)->Some_0,
        )) || is_text_response(
            r,
            400,
            range_report(
                offset_violation(spec_q_i32(query_raw@, "offset"@)),
                limit_violation(spec_q_i32(query_raw@, "limit"@)),
            ),
        ) || (exists|res: Result<GetArticlesFeedResponse, ()>| #[trigger] maps_get_articles_feed(res, r)),
{
    let claims = api.extract_claims_from_header(headers, "Authorization");
    get_articles_feed_with_claims(api, method, host, cookies, claims, query_raw)
}

/// The one response each UpdateArticle outcome maps to.
pub open spec fn maps_update_article(res: Result<UpdateArticleResponse, ()>, r: HttpResponse) -> bool {
    match res {
        Ok(UpdateArticleResponse::Status200_SingleArticle(b)) => is_json_response(
            r,
            200,
            spec_write(json_of_article_envelope(b)),
        ),
        Ok(UpdateArticleResponse::Status401_Unauthorized) => is_empty_response(r, 401),
        Ok(UpdateArticleResponse::Status422_UnexpectedError(b)) => is_json_response(
            r,
            422,
            spec_write(json_of_error_model(b)),
        ),
        Err(_) => is_empty_response(r, 500),
    }
}

/// Maps a UpdateArticle outcome to its response.
pub fn update_article_respond(result: Result<UpdateArticleResponse, ()>) -> (r: HttpResponse)
    ensures
        maps_update_article(result, r),
{
    match result {
        Ok(rsp) => match rsp {
            UpdateArticleResponse::Status200_SingleArticle(body) => json_response(
                200,
                &article_envelope_to_json(&body),
            ),
            UpdateArticleResponse::Status401_Unauthorized => empty_response(401),
            UpdateArticleResponse::Status422_UnexpectedError(body) => json_response(
                422,
                &error_model_to_json(&body),
            ),
        },
        Err(_) => internal_error_response(),
    }
}

/// The one response each CreateArticleComment outcome maps to.
pub open spec fn maps_create_article_comment(res: Result<CreateArticleCommentResponse, ()>, r: HttpResponse) -> bool {
    match res {
        Ok(CreateArticleCommentResponse::Status200_SingleComment(b)) => is_json_response(
            r,
            200,
            spec_write(json_of_comment_envelope(b)),
        ),
        Ok(CreateArticleCommentResponse::Status401_Unauthorized) => is_empty_response(r, 401),
        Ok(CreateArticleCommentResponse::Status422_UnexpectedError(b)) => is_json_response(
            r,
            422,
            spec_write(json_of_error_model(b)),
        ),
        Err(_) => is_empty_response(r, 500),
    }
}

/// Maps a CreateArticleComment outcome to its response.
pub fn create_article_comment_respond(result: Result<CreateArticleCommentResponse, ()>) -> (r: HttpResponse)
    ensures
        maps_create_article_comment(result, r),
{
    match result {
        Ok(rsp) => match rsp {
            CreateArticleCommentResponse::Status200_SingleComment(body) => json_response(
                200,
                &comment_envelope_to_json(&body),
            ),
            CreateArticleCommentResponse::Status401_Unauthorized => empty_response(401),
            CreateArticleCommentResponse::Status422_UnexpectedError(body) => json_response(
                422,
                &error_model_to_json(&body),
            ),
        },
        Err(_) => internal_error_response(),
    }
}

/// The one response each DeleteArticleComment outcome maps to.
pub open spec fn maps_delete_article_comment(res: Result<DeleteArticleCommentResponse, ()>, r: HttpResponse) -> bool {
    match res {
        Ok(DeleteArticleCommentResponse::Status200_NoContent) => is_empty_response(r, 200),
        Ok(DeleteArticleCommentResponse::Status401_Unauthorized) => is_empty_response(r, 401),
        Ok(DeleteArticleCommentResponse::Status422_UnexpectedError(b)) => is_json_response(
            r,
            422,
            spec_write(json_of_error_model(b)),
        ),
        Err(_) => is_empty_response(r, 500),
    }
}

/// Maps a DeleteArticleComment outcome to its response.
pub fn delete_article_comment_respond(result: Result<DeleteArticleCommentResponse, ()>) -> (r: HttpResponse)
    ensures
        maps_delete_article_comment(result, r),
{
    match result {
        Ok(rsp) => match rsp {
            DeleteArticleCommentResponse::Status200_NoContent => empty_response(200),
            DeleteArticleCommentResponse::Status401_Unauthorized => empty_response(401),
            DeleteArticleCommentResponse::Status422_UnexpectedError(body) => json_response(
                422,
                &error_model_to_json(&body),
            ),
        },
        Err(_) => internal_error_response(),
    }
}

/// The pipeline of DeleteArticleComment after claims resolution. The comment id
/// segment must be an integer.
pub fn delete_article_comment_with_claims<A: Comments>(
    api: &A,
    method: Method,
    host: Host,
    cookies: CookieJar,
    claims: Option<A::Claims>,
    slug: &str,
    id_raw: &str,
) -> (r: HttpResponse)
    ensures
        claims is None ==> is_empty_response(r, 401),
        claims is Some && spec_parse_i32(id_raw@) is None ==> is_text_response(
            r,
            400,
            "id must be an integer"@,
        ),
        claims is Some && spec_parse_i32(id_raw@) is Some ==> exists|res: Result<DeleteArticleCommentResponse, ()>| #[trigger] maps_delete_article_comment(res, r),
{
    let claims = match claims {
        Some(c) => c,
        None => {
            return unauthorized_response();
        },
    };
    let id = match parse_i32_str(id_raw) {
        Some(n) => n,
        None => {
            return bad_request_response("id must be an integer".to_owned());
        },
    };
    let path_params = models::DeleteArticleCommentPathParams { slug: slug.to_owned(), id };
    let (path_params,) = match delete_article_comment_validation(path_params) {
        Ok(t) => t,
        Err(e) => {
            return bad_request_response(e.to_text());
        },
    };
    let result = api.delete_article_comment(method, host, cookies, claims, path_params);
    delete_article_comment_respond(result)
}

/// DeleteArticleComment - DELETE /api/articles/{slug}/comments/{id}
pub fn delete_article_comment<A: Comments>(
    api: &A,
    method: Method,
    host: Host,
    cookies: CookieJar,
    headers: &HeaderMap,
    slug: &str,
    id_raw: &str,
) -> (r: HttpResponse)
    ensures
        is_empty_response(r, 401) || (spec_parse_i32(id_raw@) is None && is_text_response(
            r,
            400,
            "id must be an integer"@,
        )) || (exists|res: Result<DeleteArticleCommentResponse, ()>| #[trigger] maps_delete_article_comment(res, r)),
{
    let claims = api.extract_claims_from_header(headers, "Authorization");
    delete_article_comment_with_claims(api, method, host, cookies, claims, slug, id_raw)
}

/// The one response each GetArticleComments outcome maps to.
pub open spec fn maps_get_article_comments(res: Result<GetArticleCommentsResponse, ()>, r: HttpResponse) -> bool {
    match res {
        Ok(GetArticleCommentsResponse::Status200_MultipleComments(b)) => is_json_response(
            r,
            200,
            spec_write(json_of_comments(b)),
        ),
        Ok(GetArticleCommentsResponse::Status401_Unauthorized) => is_empty_response(r, 401),
        Ok(GetArticleCommentsResponse::Status422_UnexpectedError(b)) => is_json_response(
            r,
            422,
            spec_write(json_of_error_model(b)),
        ),
        Err(_) => is_empty_response(r, 500),
    }
}

/// Maps a GetArticleComments outcome to its response.
pub fn get_article_comments_respond(result: Result<GetArticleCommentsResponse, ()>) -> (r: HttpResponse)
    ensures
        maps_get_article_comments(result, r),
{
    match result {
        Ok(rsp) => match rsp {
            GetArticleCommentsResponse::Status200_MultipleComments(body) => json_response(
                200,
                &comments_to_json(&body),
            ),
            GetArticleCommentsResponse::Status401_Unauthorized => empty_response(401),
            GetArticleCommentsResponse::Status422_UnexpectedError(body) => json_response(
                422,
                &error_model_to_json(&body),
            ),
        },
        Err(_) => internal_error_response(),
    }
}

/// GetArticleComments - GET /api/articles/{slug}/comments
pub fn get_article_comments<A: Comments>(
    api: &A,
    method: Method,
    host: Host,
    cookies: CookieJar,
    slug: &str,
) -> (r: HttpResponse)
    ensures
        exists|res: Result<GetArticleCommentsResponse, ()>| #[trigger] maps_get_article_comments(res, r),
{
    let path_params = models::GetArticleCommentsPathParams { slug: slug.to_owned() };
    let (path_params,) = match get_article_comments_validation(path_params) {
        Ok(t) => t,
        Err(e) => {
            return bad_request_response(e.to_text());
        },
    };
    let result = api.get_article_comments(method, host, cookies, path_params);
    get_article_comments_respond(result)
}

/// The one response each CreateArticleFavorite outcome maps to.
pub open spec fn maps_create_article_favorite(res: Result<CreateArticleFavoriteResponse, ()>, r: HttpResponse) -> bool {
    match res {
        Ok(CreateArticleFavoriteResponse::Status200_SingleArticle(b)) => is_json_response(
            r,
            200,
            spec_write(json_of_article_envelope(b)),
        ),
        Ok(CreateArticleFavoriteResponse::Status401_Unauthorized) => is_empty_response(r, 401),
        Ok(CreateArticleFavoriteResponse::Status422_UnexpectedError(b)) => is_json_response(
            r,
            422,
            spec_write(json_of_error_model(b)),
        ),
        Err(_) => is_empty_response(r, 500),
    }
}

/// Maps a CreateArticleFavorite outcome to its response.
pub fn create_article_favorite_respond(result: Result<CreateArticleFavoriteResponse, ()>) -> (r: HttpResponse)
    ensures
        maps_create_article_favorite(result, r),
{
    match result {
        Ok(rsp) => match rsp {
            CreateArticleFavoriteResponse::Status200_SingleArticle(body) => json_response(
                200,
                &article_envelope_to_json(&body),
            ),
            CreateArticleFavoriteResponse::Status401_Unauthorized => empty_response(401),
            CreateArticleFavoriteResponse::Status422_UnexpectedError(body) => json_response(
                422,
                &error_model_to_json(&body),
            ),
        },
        Err(_) => internal_error_response(),
    }
}

/// The pipeline of CreateArticleFavorite after claims resolution.
pub fn create_article_favorite_with_claims<A: Favorites>(
    api: &A,
    method: Method,
    host: Host,
    cookies: CookieJar,
    claims: Option<A::Claims>,
    slug: &str,
) -> (r: HttpResponse)
    ensures
        claims is None ==> is_empty_response(r, 401),
        claims is Some ==> exists|res: Result<CreateArticleFavoriteResponse, ()>| #[trigger] maps_create_article_favorite(res, r),
{
    let claims = match claims {
        Some(c) => c,
        None => {
            return unauthorized_response();
        },
    };
    let path_params = models::CreateArticleFavoritePathParams { slug: slug.to_owned() };
    let (path_params,) = match create_article_favorite_validation(path_params) {
        Ok(t) => t,
        Err(e) => {
            return bad_request_response(e.to_text());
        },
    };
    let result = api.create_article_favorite(method, host, cookies, claims, path_params);
    create_article_favorite_respond(result)
}

/// CreateArticleFavorite - POST /api/articles/{slug}/favorite
pub fn create_article_favorite<A: Favorites>(
    api: &A,
    method: Method,
    host: Host,
    cookies: CookieJar,
    headers: &HeaderMap,
    slug: &str,
) -> (r: HttpResponse)
    ensures
        is_empty_response(r, 401) || (exists|res: Result<CreateArticleFavoriteResponse, ()>| #[trigger] maps_create_article_favorite(res, r)),
{
    let claims = api.extract_claims_from_header(headers, "Authorization");
    create_article_favorite_with_claims(api, method, host, cookies, claims, slug)
}

/// The one response each DeleteArticleFavorite outcome maps to.
pub open spec fn maps_delete_article_favorite(res: Result<DeleteArticleFavoriteResponse, ()>, r: HttpResponse) -> bool {
    match res {
        Ok(DeleteArticleFavoriteResponse::Status200_SingleArticle(b)) => is_json_response(
            r,
            200,
            spec_write(json_of_article_envelope(b)),
        ),
        Ok(DeleteArticleFavoriteResponse::Status401_Unauthorized) => is_empty_response(r, 401),
        Ok(DeleteArticleFavoriteResponse::Status422_UnexpectedError(b)) => is_json_response(
            r,
            422,
            spec_write(json_of_error_model(b)),
        ),
        Err(_) => is_empty_response(r, 500),
    }
}

/// Maps a DeleteArticleFavorite outcome to its response.
pub fn delete_article_favorite_respond(result: Result<DeleteArticleFavoriteResponse, ()>) -> (r: HttpResponse)
    ensures
        maps_delete_article_favorite(result, r),
{
    match result {
        Ok(rsp) => match rsp {
            DeleteArticleFavoriteResponse::Status200_SingleArticle(body) => json_response(
                200,
                &article_envelope_to_json(&body),
            ),
            DeleteArticleFavoriteResponse::Status401_Unauthorized => empty_response(401),
            DeleteArticleFavoriteResponse::Status422_UnexpectedError(body) => json_response(
                422,
                &error_model_to_json(&body),
            ),
        },
        Err(_) => internal_error_response(),
    }
}

/// The pipeline of DeleteArticleFavorite after claims resolution.
pub fn delete_article_favorite_with_claims<A: Favorites>(
    api: &A,
    method: Method,
    host: Host,
    cookies: CookieJar,
    claims: Option<A::Claims>,
    slug: &str,
) -> (r: HttpResponse)
    ensures
        claims is None ==> is_empty_response(r, 401),
        claims is Some ==> exists|res: Result<DeleteArticleFavoriteResponse, ()>| #[trigger] maps_delete_article_favorite(res, r),
{
    let claims = match claims {
        Some(c) => c,
        None => {
            return unauthorized_response();
        },
    };
    let path_params = models::DeleteArticleFavoritePathParams { slug: slug.to_owned() };
    let (path_params,) = match delete_article_favorite_validation(path_params) {
        Ok(t) => t,
        Err(e) => {
            return bad_request_response(e.to_text());
        },
    };
    let result = api.delete_article_favorite(method, host, cookies, claims, path_params);
    delete_article_favorite_respond(result)
}

/// DeleteArticleFavorite - DELETE /api/articles/{slug}/favorite
pub fn delete_article_favorite<A: Favorites>(
    api: &A,
    method: Method,
    host: Host,
    cookies: CookieJar,
    headers: &HeaderMap,
    slug: &str,
) -> (r: HttpResponse)
    ensures
        is_empty_response(r, 401) || (exists|res: Result<DeleteArticleFavoriteResponse, ()>| #[trigger] maps_delete_article_favorite(res, r)),
{
    let claims = api.extract_claims_from_header(headers, "Authorization");
    delete_article_favorite_with_claims(api, method, host, cookies, claims, slug)
}

/// The one response each FollowUserByUsername outcome maps to.
pub open spec fn maps_follow_user_by_username(res: Result<FollowUserByUsernameResponse, ()>, r: HttpResponse) -> bool {
    match res {
        Ok(FollowUserByUsernameResponse::Status200_Profile(b)) => is_json_response(
            r,
            200,
            spec_write(json_of_profile_envelope(b)),
        ),
        Ok(FollowUserByUsernameResponse::Status401_Unauthorized) => is_empty_response(r, 401),
        Ok(FollowUserByUsernameResponse::Status422_UnexpectedError(b)) => is_json_response(
            r,
            422,
            spec_write(json_of_error_model(b)),
        ),
        Err(_) => is_empty_response(r, 500),
    }
}

/// Maps a FollowUserByUsername outcome to its response.
pub fn follow_user_by_username_respond(result: Result<FollowUserByUsernameResponse, ()>) -> (r: HttpResponse)
    ensures
        maps_follow_user_by_username(result, r),
{
    match result {
        Ok(rsp) => match rsp {
            FollowUserByUsernameResponse::Status200_Profile(body) => json_response(
                200,
                &profile_envelope_to_json(&body),
            ),
            FollowUserByUsernameResponse::Status401_Unauthorized => empty_response(401),
            FollowUserByUsernameResponse::Status422_UnexpectedError(body) => json_response(
                422,
                &error_model_to_json(&body),
            ),
        },
        Err(_) => internal_error_response(),
    }
}

/// The pipeline of FollowUserByUsername after claims resolution.
pub fn follow_user_by_username_with_claims<A: crate::profile::Profile>(
    api: &A,
    method: Method,
    host: Host,
    cookies: CookieJar,
    claims: Option<A::Claims>,
    username: &str,
) -> (r: HttpResponse)
    ensures
        claims is None ==> is_empty_response(r, 401),
        claims is Some ==> exists|res: Result<FollowUserByUsernameResponse, ()>| #[trigger] maps_follow_user_by_username(res, r),
{
    let claims = match claims {
        Some(c) => c,
        None => {
            return unauthorized_response();
        },
    };
    let path_params = models::FollowUserByUsernamePathParams { username: username.to_owned() };
    let (path_params,) = match follow_user_by_username_validation(path_params) {
        Ok(t) => t,
        Err(e) => {
            return bad_request_response(e.to_text());
        },
    };
    let result = api.follow_user_by_username(method, host, cookies, claims, path_params);
    follow_user_by_username_respond(result)
}

/// FollowUserByUsername - POST /api/profiles/{username}/follow
pub fn follow_user_by_username<A: crate::profile::Profile>(
    api: &A,
    method: Method,
    host: Host,
    cookies: CookieJar,
    headers: &HeaderMap,
    username: &str,
) -> (r: HttpResponse)
    ensures
        is_empty_response(r, 401) || (exists|res: Result<FollowUserByUsernameResponse, ()>| #[trigger] maps_follow_user_by_username(res, r)),
{
    let claims = api.extract_claims_from_header(headers, "Authorization");
    follow_user_by_username_with_claims(api, method, host, cookies, claims, username)
}

/// The one response each GetProfileByUsername outcome maps to.
pub open spec fn maps_get_profile_by_username(res: Result<GetProfileByUsernameResponse, ()>, r: HttpResponse) -> bool {
    match res {
        Ok(GetProfileByUsernameResponse::Status200_Profile(b)) => is_json_response(
            r,
            200,
            spec_write(json_of_profile_envelope(b)),
        ),
        Ok(GetProfileByUsernameResponse::Status401_Unauthorized) => is_empty_response(r, 401),
        Ok(GetProfileByUsernameResponse::Status422_UnexpectedError(b)) => is_json_response(
            r,
            422,
            spec_write(json_of_error_model(b)),
        ),
        Err(_) => is_empty_response(r, 500),
    }
}

/// Maps a GetProfileByUsername outcome to its response.
pub fn get_profile_by_username_respond(result: Result<GetProfileByUsernameResponse, ()>) -> (r: HttpResponse)
    ensures
        maps_get_profile_by_username(result, r),
{
    match result {
        Ok(rsp) => match rsp {
            GetProfileByUsernameResponse::Status200_Profile(body) => json_response(
                200,
                &profile_envelope_to_json(&body),
            ),
            GetProfileByUsernameResponse::Status401_Unauthorized => empty_response(401),
            GetProfileByUsernameResponse::Status422_UnexpectedError(body) => json_response(
                422,
                &error_model_to_json(&body),
            ),
        },
        Err(_) => internal_error_response(),
    }
}

/// GetProfileByUsername - GET /api/profiles/{username}
pub fn get_profile_by_username<A: crate::profile::Profile>(
    api: &A,
    method: Method,
    host: Host,
    cookies: CookieJar,
    username: &str,
) -> (r: HttpResponse)
    ensures
        exists|res: Result<GetProfileByUsernameResponse, ()>| #[trigger] maps_get_profile_by_username(res, r),
{
    let path_params = models::GetProfileByUsernamePathParams { username: username.to_owned() };
    let (path_params,) = match get_profile_by_username_validation(path_params) {
        Ok(t) => t,
        Err(e) => {
            return bad_request_response(e.to_text());
        },
    };
    let result = api.get_profile_by_username(method, host, cookies, path_params);
    get_profile_by_username_respond(result)
}

/// The one response each UnfollowUserByUsername outcome maps to.
pub open spec fn maps_unfollow_user_by_username(res: Result<UnfollowUserByUsernameResponse, ()>, r: HttpResponse) -> bool {
    match res {
        Ok(UnfollowUserByUsernameResponse::Status200_Profile(b)) => is_json_response(
            r,
            200,
            spec_write(json_of_profile_envelope(b)),
        ),
        Ok(UnfollowUserByUsernameResponse::Status401_Unauthorized) => is_empty_response(r, 401),
        Ok(UnfollowUserByUsernameResponse::Status422_UnexpectedError(b)) => is_json_response(
            r,
            422,
            spec_write(json_of_error_model(b)),
        ),
        Err(_) => is_empty_response(r, 500),
    }
}

/// Maps a UnfollowUserByUsername outcome to its response.
pub fn unfollow_user_by_username_respond(result: Result<UnfollowUserByUsernameResponse, ()>) -> (r: HttpResponse)
    ensures
        maps_unfollow_user_by_username(result, r),
{
    match result {
        Ok(rsp) => match rsp {
            UnfollowUserByUsernameResponse::Status200_Profile(body) => json_response(
                200,
                &profile_envelope_to_json(&body),
            ),
            UnfollowUserByUsernameResponse::Status401_Unauthorized => empty_response(401),
            UnfollowUserByUsernameResponse::Status422_UnexpectedError(body) => json_response(
                422,
                &error_model_to_json(&body),
            ),
        },
        Err(_) => internal_error_response(),
    }
}

/// The pipeline of UnfollowUserByUsername after claims resolution.
pub fn unfollow_user_by_username_with_claims<A: crate::profile::Profile>(
    api: &A,
    method: Method,
    host: Host,
    cookies: CookieJar,
    claims: Option<A::Claims>,
    username: &str,
) -> (r: HttpResponse)
    ensures
        claims is None ==> is_empty_response(r, 401),
        claims is Some ==> exists|res: Result<UnfollowUserByUsernameResponse, ()>| #[trigger] maps_unfollow_user_by_username(res, r),
{
    let claims = match claims {
        Some(c) => c,
        None => {
            return unauthorized_response();
        },
    };
    let path_params = models::UnfollowUserByUsernamePathParams { username: username.to_owned() };
    let (path_params,) = match unfollow_user_by_username_validation(path_params) {
        Ok(t) => t,
        Err(e) => {
            return bad_request_response(e.to_text());
        },
    };
    let result = api.unfollow_user_by_username(method, host, cookies, claims, path_params);
    unfollow_user_by_username_respond(result)
}

/// UnfollowUserByUsername - DELETE /api/profiles/{username}/follow
pub fn unfollow_user_by_username<A: crate::profile::Profile>(
    api: &A,
    method: Method,
    host: Host,
    cookies: CookieJar,
    headers: &HeaderMap,
    username: &str,
) -> (r: HttpResponse)
    ensures
        is_empty_response(r, 401) || (exists|res: Result<UnfollowUserByUsernameResponse, ()>| #[trigger] maps_unfollow_user_by_username(res, r)),
{
    let claims = api.extract_claims_from_header(headers, "Authorization");
    unfollow_user_by_username_with_claims(api, method, host, cookies, claims, username)
}

/// The one response each GetTags outcome maps to.
pub open spec fn maps_get_tags(res: Result<GetTagsResponse, ()>, r: HttpResponse) -> bool {
    match res {
        Ok(GetTagsResponse::Status200_ListOfTags(b)) => is_json_response(
            r,
            200,
            spec_write(json_of_tags(b)),
        ),
        Ok(GetTagsResponse::Status422_UnexpectedError(b)) => is_json_response(
            r,
            422,
            spec_write(json_of_error_model(b)),
        ),
        Err(_) => is_empty_response(r, 500),
    }
}

/// Maps a GetTags outcome to its response.
pub fn get_tags_respond(result: Result<GetTagsResponse, ()>) -> (r: HttpResponse)
    ensures
        maps_get_tags(result, r),
{
    match result {
        Ok(rsp) => match rsp {
            GetTagsResponse::Status200_ListOfTags(body) => json_response(
                200,
                &tags_to_json(&body),
            ),
            GetTagsResponse::Status422_UnexpectedError(body) => json_response(
                422,
                &error_model_to_json(&body),
            ),
        },
        Err(_) => internal_error_response(),
    }
}

/// GetTags - GET /api/tags
pub fn get_tags<A: Tags>(api: &A, method: Method, host: Host, cookies: CookieJar) -> (r:
    HttpResponse)
    ensures
        exists|res: Result<GetTagsResponse, ()>| #[trigger] maps_get_tags(res, r),
{
    match get_tags_validation() {
        Ok(_) => {},
        Err(e) => {
            return bad_request_response(e.to_text());
        },
    }
    let result = api.get_tags(method, host, cookies);
    get_tags_respond(result)
}

/// The one response each CreateUser outcome maps to.
pub open spec fn maps_create_user(res: Result<CreateUserResponse, ()>, r: HttpResponse) -> bool {
    match res {
        Ok(CreateUserResponse::Status201_User(b)) => is_json_response(
            r,
            201,
            spec_write(json_of_user_envelope(b)),
        ),
        Ok(CreateUserResponse::Status422_UnexpectedError(b)) => is_json_response(
            r,
            422,
            spec_write(json_of_error_model(b)),
        ),
        Err(_) => is_empty_response(r, 500),
    }
}

/// Maps a CreateUser outcome to its response.
pub fn create_user_respond(result: Result<CreateUserResponse, ()>) -> (r: HttpResponse)
    ensures
        maps_create_user(result, r),
{
    match result {
        Ok(rsp) => match rsp {
            CreateUserResponse::Status201_User(body) => json_response(
                201,
                &user_envelope_to_json(&body),
            ),
            CreateUserResponse::Status422_UnexpectedError(body) => json_response(
                422,
                &error_model_to_json(&body),
            ),
        },
        Err(_) => internal_error_response(),
    }
}

/// CreateUser - POST /api/users
pub fn create_user<A: UserAndAuthentication>(
    api: &A,
    method: Method,
    host: Host,
    cookies: CookieJar,
    body_raw: &str,
) -> (r: HttpResponse)
    ensures
        spec_parse_json(body_raw@) is None ==> is_text_response(
            r,
            400,
            "invalid request body"@,
        ),
        (spec_parse_json(body_raw@) is Some && create_user_request_err(
            spec_parse_json(body_raw@)->Some_0,
        ) is Some) ==> is_text_response(
            r,
            400,
            create_user_request_err(spec_parse_json(body_raw@)->Some_0)->Some_0,
        ),
        (spec_parse_json(body_raw@) is Some && create_user_request_err(
            spec_parse_json(body_raw@)->Some_0,
        ) is None) ==> exists|res: Result<CreateUserResponse, ()>| #[trigger] maps_create_user(res, r),
{
    let tree = match parse_json(body_raw) {
        Some(t) => t,
        None => {
            return bad_request_response("invalid request body".to_owned());
        },
    };
    let body = match bind_create_user_request(&tree) {
        Ok(b) => b,
        Err(e) => {
            return bad_request_response(e);
        },
    };
    let (body,) = match create_user_validation(body) {
        Ok(t) => t,
        Err(e) => {
            return bad_request_response(e.to_text());
        },
    };
    let result = api.create_user(method, host, cookies, body);
    create_user_respond(result)
}

/// The one response each GetCurrentUser outcome maps to.
pub open spec fn maps_get_current_user(res: Result<GetCurrentUserResponse, ()>, r: HttpResponse) -> bool {
    match res {
        Ok(GetCurrentUserResponse::Status200_User(b)) => is_json_response(
            r,
            200,
            spec_write(json_of_user_envelope(b)),
        ),
        Ok(GetCurrentUserResponse::Status401_Unauthorized) => is_empty_response(r, 401),
        Ok(GetCurrentUserResponse::Status422_UnexpectedError(b)) => is_json_response(
            r,
            422,
            spec_write(json_of_error_model(b)),
        ),
        Err(_) => is_empty_response(r, 500),
    }
}

/// Maps a GetCurrentUser outcome to its response.
pub fn get_current_user_respond(result: Result<GetCurrentUserResponse, ()>) -> (r: HttpResponse)
    ensures
        maps_get_current_user(result, r),
{
    match result {
        Ok(rsp) => match rsp {
            GetCurrentUserResponse::Status200_User(body) => json_response(
                200,
                &user_envelope_to_json(&body),
            ),
            GetCurrentUserResponse::Status401_Unauthorized => empty_response(401),
            GetCurrentUserResponse::Status422_UnexpectedError(body) => json_response(
                422,
                &error_model_to_json(&body),
            ),
        },
        Err(_) => internal_error_response(),
    }
}

/// The pipeline of GetCurrentUser after claims resolution.
pub fn get_current_user_with_claims<A: UserAndAuthentication>(
    api: &A,
    method: Method,
    host: Host,
    cookies: CookieJar,
    claims: Option<A::Claims>,
) -> (r: HttpResponse)
    ensures
        claims is None ==> is_empty_response(r, 401),
        claims is Some ==> exists|res: Result<GetCurrentUserResponse, ()>| #[trigger] maps_get_current_user(res, r),
{
    let claims = match claims {
        Some(c) => c,
        None => {
            return unauthorized_response();
        },
    };
    match get_current_user_validation() {
        Ok(_) => {},
        Err(e) => {
            return bad_request_response(e.to_text());
        },
    }
    let result = api.get_current_user(method, host, cookies, claims);
    get_current_user_respond(result)
}

/// GetCurrentUser - GET /api/user
pub fn get_current_user<A: UserAndAuthentication>(
    api: &A,
    method: Method,
    host: Host,
    cookies: CookieJar,
    headers: &HeaderMap,
) -> (r: HttpResponse)
    ensures
        is_empty_response(r, 401) || (exists|res: Result<GetCurrentUserResponse, ()>| #[trigger] maps_get_current_user(res, r)),
{
    let claims = api.extract_claims_from_header(headers, "Authorization");
    get_current_user_with_claims(api, method, host, cookies, claims)
}

/// The one response each Login outcome maps to.
pub open spec fn maps_login(res: Result<LoginResponse, ()>, r: HttpResponse) -> bool {
    match res {
        Ok(LoginResponse::Status200_User(b)) => is_json_response(
            r,
            200,
            spec_write(json_of_user_envelope(b)),
        ),
        Ok(LoginResponse::Status401_Unauthorized) => is_empty_response(r, 401),
        Ok(LoginResponse::Status422_UnexpectedError(b)) => is_json_response(
            r,
            422,
            spec_write(json_of_error_model(b)),
        ),
        Err(_) => is_empty_response(r, 500),
    }
}

/// Maps a Login outcome to its response.
pub fn login_respond(result: Result<LoginResponse, ()>) -> (r: HttpResponse)
    ensures
        maps_login(result, r),
{
    match result {
        Ok(rsp) => match rsp {
            LoginResponse::Status200_User(body) => json_response(
                200,
                &user_envelope_to_json(&body),
            ),
            LoginResponse::Status401_Unauthorized => empty_response(401),
            LoginResponse::Status422_UnexpectedError(body) => json_response(
                422,
                &error_model_to_json(&body),
            ),
        },
        Err(_) => internal_error_response(),
    }
}

/// Login - POST /api/users/login
pub fn login<A: UserAndAuthentication>(
    api: &A,
    method: Method,
    host: Host,
    cookies: CookieJar,
    body_raw: &str,
) -> (r: HttpResponse)
    ensures
        spec_parse_json(body_raw@) is None ==> is_text_response(
            r,
            400,
            "invalid request body"@,
        ),
        (spec_parse_json(body_raw@) is Some && login_request_err(
            spec_parse_json(body_raw@)->Some_0,
        ) is Some) ==> is_text_response(
            r,
            400,
            login_request_err(spec_parse_json(body_raw@)->Some_0)->Some_0,
        ),
        (spec_parse_json(body_raw@) is Some && login_request_err(
            spec_parse_json(body_raw@)->Some_0,
        ) is None) ==> exists|res: Result<LoginResponse, ()>| #[trigger] maps_login(res, r),
{
    let tree = match parse_json(body_raw) {
        Some(t) => t,
        None => {
            return bad_request_response("invalid request body".to_owned());
        },
    };
    let body = match bind_login_request(&tree) {
        Ok(b) => b,
        Err(e) => {
            return bad_request_response(e);
        },
    };
    let (body,) = match login_validation(body) {
        Ok(t) => t,
        Err(e) => {
            return bad_request_response(e.to_text());
        },
    };
    let result = api.login(method, host, cookies, body);
    login_respond(result)
}

/// The one response each UpdateCurrentUser outcome maps to.
pub open spec fn maps_update_current_user(res: Result<UpdateCurrentUserResponse, ()>, r: HttpResponse) -> bool {
    match res {
        Ok(UpdateCurrentUserResponse::Status200_User(b)) => is_json_response(
            r,
            200,
            spec_write(json_of_user_envelope(b)),
        ),
        Ok(UpdateCurrentUserResponse::Status401_Unauthorized) => is_empty_response(r, 401),
        Ok(UpdateCurrentUserResponse::Status422_UnexpectedError(b)) => is_json_response(
            r,
            422,
            spec_write(json_of_error_model(b)),
        ),
        Err(_) => is_empty_response(r, 500),
    }
}

/// Maps a UpdateCurrentUser outcome to its response.
pub fn update_current_user_respond(result: Result<UpdateCurrentUserResponse, ()>) -> (r: HttpResponse)
    ensures
        maps_update_current_user(result, r),
{
    match result {
        Ok(rsp) => match rsp {
            UpdateCurrentUserResponse::Status200_User(body) => json_response(
                200,
                &user_envelope_to_json(&body),
            ),
            UpdateCurrentUserResponse::Status401_Unauthorized => empty_response(401),
            UpdateCurrentUserResponse::Status422_UnexpectedError(body) => json_response(
                422,
                &error_model_to_json(&body),
            ),
        },
        Err(_) => internal_error_response(),
    }
}

/// The pipeline of UpdateCurrentUser after claims resolution.
pub fn update_current_user_with_claims<A: UserAndAuthentication>(
    api: &A,
    method: Method,
    host: Host,
    cookies: CookieJar,
    claims: Option<A::Claims>,
    body_raw: &str,
) -> (r: HttpResponse)
    ensures
        claims is None ==> is_empty_response(r, 401),
        claims is Some && spec_parse_json(body_raw@) is None ==> is_text_response(
            r,
            400,
            "invalid request body"@,
        ),
        (claims is Some && spec_parse_json(body_raw@) is Some && update_current_user_request_err(
            spec_parse_json(body_raw@)->Some_0,
        ) is Some) ==> is_text_response(
            r,
            400,
            update_current_user_request_err(spec_parse_json(body_raw@)->Some_0)->Some_0,
        ),
        (claims is Some && spec_parse_json(body_raw@) is Some && update_current_user_request_err(
            spec_parse_json(body_raw@)->Some_0,
        ) is None) ==> exists|res: Result<UpdateCurrentUserResponse, ()>| #[trigger] maps_update_current_user(res, r),
{
    let claims = match claims {
        Some(c) => c,
        None => {
            return unauthorized_response();
        },
    };
    let tree = match parse_json(body_raw) {
        Some(t) => t,
        None => {
            return bad_request_response("invalid request body".to_owned());
        },
    };
    let body = match bind_update_current_user_request(&tree) {
        Ok(b) => b,
        Err(e) => {
            return bad_request_response(e);
        },
    };
    let (body,) = match update_current_user_validation(body) {
        Ok(t) => t,
        Err(e) => {
            return bad_request_response(e.to_text());
        },
    };
    let result = api.update_current_user(method, host, cookies, claims, body);
    update_current_user_respond(result)
}

/// Every response UpdateCurrentUser can produce for a given body.
pub open spec fn update_current_user_outcomes(r: HttpResponse, body: Seq<char>) -> bool {
    ||| is_empty_response(r, 401)
    ||| (spec_parse_json(body) is None && is_text_response(r, 400, "invalid request body"@))
    ||| (spec_parse_json(body) matches Some(j) && update_current_user_request_err(j) matches Some(e)
        && is_text_response(r, 400, e))
    ||| (exists|res: Result<UpdateCurrentUserResponse, ()>| #[trigger] maps_update_current_user(res, r))
}

/// UpdateCurrentUser - PUT /api/user
pub fn update_current_user<A: UserAndAuthentication>(
    api: &A,
    method: Method,
    host: Host,
    cookies: CookieJar,
    headers: &HeaderMap,
    body_raw: &str,
) -> (r: HttpResponse)
    ensures
        update_current_user_outcomes(r, body_raw@),
{
    let claims = api.extract_claims_from_header(headers, "Authorization");
    update_current_user_with_claims(api, method, host, cookies, claims, body_raw)
}

/// The pipeline of UpdateArticle after claims resolution.
pub fn update_article_with_claims<A: Articles>(
    api: &A,
    method: Method,
    host: Host,
    cookies: CookieJar,
    claims: Option<A::Claims>,
    slug: &str,
    body_raw: &str,
) -> (r: HttpResponse)
    ensures
        claims is None ==> is_empty_response(r, 401),
        claims is Some && spec_parse_json(body_raw@) is None ==> is_text_response(
            r,
            400,
            "invalid request body"@,
        ),
        (claims is Some && spec_parse_json(body_raw@) is Some && update_article_request_err(
            spec_parse_json(body_raw@)->Some_0,
        ) is Some) ==> is_text_response(
            r,
            400,
            update_article_request_err(spec_parse_json(body_raw@)->Some_0)->Some_0,
        ),
        (claims is Some && spec_parse_json(body_raw@) is Some && update_article_request_err(
            spec_parse_json(body_raw@)->Some_0,
        ) is None) ==> exists|res: Result<UpdateArticleResponse, ()>|
            #[trigger] maps_update_article(res, r),
{
    let claims = match claims {
        Some(c) => c,
        None => {
            return unauthorized_response();
        },
    };
    let tree = match parse_json(body_raw) {
        Some(t) => t,
        None => {
            return bad_request_response("invalid request body".to_owned());
        },
    };
    let body = match bind_update_article_request(&tree) {
        Ok(b) => b,
        Err(e) => {
            return bad_request_response(e);
        },
    };
    let path_params = models::UpdateArticlePathParams { slug: slug.to_owned() };
    let (path_params, body) = match update_article_validation(path_params, body) {
        Ok(t) => t,
        Err(e) => {
            return bad_request_response(e.to_text());
        },
    };
    let result = api.update_article(method, host, cookies, claims, path_params, body);
    update_article_respond(result)
}

/// UpdateArticle - PUT /api/articles/{slug}
pub fn update_article<A: Articles>(
    api: &A,
    method: Method,
    host: Host,
    cookies: CookieJar,
    headers: &HeaderMap,
    slug: &str,
    body_raw: &str,
) -> (r: HttpResponse)
    ensures
        is_empty_response(r, 401) || (spec_parse_json(body_raw@) is None && is_text_response(
            r,
            400,
            "invalid request body"@,
        )) || (spec_parse_json(body_raw@) matches Some(j) && update_article_request_err(j)
            matches Some(e) && is_text_response(r, 400, e)) || (exists|res:
            Result<UpdateArticleResponse, ()>| #[trigger] maps_update_article(res, r)),
{
    let claims = api.extract_claims_from_header(headers, "Authorization");
    update_article_with_claims(api, method, host, cookies, claims, slug, body_raw)
}

/// The pipeline of CreateArticleComment after claims resolution.
pub fn create_article_comment_with_claims<A: Comments>(
    api: &A,
    method: Method,
    host: Host,
    cookies: CookieJar,
    claims: Option<A::Claims>,
    slug: &str,
    body_raw: &str,
) -> (r: HttpResponse)
    ensures
        claims is None ==> is_empty_response(r, 401),
        claims is Some && spec_parse_json(body_raw@) is None ==> is_text_response(
            r,
            400,
            "invalid request body"@,
        ),
        (claims is Some && spec_parse_json(body_raw@) is Some
            && create_article_comment_request_err(
            spec_parse_json(body_raw@)->Some_0,
        ) is Some) ==> is_text_response(
            r,
            400,
            create_article_comment_request_err(spec_parse_json(body_raw@)->Some_0)->Some_0,
        ),
        (claims is Some && spec_parse_json(body_raw@) is Some
            && create_article_comment_request_err(
            spec_parse_json(body_raw@)->Some_0,
        ) is None) ==> exists|res: Result<CreateArticleCommentResponse, ()>|
            #[trigger] maps_create_article_comment(res, r),
{
    let claims = match claims {
        Some(c) => c,
        None => {
            return unauthorized_response();
        },
    };
    let tree = match parse_json(body_raw) {
        Some(t) => t,
        None => {
            return bad_request_response("invalid request body".to_owned());
        },
    };
    let body = match bind_create_article_comment_request(&tree) {
        Ok(b) => b,
        Err(e) => {
            return bad_request_response(e);
        },
    };
    let path_params = models::CreateArticleCommentPathParams { slug: slug.to_owned() };
    let (path_params, body) = match create_article_comment_validation(path_params, body) {
        Ok(t) => t,
        Err(e) => {
            return bad_request_response(e.to_text());
        },
    };
    let result = api.create_article_comment(method, host, cookies, claims, path_params, body);
    create_article_comment_respond(result)
}

/// CreateArticleComment - POST /api/articles/{slug}/comments
pub fn create_article_comment<A: Comments>(
    api: &A,
    method: Method,
    host: Host,
    cookies: CookieJar,
    headers: &HeaderMap,
    slug: &str,
    body_raw: &str,
) -> (r: HttpResponse)
    ensures
        is_empty_response(r, 401) || (spec_parse_json(body_raw@) is None && is_text_response(
            r,
            400,
            "invalid request body"@,
        )) || (spec_parse_json(body_raw@) matches Some(j) && create_article_comment_request_err(
            j,
        ) matches Some(e) && is_text_response(r, 400, e)) || (exists|res:
            Result<CreateArticleCommentResponse, ()>|
            #[trigger] maps_create_article_comment(res, r)),
{
    let claims = api.extract_claims_from_header(headers, "Authorization");
    create_article_comment_with_claims(api, method, host, cookies, claims, slug, body_raw)
}

} // verus!
