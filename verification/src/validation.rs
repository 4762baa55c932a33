//! The validation layer: per-endpoint constraint checks over the typed
//! parameter sets, run after extraction and before the handler call.
//!
//! Violations are accumulated, never short-circuited, so one response
//! reports every failing field. The only declared constraints in this
//! surface are the numeric lower bounds on the two query parameter sets;
//! every other parameter set and body validates unconditionally, and the
//! checks say so exactly.

use vstd::prelude::*;
use crate::models::{
    CreateArticleCommentPathParams, CreateArticleCommentRequest, CreateArticleFavoritePathParams,
    CreateArticleRequest, CreateUserRequest, DeleteArticleCommentPathParams,
    DeleteArticleFavoritePathParams, DeleteArticlePathParams, FollowUserByUsernamePathParams,
    GetArticleCommentsPathParams, GetArticlePathParams, GetArticlesFeedQueryParams,
    GetArticlesQueryParams, GetProfileByUsernamePathParams, LoginRequest,
    UnfollowUserByUsernamePathParams, UpdateArticlePathParams, UpdateArticleRequest,
    UpdateCurrentUserRequest,
};

verus! {

/// One constraint violation: the field's path, the constraint kind, and a
/// message for the client.
#[derive(Debug, Clone, PartialEq)]
pub struct FieldError {
    pub field: String,
    pub code: String,
    pub message: String,
}

/// An ordered collection of violations.
#[derive(Debug, Clone, PartialEq)]
pub struct ValidationErrors {
    pub errors: Vec<FieldError>,
}

/// One line of the serialized report.
pub open spec fn line_of(e: FieldError) -> Seq<char> {
    e.field@ + ": "@ + e.message@
}

/// The serialized report of the first `n` violations, one line each.
pub open spec fn report_prefix(es: Seq<FieldError>, n: int) -> Seq<char>
    decreases n,
{
    if n <= 0 || n > es.len() {
        Seq::empty()
    } else if n == 1 {
        line_of(es[0])
    } else {
        report_prefix(es, n - 1) + "\n"@ + line_of(es[n - 1])
    }
}

pub open spec fn report_of(es: Seq<FieldError>) -> Seq<char> {
    report_prefix(es, es.len() as int)
}

impl ValidationErrors {
    /// Serializes the collection, one `field: message` line per violation.
    pub fn to_text(&self) -> (r: String)
        ensures
            r@ == report_of(self.errors@),
    {
        let mut out = String::new();
        let n = self.errors.len();
        let mut i: usize = 0;
        while i < n
            invariant
                i <= n,
                n == self.errors@.len(),
                out@ == report_prefix(self.errors@, i as int),
            decreases n - i,
        {
            if i > 0 {
                out.append("\n");
            }
            out.append(self.errors[i].field.as_str());
            out.append(": ");
            out.append(self.errors[i].message.as_str());
            proof {
                assert(out@ =~= report_prefix(self.errors@, i + 1));
            }
            i = i + 1;
        }
        out
    }
}

/// Whether a declared-lower-bound field violates its bound.
pub open spec fn offset_violation(o: Option<i32>) -> bool {
    o matches Some(n) && n < 0
}

pub open spec fn limit_violation(o: Option<i32>) -> bool {
    o matches Some(n) && n < 1
}

/// What one violation entry must say.
pub open spec fn is_field_error(e: FieldError, field: Seq<char>, code: Seq<char>, msg: Seq<char>)
    -> bool {
    e.field@ == field && e.code@ == code && e.message@ == msg
}

/// The exact error collection of an offset/limit pair: an entry per
/// violated bound, offset first.
pub open spec fn range_errors_exact(es: Seq<FieldError>, offset: Option<i32>, limit: Option<i32>)
    -> bool {
    &&& es.len() == (if offset_violation(offset) {
        1int
    } else {
        0int
    }) + (if limit_violation(limit) {
        1int
    } else {
        0int
    })
    &&& offset_violation(offset) ==> is_field_error(
        es[0],
        "offset"@,
        "range"@,
        "must be at least 0"@,
    )
    &&& limit_violation(limit) ==> is_field_error(
        es[if offset_violation(offset) {
            1int
        } else {
            0int
        }],
        "limit"@,
        "range"@,
        "must be at least 1"@,
    )
}

fn range_error(field: &str, msg: &str) -> (e: FieldError)
    ensures
        is_field_error(e, field@, "range"@, msg@),
{
    FieldError { field: field.to_owned(), code: "range".to_owned(), message: msg.to_owned() }
}

fn check_bounds(offset: &Option<i32>, limit: &Option<i32>) -> (r: Result<(), ValidationErrors>)
    ensures
        match r {
            Ok(_) => !offset_violation(*offset) && !limit_violation(*limit),
            Err(es) => (offset_violation(*offset) || limit_violation(*limit))
                && range_errors_exact(es.errors@, *offset, *limit),
        },
{
    let mut errors: Vec<FieldError> = Vec::new();
    match offset {
        Some(n) => {
            if *n < 0 {
                errors.push(range_error("offset", "must be at least 0"));
            }
        },
        None => {},
    }
    match limit {
        Some(n) => {
            if *n < 1 {
                errors.push(range_error("limit", "must be at least 1"));
            }
        },
        None => {},
    }
    if errors.len() == 0 {
        Ok(())
    } else {
        Err(ValidationErrors { errors })
    }
}

/// The serialized report for the possible bound violations.
pub open spec fn range_report(offv: bool, limv: bool) -> Seq<char> {
    if offv && limv {
        "offset: must be at least 0\nlimit: must be at least 1"@
    } else if offv {
        "offset: must be at least 0"@
    } else {
        "limit: must be at least 1"@
    }
}

/// The serialized form of an exact bound-violation collection is the fixed
/// report for those violations.
pub proof fn lemma_range_report(es: Seq<FieldError>, offset: Option<i32>, limit: Option<i32>)
    requires
        range_errors_exact(es, offset, limit),
        offset_violation(offset) || limit_violation(limit),
    ensures
        report_of(es) == range_report(offset_violation(offset), limit_violation(limit)),
{
    reveal_strlit("offset");
    reveal_strlit("limit");
    reveal_strlit(": ");
    reveal_strlit("\n");
    reveal_strlit("must be at least 0");
    reveal_strlit("must be at least 1");
    reveal_strlit("offset: must be at least 0");
    reveal_strlit("limit: must be at least 1");
    reveal_strlit("offset: must be at least 0\nlimit: must be at least 1");
    reveal_with_fuel(report_prefix, 3);
    if offset_violation(offset) && limit_violation(limit) {
        assert(report_prefix(es, 1) == line_of(es[0]));
        assert(report_prefix(es, 2) == report_prefix(es, 1) + "\n"@ + line_of(es[1]));
        assert(report_of(es) == line_of(es[0]) + "\n"@ + line_of(es[1]));
        assert(line_of(es[0]) =~= "offset: must be at least 0"@);
        assert(line_of(es[1]) =~= "limit: must be at least 1"@);
        assert(report_of(es) =~= "offset: must be at least 0\nlimit: must be at least 1"@);
    } else if offset_violation(offset) {
        assert(report_of(es) == line_of(es[0]));
        assert(report_of(es) =~= "offset: must be at least 0"@);
    } else {
        assert(report_of(es) == line_of(es[0]));
        assert(report_of(es) =~= "limit: must be at least 1"@);
    }
}

/// GetArticles - GET /api/articles: offset at least 0, limit at least 1.
pub fn get_articles_validation(query_params: GetArticlesQueryParams) -> (r: Result<
    (GetArticlesQueryParams,),
    ValidationErrors,
>)
    ensures
        match r {
            Ok(q) => q.0 == query_params && !offset_violation(query_params.offset)
                && !limit_violation(query_params.limit),
            Err(es) => (offset_violation(query_params.offset) || limit_violation(
                query_params.limit,
            )) && range_errors_exact(es.errors@, query_params.offset, query_params.limit),
        },
{
    match check_bounds(&query_params.offset, &query_params.limit) {
        Ok(_) => Ok((query_params,)),
        Err(es) => Err(es),
    }
}

/// GetArticlesFeed - GET /api/articles/feed: the same two bounds.
pub fn get_articles_feed_validation(query_params: GetArticlesFeedQueryParams) -> (r: Result<
    (GetArticlesFeedQueryParams,),
    ValidationErrors,
>)
    ensures
        match r {
            Ok(q) => q.0 == query_params && !offset_violation(query_params.offset)
                && !limit_violation(query_params.limit),
            Err(es) => (offset_violation(query_params.offset) || limit_violation(
                query_params.limit,
            )) && range_errors_exact(es.errors@, query_params.offset, query_params.limit),
        },
{
    match check_bounds(&query_params.offset, &query_params.limit) {
        Ok(_) => Ok((query_params,)),
        Err(es) => Err(es),
    }
}

/// CreateArticle - POST /api/articles: the body declares no constraints.
pub fn create_article_validation(body: CreateArticleRequest) -> (r: Result<
    (CreateArticleRequest,),
    ValidationErrors,
>)
    ensures
        r matches Ok(b) && b.0 == body,
{
    Ok((body,))
}

/// DeleteArticle - DELETE /api/articles/{slug}: no constraints.
pub fn delete_article_validation(path_params: DeleteArticlePathParams) -> (r: Result<
    (DeleteArticlePathParams,),
    ValidationErrors,
>)
    ensures
        r matches Ok(p) && p.0 == path_params,
{
    Ok((path_params,))
}

/// GetArticle - GET /api/articles/{slug}: no constraints.
pub fn get_article_validation(path_params: GetArticlePathParams) -> (r: Result<
    (GetArticlePathParams,),
    ValidationErrors,
>)
    ensures
        r matches Ok(p) && p.0 == path_params,
{
    Ok((path_params,))
}

/// UpdateArticle - PUT /api/articles/{slug}: no constraints.
pub fn update_article_validation(
    path_params: UpdateArticlePathParams,
    body: UpdateArticleRequest,
) -> (r: Result<(UpdateArticlePathParams, UpdateArticleRequest), ValidationErrors>)
    ensures
        r matches Ok(p) && p.0 == path_params && p.1 == body,
{
    Ok((path_params, body))
}

/// CreateArticleComment - POST /api/articles/{slug}/comments: no constraints.
pub fn create_article_comment_validation(
    path_params: CreateArticleCommentPathParams,
    body: CreateArticleCommentRequest,
) -> (r: Result<(CreateArticleCommentPathParams, CreateArticleCommentRequest), ValidationErrors>)
    ensures
        r matches Ok(p) && p.0 == path_params && p.1 == body,
{
    Ok((path_params, body))
}

/// DeleteArticleComment - DELETE /api/articles/{slug}/comments/{id}: no
/// constraints.
pub fn delete_article_comment_validation(path_params: DeleteArticleCommentPathParams) -> (r:
    Result<(DeleteArticleCommentPathParams,), ValidationErrors>)
    ensures
        r matches Ok(p) && p.0 == path_params,
{
    Ok((path_params,))
}

/// GetArticleComments - GET /api/articles/{slug}/comments: no constraints.
pub fn get_article_comments_validation(path_params: GetArticleCommentsPathParams) -> (r: Result<
    (GetArticleCommentsPathParams,),
    ValidationErrors,
>)
    ensures
        r matches Ok(p) && p.0 == path_params,
{
    Ok((path_params,))
}

/// CreateArticleFavorite - POST /api/articles/{slug}/favorite: no
/// constraints.
pub fn create_article_favorite_validation(path_params: CreateArticleFavoritePathParams) -> (r:
    Result<(CreateArticleFavoritePathParams,), ValidationErrors>)
    ensures
        r matches Ok(p) && p.0 == path_params,
{
    Ok((path_params,))
}

/// DeleteArticleFavorite - DELETE /api/articles/{slug}/favorite: no
/// constraints.
pub fn delete_article_favorite_validation(path_params: DeleteArticleFavoritePathParams) -> (r:
    Result<(DeleteArticleFavoritePathParams,), ValidationErrors>)
    ensures
        r matches Ok(p) && p.0 == path_params,
{
    Ok((path_params,))
}

/// FollowUserByUsername - POST /api/profiles/{username}/follow: no
/// constraints.
pub fn follow_user_by_username_validation(path_params: FollowUserByUsernamePathParams) -> (r:
    Result<(FollowUserByUsernamePathParams,), ValidationErrors>)
    ensures
        r matches Ok(p) && p.0 == path_params,
{
    Ok((path_params,))
}

/// GetProfileByUsername - GET /api/profiles/{username}: no constraints.
pub fn get_profile_by_username_validation(path_params: GetProfileByUsernamePathParams) -> (r:
    Result<(GetProfileByUsernamePathParams,), ValidationErrors>)
    ensures
        r matches Ok(p) && p.0 == path_params,
{
    Ok((path_params,))
}

/// UnfollowUserByUsername - DELETE /api/profiles/{username}/follow: no
/// constraints.
pub fn unfollow_user_by_username_validation(path_params: UnfollowUserByUsernamePathParams) -> (r:
    Result<(UnfollowUserByUsernamePathParams,), ValidationErrors>)
    ensures
        r matches Ok(p) && p.0 == path_params,
{
    Ok((path_params,))
}

/// GetTags - GET /api/tags: there are no parameters.
pub fn get_tags_validation() -> (r: Result<(), ValidationErrors>)
    ensures
        r is Ok,
{
    Ok(())
}

/// CreateUser - POST /api/users: the body declares no constraints.
pub fn create_user_validation(body: CreateUserRequest) -> (r: Result<
    (CreateUserRequest,),
    ValidationErrors,
>)
    ensures
        r matches Ok(b) && b.0 == body,
{
    Ok((body,))
}

/// GetCurrentUser - GET /api/user: there are no parameters.
pub fn get_current_user_validation() -> (r: Result<(), ValidationErrors>)
    ensures
        r is Ok,
{
    Ok(())
}

/// Login - POST /api/users/login: the body declares no constraints.
pub fn login_validation(body: LoginRequest) -> (r: Result<(LoginRequest,), ValidationErrors>)
    ensures
        r matches Ok(b) && b.0 == body,
{
    Ok((body,))
}

/// UpdateCurrentUser - PUT /api/user: the body declares no constraints.
pub fn update_current_user_validation(body: UpdateCurrentUserRequest) -> (r: Result<
    (UpdateCurrentUserRequest,),
    ValidationErrors,
>)
    ensures
        r matches Ok(b) && b.0 == body,
{
    Ok((body,))
}

} // verus!
