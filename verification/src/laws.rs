//! Laws of the pipeline that relate several functions, proved once and for
//! all inputs.

use vstd::prelude::*;
use crate::articles::GetArticleResponse;
use crate::bind::{
    article_err, article_ok, create_article_201_err, create_article_201_ok, profile_err,
    profile_ok, spec_obj_get,
};
use crate::encode::{json_of_article, json_of_article_envelope, json_of_profile};
use crate::http::HttpResponse;
use crate::json::JsonMemberSpec;
use crate::models::{Article, CreateArticle201Response, Profile};
use crate::server::maps_get_article;

verus! {

/// Two responses agree byte for byte: same status, same headers, same body.
pub open spec fn resp_equiv(r1: HttpResponse, r2: HttpResponse) -> bool {
    &&& r1.status == r2.status
    &&& r1.body@ == r2.body@
    &&& r1.headers@.len() == r2.headers@.len()
    &&& forall|i: int|
        0 <= i < r1.headers@.len() ==> (#[trigger] r1.headers@[i]).0@ == r2.headers@[i].0@
            && r1.headers@[i].1@ == r2.headers@[i].1@
}

/// Law: repeating an identical article read without a handler-side change
/// yields byte-identical responses. The response is a function of the
/// handler's outcome alone, so the same outcome gives the same bytes.
pub proof fn lemma_get_article_idempotent(
    res: Result<GetArticleResponse, ()>,
    r1: HttpResponse,
    r2: HttpResponse,
)
    requires
        maps_get_article(res, r1),
        maps_get_article(res, r2),
    ensures
        resp_equiv(r1, r2),
{
    match res {
        Ok(GetArticleResponse::Status200_SingleArticle(b)) => {
            assert(resp_equiv(r1, r2));
        },
        Ok(GetArticleResponse::Status422_UnexpectedError(e)) => {
            assert(resp_equiv(r1, r2));
        },
        Err(_) => {
            assert(r1.body@ =~= r2.body@);
            assert(resp_equiv(r1, r2));
        },
    }
}

/// `spec_obj_get` finds the member at `i` when no earlier member has the
/// key.
pub proof fn lemma_obj_get_at(fields: Seq<JsonMemberSpec>, key: Seq<char>, i: int)
    requires
        0 <= i < fields.len(),
        fields[i].key == key,
        forall|k: int| 0 <= k < i ==> (#[trigger] fields[k]).key != key,
    ensures
        spec_obj_get(fields, key) == Some(fields[i].value),
    decreases i,
{
    if i > 0 {
        lemma_obj_get_at(fields.drop_first(), key, i - 1);
    }
}

/// Law: a profile encoded for the wire binds back to the same field values.
pub proof fn lemma_profile_round_trip(p: Profile, path: Seq<char>)
    ensures
        profile_err(json_of_profile(p), path) is None,
        profile_ok(json_of_profile(p), p),
{
    reveal_strlit("username");
    reveal_strlit("bio");
    reveal_strlit("image");
    reveal_strlit("following");
    let fs = (json_of_profile(p))->Obj_0;
    assert(fs[0].key == "username"@);
    assert(fs[1].key == "bio"@);
    assert(fs[2].key == "image"@);
    assert(fs[3].key == "following"@);
    assert("username"@.len() == 8);
    assert("bio"@.len() == 3);
    assert("image"@.len() == 5);
    assert("following"@.len() == 9);
    lemma_obj_get_at(fs, "username"@, 0);
    lemma_obj_get_at(fs, "bio"@, 1);
    lemma_obj_get_at(fs, "image"@, 2);
    lemma_obj_get_at(fs, "following"@, 3);
}

/// Law: an article encoded for the wire binds back to the same field
/// values, tag list and nested author included.
pub proof fn lemma_article_round_trip(a: Article, path: Seq<char>)
    ensures
        article_err(json_of_article(a), path) is None,
        article_ok(json_of_article(a), a),
{
    reveal_strlit("slug");
    reveal_strlit("title");
    reveal_strlit("description");
    reveal_strlit("body");
    reveal_strlit("tagList");
    reveal_strlit("createdAt");
    reveal_strlit("updatedAt");
    reveal_strlit("favorited");
    reveal_strlit("favoritesCount");
    reveal_strlit("author");
    let fs = (json_of_article(a))->Obj_0;
    assert(fs[0].key == "slug"@);
    assert(fs[1].key == "title"@);
    assert(fs[2].key == "description"@);
    assert(fs[3].key == "body"@);
    assert(fs[4].key == "tagList"@);
    assert(fs[5].key == "createdAt"@);
    assert(fs[6].key == "updatedAt"@);
    assert(fs[7].key == "favorited"@);
    assert(fs[8].key == "favoritesCount"@);
    assert(fs[9].key == "author"@);
    assert("slug"@[0] == 's' && "title"@[0] == 't' && "description"@[0] == 'd' && "body"@[0]
        == 'b' && "tagList"@[0] == 't' && "createdAt"@[0] == 'c' && "updatedAt"@[0] == 'u'
        && "favorited"@[0] == 'f' && "favoritesCount"@[0] == 'f' && "author"@[0] == 'a');
    assert("title"@.len() == 5 && "tagList"@.len() == 7);
    assert("favorited"@.len() == 9 && "favoritesCount"@.len() == 14);
    lemma_obj_get_at(fs, "slug"@, 0);
    lemma_obj_get_at(fs, "title"@, 1);
    lemma_obj_get_at(fs, "description"@, 2);
    lemma_obj_get_at(fs, "body"@, 3);
    lemma_obj_get_at(fs, "tagList"@, 4);
    lemma_obj_get_at(fs, "createdAt"@, 5);
    lemma_obj_get_at(fs, "updatedAt"@, 6);
    lemma_obj_get_at(fs, "favorited"@, 7);
    lemma_obj_get_at(fs, "favoritesCount"@, 8);
    lemma_obj_get_at(fs, "author"@, 9);
    lemma_profile_round_trip(a.author, crate::bind::fpath(path, "author"@));
}

/// Law: a created-article response envelope, as built for the wire, binds
/// back to the same article. Together with the exact serializer and parser
/// this closes the round trip of the created resource over its wire bytes.
pub proof fn lemma_create_article_201_round_trip(resp: CreateArticle201Response)
    ensures
        create_article_201_err(json_of_article_envelope(resp)) is None,
        create_article_201_ok(json_of_article_envelope(resp), resp),
{
    reveal_strlit("article");
    let fs = (json_of_article_envelope(resp))->Obj_0;
    assert(fs[0].key == "article"@);
    lemma_obj_get_at(fs, "article"@, 0);
    lemma_article_round_trip(resp.article, "article"@);
}

} // verus!
