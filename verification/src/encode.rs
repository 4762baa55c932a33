//! Building the JSON tree of each response payload. The spec functions give
//! the exact tree; serialization of that tree is exact in turn, so a response
//! body is pinned down to the byte.

use vstd::prelude::*;
use crate::json::{arr_view, obj_view, JsonMember, JsonMemberSpec, JsonSpec, JsonValue};
use crate::models::{
    Article, Comment, CreateArticle201Response, CreateArticleComment200Response,
    GenericErrorModel, GetArticleComments200Response,
    GetArticlesFeed200Response, GetArticlesFeed200ResponseArticlesInner,
    GetProfileByUsername200Response, GetTags200Response, Login200Response, Profile, User,
};

verus! {

/// Shorthand for one object member of a spec tree.
pub open spec fn jmem(k: Seq<char>, v: JsonSpec) -> JsonMemberSpec {
    JsonMemberSpec { key: k, value: v }
}

/// The trees of a sequence of plain strings.
pub open spec fn texts_of(ss: Seq<String>) -> Seq<JsonSpec> {
    Seq::new(ss.len(), |i: int| JsonSpec::Text(ss[i]@))
}

pub open spec fn json_of_profile(p: Profile) -> JsonSpec {
    JsonSpec::Obj(
        seq![
            jmem("username"@, JsonSpec::Text(p.username@)),
            jmem("bio"@, JsonSpec::Text(p.bio@)),
            jmem("image"@, JsonSpec::Text(p.image@)),
            jmem("following"@, JsonSpec::Bool(p.following)),
        ],
    )
}

pub open spec fn json_of_article(a: Article) -> JsonSpec {
    JsonSpec::Obj(
        seq![
            jmem("slug"@, JsonSpec::Text(a.slug@)),
            jmem("title"@, JsonSpec::Text(a.title@)),
            jmem("description"@, JsonSpec::Text(a.description@)),
            jmem("body"@, JsonSpec::Text(a.body@)),
            jmem("tagList"@, JsonSpec::Arr(texts_of(a.tag_list@))),
            jmem("createdAt"@, JsonSpec::Text(a.created_at.text@)),
            jmem("updatedAt"@, JsonSpec::Text(a.updated_at.text@)),
            jmem("favorited"@, JsonSpec::Bool(a.favorited)),
            jmem("favoritesCount"@, JsonSpec::Int(a.favorites_count as int)),
            jmem("author"@, json_of_profile(a.author)),
        ],
    )
}

pub open spec fn json_of_feed_article(a: GetArticlesFeed200ResponseArticlesInner) -> JsonSpec {
    JsonSpec::Obj(
        seq![
            jmem("slug"@, JsonSpec::Text(a.slug@)),
            jmem("title"@, JsonSpec::Text(a.title@)),
            jmem("description"@, JsonSpec::Text(a.description@)),
            jmem("tagList"@, JsonSpec::Arr(texts_of(a.tag_list@))),
            jmem("createdAt"@, JsonSpec::Text(a.created_at.text@)),
            jmem("updatedAt"@, JsonSpec::Text(a.updated_at.text@)),
            jmem("favorited"@, JsonSpec::Bool(a.favorited)),
            jmem("favoritesCount"@, JsonSpec::Int(a.favorites_count as int)),
            jmem("author"@, json_of_profile(a.author)),
        ],
    )
}

pub open spec fn json_of_comment(c: Comment) -> JsonSpec {
    JsonSpec::Obj(
        seq![
            jmem("id"@, JsonSpec::Int(c.id as int)),
            jmem("createdAt"@, JsonSpec::Text(c.created_at.text@)),
            jmem("updatedAt"@, JsonSpec::Text(c.updated_at.text@)),
            jmem("body"@, JsonSpec::Text(c.body@)),
            jmem("author"@, json_of_profile(c.author)),
        ],
    )
}

pub open spec fn json_of_user(u: User) -> JsonSpec {
    JsonSpec::Obj(
        seq![
            jmem("email"@, JsonSpec::Text(u.email@)),
            jmem("token"@, JsonSpec::Text(u.token@)),
            jmem("username"@, JsonSpec::Text(u.username@)),
            jmem("bio"@, JsonSpec::Text(u.bio@)),
            jmem("image"@, JsonSpec::Text(u.image@)),
        ],
    )
}

pub open spec fn json_of_article_envelope(r: CreateArticle201Response) -> JsonSpec {
    JsonSpec::Obj(seq![jmem("article"@, json_of_article(r.article))])
}

pub open spec fn json_of_comment_envelope(r: CreateArticleComment200Response) -> JsonSpec {
    JsonSpec::Obj(seq![jmem("comment"@, json_of_comment(r.comment))])
}

pub open spec fn json_of_comments(r: GetArticleComments200Response) -> JsonSpec {
    JsonSpec::Obj(
        seq![
            jmem(
                "comments"@,
                JsonSpec::Arr(Seq::new(r.comments@.len(), |i: int| json_of_comment(r.comments@[i]))),
            ),
        ],
    )
}

pub open spec fn json_of_feed(r: GetArticlesFeed200Response) -> JsonSpec {
    JsonSpec::Obj(
        seq![
            jmem(
                "articles"@,
                JsonSpec::Arr(
                    Seq::new(r.articles@.len(), |i: int| json_of_feed_article(r.articles@[i])),
                ),
            ),
            jmem("articlesCount"@, JsonSpec::Int(r.articles_count as int)),
        ],
    )
}

pub open spec fn json_of_profile_envelope(r: GetProfileByUsername200Response) -> JsonSpec {
    JsonSpec::Obj(seq![jmem("profile"@, json_of_profile(r.profile))])
}

pub open spec fn json_of_tags(r: GetTags200Response) -> JsonSpec {
    JsonSpec::Obj(seq![jmem("tags"@, JsonSpec::Arr(texts_of(r.tags@)))])
}

pub open spec fn json_of_user_envelope(r: Login200Response) -> JsonSpec {
    JsonSpec::Obj(seq![jmem("user"@, json_of_user(r.user))])
}

pub open spec fn json_of_error_model(e: GenericErrorModel) -> JsonSpec {
    JsonSpec::Obj(
        seq![
            jmem(
                "errors"@,
                JsonSpec::Obj(seq![jmem("body"@, JsonSpec::Arr(texts_of(e.errors.body@)))]),
            ),
        ],
    )
}

fn member(key: &str, value: JsonValue) -> (r: JsonMember)
    ensures
        r.key@ == key@,
        r.value == value,
{
    JsonMember { key: key.to_owned(), value }
}

fn finish_obj(ms: Vec<JsonMember>) -> (r: JsonValue)
    ensures
        r@ == JsonSpec::Obj(obj_view(ms@)),
{
    let ghost msv = ms@;
    let r = JsonValue::Obj(ms);
    proof {
        assert(r@ is Obj);
        assert(r@->Obj_0 =~= obj_view(msv));
        assert(r@ =~~= JsonSpec::Obj(obj_view(msv)));
    }
    r
}

fn texts_arr(ss: &Vec<String>) -> (r: JsonValue)
    ensures
        r@ == JsonSpec::Arr(texts_of(ss@)),
{
    let mut elems: Vec<JsonValue> = Vec::new();
    let mut i: usize = 0;
    while i < ss.len()
        invariant
            i <= ss@.len(),
            elems@.len() == i,
            forall|k: int| 0 <= k < i ==> (#[trigger] elems@[k])@ == JsonSpec::Text(ss@[k]@),
        decreases ss@.len() - i,
    {
        elems.push(JsonValue::Text(ss[i].clone()));
        i = i + 1;
    }
    let ghost ev = elems@;
    let r = JsonValue::Arr(elems);
    proof {
        assert(r@ is Arr);
        assert(r@->Arr_0 =~= arr_view(ev));
        assert(arr_view(ev) =~= texts_of(ss@));
        assert(r@ =~~= JsonSpec::Arr(texts_of(ss@)));
    }
    r
}

pub fn profile_to_json(p: &Profile) -> (r: JsonValue)
    ensures
        r@ == json_of_profile(*p),
{
    let mut ms: Vec<JsonMember> = Vec::new();
    ms.push(member("username", JsonValue::Text(p.username.clone())));
    ms.push(member("bio", JsonValue::Text(p.bio.clone())));
    ms.push(member("image", JsonValue::Text(p.image.clone())));
    ms.push(member("following", JsonValue::Bool(p.following)));
    let ghost msv = ms@;
    let r = finish_obj(ms);
    proof {
        assert(obj_view(msv) =~= (json_of_profile(*p))->Obj_0);
        assert(r@ =~~= json_of_profile(*p));
    }
    r
}

pub fn article_to_json(a: &Article) -> (r: JsonValue)
    ensures
        r@ == json_of_article(*a),
{
    let mut ms: Vec<JsonMember> = Vec::new();
    ms.push(member("slug", JsonValue::Text(a.slug.clone())));
    ms.push(member("title", JsonValue::Text(a.title.clone())));
    ms.push(member("description", JsonValue::Text(a.description.clone())));
    ms.push(member("body", JsonValue::Text(a.body.clone())));
    ms.push(member("tagList", texts_arr(&a.tag_list)));
    ms.push(member("createdAt", JsonValue::Text(a.created_at.text.clone())));
    ms.push(member("updatedAt", JsonValue::Text(a.updated_at.text.clone())));
    ms.push(member("favorited", JsonValue::Bool(a.favorited)));
    ms.push(member("favoritesCount", JsonValue::Int(a.favorites_count as i64)));
    ms.push(member("author", profile_to_json(&a.author)));
    let ghost msv = ms@;
    let r = finish_obj(ms);
    proof {
        assert(obj_view(msv) =~= (json_of_article(*a))->Obj_0);
        assert(r@ =~~= json_of_article(*a));
    }
    r
}

pub fn feed_article_to_json(a: &GetArticlesFeed200ResponseArticlesInner) -> (r: JsonValue)
    ensures
        r@ == json_of_feed_article(*a),
{
    let mut ms: Vec<JsonMember> = Vec::new();
    ms.push(member("slug", JsonValue::Text(a.slug.clone())));
    ms.push(member("title", JsonValue::Text(a.title.clone())));
    ms.push(member("description", JsonValue::Text(a.description.clone())));
    ms.push(member("tagList", texts_arr(&a.tag_list)));
    ms.push(member("createdAt", JsonValue::Text(a.created_at.text.clone())));
    ms.push(member("updatedAt", JsonValue::Text(a.updated_at.text.clone())));
    ms.push(member("favorited", JsonValue::Bool(a.favorited)));
    ms.push(member("favoritesCount", JsonValue::Int(a.favorites_count as i64)));
    ms.push(member("author", profile_to_json(&a.author)));
    let ghost msv = ms@;
    let r = finish_obj(ms);
    proof {
        assert(obj_view(msv) =~= (json_of_feed_article(*a))->Obj_0);
        assert(r@ =~~= json_of_feed_article(*a));
    }
    r
}

pub fn comment_to_json(c: &Comment) -> (r: JsonValue)
    ensures
        r@ == json_of_comment(*c),
{
    let mut ms: Vec<JsonMember> = Vec::new();
    ms.push(member("id", JsonValue::Int(c.id as i64)));
    ms.push(member("createdAt", JsonValue::Text(c.created_at.text.clone())));
    ms.push(member("updatedAt", JsonValue::Text(c.updated_at.text.clone())));
    ms.push(member("body", JsonValue::Text(c.body.clone())));
    ms.push(member("author", profile_to_json(&c.author)));
    let ghost msv = ms@;
    let r = finish_obj(ms);
    proof {
        assert(obj_view(msv) =~= (json_of_comment(*c))->Obj_0);
        assert(r@ =~~= json_of_comment(*c));
    }
    r
}

pub fn user_to_json(u: &User) -> (r: JsonValue)
    ensures
        r@ == json_of_user(*u),
{
    let mut ms: Vec<JsonMember> = Vec::new();
    ms.push(member("email", JsonValue::Text(u.email.clone())));
    ms.push(member("token", JsonValue::Text(u.token.clone())));
    ms.push(member("username", JsonValue::Text(u.username.clone())));
    ms.push(member("bio", JsonValue::Text(u.bio.clone())));
    ms.push(member("image", JsonValue::Text(u.image.clone())));
    let ghost msv = ms@;
    let r = finish_obj(ms);
    proof {
        assert(obj_view(msv) =~= (json_of_user(*u))->Obj_0);
        assert(r@ =~~= json_of_user(*u));
    }
    r
}

pub fn article_envelope_to_json(resp: &CreateArticle201Response) -> (r: JsonValue)
    ensures
        r@ == json_of_article_envelope(*resp),
{
    let mut ms: Vec<JsonMember> = Vec::new();
    ms.push(member("article", article_to_json(&resp.article)));
    let ghost msv = ms@;
    let r = finish_obj(ms);
    proof {
        assert(obj_view(msv) =~= (json_of_article_envelope(*resp))->Obj_0);
        assert(r@ =~~= json_of_article_envelope(*resp));
    }
    r
}

pub fn comment_envelope_to_json(resp: &CreateArticleComment200Response) -> (r: JsonValue)
    ensures
        r@ == json_of_comment_envelope(*resp),
{
    let mut ms: Vec<JsonMember> = Vec::new();
    ms.push(member("comment", comment_to_json(&resp.comment)));
    let ghost msv = ms@;
    let r = finish_obj(ms);
    proof {
        assert(obj_view(msv) =~= (json_of_comment_envelope(*resp))->Obj_0);
        assert(r@ =~~= json_of_comment_envelope(*resp));
    }
    r
}

pub fn comments_to_json(resp: &GetArticleComments200Response) -> (r: JsonValue)
    ensures
        r@ == json_of_comments(*resp),
{
    let mut elems: Vec<JsonValue> = Vec::new();
    let mut i: usize = 0;
    while i < resp.comments.len()
        invariant
            i <= resp.comments@.len(),
            elems@.len() == i,
            forall|k: int|
                0 <= k < i ==> (#[trigger] elems@[k])@ == json_of_comment(resp.comments@[k]),
        decreases resp.comments@.len() - i,
    {
        elems.push(comment_to_json(&resp.comments[i]));
        i = i + 1;
    }
    let ghost ev = elems@;
    let arr = JsonValue::Arr(elems);
    proof {
        assert(arr@ is Arr);
        assert(arr@->Arr_0 =~= arr_view(ev));
        assert(arr_view(ev) =~= Seq::new(
            resp.comments@.len(),
            |i: int| json_of_comment(resp.comments@[i]),
        ));
    }
    let mut ms: Vec<JsonMember> = Vec::new();
    ms.push(member("comments", arr));
    let ghost msv = ms@;
    let r = finish_obj(ms);
    proof {
        assert(obj_view(msv) =~= (json_of_comments(*resp))->Obj_0);
        assert(r@ =~~= json_of_comments(*resp));
    }
    r
}

pub fn feed_to_json(resp: &GetArticlesFeed200Response) -> (r: JsonValue)
    ensures
        r@ == json_of_feed(*resp),
{
    let mut elems: Vec<JsonValue> = Vec::new();
    let mut i: usize = 0;
    while i < resp.articles.len()
        invariant
            i <= resp.articles@.len(),
            elems@.len() == i,
            forall|k: int|
                0 <= k < i ==> (#[trigger] elems@[k])@ == json_of_feed_article(resp.articles@[k]),
        decreases resp.articles@.len() - i,
    {
        elems.push(feed_article_to_json(&resp.articles[i]));
        i = i + 1;
    }
    let ghost ev = elems@;
    let arr = JsonValue::Arr(elems);
    proof {
        assert(arr@ is Arr);
        assert(arr@->Arr_0 =~= arr_view(ev));
        assert(arr_view(ev) =~= Seq::new(
            resp.articles@.len(),
            |i: int| json_of_feed_article(resp.articles@[i]),
        ));
    }
    let mut ms: Vec<JsonMember> = Vec::new();
    ms.push(member("articles", arr));
    ms.push(member("articlesCount", JsonValue::Int(resp.articles_count as i64)));
    let ghost msv = ms@;
    let r = finish_obj(ms);
    proof {
        assert(obj_view(msv) =~= (json_of_feed(*resp))->Obj_0);
        assert(r@ =~~= json_of_feed(*resp));
    }
    r
}

pub fn profile_envelope_to_json(resp: &GetProfileByUsername200Response) -> (r: JsonValue)
    ensures
        r@ == json_of_profile_envelope(*resp),
{
    let mut ms: Vec<JsonMember> = Vec::new();
    ms.push(member("profile", profile_to_json(&resp.profile)));
    let ghost msv = ms@;
    let r = finish_obj(ms);
    proof {
        assert(obj_view(msv) =~= (json_of_profile_envelope(*resp))->Obj_0);
        assert(r@ =~~= json_of_profile_envelope(*resp));
    }
    r
}

pub fn tags_to_json(resp: &GetTags200Response) -> (r: JsonValue)
    ensures
        r@ == json_of_tags(*resp),
{
    let mut ms: Vec<JsonMember> = Vec::new();
    ms.push(member("tags", texts_arr(&resp.tags)));
    let ghost msv = ms@;
    let r = finish_obj(ms);
    proof {
        assert(obj_view(msv) =~= (json_of_tags(*resp))->Obj_0);
        assert(r@ =~~= json_of_tags(*resp));
    }
    r
}

pub fn user_envelope_to_json(resp: &Login200Response) -> (r: JsonValue)
    ensures
        r@ == json_of_user_envelope(*resp),
{
    let mut ms: Vec<JsonMember> = Vec::new();
    ms.push(member("user", user_to_json(&resp.user)));
    let ghost msv = ms@;
    let r = finish_obj(ms);
    proof {
        assert(obj_view(msv) =~= (json_of_user_envelope(*resp))->Obj_0);
        assert(r@ =~~= json_of_user_envelope(*resp));
    }
    r
}

pub fn error_model_to_json(e: &GenericErrorModel) -> (r: JsonValue)
    ensures
        r@ == json_of_error_model(*e),
{
    let mut inner: Vec<JsonMember> = Vec::new();
    inner.push(member("body", texts_arr(&e.errors.body)));
    let ghost innerv = inner@;
    let errors_obj = finish_obj(inner);
    let mut ms: Vec<JsonMember> = Vec::new();
    ms.push(member("errors", errors_obj));
    let ghost msv = ms@;
    let r = finish_obj(ms);
    proof {
        assert(obj_view(innerv) =~= seq![
            jmem("body"@, JsonSpec::Arr(texts_of(e.errors.body@))),
        ]);
        assert(obj_view(msv) =~= (json_of_error_model(*e))->Obj_0);
        assert(r@ =~~= json_of_error_model(*e));
    }
    r
}

} // verus!
