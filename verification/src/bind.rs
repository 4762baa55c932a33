//! Binding decoded JSON trees to the typed request and response models.
//!
//! Each binder is exact: the `*_ok` predicate pins every field of a
//! successful result, and the `*_err` function gives the error text produced
//! for every tree that does not bind, a required field's full path included.

use vstd::prelude::*;
use crate::encode::texts_of;
use crate::json::{obj_view, JsonMember, JsonMemberSpec, JsonSpec, JsonValue};
use crate::models::{
    Article, CreateArticle201Response, CreateArticleCommentRequest, CreateArticleRequest,
    CreateUserRequest, DateTime, LoginRequest, LoginUser, NewArticle, NewComment, NewUser,
    Profile, UpdateArticle, UpdateArticleRequest, UpdateCurrentUserRequest, UpdateUser,
};
use crate::text::str_eq;

verus! {

/// The value of the first member with the given key.
pub open spec fn spec_obj_get(fields: Seq<JsonMemberSpec>, key: Seq<char>) -> Option<JsonSpec>
    decreases fields.len(),
{
    if fields.len() == 0 {
        None
    } else if fields[0].key == key {
        Some(fields[0].value)
    } else {
        spec_obj_get(fields.drop_first(), key)
    }
}

/// A field's full path: `key` at the root, `path.key` below it.
pub open spec fn fpath(path: Seq<char>, key: Seq<char>) -> Seq<char> {
    if path.len() == 0 {
        key
    } else {
        path + "."@ + key
    }
}

pub open spec fn str_req_err(fields: Seq<JsonMemberSpec>, key: Seq<char>, path: Seq<char>)
    -> Option<Seq<char>> {
    match spec_obj_get(fields, key) {
        None => Some(fpath(path, key) + " missing"@),
        Some(j) => if j is Text {
            None
        } else {
            Some(fpath(path, key) + " must be a string"@)
        },
    }
}

pub open spec fn str_opt_err(fields: Seq<JsonMemberSpec>, key: Seq<char>, path: Seq<char>)
    -> Option<Seq<char>> {
    match spec_obj_get(fields, key) {
        None => None,
        Some(j) => if j is Text {
            None
        } else {
            Some(fpath(path, key) + " must be a string"@)
        },
    }
}

pub open spec fn all_texts(es: Seq<JsonSpec>) -> bool {
    forall|i: int| 0 <= i < es.len() ==> (#[trigger] es[i]) is Text
}

pub open spec fn str_arr_opt_err(fields: Seq<JsonMemberSpec>, key: Seq<char>, path: Seq<char>)
    -> Option<Seq<char>> {
    match spec_obj_get(fields, key) {
        None => None,
        Some(j) => match j {
            JsonSpec::Arr(es) => if all_texts(es) {
                None
            } else {
                Some(fpath(path, key) + " must be an array of strings"@)
            },
            _ => Some(fpath(path, key) + " must be an array of strings"@),
        },
    }
}

pub open spec fn str_arr_req_err(fields: Seq<JsonMemberSpec>, key: Seq<char>, path: Seq<char>)
    -> Option<Seq<char>> {
    match spec_obj_get(fields, key) {
        None => Some(fpath(path, key) + " missing"@),
        Some(j) => match j {
            JsonSpec::Arr(es) => if all_texts(es) {
                None
            } else {
                Some(fpath(path, key) + " must be an array of strings"@)
            },
            _ => Some(fpath(path, key) + " must be an array of strings"@),
        },
    }
}

pub open spec fn int_req_err(fields: Seq<JsonMemberSpec>, key: Seq<char>, path: Seq<char>)
    -> Option<Seq<char>> {
    match spec_obj_get(fields, key) {
        None => Some(fpath(path, key) + " missing"@),
        Some(j) => match j {
            JsonSpec::Int(n) => if i32::MIN <= n <= i32::MAX {
                None
            } else {
                Some(fpath(path, key) + " must be an integer"@)
            },
            _ => Some(fpath(path, key) + " must be an integer"@),
        },
    }
}

pub open spec fn bool_req_err(fields: Seq<JsonMemberSpec>, key: Seq<char>, path: Seq<char>)
    -> Option<Seq<char>> {
    match spec_obj_get(fields, key) {
        None => Some(fpath(path, key) + " missing"@),
        Some(j) => if j is Bool {
            None
        } else {
            Some(fpath(path, key) + " must be a boolean"@)
        },
    }
}

fn field_path(path: &str, key: &str) -> (r: String)
    ensures
        r@ == fpath(path@, key@),
{
    if path.unicode_len() == 0 {
        key.to_owned()
    } else {
        let mut t = path.to_owned();
        t.append(".");
        t.append(key);
        proof {
            assert(t@ =~= path@ + "."@ + key@);
        }
        t
    }
}

fn field_msg(path: &str, key: &str, suffix: &str) -> (r: String)
    ensures
        r@ == fpath(path@, key@) + suffix@,
{
    let mut t = field_path(path, key);
    t.append(suffix);
    t
}

fn obj_get<'a>(fields: &'a Vec<JsonMember>, key: &str) -> (r: Option<&'a JsonValue>)
    ensures
        match r {
            Some(v) => spec_obj_get(obj_view(fields@), key@) == Some(v@),
            None => spec_obj_get(obj_view(fields@), key@) is None,
        },
{
    let ghost ov = obj_view(fields@);
    let n = fields.len();
    proof {
        assert(ov.subrange(0, n as int) =~= ov);
    }
    let mut i: usize = 0;
    while i < n
        invariant
            n == fields@.len(),
            i <= n,
            ov == obj_view(fields@),
            ov.len() == n,
            spec_obj_get(ov, key@) == spec_obj_get(ov.subrange(i as int, n as int), key@),
        decreases n - i,
    {
        proof {
            assert(ov.subrange(i as int, n as int)[0] == ov[i as int]);
            assert(ov[i as int] == fields@[i as int]@);
            assert(ov.subrange(i as int, n as int).drop_first() =~= ov.subrange(
                i + 1,
                n as int,
            ));
        }
        if str_eq(fields[i].key.as_str(), key) {
            return Some(&fields[i].value);
        }
        i = i + 1;
    }
    proof {
        assert(ov.subrange(n as int, n as int).len() == 0);
    }
    None
}

fn get_req_str(fields: &Vec<JsonMember>, key: &str, path: &str) -> (r: Result<String, String>)
    ensures
        match r {
            Ok(s) => {
                &&& str_req_err(obj_view(fields@), key@, path@) is None
                &&& spec_obj_get(obj_view(fields@), key@) == Some(JsonSpec::Text(s@))
            },
            Err(e) => str_req_err(obj_view(fields@), key@, path@) == Some(e@),
        },
{
    match obj_get(fields, key) {
        None => Err(field_msg(path, key, " missing")),
        Some(v) => match v {
            JsonValue::Text(s) => Ok(s.clone()),
            _ => Err(field_msg(path, key, " must be a string")),
        },
    }
}

fn get_opt_str(fields: &Vec<JsonMember>, key: &str, path: &str) -> (r: Result<
    Option<String>,
    String,
>)
    ensures
        match r {
            Ok(o) => {
                &&& str_opt_err(obj_view(fields@), key@, path@) is None
                &&& match o {
                    Some(s) => spec_obj_get(obj_view(fields@), key@) == Some(JsonSpec::Text(s@)),
                    None => spec_obj_get(obj_view(fields@), key@) is None,
                }
            },
            Err(e) => str_opt_err(obj_view(fields@), key@, path@) == Some(e@),
        },
{
    match obj_get(fields, key) {
        None => Ok(None),
        Some(v) => match v {
            JsonValue::Text(s) => Ok(Some(s.clone())),
            _ => Err(field_msg(path, key, " must be a string")),
        },
    }
}

fn texts_from_arr(es: &Vec<JsonValue>, key: &str, path: &str) -> (r: Result<Vec<String>, String>)
    ensures
        match r {
            Ok(ts) => {
                &&& all_texts(crate::json::arr_view(es@))
                &&& crate::json::arr_view(es@) == texts_of(ts@)
            },
            Err(e) => {
                &&& !all_texts(crate::json::arr_view(es@))
                &&& e@ == fpath(path@, key@) + " must be an array of strings"@
            },
        },
{
    let ghost ev = crate::json::arr_view(es@);
    let mut ts: Vec<String> = Vec::new();
    let n = es.len();
    let mut i: usize = 0;
    while i < n
        invariant
            n == es@.len(),
            i <= n,
            ev == crate::json::arr_view(es@),
            ev.len() == n,
            ts@.len() == i,
            forall|k: int| 0 <= k < i ==> (#[trigger] ev[k]) is Text,
            forall|k: int| 0 <= k < i ==> (#[trigger] ev[k]) == JsonSpec::Text(ts@[k]@),
        decreases n - i,
    {
        proof {
            assert(ev[i as int] == es@[i as int]@);
        }
        match &es[i] {
            JsonValue::Text(s) => {
                ts.push(s.clone());
            },
            _ => {
                return Err(field_msg(path, key, " must be an array of strings"));
            },
        }
        i = i + 1;
    }
    proof {
        assert(ev =~= texts_of(ts@));
    }
    Ok(ts)
}

fn get_opt_str_arr(fields: &Vec<JsonMember>, key: &str, path: &str) -> (r: Result<
    Option<Vec<String>>,
    String,
>)
    ensures
        match r {
            Ok(o) => {
                &&& str_arr_opt_err(obj_view(fields@), key@, path@) is None
                &&& match o {
                    Some(ts) => spec_obj_get(obj_view(fields@), key@) == Some(
                        JsonSpec::Arr(texts_of(ts@)),
                    ),
                    None => spec_obj_get(obj_view(fields@), key@) is None,
                }
            },
            Err(e) => str_arr_opt_err(obj_view(fields@), key@, path@) == Some(e@),
        },
{
    match obj_get(fields, key) {
        None => Ok(None),
        Some(v) => match v {
            JsonValue::Arr(es) => match texts_from_arr(es, key, path) {
                Ok(ts) => {
                    proof {
                        assert(v@ is Arr);
                        assert(v@->Arr_0 =~= crate::json::arr_view(es@));
                        assert(v@ =~~= JsonSpec::Arr(texts_of(ts@)));
                    }
                    Ok(Some(ts))
                },
                Err(e) => {
                    proof {
                        assert(v@ is Arr);
                        assert(v@->Arr_0 =~= crate::json::arr_view(es@));
                    }
                    Err(e)
                },
            },
            _ => Err(field_msg(path, key, " must be an array of strings")),
        },
    }
}

fn get_req_str_arr(fields: &Vec<JsonMember>, key: &str, path: &str) -> (r: Result<
    Vec<String>,
    String,
>)
    ensures
        match r {
            Ok(ts) => {
                &&& str_arr_req_err(obj_view(fields@), key@, path@) is None
                &&& spec_obj_get(obj_view(fields@), key@) == Some(JsonSpec::Arr(texts_of(ts@)))
            },
            Err(e) => str_arr_req_err(obj_view(fields@), key@, path@) == Some(e@),
        },
{
    match obj_get(fields, key) {
        None => Err(field_msg(path, key, " missing")),
        Some(v) => match v {
            JsonValue::Arr(es) => match texts_from_arr(es, key, path) {
                Ok(ts) => {
                    proof {
                        assert(v@ is Arr);
                        assert(v@->Arr_0 =~= crate::json::arr_view(es@));
                        assert(v@ =~~= JsonSpec::Arr(texts_of(ts@)));
                    }
                    Ok(ts)
                },
                Err(e) => {
                    proof {
                        assert(v@ is Arr);
                        assert(v@->Arr_0 =~= crate::json::arr_view(es@));
                    }
                    Err(e)
                },
            },
            _ => Err(field_msg(path, key, " must be an array of strings")),
        },
    }
}

fn get_req_i32(fields: &Vec<JsonMember>, key: &str, path: &str) -> (r: Result<i32, String>)
    ensures
        match r {
            Ok(n) => {
                &&& int_req_err(obj_view(fields@), key@, path@) is None
                &&& spec_obj_get(obj_view(fields@), key@) == Some(JsonSpec::Int(n as int))
            },
            Err(e) => int_req_err(obj_view(fields@), key@, path@) == Some(e@),
        },
{
    match obj_get(fields, key) {
        None => Err(field_msg(path, key, " missing")),
        Some(v) => match v {
            JsonValue::Int(n) => {
                let n = *n;
                if i32::MIN as i64 <= n && n <= i32::MAX as i64 {
                    Ok(n as i32)
                } else {
                    Err(field_msg(path, key, " must be an integer"))
                }
            },
            _ => Err(field_msg(path, key, " must be an integer")),
        },
    }
}

fn get_req_bool(fields: &Vec<JsonMember>, key: &str, path: &str) -> (r: Result<bool, String>)
    ensures
        match r {
            Ok(b) => {
                &&& bool_req_err(obj_view(fields@), key@, path@) is None
                &&& spec_obj_get(obj_view(fields@), key@) == Some(JsonSpec::Bool(b))
            },
            Err(e) => bool_req_err(obj_view(fields@), key@, path@) == Some(e@),
        },
{
    match obj_get(fields, key) {
        None => Err(field_msg(path, key, " missing")),
        Some(v) => match v {
            JsonValue::Bool(b) => Ok(*b),
            _ => Err(field_msg(path, key, " must be a boolean")),
        },
    }
}

/// Errors for a `NewUser` body, first in field order.
pub open spec fn new_user_err(j: JsonSpec, path: Seq<char>) -> Option<Seq<char>> {
    if !(j is Obj) {
        Some(path + " must be an object"@)
    } else {
        let fs = j->Obj_0;
        if str_req_err(fs, "username"@, path) is Some {
            str_req_err(fs, "username"@, path)
        } else if str_req_err(fs, "email"@, path) is Some {
            str_req_err(fs, "email"@, path)
        } else {
            str_req_err(fs, "password"@, path)
        }
    }
}

pub open spec fn new_user_ok(j: JsonSpec, m: NewUser) -> bool {
    &&& j is Obj
    &&& spec_obj_get(j->Obj_0, "username"@) == Some(JsonSpec::Text(m.username@))
    &&& spec_obj_get(j->Obj_0, "email"@) == Some(JsonSpec::Text(m.email@))
    &&& spec_obj_get(j->Obj_0, "password"@) == Some(JsonSpec::Text(m.password@))
}

pub fn bind_new_user(v: &JsonValue, path: &str) -> (r: Result<NewUser, String>)
    ensures
        match r {
            Ok(m) => new_user_err(v@, path@) is None && new_user_ok(v@, m),
            Err(e) => new_user_err(v@, path@) == Some(e@),
        },
{
    match v {
        JsonValue::Obj(fields) => {
            proof {
                assert(v@ is Obj);
                assert(v@->Obj_0 =~= obj_view(fields@));
            }
            let username = match get_req_str(fields, "username", path) {
                Ok(x) => x,
                Err(e) => return Err(e),
            };
            let email = match get_req_str(fields, "email", path) {
                Ok(x) => x,
                Err(e) => return Err(e),
            };
            let password = match get_req_str(fields, "password", path) {
                Ok(x) => x,
                Err(e) => return Err(e),
            };
            Ok(NewUser { username, email, password })
        },
        _ => {
            let mut m = path.to_owned();
            m.append(" must be an object");
            Err(m)
        },
    }
}

/// Errors for a `LoginUser` body, first in field order.
pub open spec fn login_user_err(j: JsonSpec, path: Seq<char>) -> Option<Seq<char>> {
    if !(j is Obj) {
        Some(path + " must be an object"@)
    } else {
        let fs = j->Obj_0;
        if str_req_err(fs, "email"@, path) is Some {
            str_req_err(fs, "email"@, path)
        } else {
            str_req_err(fs, "password"@, path)
        }
    }
}

pub open spec fn login_user_ok(j: JsonSpec, m: LoginUser) -> bool {
    &&& j is Obj
    &&& spec_obj_get(j->Obj_0, "email"@) == Some(JsonSpec::Text(m.email@))
    &&& spec_obj_get(j->Obj_0, "password"@) == Some(JsonSpec::Text(m.password@))
}

pub fn bind_login_user(v: &JsonValue, path: &str) -> (r: Result<LoginUser, String>)
    ensures
        match r {
            Ok(m) => login_user_err(v@, path@) is None && login_user_ok(v@, m),
            Err(e) => login_user_err(v@, path@) == Some(e@),
        },
{
    match v {
        JsonValue::Obj(fields) => {
            proof {
                assert(v@ is Obj);
                assert(v@->Obj_0 =~= obj_view(fields@));
            }
            let email = match get_req_str(fields, "email", path) {
                Ok(x) => x,
                Err(e) => return Err(e),
            };
            let password = match get_req_str(fields, "password", path) {
                Ok(x) => x,
                Err(e) => return Err(e),
            };
            Ok(LoginUser { email, password })
        },
        _ => {
            let mut m = path.to_owned();
            m.append(" must be an object");
            Err(m)
        },
    }
}

/// Errors for an `UpdateUser` body, first in field order.
pub open spec fn update_user_err(j: JsonSpec, path: Seq<char>) -> Option<Seq<char>> {
    if !(j is Obj) {
        Some(path + " must be an object"@)
    } else {
        let fs = j->Obj_0;
        if str_opt_err(fs, "email"@, path) is Some {
            str_opt_err(fs, "email"@, path)
        } else if str_opt_err(fs, "password"@, path) is Some {
            str_opt_err(fs, "password"@, path)
        } else if str_opt_err(fs, "username"@, path) is Some {
            str_opt_err(fs, "username"@, path)
        } else if str_opt_err(fs, "bio"@, path) is Some {
            str_opt_err(fs, "bio"@, path)
        } else {
            str_opt_err(fs, "image"@, path)
        }
    }
}

pub open spec fn opt_text_matches(fs: Seq<JsonMemberSpec>, key: Seq<char>, o: Option<String>)
    -> bool {
    match o {
        Some(s) => spec_obj_get(fs, key) == Some(JsonSpec::Text(s@)),
        None => spec_obj_get(fs, key) is None,
    }
}

pub open spec fn update_user_ok(j: JsonSpec, m: UpdateUser) -> bool {
    &&& j is Obj
    &&& opt_text_matches(j->Obj_0, "email"@, m.email)
    &&& opt_text_matches(j->Obj_0, "password"@, m.password)
    &&& opt_text_matches(j->Obj_0, "username"@, m.username)
    &&& opt_text_matches(j->Obj_0, "bio"@, m.bio)
    &&& opt_text_matches(j->Obj_0, "image"@, m.image)
}

pub fn bind_update_user(v: &JsonValue, path: &str) -> (r: Result<UpdateUser, String>)
    ensures
        match r {
            Ok(m) => update_user_err(v@, path@) is None && update_user_ok(v@, m),
            Err(e) => update_user_err(v@, path@) == Some(e@),
        },
{
    match v {
        JsonValue::Obj(fields) => {
            proof {
                assert(v@ is Obj);
                assert(v@->Obj_0 =~= obj_view(fields@));
            }
            let email = match get_opt_str(fields, "email", path) {
                Ok(x) => x,
                Err(e) => return Err(e),
            };
            let password = match get_opt_str(fields, "password", path) {
                Ok(x) => x,
                Err(e) => return Err(e),
            };
            let username = match get_opt_str(fields, "username", path) {
                Ok(x) => x,
                Err(e) => return Err(e),
            };
            let bio = match get_opt_str(fields, "bio", path) {
                Ok(x) => x,
                Err(e) => return Err(e),
            };
            let image = match get_opt_str(fields, "image", path) {
                Ok(x) => x,
                Err(e) => return Err(e),
            };
            Ok(UpdateUser { email, password, username, bio, image })
        },
        _ => {
            let mut m = path.to_owned();
            m.append(" must be an object");
            Err(m)
        },
    }
}

/// Errors for a `NewComment` body.
pub open spec fn new_comment_err(j: JsonSpec, path: Seq<char>) -> Option<Seq<char>> {
    if !(j is Obj) {
        Some(path + " must be an object"@)
    } else {
        str_req_err(j->Obj_0, "body"@, path)
    }
}

pub open spec fn new_comment_ok(j: JsonSpec, m: NewComment) -> bool {
    &&& j is Obj
    &&& spec_obj_get(j->Obj_0, "body"@) == Some(JsonSpec::Text(m.body@))
}

pub fn bind_new_comment(v: &JsonValue, path: &str) -> (r: Result<NewComment, String>)
    ensures
        match r {
            Ok(m) => new_comment_err(v@, path@) is None && new_comment_ok(v@, m),
            Err(e) => new_comment_err(v@, path@) == Some(e@),
        },
{
    match v {
        JsonValue::Obj(fields) => {
            proof {
                assert(v@ is Obj);
                assert(v@->Obj_0 =~= obj_view(fields@));
            }
            let body = match get_req_str(fields, "body", path) {
                Ok(x) => x,
                Err(e) => return Err(e),
            };
            Ok(NewComment { body })
        },
        _ => {
            let mut m = path.to_owned();
            m.append(" must be an object");
            Err(m)
        },
    }
}

/// Errors for a `NewArticle` body, first in field order. An absent
/// `tagList` is not an error: it defaults to no list.
pub open spec fn new_article_err(j: JsonSpec, path: Seq<char>) -> Option<Seq<char>> {
    if !(j is Obj) {
        Some(path + " must be an object"@)
    } else {
        let fs = j->Obj_0;
        if str_req_err(fs, "title"@, path) is Some {
            str_req_err(fs, "title"@, path)
        } else if str_req_err(fs, "description"@, path) is Some {
            str_req_err(fs, "description"@, path)
        } else if str_req_err(fs, "body"@, path) is Some {
            str_req_err(fs, "body"@, path)
        } else {
            str_arr_opt_err(fs, "tagList"@, path)
        }
    }
}

pub open spec fn new_article_ok(j: JsonSpec, m: NewArticle) -> bool {
    &&& j is Obj
    &&& spec_obj_get(j->Obj_0, "title"@) == Some(JsonSpec::Text(m.title@))
    &&& spec_obj_get(j->Obj_0, "description"@) == Some(JsonSpec::Text(m.description@))
    &&& spec_obj_get(j->Obj_0, "body"@) == Some(JsonSpec::Text(m.body@))
    &&& match m.tag_list {
        Some(ts) => spec_obj_get(j->Obj_0, "tagList"@) == Some(JsonSpec::Arr(texts_of(ts@))),
        None => spec_obj_get(j->Obj_0, "tagList"@) is None,
    }
}

pub fn bind_new_article(v: &JsonValue, path: &str) -> (r: Result<NewArticle, String>)
    ensures
        match r {
            Ok(m) => new_article_err(v@, path@) is None && new_article_ok(v@, m),
            Err(e) => new_article_err(v@, path@) == Some(e@),
        },
{
    match v {
        JsonValue::Obj(fields) => {
            proof {
                assert(v@ is Obj);
                assert(v@->Obj_0 =~= obj_view(fields@));
            }
            let title = match get_req_str(fields, "title", path) {
                Ok(x) => x,
                Err(e) => return Err(e),
            };
            let description = match get_req_str(fields, "description", path) {
                Ok(x) => x,
                Err(e) => return Err(e),
            };
            let body = match get_req_str(fields, "body", path) {
                Ok(x) => x,
                Err(e) => return Err(e),
            };
            let tag_list = match get_opt_str_arr(fields, "tagList", path) {
                Ok(x) => x,
                Err(e) => return Err(e),
            };
            Ok(NewArticle { title, description, body, tag_list })
        },
        _ => {
            let mut m = path.to_owned();
            m.append(" must be an object");
            Err(m)
        },
    }
}

/// Errors for an `UpdateArticle` body, first in field order.
pub open spec fn update_article_err(j: JsonSpec, path: Seq<char>) -> Option<Seq<char>> {
    if !(j is Obj) {
        Some(path + " must be an object"@)
    } else {
        let fs = j->Obj_0;
        if str_opt_err(fs, "title"@, path) is Some {
            str_opt_err(fs, "title"@, path)
        } else if str_opt_err(fs, "description"@, path) is Some {
            str_opt_err(fs, "description"@, path)
        } else {
            str_opt_err(fs, "body"@, path)
        }
    }
}

pub open spec fn update_article_ok(j: JsonSpec, m: UpdateArticle) -> bool {
    &&& j is Obj
    &&& opt_text_matches(j->Obj_0, "title"@, m.title)
    &&& opt_text_matches(j->Obj_0, "description"@, m.description)
    &&& opt_text_matches(j->Obj_0, "body"@, m.body)
}

pub fn bind_update_article(v: &JsonValue, path: &str) -> (r: Result<UpdateArticle, String>)
    ensures
        match r {
            Ok(m) => update_article_err(v@, path@) is None && update_article_ok(v@, m),
            Err(e) => update_article_err(v@, path@) == Some(e@),
        },
{
    match v {
        JsonValue::Obj(fields) => {
            proof {
                assert(v@ is Obj);
                assert(v@->Obj_0 =~= obj_view(fields@));
            }
            let title = match get_opt_str(fields, "title", path) {
                Ok(x) => x,
                Err(e) => return Err(e),
            };
            let description = match get_opt_str(fields, "description", path) {
                Ok(x) => x,
                Err(e) => return Err(e),
            };
            let body = match get_opt_str(fields, "body", path) {
                Ok(x) => x,
                Err(e) => return Err(e),
            };
            Ok(UpdateArticle { title, description, body })
        },
        _ => {
            let mut m = path.to_owned();
            m.append(" must be an object");
            Err(m)
        },
    }
}

/// Errors for a `Profile` tree, first in field order.
pub open spec fn profile_err(j: JsonSpec, path: Seq<char>) -> Option<Seq<char>> {
    if !(j is Obj) {
        Some(path + " must be an object"@)
    } else {
        let fs = j->Obj_0;
        if str_req_err(fs, "username"@, path) is Some {
            str_req_err(fs, "username"@, path)
        } else if str_req_err(fs, "bio"@, path) is Some {
            str_req_err(fs, "bio"@, path)
        } else if str_req_err(fs, "image"@, path) is Some {
            str_req_err(fs, "image"@, path)
        } else {
            bool_req_err(fs, "following"@, path)
        }
    }
}

pub open spec fn profile_ok(j: JsonSpec, m: Profile) -> bool {
    &&& j is Obj
    &&& spec_obj_get(j->Obj_0, "username"@) == Some(JsonSpec::Text(m.username@))
    &&& spec_obj_get(j->Obj_0, "bio"@) == Some(JsonSpec::Text(m.bio@))
    &&& spec_obj_get(j->Obj_0, "image"@) == Some(JsonSpec::Text(m.image@))
    &&& spec_obj_get(j->Obj_0, "following"@) == Some(JsonSpec::Bool(m.following))
}

pub fn bind_profile(v: &JsonValue, path: &str) -> (r: Result<Profile, String>)
    ensures
        match r {
            Ok(m) => profile_err(v@, path@) is None && profile_ok(v@, m),
            Err(e) => profile_err(v@, path@) == Some(e@),
        },
{
    match v {
        JsonValue::Obj(fields) => {
            proof {
                assert(v@ is Obj);
                assert(v@->Obj_0 =~= obj_view(fields@));
            }
            let username = match get_req_str(fields, "username", path) {
                Ok(x) => x,
                Err(e) => return Err(e),
            };
            let bio = match get_req_str(fields, "bio", path) {
                Ok(x) => x,
                Err(e) => return Err(e),
            };
            let image = match get_req_str(fields, "image", path) {
                Ok(x) => x,
                Err(e) => return Err(e),
            };
            let following = match get_req_bool(fields, "following", path) {
                Ok(x) => x,
                Err(e) => return Err(e),
            };
            Ok(Profile { username, bio, image, following })
        },
        _ => {
            let mut m = path.to_owned();
            m.append(" must be an object");
            Err(m)
        },
    }
}

/// Errors for an `Article` tree, first in field order.
pub open spec fn article_err(j: JsonSpec, path: Seq<char>) -> Option<Seq<char>> {
    if !(j is Obj) {
        Some(path + " must be an object"@)
    } else {
        let fs = j->Obj_0;
        if str_req_err(fs, "slug"@, path) is Some {
            str_req_err(fs, "slug"@, path)
        } else if str_req_err(fs, "title"@, path) is Some {
            str_req_err(fs, "title"@, path)
        } else if str_req_err(fs, "description"@, path) is Some {
            str_req_err(fs, "description"@, path)
        } else if str_req_err(fs, "body"@, path) is Some {
            str_req_err(fs, "body"@, path)
        } else if str_arr_req_err(fs, "tagList"@, path) is Some {
            str_arr_req_err(fs, "tagList"@, path)
        } else if str_req_err(fs, "createdAt"@, path) is Some {
            str_req_err(fs, "createdAt"@, path)
        } else if str_req_err(fs, "updatedAt"@, path) is Some {
            str_req_err(fs, "updatedAt"@, path)
        } else if bool_req_err(fs, "favorited"@, path) is Some {
            bool_req_err(fs, "favorited"@, path)
        } else if int_req_err(fs, "favoritesCount"@, path) is Some {
            int_req_err(fs, "favoritesCount"@, path)
        } else {
            match spec_obj_get(fs, "author"@) {
                None => Some(fpath(path, "author"@) + " missing"@),
                Some(aj) => profile_err(aj, fpath(path, "author"@)),
            }
        }
    }
}

pub open spec fn article_ok(j: JsonSpec, m: Article) -> bool {
    &&& j is Obj
    &&& spec_obj_get(j->Obj_0, "slug"@) == Some(JsonSpec::Text(m.slug@))
    &&& spec_obj_get(j->Obj_0, "title"@) == Some(JsonSpec::Text(m.title@))
    &&& spec_obj_get(j->Obj_0, "description"@) == Some(JsonSpec::Text(m.description@))
    &&& spec_obj_get(j->Obj_0, "body"@) == Some(JsonSpec::Text(m.body@))
    &&& spec_obj_get(j->Obj_0, "tagList"@) == Some(JsonSpec::Arr(texts_of(m.tag_list@)))
    &&& spec_obj_get(j->Obj_0, "createdAt"@) == Some(JsonSpec::Text(m.created_at.text@))
    &&& spec_obj_get(j->Obj_0, "updatedAt"@) == Some(JsonSpec::Text(m.updated_at.text@))
    &&& spec_obj_get(j->Obj_0, "favorited"@) == Some(JsonSpec::Bool(m.favorited))
    &&& spec_obj_get(j->Obj_0, "favoritesCount"@) == Some(JsonSpec::Int(m.favorites_count as int))
    &&& (spec_obj_get(j->Obj_0, "author"@) matches Some(aj) && profile_ok(aj, m.author))
}

pub fn bind_article(v: &JsonValue, path: &str) -> (r: Result<Article, String>)
    ensures
        match r {
            Ok(m) => article_err(v@, path@) is None && article_ok(v@, m),
            Err(e) => article_err(v@, path@) == Some(e@),
        },
{
    match v {
        JsonValue::Obj(fields) => {
            proof {
                assert(v@ is Obj);
                assert(v@->Obj_0 =~= obj_view(fields@));
            }
            let slug = match get_req_str(fields, "slug", path) {
                Ok(x) => x,
                Err(e) => return Err(e),
            };
            let title = match get_req_str(fields, "title", path) {
                Ok(x) => x,
                Err(e) => return Err(e),
            };
            let description = match get_req_str(fields, "description", path) {
                Ok(x) => x,
                Err(e) => return Err(e),
            };
            let body = match get_req_str(fields, "body", path) {
                Ok(x) => x,
                Err(e) => return Err(e),
            };
            let tag_list = match get_req_str_arr(fields, "tagList", path) {
                Ok(x) => x,
                Err(e) => return Err(e),
            };
            let created_at = match get_req_str(fields, "createdAt", path) {
                Ok(x) => DateTime { text: x },
                Err(e) => return Err(e),
            };
            let updated_at = match get_req_str(fields, "updatedAt", path) {
                Ok(x) => DateTime { text: x },
                Err(e) => return Err(e),
            };
            let favorited = match get_req_bool(fields, "favorited", path) {
                Ok(x) => x,
                Err(e) => return Err(e),
            };
            let favorites_count = match get_req_i32(fields, "favoritesCount", path) {
                Ok(x) => x,
                Err(e) => return Err(e),
            };
            let author_path = field_path(path, "author");
            let author = match obj_get(fields, "author") {
                None => {
                    return Err(field_msg(path, "author", " missing"));
                },
                Some(av) => match bind_profile(av, author_path.as_str()) {
                    Ok(x) => x,
                    Err(e) => return Err(e),
                },
            };
            Ok(
                Article {
                    slug,
                    title,
                    description,
                    body,
                    tag_list,
                    created_at,
                    updated_at,
                    favorited,
                    favorites_count,
                    author,
                },
            )
        },
        _ => {
            let mut m = path.to_owned();
            m.append(" must be an object");
            Err(m)
        },
    }
}

/// Errors for a whole request body that wraps one named member.
pub open spec fn envelope_err(
    j: JsonSpec,
    key: Seq<char>,
    inner_err: Option<Seq<char>>,
    present: bool,
) -> Option<Seq<char>> {
    if !(j is Obj) {
        Some("body must be an object"@)
    } else if !present {
        Some(key + " missing"@)
    } else {
        inner_err
    }
}

pub open spec fn create_user_request_err(j: JsonSpec) -> Option<Seq<char>> {
    if !(j is Obj) {
        Some("body must be an object"@)
    } else {
        match spec_obj_get(j->Obj_0, "user"@) {
            None => Some("user missing"@),
            Some(uj) => new_user_err(uj, "user"@),
        }
    }
}

pub open spec fn create_user_request_ok(j: JsonSpec, m: CreateUserRequest) -> bool {
    &&& j is Obj
    &&& (spec_obj_get(j->Obj_0, "user"@) matches Some(uj) && new_user_ok(uj, m.user))
}

pub fn bind_create_user_request(v: &JsonValue) -> (r: Result<CreateUserRequest, String>)
    ensures
        match r {
            Ok(m) => create_user_request_err(v@) is None && create_user_request_ok(v@, m),
            Err(e) => create_user_request_err(v@) == Some(e@),
        },
{
    match v {
        JsonValue::Obj(fields) => {
            proof {
                assert(v@ is Obj);
                assert(v@->Obj_0 =~= obj_view(fields@));
            }
            match obj_get(fields, "user") {
                None => Err("user missing".to_owned()),
                Some(uv) => match bind_new_user(uv, "user") {
                    Ok(u) => Ok(CreateUserRequest { user: u }),
                    Err(e) => Err(e),
                },
            }
        },
        _ => Err("body must be an object".to_owned()),
    }
}

pub open spec fn login_request_err(j: JsonSpec) -> Option<Seq<char>> {
    if !(j is Obj) {
        Some("body must be an object"@)
    } else {
        match spec_obj_get(j->Obj_0, "user"@) {
            None => Some("user missing"@),
            Some(uj) => login_user_err(uj, "user"@),
        }
    }
}

pub open spec fn login_request_ok(j: JsonSpec, m: LoginRequest) -> bool {
    &&& j is Obj
    &&& (spec_obj_get(j->Obj_0, "user"@) matches Some(uj) && login_user_ok(uj, m.user))
}

pub fn bind_login_request(v: &JsonValue) -> (r: Result<LoginRequest, String>)
    ensures
        match r {
            Ok(m) => login_request_err(v@) is None && login_request_ok(v@, m),
            Err(e) => login_request_err(v@) == Some(e@),
        },
{
    match v {
        JsonValue::Obj(fields) => {
            proof {
                assert(v@ is Obj);
                assert(v@->Obj_0 =~= obj_view(fields@));
            }
            match obj_get(fields, "user") {
                None => Err("user missing".to_owned()),
                Some(uv) => match bind_login_user(uv, "user") {
                    Ok(u) => Ok(LoginRequest { user: u }),
                    Err(e) => Err(e),
                },
            }
        },
        _ => Err("body must be an object".to_owned()),
    }
}

pub open spec fn update_current_user_request_err(j: JsonSpec) -> Option<Seq<char>> {
    if !(j is Obj) {
        Some("body must be an object"@)
    } else {
        match spec_obj_get(j->Obj_0, "user"@) {
            None => Some("user missing"@),
            Some(uj) => update_user_err(uj, "user"@),
        }
    }
}

pub open spec fn update_current_user_request_ok(j: JsonSpec, m: UpdateCurrentUserRequest) -> bool {
    &&& j is Obj
    &&& (spec_obj_get(j->Obj_0, "user"@) matches Some(uj) && update_user_ok(uj, m.user))
}

pub fn bind_update_current_user_request(v: &JsonValue) -> (r: Result<
    UpdateCurrentUserRequest,
    String,
>)
    ensures
        match r {
            Ok(m) => update_current_user_request_err(v@) is None && update_current_user_request_ok(
                v@,
                m,
            ),
            Err(e) => update_current_user_request_err(v@) == Some(e@),
        },
{
    match v {
        JsonValue::Obj(fields) => {
            proof {
                assert(v@ is Obj);
                assert(v@->Obj_0 =~= obj_view(fields@));
            }
            match obj_get(fields, "user") {
                None => Err("user missing".to_owned()),
                Some(uv) => match bind_update_user(uv, "user") {
                    Ok(u) => Ok(UpdateCurrentUserRequest { user: u }),
                    Err(e) => Err(e),
                },
            }
        },
        _ => Err("body must be an object".to_owned()),
    }
}

pub open spec fn create_article_request_err(j: JsonSpec) -> Option<Seq<char>> {
    if !(j is Obj) {
        Some("body must be an object"@)
    } else {
        match spec_obj_get(j->Obj_0, "article"@) {
            None => Some("article missing"@),
            Some(aj) => new_article_err(aj, "article"@),
        }
    }
}

pub open spec fn create_article_request_ok(j: JsonSpec, m: CreateArticleRequest) -> bool {
    &&& j is Obj
    &&& (spec_obj_get(j->Obj_0, "article"@) matches Some(aj) && new_article_ok(aj, m.article))
}

pub fn bind_create_article_request(v: &JsonValue) -> (r: Result<CreateArticleRequest, String>)
    ensures
        match r {
            Ok(m) => create_article_request_err(v@) is None && create_article_request_ok(v@, m),
            Err(e) => create_article_request_err(v@) == Some(e@),
        },
{
    match v {
        JsonValue::Obj(fields) => {
            proof {
                assert(v@ is Obj);
                assert(v@->Obj_0 =~= obj_view(fields@));
            }
            match obj_get(fields, "article") {
                None => Err("article missing".to_owned()),
                Some(av) => match bind_new_article(av, "article") {
                    Ok(a) => Ok(CreateArticleRequest { article: a }),
                    Err(e) => Err(e),
                },
            }
        },
        _ => Err("body must be an object".to_owned()),
    }
}

pub open spec fn update_article_request_err(j: JsonSpec) -> Option<Seq<char>> {
    if !(j is Obj) {
        Some("body must be an object"@)
    } else {
        match spec_obj_get(j->Obj_0, "article"@) {
            None => Some("article missing"@),
            Some(aj) => update_article_err(aj, "article"@),
        }
    }
}

pub open spec fn update_article_request_ok(j: JsonSpec, m: UpdateArticleRequest) -> bool {
    &&& j is Obj
    &&& (spec_obj_get(j->Obj_0, "article"@) matches Some(aj) && update_article_ok(aj, m.article))
}

pub fn bind_update_article_request(v: &JsonValue) -> (r: Result<UpdateArticleRequest, String>)
    ensures
        match r {
            Ok(m) => update_article_request_err(v@) is None && update_article_request_ok(v@, m),
            Err(e) => update_article_request_err(v@) == Some(e@),
        },
{
    match v {
        JsonValue::Obj(fields) => {
            proof {
                assert(v@ is Obj);
                assert(v@->Obj_0 =~= obj_view(fields@));
            }
            match obj_get(fields, "article") {
                None => Err("article missing".to_owned()),
                Some(av) => match bind_update_article(av, "article") {
                    Ok(a) => Ok(UpdateArticleRequest { article: a }),
                    Err(e) => Err(e),
                },
            }
        },
        _ => Err("body must be an object".to_owned()),
    }
}

pub open spec fn create_article_comment_request_err(j: JsonSpec) -> Option<Seq<char>> {
    if !(j is Obj) {
        Some("body must be an object"@)
    } else {
        match spec_obj_get(j->Obj_0, "comment"@) {
            None => Some("comment missing"@),
            Some(cj) => new_comment_err(cj, "comment"@),
        }
    }
}

pub open spec fn create_article_comment_request_ok(j: JsonSpec, m: CreateArticleCommentRequest)
    -> bool {
    &&& j is Obj
    &&& (spec_obj_get(j->Obj_0, "comment"@) matches Some(cj) && new_comment_ok(cj, m.comment))
}

pub fn bind_create_article_comment_request(v: &JsonValue) -> (r: Result<
    CreateArticleCommentRequest,
    String,
>)
    ensures
        match r {
            Ok(m) => create_article_comment_request_err(v@) is None
                && create_article_comment_request_ok(v@, m),
            Err(e) => create_article_comment_request_err(v@) == Some(e@),
        },
{
    match v {
        JsonValue::Obj(fields) => {
            proof {
                assert(v@ is Obj);
                assert(v@->Obj_0 =~= obj_view(fields@));
            }
            match obj_get(fields, "comment") {
                None => Err("comment missing".to_owned()),
                Some(cv) => match bind_new_comment(cv, "comment") {
                    Ok(c) => Ok(CreateArticleCommentRequest { comment: c }),
                    Err(e) => Err(e),
                },
            }
        },
        _ => Err("body must be an object".to_owned()),
    }
}

pub open spec fn create_article_201_err(j: JsonSpec) -> Option<Seq<char>> {
    if !(j is Obj) {
        Some("body must be an object"@)
    } else {
        match spec_obj_get(j->Obj_0, "article"@) {
            None => Some("article missing"@),
            Some(aj) => article_err(aj, "article"@),
        }
    }
}

pub open spec fn create_article_201_ok(j: JsonSpec, m: CreateArticle201Response) -> bool {
    &&& j is Obj
    &&& (spec_obj_get(j->Obj_0, "article"@) matches Some(aj) && article_ok(aj, m.article))
}

/// Decodes a created-article response envelope back into its model; with the
/// exact builder specs this closes the round trip over the wire format.
pub fn bind_create_article_201(v: &JsonValue) -> (r: Result<CreateArticle201Response, String>)
    ensures
        match r {
            Ok(m) => create_article_201_err(v@) is None && create_article_201_ok(v@, m),
            Err(e) => create_article_201_err(v@) == Some(e@),
        },
{
    match v {
        JsonValue::Obj(fields) => {
            proof {
                assert(v@ is Obj);
                assert(v@->Obj_0 =~= obj_view(fields@));
            }
            match obj_get(fields, "article") {
                None => Err("article missing".to_owned()),
                Some(av) => match bind_article(av, "article") {
                    Ok(a) => Ok(CreateArticle201Response { article: a }),
                    Err(e) => Err(e),
                },
            }
        },
        _ => Err("body must be an object".to_owned()),
    }
}

} // verus!
