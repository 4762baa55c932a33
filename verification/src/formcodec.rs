//! The form-string codec of each model: the encoding of its scalar fields
//! in declaration order, and the exact scan of such a text back into the
//! model. A field holding a list or a nested model cannot be carried in
//! this style: encoding writes a string list joined by commas and skips a
//! nested model, and decoding rejects the key.

use vstd::prelude::*;
use crate::form::{
    item_bool, item_i32, item_list, item_opt_list, item_opt_str, item_str, join_all,
    join_items, missing_msg, mk_item, scan_form, slots_view, spec_scan_form, strs_view,
    FieldKind, FormField, FormVal, FormValSpec,
};
use crate::models::{
    Article, Comment, CreateArticle201Response, CreateArticleComment200Response,
    CreateArticleCommentRequest, CreateArticleRequest, CreateUserRequest, DateTime,
    GenericErrorModel, GenericErrorModelErrors, GetArticleComments200Response,
    GetArticlesFeed200Response, GetArticlesFeed200ResponseArticlesInner,
    GetProfileByUsername200Response, GetTags200Response, Login200Response, LoginRequest,
    LoginUser, NewArticle, NewComment, NewUser, Profile, UpdateArticle, UpdateArticleRequest,
    UpdateCurrentUserRequest, UpdateUser, User,
};
use crate::text::{bool_to_text, i32_to_dec};

verus! {

/// The form-encoding entries of an `Article`.
pub open spec fn article_form_items(m: Article) -> Seq<Seq<char>> {
    item_str("slug"@, m.slug@) + item_str("title"@, m.title@) + item_str("description"@, m.description@) + item_str("body"@, m.body@) + item_list("tagList"@, m.tag_list@) + item_bool("favorited"@, m.favorited) + item_i32("favoritesCount"@, m.favorites_count)
}

/// The form encoding of an `Article`.
pub open spec fn article_form(m: Article) -> Seq<char> {
    join_all(article_form_items(m))
}

/// The field schema the scan of an `Article` uses.
pub open spec fn is_article_schema(schema: Seq<FormField>) -> bool {
    &&& schema.len() == 10
    &&& schema[0].key@ == "slug"@ && schema[0].kind is KString
    &&& schema[1].key@ == "title"@ && schema[1].kind is KString
    &&& schema[2].key@ == "description"@ && schema[2].kind is KString
    &&& schema[3].key@ == "body"@ && schema[3].kind is KString
    &&& schema[4].key@ == "tagList"@ && schema[4].kind is KList
    &&& schema[5].key@ == "createdAt"@ && schema[5].kind is KDateTime
    &&& schema[6].key@ == "updatedAt"@ && schema[6].kind is KDateTime
    &&& schema[7].key@ == "favorited"@ && schema[7].kind is KBool
    &&& schema[8].key@ == "favoritesCount"@ && schema[8].kind is KI32
    &&& schema[9].key@ == "author"@ && schema[9].kind is KNested
}

/// The first required field a scanned `Article` text left unset.
pub open spec fn article_form_missing(slots: Seq<Option<FormValSpec>>) -> Option<Seq<char>> {
    if !(slots[0] matches Some(FormValSpec::VText(_))) {
        Some("slug"@ + " missing in "@ + "Article"@)
    } else if !(slots[1] matches Some(FormValSpec::VText(_))) {
        Some("title"@ + " missing in "@ + "Article"@)
    } else if !(slots[2] matches Some(FormValSpec::VText(_))) {
        Some("description"@ + " missing in "@ + "Article"@)
    } else if !(slots[3] matches Some(FormValSpec::VText(_))) {
        Some("body"@ + " missing in "@ + "Article"@)
    } else if !(false) {
        Some("tagList"@ + " missing in "@ + "Article"@)
    } else if !(slots[5] matches Some(FormValSpec::VStamp(_))) {
        Some("createdAt"@ + " missing in "@ + "Article"@)
    } else if !(slots[6] matches Some(FormValSpec::VStamp(_))) {
        Some("updatedAt"@ + " missing in "@ + "Article"@)
    } else if !(slots[7] matches Some(FormValSpec::VFlag(_))) {
        Some("favorited"@ + " missing in "@ + "Article"@)
    } else if !(slots[8] matches Some(FormValSpec::VNum(_))) {
        Some("favoritesCount"@ + " missing in "@ + "Article"@)
    } else if !(false) {
        Some("author"@ + " missing in "@ + "Article"@)
    } else {
        None
    }
}

/// How a successful scan's slots pin the model.
pub open spec fn article_form_ok(slots: Seq<Option<FormValSpec>>, m: Article) -> bool {
    &&& slots[0] == Some(FormValSpec::VText(m.slug@))
    &&& slots[1] == Some(FormValSpec::VText(m.title@))
    &&& slots[2] == Some(FormValSpec::VText(m.description@))
    &&& slots[3] == Some(FormValSpec::VText(m.body@))
    &&& slots[5] == Some(FormValSpec::VStamp(m.created_at.text@))
    &&& slots[6] == Some(FormValSpec::VStamp(m.updated_at.text@))
    &&& slots[7] == Some(FormValSpec::VFlag(m.favorited))
    &&& slots[8] == Some(FormValSpec::VNum(m.favorites_count))
}

impl Article {
    /// Writes the form encoding; exactly `article_form`.
    pub fn to_form_string(&self) -> (r: String)
        ensures
            r@ == article_form(*self),
    {
        let mut items: Vec<String> = Vec::new();
        items.push(mk_item("slug", self.slug.as_str()));
        proof {
            assert(strs_view(items@) =~= item_str("slug"@, self.slug@));
        }
        items.push(mk_item("title", self.title.as_str()));
        proof {
            assert(strs_view(items@) =~= item_str("slug"@, self.slug@) + item_str("title"@, self.title@));
        }
        items.push(mk_item("description", self.description.as_str()));
        proof {
            assert(strs_view(items@) =~= item_str("slug"@, self.slug@) + item_str("title"@, self.title@) + item_str("description"@, self.description@));
        }
        items.push(mk_item("body", self.body.as_str()));
        proof {
            assert(strs_view(items@) =~= item_str("slug"@, self.slug@) + item_str("title"@, self.title@) + item_str("description"@, self.description@) + item_str("body"@, self.body@));
        }
        let joined_tag_list = join_items(&self.tag_list);
        items.push(mk_item("tagList", joined_tag_list.as_str()));
        proof {
            assert(strs_view(items@) =~= item_str("slug"@, self.slug@) + item_str("title"@, self.title@) + item_str("description"@, self.description@) + item_str("body"@, self.body@) + item_list("tagList"@, self.tag_list@));
        }
        items.push(mk_item("favorited", bool_to_text(self.favorited).as_str()));
        proof {
            assert(strs_view(items@) =~= item_str("slug"@, self.slug@) + item_str("title"@, self.title@) + item_str("description"@, self.description@) + item_str("body"@, self.body@) + item_list("tagList"@, self.tag_list@) + item_bool("favorited"@, self.favorited));
        }
        items.push(mk_item("favoritesCount", i32_to_dec(self.favorites_count).as_str()));
        proof {
            assert(strs_view(items@) =~= item_str("slug"@, self.slug@) + item_str("title"@, self.title@) + item_str("description"@, self.description@) + item_str("body"@, self.body@) + item_list("tagList"@, self.tag_list@) + item_bool("favorited"@, self.favorited) + item_i32("favoritesCount"@, self.favorites_count));
        }
        join_items(&items)
    }

    /// Reads the form encoding back; exact against the scan of the
    /// field schema, a required field's absence reported by its key.
    pub fn from_form_str(s: &str) -> (r: Result<Article, String>)
        ensures
            match r {
                Ok(m) => exists|schema: Seq<FormField>|
                    {
                        &&& #[trigger] is_article_schema(schema)
                        &&& spec_scan_form(s@, schema, "Article"@) matches Ok(slots)
                        &&& article_form_missing(spec_scan_form(s@, schema, "Article"@)->Ok_0)
                            is None
                        &&& article_form_ok(spec_scan_form(s@, schema, "Article"@)->Ok_0, m)
                    },
                Err(e) => exists|schema: Seq<FormField>|
                    {
                        &&& #[trigger] is_article_schema(schema)
                        &&& match spec_scan_form(s@, schema, "Article"@) {
                            Err(e2) => e@ == e2,
                            Ok(slots) => article_form_missing(slots) == Some(e@),
                        }
                    },
            },
    {
        let mut schema: Vec<FormField> = Vec::new();
        schema.push(FormField { key: "slug".to_owned(), kind: FieldKind::KString });
        schema.push(FormField { key: "title".to_owned(), kind: FieldKind::KString });
        schema.push(FormField { key: "description".to_owned(), kind: FieldKind::KString });
        schema.push(FormField { key: "body".to_owned(), kind: FieldKind::KString });
        schema.push(FormField { key: "tagList".to_owned(), kind: FieldKind::KList });
        schema.push(FormField { key: "createdAt".to_owned(), kind: FieldKind::KDateTime });
        schema.push(FormField { key: "updatedAt".to_owned(), kind: FieldKind::KDateTime });
        schema.push(FormField { key: "favorited".to_owned(), kind: FieldKind::KBool });
        schema.push(FormField { key: "favoritesCount".to_owned(), kind: FieldKind::KI32 });
        schema.push(FormField { key: "author".to_owned(), kind: FieldKind::KNested });
        proof {
            assert(is_article_schema(schema@));
        }
        let slots = match scan_form(s, &schema, "Article") {
            Ok(x) => x,
            Err(e) => {
                return Err(e);
            },
        };
        let ghost sl = slots_view(slots@);
        let slug = match &slots[0] {
            Some(FormVal::VText(v)) => v.clone(),
            _ => {
                proof {
                    assert(!(sl[0] matches Some(FormValSpec::VText(_))));
                }
                return Err(missing_msg("slug", "Article"));
            },
        };
        proof {
            assert(sl[0] == Some(FormValSpec::VText(slug@)));
        }
        let title = match &slots[1] {
            Some(FormVal::VText(v)) => v.clone(),
            _ => {
                proof {
                    assert(!(sl[1] matches Some(FormValSpec::VText(_))));
                }
                return Err(missing_msg("title", "Article"));
            },
        };
        proof {
            assert(sl[1] == Some(FormValSpec::VText(title@)));
        }
        let description = match &slots[2] {
            Some(FormVal::VText(v)) => v.clone(),
            _ => {
                proof {
                    assert(!(sl[2] matches Some(FormValSpec::VText(_))));
                }
                return Err(missing_msg("description", "Article"));
            },
        };
        proof {
            assert(sl[2] == Some(FormValSpec::VText(description@)));
        }
        let body = match &slots[3] {
            Some(FormVal::VText(v)) => v.clone(),
            _ => {
                proof {
                    assert(!(sl[3] matches Some(FormValSpec::VText(_))));
                }
                return Err(missing_msg("body", "Article"));
            },
        };
        proof {
            assert(sl[3] == Some(FormValSpec::VText(body@)));
        }
        return Err(missing_msg("tagList", "Article"));

    }
}

/// The form-encoding entries of a `Comment`.
pub open spec fn comment_form_items(m: Comment) -> Seq<Seq<char>> {
    item_i32("id"@, m.id) + item_str("body"@, m.body@)
}

/// The form encoding of a `Comment`.
pub open spec fn comment_form(m: Comment) -> Seq<char> {
    join_all(comment_form_items(m))
}

/// The field schema the scan of a `Comment` uses.
pub open spec fn is_comment_schema(schema: Seq<FormField>) -> bool {
    &&& schema.len() == 5
    &&& schema[0].key@ == "id"@ && schema[0].kind is KI32
    &&& schema[1].key@ == "createdAt"@ && schema[1].kind is KDateTime
    &&& schema[2].key@ == "updatedAt"@ && schema[2].kind is KDateTime
    &&& schema[3].key@ == "body"@ && schema[3].kind is KString
    &&& schema[4].key@ == "author"@ && schema[4].kind is KNested
}

/// The first required field a scanned `Comment` text left unset.
pub open spec fn comment_form_missing(slots: Seq<Option<FormValSpec>>) -> Option<Seq<char>> {
    if !(slots[0] matches Some(FormValSpec::VNum(_))) {
        Some("id"@ + " missing in "@ + "Comment"@)
    } else if !(slots[1] matches Some(FormValSpec::VStamp(_))) {
        Some("createdAt"@ + " missing in "@ + "Comment"@)
    } else if !(slots[2] matches Some(FormValSpec::VStamp(_))) {
        Some("updatedAt"@ + " missing in "@ + "Comment"@)
    } else if !(slots[3] matches Some(FormValSpec::VText(_))) {
        Some("body"@ + " missing in "@ + "Comment"@)
    } else if !(false) {
        Some("author"@ + " missing in "@ + "Comment"@)
    } else {
        None
    }
}

/// How a successful scan's slots pin the model.
pub open spec fn comment_form_ok(slots: Seq<Option<FormValSpec>>, m: Comment) -> bool {
    &&& slots[0] == Some(FormValSpec::VNum(m.id))
    &&& slots[1] == Some(FormValSpec::VStamp(m.created_at.text@))
    &&& slots[2] == Some(FormValSpec::VStamp(m.updated_at.text@))
    &&& slots[3] == Some(FormValSpec::VText(m.body@))
}

impl Comment {
    /// Writes the form encoding; exactly `comment_form`.
    pub fn to_form_string(&self) -> (r: String)
        ensures
            r@ == comment_form(*self),
    {
        let mut items: Vec<String> = Vec::new();
        items.push(mk_item("id", i32_to_dec(self.id).as_str()));
        proof {
            assert(strs_view(items@) =~= item_i32("id"@, self.id));
        }
        items.push(mk_item("body", self.body.as_str()));
        proof {
            assert(strs_view(items@) =~= item_i32("id"@, self.id) + item_str("body"@, self.body@));
        }
        join_items(&items)
    }

    /// Reads the form encoding back; exact against the scan of the
    /// field schema, a required field's absence reported by its key.
    pub fn from_form_str(s: &str) -> (r: Result<Comment, String>)
        ensures
            match r {
                Ok(m) => exists|schema: Seq<FormField>|
                    {
                        &&& #[trigger] is_comment_schema(schema)
                        &&& spec_scan_form(s@, schema, "Comment"@) matches Ok(slots)
                        &&& comment_form_missing(spec_scan_form(s@, schema, "Comment"@)->Ok_0)
                            is None
                        &&& comment_form_ok(spec_scan_form(s@, schema, "Comment"@)->Ok_0, m)
                    },
                Err(e) => exists|schema: Seq<FormField>|
                    {
                        &&& #[trigger] is_comment_schema(schema)
                        &&& match spec_scan_form(s@, schema, "Comment"@) {
                            Err(e2) => e@ == e2,
                            Ok(slots) => comment_form_missing(slots) == Some(e@),
                        }
                    },
            },
    {
        let mut schema: Vec<FormField> = Vec::new();
        schema.push(FormField { key: "id".to_owned(), kind: FieldKind::KI32 });
        schema.push(FormField { key: "createdAt".to_owned(), kind: FieldKind::KDateTime });
        schema.push(FormField { key: "updatedAt".to_owned(), kind: FieldKind::KDateTime });
        schema.push(FormField { key: "body".to_owned(), kind: FieldKind::KString });
        schema.push(FormField { key: "author".to_owned(), kind: FieldKind::KNested });
        proof {
            assert(is_comment_schema(schema@));
        }
        let slots = match scan_form(s, &schema, "Comment") {
            Ok(x) => x,
            Err(e) => {
                return Err(e);
            },
        };
        let ghost sl = slots_view(slots@);
        let id = match &slots[0] {
            Some(FormVal::VNum(n)) => *n,
            _ => {
                proof {
                    assert(!(sl[0] matches Some(FormValSpec::VNum(_))));
                }
                return Err(missing_msg("id", "Comment"));
            },
        };
        proof {
            assert(sl[0] == Some(FormValSpec::VNum(id)));
        }
        let created_at = match &slots[1] {
            Some(FormVal::VStamp(d)) => DateTime { text: d.text.clone() },
            _ => {
                proof {
                    assert(!(sl[1] matches Some(FormValSpec::VStamp(_))));
                }
                return Err(missing_msg("createdAt", "Comment"));
            },
        };
        proof {
            assert(sl[1] == Some(FormValSpec::VStamp(created_at.text@)));
        }
        let updated_at = match &slots[2] {
            Some(FormVal::VStamp(d)) => DateTime { text: d.text.clone() },
            _ => {
                proof {
                    assert(!(sl[2] matches Some(FormValSpec::VStamp(_))));
                }
                return Err(missing_msg("updatedAt", "Comment"));
            },
        };
        proof {
            assert(sl[2] == Some(FormValSpec::VStamp(updated_at.text@)));
        }
        let body = match &slots[3] {
            Some(FormVal::VText(v)) => v.clone(),
            _ => {
                proof {
                    assert(!(sl[3] matches Some(FormValSpec::VText(_))));
                }
                return Err(missing_msg("body", "Comment"));
            },
        };
        proof {
            assert(sl[3] == Some(FormValSpec::VText(body@)));
        }
        return Err(missing_msg("author", "Comment"));

    }
}

/// The form-encoding entries of a `CreateArticle201Response`.
pub open spec fn create_article201_response_form_items(m: CreateArticle201Response) -> Seq<Seq<char>> {
    Seq::empty()
}

/// The form encoding of a `CreateArticle201Response`.
pub open spec fn create_article201_response_form(m: CreateArticle201Response) -> Seq<char> {
    join_all(create_article201_response_form_items(m))
}

/// The field schema the scan of a `CreateArticle201Response` uses.
pub open spec fn is_create_article201_response_schema(schema: Seq<FormField>) -> bool {
    &&& schema.len() == 1
    &&& schema[0].key@ == "article"@ && schema[0].kind is KNested
}

/// The first required field a scanned `CreateArticle201Response` text left unset.
pub open spec fn create_article201_response_form_missing(slots: Seq<Option<FormValSpec>>) -> Option<Seq<char>> {
    if !(false) {
        Some("article"@ + " missing in "@ + "CreateArticle201Response"@)
    } else {
        None
    }
}

/// How a successful scan's slots pin the model.
pub open spec fn create_article201_response_form_ok(slots: Seq<Option<FormValSpec>>, m: CreateArticle201Response) -> bool {
    true
}

impl CreateArticle201Response {
    /// Writes the form encoding; exactly `create_article201_response_form`.
    pub fn to_form_string(&self) -> (r: String)
        ensures
            r@ == create_article201_response_form(*self),
    {
        let mut items: Vec<String> = Vec::new();
        proof {
            assert(strs_view(items@) =~= Seq::<Seq<char>>::empty());
        }
        join_items(&items)
    }

    /// Reads the form encoding back; exact against the scan of the
    /// field schema, a required field's absence reported by its key.
    pub fn from_form_str(s: &str) -> (r: Result<CreateArticle201Response, String>)
        ensures
            match r {
                Ok(m) => exists|schema: Seq<FormField>|
                    {
                        &&& #[trigger] is_create_article201_response_schema(schema)
                        &&& spec_scan_form(s@, schema, "CreateArticle201Response"@) matches Ok(slots)
                        &&& create_article201_response_form_missing(spec_scan_form(s@, schema, "CreateArticle201Response"@)->Ok_0)
                            is None
                        &&& create_article201_response_form_ok(spec_scan_form(s@, schema, "CreateArticle201Response"@)->Ok_0, m)
                    },
                Err(e) => exists|schema: Seq<FormField>|
                    {
                        &&& #[trigger] is_create_article201_response_schema(schema)
                        &&& match spec_scan_form(s@, schema, "CreateArticle201Response"@) {
                            Err(e2) => e@ == e2,
                            Ok(slots) => create_article201_response_form_missing(slots) == Some(e@),
                        }
                    },
            },
    {
        let mut schema: Vec<FormField> = Vec::new();
        schema.push(FormField { key: "article".to_owned(), kind: FieldKind::KNested });
        proof {
            assert(is_create_article201_response_schema(schema@));
        }
        let slots = match scan_form(s, &schema, "CreateArticle201Response") {
            Ok(x) => x,
            Err(e) => {
                return Err(e);
            },
        };
        let ghost sl = slots_view(slots@);
        return Err(missing_msg("article", "CreateArticle201Response"));

    }
}

/// The form-encoding entries of a `CreateArticleComment200Response`.
pub open spec fn create_article_comment200_response_form_items(m: CreateArticleComment200Response) -> Seq<Seq<char>> {
    Seq::empty()
}

/// The form encoding of a `CreateArticleComment200Response`.
pub open spec fn create_article_comment200_response_form(m: CreateArticleComment200Response) -> Seq<char> {
    join_all(create_article_comment200_response_form_items(m))
}

/// The field schema the scan of a `CreateArticleComment200Response` uses.
pub open spec fn is_create_article_comment200_response_schema(schema: Seq<FormField>) -> bool {
    &&& schema.len() == 1
    &&& schema[0].key@ == "comment"@ && schema[0].kind is KNested
}

/// The first required field a scanned `CreateArticleComment200Response` text left unset.
pub open spec fn create_article_comment200_response_form_missing(slots: Seq<Option<FormValSpec>>) -> Option<Seq<char>> {
    if !(false) {
        Some("comment"@ + " missing in "@ + "CreateArticleComment200Response"@)
    } else {
        None
    }
}

/// How a successful scan's slots pin the model.
pub open spec fn create_article_comment200_response_form_ok(slots: Seq<Option<FormValSpec>>, m: CreateArticleComment200Response) -> bool {
    true
}

impl CreateArticleComment200Response {
    /// Writes the form encoding; exactly `create_article_comment200_response_form`.
    pub fn to_form_string(&self) -> (r: String)
        ensures
            r@ == create_article_comment200_response_form(*self),
    {
        let mut items: Vec<String> = Vec::new();
        proof {
            assert(strs_view(items@) =~= Seq::<Seq<char>>::empty());
        }
        join_items(&items)
    }

    /// Reads the form encoding back; exact against the scan of the
    /// field schema, a required field's absence reported by its key.
    pub fn from_form_str(s: &str) -> (r: Result<CreateArticleComment200Response, String>)
        ensures
            match r {
                Ok(m) => exists|schema: Seq<FormField>|
                    {
                        &&& #[trigger] is_create_article_comment200_response_schema(schema)
                        &&& spec_scan_form(s@, schema, "CreateArticleComment200Response"@) matches Ok(slots)
                        &&& create_article_comment200_response_form_missing(spec_scan_form(s@, schema, "CreateArticleComment200Response"@)->Ok_0)
                            is None
                        &&& create_article_comment200_response_form_ok(spec_scan_form(s@, schema, "CreateArticleComment200Response"@)->Ok_0, m)
                    },
                Err(e) => exists|schema: Seq<FormField>|
                    {
                        &&& #[trigger] is_create_article_comment200_response_schema(schema)
                        &&& match spec_scan_form(s@, schema, "CreateArticleComment200Response"@) {
                            Err(e2) => e@ == e2,
                            Ok(slots) => create_article_comment200_response_form_missing(slots) == Some(e@),
                        }
                    },
            },
    {
        let mut schema: Vec<FormField> = Vec::new();
        schema.push(FormField { key: "comment".to_owned(), kind: FieldKind::KNested });
        proof {
            assert(is_create_article_comment200_response_schema(schema@));
        }
        let slots = match scan_form(s, &schema, "CreateArticleComment200Response") {
            Ok(x) => x,
            Err(e) => {
                return Err(e);
            },
        };
        let ghost sl = slots_view(slots@);
        return Err(missing_msg("comment", "CreateArticleComment200Response"));

    }
}

/// The form-encoding entries of a `CreateArticleCommentRequest`.
pub open spec fn create_article_comment_request_form_items(m: CreateArticleCommentRequest) -> Seq<Seq<char>> {
    Seq::empty()
}

/// The form encoding of a `CreateArticleCommentRequest`.
pub open spec fn create_article_comment_request_form(m: CreateArticleCommentRequest) -> Seq<char> {
    join_all(create_article_comment_request_form_items(m))
}

/// The field schema the scan of a `CreateArticleCommentRequest` uses.
pub open spec fn is_create_article_comment_request_schema(schema: Seq<FormField>) -> bool {
    &&& schema.len() == 1
    &&& schema[0].key@ == "comment"@ && schema[0].kind is KNested
}

/// The first required field a scanned `CreateArticleCommentRequest` text left unset.
pub open spec fn create_article_comment_request_form_missing(slots: Seq<Option<FormValSpec>>) -> Option<Seq<char>> {
    if !(false) {
        Some("comment"@ + " missing in "@ + "CreateArticleCommentRequest"@)
    } else {
        None
    }
}

/// How a successful scan's slots pin the model.
pub open spec fn create_article_comment_request_form_ok(slots: Seq<Option<FormValSpec>>, m: CreateArticleCommentRequest) -> bool {
    true
}

impl CreateArticleCommentRequest {
    /// Writes the form encoding; exactly `create_article_comment_request_form`.
    pub fn to_form_string(&self) -> (r: String)
        ensures
            r@ == create_article_comment_request_form(*self),
    {
        let mut items: Vec<String> = Vec::new();
        proof {
            assert(strs_view(items@) =~= Seq::<Seq<char>>::empty());
        }
        join_items(&items)
    }

    /// Reads the form encoding back; exact against the scan of the
    /// field schema, a required field's absence reported by its key.
    pub fn from_form_str(s: &str) -> (r: Result<CreateArticleCommentRequest, String>)
        ensures
            match r {
                Ok(m) => exists|schema: Seq<FormField>|
                    {
                        &&& #[trigger] is_create_article_comment_request_schema(schema)
                        &&& spec_scan_form(s@, schema, "CreateArticleCommentRequest"@) matches Ok(slots)
                        &&& create_article_comment_request_form_missing(spec_scan_form(s@, schema, "CreateArticleCommentRequest"@)->Ok_0)
                            is None
                        &&& create_article_comment_request_form_ok(spec_scan_form(s@, schema, "CreateArticleCommentRequest"@)->Ok_0, m)
                    },
                Err(e) => exists|schema: Seq<FormField>|
                    {
                        &&& #[trigger] is_create_article_comment_request_schema(schema)
                        &&& match spec_scan_form(s@, schema, "CreateArticleCommentRequest"@) {
                            Err(e2) => e@ == e2,
                            Ok(slots) => create_article_comment_request_form_missing(slots) == Some(e@),
                        }
                    },
            },
    {
        let mut schema: Vec<FormField> = Vec::new();
        schema.push(FormField { key: "comment".to_owned(), kind: FieldKind::KNested });
        proof {
            assert(is_create_article_comment_request_schema(schema@));
        }
        let slots = match scan_form(s, &schema, "CreateArticleCommentRequest") {
            Ok(x) => x,
            Err(e) => {
                return Err(e);
            },
        };
        let ghost sl = slots_view(slots@);
        return Err(missing_msg("comment", "CreateArticleCommentRequest"));

    }
}

/// The form-encoding entries of a `CreateArticleRequest`.
pub open spec fn create_article_request_form_items(m: CreateArticleRequest) -> Seq<Seq<char>> {
    Seq::empty()
}

/// The form encoding of a `CreateArticleRequest`.
pub open spec fn create_article_request_form(m: CreateArticleRequest) -> Seq<char> {
    join_all(create_article_request_form_items(m))
}

/// The field schema the scan of a `CreateArticleRequest` uses.
pub open spec fn is_create_article_request_schema(schema: Seq<FormField>) -> bool {
    &&& schema.len() == 1
    &&& schema[0].key@ == "article"@ && schema[0].kind is KNested
}

/// The first required field a scanned `CreateArticleRequest` text left unset.
pub open spec fn create_article_request_form_missing(slots: Seq<Option<FormValSpec>>) -> Option<Seq<char>> {
    if !(false) {
        Some("article"@ + " missing in "@ + "CreateArticleRequest"@)
    } else {
        None
    }
}

/// How a successful scan's slots pin the model.
pub open spec fn create_article_request_form_ok(slots: Seq<Option<FormValSpec>>, m: CreateArticleRequest) -> bool {
    true
}

impl CreateArticleRequest {
    /// Writes the form encoding; exactly `create_article_request_form`.
    pub fn to_form_string(&self) -> (r: String)
        ensures
            r@ == create_article_request_form(*self),
    {
        let mut items: Vec<String> = Vec::new();
        proof {
            assert(strs_view(items@) =~= Seq::<Seq<char>>::empty());
        }
        join_items(&items)
    }

    /// Reads the form encoding back; exact against the scan of the
    /// field schema, a required field's absence reported by its key.
    pub fn from_form_str(s: &str) -> (r: Result<CreateArticleRequest, String>)
        ensures
            match r {
                Ok(m) => exists|schema: Seq<FormField>|
                    {
                        &&& #[trigger] is_create_article_request_schema(schema)
                        &&& spec_scan_form(s@, schema, "CreateArticleRequest"@) matches Ok(slots)
                        &&& create_article_request_form_missing(spec_scan_form(s@, schema, "CreateArticleRequest"@)->Ok_0)
                            is None
                        &&& create_article_request_form_ok(spec_scan_form(s@, schema, "CreateArticleRequest"@)->Ok_0, m)
                    },
                Err(e) => exists|schema: Seq<FormField>|
                    {
                        &&& #[trigger] is_create_article_request_schema(schema)
                        &&& match spec_scan_form(s@, schema, "CreateArticleRequest"@) {
                            Err(e2) => e@ == e2,
                            Ok(slots) => create_article_request_form_missing(slots) == Some(e@),
                        }
                    },
            },
    {
        let mut schema: Vec<FormField> = Vec::new();
        schema.push(FormField { key: "article".to_owned(), kind: FieldKind::KNested });
        proof {
            assert(is_create_article_request_schema(schema@));
        }
        let slots = match scan_form(s, &schema, "CreateArticleRequest") {
            Ok(x) => x,
            Err(e) => {
                return Err(e);
            },
        };
        let ghost sl = slots_view(slots@);
        return Err(missing_msg("article", "CreateArticleRequest"));

    }
}

/// The form-encoding entries of a `CreateUserRequest`.
pub open spec fn create_user_request_form_items(m: CreateUserRequest) -> Seq<Seq<char>> {
    Seq::empty()
}

/// The form encoding of a `CreateUserRequest`.
pub open spec fn create_user_request_form(m: CreateUserRequest) -> Seq<char> {
    join_all(create_user_request_form_items(m))
}

/// The field schema the scan of a `CreateUserRequest` uses.
pub open spec fn is_create_user_request_schema(schema: Seq<FormField>) -> bool {
    &&& schema.len() == 1
    &&& schema[0].key@ == "user"@ && schema[0].kind is KNested
}

/// The first required field a scanned `CreateUserRequest` text left unset.
pub open spec fn create_user_request_form_missing(slots: Seq<Option<FormValSpec>>) -> Option<Seq<char>> {
    if !(false) {
        Some("user"@ + " missing in "@ + "CreateUserRequest"@)
    } else {
        None
    }
}

/// How a successful scan's slots pin the model.
pub open spec fn create_user_request_form_ok(slots: Seq<Option<FormValSpec>>, m: CreateUserRequest) -> bool {
    true
}

impl CreateUserRequest {
    /// Writes the form encoding; exactly `create_user_request_form`.
    pub fn to_form_string(&self) -> (r: String)
        ensures
            r@ == create_user_request_form(*self),
    {
        let mut items: Vec<String> = Vec::new();
        proof {
            assert(strs_view(items@) =~= Seq::<Seq<char>>::empty());
        }
        join_items(&items)
    }

    /// Reads the form encoding back; exact against the scan of the
    /// field schema, a required field's absence reported by its key.
    pub fn from_form_str(s: &str) -> (r: Result<CreateUserRequest, String>)
        ensures
            match r {
                Ok(m) => exists|schema: Seq<FormField>|
                    {
                        &&& #[trigger] is_create_user_request_schema(schema)
                        &&& spec_scan_form(s@, schema, "CreateUserRequest"@) matches Ok(slots)
                        &&& create_user_request_form_missing(spec_scan_form(s@, schema, "CreateUserRequest"@)->Ok_0)
                            is None
                        &&& create_user_request_form_ok(spec_scan_form(s@, schema, "CreateUserRequest"@)->Ok_0, m)
                    },
                Err(e) => exists|schema: Seq<FormField>|
                    {
                        &&& #[trigger] is_create_user_request_schema(schema)
                        &&& match spec_scan_form(s@, schema, "CreateUserRequest"@) {
                            Err(e2) => e@ == e2,
                            Ok(slots) => create_user_request_form_missing(slots) == Some(e@),
                        }
                    },
            },
    {
        let mut schema: Vec<FormField> = Vec::new();
        schema.push(FormField { key: "user".to_owned(), kind: FieldKind::KNested });
        proof {
            assert(is_create_user_request_schema(schema@));
        }
        let slots = match scan_form(s, &schema, "CreateUserRequest") {
            Ok(x) => x,
            Err(e) => {
                return Err(e);
            },
        };
        let ghost sl = slots_view(slots@);
        return Err(missing_msg("user", "CreateUserRequest"));

    }
}

/// The form-encoding entries of a `GenericErrorModel`.
pub open spec fn generic_error_model_form_items(m: GenericErrorModel) -> Seq<Seq<char>> {
    Seq::empty()
}

/// The form encoding of a `GenericErrorModel`.
pub open spec fn generic_error_model_form(m: GenericErrorModel) -> Seq<char> {
    join_all(generic_error_model_form_items(m))
}

/// The field schema the scan of a `GenericErrorModel` uses.
pub open spec fn is_generic_error_model_schema(schema: Seq<FormField>) -> bool {
    &&& schema.len() == 1
    &&& schema[0].key@ == "errors"@ && schema[0].kind is KNested
}

/// The first required field a scanned `GenericErrorModel` text left unset.
pub open spec fn generic_error_model_form_missing(slots: Seq<Option<FormValSpec>>) -> Option<Seq<char>> {
    if !(false) {
        Some("errors"@ + " missing in "@ + "GenericErrorModel"@)
    } else {
        None
    }
}

/// How a successful scan's slots pin the model.
pub open spec fn generic_error_model_form_ok(slots: Seq<Option<FormValSpec>>, m: GenericErrorModel) -> bool {
    true
}

impl GenericErrorModel {
    /// Writes the form encoding; exactly `generic_error_model_form`.
    pub fn to_form_string(&self) -> (r: String)
        ensures
            r@ == generic_error_model_form(*self),
    {
        let mut items: Vec<String> = Vec::new();
        proof {
            assert(strs_view(items@) =~= Seq::<Seq<char>>::empty());
        }
        join_items(&items)
    }

    /// Reads the form encoding back; exact against the scan of the
    /// field schema, a required field's absence reported by its key.
    pub fn from_form_str(s: &str) -> (r: Result<GenericErrorModel, String>)
        ensures
            match r {
                Ok(m) => exists|schema: Seq<FormField>|
                    {
                        &&& #[trigger] is_generic_error_model_schema(schema)
                        &&& spec_scan_form(s@, schema, "GenericErrorModel"@) matches Ok(slots)
                        &&& generic_error_model_form_missing(spec_scan_form(s@, schema, "GenericErrorModel"@)->Ok_0)
                            is None
                        &&& generic_error_model_form_ok(spec_scan_form(s@, schema, "GenericErrorModel"@)->Ok_0, m)
                    },
                Err(e) => exists|schema: Seq<FormField>|
                    {
                        &&& #[trigger] is_generic_error_model_schema(schema)
                        &&& match spec_scan_form(s@, schema, "GenericErrorModel"@) {
                            Err(e2) => e@ == e2,
                            Ok(slots) => generic_error_model_form_missing(slots) == Some(e@),
                        }
                    },
            },
    {
        let mut schema: Vec<FormField> = Vec::new();
        schema.push(FormField { key: "errors".to_owned(), kind: FieldKind::KNested });
        proof {
            assert(is_generic_error_model_schema(schema@));
        }
        let slots = match scan_form(s, &schema, "GenericErrorModel") {
            Ok(x) => x,
            Err(e) => {
                return Err(e);
            },
        };
        let ghost sl = slots_view(slots@);
        return Err(missing_msg("errors", "GenericErrorModel"));

    }
}

/// The form-encoding entries of a `GenericErrorModelErrors`.
pub open spec fn generic_error_model_errors_form_items(m: GenericErrorModelErrors) -> Seq<Seq<char>> {
    item_list("body"@, m.body@)
}

/// The form encoding of a `GenericErrorModelErrors`.
pub open spec fn generic_error_model_errors_form(m: GenericErrorModelErrors) -> Seq<char> {
    join_all(generic_error_model_errors_form_items(m))
}

/// The field schema the scan of a `GenericErrorModelErrors` uses.
pub open spec fn is_generic_error_model_errors_schema(schema: Seq<FormField>) -> bool {
    &&& schema.len() == 1
    &&& schema[0].key@ == "body"@ && schema[0].kind is KList
}

/// The first required field a scanned `GenericErrorModelErrors` text left unset.
pub open spec fn generic_error_model_errors_form_missing(slots: Seq<Option<FormValSpec>>) -> Option<Seq<char>> {
    if !(false) {
        Some("body"@ + " missing in "@ + "GenericErrorModelErrors"@)
    } else {
        None
    }
}

/// How a successful scan's slots pin the model.
pub open spec fn generic_error_model_errors_form_ok(slots: Seq<Option<FormValSpec>>, m: GenericErrorModelErrors) -> bool {
    true
}

impl GenericErrorModelErrors {
    /// Writes the form encoding; exactly `generic_error_model_errors_form`.
    pub fn to_form_string(&self) -> (r: String)
        ensures
            r@ == generic_error_model_errors_form(*self),
    {
        let mut items: Vec<String> = Vec::new();
        let joined_body = join_items(&self.body);
        items.push(mk_item("body", joined_body.as_str()));
        proof {
            assert(strs_view(items@) =~= item_list("body"@, self.body@));
        }
        join_items(&items)
    }

    /// Reads the form encoding back; exact against the scan of the
    /// field schema, a required field's absence reported by its key.
    pub fn from_form_str(s: &str) -> (r: Result<GenericErrorModelErrors, String>)
        ensures
            match r {
                Ok(m) => exists|schema: Seq<FormField>|
                    {
                        &&& #[trigger] is_generic_error_model_errors_schema(schema)
                        &&& spec_scan_form(s@, schema, "GenericErrorModelErrors"@) matches Ok(slots)
                        &&& generic_error_model_errors_form_missing(spec_scan_form(s@, schema, "GenericErrorModelErrors"@)->Ok_0)
                            is None
                        &&& generic_error_model_errors_form_ok(spec_scan_form(s@, schema, "GenericErrorModelErrors"@)->Ok_0, m)
                    },
                Err(e) => exists|schema: Seq<FormField>|
                    {
                        &&& #[trigger] is_generic_error_model_errors_schema(schema)
                        &&& match spec_scan_form(s@, schema, "GenericErrorModelErrors"@) {
                            Err(e2) => e@ == e2,
                            Ok(slots) => generic_error_model_errors_form_missing(slots) == Some(e@),
                        }
                    },
            },
    {
        let mut schema: Vec<FormField> = Vec::new();
        schema.push(FormField { key: "body".to_owned(), kind: FieldKind::KList });
        proof {
            assert(is_generic_error_model_errors_schema(schema@));
        }
        let slots = match scan_form(s, &schema, "GenericErrorModelErrors") {
            Ok(x) => x,
            Err(e) => {
                return Err(e);
            },
        };
        let ghost sl = slots_view(slots@);
        return Err(missing_msg("body", "GenericErrorModelErrors"));

    }
}

/// The form-encoding entries of a `GetArticleComments200Response`.
pub open spec fn get_article_comments200_response_form_items(m: GetArticleComments200Response) -> Seq<Seq<char>> {
    Seq::empty()
}

/// The form encoding of a `GetArticleComments200Response`.
pub open spec fn get_article_comments200_response_form(m: GetArticleComments200Response) -> Seq<char> {
    join_all(get_article_comments200_response_form_items(m))
}

/// The field schema the scan of a `GetArticleComments200Response` uses.
pub open spec fn is_get_article_comments200_response_schema(schema: Seq<FormField>) -> bool {
    &&& schema.len() == 1
    &&& schema[0].key@ == "comments"@ && schema[0].kind is KNested
}

/// The first required field a scanned `GetArticleComments200Response` text left unset.
pub open spec fn get_article_comments200_response_form_missing(slots: Seq<Option<FormValSpec>>) -> Option<Seq<char>> {
    if !(false) {
        Some("comments"@ + " missing in "@ + "GetArticleComments200Response"@)
    } else {
        None
    }
}

/// How a successful scan's slots pin the model.
pub open spec fn get_article_comments200_response_form_ok(slots: Seq<Option<FormValSpec>>, m: GetArticleComments200Response) -> bool {
    true
}

impl GetArticleComments200Response {
    /// Writes the form encoding; exactly `get_article_comments200_response_form`.
    pub fn to_form_string(&self) -> (r: String)
        ensures
            r@ == get_article_comments200_response_form(*self),
    {
        let mut items: Vec<String> = Vec::new();
        proof {
            assert(strs_view(items@) =~= Seq::<Seq<char>>::empty());
        }
        join_items(&items)
    }

    /// Reads the form encoding back; exact against the scan of the
    /// field schema, a required field's absence reported by its key.
    pub fn from_form_str(s: &str) -> (r: Result<GetArticleComments200Response, String>)
        ensures
            match r {
                Ok(m) => exists|schema: Seq<FormField>|
                    {
                        &&& #[trigger] is_get_article_comments200_response_schema(schema)
                        &&& spec_scan_form(s@, schema, "GetArticleComments200Response"@) matches Ok(slots)
                        &&& get_article_comments200_response_form_missing(spec_scan_form(s@, schema, "GetArticleComments200Response"@)->Ok_0)
                            is None
                        &&& get_article_comments200_response_form_ok(spec_scan_form(s@, schema, "GetArticleComments200Response"@)->Ok_0, m)
                    },
                Err(e) => exists|schema: Seq<FormField>|
                    {
                        &&& #[trigger] is_get_article_comments200_response_schema(schema)
                        &&& match spec_scan_form(s@, schema, "GetArticleComments200Response"@) {
                            Err(e2) => e@ == e2,
                            Ok(slots) => get_article_comments200_response_form_missing(slots) == Some(e@),
                        }
                    },
            },
    {
        let mut schema: Vec<FormField> = Vec::new();
        schema.push(FormField { key: "comments".to_owned(), kind: FieldKind::KNested });
        proof {
            assert(is_get_article_comments200_response_schema(schema@));
        }
        let slots = match scan_form(s, &schema, "GetArticleComments200Response") {
            Ok(x) => x,
            Err(e) => {
                return Err(e);
            },
        };
        let ghost sl = slots_view(slots@);
        return Err(missing_msg("comments", "GetArticleComments200Response"));

    }
}

/// The form-encoding entries of a `GetArticlesFeed200Response`.
pub open spec fn get_articles_feed200_response_form_items(m: GetArticlesFeed200Response) -> Seq<Seq<char>> {
    item_i32("articlesCount"@, m.articles_count)
}

/// The form encoding of a `GetArticlesFeed200Response`.
pub open spec fn get_articles_feed200_response_form(m: GetArticlesFeed200Response) -> Seq<char> {
    join_all(get_articles_feed200_response_form_items(m))
}

/// The field schema the scan of a `GetArticlesFeed200Response` uses.
pub open spec fn is_get_articles_feed200_response_schema(schema: Seq<FormField>) -> bool {
    &&& schema.len() == 2
    &&& schema[0].key@ == "articles"@ && schema[0].kind is KNested
    &&& schema[1].key@ == "articlesCount"@ && schema[1].kind is KI32
}

/// The first required field a scanned `GetArticlesFeed200Response` text left unset.
pub open spec fn get_articles_feed200_response_form_missing(slots: Seq<Option<FormValSpec>>) -> Option<Seq<char>> {
    if !(false) {
        Some("articles"@ + " missing in "@ + "GetArticlesFeed200Response"@)
    } else if !(slots[1] matches Some(FormValSpec::VNum(_))) {
        Some("articlesCount"@ + " missing in "@ + "GetArticlesFeed200Response"@)
    } else {
        None
    }
}

/// How a successful scan's slots pin the model.
pub open spec fn get_articles_feed200_response_form_ok(slots: Seq<Option<FormValSpec>>, m: GetArticlesFeed200Response) -> bool {
    &&& slots[1] == Some(FormValSpec::VNum(m.articles_count))
}

impl GetArticlesFeed200Response {
    /// Writes the form encoding; exactly `get_articles_feed200_response_form`.
    pub fn to_form_string(&self) -> (r: String)
        ensures
            r@ == get_articles_feed200_response_form(*self),
    {
        let mut items: Vec<String> = Vec::new();
        items.push(mk_item("articlesCount", i32_to_dec(self.articles_count).as_str()));
        proof {
            assert(strs_view(items@) =~= item_i32("articlesCount"@, self.articles_count));
        }
        join_items(&items)
    }

    /// Reads the form encoding back; exact against the scan of the
    /// field schema, a required field's absence reported by its key.
    pub fn from_form_str(s: &str) -> (r: Result<GetArticlesFeed200Response, String>)
        ensures
            match r {
                Ok(m) => exists|schema: Seq<FormField>|
                    {
                        &&& #[trigger] is_get_articles_feed200_response_schema(schema)
                        &&& spec_scan_form(s@, schema, "GetArticlesFeed200Response"@) matches Ok(slots)
                        &&& get_articles_feed200_response_form_missing(spec_scan_form(s@, schema, "GetArticlesFeed200Response"@)->Ok_0)
                            is None
                        &&& get_articles_feed200_response_form_ok(spec_scan_form(s@, schema, "GetArticlesFeed200Response"@)->Ok_0, m)
                    },
                Err(e) => exists|schema: Seq<FormField>|
                    {
                        &&& #[trigger] is_get_articles_feed200_response_schema(schema)
                        &&& match spec_scan_form(s@, schema, "GetArticlesFeed200Response"@) {
                            Err(e2) => e@ == e2,
                            Ok(slots) => get_articles_feed200_response_form_missing(slots) == Some(e@),
                        }
                    },
            },
    {
        let mut schema: Vec<FormField> = Vec::new();
        schema.push(FormField { key: "articles".to_owned(), kind: FieldKind::KNested });
        schema.push(FormField { key: "articlesCount".to_owned(), kind: FieldKind::KI32 });
        proof {
            assert(is_get_articles_feed200_response_schema(schema@));
        }
        let slots = match scan_form(s, &schema, "GetArticlesFeed200Response") {
            Ok(x) => x,
            Err(e) => {
                return Err(e);
            },
        };
        let ghost sl = slots_view(slots@);
        return Err(missing_msg("articles", "GetArticlesFeed200Response"));

    }
}

/// The form-encoding entries of a `GetArticlesFeed200ResponseArticlesInner`.
pub open spec fn get_articles_feed200_response_articles_inner_form_items(m: GetArticlesFeed200ResponseArticlesInner) -> Seq<Seq<char>> {
    item_str("slug"@, m.slug@) + item_str("title"@, m.title@) + item_str("description"@, m.description@) + item_list("tagList"@, m.tag_list@) + item_bool("favorited"@, m.favorited) + item_i32("favoritesCount"@, m.favorites_count)
}

/// The form encoding of a `GetArticlesFeed200ResponseArticlesInner`.
pub open spec fn get_articles_feed200_response_articles_inner_form(m: GetArticlesFeed200ResponseArticlesInner) -> Seq<char> {
    join_all(get_articles_feed200_response_articles_inner_form_items(m))
}

/// The field schema the scan of a `GetArticlesFeed200ResponseArticlesInner` uses.
pub open spec fn is_get_articles_feed200_response_articles_inner_schema(schema: Seq<FormField>) -> bool {
    &&& schema.len() == 9
    &&& schema[0].key@ == "slug"@ && schema[0].kind is KString
    &&& schema[1].key@ == "title"@ && schema[1].kind is KString
    &&& schema[2].key@ == "description"@ && schema[2].kind is KString
    &&& schema[3].key@ == "tagList"@ && schema[3].kind is KList
    &&& schema[4].key@ == "createdAt"@ && schema[4].kind is KDateTime
    &&& schema[5].key@ == "updatedAt"@ && schema[5].kind is KDateTime
    &&& schema[6].key@ == "favorited"@ && schema[6].kind is KBool
    &&& schema[7].key@ == "favoritesCount"@ && schema[7].kind is KI32
    &&& schema[8].key@ == "author"@ && schema[8].kind is KNested
}

/// The first required field a scanned `GetArticlesFeed200ResponseArticlesInner` text left unset.
pub open spec fn get_articles_feed200_response_articles_inner_form_missing(slots: Seq<Option<FormValSpec>>) -> Option<Seq<char>> {
    if !(slots[0] matches Some(FormValSpec::VText(_))) {
        Some("slug"@ + " missing in "@ + "GetArticlesFeed200ResponseArticlesInner"@)
    } else if !(slots[1] matches Some(FormValSpec::VText(_))) {
        Some("title"@ + " missing in "@ + "GetArticlesFeed200ResponseArticlesInner"@)
    } else if !(slots[2] matches Some(FormValSpec::VText(_))) {
        Some("description"@ + " missing in "@ + "GetArticlesFeed200ResponseArticlesInner"@)
    } else if !(false) {
        Some("tagList"@ + " missing in "@ + "GetArticlesFeed200ResponseArticlesInner"@)
    } else if !(slots[4] matches Some(FormValSpec::VStamp(_))) {
        Some("createdAt"@ + " missing in "@ + "GetArticlesFeed200ResponseArticlesInner"@)
    } else if !(slots[5] matches Some(FormValSpec::VStamp(_))) {
        Some("updatedAt"@ + " missing in "@ + "GetArticlesFeed200ResponseArticlesInner"@)
    } else if !(slots[6] matches Some(FormValSpec::VFlag(_))) {
        Some("favorited"@ + " missing in "@ + "GetArticlesFeed200ResponseArticlesInner"@)
    } else if !(slots[7] matches Some(FormValSpec::VNum(_))) {
        Some("favoritesCount"@ + " missing in "@ + "GetArticlesFeed200ResponseArticlesInner"@)
    } else if !(false) {
        Some("author"@ + " missing in "@ + "GetArticlesFeed200ResponseArticlesInner"@)
    } else {
        None
    }
}

/// How a successful scan's slots pin the model.
pub open spec fn get_articles_feed200_response_articles_inner_form_ok(slots: Seq<Option<FormValSpec>>, m: GetArticlesFeed200ResponseArticlesInner) -> bool {
    &&& slots[0] == Some(FormValSpec::VText(m.slug@))
    &&& slots[1] == Some(FormValSpec::VText(m.title@))
    &&& slots[2] == Some(FormValSpec::VText(m.description@))
    &&& slots[4] == Some(FormValSpec::VStamp(m.created_at.text@))
    &&& slots[5] == Some(FormValSpec::VStamp(m.updated_at.text@))
    &&& slots[6] == Some(FormValSpec::VFlag(m.favorited))
    &&& slots[7] == Some(FormValSpec::VNum(m.favorites_count))
}

impl GetArticlesFeed200ResponseArticlesInner {
    /// Writes the form encoding; exactly `get_articles_feed200_response_articles_inner_form`.
    pub fn to_form_string(&self) -> (r: String)
        ensures
            r@ == get_articles_feed200_response_articles_inner_form(*self),
    {
        let mut items: Vec<String> = Vec::new();
        items.push(mk_item("slug", self.slug.as_str()));
        proof {
            assert(strs_view(items@) =~= item_str("slug"@, self.slug@));
        }
        items.push(mk_item("title", self.title.as_str()));
        proof {
            assert(strs_view(items@) =~= item_str("slug"@, self.slug@) + item_str("title"@, self.title@));
        }
        items.push(mk_item("description", self.description.as_str()));
        proof {
            assert(strs_view(items@) =~= item_str("slug"@, self.slug@) + item_str("title"@, self.title@) + item_str("description"@, self.description@));
        }
        let joined_tag_list = join_items(&self.tag_list);
        items.push(mk_item("tagList", joined_tag_list.as_str()));
        proof {
            assert(strs_view(items@) =~= item_str("slug"@, self.slug@) + item_str("title"@, self.title@) + item_str("description"@, self.description@) + item_list("tagList"@, self.tag_list@));
        }
        items.push(mk_item("favorited", bool_to_text(self.favorited).as_str()));
        proof {
            assert(strs_view(items@) =~= item_str("slug"@, self.slug@) + item_str("title"@, self.title@) + item_str("description"@, self.description@) + item_list("tagList"@, self.tag_list@) + item_bool("favorited"@, self.favorited));
        }
        items.push(mk_item("favoritesCount", i32_to_dec(self.favorites_count).as_str()));
        proof {
            assert(strs_view(items@) =~= item_str("slug"@, self.slug@) + item_str("title"@, self.title@) + item_str("description"@, self.description@) + item_list("tagList"@, self.tag_list@) + item_bool("favorited"@, self.favorited) + item_i32("favoritesCount"@, self.favorites_count));
        }
        join_items(&items)
    }

    /// Reads the form encoding back; exact against the scan of the
    /// field schema, a required field's absence reported by its key.
    pub fn from_form_str(s: &str) -> (r: Result<GetArticlesFeed200ResponseArticlesInner, String>)
        ensures
            match r {
                Ok(m) => exists|schema: Seq<FormField>|
                    {
                        &&& #[trigger] is_get_articles_feed200_response_articles_inner_schema(schema)
                        &&& spec_scan_form(s@, schema, "GetArticlesFeed200ResponseArticlesInner"@) matches Ok(slots)
                        &&& get_articles_feed200_response_articles_inner_form_missing(spec_scan_form(s@, schema, "GetArticlesFeed200ResponseArticlesInner"@)->Ok_0)
                            is None
                        &&& get_articles_feed200_response_articles_inner_form_ok(spec_scan_form(s@, schema, "GetArticlesFeed200ResponseArticlesInner"@)->Ok_0, m)
                    },
                Err(e) => exists|schema: Seq<FormField>|
                    {
                        &&& #[trigger] is_get_articles_feed200_response_articles_inner_schema(schema)
                        &&& match spec_scan_form(s@, schema, "GetArticlesFeed200ResponseArticlesInner"@) {
                            Err(e2) => e@ == e2,
                            Ok(slots) => get_articles_feed200_response_articles_inner_form_missing(slots) == Some(e@),
                        }
                    },
            },
    {
        let mut schema: Vec<FormField> = Vec::new();
        schema.push(FormField { key: "slug".to_owned(), kind: FieldKind::KString });
        schema.push(FormField { key: "title".to_owned(), kind: FieldKind::KString });
        schema.push(FormField { key: "description".to_owned(), kind: FieldKind::KString });
        schema.push(FormField { key: "tagList".to_owned(), kind: FieldKind::KList });
        schema.push(FormField { key: "createdAt".to_owned(), kind: FieldKind::KDateTime });
        schema.push(FormField { key: "updatedAt".to_owned(), kind: FieldKind::KDateTime });
        schema.push(FormField { key: "favorited".to_owned(), kind: FieldKind::KBool });
        schema.push(FormField { key: "favoritesCount".to_owned(), kind: FieldKind::KI32 });
        schema.push(FormField { key: "author".to_owned(), kind: FieldKind::KNested });
        proof {
            assert(is_get_articles_feed200_response_articles_inner_schema(schema@));
        }
        let slots = match scan_form(s, &schema, "GetArticlesFeed200ResponseArticlesInner") {
            Ok(x) => x,
            Err(e) => {
                return Err(e);
            },
        };
        let ghost sl = slots_view(slots@);
        let slug = match &slots[0] {
            Some(FormVal::VText(v)) => v.clone(),
            _ => {
                proof {
                    assert(!(sl[0] matches Some(FormValSpec::VText(_))));
                }
                return Err(missing_msg("slug", "GetArticlesFeed200ResponseArticlesInner"));
            },
        };
        proof {
            assert(sl[0] == Some(FormValSpec::VText(slug@)));
        }
        let title = match &slots[1] {
            Some(FormVal::VText(v)) => v.clone(),
            _ => {
                proof {
                    assert(!(sl[1] matches Some(FormValSpec::VText(_))));
                }
                return Err(missing_msg("title", "GetArticlesFeed200ResponseArticlesInner"));
            },
        };
        proof {
            assert(sl[1] == Some(FormValSpec::VText(title@)));
        }
        let description = match &slots[2] {
            Some(FormVal::VText(v)) => v.clone(),
            _ => {
                proof {
                    assert(!(sl[2] matches Some(FormValSpec::VText(_))));
                }
                return Err(missing_msg("description", "GetArticlesFeed200ResponseArticlesInner"));
            },
        };
        proof {
            assert(sl[2] == Some(FormValSpec::VText(description@)));
        }
        return Err(missing_msg("tagList", "GetArticlesFeed200ResponseArticlesInner"));

    }
}

/// The form-encoding entries of a `GetProfileByUsername200Response`.
pub open spec fn get_profile_by_username200_response_form_items(m: GetProfileByUsername200Response) -> Seq<Seq<char>> {
    Seq::empty()
}

/// The form encoding of a `GetProfileByUsername200Response`.
pub open spec fn get_profile_by_username200_response_form(m: GetProfileByUsername200Response) -> Seq<char> {
    join_all(get_profile_by_username200_response_form_items(m))
}

/// The field schema the scan of a `GetProfileByUsername200Response` uses.
pub open spec fn is_get_profile_by_username200_response_schema(schema: Seq<FormField>) -> bool {
    &&& schema.len() == 1
    &&& schema[0].key@ == "profile"@ && schema[0].kind is KNested
}

/// The first required field a scanned `GetProfileByUsername200Response` text left unset.
pub open spec fn get_profile_by_username200_response_form_missing(slots: Seq<Option<FormValSpec>>) -> Option<Seq<char>> {
    if !(false) {
        Some("profile"@ + " missing in "@ + "GetProfileByUsername200Response"@)
    } else {
        None
    }
}

/// How a successful scan's slots pin the model.
pub open spec fn get_profile_by_username200_response_form_ok(slots: Seq<Option<FormValSpec>>, m: GetProfileByUsername200Response) -> bool {
    true
}

impl GetProfileByUsername200Response {
    /// Writes the form encoding; exactly `get_profile_by_username200_response_form`.
    pub fn to_form_string(&self) -> (r: String)
        ensures
            r@ == get_profile_by_username200_response_form(*self),
    {
        let mut items: Vec<String> = Vec::new();
        proof {
            assert(strs_view(items@) =~= Seq::<Seq<char>>::empty());
        }
        join_items(&items)
    }

    /// Reads the form encoding back; exact against the scan of the
    /// field schema, a required field's absence reported by its key.
    pub fn from_form_str(s: &str) -> (r: Result<GetProfileByUsername200Response, String>)
        ensures
            match r {
                Ok(m) => exists|schema: Seq<FormField>|
                    {
                        &&& #[trigger] is_get_profile_by_username200_response_schema(schema)
                        &&& spec_scan_form(s@, schema, "GetProfileByUsername200Response"@) matches Ok(slots)
                        &&& get_profile_by_username200_response_form_missing(spec_scan_form(s@, schema, "GetProfileByUsername200Response"@)->Ok_0)
                            is None
                        &&& get_profile_by_username200_response_form_ok(spec_scan_form(s@, schema, "GetProfileByUsername200Response"@)->Ok_0, m)
                    },
                Err(e) => exists|schema: Seq<FormField>|
                    {
                        &&& #[trigger] is_get_profile_by_username200_response_schema(schema)
                        &&& match spec_scan_form(s@, schema, "GetProfileByUsername200Response"@) {
                            Err(e2) => e@ == e2,
                            Ok(slots) => get_profile_by_username200_response_form_missing(slots) == Some(e@),
                        }
                    },
            },
    {
        let mut schema: Vec<FormField> = Vec::new();
        schema.push(FormField { key: "profile".to_owned(), kind: FieldKind::KNested });
        proof {
            assert(is_get_profile_by_username200_response_schema(schema@));
        }
        let slots = match scan_form(s, &schema, "GetProfileByUsername200Response") {
            Ok(x) => x,
            Err(e) => {
                return Err(e);
            },
        };
        let ghost sl = slots_view(slots@);
        return Err(missing_msg("profile", "GetProfileByUsername200Response"));

    }
}

/// The form-encoding entries of a `GetTags200Response`.
pub open spec fn get_tags200_response_form_items(m: GetTags200Response) -> Seq<Seq<char>> {
    item_list("tags"@, m.tags@)
}

/// The form encoding of a `GetTags200Response`.
pub open spec fn get_tags200_response_form(m: GetTags200Response) -> Seq<char> {
    join_all(get_tags200_response_form_items(m))
}

/// The field schema the scan of a `GetTags200Response` uses.
pub open spec fn is_get_tags200_response_schema(schema: Seq<FormField>) -> bool {
    &&& schema.len() == 1
    &&& schema[0].key@ == "tags"@ && schema[0].kind is KList
}

/// The first required field a scanned `GetTags200Response` text left unset.
pub open spec fn get_tags200_response_form_missing(slots: Seq<Option<FormValSpec>>) -> Option<Seq<char>> {
    if !(false) {
        Some("tags"@ + " missing in "@ + "GetTags200Response"@)
    } else {
        None
    }
}

/// How a successful scan's slots pin the model.
pub open spec fn get_tags200_response_form_ok(slots: Seq<Option<FormValSpec>>, m: GetTags200Response) -> bool {
    true
}

impl GetTags200Response {
    /// Writes the form encoding; exactly `get_tags200_response_form`.
    pub fn to_form_string(&self) -> (r: String)
        ensures
            r@ == get_tags200_response_form(*self),
    {
        let mut items: Vec<String> = Vec::new();
        let joined_tags = join_items(&self.tags);
        items.push(mk_item("tags", joined_tags.as_str()));
        proof {
            assert(strs_view(items@) =~= item_list("tags"@, self.tags@));
        }
        join_items(&items)
    }

    /// Reads the form encoding back; exact against the scan of the
    /// field schema, a required field's absence reported by its key.
    pub fn from_form_str(s: &str) -> (r: Result<GetTags200Response, String>)
        ensures
            match r {
                Ok(m) => exists|schema: Seq<FormField>|
                    {
                        &&& #[trigger] is_get_tags200_response_schema(schema)
                        &&& spec_scan_form(s@, schema, "GetTags200Response"@) matches Ok(slots)
                        &&& get_tags200_response_form_missing(spec_scan_form(s@, schema, "GetTags200Response"@)->Ok_0)
                            is None
                        &&& get_tags200_response_form_ok(spec_scan_form(s@, schema, "GetTags200Response"@)->Ok_0, m)
                    },
                Err(e) => exists|schema: Seq<FormField>|
                    {
                        &&& #[trigger] is_get_tags200_response_schema(schema)
                        &&& match spec_scan_form(s@, schema, "GetTags200Response"@) {
                            Err(e2) => e@ == e2,
                            Ok(slots) => get_tags200_response_form_missing(slots) == Some(e@),
                        }
                    },
            },
    {
        let mut schema: Vec<FormField> = Vec::new();
        schema.push(FormField { key: "tags".to_owned(), kind: FieldKind::KList });
        proof {
            assert(is_get_tags200_response_schema(schema@));
        }
        let slots = match scan_form(s, &schema, "GetTags200Response") {
            Ok(x) => x,
            Err(e) => {
                return Err(e);
            },
        };
        let ghost sl = slots_view(slots@);
        return Err(missing_msg("tags", "GetTags200Response"));

    }
}

/// The form-encoding entries of a `Login200Response`.
pub open spec fn login200_response_form_items(m: Login200Response) -> Seq<Seq<char>> {
    Seq::empty()
}

/// The form encoding of a `Login200Response`.
pub open spec fn login200_response_form(m: Login200Response) -> Seq<char> {
    join_all(login200_response_form_items(m))
}

/// The field schema the scan of a `Login200Response` uses.
pub open spec fn is_login200_response_schema(schema: Seq<FormField>) -> bool {
    &&& schema.len() == 1
    &&& schema[0].key@ == "user"@ && schema[0].kind is KNested
}

/// The first required field a scanned `Login200Response` text left unset.
pub open spec fn login200_response_form_missing(slots: Seq<Option<FormValSpec>>) -> Option<Seq<char>> {
    if !(false) {
        Some("user"@ + " missing in "@ + "Login200Response"@)
    } else {
        None
    }
}

/// How a successful scan's slots pin the model.
pub open spec fn login200_response_form_ok(slots: Seq<Option<FormValSpec>>, m: Login200Response) -> bool {
    true
}

impl Login200Response {
    /// Writes the form encoding; exactly `login200_response_form`.
    pub fn to_form_string(&self) -> (r: String)
        ensures
            r@ == login200_response_form(*self),
    {
        let mut items: Vec<String> = Vec::new();
        proof {
            assert(strs_view(items@) =~= Seq::<Seq<char>>::empty());
        }
        join_items(&items)
    }

    /// Reads the form encoding back; exact against the scan of the
    /// field schema, a required field's absence reported by its key.
    pub fn from_form_str(s: &str) -> (r: Result<Login200Response, String>)
        ensures
            match r {
                Ok(m) => exists|schema: Seq<FormField>|
                    {
                        &&& #[trigger] is_login200_response_schema(schema)
                        &&& spec_scan_form(s@, schema, "Login200Response"@) matches Ok(slots)
                        &&& login200_response_form_missing(spec_scan_form(s@, schema, "Login200Response"@)->Ok_0)
                            is None
                        &&& login200_response_form_ok(spec_scan_form(s@, schema, "Login200Response"@)->Ok_0, m)
                    },
                Err(e) => exists|schema: Seq<FormField>|
                    {
                        &&& #[trigger] is_login200_response_schema(schema)
                        &&& match spec_scan_form(s@, schema, "Login200Response"@) {
                            Err(e2) => e@ == e2,
                            Ok(slots) => login200_response_form_missing(slots) == Some(e@),
                        }
                    },
            },
    {
        let mut schema: Vec<FormField> = Vec::new();
        schema.push(FormField { key: "user".to_owned(), kind: FieldKind::KNested });
        proof {
            assert(is_login200_response_schema(schema@));
        }
        let slots = match scan_form(s, &schema, "Login200Response") {
            Ok(x) => x,
            Err(e) => {
                return Err(e);
            },
        };
        let ghost sl = slots_view(slots@);
        return Err(missing_msg("user", "Login200Response"));

    }
}

/// The form-encoding entries of a `LoginRequest`.
pub open spec fn login_request_form_items(m: LoginRequest) -> Seq<Seq<char>> {
    Seq::empty()
}

/// The form encoding of a `LoginRequest`.
pub open spec fn login_request_form(m: LoginRequest) -> Seq<char> {
    join_all(login_request_form_items(m))
}

/// The field schema the scan of a `LoginRequest` uses.
pub open spec fn is_login_request_schema(schema: Seq<FormField>) -> bool {
    &&& schema.len() == 1
    &&& schema[0].key@ == "user"@ && schema[0].kind is KNested
}

/// The first required field a scanned `LoginRequest` text left unset.
pub open spec fn login_request_form_missing(slots: Seq<Option<FormValSpec>>) -> Option<Seq<char>> {
    if !(false) {
        Some("user"@ + " missing in "@ + "LoginRequest"@)
    } else {
        None
    }
}

/// How a successful scan's slots pin the model.
pub open spec fn login_request_form_ok(slots: Seq<Option<FormValSpec>>, m: LoginRequest) -> bool {
    true
}

impl LoginRequest {
    /// Writes the form encoding; exactly `login_request_form`.
    pub fn to_form_string(&self) -> (r: String)
        ensures
            r@ == login_request_form(*self),
    {
        let mut items: Vec<String> = Vec::new();
        proof {
            assert(strs_view(items@) =~= Seq::<Seq<char>>::empty());
        }
        join_items(&items)
    }

    /// Reads the form encoding back; exact against the scan of the
    /// field schema, a required field's absence reported by its key.
    pub fn from_form_str(s: &str) -> (r: Result<LoginRequest, String>)
        ensures
            match r {
                Ok(m) => exists|schema: Seq<FormField>|
                    {
                        &&& #[trigger] is_login_request_schema(schema)
                        &&& spec_scan_form(s@, schema, "LoginRequest"@) matches Ok(slots)
                        &&& login_request_form_missing(spec_scan_form(s@, schema, "LoginRequest"@)->Ok_0)
                            is None
                        &&& login_request_form_ok(spec_scan_form(s@, schema, "LoginRequest"@)->Ok_0, m)
                    },
                Err(e) => exists|schema: Seq<FormField>|
                    {
                        &&& #[trigger] is_login_request_schema(schema)
                        &&& match spec_scan_form(s@, schema, "LoginRequest"@) {
                            Err(e2) => e@ == e2,
                            Ok(slots) => login_request_form_missing(slots) == Some(e@),
                        }
                    },
            },
    {
        let mut schema: Vec<FormField> = Vec::new();
        schema.push(FormField { key: "user".to_owned(), kind: FieldKind::KNested });
        proof {
            assert(is_login_request_schema(schema@));
        }
        let slots = match scan_form(s, &schema, "LoginRequest") {
            Ok(x) => x,
            Err(e) => {
                return Err(e);
            },
        };
        let ghost sl = slots_view(slots@);
        return Err(missing_msg("user", "LoginRequest"));

    }
}

/// The form-encoding entries of a `LoginUser`.
pub open spec fn login_user_form_items(m: LoginUser) -> Seq<Seq<char>> {
    item_str("email"@, m.email@) + item_str("password"@, m.password@)
}

/// The form encoding of a `LoginUser`.
pub open spec fn login_user_form(m: LoginUser) -> Seq<char> {
    join_all(login_user_form_items(m))
}

/// The field schema the scan of a `LoginUser` uses.
pub open spec fn is_login_user_schema(schema: Seq<FormField>) -> bool {
    &&& schema.len() == 2
    &&& schema[0].key@ == "email"@ && schema[0].kind is KString
    &&& schema[1].key@ == "password"@ && schema[1].kind is KString
}

/// The first required field a scanned `LoginUser` text left unset.
pub open spec fn login_user_form_missing(slots: Seq<Option<FormValSpec>>) -> Option<Seq<char>> {
    if !(slots[0] matches Some(FormValSpec::VText(_))) {
        Some("email"@ + " missing in "@ + "LoginUser"@)
    } else if !(slots[1] matches Some(FormValSpec::VText(_))) {
        Some("password"@ + " missing in "@ + "LoginUser"@)
    } else {
        None
    }
}

/// How a successful scan's slots pin the model.
pub open spec fn login_user_form_ok(slots: Seq<Option<FormValSpec>>, m: LoginUser) -> bool {
    &&& slots[0] == Some(FormValSpec::VText(m.email@))
    &&& slots[1] == Some(FormValSpec::VText(m.password@))
}

impl LoginUser {
    /// Writes the form encoding; exactly `login_user_form`.
    pub fn to_form_string(&self) -> (r: String)
        ensures
            r@ == login_user_form(*self),
    {
        let mut items: Vec<String> = Vec::new();
        items.push(mk_item("email", self.email.as_str()));
        proof {
            assert(strs_view(items@) =~= item_str("email"@, self.email@));
        }
        items.push(mk_item("password", self.password.as_str()));
        proof {
            assert(strs_view(items@) =~= item_str("email"@, self.email@) + item_str("password"@, self.password@));
        }
        join_items(&items)
    }

    /// Reads the form encoding back; exact against the scan of the
    /// field schema, a required field's absence reported by its key.
    pub fn from_form_str(s: &str) -> (r: Result<LoginUser, String>)
        ensures
            match r {
                Ok(m) => exists|schema: Seq<FormField>|
                    {
                        &&& #[trigger] is_login_user_schema(schema)
                        &&& spec_scan_form(s@, schema, "LoginUser"@) matches Ok(slots)
                        &&& login_user_form_missing(spec_scan_form(s@, schema, "LoginUser"@)->Ok_0)
                            is None
                        &&& login_user_form_ok(spec_scan_form(s@, schema, "LoginUser"@)->Ok_0, m)
                    },
                Err(e) => exists|schema: Seq<FormField>|
                    {
                        &&& #[trigger] is_login_user_schema(schema)
                        &&& match spec_scan_form(s@, schema, "LoginUser"@) {
                            Err(e2) => e@ == e2,
                            Ok(slots) => login_user_form_missing(slots) == Some(e@),
                        }
                    },
            },
    {
        let mut schema: Vec<FormField> = Vec::new();
        schema.push(FormField { key: "email".to_owned(), kind: FieldKind::KString });
        schema.push(FormField { key: "password".to_owned(), kind: FieldKind::KString });
        proof {
            assert(is_login_user_schema(schema@));
        }
        let slots = match scan_form(s, &schema, "LoginUser") {
            Ok(x) => x,
            Err(e) => {
                return Err(e);
            },
        };
        let ghost sl = slots_view(slots@);
        let email = match &slots[0] {
            Some(FormVal::VText(v)) => v.clone(),
            _ => {
                proof {
                    assert(!(sl[0] matches Some(FormValSpec::VText(_))));
                }
                return Err(missing_msg("email", "LoginUser"));
            },
        };
        proof {
            assert(sl[0] == Some(FormValSpec::VText(email@)));
        }
        let password = match &slots[1] {
            Some(FormVal::VText(v)) => v.clone(),
            _ => {
                proof {
                    assert(!(sl[1] matches Some(FormValSpec::VText(_))));
                }
                return Err(missing_msg("password", "LoginUser"));
            },
        };
        proof {
            assert(sl[1] == Some(FormValSpec::VText(password@)));
        }
        Ok(LoginUser { email, password })
    }
}

/// The form-encoding entries of a `NewArticle`.
pub open spec fn new_article_form_items(m: NewArticle) -> Seq<Seq<char>> {
    item_str("title"@, m.title@) + item_str("description"@, m.description@) + item_str("body"@, m.body@) + item_opt_list("tagList"@, m.tag_list)
}

/// The form encoding of a `NewArticle`.
pub open spec fn new_article_form(m: NewArticle) -> Seq<char> {
    join_all(new_article_form_items(m))
}

/// The field schema the scan of a `NewArticle` uses.
pub open spec fn is_new_article_schema(schema: Seq<FormField>) -> bool {
    &&& schema.len() == 4
    &&& schema[0].key@ == "title"@ && schema[0].kind is KString
    &&& schema[1].key@ == "description"@ && schema[1].kind is KString
    &&& schema[2].key@ == "body"@ && schema[2].kind is KString
    &&& schema[3].key@ == "tagList"@ && schema[3].kind is KList
}

/// The first required field a scanned `NewArticle` text left unset.
pub open spec fn new_article_form_missing(slots: Seq<Option<FormValSpec>>) -> Option<Seq<char>> {
    if !(slots[0] matches Some(FormValSpec::VText(_))) {
        Some("title"@ + " missing in "@ + "NewArticle"@)
    } else if !(slots[1] matches Some(FormValSpec::VText(_))) {
        Some("description"@ + " missing in "@ + "NewArticle"@)
    } else if !(slots[2] matches Some(FormValSpec::VText(_))) {
        Some("body"@ + " missing in "@ + "NewArticle"@)
    } else {
        None
    }
}

/// How a successful scan's slots pin the model.
pub open spec fn new_article_form_ok(slots: Seq<Option<FormValSpec>>, m: NewArticle) -> bool {
    &&& slots[0] == Some(FormValSpec::VText(m.title@))
    &&& slots[1] == Some(FormValSpec::VText(m.description@))
    &&& slots[2] == Some(FormValSpec::VText(m.body@))
    &&& m.tag_list is None
}

impl NewArticle {
    /// Writes the form encoding; exactly `new_article_form`.
    pub fn to_form_string(&self) -> (r: String)
        ensures
            r@ == new_article_form(*self),
    {
        let mut items: Vec<String> = Vec::new();
        items.push(mk_item("title", self.title.as_str()));
        proof {
            assert(strs_view(items@) =~= item_str("title"@, self.title@));
        }
        items.push(mk_item("description", self.description.as_str()));
        proof {
            assert(strs_view(items@) =~= item_str("title"@, self.title@) + item_str("description"@, self.description@));
        }
        items.push(mk_item("body", self.body.as_str()));
        proof {
            assert(strs_view(items@) =~= item_str("title"@, self.title@) + item_str("description"@, self.description@) + item_str("body"@, self.body@));
        }
        match &self.tag_list {
            Some(ts) => {
                let joined_tag_list = join_items(ts);
                items.push(mk_item("tagList", joined_tag_list.as_str()));
            },
            None => {},
        }
        proof {
            assert(strs_view(items@) =~= item_str("title"@, self.title@) + item_str("description"@, self.description@) + item_str("body"@, self.body@) + item_opt_list("tagList"@, self.tag_list));
        }
        join_items(&items)
    }

    /// Reads the form encoding back; exact against the scan of the
    /// field schema, a required field's absence reported by its key.
    pub fn from_form_str(s: &str) -> (r: Result<NewArticle, String>)
        ensures
            match r {
                Ok(m) => exists|schema: Seq<FormField>|
                    {
                        &&& #[trigger] is_new_article_schema(schema)
                        &&& spec_scan_form(s@, schema, "NewArticle"@) matches Ok(slots)
                        &&& new_article_form_missing(spec_scan_form(s@, schema, "NewArticle"@)->Ok_0)
                            is None
                        &&& new_article_form_ok(spec_scan_form(s@, schema, "NewArticle"@)->Ok_0, m)
                    },
                Err(e) => exists|schema: Seq<FormField>|
                    {
                        &&& #[trigger] is_new_article_schema(schema)
                        &&& match spec_scan_form(s@, schema, "NewArticle"@) {
                            Err(e2) => e@ == e2,
                            Ok(slots) => new_article_form_missing(slots) == Some(e@),
                        }
                    },
            },
    {
        let mut schema: Vec<FormField> = Vec::new();
        schema.push(FormField { key: "title".to_owned(), kind: FieldKind::KString });
        schema.push(FormField { key: "description".to_owned(), kind: FieldKind::KString });
        schema.push(FormField { key: "body".to_owned(), kind: FieldKind::KString });
        schema.push(FormField { key: "tagList".to_owned(), kind: FieldKind::KList });
        proof {
            assert(is_new_article_schema(schema@));
        }
        let slots = match scan_form(s, &schema, "NewArticle") {
            Ok(x) => x,
            Err(e) => {
                return Err(e);
            },
        };
        let ghost sl = slots_view(slots@);
        let title = match &slots[0] {
            Some(FormVal::VText(v)) => v.clone(),
            _ => {
                proof {
                    assert(!(sl[0] matches Some(FormValSpec::VText(_))));
                }
                return Err(missing_msg("title", "NewArticle"));
            },
        };
        proof {
            assert(sl[0] == Some(FormValSpec::VText(title@)));
        }
        let description = match &slots[1] {
            Some(FormVal::VText(v)) => v.clone(),
            _ => {
                proof {
                    assert(!(sl[1] matches Some(FormValSpec::VText(_))));
                }
                return Err(missing_msg("description", "NewArticle"));
            },
        };
        proof {
            assert(sl[1] == Some(FormValSpec::VText(description@)));
        }
        let body = match &slots[2] {
            Some(FormVal::VText(v)) => v.clone(),
            _ => {
                proof {
                    assert(!(sl[2] matches Some(FormValSpec::VText(_))));
                }
                return Err(missing_msg("body", "NewArticle"));
            },
        };
        proof {
            assert(sl[2] == Some(FormValSpec::VText(body@)));
        }
        let tag_list: Option<Vec<String>> = None;
        Ok(NewArticle { title, description, body, tag_list })
    }
}

/// The form-encoding entries of a `NewComment`.
pub open spec fn new_comment_form_items(m: NewComment) -> Seq<Seq<char>> {
    item_str("body"@, m.body@)
}

/// The form encoding of a `NewComment`.
pub open spec fn new_comment_form(m: NewComment) -> Seq<char> {
    join_all(new_comment_form_items(m))
}

/// The field schema the scan of a `NewComment` uses.
pub open spec fn is_new_comment_schema(schema: Seq<FormField>) -> bool {
    &&& schema.len() == 1
    &&& schema[0].key@ == "body"@ && schema[0].kind is KString
}

/// The first required field a scanned `NewComment` text left unset.
pub open spec fn new_comment_form_missing(slots: Seq<Option<FormValSpec>>) -> Option<Seq<char>> {
    if !(slots[0] matches Some(FormValSpec::VText(_))) {
        Some("body"@ + " missing in "@ + "NewComment"@)
    } else {
        None
    }
}

/// How a successful scan's slots pin the model.
pub open spec fn new_comment_form_ok(slots: Seq<Option<FormValSpec>>, m: NewComment) -> bool {
    &&& slots[0] == Some(FormValSpec::VText(m.body@))
}

impl NewComment {
    /// Writes the form encoding; exactly `new_comment_form`.
    pub fn to_form_string(&self) -> (r: String)
        ensures
            r@ == new_comment_form(*self),
    {
        let mut items: Vec<String> = Vec::new();
        items.push(mk_item("body", self.body.as_str()));
        proof {
            assert(strs_view(items@) =~= item_str("body"@, self.body@));
        }
        join_items(&items)
    }

    /// Reads the form encoding back; exact against the scan of the
    /// field schema, a required field's absence reported by its key.
    pub fn from_form_str(s: &str) -> (r: Result<NewComment, String>)
        ensures
            match r {
                Ok(m) => exists|schema: Seq<FormField>|
                    {
                        &&& #[trigger] is_new_comment_schema(schema)
                        &&& spec_scan_form(s@, schema, "NewComment"@) matches Ok(slots)
                        &&& new_comment_form_missing(spec_scan_form(s@, schema, "NewComment"@)->Ok_0)
                            is None
                        &&& new_comment_form_ok(spec_scan_form(s@, schema, "NewComment"@)->Ok_0, m)
                    },
                Err(e) => exists|schema: Seq<FormField>|
                    {
                        &&& #[trigger] is_new_comment_schema(schema)
                        &&& match spec_scan_form(s@, schema, "NewComment"@) {
                            Err(e2) => e@ == e2,
                            Ok(slots) => new_comment_form_missing(slots) == Some(e@),
                        }
                    },
            },
    {
        let mut schema: Vec<FormField> = Vec::new();
        schema.push(FormField { key: "body".to_owned(), kind: FieldKind::KString });
        proof {
            assert(is_new_comment_schema(schema@));
        }
        let slots = match scan_form(s, &schema, "NewComment") {
            Ok(x) => x,
            Err(e) => {
                return Err(e);
            },
        };
        let ghost sl = slots_view(slots@);
        let body = match &slots[0] {
            Some(FormVal::VText(v)) => v.clone(),
            _ => {
                proof {
                    assert(!(sl[0] matches Some(FormValSpec::VText(_))));
                }
                return Err(missing_msg("body", "NewComment"));
            },
        };
        proof {
            assert(sl[0] == Some(FormValSpec::VText(body@)));
        }
        Ok(NewComment { body })
    }
}

/// The form-encoding entries of a `NewUser`.
pub open spec fn new_user_form_items(m: NewUser) -> Seq<Seq<char>> {
    item_str("username"@, m.username@) + item_str("email"@, m.email@) + item_str("password"@, m.password@)
}

/// The form encoding of a `NewUser`.
pub open spec fn new_user_form(m: NewUser) -> Seq<char> {
    join_all(new_user_form_items(m))
}

/// The field schema the scan of a `NewUser` uses.
pub open spec fn is_new_user_schema(schema: Seq<FormField>) -> bool {
    &&& schema.len() == 3
    &&& schema[0].key@ == "username"@ && schema[0].kind is KString
    &&& schema[1].key@ == "email"@ && schema[1].kind is KString
    &&& schema[2].key@ == "password"@ && schema[2].kind is KString
}

/// The first required field a scanned `NewUser` text left unset.
pub open spec fn new_user_form_missing(slots: Seq<Option<FormValSpec>>) -> Option<Seq<char>> {
    if !(slots[0] matches Some(FormValSpec::VText(_))) {
        Some("username"@ + " missing in "@ + "NewUser"@)
    } else if !(slots[1] matches Some(FormValSpec::VText(_))) {
        Some("email"@ + " missing in "@ + "NewUser"@)
    } else if !(slots[2] matches Some(FormValSpec::VText(_))) {
        Some("password"@ + " missing in "@ + "NewUser"@)
    } else {
        None
    }
}

/// How a successful scan's slots pin the model.
pub open spec fn new_user_form_ok(slots: Seq<Option<FormValSpec>>, m: NewUser) -> bool {
    &&& slots[0] == Some(FormValSpec::VText(m.username@))
    &&& slots[1] == Some(FormValSpec::VText(m.email@))
    &&& slots[2] == Some(FormValSpec::VText(m.password@))
}

impl NewUser {
    /// Writes the form encoding; exactly `new_user_form`.
    pub fn to_form_string(&self) -> (r: String)
        ensures
            r@ == new_user_form(*self),
    {
        let mut items: Vec<String> = Vec::new();
        items.push(mk_item("username", self.username.as_str()));
        proof {
            assert(strs_view(items@) =~= item_str("username"@, self.username@));
        }
        items.push(mk_item("email", self.email.as_str()));
        proof {
            assert(strs_view(items@) =~= item_str("username"@, self.username@) + item_str("email"@, self.email@));
        }
        items.push(mk_item("password", self.password.as_str()));
        proof {
            assert(strs_view(items@) =~= item_str("username"@, self.username@) + item_str("email"@, self.email@) + item_str("password"@, self.password@));
        }
        join_items(&items)
    }

    /// Reads the form encoding back; exact against the scan of the
    /// field schema, a required field's absence reported by its key.
    pub fn from_form_str(s: &str) -> (r: Result<NewUser, String>)
        ensures
            match r {
                Ok(m) => exists|schema: Seq<FormField>|
                    {
                        &&& #[trigger] is_new_user_schema(schema)
                        &&& spec_scan_form(s@, schema, "NewUser"@) matches Ok(slots)
                        &&& new_user_form_missing(spec_scan_form(s@, schema, "NewUser"@)->Ok_0)
                            is None
                        &&& new_user_form_ok(spec_scan_form(s@, schema, "NewUser"@)->Ok_0, m)
                    },
                Err(e) => exists|schema: Seq<FormField>|
                    {
                        &&& #[trigger] is_new_user_schema(schema)
                        &&& match spec_scan_form(s@, schema, "NewUser"@) {
                            Err(e2) => e@ == e2,
                            Ok(slots) => new_user_form_missing(slots) == Some(e@),
                        }
                    },
            },
    {
        let mut schema: Vec<FormField> = Vec::new();
        schema.push(FormField { key: "username".to_owned(), kind: FieldKind::KString });
        schema.push(FormField { key: "email".to_owned(), kind: FieldKind::KString });
        schema.push(FormField { key: "password".to_owned(), kind: FieldKind::KString });
        proof {
            assert(is_new_user_schema(schema@));
        }
        let slots = match scan_form(s, &schema, "NewUser") {
            Ok(x) => x,
            Err(e) => {
                return Err(e);
            },
        };
        let ghost sl = slots_view(slots@);
        let username = match &slots[0] {
            Some(FormVal::VText(v)) => v.clone(),
            _ => {
                proof {
                    assert(!(sl[0] matches Some(FormValSpec::VText(_))));
                }
                return Err(missing_msg("username", "NewUser"));
            },
        };
        proof {
            assert(sl[0] == Some(FormValSpec::VText(username@)));
        }
        let email = match &slots[1] {
            Some(FormVal::VText(v)) => v.clone(),
            _ => {
                proof {
                    assert(!(sl[1] matches Some(FormValSpec::VText(_))));
                }
                return Err(missing_msg("email", "NewUser"));
            },
        };
        proof {
            assert(sl[1] == Some(FormValSpec::VText(email@)));
        }
        let password = match &slots[2] {
            Some(FormVal::VText(v)) => v.clone(),
            _ => {
                proof {
                    assert(!(sl[2] matches Some(FormValSpec::VText(_))));
                }
                return Err(missing_msg("password", "NewUser"));
            },
        };
        proof {
            assert(sl[2] == Some(FormValSpec::VText(password@)));
        }
        Ok(NewUser { username, email, password })
    }
}

/// The form-encoding entries of a `Profile`.
pub open spec fn profile_form_items(m: Profile) -> Seq<Seq<char>> {
    item_str("username"@, m.username@) + item_str("bio"@, m.bio@) + item_str("image"@, m.image@) + item_bool("following"@, m.following)
}

/// The form encoding of a `Profile`.
pub open spec fn profile_form(m: Profile) -> Seq<char> {
    join_all(profile_form_items(m))
}

/// The field schema the scan of a `Profile` uses.
pub open spec fn is_profile_schema(schema: Seq<FormField>) -> bool {
    &&& schema.len() == 4
    &&& schema[0].key@ == "username"@ && schema[0].kind is KString
    &&& schema[1].key@ == "bio"@ && schema[1].kind is KString
    &&& schema[2].key@ == "image"@ && schema[2].kind is KString
    &&& schema[3].key@ == "following"@ && schema[3].kind is KBool
}

/// The first required field a scanned `Profile` text left unset.
pub open spec fn profile_form_missing(slots: Seq<Option<FormValSpec>>) -> Option<Seq<char>> {
    if !(slots[0] matches Some(FormValSpec::VText(_))) {
        Some("username"@ + " missing in "@ + "Profile"@)
    } else if !(slots[1] matches Some(FormValSpec::VText(_))) {
        Some("bio"@ + " missing in "@ + "Profile"@)
    } else if !(slots[2] matches Some(FormValSpec::VText(_))) {
        Some("image"@ + " missing in "@ + "Profile"@)
    } else if !(slots[3] matches Some(FormValSpec::VFlag(_))) {
        Some("following"@ + " missing in "@ + "Profile"@)
    } else {
        None
    }
}

/// How a successful scan's slots pin the model.
pub open spec fn profile_form_ok(slots: Seq<Option<FormValSpec>>, m: Profile) -> bool {
    &&& slots[0] == Some(FormValSpec::VText(m.username@))
    &&& slots[1] == Some(FormValSpec::VText(m.bio@))
    &&& slots[2] == Some(FormValSpec::VText(m.image@))
    &&& slots[3] == Some(FormValSpec::VFlag(m.following))
}

impl Profile {
    /// Writes the form encoding; exactly `profile_form`.
    pub fn to_form_string(&self) -> (r: String)
        ensures
            r@ == profile_form(*self),
    {
        let mut items: Vec<String> = Vec::new();
        items.push(mk_item("username", self.username.as_str()));
        proof {
            assert(strs_view(items@) =~= item_str("username"@, self.username@));
        }
        items.push(mk_item("bio", self.bio.as_str()));
        proof {
            assert(strs_view(items@) =~= item_str("username"@, self.username@) + item_str("bio"@, self.bio@));
        }
        items.push(mk_item("image", self.image.as_str()));
        proof {
            assert(strs_view(items@) =~= item_str("username"@, self.username@) + item_str("bio"@, self.bio@) + item_str("image"@, self.image@));
        }
        items.push(mk_item("following", bool_to_text(self.following).as_str()));
        proof {
            assert(strs_view(items@) =~= item_str("username"@, self.username@) + item_str("bio"@, self.bio@) + item_str("image"@, self.image@) + item_bool("following"@, self.following));
        }
        join_items(&items)
    }

    /// Reads the form encoding back; exact against the scan of the
    /// field schema, a required field's absence reported by its key.
    pub fn from_form_str(s: &str) -> (r: Result<Profile, String>)
        ensures
            match r {
                Ok(m) => exists|schema: Seq<FormField>|
                    {
                        &&& #[trigger] is_profile_schema(schema)
                        &&& spec_scan_form(s@, schema, "Profile"@) matches Ok(slots)
                        &&& profile_form_missing(spec_scan_form(s@, schema, "Profile"@)->Ok_0)
                            is None
                        &&& profile_form_ok(spec_scan_form(s@, schema, "Profile"@)->Ok_0, m)
                    },
                Err(e) => exists|schema: Seq<FormField>|
                    {
                        &&& #[trigger] is_profile_schema(schema)
                        &&& match spec_scan_form(s@, schema, "Profile"@) {
                            Err(e2) => e@ == e2,
                            Ok(slots) => profile_form_missing(slots) == Some(e@),
                        }
                    },
            },
    {
        let mut schema: Vec<FormField> = Vec::new();
        schema.push(FormField { key: "username".to_owned(), kind: FieldKind::KString });
        schema.push(FormField { key: "bio".to_owned(), kind: FieldKind::KString });
        schema.push(FormField { key: "image".to_owned(), kind: FieldKind::KString });
        schema.push(FormField { key: "following".to_owned(), kind: FieldKind::KBool });
        proof {
            assert(is_profile_schema(schema@));
        }
        let slots = match scan_form(s, &schema, "Profile") {
            Ok(x) => x,
            Err(e) => {
                return Err(e);
            },
        };
        let ghost sl = slots_view(slots@);
        let username = match &slots[0] {
            Some(FormVal::VText(v)) => v.clone(),
            _ => {
                proof {
                    assert(!(sl[0] matches Some(FormValSpec::VText(_))));
                }
                return Err(missing_msg("username", "Profile"));
            },
        };
        proof {
            assert(sl[0] == Some(FormValSpec::VText(username@)));
        }
        let bio = match &slots[1] {
            Some(FormVal::VText(v)) => v.clone(),
            _ => {
                proof {
                    assert(!(sl[1] matches Some(FormValSpec::VText(_))));
                }
                return Err(missing_msg("bio", "Profile"));
            },
        };
        proof {
            assert(sl[1] == Some(FormValSpec::VText(bio@)));
        }
        let image = match &slots[2] {
            Some(FormVal::VText(v)) => v.clone(),
            _ => {
                proof {
                    assert(!(sl[2] matches Some(FormValSpec::VText(_))));
                }
                return Err(missing_msg("image", "Profile"));
            },
        };
        proof {
            assert(sl[2] == Some(FormValSpec::VText(image@)));
        }
        let following = match &slots[3] {
            Some(FormVal::VFlag(b)) => *b,
            _ => {
                proof {
                    assert(!(sl[3] matches Some(FormValSpec::VFlag(_))));
                }
                return Err(missing_msg("following", "Profile"));
            },
        };
        proof {
            assert(sl[3] == Some(FormValSpec::VFlag(following)));
        }
        Ok(Profile { username, bio, image, following })
    }
}

/// The form-encoding entries of an `UpdateArticle`.
pub open spec fn update_article_form_items(m: UpdateArticle) -> Seq<Seq<char>> {
    item_opt_str("title"@, m.title) + item_opt_str("description"@, m.description) + item_opt_str("body"@, m.body)
}

/// The form encoding of an `UpdateArticle`.
pub open spec fn update_article_form(m: UpdateArticle) -> Seq<char> {
    join_all(update_article_form_items(m))
}

/// The field schema the scan of an `UpdateArticle` uses.
pub open spec fn is_update_article_schema(schema: Seq<FormField>) -> bool {
    &&& schema.len() == 3
    &&& schema[0].key@ == "title"@ && schema[0].kind is KString
    &&& schema[1].key@ == "description"@ && schema[1].kind is KString
    &&& schema[2].key@ == "body"@ && schema[2].kind is KString
}

/// The first required field a scanned `UpdateArticle` text left unset.
pub open spec fn update_article_form_missing(slots: Seq<Option<FormValSpec>>) -> Option<Seq<char>> {
    None
}

/// How a successful scan's slots pin the model.
pub open spec fn update_article_form_ok(slots: Seq<Option<FormValSpec>>, m: UpdateArticle) -> bool {
    &&& match m.title {
        Some(v) => slots[0] == Some(FormValSpec::VText(v@)),
        None => !(slots[0] matches Some(FormValSpec::VText(_))),
    }
    &&& match m.description {
        Some(v) => slots[1] == Some(FormValSpec::VText(v@)),
        None => !(slots[1] matches Some(FormValSpec::VText(_))),
    }
    &&& match m.body {
        Some(v) => slots[2] == Some(FormValSpec::VText(v@)),
        None => !(slots[2] matches Some(FormValSpec::VText(_))),
    }
}

impl UpdateArticle {
    /// Writes the form encoding; exactly `update_article_form`.
    pub fn to_form_string(&self) -> (r: String)
        ensures
            r@ == update_article_form(*self),
    {
        let mut items: Vec<String> = Vec::new();
        match &self.title {
            Some(v) => {
                items.push(mk_item("title", v.as_str()));
            },
            None => {},
        }
        proof {
            assert(strs_view(items@) =~= item_opt_str("title"@, self.title));
        }
        match &self.description {
            Some(v) => {
                items.push(mk_item("description", v.as_str()));
            },
            None => {},
        }
        proof {
            assert(strs_view(items@) =~= item_opt_str("title"@, self.title) + item_opt_str("description"@, self.description));
        }
        match &self.body {
            Some(v) => {
                items.push(mk_item("body", v.as_str()));
            },
            None => {},
        }
        proof {
            assert(strs_view(items@) =~= item_opt_str("title"@, self.title) + item_opt_str("description"@, self.description) + item_opt_str("body"@, self.body));
        }
        join_items(&items)
    }

    /// Reads the form encoding back; exact against the scan of the
    /// field schema, a required field's absence reported by its key.
    pub fn from_form_str(s: &str) -> (r: Result<UpdateArticle, String>)
        ensures
            match r {
                Ok(m) => exists|schema: Seq<FormField>|
                    {
                        &&& #[trigger] is_update_article_schema(schema)
                        &&& spec_scan_form(s@, schema, "UpdateArticle"@) matches Ok(slots)
                        &&& update_article_form_missing(spec_scan_form(s@, schema, "UpdateArticle"@)->Ok_0)
                            is None
                        &&& update_article_form_ok(spec_scan_form(s@, schema, "UpdateArticle"@)->Ok_0, m)
                    },
                Err(e) => exists|schema: Seq<FormField>|
                    {
                        &&& #[trigger] is_update_article_schema(schema)
                        &&& match spec_scan_form(s@, schema, "UpdateArticle"@) {
                            Err(e2) => e@ == e2,
                            Ok(slots) => update_article_form_missing(slots) == Some(e@),
                        }
                    },
            },
    {
        let mut schema: Vec<FormField> = Vec::new();
        schema.push(FormField { key: "title".to_owned(), kind: FieldKind::KString });
        schema.push(FormField { key: "description".to_owned(), kind: FieldKind::KString });
        schema.push(FormField { key: "body".to_owned(), kind: FieldKind::KString });
        proof {
            assert(is_update_article_schema(schema@));
        }
        let slots = match scan_form(s, &schema, "UpdateArticle") {
            Ok(x) => x,
            Err(e) => {
                return Err(e);
            },
        };
        let ghost sl = slots_view(slots@);
        let title = match &slots[0] {
            Some(FormVal::VText(v)) => Some(v.clone()),
            _ => None,
        };
        let description = match &slots[1] {
            Some(FormVal::VText(v)) => Some(v.clone()),
            _ => None,
        };
        let body = match &slots[2] {
            Some(FormVal::VText(v)) => Some(v.clone()),
            _ => None,
        };
        Ok(UpdateArticle { title, description, body })
    }
}

/// The form-encoding entries of an `UpdateArticleRequest`.
pub open spec fn update_article_request_form_items(m: UpdateArticleRequest) -> Seq<Seq<char>> {
    Seq::empty()
}

/// The form encoding of an `UpdateArticleRequest`.
pub open spec fn update_article_request_form(m: UpdateArticleRequest) -> Seq<char> {
    join_all(update_article_request_form_items(m))
}

/// The field schema the scan of an `UpdateArticleRequest` uses.
pub open spec fn is_update_article_request_schema(schema: Seq<FormField>) -> bool {
    &&& schema.len() == 1
    &&& schema[0].key@ == "article"@ && schema[0].kind is KNested
}

/// The first required field a scanned `UpdateArticleRequest` text left unset.
pub open spec fn update_article_request_form_missing(slots: Seq<Option<FormValSpec>>) -> Option<Seq<char>> {
    if !(false) {
        Some("article"@ + " missing in "@ + "UpdateArticleRequest"@)
    } else {
        None
    }
}

/// How a successful scan's slots pin the model.
pub open spec fn update_article_request_form_ok(slots: Seq<Option<FormValSpec>>, m: UpdateArticleRequest) -> bool {
    true
}

impl UpdateArticleRequest {
    /// Writes the form encoding; exactly `update_article_request_form`.
    pub fn to_form_string(&self) -> (r: String)
        ensures
            r@ == update_article_request_form(*self),
    {
        let mut items: Vec<String> = Vec::new();
        proof {
            assert(strs_view(items@) =~= Seq::<Seq<char>>::empty());
        }
        join_items(&items)
    }

    /// Reads the form encoding back; exact against the scan of the
    /// field schema, a required field's absence reported by its key.
    pub fn from_form_str(s: &str) -> (r: Result<UpdateArticleRequest, String>)
        ensures
            match r {
                Ok(m) => exists|schema: Seq<FormField>|
                    {
                        &&& #[trigger] is_update_article_request_schema(schema)
                        &&& spec_scan_form(s@, schema, "UpdateArticleRequest"@) matches Ok(slots)
                        &&& update_article_request_form_missing(spec_scan_form(s@, schema, "UpdateArticleRequest"@)->Ok_0)
                            is None
                        &&& update_article_request_form_ok(spec_scan_form(s@, schema, "UpdateArticleRequest"@)->Ok_0, m)
                    },
                Err(e) => exists|schema: Seq<FormField>|
                    {
                        &&& #[trigger] is_update_article_request_schema(schema)
                        &&& match spec_scan_form(s@, schema, "UpdateArticleRequest"@) {
                            Err(e2) => e@ == e2,
                            Ok(slots) => update_article_request_form_missing(slots) == Some(e@),
                        }
                    },
            },
    {
        let mut schema: Vec<FormField> = Vec::new();
        schema.push(FormField { key: "article".to_owned(), kind: FieldKind::KNested });
        proof {
            assert(is_update_article_request_schema(schema@));
        }
        let slots = match scan_form(s, &schema, "UpdateArticleRequest") {
            Ok(x) => x,
            Err(e) => {
                return Err(e);
            },
        };
        let ghost sl = slots_view(slots@);
        return Err(missing_msg("article", "UpdateArticleRequest"));

    }
}

/// The form-encoding entries of an `UpdateCurrentUserRequest`.
pub open spec fn update_current_user_request_form_items(m: UpdateCurrentUserRequest) -> Seq<Seq<char>> {
    Seq::empty()
}

/// The form encoding of an `UpdateCurrentUserRequest`.
pub open spec fn update_current_user_request_form(m: UpdateCurrentUserRequest) -> Seq<char> {
    join_all(update_current_user_request_form_items(m))
}

/// The field schema the scan of an `UpdateCurrentUserRequest` uses.
pub open spec fn is_update_current_user_request_schema(schema: Seq<FormField>) -> bool {
    &&& schema.len() == 1
    &&& schema[0].key@ == "user"@ && schema[0].kind is KNested
}

/// The first required field a scanned `UpdateCurrentUserRequest` text left unset.
pub open spec fn update_current_user_request_form_missing(slots: Seq<Option<FormValSpec>>) -> Option<Seq<char>> {
    if !(false) {
        Some("user"@ + " missing in "@ + "UpdateCurrentUserRequest"@)
    } else {
        None
    }
}

/// How a successful scan's slots pin the model.
pub open spec fn update_current_user_request_form_ok(slots: Seq<Option<FormValSpec>>, m: UpdateCurrentUserRequest) -> bool {
    true
}

impl UpdateCurrentUserRequest {
    /// Writes the form encoding; exactly `update_current_user_request_form`.
    pub fn to_form_string(&self) -> (r: String)
        ensures
            r@ == update_current_user_request_form(*self),
    {
        let mut items: Vec<String> = Vec::new();
        proof {
            assert(strs_view(items@) =~= Seq::<Seq<char>>::empty());
        }
        join_items(&items)
    }

    /// Reads the form encoding back; exact against the scan of the
    /// field schema, a required field's absence reported by its key.
    pub fn from_form_str(s: &str) -> (r: Result<UpdateCurrentUserRequest, String>)
        ensures
            match r {
                Ok(m) => exists|schema: Seq<FormField>|
                    {
                        &&& #[trigger] is_update_current_user_request_schema(schema)
                        &&& spec_scan_form(s@, schema, "UpdateCurrentUserRequest"@) matches Ok(slots)
                        &&& update_current_user_request_form_missing(spec_scan_form(s@, schema, "UpdateCurrentUserRequest"@)->Ok_0)
                            is None
                        &&& update_current_user_request_form_ok(spec_scan_form(s@, schema, "UpdateCurrentUserRequest"@)->Ok_0, m)
                    },
                Err(e) => exists|schema: Seq<FormField>|
                    {
                        &&& #[trigger] is_update_current_user_request_schema(schema)
                        &&& match spec_scan_form(s@, schema, "UpdateCurrentUserRequest"@) {
                            Err(e2) => e@ == e2,
                            Ok(slots) => update_current_user_request_form_missing(slots) == Some(e@),
                        }
                    },
            },
    {
        let mut schema: Vec<FormField> = Vec::new();
        schema.push(FormField { key: "user".to_owned(), kind: FieldKind::KNested });
        proof {
            assert(is_update_current_user_request_schema(schema@));
        }
        let slots = match scan_form(s, &schema, "UpdateCurrentUserRequest") {
            Ok(x) => x,
            Err(e) => {
                return Err(e);
            },
        };
        let ghost sl = slots_view(slots@);
        return Err(missing_msg("user", "UpdateCurrentUserRequest"));

    }
}

/// The form-encoding entries of an `UpdateUser`.
pub open spec fn update_user_form_items(m: UpdateUser) -> Seq<Seq<char>> {
    item_opt_str("email"@, m.email) + item_opt_str("password"@, m.password) + item_opt_str("username"@, m.username) + item_opt_str("bio"@, m.bio) + item_opt_str("image"@, m.image)
}

/// The form encoding of an `UpdateUser`.
pub open spec fn update_user_form(m: UpdateUser) -> Seq<char> {
    join_all(update_user_form_items(m))
}

/// The field schema the scan of an `UpdateUser` uses.
pub open spec fn is_update_user_schema(schema: Seq<FormField>) -> bool {
    &&& schema.len() == 5
    &&& schema[0].key@ == "email"@ && schema[0].kind is KString
    &&& schema[1].key@ == "password"@ && schema[1].kind is KString
    &&& schema[2].key@ == "username"@ && schema[2].kind is KString
    &&& schema[3].key@ == "bio"@ && schema[3].kind is KString
    &&& schema[4].key@ == "image"@ && schema[4].kind is KString
}

/// The first required field a scanned `UpdateUser` text left unset.
pub open spec fn update_user_form_missing(slots: Seq<Option<FormValSpec>>) -> Option<Seq<char>> {
    None
}

/// How a successful scan's slots pin the model.
pub open spec fn update_user_form_ok(slots: Seq<Option<FormValSpec>>, m: UpdateUser) -> bool {
    &&& match m.email {
        Some(v) => slots[0] == Some(FormValSpec::VText(v@)),
        None => !(slots[0] matches Some(FormValSpec::VText(_))),
    }
    &&& match m.password {
        Some(v) => slots[1] == Some(FormValSpec::VText(v@)),
        None => !(slots[1] matches Some(FormValSpec::VText(_))),
    }
    &&& match m.username {
        Some(v) => slots[2] == Some(FormValSpec::VText(v@)),
        None => !(slots[2] matches Some(FormValSpec::VText(_))),
    }
    &&& match m.bio {
        Some(v) => slots[3] == Some(FormValSpec::VText(v@)),
        None => !(slots[3] matches Some(FormValSpec::VText(_))),
    }
    &&& match m.image {
        Some(v) => slots[4] == Some(FormValSpec::VText(v@)),
        None => !(slots[4] matches Some(FormValSpec::VText(_))),
    }
}

impl UpdateUser {
    /// Writes the form encoding; exactly `update_user_form`.
    pub fn to_form_string(&self) -> (r: String)
        ensures
            r@ == update_user_form(*self),
    {
        let mut items: Vec<String> = Vec::new();
        match &self.email {
            Some(v) => {
                items.push(mk_item("email", v.as_str()));
            },
            None => {},
        }
        proof {
            assert(strs_view(items@) =~= item_opt_str("email"@, self.email));
        }
        match &self.password {
            Some(v) => {
                items.push(mk_item("password", v.as_str()));
            },
            None => {},
        }
        proof {
            assert(strs_view(items@) =~= item_opt_str("email"@, self.email) + item_opt_str("password"@, self.password));
        }
        match &self.username {
            Some(v) => {
                items.push(mk_item("username", v.as_str()));
            },
            None => {},
        }
        proof {
            assert(strs_view(items@) =~= item_opt_str("email"@, self.email) + item_opt_str("password"@, self.password) + item_opt_str("username"@, self.username));
        }
        match &self.bio {
            Some(v) => {
                items.push(mk_item("bio", v.as_str()));
            },
            None => {},
        }
        proof {
            assert(strs_view(items@) =~= item_opt_str("email"@, self.email) + item_opt_str("password"@, self.password) + item_opt_str("username"@, self.username) + item_opt_str("bio"@, self.bio));
        }
        match &self.image {
            Some(v) => {
                items.push(mk_item("image", v.as_str()));
            },
            None => {},
        }
        proof {
            assert(strs_view(items@) =~= item_opt_str("email"@, self.email) + item_opt_str("password"@, self.password) + item_opt_str("username"@, self.username) + item_opt_str("bio"@, self.bio) + item_opt_str("image"@, self.image));
        }
        join_items(&items)
    }

    /// Reads the form encoding back; exact against the scan of the
    /// field schema, a required field's absence reported by its key.
    pub fn from_form_str(s: &str) -> (r: Result<UpdateUser, String>)
        ensures
            match r {
                Ok(m) => exists|schema: Seq<FormField>|
                    {
                        &&& #[trigger] is_update_user_schema(schema)
                        &&& spec_scan_form(s@, schema, "UpdateUser"@) matches Ok(slots)
                        &&& update_user_form_missing(spec_scan_form(s@, schema, "UpdateUser"@)->Ok_0)
                            is None
                        &&& update_user_form_ok(spec_scan_form(s@, schema, "UpdateUser"@)->Ok_0, m)
                    },
                Err(e) => exists|schema: Seq<FormField>|
                    {
                        &&& #[trigger] is_update_user_schema(schema)
                        &&& match spec_scan_form(s@, schema, "UpdateUser"@) {
                            Err(e2) => e@ == e2,
                            Ok(slots) => update_user_form_missing(slots) == Some(e@),
                        }
                    },
            },
    {
        let mut schema: Vec<FormField> = Vec::new();
        schema.push(FormField { key: "email".to_owned(), kind: FieldKind::KString });
        schema.push(FormField { key: "password".to_owned(), kind: FieldKind::KString });
        schema.push(FormField { key: "username".to_owned(), kind: FieldKind::KString });
        schema.push(FormField { key: "bio".to_owned(), kind: FieldKind::KString });
        schema.push(FormField { key: "image".to_owned(), kind: FieldKind::KString });
        proof {
            assert(is_update_user_schema(schema@));
        }
        let slots = match scan_form(s, &schema, "UpdateUser") {
            Ok(x) => x,
            Err(e) => {
                return Err(e);
            },
        };
        let ghost sl = slots_view(slots@);
        let email = match &slots[0] {
            Some(FormVal::VText(v)) => Some(v.clone()),
            _ => None,
        };
        let password = match &slots[1] {
            Some(FormVal::VText(v)) => Some(v.clone()),
            _ => None,
        };
        let username = match &slots[2] {
            Some(FormVal::VText(v)) => Some(v.clone()),
            _ => None,
        };
        let bio = match &slots[3] {
            Some(FormVal::VText(v)) => Some(v.clone()),
            _ => None,
        };
        let image = match &slots[4] {
            Some(FormVal::VText(v)) => Some(v.clone()),
            _ => None,
        };
        Ok(UpdateUser { email, password, username, bio, image })
    }
}

/// The form-encoding entries of a `User`.
pub open spec fn user_form_items(m: User) -> Seq<Seq<char>> {
    item_str("email"@, m.email@) + item_str("token"@, m.token@) + item_str("username"@, m.username@) + item_str("bio"@, m.bio@) + item_str("image"@, m.image@)
}

/// The form encoding of a `User`.
pub open spec fn user_form(m: User) -> Seq<char> {
    join_all(user_form_items(m))
}

/// The field schema the scan of a `User` uses.
pub open spec fn is_user_schema(schema: Seq<FormField>) -> bool {
    &&& schema.len() == 5
    &&& schema[0].key@ == "email"@ && schema[0].kind is KString
    &&& schema[1].key@ == "token"@ && schema[1].kind is KString
    &&& schema[2].key@ == "username"@ && schema[2].kind is KString
    &&& schema[3].key@ == "bio"@ && schema[3].kind is KString
    &&& schema[4].key@ == "image"@ && schema[4].kind is KString
}

/// The first required field a scanned `User` text left unset.
pub open spec fn user_form_missing(slots: Seq<Option<FormValSpec>>) -> Option<Seq<char>> {
    if !(slots[0] matches Some(FormValSpec::VText(_))) {
        Some("email"@ + " missing in "@ + "User"@)
    } else if !(slots[1] matches Some(FormValSpec::VText(_))) {
        Some("token"@ + " missing in "@ + "User"@)
    } else if !(slots[2] matches Some(FormValSpec::VText(_))) {
        Some("username"@ + " missing in "@ + "User"@)
    } else if !(slots[3] matches Some(FormValSpec::VText(_))) {
        Some("bio"@ + " missing in "@ + "User"@)
    } else if !(slots[4] matches Some(FormValSpec::VText(_))) {
        Some("image"@ + " missing in "@ + "User"@)
    } else {
        None
    }
}

/// How a successful scan's slots pin the model.
pub open spec fn user_form_ok(slots: Seq<Option<FormValSpec>>, m: User) -> bool {
    &&& slots[0] == Some(FormValSpec::VText(m.email@))
    &&& slots[1] == Some(FormValSpec::VText(m.token@))
    &&& slots[2] == Some(FormValSpec::VText(m.username@))
    &&& slots[3] == Some(FormValSpec::VText(m.bio@))
    &&& slots[4] == Some(FormValSpec::VText(m.image@))
}

impl User {
    /// Writes the form encoding; exactly `user_form`.
    pub fn to_form_string(&self) -> (r: String)
        ensures
            r@ == user_form(*self),
    {
        let mut items: Vec<String> = Vec::new();
        items.push(mk_item("email", self.email.as_str()));
        proof {
            assert(strs_view(items@) =~= item_str("email"@, self.email@));
        }
        items.push(mk_item("token", self.token.as_str()));
        proof {
            assert(strs_view(items@) =~= item_str("email"@, self.email@) + item_str("token"@, self.token@));
        }
        items.push(mk_item("username", self.username.as_str()));
        proof {
            assert(strs_view(items@) =~= item_str("email"@, self.email@) + item_str("token"@, self.token@) + item_str("username"@, self.username@));
        }
        items.push(mk_item("bio", self.bio.as_str()));
        proof {
            assert(strs_view(items@) =~= item_str("email"@, self.email@) + item_str("token"@, self.token@) + item_str("username"@, self.username@) + item_str("bio"@, self.bio@));
        }
        items.push(mk_item("image", self.image.as_str()));
        proof {
            assert(strs_view(items@) =~= item_str("email"@, self.email@) + item_str("token"@, self.token@) + item_str("username"@, self.username@) + item_str("bio"@, self.bio@) + item_str("image"@, self.image@));
        }
        join_items(&items)
    }

    /// Reads the form encoding back; exact against the scan of the
    /// field schema, a required field's absence reported by its key.
    pub fn from_form_str(s: &str) -> (r: Result<User, String>)
        ensures
            match r {
                Ok(m) => exists|schema: Seq<FormField>|
                    {
                        &&& #[trigger] is_user_schema(schema)
                        &&& spec_scan_form(s@, schema, "User"@) matches Ok(slots)
                        &&& user_form_missing(spec_scan_form(s@, schema, "User"@)->Ok_0)
                            is None
                        &&& user_form_ok(spec_scan_form(s@, schema, "User"@)->Ok_0, m)
                    },
                Err(e) => exists|schema: Seq<FormField>|
                    {
                        &&& #[trigger] is_user_schema(schema)
                        &&& match spec_scan_form(s@, schema, "User"@) {
                            Err(e2) => e@ == e2,
                            Ok(slots) => user_form_missing(slots) == Some(e@),
                        }
                    },
            },
    {
        let mut schema: Vec<FormField> = Vec::new();
        schema.push(FormField { key: "email".to_owned(), kind: FieldKind::KString });
        schema.push(FormField { key: "token".to_owned(), kind: FieldKind::KString });
        schema.push(FormField { key: "username".to_owned(), kind: FieldKind::KString });
        schema.push(FormField { key: "bio".to_owned(), kind: FieldKind::KString });
        schema.push(FormField { key: "image".to_owned(), kind: FieldKind::KString });
        proof {
            assert(is_user_schema(schema@));
        }
        let slots = match scan_form(s, &schema, "User") {
            Ok(x) => x,
            Err(e) => {
                return Err(e);
            },
        };
        let ghost sl = slots_view(slots@);
        let email = match &slots[0] {
            Some(FormVal::VText(v)) => v.clone(),
            _ => {
                proof {
                    assert(!(sl[0] matches Some(FormValSpec::VText(_))));
                }
                return Err(missing_msg("email", "User"));
            },
        };
        proof {
            assert(sl[0] == Some(FormValSpec::VText(email@)));
        }
        let token = match &slots[1] {
            Some(FormVal::VText(v)) => v.clone(),
            _ => {
                proof {
                    assert(!(sl[1] matches Some(FormValSpec::VText(_))));
                }
                return Err(missing_msg("token", "User"));
            },
        };
        proof {
            assert(sl[1] == Some(FormValSpec::VText(token@)));
        }
        let username = match &slots[2] {
            Some(FormVal::VText(v)) => v.clone(),
            _ => {
                proof {
                    assert(!(sl[2] matches Some(FormValSpec::VText(_))));
                }
                return Err(missing_msg("username", "User"));
            },
        };
        proof {
            assert(sl[2] == Some(FormValSpec::VText(username@)));
        }
        let bio = match &slots[3] {
            Some(FormVal::VText(v)) => v.clone(),
            _ => {
                proof {
                    assert(!(sl[3] matches Some(FormValSpec::VText(_))));
                }
                return Err(missing_msg("bio", "User"));
            },
        };
        proof {
            assert(sl[3] == Some(FormValSpec::VText(bio@)));
        }
        let image = match &slots[4] {
            Some(FormVal::VText(v)) => v.clone(),
            _ => {
                proof {
                    assert(!(sl[4] matches Some(FormValSpec::VText(_))));
                }
                return Err(missing_msg("image", "User"));
            },
        };
        proof {
            assert(sl[4] == Some(FormValSpec::VText(image@)));
        }
        Ok(User { email, token, username, bio, image })
    }
}

} // verus!
