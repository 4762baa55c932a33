//! Tests of body binding: required fields, full field paths in errors, and
//! the tag-list default.

use conduit_core::bind::{
    bind_create_article_201, bind_create_article_request, bind_create_user_request,
    bind_login_request, bind_update_current_user_request,
};
use conduit_core::decode::parse_json;
use conduit_core::encode::article_envelope_to_json;
use conduit_core::json::write_json;
use conduit_core::models::{Article, CreateArticle201Response, DateTime, Profile};

fn parse(text: &str) -> conduit_core::json::JsonValue {
    parse_json(text).expect("test body parses")
}

#[test]
fn create_article_binds_required_fields() {
    let v = parse(r#"{"article":{"title":"T","description":"D","body":"B"}}"#);
    let m = bind_create_article_request(&v).expect("binds");
    assert_eq!(m.article.title, "T");
    assert_eq!(m.article.description, "D");
    assert_eq!(m.article.body, "B");
    assert_eq!(m.article.tag_list, None);
}

#[test]
fn create_article_missing_nested_field_names_full_path() {
    let v = parse(r#"{"article":{"description":"D","body":"B"}}"#);
    let e = bind_create_article_request(&v).unwrap_err();
    assert_eq!(e, "article.title missing");

    let v = parse(r#"{"article":{"title":"T","body":"B"}}"#);
    let e = bind_create_article_request(&v).unwrap_err();
    assert_eq!(e, "article.description missing");

    let v = parse(r#"{"user":{}}"#);
    let e = bind_create_article_request(&v).unwrap_err();
    assert_eq!(e, "article missing");

    let v = parse("[1]");
    let e = bind_create_article_request(&v).unwrap_err();
    assert_eq!(e, "body must be an object");
}

#[test]
fn create_article_wrong_types_are_named() {
    let v = parse(r#"{"article":{"title":3,"description":"D","body":"B"}}"#);
    let e = bind_create_article_request(&v).unwrap_err();
    assert_eq!(e, "article.title must be a string");

    let v = parse(r#"{"article":{"title":"T","description":"D","body":"B","tagList":[1]}}"#);
    let e = bind_create_article_request(&v).unwrap_err();
    assert_eq!(e, "article.tagList must be an array of strings");
}

#[test]
fn create_article_tag_list_binds() {
    let v = parse(r#"{"article":{"title":"T","description":"D","body":"B","tagList":["a","b"]}}"#);
    let m = bind_create_article_request(&v).expect("binds");
    assert_eq!(m.article.tag_list, Some(vec!["a".to_string(), "b".to_string()]));
}

#[test]
fn create_user_binds_and_reports() {
    let v = parse(r#"{"user":{"username":"bob","email":"bob@x.com","password":"secret"}}"#);
    let m = bind_create_user_request(&v).expect("binds");
    assert_eq!(m.user.username, "bob");
    assert_eq!(m.user.email, "bob@x.com");
    assert_eq!(m.user.password, "secret");

    let v = parse(r#"{"user":{"username":"bob","password":"secret"}}"#);
    let e = bind_create_user_request(&v).unwrap_err();
    assert_eq!(e, "user.email missing");
}

#[test]
fn login_and_update_user_bind() {
    let v = parse(r#"{"user":{"email":"a@b.c","password":"p"}}"#);
    let m = bind_login_request(&v).expect("binds");
    assert_eq!(m.user.email, "a@b.c");

    let v = parse(r#"{"user":{"bio":"hello"}}"#);
    let m = bind_update_current_user_request(&v).expect("binds");
    assert_eq!(m.user.bio, Some("hello".to_string()));
    assert_eq!(m.user.email, None);
}

fn sample_article() -> Article {
    Article {
        slug: "t".to_string(),
        title: "T".to_string(),
        description: "D".to_string(),
        body: "B".to_string(),
        tag_list: vec![],
        created_at: DateTime { text: "2024-01-01T00:00:00Z".to_string() },
        updated_at: DateTime { text: "2024-01-01T00:00:00Z".to_string() },
        favorited: false,
        favorites_count: 0,
        author: Profile {
            username: "bob".to_string(),
            bio: String::new(),
            image: String::new(),
            following: false,
        },
    }
}

#[test]
fn created_article_round_trips_over_the_wire() {
    let resp = CreateArticle201Response { article: sample_article() };
    let bytes = write_json(&article_envelope_to_json(&resp));
    let tree = parse_json(&bytes).expect("wire bytes parse");
    let back = bind_create_article_201(&tree).expect("wire tree binds");
    assert_eq!(back, resp);
}

#[test]
fn datetime_parse_accepts_rfc3339() {
    assert!(DateTime::parse("2024-01-01T00:00:00Z").is_some());
    assert!(DateTime::parse("2024-01-01T00:00:00+02:00").is_some());
    assert!(DateTime::parse("not a date").is_none());
}
