//! Tests of query-string extraction and the validation layer.

use conduit_core::models::{GetArticlesFeedQueryParams, GetArticlesQueryParams};
use conduit_core::query::{extract_get_articles_feed_query, extract_get_articles_query};
use conduit_core::validation::{
    get_articles_feed_validation, get_articles_validation, FieldError, ValidationErrors,
};

#[test]
fn query_extracts_fields() {
    let q = extract_get_articles_query("tag=rust&offset=3&limit=10").expect("extracts");
    assert_eq!(q.tag, Some("rust".to_string()));
    assert_eq!(q.author, None);
    assert_eq!(q.favorited, None);
    assert_eq!(q.offset, Some(3));
    assert_eq!(q.limit, Some(10));
}

#[test]
fn query_percent_decoding() {
    let q = extract_get_articles_query("tag=hello+world%21&author=a%2Fb").expect("extracts");
    assert_eq!(q.tag, Some("hello world!".to_string()));
    assert_eq!(q.author, Some("a/b".to_string()));
}

#[test]
fn query_edge_shapes() {
    let q = extract_get_articles_query("").expect("empty query extracts");
    assert_eq!(q.tag, None);
    let q = extract_get_articles_query("tag").expect("bare key extracts");
    assert_eq!(q.tag, Some(String::new()));
    let q = extract_get_articles_query("tag=a&tag=b").expect("first occurrence counts");
    assert_eq!(q.tag, Some("a".to_string()));
    let q = extract_get_articles_query("unknown=1").expect("unknown keys ignored");
    assert_eq!(q.offset, None);
}

#[test]
fn query_rejects_bad_numbers_and_escapes() {
    assert_eq!(
        extract_get_articles_query("offset=abc").unwrap_err(),
        "offset must be an integer"
    );
    assert_eq!(
        extract_get_articles_query("limit=1x").unwrap_err(),
        "limit must be an integer"
    );
    assert_eq!(
        extract_get_articles_query("tag=%zz").unwrap_err(),
        "invalid query string"
    );
}

#[test]
fn negative_offset_parses_then_fails_validation() {
    // a below-bound value is kept by extraction and rejected by validation,
    // so all violations can be collected together
    let q = extract_get_articles_query("offset=-1&limit=0").expect("extracts");
    assert_eq!(q.offset, Some(-1));
    assert_eq!(q.limit, Some(0));
    let es = get_articles_validation(q).unwrap_err();
    assert_eq!(es.errors.len(), 2);
    assert_eq!(es.errors[0].field, "offset");
    assert_eq!(es.errors[0].message, "must be at least 0");
    assert_eq!(es.errors[1].field, "limit");
    assert_eq!(es.errors[1].message, "must be at least 1");
    assert_eq!(es.to_text(), "offset: must be at least 0\nlimit: must be at least 1");
}

#[test]
fn bounds_accept_valid_values() {
    let q = GetArticlesQueryParams {
        tag: None,
        author: None,
        favorited: None,
        offset: Some(0),
        limit: Some(1),
    };
    assert!(get_articles_validation(q).is_ok());
    let q = GetArticlesFeedQueryParams { offset: None, limit: None };
    assert!(get_articles_feed_validation(q).is_ok());
}

#[test]
fn feed_bounds_reject_low_limit() {
    let q = extract_get_articles_feed_query("limit=0").expect("extracts");
    let es = get_articles_feed_validation(q).unwrap_err();
    assert_eq!(es.errors.len(), 1);
    assert_eq!(es.errors[0].field, "limit");
    assert_eq!(es.to_text(), "limit: must be at least 1");
}

#[test]
fn report_serialization() {
    let es = ValidationErrors {
        errors: vec![
            FieldError {
                field: "a".to_string(),
                code: "range".to_string(),
                message: "m1".to_string(),
            },
            FieldError {
                field: "b".to_string(),
                code: "range".to_string(),
                message: "m2".to_string(),
            },
        ],
    };
    assert_eq!(es.to_text(), "a: m1\nb: m2");
}
