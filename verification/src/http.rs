//! Plain HTTP carrier types and the responses the pipeline produces.
//!
//! A response is pinned down completely by its predicate: status code,
//! header list, and body text.

use vstd::prelude::*;
use crate::json::{spec_write, JsonValue};

verus! {

/// The request methods the API serves.
#[derive(Debug, Clone, Copy, PartialEq, Eq, Structural)]
pub enum Method {
    Get,
    Post,
    Put,
    Delete,
}

/// The target host of a request, passed through to the handler.
#[derive(Debug, Clone, PartialEq)]
pub struct Host(pub String);

/// The request's cookies, passed through to the handler.
#[derive(Debug, Clone, PartialEq)]
pub struct CookieJar {
    pub cookies: Vec<(String, String)>,
}

impl CookieJar {
    pub fn new() -> (r: CookieJar)
        ensures
            r.cookies@.len() == 0,
    {
        CookieJar { cookies: Vec::new() }
    }
}

/// The request's headers as name-value pairs, in arrival order.
#[derive(Debug, Clone, PartialEq)]
pub struct HeaderMap {
    pub entries: Vec<(String, String)>,
}

impl HeaderMap {
    pub fn new() -> (r: HeaderMap)
        ensures
            r.entries@.len() == 0,
    {
        HeaderMap { entries: Vec::new() }
    }
}

/// A finished response: status code, headers, body text.
#[derive(Debug, Clone, PartialEq)]
pub struct HttpResponse {
    pub status: u16,
    pub headers: Vec<(String, String)>,
    pub body: String,
}

/// A response with the given status, no headers and an empty body.
pub open spec fn is_empty_response(r: HttpResponse, status: int) -> bool {
    &&& r.status == status
    &&& r.headers@.len() == 0
    &&& r.body@.len() == 0
}

/// A response with the given status, no headers, and the given body text.
pub open spec fn is_text_response(r: HttpResponse, status: int, body: Seq<char>) -> bool {
    &&& r.status == status
    &&& r.headers@.len() == 0
    &&& r.body@ == body
}

/// A response with the given status, exactly one `content-type:
/// application/json` header, and the given body text.
pub open spec fn is_json_response(r: HttpResponse, status: int, body: Seq<char>) -> bool {
    &&& r.status == status
    &&& r.headers@.len() == 1
    &&& r.headers@[0].0@ == "content-type"@
    &&& r.headers@[0].1@ == "application/json"@
    &&& r.body@ == body
}

/// `401 Unauthorized` with an empty body: what every auth-required endpoint
/// returns when no claims resolve, leaking nothing about the reason.
pub fn unauthorized_response() -> (r: HttpResponse)
    ensures
        is_empty_response(r, 401),
{
    HttpResponse { status: 401, headers: Vec::new(), body: String::new() }
}

/// `500 Internal Server Error` with an empty body: a handler-contract
/// violation, never detailed to the client.
pub fn internal_error_response() -> (r: HttpResponse)
    ensures
        is_empty_response(r, 500),
{
    HttpResponse { status: 500, headers: Vec::new(), body: String::new() }
}

/// An empty-bodied success, as the delete endpoints return.
pub fn empty_response(status: u16) -> (r: HttpResponse)
    ensures
        is_empty_response(r, status as int),
{
    HttpResponse { status, headers: Vec::new(), body: String::new() }
}

/// `400 Bad Request` carrying error text.
pub fn bad_request_response(text: String) -> (r: HttpResponse)
    ensures
        is_text_response(r, 400, text@),
{
    HttpResponse { status: 400, headers: Vec::new(), body: text }
}

/// A JSON response: the serialized tree as the body, under a content-type
/// header.
pub fn json_response(status: u16, v: &JsonValue) -> (r: HttpResponse)
    ensures
        is_json_response(r, status as int, spec_write(v@)),
{
    let body = crate::json::write_json(v);
    let mut headers: Vec<(String, String)> = Vec::new();
    headers.push(("content-type".to_owned(), "application/json".to_owned()));
    HttpResponse { status, headers, body }
}

} // verus!
