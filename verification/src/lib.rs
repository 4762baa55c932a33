//! Verified core of a REST binding layer for a social-blogging API.
//!
//! The crate implements the uniform per-request pipeline: resolve
//! authentication claims, extract and validate typed parameters, invoke a
//! domain handler through a fixed per-resource contract, and map the
//! handler's tagged outcome to an HTTP response.

pub mod text;
pub mod json;
pub mod decode;
pub mod models;
pub mod encode;
pub mod bind;
pub mod query;
pub mod validation;
pub mod http;
pub mod auth;
pub mod articles;
pub mod comments;
pub mod favorites;
pub mod profile;
pub mod tags;
pub mod user_and_authentication;
pub mod server;
pub mod laws;
pub mod form;
pub mod formcodec;

