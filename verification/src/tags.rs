//! The Tags resource: the outcome enum and handler contract of the one tag
//! endpoint.

use vstd::prelude::*;
use crate::http::{CookieJar, Host, Method};
use crate::models;

verus! {

#[derive(Debug, PartialEq)]
#[must_use]
pub enum GetTagsResponse {
    /// List of tags
    Status200_ListOfTags(models::GetTags200Response),
    /// Unexpected error
    Status422_UnexpectedError(models::GenericErrorModel),
}

/// Tags: the domain operation behind the tag endpoint.
pub trait Tags {
    /// Get tags.
    ///
    /// GetTags - GET /api/tags
    fn get_tags(&self, method: Method, host: Host, cookies: CookieJar) -> Result<
        GetTagsResponse,
        (),
    >;
}

} // verus!
