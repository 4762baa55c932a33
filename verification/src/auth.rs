//! The authentication extension point: a deployment supplies the claims
//! type and how claims are resolved from request headers.

use vstd::prelude::*;
use crate::http::HeaderMap;

verus! {

/// API key authentication through a header.
///
/// Resolution must not fail for malformed or missing headers: absent or
/// invalid credentials are `None`, never an error. The pipeline never
/// inspects a claims value; it only passes it to the handler.
pub trait ApiKeyAuthHeader {
    type Claims;

    /// Extracts the claims from the header under `key`, or `None` if the
    /// claims are invalid.
    fn extract_claims_from_header(&self, headers: &HeaderMap, key: &str) -> Option<Self::Claims>;
}

} // verus!
