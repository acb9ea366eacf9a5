//! Protocol types of `cached_content`.
use vstd::prelude::*;
use crate::proto::{Duration, Timestamp};
verus! {

/// Metadata on the usage of the cached content.
#[derive(Clone, Copy, Debug, PartialEq, Eq)]
pub struct UsageMetadata {
    /// Total number of tokens that the cached content consumes.
    pub total_token_count: i32,
}

/// Specifies when this resource will expire.
#[derive(Clone, Copy, Debug, PartialEq, Eq)]
pub enum Expiration {
    /// Timestamp in UTC of when this resource is considered expired.
    ExpireTime(Timestamp),
    /// New TTL for this resource, input only.
    Ttl(Duration),
}

} // verus!
