//! Request types of the personalised feed.
use vstd::prelude::*;

verus! {

/// The most stories one feed page lists.
pub const MAX_FEED_PAGE: i64 = 50;

/// Stories per feed page when the client names no limit.
pub fn default_limit() -> (r: i64)
    ensures
        r == 20,
{
    20
}

pub struct FeedQuery {
    pub limit: i64,
    pub offset: i64,
}

impl FeedQuery {
    /// A query that names neither limit nor offset.
    pub fn unspecified() -> (r: FeedQuery)
        ensures
            r.limit == 20,
            r.offset == 0,
    {
        FeedQuery { limit: default_limit(), offset: 0 }
    }

    /// The page size, capped.
    pub fn page_limit(&self) -> (r: i64)
        ensures
            r == if self.limit < MAX_FEED_PAGE { self.limit } else { MAX_FEED_PAGE },
    {
        if self.limit < MAX_FEED_PAGE {
            self.limit
        } else {
            MAX_FEED_PAGE
        }
    }
}

pub struct RecordInteractionRequest {
    pub interaction_type: String,
    pub duration_seconds: Option<i32>,
}

} // verus!
