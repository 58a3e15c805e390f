//! Request and response types of user discovery.
use vstd::prelude::*;

verus! {

/// The most users one discovery page lists.
pub const MAX_DISCOVERY_PAGE: i64 = 50;

/// Users per discovery page when the client names no limit.
pub fn default_limit() -> (r: i64)
    ensures
        r == 20,
{
    20
}

/// The page size of a discovery listing, capped.
pub fn page_limit(limit: i64) -> (r: i64)
    ensures
        r == if limit < MAX_DISCOVERY_PAGE { limit } else { MAX_DISCOVERY_PAGE },
{
    if limit < MAX_DISCOVERY_PAGE {
        limit
    } else {
        MAX_DISCOVERY_PAGE
    }
}

pub struct SearchQuery {
    pub q: String,
    pub limit: i64,
}

pub struct LimitQuery {
    pub limit: i64,
}

pub struct UserSearchResult {
    pub id: String,
    pub username: String,
    pub display_name: Option<String>,
    pub avatar_url: Option<String>,
    pub bio: Option<String>,
    pub follower_count: Option<i32>,
    pub is_following: bool,
}

pub struct UpdateAvatarRequest {
    pub avatar_url: String,
}

} // verus!
