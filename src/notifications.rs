//! Request and response types of notifications.
use vstd::prelude::*;

verus! {

/// The most notifications one page lists.
pub const MAX_NOTIFICATION_PAGE: i64 = 100;

/// Notifications per page when the client names no limit.
pub fn default_limit() -> (r: i64)
    ensures
        r == 50,
{
    50
}

pub struct LimitQuery {
    pub limit: i64,
}

impl LimitQuery {
    /// The page size, capped.
    pub fn page_limit(&self) -> (r: i64)
        ensures
            r == if self.limit < MAX_NOTIFICATION_PAGE { self.limit } else { MAX_NOTIFICATION_PAGE },
    {
        if self.limit < MAX_NOTIFICATION_PAGE {
            self.limit
        } else {
            MAX_NOTIFICATION_PAGE
        }
    }
}

pub struct Notification {
    pub id: String,
    pub user_id: String,
    pub notification_type: String,
    pub from_user_id: Option<String>,
    pub from_username: Option<String>,
    pub from_avatar_url: Option<String>,
    pub story_id: Option<String>,
    pub comment_id: Option<String>,
    pub message: Option<String>,
    pub is_read: bool,
    pub created_at: String,
}

pub struct NotificationResponse {
    pub notifications: Vec<Notification>,
    pub unread_count: i64,
}

} // verus!
