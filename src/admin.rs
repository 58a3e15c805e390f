//! Request and response types of the administration endpoints, and the
//! paging rules they share.
use vstd::prelude::*;

verus! {

/// Rows per page when the client names none.
pub const DEFAULT_PER_PAGE: i64 = 50;
/// The most rows one page lists.
pub const MAX_PER_PAGE: i64 = 100;
/// Days of analytics when the client names none.
pub const DEFAULT_ANALYTICS_DAYS: i64 = 30;
/// The longest analytics window, in days.
pub const MAX_ANALYTICS_DAYS: i64 = 365;

pub open spec fn clamp_spec(x: i64, lo: i64, hi: i64) -> i64 {
    if x < lo {
        lo
    } else if x > hi {
        hi
    } else {
        x
    }
}

/// The page size and row offset of a paged listing: the page counts from
/// one, the size is clamped to the allowed range. `None` when the offset
/// does not fit.
pub open spec fn window_of(page: Option<i64>, per_page: Option<i64>) -> Option<(i64, i64)> {
    let p = match page {
        Some(p) => if p < 1 { 1 } else { p },
        None => 1,
    };
    let n = clamp_spec(
        match per_page {
            Some(n) => n,
            None => DEFAULT_PER_PAGE,
        },
        1,
        MAX_PER_PAGE,
    );
    if (p - 1) * n <= i64::MAX {
        Some((n, ((p - 1) * n) as i64))
    } else {
        None
    }
}

pub fn page_window(page: Option<i64>, per_page: Option<i64>) -> (r: Option<(i64, i64)>)
    ensures
        r == window_of(page, per_page),
{
    let p: i64 = match page {
        Some(p) => if p < 1 { 1 } else { p },
        None => 1,
    };
    let requested: i64 = match per_page {
        Some(n) => n,
        None => DEFAULT_PER_PAGE,
    };
    let n: i64 = if requested < 1 {
        1
    } else if requested > MAX_PER_PAGE {
        MAX_PER_PAGE
    } else {
        requested
    };
    let pages_before: i64 = p - 1;
    if pages_before > i64::MAX / n {
        proof {
            assert((p - 1) * n > i64::MAX) by (nonlinear_arith)
                requires
                    pages_before > i64::MAX / n,
                    pages_before == p - 1,
                    1 <= n <= MAX_PER_PAGE,
            ;
        }
        None
    } else {
        proof {
            assert((p - 1) * n <= i64::MAX && (p - 1) * n >= 0) by (nonlinear_arith)
                requires
                    pages_before <= i64::MAX / n,
                    pages_before == p - 1,
                    p >= 1,
                    1 <= n <= MAX_PER_PAGE,
            ;
        }
        Some((n, pages_before * n))
    }
}

pub struct UserListQuery {
    pub page: Option<i64>,
    pub per_page: Option<i64>,
    pub search: Option<String>,
    pub role: Option<String>,
}

impl UserListQuery {
    pub fn window(&self) -> (r: Option<(i64, i64)>)
        ensures
            r == window_of(self.page, self.per_page),
    {
        page_window(self.page, self.per_page)
    }
}

pub struct BanUserInput {
    pub reason: String,
}

pub struct ChangeRoleInput {
    pub role: String,
}

pub struct LogsQuery {
    pub page: Option<i64>,
    pub per_page: Option<i64>,
    pub action: Option<String>,
}

impl LogsQuery {
    pub fn window(&self) -> (r: Option<(i64, i64)>)
        ensures
            r == window_of(self.page, self.per_page),
    {
        page_window(self.page, self.per_page)
    }
}

pub struct AnalyticsSummary {
    pub total_users: i64,
    pub total_stories: i64,
    pub total_messages: i64,
    pub total_follows: i64,
    pub total_ads: i64,
    pub active_ads: i64,
    pub total_ad_impressions: i64,
    pub total_ad_clicks: i64,
}

pub struct AnalyticsQuery {
    pub days: Option<i64>,
}

impl AnalyticsQuery {
    /// The analytics window in days, defaulted and clamped to the allowed range.
    pub fn window_days(&self) -> (r: i64)
        ensures
            r == clamp_spec(
                match self.days {
                    Some(d) => d,
                    None => DEFAULT_ANALYTICS_DAYS,
                },
                1,
                MAX_ANALYTICS_DAYS,
            ),
    {
        let d: i64 = match self.days {
            Some(d) => d,
            None => DEFAULT_ANALYTICS_DAYS,
        };
        if d < 1 {
            1
        } else if d > MAX_ANALYTICS_DAYS {
            MAX_ANALYTICS_DAYS
        } else {
            d
        }
    }
}

pub struct CreateAdInput {
    pub title: String,
    pub description: Option<String>,
    pub image_url: Option<String>,
    pub link_url: Option<String>,
    pub target_impressions: i32,
}

pub struct UpdateAdInput {
    pub title: Option<String>,
    pub description: Option<String>,
    pub image_url: Option<String>,
    pub link_url: Option<String>,
    pub status: Option<String>,
}

pub struct CheckoutSessionResponse {
    pub session_id: String,
}

} // verus!
