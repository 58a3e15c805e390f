//! Request and response types of follows, likes, comments and profiles.
use vstd::prelude::*;

verus! {

pub struct FollowResponse {
    pub success: bool,
    pub message: String,
    pub is_following: bool,
}

pub struct FollowStats {
    pub follower_count: i32,
    pub following_count: i32,
    pub is_following: bool,
}

pub struct LikeResponse {
    pub success: bool,
    pub is_liked: bool,
    pub like_count: i32,
}

pub struct CreateCommentRequest {
    pub comment_text: String,
}

pub struct UpdateProfileRequest {
    pub display_name: Option<String>,
    pub bio: Option<String>,
    pub about: Option<String>,
    pub profile_link: Option<String>,
    pub avatar_url: Option<String>,
}

} // verus!
