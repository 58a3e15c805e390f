//! Response types of streaks.
use vstd::prelude::*;

verus! {

pub struct StreakInfo {
    pub current_streak: i32,
    pub longest_streak: i32,
    pub last_interaction_date: Option<String>,
}

pub struct StreakResponse {
    pub success: bool,
    pub streak: StreakInfo,
}

} // verus!
