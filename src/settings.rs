//! Request and response types of account settings.
use vstd::prelude::*;

verus! {

pub struct UpdateUsernameRequest {
    pub username: String,
}

pub struct UpdateEmailRequest {
    pub email: String,
}

pub struct ChangePasswordRequest {
    pub current_password: String,
    pub new_password: String,
}

pub struct UserSettingsResponse {
    pub username: String,
    pub email: String,
}

} // verus!
