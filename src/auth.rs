//! Request types of sign-up and log-in.
use vstd::prelude::*;

verus! {

pub struct SignupInput {
    pub username: String,
    pub email: String,
    pub password: String,
}

pub struct LoginInput {
    pub username: String,
    pub password: String,
}

} // verus!
