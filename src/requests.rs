//! What the callers of the site send.
use vstd::prelude::*;

verus! {

/// A sign-in with a password.
#[derive(Clone, Debug)]
pub struct Login {
    pub username: String,
    pub password: String,
}

/// A request for a one-time password.
#[derive(Clone, Debug)]
pub struct CreateOTP {
    pub username: String,
}

/// A sign-in with a one-time password.
#[derive(Clone, Debug)]
pub struct UseOTP {
    pub username: String,
    pub otp: String,
}

/// The optional new title that comes with a review decision.
#[derive(Clone, Debug)]
pub struct ApproveRequest {
    pub title: Option<String>,
}

/// The new value of a user property.
#[derive(Clone, Debug)]
pub struct ChangeRequest {
    pub value: String,
}

} // verus!
