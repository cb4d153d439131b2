//! Secrets handed to users: one-time passwords and session tokens.
use vstd::prelude::*;
use rand::Rng;

verus! {

/// Length of a one-time password.
pub const OTP_LENGTH: usize = 6;

/// Length of a session token.
pub const TOKEN_LENGTH: usize = 25;

/// How long a one-time password stays valid: one hour, in milliseconds.
pub const OTP_LIFETIME_MILLIS: i64 = 3_600_000;

/// An ASCII letter or digit.
pub open spec fn is_alphanumeric(c: char) -> bool {
    ('A' <= c && c <= 'Z') || ('a' <= c && c <= 'z') || ('0' <= c && c <= '9')
}

/// Relies on rand's `thread_rng().sample_iter(&Alphanumeric)`: every sample is one
/// of the 62 ASCII letters and digits, and `take(len)` keeps `len` of them.
#[verifier::external_body]
fn random_alphanumeric(len: usize) -> (r: String)
    ensures
        r@.len() == len,
        forall|i: int| 0 <= i < r@.len() ==> is_alphanumeric(#[trigger] r@[i]),
{
    rand::thread_rng().sample_iter(&rand::distributions::Alphanumeric).take(len).map(char::from).collect()
}

/// A fresh one-time password: six random letters and digits.
pub fn generate_otp_value() -> (r: String)
    ensures
        r@.len() == OTP_LENGTH,
        forall|i: int| 0 <= i < r@.len() ==> is_alphanumeric(#[trigger] r@[i]),
{
    random_alphanumeric(OTP_LENGTH)
}

/// A fresh session token: twenty-five random letters and digits.
pub fn generate_token_value() -> (r: String)
    ensures
        r@.len() == TOKEN_LENGTH,
        forall|i: int| 0 <= i < r@.len() ==> is_alphanumeric(#[trigger] r@[i]),
{
    random_alphanumeric(TOKEN_LENGTH)
}

/// When a one-time password issued at `now` (milliseconds) expires.
pub fn otp_expiration(now: i64) -> (r: i64)
    requires
        now <= i64::MAX - OTP_LIFETIME_MILLIS,
    ensures
        r == now + OTP_LIFETIME_MILLIS,
{
    now + OTP_LIFETIME_MILLIS
}

} // verus!
