//! Reading the caller's credential and deciding what they may see or change.
use vstd::prelude::*;
use crate::review::ReviewError;
use crate::user::{text_eq, Status, User, UserProperties};

verus! {

/// The first space in `s` at or after `from`, or the length of `s` where there
/// is none.
pub open spec fn space_from(s: Seq<char>, from: int) -> int
    decreases s.len() - from,
{
    if from >= s.len() {
        s.len() as int
    } else if s[from] == ' ' {
        from
    } else {
        space_from(s, from + 1)
    }
}

/// The token of an `Authorization` header of the form "Bearer <token>": the
/// header is split at spaces, the first piece must be "Bearer", and the second
/// piece is the token.
pub open spec fn bearer_of(s: Seq<char>) -> Option<Seq<char>> {
    let p = space_from(s, 0);
    if p < s.len() && s.subrange(0, p) == "Bearer"@ {
        Some(s.subrange(p + 1, space_from(s, p + 1)))
    } else {
        None
    }
}

fn find_space(s: &str, from: usize) -> (r: usize)
    requires
        from <= s@.len(),
    ensures
        r == space_from(s@, from as int),
        from <= r <= s@.len(),
{
    let n = s.unicode_len();
    let mut i: usize = from;
    while i < n
        invariant
            n == s@.len(),
            from <= i <= n,
            space_from(s@, i as int) == space_from(s@, from as int),
        decreases n - i,
    {
        if s.get_char(i) == ' ' {
            return i;
        }
        i = i + 1;
    }
    i
}

/// The bearer token that an `Authorization` header carries, if it carries one.
pub fn bearer_token(header: &str) -> (r: Option<String>)
    ensures
        r is None <==> bearer_of(header@) is None,
        r matches Some(t) ==> bearer_of(header@) == Some(t@),
{
    let n = header.unicode_len();
    let p = find_space(header, 0);
    if p >= n {
        return None;
    }
    let key = header.substring_char(0, p);
    if !text_eq(key, "Bearer") {
        return None;
    }
    let q = find_space(header, p + 1);
    Some(String::from_str(header.substring_char(p + 1, q)))
}

/// Whether `caller` may see the statistics of `target`: their own, or anyone's
/// for a moderator.
pub fn authorize_stats(caller: Option<&User>, target: Option<&User>) -> (r: Result<(), ReviewError>)
    ensures
        caller is None ==> r == Err::<(), ReviewError>(ReviewError::Unauthorized),
        caller is Some && target is None ==> r == Err::<(), ReviewError>(ReviewError::NotFound),
        match (caller, target) {
            (Some(c), Some(t)) => r == if c.username@ == t.username@ || c.permissions.moderator {
                Ok::<(), ReviewError>(())
            } else {
                Err(ReviewError::Unauthorized)
            },
            _ => true,
        },
{
    match caller {
        None => Err(ReviewError::Unauthorized),
        Some(c) => match target {
            None => Err(ReviewError::NotFound),
            Some(t) => {
                if text_eq(c.username.as_str(), t.username.as_str()) || c.permissions.moderator {
                    Ok(())
                } else {
                    Err(ReviewError::Unauthorized)
                }
            },
        },
    }
}

impl UserProperties {
    /// Sets the property named `key` ("avatar" or "description") to `value`;
    /// any other key is refused and nothing changes.
    pub fn change(&mut self, key: &str, value: String) -> (r: Result<(), ReviewError>)
        ensures
            key@ == "avatar"@ ==> r is Ok && final(self).avatar == Some(value)
                && final(self).description == old(self).description,
            key@ == "description"@ ==> r is Ok && final(self).description == Some(value)
                && final(self).avatar == old(self).avatar,
            key@ != "avatar"@ && key@ != "description"@ ==> r == Err::<(), ReviewError>(
                ReviewError::InvalidProperty,
            ) && *final(self) == *old(self),
    {
        proof {
            reveal_strlit("avatar");
            reveal_strlit("description");
            assert("avatar"@.len() == 6);
            assert("description"@.len() == 11);
        }
        if text_eq(key, "avatar") {
            self.avatar = Some(value);
            Ok(())
        } else if text_eq(key, "description") {
            self.description = Some(value);
            Ok(())
        } else {
            Err(ReviewError::InvalidProperty)
        }
    }
}

/// Whether bcrypt accepts `password` for the stored `hash` (the salt and cost
/// are read from the hash, so the answer depends on the two strings alone).
pub uninterp spec fn bcrypt_accepts(password: Seq<char>, hash: Seq<char>) -> bool;

#[verifier::external_type_specification]
#[verifier::external_body]
pub struct ExBcryptError(bcrypt::BcryptError);

/// Relies on `bcrypt::verify`: `Ok(true)` when the password matches the hash,
/// `Ok(false)` when it does not, and an error for a hash it cannot read.
#[verifier::external_body]
fn bcrypt_verify(password: &str, hash: &str) -> (r: Result<bool, bcrypt::BcryptError>)
    ensures
        r matches Ok(b) ==> b == bcrypt_accepts(password@, hash@),
{
    bcrypt::verify(password, hash)
}

/// What a password check leads to: `Some(true)` admits, `Some(false)` refuses,
/// and `None` (the stored hash could not be read) is a failure of the store.
pub fn password_outcome(check: Option<bool>) -> (r: Result<(), ReviewError>)
    ensures
        r == match check {
            Some(true) => Ok::<(), ReviewError>(()),
            Some(false) => Err(ReviewError::Unauthorized),
            None => Err(ReviewError::DataAccess),
        },
{
    match check {
        Some(true) => Ok(()),
        Some(false) => Err(ReviewError::Unauthorized),
        None => Err(ReviewError::DataAccess),
    }
}

/// Checks a sign-in with a password: the user must exist, be approved, and the
/// password must match the stored hash.
pub fn check_login(user: Option<&User>, password: &str) -> (r: Result<(), ReviewError>)
    ensures
        match user {
            None => r == Err::<(), ReviewError>(ReviewError::Unauthorized),
            Some(u) => {
                &&& u.status != Status::Approved ==> r == Err::<(), ReviewError>(
                    ReviewError::Unauthorized,
                )
                &&& r is Ok ==> bcrypt_accepts(password@, u.password@)
                &&& r == Err::<(), ReviewError>(ReviewError::Unauthorized) && u.status
                    == Status::Approved ==> !bcrypt_accepts(password@, u.password@)
            },
        },
{
    match user {
        None => Err(ReviewError::Unauthorized),
        Some(u) => {
            if !u.may_authenticate() {
                return Err(ReviewError::Unauthorized);
            }
            let check = match bcrypt_verify(password, u.password.as_str()) {
                Ok(b) => Some(b),
                Err(_) => None,
            };
            password_outcome(check)
        },
    }
}

} // verus!
