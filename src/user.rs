//! The user record, as far as review and authorisation read it.
use vstd::prelude::*;

verus! {

/// Where a user stands in review.
#[derive(Clone, Copy, Debug, PartialEq, Eq, Structural)]
pub enum Status {
    Found,
    Approved,
    Denied,
}

/// The status named by `s`, spelled exactly as the variant.
pub open spec fn status_named(s: Seq<char>) -> Option<Status> {
    if s == "Found"@ {
        Some(Status::Found)
    } else if s == "Approved"@ {
        Some(Status::Approved)
    } else if s == "Denied"@ {
        Some(Status::Denied)
    } else {
        None
    }
}

/// Whether two strings hold the same characters.
pub fn text_eq(a: &str, b: &str) -> (r: bool)
    ensures
        r == (a@ == b@),
{
    let n = a.unicode_len();
    if n != b.unicode_len() {
        return false;
    }
    let mut i: usize = 0;
    while i < n
        invariant
            n == a@.len(),
            n == b@.len(),
            i <= n,
            a@.subrange(0, i as int) == b@.subrange(0, i as int),
        decreases n - i,
    {
        if a.get_char(i) != b.get_char(i) {
            return false;
        }
        proof {
            assert(a@.subrange(0, i + 1) == a@.subrange(0, i as int).push(a@[i as int]));
            assert(b@.subrange(0, i + 1) == b@.subrange(0, i as int).push(b@[i as int]));
        }
        i = i + 1;
    }
    proof {
        assert(a@ == a@.subrange(0, n as int));
        assert(b@ == b@.subrange(0, n as int));
    }
    true
}

impl Status {
    /// Reads a status written as its variant's name ("Found", "Approved", "Denied").
    pub fn parse(s: &str) -> (r: Option<Status>)
        ensures
            r == status_named(s@),
    {
        if text_eq(s, "Found") {
            Some(Status::Found)
        } else if text_eq(s, "Approved") {
            Some(Status::Approved)
        } else if text_eq(s, "Denied") {
            Some(Status::Denied)
        } else {
            None
        }
    }

    /// The variant's name, as `parse` reads it.
    pub fn name(&self) -> (r: String)
        ensures
            status_named(r@) == Some(*self),
    {
        proof {
            reveal_strlit("Found");
            reveal_strlit("Approved");
            reveal_strlit("Denied");
        }
        let r = match self {
            Status::Found => String::from_str("Found"),
            Status::Approved => String::from_str("Approved"),
            Status::Denied => String::from_str("Denied"),
        };
        proof {
            assert("Found"@.len() == 5);
            assert("Approved"@.len() == 8);
            assert("Denied"@.len() == 6);
        }
        r
    }
}

/// What a user may do: capability flags, not roles.
#[derive(Clone, Copy, Debug, PartialEq, Eq, Structural)]
pub struct UserPermissions {
    pub admin: bool,
    pub moderator: bool,
    pub submit: bool,
    pub review_user: bool,
    pub login: bool,
}

/// The properties a user or a moderator may edit.
#[derive(Clone, Debug)]
pub struct UserProperties {
    pub avatar: Option<String>,
    pub description: Option<String>,
}

/// A member, or a candidate for membership.
#[derive(Clone, Debug)]
pub struct User {
    pub id: i64,
    pub discord_id: i64,
    pub username: String,
    pub password: String,
    pub reviewer: String,
    pub status: Status,
    pub status_changed: i64,
    pub created: i64,
    pub discoverer: String,
    pub properties: UserProperties,
    pub title: String,
    pub permissions: UserPermissions,
    pub password_changed: i64,
}

/// A capability that an operation asks of its caller.
#[derive(Clone, Copy, Debug, PartialEq, Eq, Structural)]
pub enum Permission {
    Admin,
    Moderator,
    Submit,
    ReviewUser,
    Login,
}

/// Whether `p` grants `need`.
pub open spec fn grants(p: UserPermissions, need: Permission) -> bool {
    match need {
        Permission::Admin => p.admin,
        Permission::Moderator => p.moderator,
        Permission::Submit => p.submit,
        Permission::ReviewUser => p.review_user,
        Permission::Login => p.login,
    }
}

impl UserPermissions {
    /// Whether these flags grant `need`.
    pub fn grants(&self, need: Permission) -> (r: bool)
        ensures
            r == grants(*self, need),
    {
        match need {
            Permission::Admin => self.admin,
            Permission::Moderator => self.moderator,
            Permission::Submit => self.submit,
            Permission::ReviewUser => self.review_user,
            Permission::Login => self.login,
        }
    }
}

impl User {
    /// Only approved members may sign in.
    pub fn may_authenticate(&self) -> (r: bool)
        ensures
            r == (self.status == Status::Approved),
    {
        self.status == Status::Approved
    }
}

} // verus!
