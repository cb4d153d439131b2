//! Candidates submitted by discoverers: one line per username, where a marker
//! "=T" or "=F" records a decision that was already taken elsewhere.
use vstd::prelude::*;
use crate::user::{text_eq, Status, User, UserPermissions, UserProperties};

verus! {

/// `pat` occurs somewhere in `s`.
pub open spec fn occurs(s: Seq<char>, pat: Seq<char>) -> bool {
    exists|i: int| 0 <= i && i + pat.len() <= s.len() && #[trigger] s.subrange(i, i + pat.len()) == pat
}

/// `s` with every occurrence of `pat` taken out, scanning from the left, as
/// `str::replace(pat, "")` does.
pub open spec fn without(s: Seq<char>, pat: Seq<char>) -> Seq<char>
    decreases s.len(),
{
    if pat.len() == 0 || s.len() < pat.len() {
        s
    } else if s.subrange(0, pat.len() as int) == pat {
        without(s.subrange(pat.len() as int, s.len() as int), pat)
    } else {
        seq![s[0]] + without(s.subrange(1, s.len() as int), pat)
    }
}

/// The status that a submitted line asks for.
pub open spec fn submitted_status(line: Seq<char>) -> Status {
    if occurs(line, "=T"@) {
        Status::Approved
    } else if occurs(line, "=F"@) {
        Status::Denied
    } else {
        Status::Found
    }
}

/// The username in a submitted line: the line without its markers and carriage
/// returns.
pub open spec fn submitted_name(line: Seq<char>) -> Seq<char> {
    without(without(without(line, "=T"@), "=F"@), "\r"@)
}

/// Whether `pat` occurs in `s`.
pub fn contains_text(s: &str, pat: &str) -> (r: bool)
    ensures
        r == occurs(s@, pat@),
{
    let n = s.unicode_len();
    let m = pat.unicode_len();
    if m > n {
        return false;
    }
    let mut i: usize = 0;
    while i <= n - m
        invariant
            n == s@.len(),
            m == pat@.len(),
            m <= n,
            i <= n - m + 1,
            forall|j: int| 0 <= j < i ==> #[trigger] s@.subrange(j, j + m) != pat@,
        decreases n - m + 1 - i,
    {
        if text_eq(s.substring_char(i, i + m), pat) {
            return true;
        }
        if i == n - m {
            return false;
        }
        i = i + 1;
    }
    false
}

/// `s` with every occurrence of `pat` taken out.
pub fn strip_text(s: &str, pat: &str) -> (r: String)
    requires
        pat@.len() > 0,
    ensures
        r@ == without(s@, pat@),
{
    let n = s.unicode_len();
    let m = pat.unicode_len();
    let mut out = String::new();
    let mut i: usize = 0;
    proof {
        assert(s@.subrange(0, n as int) == s@);
    }
    while i < n
        invariant
            n == s@.len(),
            m == pat@.len(),
            m > 0,
            i <= n,
            out@ + without(s@.subrange(i as int, n as int), pat@) == without(s@, pat@),
        decreases n - i,
    {
        let ghost rest = s@.subrange(i as int, n as int);
        if m <= n - i && text_eq(s.substring_char(i, i + m), pat) {
            proof {
                assert(rest.subrange(0, m as int) == s@.subrange(i as int, i + m));
                assert(rest.subrange(m as int, rest.len() as int) == s@.subrange(i + m, n as int));
            }
            i = i + m;
        } else {
            let c = s.substring_char(i, i + 1);
            proof {
                assert(rest.subrange(1, rest.len() as int) == s@.subrange(i + 1, n as int));
                assert(c@ == seq![rest[0]]);
                if rest.len() < m {
                    let tail = s@.subrange(i + 1, n as int);
                    assert(without(tail, pat@) == tail);
                    assert(rest == seq![rest[0]] + tail);
                } else {
                    assert(rest.subrange(0, m as int) == s@.subrange(i as int, i + m));
                }
            }
            out.append(c);
            proof {
                assert(out@ + without(s@.subrange(i + 1, n as int), pat@) == without(s@, pat@));
            }
            i = i + 1;
        }
    }
    proof {
        assert(s@.subrange(n as int, n as int) == Seq::<char>::empty());
        assert(out@ + Seq::<char>::empty() == out@);
    }
    out
}

/// Reads a submitted line: the username it names and the status it asks for.
pub fn parse_submission(line: &str) -> (r: (String, Status))
    ensures
        r.0@ == submitted_name(line@),
        r.1 == submitted_status(line@),
{
    proof {
        reveal_strlit("=T");
        reveal_strlit("=F");
        reveal_strlit("\r");
    }
    let status = if contains_text(line, "=T") {
        Status::Approved
    } else if contains_text(line, "=F") {
        Status::Denied
    } else {
        Status::Found
    };
    let a = strip_text(line, "=T");
    let b = strip_text(a.as_str(), "=F");
    let name = strip_text(b.as_str(), "\r");
    (name, status)
}

/// The record of a newly submitted candidate: it may submit and sign in, holds
/// no other capability, and has no properties, password or moderator yet.
pub fn new_candidate(
    username: String,
    discoverer: String,
    status: Status,
    title: String,
    now: i64,
) -> (r: User)
    ensures
        r.id == 0,
        r.username == username,
        r.discoverer == discoverer,
        r.status == status,
        r.title == title,
        r.created == now,
        r.password_changed == now,
        r.status_changed == 0,
        r.password@.len() == 0,
        r.reviewer@.len() == 0,
        r.properties.avatar is None,
        r.properties.description is None,
        r.permissions == (UserPermissions {
            admin: false,
            moderator: false,
            submit: true,
            review_user: false,
            login: true,
        }),
{
    User {
        id: 0,
        discord_id: 0,
        username,
        password: String::new(),
        reviewer: String::new(),
        status,
        status_changed: 0,
        created: now,
        discoverer,
        properties: UserProperties { avatar: None, description: None },
        title,
        permissions: UserPermissions {
            admin: false,
            moderator: false,
            submit: true,
            review_user: false,
            login: true,
        },
        password_changed: now,
    }
}

} // verus!
