//! The review workflow: who may review, which candidate comes next, what the
//! outcome of the identity lookup does to the lease and to the user records, and
//! how a decision is turned into changes of a record.
//!
//! Every step takes what the outside world answered (the stored users, the
//! identity service's verdict, whether the upstream approval went through) as a
//! plain argument and says what happens next.
use vstd::prelude::*;
use crate::lease::LeaseTable;
use crate::user::{grants, status_named, text_eq, Permission, Status, User};

verus! {

/// Why a review operation did not complete.
#[derive(Clone, Copy, Debug, PartialEq, Eq, Structural)]
pub enum ReviewError {
    /// No credential, or one without the capability asked for.
    Unauthorized,
    /// No such user, or no candidate free to review.
    NotFound,
    /// The decision is neither "Approved" nor "Denied".
    InvalidDecision,
    /// A property other than the avatar or the description.
    InvalidProperty,
    /// The identity no longer exists upstream; its local record was removed.
    Repaired,
    /// The upstream approval failed; nothing was changed locally.
    ApprovalFailed,
    /// The identity service failed for now.
    Transient,
    /// The user store failed.
    DataAccess,
}

impl ReviewError {
    /// The HTTP status that reports this failure.
    pub fn status_code(&self) -> (r: u16)
        ensures
            r == error_status(*self),
    {
        match self {
            ReviewError::Unauthorized => 401,
            ReviewError::NotFound => 404,
            ReviewError::InvalidDecision | ReviewError::InvalidProperty
            | ReviewError::Repaired => 400,
            _ => 500,
        }
    }

    /// The message shown to the person who made the request.
    pub fn user_message(&self) -> (r: String)
        ensures
            r@ == error_message(*self),
    {
        match self {
            ReviewError::Unauthorized => String::from_str("You are not allowed to do that"),
            ReviewError::NotFound => String::from_str("Not found"),
            ReviewError::InvalidDecision => String::from_str("Approved or Denied"),
            ReviewError::InvalidProperty => String::from_str(
                "You can only change your Avatar or Description",
            ),
            ReviewError::Repaired => String::from_str("We have fixed the issue please try again"),
            ReviewError::ApprovalFailed => String::from_str(
                "Unable to Process Approve Request Currently",
            ),
            _ => String::from_str("An internal error has occurred"),
        }
    }
}

/// The HTTP status of each failure: client errors for what the caller can fix,
/// server errors for the rest.
pub open spec fn error_status(e: ReviewError) -> u16 {
    match e {
        ReviewError::Unauthorized => 401u16,
        ReviewError::NotFound => 404u16,
        ReviewError::InvalidDecision | ReviewError::InvalidProperty | ReviewError::Repaired => 400u16,
        _ => 500u16,
    }
}

/// The message of each failure; internal details are never shown.
pub open spec fn error_message(e: ReviewError) -> Seq<char> {
    match e {
        ReviewError::Unauthorized => "You are not allowed to do that"@,
        ReviewError::NotFound => "Not found"@,
        ReviewError::InvalidDecision => "Approved or Denied"@,
        ReviewError::InvalidProperty => "You can only change your Avatar or Description"@,
        ReviewError::Repaired => "We have fixed the issue please try again"@,
        ReviewError::ApprovalFailed => "Unable to Process Approve Request Currently"@,
        _ => "An internal error has occurred"@,
    }
}

/// Lets the request through when the caller is known and holds `need`.
pub fn authorize(caller: Option<&User>, need: Permission) -> (r: Result<(), ReviewError>)
    ensures
        r is Ok <==> (caller matches Some(u) && grants(u.permissions, need)),
        r is Err ==> r == Err::<(), ReviewError>(ReviewError::Unauthorized),
{
    match caller {
        Some(u) => {
            if u.permissions.grants(need) {
                Ok(())
            } else {
                Err(ReviewError::Unauthorized)
            }
        },
        None => Err(ReviewError::Unauthorized),
    }
}

/// Whether the review target names no user but asks for the next candidate.
pub fn is_next_target(target: &str) -> (r: bool)
    ensures
        r == (target@ == "next"@),
{
    text_eq(target, "next")
}

/// Candidate `i` is waiting for review and nobody holds its lease.
pub open spec fn selectable(m: Map<i64, i64>, c: Seq<User>, i: int) -> bool {
    &&& 0 <= i < c.len()
    &&& c[i].status == Status::Found
    &&& !m.contains_key(c[i].id)
}

/// Candidate `i` is the one to review next: the oldest selectable one, and the
/// first in the list among those created at the same time.
pub open spec fn is_next(m: Map<i64, i64>, c: Seq<User>, i: int) -> bool {
    &&& selectable(m, c, i)
    &&& forall|j: int|
        #[trigger] selectable(m, c, j) ==> c[i].created < c[j].created || (c[i].created
            == c[j].created && i <= j)
}

/// The candidate to review next, given the leases held now.
pub fn select_next(leases: &LeaseTable, candidates: &Vec<User>) -> (r: Option<usize>)
    requires
        leases.well_formed(),
    ensures
        r is None <==> forall|i: int| !#[trigger] selectable(leases@, candidates@, i),
        r matches Some(i) ==> is_next(leases@, candidates@, i as int),
{
    let mut best: Option<usize> = None;
    let mut i: usize = 0;
    while i < candidates.len()
        invariant
            leases.well_formed(),
            i <= candidates@.len(),
            best is None ==> forall|j: int| 0 <= j < i ==> !#[trigger] selectable(leases@, candidates@, j),
            best matches Some(b) ==> b < i && selectable(leases@, candidates@, b as int)
                && forall|j: int| 0 <= j < i && #[trigger] selectable(leases@, candidates@, j)
                    ==> candidates@[b as int].created < candidates@[j].created || (
                    candidates@[b as int].created == candidates@[j].created && b <= j),
        decreases candidates@.len() - i,
    {
        let c = &candidates[i];
        if c.status == Status::Found && !leases.is_leased(c.id) {
            match best {
                None => {
                    best = Some(i);
                },
                Some(b) => {
                    if c.created < candidates[b].created {
                        best = Some(i);
                    }
                },
            }
        }
        i = i + 1;
    }
    best
}

impl LeaseTable {
    /// Picks the next candidate and takes its lease at time `now`, in one step.
    /// Fails with `NotFound` where every candidate is reviewed or leased.
    pub fn claim_next(&mut self, candidates: &Vec<User>, now: i64) -> (r: Result<usize, ReviewError>)
        requires
            old(self).well_formed(),
        ensures
            final(self).well_formed(),
            r is Err <==> forall|i: int| !#[trigger] selectable(old(self)@, candidates@, i),
            r is Err ==> r == Err::<usize, ReviewError>(ReviewError::NotFound) && final(self)@
                == old(self)@,
            r matches Ok(i) ==> is_next(old(self)@, candidates@, i as int) && final(self)@ == old(
                self,
            )@.insert(candidates@[i as int].id, now),
    {
        match select_next(self, candidates) {
            None => Err(ReviewError::NotFound),
            Some(i) => {
                self.try_acquire(candidates[i].id, now);
                Ok(i)
            },
        }
    }

    /// Takes the lease on a user named by the moderator. Fails with `NotFound`
    /// where there is no such user, or where someone else holds the lease: that
    /// caller may retry later.
    pub fn claim_named(&mut self, user: Option<&User>, now: i64) -> (r: Result<(), ReviewError>)
        requires
            old(self).well_formed(),
        ensures
            final(self).well_formed(),
            r is Ok <==> (user matches Some(u) && !old(self)@.contains_key(u.id)),
            r is Err ==> r == Err::<(), ReviewError>(ReviewError::NotFound) && final(self)@ == old(
                self,
            )@,
            r is Ok ==> final(self)@ == old(self)@.insert(user.unwrap().id, now),
    {
        match user {
            None => Err(ReviewError::NotFound),
            Some(u) => {
                if self.try_acquire(u.id, now) {
                    Ok(())
                } else {
                    Err(ReviewError::NotFound)
                }
            },
        }
    }

    /// Ends the lease on `user_id` once the identity service has answered, and
    /// says what to do next. The lease is released whatever the answer was.
    pub fn finish_verification(&mut self, user_id: i64, outcome: FetchOutcome) -> (r: VerifyStep)
        requires
            old(self).well_formed(),
        ensures
            final(self).well_formed(),
            final(self)@ == old(self)@.remove(user_id),
            r == verify_step(outcome, user_id),
    {
        self.release(user_id);
        match outcome {
            FetchOutcome::Fetched => VerifyStep::Respond,
            FetchOutcome::Transient => VerifyStep::Fail(ReviewError::Transient),
            FetchOutcome::NotFound => VerifyStep::DeleteAndRetry(user_id),
        }
    }
}

/// What the identity service answered for a candidate.
#[derive(Clone, Copy, Debug, PartialEq, Eq, Structural)]
pub enum FetchOutcome {
    /// The profile was fetched.
    Fetched,
    /// The service failed for now.
    Transient,
    /// The identity does not exist upstream.
    NotFound,
}

/// What follows the identity lookup.
#[derive(Clone, Copy, Debug, PartialEq, Eq, Structural)]
pub enum VerifyStep {
    /// Send the combined profile to the moderator.
    Respond,
    /// Delete this user's record, then tell the moderator to retry.
    DeleteAndRetry(i64),
    /// Report this failure.
    Fail(ReviewError),
}

/// The step that follows each answer of the identity service.
pub open spec fn verify_step(outcome: FetchOutcome, user_id: i64) -> VerifyStep {
    match outcome {
        FetchOutcome::Fetched => VerifyStep::Respond,
        FetchOutcome::Transient => VerifyStep::Fail(ReviewError::Transient),
        FetchOutcome::NotFound => VerifyStep::DeleteAndRetry(user_id),
    }
}

/// What the moderator is told after a stale record was deleted, or failed to be.
pub fn after_delete(deleted: bool) -> (r: ReviewError)
    ensures
        r == if deleted {
            ReviewError::Repaired
        } else {
            ReviewError::DataAccess
        },
{
    if deleted {
        ReviewError::Repaired
    } else {
        ReviewError::DataAccess
    }
}

/// The decision that `s` names: only "Approved" and "Denied" are decisions.
pub open spec fn decision_named(s: Seq<char>) -> Option<Status> {
    match status_named(s) {
        Some(Status::Found) => None,
        other => other,
    }
}

/// Checks a decision on a user before anything is changed: the user must exist
/// and the decision must be "Approved" or "Denied".
pub fn decide(target: Option<&User>, decision: &str) -> (r: Result<Status, ReviewError>)
    ensures
        target is None ==> r == Err::<Status, ReviewError>(ReviewError::NotFound),
        target is Some ==> r == match decision_named(decision@) {
            Some(st) => Ok::<Status, ReviewError>(st),
            None => Err(ReviewError::InvalidDecision),
        },
{
    if target.is_none() {
        return Err(ReviewError::NotFound);
    }
    match Status::parse(decision) {
        Some(Status::Approved) => Ok(Status::Approved),
        Some(Status::Denied) => Ok(Status::Denied),
        _ => Err(ReviewError::InvalidDecision),
    }
}

/// An approval must go through upstream before it is recorded.
pub fn needs_upstream_approval(status: Status) -> (r: bool)
    ensures
        r == (status == Status::Approved),
{
    status == Status::Approved
}

/// The changes to one user record that a decision makes.
#[derive(Debug)]
pub struct DecisionPlan {
    pub user_id: i64,
    pub status: Status,
    pub reviewer: String,
    pub changed_at: i64,
    pub title: Option<String>,
}

/// Whether a decision may be recorded, given how the upstream approval went
/// (which only matters for an approval).
pub open spec fn decision_allowed(status: Status, upstream_ok: bool) -> bool {
    status != Status::Approved || upstream_ok
}

/// Turns a checked decision into the changes of the user's record: the new
/// status, who set it and when, and the new title if one was given. An approval
/// that failed upstream changes nothing.
pub fn commit_decision(
    user: &User,
    status: Status,
    reviewer: &str,
    now: i64,
    title: Option<String>,
    upstream_ok: bool,
) -> (r: Result<DecisionPlan, ReviewError>)
    ensures
        decision_summary(&r) == decision_outcome(user.id, status, upstream_ok),
        !decision_allowed(status, upstream_ok) ==> (r matches Err(e) && e
            == ReviewError::ApprovalFailed),
        decision_allowed(status, upstream_ok) ==> (r matches Ok(p) && p.user_id == user.id
            && p.status == status && p.reviewer@ == reviewer@ && p.changed_at == now && p.title
            == title),
{
    if status == Status::Approved && !upstream_ok {
        return Err(ReviewError::ApprovalFailed);
    }
    Ok(
        DecisionPlan {
            user_id: user.id,
            status,
            reviewer: String::from_str(reviewer),
            changed_at: now,
            title,
        },
    )
}

/// The record and the status that a decision sets, or why none is set.
pub open spec fn decision_outcome(user_id: i64, status: Status, upstream_ok: bool) -> Result<
    (i64, Status),
    ReviewError,
> {
    if decision_allowed(status, upstream_ok) {
        Ok((user_id, status))
    } else {
        Err(ReviewError::ApprovalFailed)
    }
}

/// The record and status that a plan sets, or the failure.
pub open spec fn decision_summary(r: &Result<DecisionPlan, ReviewError>) -> Result<
    (i64, Status),
    ReviewError,
> {
    match r {
        Ok(p) => Ok((p.user_id, p.status)),
        Err(e) => Err(*e),
    }
}

/// The user store, reduced to what review changes: each record's username and
/// status, by id.
pub open spec fn has_user_named(store: Map<i64, (Seq<char>, Status)>, name: Seq<char>) -> bool {
    exists|id: i64| #[trigger] store.contains_key(id) && store[id].0 == name
}

/// No two records share a username.
pub open spec fn usernames_unique(store: Map<i64, (Seq<char>, Status)>) -> bool {
    forall|a: i64, b: i64|
        #[trigger] store.contains_key(a) && #[trigger] store.contains_key(b) && store[a].0
            == store[b].0 ==> a == b
}

/// The store after the step that follows the identity lookup.
pub open spec fn store_after_step(store: Map<i64, (Seq<char>, Status)>, step: VerifyStep) -> Map<
    i64,
    (Seq<char>, Status),
> {
    match step {
        VerifyStep::DeleteAndRetry(id) => store.remove(id),
        _ => store,
    }
}

/// The store after a decision is recorded, or refused.
pub open spec fn store_after_decision(
    store: Map<i64, (Seq<char>, Status)>,
    outcome: Result<(i64, Status), ReviewError>,
) -> Map<i64, (Seq<char>, Status)> {
    match outcome {
        Ok((id, st)) => if store.contains_key(id) {
            store.insert(id, (store[id].0, st))
        } else {
            store
        },
        Err(_) => store,
    }
}

/// Two moderators who each take the next candidate, one after the other and
/// before either lease ends, never get the same user, whatever pools they chose
/// from.
pub proof fn lemma_no_double_lease(
    m: Map<i64, i64>,
    first_pool: Seq<User>,
    second_pool: Seq<User>,
    i: int,
    j: int,
    now: i64,
)
    requires
        is_next(m, first_pool, i),
        is_next(m.insert(first_pool[i].id, now), second_pool, j),
    ensures
        second_pool[j].id != first_pool[i].id,
{
}

/// An approval that failed upstream leaves every record as it was; one that
/// went through marks the user approved.
pub proof fn lemma_failed_approval_keeps_status(store: Map<i64, (Seq<char>, Status)>, user_id: i64)
    ensures
        store_after_decision(store, decision_outcome(user_id, Status::Approved, false)) == store,
        store.contains_key(user_id) ==> store_after_decision(
            store,
            decision_outcome(user_id, Status::Approved, true),
        )[user_id].1 == Status::Approved,
{
}

/// When the identity service says a candidate does not exist, its record is
/// deleted, and looking its username up afterwards finds nothing.
pub proof fn lemma_missing_identity_removes_record(store: Map<i64, (Seq<char>, Status)>, user_id: i64)
    requires
        store.contains_key(user_id),
        usernames_unique(store),
    ensures
        verify_step(FetchOutcome::NotFound, user_id) == VerifyStep::DeleteAndRetry(user_id),
        !has_user_named(
            store_after_step(store, verify_step(FetchOutcome::NotFound, user_id)),
            store[user_id].0,
        ),
{
    let after = store.remove(user_id);
    if has_user_named(after, store[user_id].0) {
        let id = choose|id: i64| #[trigger] after.contains_key(id) && after[id].0 == store[user_id].0;
        assert(store.contains_key(id) && store.contains_key(user_id));
    }
}

} // verus!
