//! The table of review leases: which users are being reviewed right now, and
//! since when. Every operation here is one atomic step on the table; callers that
//! share a table between threads hold it behind one lock and call these methods
//! while holding it.
use vstd::prelude::*;

verus! {

/// Age, in milliseconds, beyond which a lease counts as abandoned (five minutes).
pub const LEASE_TTL_MILLIS: i64 = 300_000;

/// Whether a lease taken at `acquired_at` is abandoned at time `now`.
pub open spec fn is_expired(acquired_at: i64, now: i64) -> bool {
    now - acquired_at > LEASE_TTL_MILLIS
}

/// `try_acquire` succeeds exactly when the id holds no lease.
pub open spec fn acquire_succeeds(m: Map<i64, i64>, id: i64) -> bool {
    !m.contains_key(id)
}

/// The table after `try_acquire(id, now)`.
pub open spec fn after_acquire(m: Map<i64, i64>, id: i64, now: i64) -> Map<i64, i64> {
    if m.contains_key(id) {
        m
    } else {
        m.insert(id, now)
    }
}

/// The table after `release(id)`.
pub open spec fn after_release(m: Map<i64, i64>, id: i64) -> Map<i64, i64> {
    m.remove(id)
}

/// The table after a sweep at time `now`: every abandoned lease is gone, every
/// other one stays as it was.
pub open spec fn after_sweep(m: Map<i64, i64>, now: i64) -> Map<i64, i64> {
    Map::new(|k: i64| m.contains_key(k) && !is_expired(m[k], now), |k: i64| m[k])
}

/// One lease: who is being reviewed and when the review began (milliseconds).
#[derive(Clone, Copy, Debug, PartialEq, Eq, Structural)]
pub struct Lease {
    pub user_id: i64,
    pub acquired_at: i64,
}

/// The users under review, each with the time at which the lease was taken.
pub struct LeaseTable {
    leases: Vec<Lease>,
    map: Ghost<Map<i64, i64>>,
}

impl View for LeaseTable {
    type V = Map<i64, i64>;

    closed spec fn view(&self) -> Map<i64, i64> {
        self.map@
    }
}

impl LeaseTable {
    /// Ids are unique in the table, and the ghost map records exactly its entries.
    pub closed spec fn well_formed(&self) -> bool {
        &&& forall|i: int, j: int|
            0 <= i < j < self.leases@.len() ==> self.leases@[i].user_id
                != self.leases@[j].user_id
        &&& forall|i: int|
            0 <= i < self.leases@.len() ==> #[trigger] self.map@.contains_key(
                self.leases@[i].user_id,
            ) && self.map@[self.leases@[i].user_id] == self.leases@[i].acquired_at
        &&& forall|k: i64|
            #[trigger] self.map@.contains_key(k) ==> exists|i: int|
                0 <= i < self.leases@.len() && self.leases@[i].user_id == k
    }

    /// An empty table.
    pub fn new() -> (r: LeaseTable)
        ensures
            r.well_formed(),
            r@ == Map::<i64, i64>::empty(),
    {
        LeaseTable { leases: Vec::new(), map: Ghost(Map::empty()) }
    }

    /// The position of `id` in the table, if it holds a lease.
    fn position(&self, id: i64) -> (r: Option<usize>)
        requires
            self.well_formed(),
        ensures
            r is None ==> !self@.contains_key(id),
            r matches Some(i) ==> i < self.leases@.len() && self.leases@[i as int].user_id == id,
    {
        let mut i: usize = 0;
        while i < self.leases.len()
            invariant
                i <= self.leases@.len(),
                forall|j: int| 0 <= j < i ==> self.leases@[j].user_id != id,
            decreases self.leases@.len() - i,
        {
            if self.leases[i].user_id == id {
                return Some(i);
            }
            i = i + 1;
        }
        None
    }

    /// Whether `id` holds a lease.
    pub fn is_leased(&self, id: i64) -> (r: bool)
        requires
            self.well_formed(),
        ensures
            r == self@.contains_key(id),
    {
        self.position(id).is_some()
    }

    /// When the lease on `id` was taken, if there is one.
    pub fn leased_at(&self, id: i64) -> (r: Option<i64>)
        requires
            self.well_formed(),
        ensures
            r is None <==> !self@.contains_key(id),
            r matches Some(t) ==> self@[id] == t,
    {
        match self.position(id) {
            Some(i) => {
                proof {
                    assert(self.map@.contains_key(self.leases@[i as int].user_id));
                }
                Some(self.leases[i].acquired_at)
            },
            None => None,
        }
    }

    /// Takes the lease on `id` at time `now` if nobody holds it, and says whether
    /// it did. A held lease is left as it is.
    pub fn try_acquire(&mut self, id: i64, now: i64) -> (r: bool)
        requires
            old(self).well_formed(),
        ensures
            final(self).well_formed(),
            r == acquire_succeeds(old(self)@, id),
            final(self)@ == after_acquire(old(self)@, id, now),
    {
        match self.position(id) {
            Some(_) => false,
            None => {
                self.insert_new(id, now);
                true
            }
        }
    }

    /// Adds a lease for an id that holds none.
    fn insert_new(&mut self, id: i64, now: i64)
        requires
            old(self).well_formed(),
            !old(self)@.contains_key(id),
        ensures
            final(self).well_formed(),
            final(self)@ == old(self)@.insert(id, now),
    {
        let ghost old_leases = self.leases@;
        let ghost m = self.map@;
        self.leases.push(Lease { user_id: id, acquired_at: now });
        self.map = Ghost(m.insert(id, now));
        proof {
            assert(self.leases@ == old_leases.push(Lease { user_id: id, acquired_at: now }));
            assert forall|i: int, j: int|
                0 <= i < j < self.leases@.len() implies self.leases@[i].user_id
                != self.leases@[j].user_id by {
                if j == old_leases.len() {
                    assert(m.contains_key(old_leases[i].user_id));
                }
            }
            assert forall|i: int| 0 <= i < self.leases@.len() implies #[trigger] self.map@.contains_key(
                self.leases@[i].user_id,
            ) && self.map@[self.leases@[i].user_id] == self.leases@[i].acquired_at by {
                if i < old_leases.len() {
                    assert(m.contains_key(old_leases[i].user_id));
                }
            }
            assert forall|k: i64| #[trigger] self.map@.contains_key(k) implies exists|i: int|
                0 <= i < self.leases@.len() && self.leases@[i].user_id == k by {
                if k == id {
                    assert(self.leases@[old_leases.len() as int].user_id == k);
                } else {
                    assert(m.contains_key(k));
                    let i = choose|i: int| 0 <= i < old_leases.len() && old_leases[i].user_id == k;
                    assert(self.leases@[i].user_id == k);
                }
            }
        }
    }

    /// Gives up the lease on `id`; nothing happens where there is none.
    pub fn release(&mut self, id: i64)
        requires
            old(self).well_formed(),
        ensures
            final(self).well_formed(),
            final(self)@ == after_release(old(self)@, id),
    {
        let ghost old_leases = self.leases@;
        let ghost m = self.map@;
        match self.position(id) {
            None => {
                assert(self.map@ =~= m.remove(id));
            },
            Some(p) => {
                self.leases.remove(p);
                self.map = Ghost(m.remove(id));
                proof {
                    assert(self.leases@ == old_leases.remove(p as int));
                    assert forall|i: int, j: int|
                        0 <= i < j < self.leases@.len() implies self.leases@[i].user_id
                        != self.leases@[j].user_id by {
                        let oi = if i < p { i } else { i + 1 };
                        let oj = if j < p { j } else { j + 1 };
                        assert(self.leases@[i] == old_leases[oi]);
                        assert(self.leases@[j] == old_leases[oj]);
                    }
                    assert forall|i: int| 0 <= i < self.leases@.len() implies #[trigger] self.map@.contains_key(
                        self.leases@[i].user_id,
                    ) && self.map@[self.leases@[i].user_id] == self.leases@[i].acquired_at by {
                        let oi = if i < p { i } else { i + 1 };
                        assert(self.leases@[i] == old_leases[oi]);
                        assert(m.contains_key(old_leases[oi].user_id));
                    }
                    assert forall|k: i64| #[trigger] self.map@.contains_key(k) implies exists|i: int|
                        0 <= i < self.leases@.len() && self.leases@[i].user_id == k by {
                        assert(m.contains_key(k));
                        let oi = choose|oi: int| 0 <= oi < old_leases.len() && old_leases[oi].user_id == k;
                        assert(oi != p);
                        let i = if oi < p { oi } else { oi - 1 };
                        assert(self.leases@[i] == old_leases[oi]);
                    }
                }
            },
        }
    }

    /// Removes every lease that is abandoned at time `now` and keeps the others.
    pub fn sweep(&mut self, now: i64)
        requires
            old(self).well_formed(),
        ensures
            final(self).well_formed(),
            final(self)@ == after_sweep(old(self)@, now),
    {
        let ghost m = self.map@;
        let mut expired: Vec<i64> = Vec::new();
        let mut i: usize = 0;
        while i < self.leases.len()
            invariant
                self.well_formed(),
                self.map@ == m,
                i <= self.leases@.len(),
                forall|j: int|
                    0 <= j < i && is_expired(#[trigger] self.leases@[j].acquired_at, now)
                        ==> expired@.contains(self.leases@[j].user_id),
                forall|e: i64|
                    #[trigger] expired@.contains(e) ==> m.contains_key(e) && is_expired(m[e], now),
            decreases self.leases@.len() - i,
        {
            let l = self.leases[i];
            proof {
                assert(m.contains_key(self.leases@[i as int].user_id));
            }
            if (now as i128) - (l.acquired_at as i128) > (LEASE_TTL_MILLIS as i128) {
                let ghost before = expired@;
                expired.push(l.user_id);
                proof {
                    assert forall|e: i64| #[trigger] expired@.contains(e) implies m.contains_key(e)
                        && is_expired(m[e], now) by {
                        if e != l.user_id {
                            let k = choose|k: int| 0 <= k < expired@.len() && expired@[k] == e;
                            assert(before[k] == e);
                            assert(before.contains(e));
                        } else {
                            assert(self.leases@[i as int] == l);
                        }
                    }
                    assert(expired@[before.len() as int] == l.user_id);
                    assert forall|j: int|
                        0 <= j < i + 1 && is_expired(#[trigger] self.leases@[j].acquired_at, now)
                            implies expired@.contains(self.leases@[j].user_id) by {
                        if j < i {
                            let k = choose|k: int|
                                0 <= k < before.len() && before[k] == self.leases@[j].user_id;
                            assert(expired@[k] == self.leases@[j].user_id);
                        }
                    }
                }
            }
            i = i + 1;
        }
        proof {
            assert forall|k: i64| m.contains_key(k) && is_expired(m[k], now) implies #[trigger] expired@.contains(k) by {
                let j = choose|j: int| 0 <= j < self.leases@.len() && self.leases@[j].user_id == k;
                assert(is_expired(self.leases@[j].acquired_at, now));
            }
        }
        let mut n: usize = 0;
        while n < expired.len()
            invariant
                self.well_formed(),
                n <= expired@.len(),
                forall|e: i64|
                    #[trigger] expired@.contains(e) ==> m.contains_key(e) && is_expired(m[e], now),
                forall|k: i64| m.contains_key(k) && is_expired(m[k], now) ==> #[trigger] expired@.contains(k),
                self@ == Map::new(
                    |k: i64| m.contains_key(k) && !expired@.subrange(0, n as int).contains(k),
                    |k: i64| m[k],
                ),
            decreases expired@.len() - n,
        {
            let ghost prev = self@;
            self.release(expired[n]);
            proof {
                let e = expired@[n as int];
                let s0 = expired@.subrange(0, n as int);
                let s1 = expired@.subrange(0, n + 1);
                assert(s1 == s0.push(e));
                assert forall|k: i64| #[trigger] s1.contains(k) <==> s0.contains(k) || k == e by {
                    if s1.contains(k) {
                        let j = choose|j: int| 0 <= j < s1.len() && s1[j] == k;
                        if j < n {
                            assert(s0[j] == k);
                        }
                    }
                    if s0.contains(k) {
                        let j = choose|j: int| 0 <= j < s0.len() && s0[j] == k;
                        assert(s1[j] == k);
                    }
                    if k == e {
                        assert(s1[n as int] == e);
                    }
                }
                assert(self@ =~= Map::new(
                    |k: i64| m.contains_key(k) && !expired@.subrange(0, n + 1).contains(k),
                    |k: i64| m[k],
                ));
            }
            n = n + 1;
        }
        proof {
            assert(expired@.subrange(0, expired@.len() as int) == expired@);
            assert(self@ =~= after_sweep(m, now));
        }
    }
}

/// An abandoned lease is gone after a sweep, even when no request came in
/// meanwhile, and the id can then be leased again.
pub proof fn lemma_sweep_reclaims_abandoned(m: Map<i64, i64>, id: i64, now: i64, later: i64)
    requires
        m.contains_key(id),
        is_expired(m[id], now),
    ensures
        !after_sweep(m, now).contains_key(id),
        acquire_succeeds(after_sweep(m, now), id),
        after_acquire(after_sweep(m, now), id, later)[id] == later,
{
}

/// Once an id is leased, a second `try_acquire` on it fails, and keeps failing
/// while other ids come and go, until the lease is released (or swept).
pub proof fn lemma_lease_is_exclusive(m: Map<i64, i64>, id: i64, other: i64, t1: i64, t2: i64)
    requires
        acquire_succeeds(m, id),
    ensures
        !acquire_succeeds(after_acquire(m, id, t1), id),
        after_acquire(after_acquire(m, id, t1), id, t2) == after_acquire(m, id, t1),
        other != id ==> !acquire_succeeds(after_acquire(after_acquire(m, id, t1), other, t2), id),
        other != id ==> !acquire_succeeds(after_release(after_acquire(m, id, t1), other), id),
        acquire_succeeds(after_release(after_acquire(m, id, t1), id), id),
{
}

} // verus!
