use vstd::prelude::*;

verus! {

/// The numbers that govern a pool's sizing policy.
///
/// `idle` connections wait in the pool, `live` connections exist in all
/// (idle and checked out), and the policy keeps `live` between `min` and
/// `max` as connections come and go.
pub struct PoolCounts {
    pub idle: nat,
    pub live: nat,
    pub min: nat,
    pub max: nat,
}

impl PoolCounts {
    /// The bounds are valid and the counts respect them.
    pub open spec fn wf(self) -> bool {
        &&& self.min <= self.max
        &&& self.max > 0
        &&& self.live <= self.max
        &&& self.idle <= self.live
    }

    /// A request for a connection can be served without waiting: either an
    /// idle connection is there, or the pool may grow.
    pub open spec fn can_acquire(self) -> bool {
        self.idle > 0 || self.live < self.max
    }

    /// The counts after a successful checkout: the most recently returned
    /// idle connection is handed out, or, with none idle, a new one is
    /// opened and handed out.
    pub open spec fn acquired(self) -> PoolCounts {
        if self.idle > 0 {
            PoolCounts { idle: (self.idle - 1) as nat, ..self }
        } else {
            PoolCounts { live: self.live + 1, ..self }
        }
    }

    /// The counts after a checked-out slot ends. A slot that still holds its
    /// connection returns it to the idle set while the pool is at or below
    /// `min`; otherwise (or when the connection was taken out of the pool's
    /// care) the slot stops counting as live.
    pub open spec fn released(self, has_conn: bool) -> PoolCounts {
        if self.live > self.min || !has_conn {
            PoolCounts { live: (self.live - 1) as nat, ..self }
        } else {
            PoolCounts { idle: self.idle + 1, ..self }
        }
    }

    /// The counts after `n` successful checkouts in a row.
    pub open spec fn acquired_n(self, n: nat) -> PoolCounts
        decreases n,
    {
        if n == 0 {
            self
        } else {
            self.acquired().acquired_n((n - 1) as nat)
        }
    }

    /// The counts after `n` checked-out connections are returned in a row.
    pub open spec fn released_n(self, n: nat) -> PoolCounts
        decreases n,
    {
        if n == 0 {
            self
        } else {
            self.released(true).released_n((n - 1) as nat)
        }
    }
}

/// Checking out a connection and ending a checked-out slot both keep the
/// counts valid: `live` never exceeds `max` and `idle` never exceeds `live`.
/// A slot can only end while some connection is checked out.
pub proof fn lemma_steps_keep_wf(s: PoolCounts, has_conn: bool)
    requires
        s.wf(),
    ensures
        s.can_acquire() ==> s.acquired().wf(),
        s.live > s.idle ==> s.released(has_conn).wf(),
{
}

/// While fewer than `max` connections are checked out, a request for a
/// connection never has to wait.
pub proof fn lemma_no_wait_below_max(s: PoolCounts, out: nat)
    requires
        s.wf(),
        s.live == s.idle + out,
        out < s.max,
    ensures
        s.can_acquire(),
{
}

/// A slot whose connection was taken out of the pool's care ends by
/// counting one live connection less, and adds nothing to the idle ones;
/// the same holds for a slot whose connection could not be reset and was
/// dropped.
pub proof fn lemma_release_without_conn(s: PoolCounts)
    requires
        s.wf(),
        s.live > s.idle,
    ensures
        s.released(false).live == s.live - 1,
        s.released(false).idle == s.idle,
        s.released(false).wf(),
{
}

/// From a pool at rest (nothing checked out, at most `min` idle), `j <= max`
/// checkouts first drain the idle connections and then grow the pool.
proof fn lemma_acquire_from_rest(s: PoolCounts, j: nat)
    requires
        s.wf(),
        s.live == s.idle,
        s.idle <= s.min,
        j <= s.max,
    ensures
        s.acquired_n(j).min == s.min,
        s.acquired_n(j).max == s.max,
        j <= s.idle ==> s.acquired_n(j).idle == s.idle - j && s.acquired_n(j).live == s.live,
        j > s.idle ==> s.acquired_n(j).idle == 0 && s.acquired_n(j).live == j,
    decreases j,
{
    if j > 0 {
        let t = s.acquired();
        if s.idle > 0 {
            let r = PoolCounts { live: t.idle, ..t };
            lemma_acquire_from_rest(r, (j - 1) as nat);
            lemma_acquired_n_shift(r, (j - 1) as nat, 1);
            assert(t == (PoolCounts { live: r.live + 1, ..r }));
        } else {
            lemma_acquired_n_grow(t, (j - 1) as nat);
        }
    }
}

/// With nothing idle, each of `j` checkouts opens a new connection.
proof fn lemma_acquired_n_grow(s: PoolCounts, j: nat)
    requires
        s.idle == 0,
    ensures
        s.acquired_n(j) == (PoolCounts { live: s.live + j, ..s }),
    decreases j,
{
    if j > 0 {
        lemma_acquired_n_grow(s.acquired(), (j - 1) as nat);
    }
}

/// Checkouts that drain idle connections do not look at `live`, and
/// growth adds to it: shifting `live` up front shifts it at the end.
proof fn lemma_acquired_n_shift(s: PoolCounts, j: nat, d: nat)
    ensures
        (PoolCounts { live: s.live + d, ..s }).acquired_n(j) == (PoolCounts {
            live: s.acquired_n(j).live + d,
            ..s.acquired_n(j)
        }),
    decreases j,
{
    if j > 0 {
        lemma_acquired_n_shift(s.acquired(), (j - 1) as nat, d);
    }
}

/// Returning all `k` checked-out connections while at most `min` are idle:
/// the surplus above `min` is closed and the rest waits idle, so the pool
/// ends with exactly `min` live connections, all idle.
proof fn lemma_release_down(s: PoolCounts, k: nat)
    requires
        s.idle + k == s.live,
        s.idle <= s.min,
        s.min <= s.live,
    ensures
        s.released_n(k).live == s.min,
        s.released_n(k).idle == s.min,
    decreases k,
{
    if k > 0 {
        lemma_release_down(s.released(true), (k - 1) as nat);
    }
}

/// A pool at rest that serves `max` checkouts at once grows to exactly `max`
/// live connections with none idle, so a further request waits; once all of
/// them are returned the pool shrinks back to exactly `min` live connections,
/// all idle.
pub proof fn lemma_elastic(s: PoolCounts)
    requires
        s.wf(),
        s.live == s.idle,
        s.idle <= s.min,
    ensures
        s.acquired_n(s.max).live == s.max,
        s.acquired_n(s.max).idle == 0,
        !s.acquired_n(s.max).can_acquire(),
        s.acquired_n(s.max).released_n(s.max).live == s.min,
        s.acquired_n(s.max).released_n(s.max).idle == s.min,
{
    lemma_acquire_from_rest(s, s.max);
    lemma_release_down(s.acquired_n(s.max), s.max);
}

} // verus!
