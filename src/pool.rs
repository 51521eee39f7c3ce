use vstd::prelude::*;

use crate::error::PoolError;
use crate::model::PoolCounts;

verus! {

/// What the pool needs from a database connection.
///
/// Implemented by the connection type of a driver. The pool makes no
/// assumption about what these calls return: every outcome is handled.
pub trait Connection: Sized {
    /// Parameters used to open a connection (address, credentials, ...).
    type Opts;
    /// Error reported by the connection.
    type Error;

    /// Opens a new connection.
    fn connect(opts: &Self::Opts) -> Result<Self, Self::Error>;

    /// Checks with a round trip whether the connection still works.
    fn ping(&mut self) -> bool;

    /// Clears the connection's server-side session state.
    fn reset(&mut self) -> Result<(), Self::Error>;
}

/// The least number of live connections of a pool made with `new_default`.
pub const DEFAULT_MIN: usize = 10;

/// The most live connections of a pool made with `new_default`.
pub const DEFAULT_MAX: usize = 100;

/// Outcome of one attempt to check a connection out of the pool.
#[derive(Debug)]
pub enum Acquire<C, E> {
    /// A connection, now checked out.
    Ready(C),
    /// Every allowed connection exists and is checked out: the caller has to
    /// wait until one is returned, then try again.
    Wait,
    /// The pool needed a new connection and opening it failed.
    Failed(E),
}

/// The state of a connection pool: its idle connections, its bounds and the
/// number of live connections (idle and checked out).
///
/// This is the part of a pool that one lock protects. The idle connections
/// form a stack: the most recently returned one is handed out first.
pub struct MyInnerPool<C: Connection> {
    opts: C::Opts,
    pool: Vec<C>,
    min: usize,
    max: usize,
    count: usize,
}

impl<C: Connection> MyInnerPool<C> {
    /// Well-formed: the bounds are valid and the counts respect them.
    pub open spec fn wf(self) -> bool {
        &&& self.counts().wf()
        &&& self.counts().idle == self.idle().len()
    }

    /// The idle connections, the most recently returned one last.
    pub closed spec fn idle(self) -> Seq<C> {
        self.pool@
    }

    /// The connection parameters.
    pub closed spec fn opts(self) -> C::Opts {
        self.opts
    }

    /// The pool's counts: idle and live connections and the bounds.
    pub closed spec fn counts(self) -> PoolCounts {
        PoolCounts {
            idle: self.pool@.len(),
            live: self.count as nat,
            min: self.min as nat,
            max: self.max as nat,
        }
    }

    /// Creates a pool that keeps at least `min` and at most `max` connections,
    /// and opens its first `min` connections.
    ///
    /// Fails with `InvalidPoolConstraints` when `min > max` or `max == 0`,
    /// and with the connection's error as soon as one of the `min`
    /// connections cannot be opened.
    pub fn new(min: usize, max: usize, opts: C::Opts) -> (r: Result<Self, PoolError<C::Error>>)
        ensures
            (min > max || max == 0) <==> r matches Err(PoolError::InvalidPoolConstraints),
            r is Err ==> r matches Err(PoolError::InvalidPoolConstraints) || r matches Err(
                PoolError::ConnectionCreationFailed(_),
            ),
            min == 0 && max > 0 ==> r is Ok,
            r matches Ok(p) ==> p.wf() && p.counts() == (PoolCounts {
                idle: min as nat,
                live: min as nat,
                min: min as nat,
                max: max as nat,
            }) && p.opts() == opts,
    {
        if min > max || max == 0 {
            return Err(PoolError::InvalidPoolConstraints);
        }
        let mut pool = MyInnerPool { opts, pool: Vec::with_capacity(max), max, min, count: 0 };
        let mut i: usize = 0;
        while i < min
            invariant
                i <= min,
                min <= max,
                pool.counts() == (PoolCounts {
                    idle: i as nat,
                    live: i as nat,
                    min: min as nat,
                    max: max as nat,
                }),
                pool.opts() == opts,
                pool.wf(),
            decreases min - i,
        {
            let res = C::connect(&pool.opts);
            match pool.add_conn(res) {
                Ok(()) => {},
                Err(e) => {
                    return Err(PoolError::ConnectionCreationFailed(e));
                },
            }
            i = i + 1;
        }
        Ok(pool)
    }

    /// Creates a pool with the default bounds: `min` 10 and `max` 100.
    pub fn new_default(opts: C::Opts) -> (r: Result<Self, PoolError<C::Error>>)
        ensures
            r is Err ==> r matches Err(PoolError::ConnectionCreationFailed(_)),
            r matches Ok(p) ==> p.wf() && p.counts() == (PoolCounts {
                idle: DEFAULT_MIN as nat,
                live: DEFAULT_MIN as nat,
                min: DEFAULT_MIN as nat,
                max: DEFAULT_MAX as nat,
            }) && p.opts() == opts,
    {
        Self::new(DEFAULT_MIN, DEFAULT_MAX, opts)
    }

    /// Opens one more connection and adds it to the idle connections.
    ///
    /// Requires room for it under `max`. What `add_conn` does with the
    /// outcome of opening it says which connection is added and which error
    /// is returned; on failure the pool is unchanged.
    pub fn new_conn(&mut self) -> (r: Result<(), C::Error>)
        requires
            old(self).wf(),
            old(self).counts().live < old(self).counts().max,
        ensures
            final(self).wf(),
            final(self).opts() == old(self).opts(),
            r is Ok ==> final(self).counts() == (PoolCounts {
                idle: old(self).counts().idle + 1,
                live: old(self).counts().live + 1,
                ..old(self).counts()
            }) && final(self).idle().drop_last() == old(self).idle(),
            r is Err ==> final(self).counts() == old(self).counts() && final(self).idle() == old(
                self,
            ).idle(),
    {
        let res = C::connect(&self.opts);
        self.add_conn(res)
    }

    /// Records the outcome of opening a connection: an opened connection
    /// goes on top of the idle connections and counts as live; an error is
    /// passed on unchanged and leaves the pool as it was.
    pub fn add_conn(&mut self, res: Result<C, C::Error>) -> (r: Result<(), C::Error>)
        requires
            old(self).wf(),
            old(self).counts().live < old(self).counts().max,
        ensures
            final(self).wf(),
            final(self).opts() == old(self).opts(),
            res matches Ok(c) ==> r is Ok && final(self).idle() == old(self).idle().push(c)
                && final(self).counts() == (PoolCounts {
                idle: old(self).counts().idle + 1,
                live: old(self).counts().live + 1,
                ..old(self).counts()
            }),
            res matches Err(e) ==> r == Err::<(), C::Error>(e) && final(self).counts() == old(
                self,
            ).counts() && final(self).idle() == old(self).idle(),
    {
        match res {
            Ok(conn) => {
                self.pool.push(conn);
                self.count = self.count + 1;
                Ok(())
            },
            Err(err) => Err(err),
        }
    }

    /// Records the outcome of opening a connection for a checkout that found
    /// no idle connection: an opened connection is counted as live and handed
    /// out; an error is handed back unchanged and leaves the pool as it was.
    pub fn grow(&mut self, res: Result<C, C::Error>) -> (r: Acquire<C, C::Error>)
        requires
            old(self).wf(),
            old(self).idle().len() == 0,
            old(self).counts().live < old(self).counts().max,
        ensures
            final(self).wf(),
            final(self).opts() == old(self).opts(),
            final(self).idle() == old(self).idle(),
            res matches Ok(c) ==> r == Acquire::<C, C::Error>::Ready(c) && final(self).counts()
                == old(self).counts().acquired(),
            res matches Err(e) ==> r == Acquire::<C, C::Error>::Failed(e) && final(self).counts()
                == old(self).counts(),
    {
        match self.add_conn(res) {
            Ok(()) => {},
            Err(err) => {
                return Acquire::Failed(err);
            },
        }
        let conn = self.pool.pop().unwrap();
        proof {
            assert(self.pool@ =~= old(self).pool@);
        }
        Acquire::Ready(conn)
    }

    /// One attempt to check a connection out, made while holding the pool's
    /// lock.
    ///
    /// Hands out the most recently returned idle connection. With none idle,
    /// opens a new one if fewer than `max` connections are live, and hands
    /// that out; if opening it fails, the pool is unchanged and the error is
    /// returned. With none idle and `max` live, nothing changes and the
    /// caller has to wait for a connection to be returned.
    pub fn try_acquire(&mut self) -> (r: Acquire<C, C::Error>)
        requires
            old(self).wf(),
        ensures
            final(self).wf(),
            final(self).opts() == old(self).opts(),
            r is Wait <==> !old(self).counts().can_acquire(),
            r is Ready ==> final(self).counts() == old(self).counts().acquired(),
            old(self).idle().len() > 0 ==> (r matches Acquire::Ready(c) && c == old(
                self,
            ).idle().last() && final(self).idle() == old(self).idle().drop_last()),
            r is Ready && old(self).idle().len() == 0 ==> final(self).idle() == old(self).idle(),
            r is Failed ==> old(self).idle().len() == 0 && old(self).counts().live < old(
                self,
            ).counts().max,
            !(r is Ready) ==> final(self).counts() == old(self).counts() && final(self).idle()
                == old(self).idle(),
    {
        if self.pool.len() == 0 {
            if self.count < self.max {
                let res = C::connect(&self.opts);
                return self.grow(res);
            } else {
                return Acquire::Wait;
            }
        }
        let conn = self.pool.pop().unwrap();
        Acquire::Ready(conn)
    }

    /// Ends a checked-out slot, made while holding the pool's lock. `conn` is
    /// the slot's connection, or `None` when it was taken out of the pool's
    /// care.
    ///
    /// While more than `min` connections are live, or without a connection,
    /// the slot stops counting as live (the connection is closed). Otherwise
    /// the connection goes back to the idle connections.
    pub fn release(&mut self, conn: Option<C>)
        requires
            old(self).wf(),
            old(self).counts().live > old(self).counts().idle,
        ensures
            final(self).wf(),
            final(self).opts() == old(self).opts(),
            final(self).counts() == old(self).counts().released(conn is Some),
            final(self).idle() == if old(self).counts().live > old(self).counts().min
                || conn is None {
                old(self).idle()
            } else {
                old(self).idle().push(conn->Some_0)
            },
    {
        if self.count > self.min || conn.is_none() {
            self.count = self.count - 1;
        } else {
            match conn {
                Some(c) => self.pool.push(c),
                None => {},
            }
        }
    }

    /// The least number of live connections the pool keeps.
    pub fn min(&self) -> (r: usize)
        ensures
            r == self.counts().min,
    {
        self.min
    }

    /// The most live connections the pool allows.
    pub fn max(&self) -> (r: usize)
        ensures
            r == self.counts().max,
    {
        self.max
    }

    /// The number of live connections, idle and checked out.
    pub fn count(&self) -> (r: usize)
        ensures
            r == self.counts().live,
    {
        self.count
    }

    /// The number of idle connections.
    pub fn idle_len(&self) -> (r: usize)
        ensures
            r == self.counts().idle,
    {
        self.pool.len()
    }
}

/// Makes a connection just checked out of the pool ready for use: it is
/// pinged, and reset only when the ping reports it dead. `after_ping` says
/// what comes of each outcome.
pub fn check_conn<C: Connection>(conn: C) -> (r: Result<C, PoolError<C::Error>>)
    ensures
        r is Err ==> r matches Err(PoolError::ConnectionResetFailed(_)),
{
    let mut conn = conn;
    let alive = conn.ping();
    let reset = if alive {
        None
    } else {
        Some(conn.reset())
    };
    after_ping(conn, alive, reset)
}

/// Decides a checkout from the liveness check's outcome `alive` and, for a
/// dead connection, the outcome of resetting it (`None` when no reset was
/// made, which is exactly when the connection was alive).
///
/// A live connection, or a dead one that was reset, is handed out. A failed
/// reset is returned as `ConnectionResetFailed` with the connection's error;
/// the connection is then dropped, never returned to the idle connections,
/// and its slot is to be ended with `MyInnerPool::release(None)`, so that
/// it stops counting as live.
pub fn after_ping<C: Connection>(conn: C, alive: bool, reset: Option<Result<(), C::Error>>) -> (r:
    Result<C, PoolError<C::Error>>)
    requires
        alive <==> reset is None,
    ensures
        alive ==> r == Ok::<C, PoolError<C::Error>>(conn),
        reset matches Some(Ok(())) ==> r == Ok::<C, PoolError<C::Error>>(conn),
        reset matches Some(Err(e)) ==> r == Err::<C, PoolError<C::Error>>(
            PoolError::ConnectionResetFailed(e),
        ),
{
    match reset {
        None => Ok(conn),
        Some(Ok(())) => Ok(conn),
        Some(Err(err)) => Err(PoolError::ConnectionResetFailed(err)),
    }
}

} // verus!
