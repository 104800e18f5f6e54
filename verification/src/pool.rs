use vstd::prelude::*;

use crate::db;
use crate::db::PgConn;
use crate::errors::DbError;

verus! {

/// A fixed-capacity pool of reusable connections to one backend. The
/// connection set itself lives behind the trusted manager; this type pins
/// the capacity it was built with. `PoolState` is its bookkeeping model.
pub struct Pool {
    handle: db::PgPool,
    capacity: u32,
}

impl Pool {
    /// The fixed capacity the pool was constructed with.
    pub closed spec fn spec_capacity(&self) -> u32 {
        self.capacity
    }

    /// Builds the pool once, at startup, from the backend configuration and
    /// a positive capacity; the capacity never changes afterwards.
    pub fn new(config: postgres::Config, capacity: u32) -> (r: Result<Pool, DbError>)
        requires
            capacity > 0,
        ensures
            r matches Ok(p) ==> p.spec_capacity() == capacity,
            r matches Err(e) ==> e == DbError::ConnectionError,
    {
        match db::build_pool(config, capacity) {
            Ok(handle) => Ok(Pool { handle, capacity }),
            Err(_) => Err(DbError::ConnectionError),
        }
    }

    pub fn capacity(&self) -> (c: u32)
        ensures
            c == self.spec_capacity(),
    {
        self.capacity
    }

    /// Acquires an exclusive lease on one connection, waiting for at most
    /// the manager's configured timeout. Fails with `PoolExhausted` when no
    /// connection became available in time. The lease ends when the returned
    /// connection is dropped, on every exit path.
    pub fn acquire(&self) -> (r: Result<PgConn, DbError>)
        ensures
            r matches Err(e) ==> e == DbError::PoolExhausted,
    {
        match db::pool_get(&self.handle) {
            Ok(conn) => Ok(conn),
            Err(_) => Err(DbError::PoolExhausted),
        }
    }
}

/// Bookkeeping of a fixed-capacity connection pool: how many connections sit
/// idle and how many are leased out. Connections are created lazily, so
/// `idle + leased` may stay below `capacity`; it never exceeds it.
///
/// This is the specification model of the pool this layer runs on: the
/// trusted, backend-facing `Pool` below is relied upon to behave as these
/// transitions say, and the laws proved here are what that reliance buys.
#[derive(Clone, Copy, Debug, PartialEq, Eq, Structural)]
pub struct PoolState {
    pub capacity: u32,
    pub idle: u32,
    pub leased: u32,
}

/// The pool's invariant: idle and leased connections together never exceed
/// the fixed capacity.
pub open spec fn pool_wf(s: PoolState) -> bool {
    s.idle + s.leased <= s.capacity
}

/// What acquiring does: an idle connection is leased if one exists, a new
/// one is created (lazily) while there is room, and otherwise the request
/// fails with `PoolExhausted` and nothing changes.
pub open spec fn spec_acquire(s: PoolState) -> (PoolState, Result<(), DbError>) {
    if s.idle > 0 {
        (
            PoolState {
                capacity: s.capacity,
                idle: (s.idle - 1) as u32,
                leased: (s.leased + 1) as u32,
            },
            Ok(()),
        )
    } else if s.leased < s.capacity {
        (PoolState { capacity: s.capacity, idle: s.idle, leased: (s.leased + 1) as u32 }, Ok(()))
    } else {
        (s, Err(DbError::PoolExhausted))
    }
}

/// What releasing a leased connection does: it returns to the idle set.
pub open spec fn spec_release(s: PoolState) -> PoolState {
    PoolState { capacity: s.capacity, idle: (s.idle + 1) as u32, leased: (s.leased - 1) as u32 }
}

/// What discarding a leased connection does: a connection found broken is
/// dropped rather than returned, leaving room for a lazy replacement.
pub open spec fn spec_discard(s: PoolState) -> PoolState {
    PoolState { capacity: s.capacity, idle: s.idle, leased: (s.leased - 1) as u32 }
}

impl PoolState {
    /// A fresh pool: nothing leased, nothing idle yet (connections are
    /// created lazily up to capacity).
    pub fn new(capacity: u32) -> (s: PoolState)
        ensures
            s == (PoolState { capacity, idle: 0, leased: 0 }),
            pool_wf(s),
    {
        PoolState { capacity, idle: 0, leased: 0 }
    }

    /// Leases a connection when one is idle or there is room to create one;
    /// fails with `PoolExhausted`, changing nothing, when the pool is at
    /// capacity.
    pub fn acquire(&mut self) -> (r: Result<(), DbError>)
        requires
            pool_wf(*old(self)),
        ensures
            pool_wf(*final(self)),
            (*final(self), r) == spec_acquire(*old(self)),
            r is Ok <==> old(self).leased < old(self).capacity,
            r is Ok ==> final(self).leased == old(self).leased + 1,
            r is Err ==> r == Err::<(), DbError>(DbError::PoolExhausted) && *final(self) == *old(
                self,
            ),
    {
        if self.idle > 0 {
            self.idle = self.idle - 1;
            self.leased = self.leased + 1;
            Ok(())
        } else if self.leased < self.capacity {
            self.leased = self.leased + 1;
            Ok(())
        } else {
            Err(DbError::PoolExhausted)
        }
    }

    /// Returns a leased connection to the idle set. Must be called exactly
    /// once per successful acquire, on every exit path.
    pub fn release(&mut self)
        requires
            pool_wf(*old(self)),
            old(self).leased > 0,
        ensures
            *final(self) == spec_release(*old(self)),
            pool_wf(*final(self)),
    {
        self.idle = self.idle + 1;
        self.leased = self.leased - 1;
    }

    /// Drops a leased connection that was found broken instead of returning
    /// it; the freed room allows a lazy replacement later.
    pub fn discard(&mut self)
        requires
            pool_wf(*old(self)),
            old(self).leased > 0,
        ensures
            *final(self) == spec_discard(*old(self)),
            pool_wf(*final(self)),
    {
        self.leased = self.leased - 1;
    }
}

/// For any capacity, at most `capacity` connections are leased at once: the
/// invariant bounds the lease count, and an acquire at the bound fails with
/// `PoolExhausted` and changes nothing, until a release makes room again.
pub proof fn lemma_lease_bound(s: PoolState)
    requires
        pool_wf(s),
    ensures
        s.leased <= s.capacity,
        s.leased == s.capacity ==> spec_acquire(s) == (
            s,
            Err::<(), DbError>(DbError::PoolExhausted),
        ),
        s.leased == s.capacity ==> spec_acquire(spec_release(spec_acquire(s).0)).1 is Ok,
{
}

/// Every transition preserves the invariant and never touches the capacity,
/// so the lease bound holds over any history of acquires, releases and
/// discards.
pub proof fn lemma_transitions_preserve_wf(s: PoolState)
    requires
        pool_wf(s),
    ensures
        pool_wf(spec_acquire(s).0) && spec_acquire(s).0.capacity == s.capacity,
        s.leased > 0 ==> pool_wf(spec_release(s)) && spec_release(s).capacity == s.capacity,
        s.leased > 0 ==> pool_wf(spec_discard(s)) && spec_discard(s).capacity == s.capacity,
{
}

/// Every successful acquire is matched by exactly one release: releasing the
/// lease afterwards restores the lease count and keeps the pool well-formed,
/// whatever the caller did with the connection in between — a failing query
/// does not consume the lease, and the connection is idle again.
pub proof fn lemma_acquire_release_roundtrip(s: PoolState)
    requires
        pool_wf(s),
        spec_acquire(s).1 is Ok,
    ensures
        pool_wf(spec_release(spec_acquire(s).0)),
        spec_release(spec_acquire(s).0).leased == s.leased,
        spec_release(spec_acquire(s).0).capacity == s.capacity,
        spec_release(spec_acquire(s).0).idle >= s.idle,
{
}

} // verus!
