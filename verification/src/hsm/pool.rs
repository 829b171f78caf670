//! Per-backend bounded pool of reusable session handles.
//!
//! The pool lends out connections exclusively: a connection is owned by the
//! pool while idle and by exactly one caller while checked out.  Acquisition
//! is fail-fast: when every live connection is checked out and the live count
//! has reached `max_connections`, `get_connection` returns
//! `ResourceExhausted` instead of waiting.  Idle connections are reused in
//! last-returned-first order (a deliberate, documented policy; callers must
//! not rely on any fairness among idle connections).

use vstd::prelude::*;

use crate::hsm::HsmError;

verus! {

/// A live session handle to a backend.
#[derive(Clone, Copy, Debug)]
pub struct HsmConnection {
    /// Identifier, unique within the owning pool.
    pub id: u64,
    /// Unix milliseconds at which the session was established.
    pub created_at: u64,
    /// Unix milliseconds of the most recent checkout.
    pub last_used: u64,
    /// True while the connection is lent to a caller.
    pub is_busy: bool,
}

/// Bounded pool of reusable connections.
///
/// `current_connections` counts every live connection, idle or checked out;
/// `idle` holds exactly the live connections currently owned by the pool.
/// Connections are created lazily, identified by the order of their creation,
/// and destroyed only with the pool, so `current_connections` never
/// decreases and doubles as the allocation counter for fresh identifiers.
#[derive(Debug)]
pub struct HsmConnectionPool {
    pub idle: Vec<HsmConnection>,
    pub max_connections: u32,
    pub current_connections: u32,
}

impl HsmConnectionPool {
    /// Number of connections currently checked out by callers.
    pub open spec fn outstanding(&self) -> int {
        self.current_connections - self.idle@.len()
    }

    /// Well-formedness: the idle list never exceeds the live count, the live
    /// count never exceeds the bound, idle connections are not busy, and
    /// identifiers are unique and below the allocation counter.
    pub open spec fn wf(&self) -> bool {
        &&& self.idle@.len() <= self.current_connections <= self.max_connections
        &&& forall|i: int|
            0 <= i < self.idle@.len() ==> !(#[trigger] self.idle@[i]).is_busy
        &&& forall|i: int|
            0 <= i < self.idle@.len() ==> (#[trigger] self.idle@[i]).id
                < self.current_connections
        &&& forall|i: int, j: int|
            0 <= i < j < self.idle@.len() ==> (#[trigger] self.idle@[i]).id
                != (#[trigger] self.idle@[j]).id
    }

    /// Acquisition succeeds exactly when an idle connection exists or the
    /// pool may still grow.
    pub open spec fn can_acquire(&self) -> bool {
        self.idle@.len() > 0 || self.current_connections < self.max_connections
    }

    /// Creates an empty pool bounded by `max_connections`.
    pub fn new(max_connections: u32) -> (r: Self)
        ensures
            r.wf(),
            r.max_connections == max_connections,
            r.current_connections == 0,
            r.idle@.len() == 0,
            r.outstanding() == 0,
    {
        HsmConnectionPool { idle: Vec::new(), max_connections, current_connections: 0 }
    }

    /// Returns an idle connection if one exists, creates a fresh one while
    /// the live count is below the bound, and otherwise fails fast with
    /// `ResourceExhausted`.
    pub fn get_connection(&mut self, now_ms: u64) -> (r: Result<HsmConnection, HsmError>)
        requires
            old(self).wf(),
        ensures
            final(self).wf(),
            final(self).max_connections == old(self).max_connections,
            r is Ok <==> old(self).can_acquire(),
            r is Err ==> r == Err::<HsmConnection, HsmError>(HsmError::ResourceExhausted)
                && final(self).idle@ == old(self).idle@
                && final(self).current_connections == old(self).current_connections,
            r matches Ok(c) ==> c.is_busy && c.last_used == now_ms
                && final(self).outstanding() == old(self).outstanding() + 1
                && c.id < final(self).current_connections,
            old(self).idle@.len() > 0 && r is Ok ==> {
                &&& final(self).idle@ == old(self).idle@.drop_last()
                &&& final(self).current_connections == old(self).current_connections
                &&& r matches Ok(c) ==> c.id == old(self).idle@.last().id
                    && c.created_at == old(self).idle@.last().created_at
            },
            old(self).idle@.len() == 0 && r is Ok ==> {
                &&& final(self).idle@.len() == 0
                &&& final(self).current_connections == old(self).current_connections + 1
                &&& r matches Ok(c) ==> c.id == old(self).current_connections
                    && c.created_at == now_ms
            },
            r is Ok ==> forall|i: int|
                0 <= i < final(self).idle@.len() ==> (#[trigger] final(self).idle@[i]).id
                    != r->Ok_0.id,
    {
        if let Some(mut conn) = self.idle.pop() {
            conn.last_used = now_ms;
            conn.is_busy = true;
            return Ok(conn);
        }
        if self.current_connections < self.max_connections {
            let conn = HsmConnection {
                id: self.current_connections as u64,
                created_at: now_ms,
                last_used: now_ms,
                is_busy: true,
            };
            self.current_connections = self.current_connections + 1;
            return Ok(conn);
        }
        Err(HsmError::ResourceExhausted)
    }

    /// Clears the busy flag and makes the connection immediately available
    /// for reuse.
    pub fn return_connection(&mut self, conn: HsmConnection)
        requires
            old(self).wf(),
            old(self).outstanding() > 0,
            conn.id < old(self).current_connections,
            forall|i: int|
                0 <= i < old(self).idle@.len() ==> (#[trigger] old(self).idle@[i]).id
                    != conn.id,
        ensures
            final(self).wf(),
            final(self).max_connections == old(self).max_connections,
            final(self).current_connections == old(self).current_connections,
            final(self).idle@.len() == old(self).idle@.len() + 1,
            final(self).idle@.last().id == conn.id,
            final(self).idle@.last().created_at == conn.created_at,
            !final(self).idle@.last().is_busy,
            final(self).idle@.drop_last() == old(self).idle@,
            final(self).outstanding() == old(self).outstanding() - 1,
    {
        let mut returned = conn;
        returned.is_busy = false;
        self.idle.push(returned);
    }
}

/// Capacity law of the pool: while fewer than `max_connections` connections
/// are checked out, acquisition always succeeds; once `max_connections`
/// connections are checked out, the next acquisition without an intervening
/// return is the one that fails.
pub proof fn lemma_pool_accepts_below_capacity(pool: HsmConnectionPool)
    requires
        pool.wf(),
    ensures
        pool.outstanding() < pool.max_connections ==> pool.can_acquire(),
        pool.outstanding() == pool.max_connections ==> !pool.can_acquire(),
{
    if pool.outstanding() < pool.max_connections {
        if pool.idle@.len() == 0 {
            assert(pool.current_connections < pool.max_connections);
        }
    }
    if pool.outstanding() == pool.max_connections {
        assert(pool.idle@.len() == 0);
    }
}

} // verus!
