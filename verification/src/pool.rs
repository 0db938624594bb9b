//! The bounded connection pool and its lease discipline: a fixed
//! number of backend connections, each lent out exclusively, each
//! hosting at most one transaction at a time, and each owed back —
//! with no transaction left open — before it can be lent again.

use vstd::prelude::*;

use crate::errors::ServiceError;

verus! {

/// A borrowed connection. Values exist only between an
/// [`Pool::acquire`] and the matching [`Pool::release`]; while held,
/// the lease may host at most one open transaction.
pub struct Lease {
    in_transaction: bool,
}

impl Lease {
    /// Whether a transaction is open on this lease.
    pub closed spec fn spec_in_transaction(&self) -> bool {
        self.in_transaction
    }

    /// Whether a transaction is open on this lease.
    pub fn has_open_transaction(&self) -> (b: bool)
        ensures
            b == self.spec_in_transaction(),
    {
        self.in_transaction
    }

    /// Opens the one transaction this lease may host.
    pub fn begin_transaction(&mut self)
        requires
            !old(self).spec_in_transaction(),
        ensures
            final(self).spec_in_transaction(),
    {
        self.in_transaction = true;
    }

    /// Commits the open transaction, leaving the lease free of it.
    pub fn commit(&mut self)
        requires
            old(self).spec_in_transaction(),
        ensures
            !final(self).spec_in_transaction(),
    {
        self.in_transaction = false;
    }

    /// Rolls the open transaction back, leaving the lease free of it.
    pub fn rollback(&mut self)
        requires
            old(self).spec_in_transaction(),
        ensures
            !final(self).spec_in_transaction(),
    {
        self.in_transaction = false;
    }
}

/// The bounded pool: `size` connections in all, `idle` of them
/// currently free to lend.
pub struct Pool {
    size: usize,
    idle: usize,
}

impl Pool {
    /// How many connections the pool was built with.
    pub closed spec fn spec_size(&self) -> nat {
        self.size as nat
    }

    /// How many connections are free to lend.
    pub closed spec fn spec_idle(&self) -> nat {
        self.idle as nat
    }

    /// The pool invariant: never more idle connections than exist.
    pub open spec fn wf(&self) -> bool {
        self.spec_idle() <= self.spec_size()
    }

    /// A pool of `size` connections, all idle.
    pub fn new(size: usize) -> (p: Pool)
        ensures
            p.spec_size() == size,
            p.spec_idle() == size,
            p.wf(),
    {
        Pool { size, idle: size }
    }

    /// How many connections the pool was built with.
    pub fn size(&self) -> (n: usize)
        ensures
            n == self.spec_size(),
    {
        self.size
    }

    /// How many connections are free to lend.
    pub fn idle(&self) -> (n: usize)
        ensures
            n == self.spec_idle(),
    {
        self.idle
    }

    /// Lends a connection out, exclusively, with no transaction open
    /// on it; fails with `Unavailable` — the retryable exhaustion
    /// signal — exactly when none is free within the wait bound.
    pub fn acquire(&mut self) -> (r: Result<Lease, ServiceError>)
        requires
            old(self).wf(),
        ensures
            final(self).wf(),
            final(self).spec_size() == old(self).spec_size(),
            match r {
                Ok(lease) => old(self).spec_idle() > 0
                    && final(self).spec_idle() == old(self).spec_idle() - 1
                    && !lease.spec_in_transaction(),
                Err(e) => e == ServiceError::Unavailable && old(self).spec_idle() == 0
                    && final(self).spec_idle() == 0,
            },
    {
        if self.idle == 0 {
            Err(ServiceError::Unavailable)
        } else {
            self.idle = self.idle - 1;
            Ok(Lease { in_transaction: false })
        }
    }

    /// Takes a lease back. The borrower must have committed or rolled
    /// back any transaction first: returning a lease with one still
    /// open is a programming error, not a recoverable outcome.
    pub fn release(&mut self, lease: Lease)
        requires
            old(self).wf(),
            old(self).spec_idle() < old(self).spec_size(),
            !lease.spec_in_transaction(),
        ensures
            final(self).wf(),
            final(self).spec_size() == old(self).spec_size(),
            final(self).spec_idle() == old(self).spec_idle() + 1,
    {
        let _ = lease;
        self.idle = self.idle + 1;
    }
}

} // verus!
