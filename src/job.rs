//! The admission controller and the lifecycle of one generation job.
//!
//! Capacity is a counting semaphore: a job exists only while it holds one of
//! its permits, and settling the job gives that permit back exactly once.

use std::sync::Arc;
use tokio::sync::{OwnedSemaphorePermit, Semaphore};
use vstd::prelude::*;

verus! {

#[verifier::external_type_specification]
#[verifier::external_body]
pub struct ExSemaphore(Semaphore);

#[verifier::external_type_specification]
#[verifier::external_body]
pub struct ExOwnedSemaphorePermit(OwnedSemaphorePermit);

/// How many generation jobs may be outstanding at once.
pub const CAPACITY: usize = 4;

/// The pause between two liveness signals of an outstanding job.
pub const HEARTBEAT_MILLIS: u64 = 2000;

/// The largest number of permits a semaphore can be made with
/// (tokio's `Semaphore::MAX_PERMITS`).
pub const MAX_POOL: usize = usize::MAX / 8;

/// The number of permits a pool was made with.
pub uninterp spec fn pool_size(p: Arc<Semaphore>) -> nat;

/// Relies on tokio's Semaphore::new: a semaphore with the given number of
/// permits (it panics above `MAX_PERMITS`), shared behind an `Arc` so that a
/// permit can outlive the borrow.
#[verifier::external_body]
fn new_pool(permits: usize) -> (r: Arc<Semaphore>)
    requires
        permits <= MAX_POOL,
    ensures
        pool_size(r) == permits as nat,
{
    Arc::new(Semaphore::new(permits))
}

/// Relies on tokio's Semaphore::try_acquire_owned: one permit if one is free
/// now, without waiting; none when all are out or the semaphore is closed.
#[verifier::external_body]
fn try_take(pool: &Arc<Semaphore>) -> (r: Option<OwnedSemaphorePermit>) {
    Arc::clone(pool).try_acquire_owned().ok()
}

/// Relies on tokio's Semaphore::available_permits: how many permits are free
/// at the moment of the call, which other tasks may change at once.
/// Only `try_take` and a permit's drop touch a pool of this library, so the
/// count never exceeds the number the pool was made with.
#[verifier::external_body]
fn free_permits(pool: &Arc<Semaphore>) -> (r: usize)
    ensures
        r <= pool_size(*pool),
{
    pool.available_permits()
}

/// Relies on tokio's OwnedSemaphorePermit drop: the permit goes back to its
/// semaphore.
#[verifier::external_body]
fn give_back(permit: OwnedSemaphorePermit) {
    drop(permit)
}

/// One admitted generation job. It holds its permit until it settles.
pub struct Job {
    permit: Option<OwnedSemaphorePermit>,
    settled: bool,
}

impl Job {
    /// Whether the job still holds its admission permit.
    pub closed spec fn holds_permit(&self) -> bool {
        self.permit is Some
    }

    /// Whether the generation call has come back.
    pub closed spec fn is_settled(&self) -> bool {
        self.settled
    }

    /// A job holds its permit exactly while it is outstanding.
    pub open spec fn wf(&self) -> bool {
        self.holds_permit() == !self.is_settled()
    }

    /// Whether a liveness signal is due on this heartbeat tick: only while
    /// the job is outstanding.
    pub fn heartbeat_due(&self) -> (r: bool)
        ensures
            r == !self.is_settled(),
    {
        !self.settled
    }

    /// Settles the job with what the engine produced: the permit goes back,
    /// and the text is handed out for publishing unless it is empty.
    pub fn settle(&mut self, text: String) -> (r: Option<String>)
        requires
            old(self).wf(),
            !old(self).is_settled(),
        ensures
            final(self).wf(),
            final(self).is_settled(),
            !final(self).holds_permit(),
            r is Some <==> text@.len() > 0,
            r is Some ==> r->0@ == text@,
    {
        let held = self.permit.take();
        match held {
            Some(p) => give_back(p),
            None => {},
        }
        self.settled = true;
        if text.as_str().is_empty() {
            None
        } else {
            Some(text)
        }
    }
}

/// The admission controller: a fixed number of permits, taken without
/// waiting.
pub struct Limiter {
    pool: Arc<Semaphore>,
}

impl Limiter {
    /// The number of permits the controller was made with.
    pub closed spec fn capacity(&self) -> nat {
        pool_size(self.pool)
    }

    /// A controller with `CAPACITY` permits.
    pub fn new() -> (r: Limiter)
        ensures
            r.capacity() == CAPACITY,
    {
        Limiter { pool: new_pool(CAPACITY) }
    }

    /// How many permits are free at the moment of the call; other tasks may
    /// change it at once, but it never exceeds the capacity.
    pub fn available(&self) -> (r: usize)
        ensures
            r <= self.capacity(),
    {
        free_permits(&self.pool)
    }

    /// Admits a job if a permit is free now; otherwise the request is shed.
    pub fn try_admit(&self) -> (r: Option<Job>)
        ensures
            r is Some ==> r->0.wf() && !r->0.is_settled() && r->0.holds_permit(),
    {
        match try_take(&self.pool) {
            Some(p) => Some(Job { permit: Some(p), settled: false }),
            None => None,
        }
    }
}

/// A settled job holds no permit,
/// so nothing can release it again.
pub proof fn settled_is_final(job: Job)
    requires
        job.wf(),
        job.is_settled(),
    ensures
        !job.holds_permit(),
{
}

} // verus!
