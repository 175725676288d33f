//! The user-side dispatcher.
//!
//! Each accepted user connection asks the pool for the oldest idle
//! worker. With a worker at hand the pair goes on to the relay; with
//! an empty pool the user connection is to be shut down at once, with
//! no data and no queuing — an immediate-failure policy, not a
//! backpressure one.

use vstd::prelude::*;
use crate::pool::IdlePool;

verus! {

/// Outcome of one accept on the worker-listen endpoint.
pub enum WorkerAccept<T> {
    /// A worker dialed in; here is its transport handle.
    Accepted(T),
    /// The accept failed — transient, logged by the runtime.
    Failed,
}

/// One turn of the worker-accept loop: an accepted worker goes
/// straight into the pool's tail and nothing ever waits on what
/// happens to it afterwards; a failed accept changes nothing. Neither
/// outcome ends the loop — accept errors are never fatal.
pub fn worker_accept_step<T>(pool: &mut IdlePool<T>, outcome: WorkerAccept<T>)
    ensures
        outcome matches WorkerAccept::Accepted(h) ==> final(pool)@ == old(pool)@.push(h),
        outcome is Failed ==> final(pool)@ == old(pool)@,
{
    match outcome {
        WorkerAccept::Accepted(handle) => pool.offer(handle),
        WorkerAccept::Failed => (),
    }
}

/// What to do with a freshly accepted user connection.
pub enum Dispatch<T> {
    /// Relay between the user connection and this worker handle.
    Paired(T),
    /// No idle worker: close the user connection's write side and
    /// drop it without transferring any bytes.
    NoWorker,
}

/// Serves one user connection from the pool: hands out the oldest
/// idle worker, which leaves the pool for good, or reports that none
/// is available and leaves the pool as it was.
pub fn dispatch_user<T>(pool: &mut IdlePool<T>) -> (r: Dispatch<T>)
    ensures
        old(pool)@.len() == 0 ==> r is NoWorker && final(pool)@ == old(pool)@,
        old(pool)@.len() > 0 ==> r == Dispatch::<T>::Paired(old(pool)@[0])
            && final(pool)@ == old(pool)@.drop_first(),
{
    match pool.take() {
        Some(handle) => Dispatch::Paired(handle),
        None => Dispatch::NoWorker,
    }
}

} // verus!
