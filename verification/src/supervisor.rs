//! The worker supervisor's one decision, and the fixed serving
//! configuration.
//!
//! The server binds a fixed loopback endpoint, reads at most
//! [`MAX_REQUEST_BYTES`] per connection, and fans out across processing
//! units: on a machine with more than one unit, one worker per unit is
//! forked and all of them share the listening socket; otherwise the
//! listener runs directly in the single process.

use vstd::prelude::*;

verus! {

/// The fixed TCP port every worker binds on the loopback address.
pub const SERVE_PORT: u16 = 42069;

/// The listen backlog of pending connections.
pub const LISTEN_BACKLOG: i32 = 128;

/// The fixed capacity of the buffer one request is read into; whatever one
/// read yields, up to this many bytes, is taken as the complete request.
pub const MAX_REQUEST_BYTES: usize = 1024;

/// How the listener loop is to be run on a machine with a given number of
/// processing units.
#[derive(Clone, Copy, Debug, PartialEq, Eq, Structural)]
pub enum WorkerPlan {
    /// Run the listener loop directly in the current process.
    RunInProcess,
    /// Fork this many worker processes, each running the listener loop on
    /// the shared listening endpoint, and tear the whole group down as soon
    /// as any one worker exits.
    Fork(usize),
}

/// Decides the worker fan-out for `units` available processing units: one
/// forked worker per unit when there is more than one, and no forking at
/// all otherwise.
pub fn plan_workers(units: usize) -> (plan: WorkerPlan)
    ensures
        plan == (if units > 1 {
            WorkerPlan::Fork(units)
        } else {
            WorkerPlan::RunInProcess
        }),
{
    if units > 1 {
        WorkerPlan::Fork(units)
    } else {
        WorkerPlan::RunInProcess
    }
}

} // verus!
