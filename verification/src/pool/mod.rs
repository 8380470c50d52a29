//! A pool of connections.
pub mod config;
pub mod worker;

pub use config::PoolConfig;

use vstd::prelude::*;

verus! {

/// A wait for a pool ran past its deadline.
#[derive(Debug, Clone, Copy, PartialEq, Eq, Structural)]
pub struct PoolTimedOut;

/// The time left until `deadline`, as seen at `now` (both on one clock, in
/// any unit): an error once the deadline has passed.
pub fn deadline_as_timeout(deadline: u64, now: u64) -> (r: Result<u64, PoolTimedOut>)
    ensures
        r == (if now <= deadline {
            Ok::<u64, PoolTimedOut>((deadline - now) as u64)
        } else {
            Err::<u64, PoolTimedOut>(PoolTimedOut)
        }),
{
    if now <= deadline {
        Ok(deadline - now)
    } else {
        Err(PoolTimedOut)
    }
}

} // verus!
