use vstd::prelude::*;

use crate::error::DeskError;

verus! {

/// How many connection attempts are made before giving up.
pub const RETRY_COUNT: usize = 3;

/// Pause between connection attempts, so the device is not overwhelmed.
pub const CONNECT_DELAY_MS: u64 = 50;

/// How long a scan is left running before discovered peripherals are
/// matched: the settle window that lets advertisements accumulate.
pub const SCAN_SETTLE_SECS: u64 = 3;

/// Safety cap on how many height notifications one background monitor
/// consumes before it stops on its own.
pub const NOTIFICATION_CAP: usize = 1000;

/// Pick the desk out of the discovered peripherals by exact address
/// equality. Addresses are 6-byte hardware identifiers carried in the low
/// 48 bits. Absence after the settle window is an error, not a retry case.
pub fn find_desk(addresses: &Vec<u64>, target: u64) -> (r: Result<usize, DeskError>)
    ensures
        match r {
            Ok(i) => i < addresses@.len() && addresses@[i as int] == target,
            Err(e) => e == DeskError::DeviceNotFound && !addresses@.contains(target),
        },
{
    let mut i: usize = 0;
    while i < addresses.len()
        invariant
            i <= addresses@.len(),
            forall|j: int| 0 <= j < i ==> addresses@[j] != target,
        decreases addresses@.len() - i,
    {
        if addresses[i] == target {
            return Ok(i);
        }
        i = i + 1;
    }
    proof {
        assert(forall|j: int| 0 <= j < addresses@.len() ==> addresses@[j] != target);
    }
    Err(DeskError::DeviceNotFound)
}

/// What the connection loop does after one attempt.
#[derive(Debug, Clone, Copy, PartialEq, Eq, Structural)]
pub enum ConnectAction {
    /// The attempt succeeded: use the connection.
    Connected,
    /// The attempt failed but attempts remain: pause for
    /// [`CONNECT_DELAY_MS`] and try again.
    RetryAfterDelay,
    /// The last attempt failed: surface [`DeskError::ConnectionExhausted`].
    GiveUp,
}

/// Decide how the connection loop goes on after attempt `attempt` (counted
/// from zero) out of `retry_count`. The last attempt is recognized
/// explicitly, so a failure on it is always surfaced rather than falling
/// through.
pub fn next_connect_action(attempt: usize, retry_count: usize, succeeded: bool) -> (r:
    ConnectAction)
    requires
        attempt < retry_count,
    ensures
        succeeded ==> r == ConnectAction::Connected,
        !succeeded && attempt + 1 < retry_count ==> r == ConnectAction::RetryAfterDelay,
        !succeeded && attempt + 1 == retry_count ==> r == ConnectAction::GiveUp,
{
    if succeeded {
        ConnectAction::Connected
    } else if attempt + 1 < retry_count {
        ConnectAction::RetryAfterDelay
    } else {
        ConnectAction::GiveUp
    }
}

} // verus!
