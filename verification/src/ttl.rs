//! How long the contract instance has to stay alive.
//!
//! The network archives a contract instance whose time to live, counted in
//! ledgers, has run out. The contract therefore extends it to reach past the
//! unlock time.

use soroban_sdk::Env;
use vstd::prelude::*;
use crate::host::{host_state, ledger_timestamp};

verus! {

/// Approximate time between two ledgers, in seconds.
pub const LEDGER_CLOSE_SECS: u64 = 5;

/// Safety margin after the unlock time, in ledgers: 30 days.
pub const BUFFER_LEDGERS: u32 = 518_400;

/// The extension takes place only where no more ledgers than these are left: 7
/// days.
pub const MIN_TTL_THRESHOLD: u32 = 120_960;

/// Time to live once the funds are claimed, in ledgers: 7 days.
pub const POST_CLAIM_TTL_LEDGERS: u32 = 120_960;

/// The ledgers that close in `secs` seconds, the last one begun counted whole.
pub open spec fn ledgers_in(secs: int) -> int {
    (secs + LEDGER_CLOSE_SECS - 1) / LEDGER_CLOSE_SECS as int
}

/// The ledgers for which an instance with this unlock time has to stay alive,
/// seen from `now`: those up to the unlock time and the safety margin, or as
/// many as 32 bits can count.
pub open spec fn required_ledgers(now: u64, unlock_time: u64) -> u32 {
    let until_unlock: int = if unlock_time <= now {
        0
    } else {
        ledgers_in(unlock_time - now)
    };
    if until_unlock + BUFFER_LEDGERS <= u32::MAX {
        (until_unlock + BUFFER_LEDGERS) as u32
    } else {
        u32::MAX
    }
}

/// The time to live that an instance with this unlock time needs at `now`.
pub fn required_ttl_ledgers_at(now: u64, unlock_time: u64) -> (ledgers: u32)
    ensures
        ledgers == required_ledgers(now, unlock_time),
        ledgers >= BUFFER_LEDGERS,
{
    if unlock_time <= now {
        return BUFFER_LEDGERS;
    }
    let secs_until_unlock: u64 = unlock_time - now;
    // Rounded up.
    let ledgers_until_unlock: u64 = (secs_until_unlock - 1) / LEDGER_CLOSE_SECS + 1;
    let most: u64 = (u32::MAX - BUFFER_LEDGERS) as u64;
    if ledgers_until_unlock <= most {
        ledgers_until_unlock as u32 + BUFFER_LEDGERS
    } else {
        u32::MAX
    }
}

/// The time to live that an instance with this unlock time needs at the close
/// time of the current ledger.
pub fn required_ttl_ledgers(env: &Env, unlock_time: u64) -> (ledgers: u32)
    ensures
        ledgers == required_ledgers(host_state(*env).timestamp, unlock_time),
        ledgers >= BUFFER_LEDGERS,
{
    let now: u64 = ledger_timestamp(env);
    required_ttl_ledgers_at(now, unlock_time)
}

} // verus!
