//! Fixed protocol constants shared by the central and peripheral roles.
//!
//! The two ends of the link must agree on the service and characteristic
//! identifiers at compile time; they are not negotiated at runtime.

use vstd::prelude::*;

verus! {

/// 128-bit identifier of the service that the peripheral role registers and
/// the central role scans for.
pub const SERVICE_UUID: u128 = 0x6f2b_3e84_9c1d_4a6e_8f4b_2a71_5d38_90c4;

/// 128-bit identifier of the write-only characteristic inside the service.
pub const CHARACTERISTIC_UUID: u128 = 0x6f2b_3e84_9c1d_4a6e_8f4b_2a71_5d38_90c5;

/// Milliseconds slept between polls of the adapter power state.
pub const POWER_POLL_DELAY_MS: u64 = 5000;

/// Milliseconds slept between queries of the visible peer list.
pub const PEER_SEARCH_DELAY_MS: u64 = 2000;

/// Milliseconds slept after a failed connection attempt.
pub const CONNECT_RETRY_DELAY_MS: u64 = 5000;

/// Milliseconds slept after the target characteristic was not found.
pub const CHARACTERISTIC_RETRY_DELAY_MS: u64 = 5000;

/// Exclusive upper bound, in milliseconds, of the random delay between writes.
pub const WRITE_DELAY_BOUND_MS: u64 = 1500;

} // verus!
