//! Verified core of a mirror-failover file downloader.
//!
//! The library holds the logic of the download engine: integrity checking
//! (size and MD5 hash), mirror URL construction and size probing, the
//! resumable byte-range transfer, the per-file retry/failover controller,
//! and the shared progress counters read by a reporting loop. Network and
//! disk I/O stay outside; the functions here take plain values (bytes,
//! strings, sizes, events) and return decisions with proved contracts.

use vstd::prelude::*;

pub mod controller;
pub mod encoding;
pub mod integrity;
pub mod mirror;
pub mod progress;
pub mod text;
pub mod transfer;

verus! {

/// Number of transfer attempts allowed against one mirror before the
/// controller falls over to the next mirror in the list.
pub const MAX_RETRIES: u64 = 3;

} // verus!
