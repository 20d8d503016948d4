use vstd::prelude::*;

verus! {

/// Minimum spacing between two unauthenticated remote requests, in
/// milliseconds. The listing service rejects callers that request more often.
pub const MIN_INTERVAL_MS: u64 = 1100;

/// How many records one unauthenticated remote call yields.
pub const FREE_REQUEST_SIZE: u8 = 5;

/// How many records one authenticated remote call yields.
pub const PREMIUM_REQUEST_SIZE: u8 = 20;

} // verus!
