//! Built-in CAS preset attempt limits.
use vstd::prelude::*;

verus! {

/// Default maximum attempts of a CAS executor, including the first attempt.
pub const DEFAULT_CAS_MAX_ATTEMPTS: u32 = 5;

/// Maximum attempts for the contention-adaptive strategy.
pub const CONTENTION_ADAPTIVE_MAX_ATTEMPTS: u32 = 64;

/// Maximum attempts for the latency-first strategy.
pub const LATENCY_FIRST_MAX_ATTEMPTS: u32 = 100;

/// Maximum attempts for the reliability-first strategy.
pub const RELIABILITY_FIRST_MAX_ATTEMPTS: u32 = 128;

} // verus!
