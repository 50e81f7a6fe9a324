use vstd::prelude::*;

verus! {

/// Thousandths of a decibel in one decibel.
pub const MDB_PER_DB: i64 = 1000;

/// How far above the 1 dB compression point a stage's output may rise: 1 dB.
pub const COMPRESSION_HEADROOM_MDB: i64 = 1000;

/// Largest magnitude of a parameter a block or an input carries (10^9 dB).
pub const LEVEL_LIMIT: i64 = 1_000_000_000_000;

/// Largest magnitude of a signal level handed to a single-stage query.
pub const SIGNAL_LIMIT: i64 = 1_000_000_000_000_000_000;

/// Longest chain whose running levels are guaranteed to fit in an `i64`.
pub const MAX_STAGES: usize = 100_000;

/// A parameter value in the supported range.
pub open spec fn is_level(x: int) -> bool {
    -LEVEL_LIMIT <= x <= LEVEL_LIMIT
}

/// An optional parameter value in the supported range.
pub open spec fn is_opt_level(x: Option<i64>) -> bool {
    match x {
        Some(v) => is_level(v as int),
        None => true,
    }
}

/// A drive level within twice the parameter range: what a sweep may reach.
pub open spec fn is_drive(x: int) -> bool {
    -2 * LEVEL_LIMIT <= x <= 2 * LEVEL_LIMIT
}

/// A signal level in the range that single-stage queries accept.
pub open spec fn is_signal(x: int) -> bool {
    -SIGNAL_LIMIT <= x <= SIGNAL_LIMIT
}

} // verus!
