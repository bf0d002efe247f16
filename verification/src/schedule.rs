//! Deadlines, in seconds, for the verbs of the interpreter.

use vstd::prelude::*;

verus! {

/// Seconds granted to a query, to statistics and to a health check.
pub const COMMAND_TIMEOUT_SECS: u64 = 60;

/// Seconds granted to the processing of one document.
pub const PROCESS_TIMEOUT_SECS: u64 = 300;

/// Seconds granted to a batch before its first file.
pub const BATCH_BASE_SECS: u64 = 300;

/// Seconds added to a batch deadline for each file.
pub const BATCH_PER_FILE_SECS: u64 = 120;

/// Upper bound of every batch deadline, in seconds.
pub const BATCH_MAX_SECS: u64 = 3600;

/// The batch deadline as a function of the number of files:
/// base plus a fixed amount per file, capped.
pub open spec fn batch_deadline(file_count: nat) -> nat {
    let linear = BATCH_BASE_SECS as nat + BATCH_PER_FILE_SECS as nat * file_count;
    if linear <= BATCH_MAX_SECS as nat {
        linear
    } else {
        BATCH_MAX_SECS as nat
    }
}

/// Computes the deadline of a batch of `file_count` files.
pub fn batch_timeout_secs(file_count: usize) -> (secs: u64)
    ensures
        secs == batch_deadline(file_count as nat),
        BATCH_BASE_SECS <= secs <= BATCH_MAX_SECS,
{
    if file_count >= 28 {
        assert(BATCH_BASE_SECS as nat + BATCH_PER_FILE_SECS as nat * (file_count as nat) > BATCH_MAX_SECS as nat) by (nonlinear_arith)
            requires file_count >= 28;
        BATCH_MAX_SECS
    } else {
        let count: u64 = file_count as u64;
        BATCH_BASE_SECS + BATCH_PER_FILE_SECS * count
    }
}

} // verus!
