//! Hooks for watching the storage of conversations.

use vstd::prelude::*;

verus! {

/// Watches storage operations: their start, their success with how long
/// they took, and each failed attempt. Users implement it to log or to
/// gather metrics.
pub trait StorageTelemetry: Send + Sync {
    /// A storage operation starts on a resource.
    fn on_operation_start(&self, operation: &str, resource_id: &str);

    /// A storage operation succeeded after `duration_ms` milliseconds.
    fn on_operation_success(&self, operation: &str, resource_id: &str, duration_ms: u64);

    /// An attempt of a storage operation failed; `attempt` counts from one.
    fn on_operation_error(&self, operation: &str, resource_id: &str, error: &str, attempt: u32);
}

/// Whether a storage operation that failed at attempt `attempt` (counting
/// from one) gives up: when the error is not transient, or when the retries
/// are spent.
pub fn gives_up(transient: bool, attempt: u32, max_retries: u32) -> (b: bool)
    ensures
        b == (!transient || attempt > max_retries),
{
    !transient || attempt > max_retries
}

} // verus!
