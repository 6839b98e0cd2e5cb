//! Per-call limits and the structured result of one plugin invocation.

use vstd::prelude::*;

verus! {

/// Fuel units granted per millisecond of the wall-clock budget.
pub const FUEL_PER_MS: u64 = 1_000_000;

/// Default wall-clock budget of one call, in milliseconds.
pub const DEFAULT_TIMEOUT_MS: u64 = 5000;

/// Default ceiling on guest linear memory, in MiB.
pub const DEFAULT_MEMORY_LIMIT_MB: u64 = 64;

/// Limits that the caller supplies with each call.
#[derive(Debug, Clone, Copy, PartialEq, Eq, Structural)]
pub struct ExecutionConfig {
    /// Wall-clock budget in milliseconds.
    pub timeout_ms: u64,
    /// Hard ceiling on guest linear memory, in MiB.
    pub memory_limit_mb: u64,
}

impl ExecutionConfig {
    /// The fuel budget that the wall-clock budget stands for.
    pub open spec fn fuel_budget(self) -> int {
        self.timeout_ms * FUEL_PER_MS
    }

    /// Whether the fuel budget can be handed to the engine as a `u64`.
    pub open spec fn fuel_fits(self) -> bool {
        self.fuel_budget() <= u64::MAX
    }

    /// The fuel budget, where it fits the engine's counter.
    pub fn fuel_limit(&self) -> (fuel: Option<u64>)
        ensures
            self.fuel_fits() ==> fuel == Some(self.fuel_budget() as u64),
            !self.fuel_fits() ==> fuel is None,
    {
        self.timeout_ms.checked_mul(FUEL_PER_MS)
    }
}

impl Default for ExecutionConfig {
    fn default() -> (config: Self)
        ensures
            config.timeout_ms == DEFAULT_TIMEOUT_MS,
            config.memory_limit_mb == DEFAULT_MEMORY_LIMIT_MB,
    {
        ExecutionConfig { timeout_ms: DEFAULT_TIMEOUT_MS, memory_limit_mb: DEFAULT_MEMORY_LIMIT_MB }
    }
}

} // verus!

verus! {

/// The structured result of one finished call.
#[derive(Debug, Clone)]
pub struct ExecutionResult {
    /// The binary that ran.
    pub binary_id: u128,
    /// The status that `process` returned; 0 is success.
    pub return_code: i32,
    /// The log messages of the call, joined by line feeds.
    pub output: String,
    /// Wall-clock time of the whole call, setup included, in milliseconds.
    pub execution_time_ms: u64,
    /// The fuel budget less the fuel left at completion.
    pub fuel_consumed: u64,
}

} // verus!
