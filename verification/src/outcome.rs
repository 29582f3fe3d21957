//! The successful outcome of an injection.

use crate::probe::BackendId;
use vstd::prelude::*;

verus! {

/// The successful outcome of a text injection.
#[derive(Debug, Clone)]
pub struct InjectionOutcome {
    /// The backend that performed the injection.
    pub backend: BackendId,
    /// Total latency of the injection in milliseconds.
    pub latency_ms: u32,
    /// The injection was degraded (for example, it needed a retry).
    pub degraded: bool,
}

} // verus!
