//! Gemma open models.
use vstd::prelude::*;

verus! {

/// Gemma 3, a lightweight open model.
pub const GEMMA_3: &'static str = "gemma-3";

/// Gemma 3n, efficient on everyday devices.
pub const GEMMA_3N: &'static str = "gemma-3n";

}
