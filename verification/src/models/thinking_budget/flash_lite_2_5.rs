//! Thinking budget range of Gemini 2.5 Flash-Lite.
use vstd::prelude::*;

verus! {

/// Smallest budget.
pub const MIN: i32 = 512;

/// Largest budget.
pub const MAX: i32 = 24576;

}
