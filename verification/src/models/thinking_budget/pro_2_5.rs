//! Thinking budget range of Gemini 2.5 Pro.
use vstd::prelude::*;

verus! {

/// Smallest budget.
pub const MIN: i32 = 128;

/// Largest budget.
pub const MAX: i32 = 32768;

}
