//! Thinking budget range of Gemini 2.5 Flash (0 disables thinking).
use vstd::prelude::*;

verus! {

/// Smallest budget.
pub const MIN: i32 = 0;

/// Largest budget.
pub const MAX: i32 = 24576;

}
