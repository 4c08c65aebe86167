//! Thinking budget values, for `ThinkingConfig::budget`.
pub mod pro_2_5;
pub mod flash_2_5;
pub mod flash_lite_2_5;

use vstd::prelude::*;

verus! {

/// Dynamic thinking: the model decides how much to think.
pub const DYNAMIC: i32 = -1;

/// Thinking disabled (Gemini 2.5 Flash and Flash-Lite only).
pub const OFF: i32 = 0;

}
