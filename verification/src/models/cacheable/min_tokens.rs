//! Smallest token counts that explicit caching accepts, by model family.
use vstd::prelude::*;

verus! {

/// Gemini 3 Pro Preview.
pub const GEMINI_3_PRO: u32 = 2048;

/// Gemini 2.5 Pro.
pub const GEMINI_2_5_PRO: u32 = 4096;

/// Gemini 2.5 Flash.
pub const GEMINI_2_5_FLASH: u32 = 1024;

}
