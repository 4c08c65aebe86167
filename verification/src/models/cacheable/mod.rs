//! Versioned model names for explicit caching, which requires the `-001` suffix.
pub mod min_tokens;

use vstd::prelude::*;

verus! {

/// Gemini 2.0 Flash.
pub const GEMINI_2_0_FLASH: &'static str = "gemini-2.0-flash-001";

/// Gemini 2.0 Flash-Lite.
pub const GEMINI_2_0_FLASH_LITE: &'static str = "gemini-2.0-flash-lite-001";

/// Gemini 2.0 Flash Live.
pub const GEMINI_2_0_FLASH_LIVE: &'static str = "gemini-2.0-flash-live-001";

}
