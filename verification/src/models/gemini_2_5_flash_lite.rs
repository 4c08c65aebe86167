//! Gemini 2.5 Flash-Lite, fast and cost-efficient.
use vstd::prelude::*;

verus! {

/// Stable release.
pub const STABLE: &'static str = "gemini-2.5-flash-lite";

/// Preview release.
pub const PREVIEW: &'static str = "gemini-2.5-flash-lite-preview-09-2025";

}
