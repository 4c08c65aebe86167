//! Gemini 2.0 Flash-Lite, the second-generation fast model.
use vstd::prelude::*;

verus! {

/// Latest release.
pub const LATEST: &'static str = "gemini-2.0-flash-lite";

/// Stable release.
pub const STABLE: &'static str = "gemini-2.0-flash-lite-001";

}
