//! Gemini 2.0 Flash, the second-generation workhorse.
use vstd::prelude::*;

verus! {

/// Latest release.
pub const LATEST: &'static str = "gemini-2.0-flash";

/// Stable release.
pub const STABLE: &'static str = "gemini-2.0-flash-001";

/// Experimental release.
pub const EXPERIMENTAL: &'static str = "gemini-2.0-flash-exp";

/// Image generation.
pub const IMAGE: &'static str = "gemini-2.0-flash-preview-image-generation";

/// Live API (deprecated December 9, 2025).
pub const LIVE: &'static str = "gemini-2.0-flash-live-001";

}
