//! Veo 3 video generation (8 s, with audio).
use vstd::prelude::*;

verus! {

/// Stable release.
pub const STABLE: &'static str = "veo-3.0-generate-001";

/// Optimized for speed.
pub const FAST: &'static str = "veo-3.0-fast-generate-001";

}
