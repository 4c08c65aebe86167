//! Veo 3.1 video generation (8 s, 720p or 1080p, with audio).
use vstd::prelude::*;

verus! {

/// Best quality.
pub const PREVIEW: &'static str = "veo-3.1-generate-preview";

/// Optimized for speed.
pub const FAST: &'static str = "veo-3.1-fast-generate-preview";

}
