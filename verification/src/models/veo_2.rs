//! Veo 2 video generation (5 to 8 s, silent).
use vstd::prelude::*;

verus! {

/// Stable release.
pub const STABLE: &'static str = "veo-2.0-generate-001";

}
