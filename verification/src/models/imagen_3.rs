//! Imagen 3 image generation.
use vstd::prelude::*;

verus! {

/// Stable release.
pub const STABLE: &'static str = "imagen-3.0-generate-002";

}
