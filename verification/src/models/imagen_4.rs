//! Imagen 4 image generation.
use vstd::prelude::*;

verus! {

/// Best quality.
pub const STANDARD: &'static str = "imagen-4.0-generate-001";

/// Highest quality.
pub const ULTRA: &'static str = "imagen-4.0-ultra-generate-001";

/// Optimized for speed.
pub const FAST: &'static str = "imagen-4.0-fast-generate-001";

}
