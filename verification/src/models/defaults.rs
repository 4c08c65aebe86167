//! Default models for different uses.
use vstd::prelude::*;
use super::{embeddings, gemini_2_5_flash, gemini_2_5_flash_lite, gemini_2_5_pro, gemini_3, imagen_4, veo_3_1};

verus! {

/// General use (best price-performance).
pub const GENERAL: &'static str = gemini_2_5_flash::STABLE;

/// Advanced reasoning.
pub const REASONING: &'static str = gemini_2_5_pro::STABLE;

/// Fastest responses.
pub const FAST: &'static str = gemini_2_5_flash_lite::STABLE;

/// Highest capability.
pub const BEST: &'static str = gemini_3::PRO_PREVIEW;

/// Embeddings.
pub const EMBEDDING: &'static str = embeddings::GEMINI_EMBEDDING_001;

/// Native image generation.
pub const IMAGE_GEN: &'static str = gemini_2_5_flash::IMAGE;

/// Imagen image generation.
pub const IMAGEN: &'static str = imagen_4::STANDARD;

/// Video generation.
pub const VIDEO_GEN: &'static str = veo_3_1::PREVIEW;

}
