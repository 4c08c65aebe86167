//! Gemini 3 Pro, the most capable model for multimodal understanding.
use vstd::prelude::*;

verus! {

/// Gemini 3 Pro Preview, for multimodal understanding and agentic tasks.
pub const PRO_PREVIEW: &'static str = "gemini-3-pro-preview";

/// Gemini 3 Pro Image Preview, with image generation.
pub const PRO_IMAGE_PREVIEW: &'static str = "gemini-3-pro-image-preview";

}
