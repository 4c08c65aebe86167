//! Gemini 2.5 Pro, the advanced thinking model.
use vstd::prelude::*;

verus! {

/// Stable release, state-of-the-art reasoning.
pub const STABLE: &'static str = "gemini-2.5-pro";

/// Text-to-speech.
pub const TTS: &'static str = "gemini-2.5-pro-preview-tts";

}
