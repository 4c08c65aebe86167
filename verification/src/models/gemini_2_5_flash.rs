//! Gemini 2.5 Flash, fast and capable.
use vstd::prelude::*;

verus! {

/// Stable release, best price-performance.
pub const STABLE: &'static str = "gemini-2.5-flash";

/// Preview release.
pub const PREVIEW: &'static str = "gemini-2.5-flash-preview-09-2025";

/// Image generation.
pub const IMAGE: &'static str = "gemini-2.5-flash-image";

/// Audio and video streaming.
pub const LIVE: &'static str = "gemini-2.5-flash-live";

/// Native audio preview.
pub const NATIVE_AUDIO: &'static str = "gemini-2.5-flash-preview-native-audio";

/// Text-to-speech.
pub const TTS: &'static str = "gemini-2.5-flash-preview-tts";

}
