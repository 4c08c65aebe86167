//! The request and response types of the Gemini API.
pub mod audio_prompts;
pub mod config;
pub mod content;
pub mod generation;
pub mod json_schema;
pub mod response;
pub mod thought_signatures;
pub mod tts_voices;
pub mod vision;
pub mod vision_prompts;
