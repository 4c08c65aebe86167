//! Gemini model names, capabilities and limits.
pub mod gemini_3;
pub mod gemini_2_5_flash;
pub mod gemini_2_5_flash_lite;
pub mod gemini_2_5_pro;
pub mod gemini_2_0_flash;
pub mod gemini_2_0_flash_lite;
pub mod embeddings;
pub mod veo_3_1;
pub mod veo_3;
pub mod veo_2;
pub mod imagen_4;
pub mod imagen_3;
pub mod gemini_robotics;
pub mod gemini_computer_use;
pub mod gemma;
pub mod defaults;
pub mod rate_limits;
pub mod thinking_budget;
pub mod cacheable;

use vstd::prelude::*;

verus! {

/// The features that a model supports.
#[derive(Debug, Clone)]
pub struct ModelCapabilities {
    pub audio_generation: bool,
    pub batch_api: bool,
    pub caching: bool,
    pub code_execution: bool,
    pub file_search: bool,
    pub function_calling: bool,
    pub google_maps_grounding: bool,
    pub image_generation: bool,
    pub live_api: bool,
    pub search_grounding: bool,
    pub structured_outputs: bool,
    pub thinking: bool,
    pub url_context: bool,
}

impl ModelCapabilities {
    /// The features of the Gemini 2.5 text models: everything but audio and image
    /// generation and the Live API.
    pub open spec fn gemini_2_5_features(c: ModelCapabilities) -> bool {
        &&& !c.audio_generation
        &&& c.batch_api
        &&& c.caching
        &&& c.code_execution
        &&& c.file_search
        &&& c.function_calling
        &&& c.google_maps_grounding
        &&& !c.image_generation
        &&& !c.live_api
        &&& c.search_grounding
        &&& c.structured_outputs
        &&& c.thinking
        &&& c.url_context
    }

    /// Capabilities of Gemini 2.5 Flash.
    pub fn gemini_2_5_flash() -> (c: Self)
        ensures
            Self::gemini_2_5_features(c),
    {
        Self {
            audio_generation: false,
            batch_api: true,
            caching: true,
            code_execution: true,
            file_search: true,
            function_calling: true,
            google_maps_grounding: true,
            image_generation: false,
            live_api: false,
            search_grounding: true,
            structured_outputs: true,
            thinking: true,
            url_context: true,
        }
    }

    /// Capabilities of Gemini 2.5 Pro.
    pub fn gemini_2_5_pro() -> (c: Self)
        ensures
            Self::gemini_2_5_features(c),
    {
        Self {
            audio_generation: false,
            batch_api: true,
            caching: true,
            code_execution: true,
            file_search: true,
            function_calling: true,
            google_maps_grounding: true,
            image_generation: false,
            live_api: false,
            search_grounding: true,
            structured_outputs: true,
            thinking: true,
            url_context: true,
        }
    }

    /// Capabilities of Gemini 3 Pro Preview: those of Gemini 2.5 but Google Maps grounding.
    pub fn gemini_3_pro() -> (c: Self)
        ensures
            Self::gemini_2_5_features(ModelCapabilities { google_maps_grounding: true, ..c }),
            !c.google_maps_grounding,
    {
        Self {
            audio_generation: false,
            batch_api: true,
            caching: true,
            code_execution: true,
            file_search: true,
            function_calling: true,
            google_maps_grounding: false,
            image_generation: false,
            live_api: false,
            search_grounding: true,
            structured_outputs: true,
            thinking: true,
            url_context: true,
        }
    }
}

/// Input and output token limits of a model.
#[derive(Debug, Clone, Copy)]
pub struct TokenLimits {
    pub input: u32,
    pub output: u32,
}

impl TokenLimits {
    /// Most Gemini 2.5 and 3 models.
    pub fn standard() -> (r: TokenLimits)
        ensures
            r == (TokenLimits { input: 1_048_576, output: 65_536 }),
    {
        TokenLimits { input: 1_048_576, output: 65_536 }
    }

    /// Image generation models.
    pub fn image_gen() -> (r: TokenLimits)
        ensures
            r == (TokenLimits { input: 65_536, output: 32_768 }),
    {
        TokenLimits { input: 65_536, output: 32_768 }
    }

    /// Text-to-speech models.
    pub fn tts() -> (r: TokenLimits)
        ensures
            r == (TokenLimits { input: 8_192, output: 16_384 }),
    {
        TokenLimits { input: 8_192, output: 16_384 }
    }

    /// Live and streaming models.
    pub fn live() -> (r: TokenLimits)
        ensures
            r == (TokenLimits { input: 131_072, output: 8_192 }),
    {
        TokenLimits { input: 131_072, output: 8_192 }
    }

    /// Gemini 2.0 models.
    pub fn gemini_2_0() -> (r: TokenLimits)
        ensures
            r == (TokenLimits { input: 1_048_576, output: 8_192 }),
    {
        TokenLimits { input: 1_048_576, output: 8_192 }
    }
}

}
