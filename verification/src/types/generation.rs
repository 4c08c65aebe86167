//! Configuration of content generation.
use vstd::prelude::*;
use crate::json::JsonValue;
use crate::text::{opt_view, owned, owned_all, str_views, string_views};
use super::config::{ImageConfig, SpeechConfig, ThinkingConfig, ThinkingLevel};
use super::content::MediaResolution;

verus! {

/// Configuration for content generation.
///
/// Sampling parameters that the API takes as fractional numbers (`temperature`,
/// `top_p`) are held as the text of a JSON number, such as `"0.7"`.
#[derive(Debug, Clone)]
pub struct GenerationConfig {
    /// Output modalities, such as `["TEXT", "IMAGE"]` for image generation.
    pub response_modalities: Option<Vec<String>>,
    /// Sampling temperature (0.0 to 2.0), as the text of a JSON number.
    pub temperature: Option<String>,
    /// Top-p sampling parameter, as the text of a JSON number.
    pub top_p: Option<String>,
    /// Top-k sampling parameter.
    pub top_k: Option<i32>,
    /// Largest number of tokens to generate.
    pub max_output_tokens: Option<i32>,
    /// Stop sequences.
    pub stop_sequences: Option<Vec<String>>,
    /// Number of candidates to generate.
    pub candidate_count: Option<i32>,
    /// MIME type of the response, such as `application/json`.
    pub response_mime_type: Option<String>,
    /// JSON schema of the response, for structured output.
    pub response_schema: Option<JsonValue>,
    /// Thinking configuration (Gemini 2.5 and 3).
    pub thinking_config: Option<ThinkingConfig>,
    /// Default media resolution of the request's media.
    pub media_resolution: Option<MediaResolution>,
    /// Image generation configuration.
    pub image_config: Option<ImageConfig>,
    /// Speech configuration, for audio output.
    pub speech_config: Option<SpeechConfig>,
}

impl GenerationConfig {
    /// The configuration with nothing set.
    pub open spec fn empty() -> GenerationConfig {
        GenerationConfig {
            response_modalities: None,
            temperature: None,
            top_p: None,
            top_k: None,
            max_output_tokens: None,
            stop_sequences: None,
            candidate_count: None,
            response_mime_type: None,
            response_schema: None,
            thinking_config: None,
            media_resolution: None,
            image_config: None,
            speech_config: None,
        }
    }

    /// The thinking configuration, or an empty one when there is none yet.
    pub open spec fn thinking_or_default(self) -> ThinkingConfig {
        match self.thinking_config {
            Some(t) => t,
            None => ThinkingConfig::empty(),
        }
    }

    /// `self` with the thinking configuration `t`.
    pub open spec fn with_thinking(self, t: ThinkingConfig) -> GenerationConfig {
        GenerationConfig { thinking_config: Some(t), ..self }
    }

    /// `self` with the thinking budget set to `tokens`, the rest of the thinking
    /// configuration kept.
    pub open spec fn with_budget(self, tokens: i32) -> GenerationConfig {
        self.with_thinking(ThinkingConfig { thinking_budget: Some(tokens), ..self.thinking_or_default() })
    }

    /// `r` is `self` with the output modalities `m` and nothing else changed.
    pub open spec fn sets_modalities(self, r: GenerationConfig, m: Seq<Seq<char>>) -> bool {
        &&& r == (GenerationConfig { response_modalities: r.response_modalities, ..self })
        &&& r.response_modalities is Some
        &&& string_views(r.response_modalities.unwrap()@) == m
    }

    /// `r` is `self` with the output modalities `m` and single-speaker speech in the
    /// voice `voice`, and nothing else changed.
    pub open spec fn sets_audio(self, r: GenerationConfig, m: Seq<Seq<char>>, voice: Seq<char>) -> bool {
        &&& r == (GenerationConfig {
            response_modalities: r.response_modalities,
            speech_config: r.speech_config,
            ..self
        })
        &&& r.response_modalities is Some
        &&& string_views(r.response_modalities.unwrap()@) == m
        &&& r.speech_config is Some
        &&& SpeechConfig::is_single_speaker(r.speech_config.unwrap(), voice)
    }

    /// A configuration with nothing set.
    pub fn new() -> (r: Self)
        ensures
            r == GenerationConfig::empty(),
    {
        GenerationConfig {
            response_modalities: None,
            temperature: None,
            top_p: None,
            top_k: None,
            max_output_tokens: None,
            stop_sequences: None,
            candidate_count: None,
            response_mime_type: None,
            response_schema: None,
            thinking_config: None,
            media_resolution: None,
            image_config: None,
            speech_config: None,
        }
    }

    /// Sets the temperature, given as the text of a JSON number.
    pub fn temperature(self, temp: &str) -> (r: Self)
        ensures
            r == (GenerationConfig { temperature: r.temperature, ..self }),
            opt_view(r.temperature) == Some(temp@),
    {
        GenerationConfig { temperature: Some(owned(temp)), ..self }
    }

    /// Sets the largest number of tokens to generate.
    pub fn max_output_tokens(self, max: i32) -> (r: Self)
        ensures
            r == (GenerationConfig { max_output_tokens: Some(max), ..self }),
    {
        GenerationConfig { max_output_tokens: Some(max), ..self }
    }

    /// Sets top-p, given as the text of a JSON number.
    pub fn top_p(self, p: &str) -> (r: Self)
        ensures
            r == (GenerationConfig { top_p: r.top_p, ..self }),
            opt_view(r.top_p) == Some(p@),
    {
        GenerationConfig { top_p: Some(owned(p)), ..self }
    }

    /// Sets top-k.
    pub fn top_k(self, k: i32) -> (r: Self)
        ensures
            r == (GenerationConfig { top_k: Some(k), ..self }),
    {
        GenerationConfig { top_k: Some(k), ..self }
    }

    /// Sets the stop sequences.
    pub fn stop_sequences(self, sequences: Vec<String>) -> (r: Self)
        ensures
            r == (GenerationConfig { stop_sequences: Some(sequences), ..self }),
    {
        GenerationConfig { stop_sequences: Some(sequences), ..self }
    }

    /// Sets the MIME type of the response.
    pub fn response_mime_type(self, mime_type: &str) -> (r: Self)
        ensures
            r == (GenerationConfig { response_mime_type: r.response_mime_type, ..self }),
            opt_view(r.response_mime_type) == Some(mime_type@),
    {
        GenerationConfig { response_mime_type: Some(owned(mime_type)), ..self }
    }

    /// Sets the JSON schema of the response.
    pub fn response_schema(self, schema: JsonValue) -> (r: Self)
        ensures
            r == (GenerationConfig { response_schema: Some(schema), ..self }),
    {
        GenerationConfig { response_schema: Some(schema), ..self }
    }

    /// Sets the thinking configuration.
    pub fn thinking_config(self, config: ThinkingConfig) -> (r: Self)
        ensures
            r == self.with_thinking(config),
    {
        GenerationConfig { thinking_config: Some(config), ..self }
    }

    /// Sets the thinking level (Gemini 3), keeping the rest of the thinking configuration.
    pub fn thinking_level(self, level: ThinkingLevel) -> (r: Self)
        ensures
            r == self.with_thinking(ThinkingConfig { thinking_level: Some(level), ..self.thinking_or_default() }),
    {
        let t = match self.thinking_config {
            Some(t) => t,
            None => ThinkingConfig::new(),
        };
        GenerationConfig { thinking_config: Some(ThinkingConfig { thinking_level: Some(level), ..t }), ..self }
    }

    /// Sets the thinking budget in tokens, keeping the rest of the thinking
    /// configuration; 0 turns thinking off (Gemini 2.5 Flash).
    pub fn thinking_budget(self, tokens: i32) -> (r: Self)
        ensures
            r == self.with_budget(tokens),
    {
        let t = match self.thinking_config {
            Some(t) => t,
            None => ThinkingConfig::new(),
        };
        GenerationConfig { thinking_config: Some(ThinkingConfig { thinking_budget: Some(tokens), ..t }), ..self }
    }

    /// Turns thinking off: the thinking budget 0, as `thinking_budget(0)` sets it.
    pub fn disable_thinking(self) -> (r: Self)
        ensures
            r == self.with_budget(0),
    {
        self.thinking_budget(0)
    }

    /// Dynamic thinking: the thinking budget -1, with which the model decides.
    pub fn dynamic_thinking(self) -> (r: Self)
        ensures
            r == self.with_budget(-1i32),
    {
        let t = match self.thinking_config {
            Some(t) => t,
            None => ThinkingConfig::new(),
        };
        GenerationConfig { thinking_config: Some(ThinkingConfig { thinking_budget: Some(-1), ..t }), ..self }
    }

    /// Asks for thought summaries, keeping the rest of the thinking configuration.
    pub fn include_thoughts(self) -> (r: Self)
        ensures
            r == self.with_thinking(ThinkingConfig { include_thoughts: Some(true), ..self.thinking_or_default() }),
    {
        let t = match self.thinking_config {
            Some(t) => t,
            None => ThinkingConfig::new(),
        };
        GenerationConfig { thinking_config: Some(ThinkingConfig { include_thoughts: Some(true), ..t }), ..self }
    }

    /// Sets the default media resolution.
    pub fn media_resolution(self, resolution: MediaResolution) -> (r: Self)
        ensures
            r == (GenerationConfig { media_resolution: Some(resolution), ..self }),
    {
        GenerationConfig { media_resolution: Some(resolution), ..self }
    }

    /// Sets the image generation configuration.
    pub fn image_config(self, config: ImageConfig) -> (r: Self)
        ensures
            r == (GenerationConfig { image_config: Some(config), ..self }),
    {
        GenerationConfig { image_config: Some(config), ..self }
    }

    /// JSON output: the response MIME type `application/json`.
    pub fn json_output(self) -> (r: Self)
        ensures
            r == (GenerationConfig { response_mime_type: r.response_mime_type, ..self }),
            opt_view(r.response_mime_type) == Some("application/json"@),
    {
        GenerationConfig { response_mime_type: Some(owned("application/json")), ..self }
    }

    /// Structured JSON output: the response MIME type `application/json` and the schema.
    pub fn structured_output(self, schema: JsonValue) -> (r: Self)
        ensures
            r == (GenerationConfig { response_mime_type: r.response_mime_type, response_schema: Some(schema), ..self }),
            opt_view(r.response_mime_type) == Some("application/json"@),
    {
        GenerationConfig { response_mime_type: Some(owned("application/json")), response_schema: Some(schema), ..self }
    }

    /// Sets the output modalities, such as `["TEXT", "IMAGE"]`.
    pub fn response_modalities(self, modalities: Vec<&str>) -> (r: Self)
        ensures
            self.sets_modalities(r, str_views(modalities@)),
    {
        GenerationConfig { response_modalities: Some(owned_all(modalities.as_slice())), ..self }
    }

    /// Text and image output, which the image generation models need.
    pub fn with_image_output(self) -> (r: Self)
        ensures
            self.sets_modalities(r, seq!["TEXT"@, "IMAGE"@]),
    {
        let m = vec![owned("TEXT"), owned("IMAGE")];
        assert(string_views(m@) =~= seq!["TEXT"@, "IMAGE"@]);
        GenerationConfig { response_modalities: Some(m), ..self }
    }

    /// Text output only (the default).
    pub fn text_only(self) -> (r: Self)
        ensures
            self.sets_modalities(r, seq!["TEXT"@]),
    {
        let m = vec![owned("TEXT")];
        assert(string_views(m@) =~= seq!["TEXT"@]);
        GenerationConfig { response_modalities: Some(m), ..self }
    }

    /// Sets the speech configuration.
    pub fn speech_config(self, config: SpeechConfig) -> (r: Self)
        ensures
            r == (GenerationConfig { speech_config: Some(config), ..self }),
    {
        GenerationConfig { speech_config: Some(config), ..self }
    }

    /// Audio output in the prebuilt voice `voice_name`.
    pub fn with_audio_output(self, voice_name: &str) -> (r: Self)
        ensures
            self.sets_audio(r, seq!["AUDIO"@], voice_name@),
    {
        let m = vec![owned("AUDIO")];
        assert(string_views(m@) =~= seq!["AUDIO"@]);
        GenerationConfig {
            response_modalities: Some(m),
            speech_config: Some(SpeechConfig::single_speaker(voice_name)),
            ..self
        }
    }

    /// Text and audio output, the audio in the prebuilt voice `voice_name`.
    pub fn with_text_and_audio(self, voice_name: &str) -> (r: Self)
        ensures
            self.sets_audio(r, seq!["TEXT"@, "AUDIO"@], voice_name@),
    {
        let m = vec![owned("TEXT"), owned("AUDIO")];
        assert(string_views(m@) =~= seq!["TEXT"@, "AUDIO"@]);
        GenerationConfig {
            response_modalities: Some(m),
            speech_config: Some(SpeechConfig::single_speaker(voice_name)),
            ..self
        }
    }
}

impl Default for GenerationConfig {
    fn default() -> (r: Self)
        ensures
            r == GenerationConfig::empty(),
    {
        GenerationConfig::new()
    }
}

/// Thinking settings touch nothing but the thinking configuration, and each keeps
/// what the others set: a level set and then a budget are both there afterwards.
pub proof fn lemma_thinking_settings_compose(c: GenerationConfig, level: ThinkingLevel, tokens: i32)
    ensures
        ({
            let after = c.with_thinking(ThinkingConfig { thinking_level: Some(level), ..c.thinking_or_default() }).with_budget(tokens);
            &&& after.thinking_config is Some
            &&& after.thinking_config.unwrap().thinking_level == Some(level)
            &&& after.thinking_config.unwrap().thinking_budget == Some(tokens)
            &&& after.thinking_config.unwrap().include_thoughts == c.thinking_or_default().include_thoughts
            &&& after == (GenerationConfig { thinking_config: after.thinking_config, ..c })
        }),
{
}

} // verus!
