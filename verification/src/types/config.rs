//! Configuration of generation: thinking, images, speech, tools and safety.
use vstd::prelude::*;
use crate::json::JsonValue;
use crate::text::{opt_view, owned, owned_all, str_views, string_views};

verus! {

/// Thinking level, which sets how deeply the model reasons (Gemini 3).
#[derive(Debug, Clone, Copy, PartialEq, Eq, Structural)]
pub enum ThinkingLevel {
    /// Minimizes latency and cost.
    Low,
    /// Medium reasoning depth.
    Medium,
    /// Maximizes reasoning depth; the default of Gemini 3 Pro.
    High,
}

/// Thinking configuration for Gemini 2.5 and 3 models.
#[derive(Debug, Clone, Copy)]
pub struct ThinkingConfig {
    /// The thinking level (Gemini 3 only).
    pub thinking_level: Option<ThinkingLevel>,
    /// Thinking budget in tokens (Gemini 2.5); -1 lets the model decide.
    pub thinking_budget: Option<i32>,
    /// Whether responses include thought summaries.
    pub include_thoughts: Option<bool>,
}

impl ThinkingConfig {
    /// The configuration with nothing set.
    pub open spec fn empty() -> ThinkingConfig {
        ThinkingConfig { thinking_level: None, thinking_budget: None, include_thoughts: None }
    }

    /// A configuration with nothing set.
    pub fn new() -> (r: Self)
        ensures
            r == ThinkingConfig::empty(),
    {
        ThinkingConfig { thinking_level: None, thinking_budget: None, include_thoughts: None }
    }

    /// Sets the thinking level (recommended for Gemini 3).
    pub fn level(self, level: ThinkingLevel) -> (r: Self)
        ensures
            r == (ThinkingConfig { thinking_level: Some(level), ..self }),
    {
        ThinkingConfig { thinking_level: Some(level), ..self }
    }

    /// Sets the thinking budget in tokens (Gemini 2.5); -1 lets the model decide.
    pub fn budget(self, tokens: i32) -> (r: Self)
        ensures
            r == (ThinkingConfig { thinking_budget: Some(tokens), ..self }),
    {
        ThinkingConfig { thinking_budget: Some(tokens), ..self }
    }

    /// Dynamic thinking: the budget -1, with which the model decides.
    pub fn dynamic(self) -> (r: Self)
        ensures
            r == (ThinkingConfig { thinking_budget: Some(-1i32), ..self }),
    {
        ThinkingConfig { thinking_budget: Some(-1), ..self }
    }

    /// Asks for thought summaries in the response.
    pub fn include_thoughts(self) -> (r: Self)
        ensures
            r == (ThinkingConfig { include_thoughts: Some(true), ..self }),
    {
        ThinkingConfig { include_thoughts: Some(true), ..self }
    }

    /// Asks for no thought summaries in the response.
    pub fn exclude_thoughts(self) -> (r: Self)
        ensures
            r == (ThinkingConfig { include_thoughts: Some(false), ..self }),
    {
        ThinkingConfig { include_thoughts: Some(false), ..self }
    }
}

impl Default for ThinkingConfig {
    fn default() -> (r: Self)
        ensures
            r == ThinkingConfig::empty(),
    {
        ThinkingConfig::new()
    }
}

/// Image generation configuration (Gemini 3 Pro Image).
///
/// Aspect ratios: "1:1", "2:3", "3:2", "3:4", "4:3", "4:5", "5:4", "9:16", "16:9",
/// "21:9". Image sizes, in upper case: "1K", "2K", "4K".
#[derive(Debug, Clone)]
pub struct ImageConfig {
    /// Aspect ratio, such as "16:9".
    pub aspect_ratio: Option<String>,
    /// Image size: "1K" (the default), "2K" or "4K".
    pub image_size: Option<String>,
}

impl ImageConfig {
    /// `c` has the aspect ratio `ratio` and the size `size`, each when given.
    pub open spec fn has(c: ImageConfig, ratio: Option<Seq<char>>, size: Option<Seq<char>>) -> bool {
        opt_view(c.aspect_ratio) == ratio && opt_view(c.image_size) == size
    }

    /// A configuration with nothing set.
    pub fn new() -> (r: Self)
        ensures
            r == (ImageConfig { aspect_ratio: None, image_size: None }),
    {
        ImageConfig { aspect_ratio: None, image_size: None }
    }

    /// Sets the aspect ratio.
    pub fn aspect_ratio(self, ratio: &str) -> (r: Self)
        ensures
            r == (ImageConfig { aspect_ratio: r.aspect_ratio, ..self }),
            opt_view(r.aspect_ratio) == Some(ratio@),
    {
        ImageConfig { aspect_ratio: Some(owned(ratio)), ..self }
    }

    /// Sets the image size.
    pub fn image_size(self, size: &str) -> (r: Self)
        ensures
            r == (ImageConfig { image_size: r.image_size, ..self }),
            opt_view(r.image_size) == Some(size@),
    {
        ImageConfig { image_size: Some(owned(size)), ..self }
    }

    /// The 16:9 widescreen aspect ratio.
    pub fn widescreen() -> (r: Self)
        ensures
            ImageConfig::has(r, Some("16:9"@), None),
    {
        ImageConfig::new().aspect_ratio("16:9")
    }

    /// The 1:1 square aspect ratio.
    pub fn square() -> (r: Self)
        ensures
            ImageConfig::has(r, Some("1:1"@), None),
    {
        ImageConfig::new().aspect_ratio("1:1")
    }

    /// The 9:16 portrait aspect ratio.
    pub fn portrait() -> (r: Self)
        ensures
            ImageConfig::has(r, Some("9:16"@), None),
    {
        ImageConfig::new().aspect_ratio("9:16")
    }

    /// The 21:9 ultrawide aspect ratio.
    pub fn ultrawide() -> (r: Self)
        ensures
            ImageConfig::has(r, Some("21:9"@), None),
    {
        ImageConfig::new().aspect_ratio("21:9")
    }

    /// 1K resolution (the default).
    pub fn resolution_1k() -> (r: Self)
        ensures
            ImageConfig::has(r, None, Some("1K"@)),
    {
        ImageConfig::new().image_size("1K")
    }

    /// 2K resolution.
    pub fn resolution_2k() -> (r: Self)
        ensures
            ImageConfig::has(r, None, Some("2K"@)),
    {
        ImageConfig::new().image_size("2K")
    }

    /// 4K resolution (Gemini 3 Pro Image only).
    pub fn resolution_4k() -> (r: Self)
        ensures
            ImageConfig::has(r, None, Some("4K"@)),
    {
        ImageConfig::new().image_size("4K")
    }

    /// Widescreen at 2K resolution.
    pub fn widescreen_2k() -> (r: Self)
        ensures
            ImageConfig::has(r, Some("16:9"@), Some("2K"@)),
    {
        ImageConfig::new().aspect_ratio("16:9").image_size("2K")
    }

    /// Square at 2K resolution.
    pub fn square_2k() -> (r: Self)
        ensures
            ImageConfig::has(r, Some("1:1"@), Some("2K"@)),
    {
        ImageConfig::new().aspect_ratio("1:1").image_size("2K")
    }
}

impl Default for ImageConfig {
    fn default() -> (r: Self)
        ensures
            r == (ImageConfig { aspect_ratio: None, image_size: None }),
    {
        ImageConfig::new()
    }
}

/// A prebuilt voice, by name (such as "Kore").
#[derive(Debug, Clone)]
pub struct PrebuiltVoiceConfig {
    /// The voice's name.
    pub voice_name: String,
}

/// Voice configuration for text-to-speech.
#[derive(Debug, Clone)]
pub struct VoiceConfig {
    /// A prebuilt voice.
    pub prebuilt_voice_config: Option<PrebuiltVoiceConfig>,
}

/// The voice of one speaker in multi-speaker text-to-speech.
#[derive(Debug, Clone)]
pub struct SpeakerVoiceConfig {
    /// The speaker's name, as the prompt uses it.
    pub speaker: String,
    /// The speaker's voice.
    pub voice_config: VoiceConfig,
}

/// Voices of up to two speakers.
#[derive(Debug, Clone)]
pub struct MultiSpeakerVoiceConfig {
    /// One configuration per speaker.
    pub speaker_voice_configs: Vec<SpeakerVoiceConfig>,
}

/// Speech configuration for text-to-speech models.
#[derive(Debug, Clone)]
pub struct SpeechConfig {
    /// The voice for single-speaker speech.
    pub voice_config: Option<VoiceConfig>,
    /// The voices for multi-speaker speech.
    pub multi_speaker_voice_config: Option<MultiSpeakerVoiceConfig>,
}

impl VoiceConfig {
    /// The name of the prebuilt voice, if any.
    pub open spec fn voice_name(v: VoiceConfig) -> Option<Seq<char>> {
        match v.prebuilt_voice_config {
            Some(p) => Some(p.voice_name@),
            None => None,
        }
    }

    /// The prebuilt voice `voice_name`.
    pub fn prebuilt(voice_name: &str) -> (r: Self)
        ensures
            VoiceConfig::voice_name(r) == Some(voice_name@),
    {
        VoiceConfig { prebuilt_voice_config: Some(PrebuiltVoiceConfig { voice_name: owned(voice_name) }) }
    }
}

impl SpeechConfig {
    /// `c` is single-speaker speech in the prebuilt voice `voice_name`.
    pub open spec fn is_single_speaker(c: SpeechConfig, voice_name: Seq<char>) -> bool {
        &&& c.voice_config is Some
        &&& VoiceConfig::voice_name(c.voice_config.unwrap()) == Some(voice_name)
        &&& c.multi_speaker_voice_config is None
    }

    /// Single-speaker speech in a prebuilt voice.
    pub fn single_speaker(voice_name: &str) -> (r: Self)
        ensures
            SpeechConfig::is_single_speaker(r, voice_name@),
    {
        SpeechConfig { voice_config: Some(VoiceConfig::prebuilt(voice_name)), multi_speaker_voice_config: None }
    }

    /// Multi-speaker speech.
    pub fn multi_speaker(speakers: Vec<SpeakerVoiceConfig>) -> (r: Self)
        ensures
            r.voice_config is None,
            r.multi_speaker_voice_config == Some(MultiSpeakerVoiceConfig { speaker_voice_configs: speakers }),
    {
        SpeechConfig {
            voice_config: None,
            multi_speaker_voice_config: Some(MultiSpeakerVoiceConfig { speaker_voice_configs: speakers }),
        }
    }
}

impl SpeakerVoiceConfig {
    /// The speaker `speaker` in the prebuilt voice `voice_name`.
    pub fn new(speaker: &str, voice_name: &str) -> (r: Self)
        ensures
            r.speaker@ == speaker@,
            VoiceConfig::voice_name(r.voice_config) == Some(voice_name@),
    {
        SpeakerVoiceConfig { speaker: owned(speaker), voice_config: VoiceConfig::prebuilt(voice_name) }
    }
}

/// Google Search, for grounding responses in web data.
#[derive(Debug, Clone, Copy)]
pub struct GoogleSearchTool {}

/// URL Context, for fetching and reading web pages.
#[derive(Debug, Clone, Copy)]
pub struct UrlContextTool {}

/// Code Execution, for running code.
#[derive(Debug, Clone, Copy)]
pub struct CodeExecutionTool {}

impl Default for GoogleSearchTool {
    fn default() -> (r: Self)
        ensures
            r == (GoogleSearchTool {}),
    {
        GoogleSearchTool {}
    }
}

impl Default for UrlContextTool {
    fn default() -> (r: Self)
        ensures
            r == (UrlContextTool {}),
    {
        UrlContextTool {}
    }
}

impl Default for CodeExecutionTool {
    fn default() -> (r: Self)
        ensures
            r == (CodeExecutionTool {}),
    {
        CodeExecutionTool {}
    }
}

/// Declaration of a function that the model can call.
#[derive(Debug, Clone)]
pub struct FunctionDeclaration {
    /// Name of the function.
    pub name: String,
    /// What the function does.
    pub description: String,
    /// Its parameters, as a JSON schema.
    pub parameters: Option<JsonValue>,
}

/// A tool with function declarations.
#[derive(Debug, Clone)]
pub struct Tool {
    /// The functions the model can call.
    pub function_declarations: Vec<FunctionDeclaration>,
}

impl Tool {
    /// A tool with the given function declarations.
    pub fn new(declarations: Vec<FunctionDeclaration>) -> (r: Self)
        ensures
            r == (Tool { function_declarations: declarations }),
    {
        Tool { function_declarations: declarations }
    }
}

/// A tool for the model: custom functions or one of the built-in tools.
#[derive(Debug, Clone)]
pub struct ToolConfig {
    /// Declarations of custom functions.
    pub function_declarations: Option<Vec<FunctionDeclaration>>,
    /// Google Search grounding.
    pub google_search: Option<GoogleSearchTool>,
    /// URL Context.
    pub url_context: Option<UrlContextTool>,
    /// Code Execution.
    pub code_execution: Option<CodeExecutionTool>,
}

impl ToolConfig {
    /// The Google Search tool and nothing else.
    pub open spec fn google_search_spec() -> ToolConfig {
        ToolConfig {
            function_declarations: None,
            google_search: Some(GoogleSearchTool {}),
            url_context: None,
            code_execution: None,
        }
    }

    /// The URL Context tool and nothing else.
    pub open spec fn url_context_spec() -> ToolConfig {
        ToolConfig {
            function_declarations: None,
            google_search: None,
            url_context: Some(UrlContextTool {}),
            code_execution: None,
        }
    }

    /// The Code Execution tool and nothing else.
    pub open spec fn code_execution_spec() -> ToolConfig {
        ToolConfig {
            function_declarations: None,
            google_search: None,
            url_context: None,
            code_execution: Some(CodeExecutionTool {}),
        }
    }

    /// A tool with function declarations.
    pub fn functions(declarations: Vec<FunctionDeclaration>) -> (r: Self)
        ensures
            r == (ToolConfig {
                function_declarations: Some(declarations),
                google_search: None,
                url_context: None,
                code_execution: None,
            }),
    {
        ToolConfig { function_declarations: Some(declarations), google_search: None, url_context: None, code_execution: None }
    }

    /// The Google Search tool.
    pub fn google_search() -> (r: Self)
        ensures
            r == ToolConfig::google_search_spec(),
    {
        ToolConfig {
            function_declarations: None,
            google_search: Some(GoogleSearchTool {}),
            url_context: None,
            code_execution: None,
        }
    }

    /// The URL Context tool.
    pub fn url_context() -> (r: Self)
        ensures
            r == ToolConfig::url_context_spec(),
    {
        ToolConfig {
            function_declarations: None,
            google_search: None,
            url_context: Some(UrlContextTool {}),
            code_execution: None,
        }
    }

    /// The Code Execution tool.
    pub fn code_execution() -> (r: Self)
        ensures
            r == ToolConfig::code_execution_spec(),
    {
        ToolConfig {
            function_declarations: None,
            google_search: None,
            url_context: None,
            code_execution: Some(CodeExecutionTool {}),
        }
    }
}

/// How the model may call functions.
#[derive(Debug, Clone, Copy, PartialEq, Eq, Structural)]
pub enum FunctionCallingMode {
    /// The model decides whether to call a function (the default).
    Auto,
    /// The model always calls a function.
    Any,
    /// The model calls no function.
    NoCalls,
    /// The model predicts calls or text, checked against the schema (preview).
    Validated,
}

/// Configuration of function calling.
#[derive(Debug, Clone)]
pub struct FunctionCallingConfig {
    /// The mode.
    pub mode: Option<FunctionCallingMode>,
    /// The functions the model may call, for the modes `Any` and `Validated`.
    pub allowed_function_names: Option<Vec<String>>,
}

impl FunctionCallingConfig {
    /// The mode `mode` with no list of allowed functions.
    pub open spec fn mode_only(mode: FunctionCallingMode) -> FunctionCallingConfig {
        FunctionCallingConfig { mode: Some(mode), allowed_function_names: None }
    }

    /// `c` has the mode `mode` and allows exactly the functions `names`, in order.
    pub open spec fn allows(c: FunctionCallingConfig, mode: FunctionCallingMode, names: Seq<Seq<char>>) -> bool {
        &&& c.mode == Some(mode)
        &&& c.allowed_function_names is Some
        &&& string_views(c.allowed_function_names.unwrap()@) == names
    }

    /// A configuration with nothing set.
    pub fn new() -> (r: Self)
        ensures
            r == (FunctionCallingConfig { mode: None, allowed_function_names: None }),
    {
        FunctionCallingConfig { mode: None, allowed_function_names: None }
    }

    /// The mode `Auto`: the model decides.
    pub fn auto() -> (r: Self)
        ensures
            r == FunctionCallingConfig::mode_only(FunctionCallingMode::Auto),
    {
        FunctionCallingConfig { mode: Some(FunctionCallingMode::Auto), allowed_function_names: None }
    }

    /// The mode `Any`: the model always calls a function.
    pub fn any() -> (r: Self)
        ensures
            r == FunctionCallingConfig::mode_only(FunctionCallingMode::Any),
    {
        FunctionCallingConfig { mode: Some(FunctionCallingMode::Any), allowed_function_names: None }
    }

    /// The mode `Any`, restricted to the named functions.
    pub fn any_of(function_names: Vec<&str>) -> (r: Self)
        ensures
            FunctionCallingConfig::allows(r, FunctionCallingMode::Any, str_views(function_names@)),
    {
        FunctionCallingConfig {
            mode: Some(FunctionCallingMode::Any),
            allowed_function_names: Some(owned_all(function_names.as_slice())),
        }
    }

    /// The mode `None`: no function calls.
    pub fn none() -> (r: Self)
        ensures
            r == FunctionCallingConfig::mode_only(FunctionCallingMode::NoCalls),
    {
        FunctionCallingConfig { mode: Some(FunctionCallingMode::NoCalls), allowed_function_names: None }
    }

    /// The mode `Validated` (preview).
    pub fn validated() -> (r: Self)
        ensures
            r == FunctionCallingConfig::mode_only(FunctionCallingMode::Validated),
    {
        FunctionCallingConfig { mode: Some(FunctionCallingMode::Validated), allowed_function_names: None }
    }

    /// The mode `Validated`, restricted to the named functions.
    pub fn validated_of(function_names: Vec<&str>) -> (r: Self)
        ensures
            FunctionCallingConfig::allows(r, FunctionCallingMode::Validated, str_views(function_names@)),
    {
        FunctionCallingConfig {
            mode: Some(FunctionCallingMode::Validated),
            allowed_function_names: Some(owned_all(function_names.as_slice())),
        }
    }
}

impl Default for FunctionCallingConfig {
    fn default() -> (r: Self)
        ensures
            r == (FunctionCallingConfig { mode: None, allowed_function_names: None }),
    {
        FunctionCallingConfig::new()
    }
}

/// Tool settings: the `toolConfig` of a request, which controls function calling.
#[derive(Debug, Clone)]
pub struct ToolSettings {
    /// Configuration of function calling.
    pub function_calling_config: Option<FunctionCallingConfig>,
}

impl ToolSettings {
    /// Settings with nothing set.
    pub fn new() -> (r: Self)
        ensures
            r == (ToolSettings { function_calling_config: None }),
    {
        ToolSettings { function_calling_config: None }
    }

    /// Settings with the given function calling configuration.
    pub fn with_function_calling(config: FunctionCallingConfig) -> (r: Self)
        ensures
            r == (ToolSettings { function_calling_config: Some(config) }),
    {
        ToolSettings { function_calling_config: Some(config) }
    }

    /// The model must call some function: function calling as [`FunctionCallingConfig::any`] sets it.
    pub fn force_function_call() -> (r: Self)
        ensures
            r == (ToolSettings {
                function_calling_config: Some(FunctionCallingConfig::mode_only(FunctionCallingMode::Any)),
            }),
    {
        ToolSettings::with_function_calling(FunctionCallingConfig::any())
    }

    /// The model must call one of the named functions.
    pub fn force_function_call_of(function_names: Vec<&str>) -> (r: Self)
        ensures
            r.function_calling_config is Some,
            FunctionCallingConfig::allows(
                r.function_calling_config.unwrap(),
                FunctionCallingMode::Any,
                str_views(function_names@),
            ),
    {
        ToolSettings::with_function_calling(FunctionCallingConfig::any_of(function_names))
    }

    /// Function calling off: function calling as [`FunctionCallingConfig::none`] sets it.
    pub fn disable_function_call() -> (r: Self)
        ensures
            r == (ToolSettings {
                function_calling_config: Some(FunctionCallingConfig::mode_only(FunctionCallingMode::NoCalls)),
            }),
    {
        ToolSettings::with_function_calling(FunctionCallingConfig::none())
    }
}

impl Default for ToolSettings {
    fn default() -> (r: Self)
        ensures
            r == (ToolSettings { function_calling_config: None }),
    {
        ToolSettings::new()
    }
}

/// An output modality.
#[derive(Debug, Clone, Copy, PartialEq, Eq, Structural)]
pub enum ResponseModality {
    /// Text output.
    Text,
    /// Image output (image generation models).
    Image,
    /// Audio output (text-to-speech models).
    Audio,
}

/// Harm categories of content filtering.
#[derive(Debug, Clone, Copy, PartialEq, Eq, Structural)]
pub enum HarmCategory {
    HarmCategoryUnspecified,
    HarmCategoryHateSpeech,
    HarmCategorySexuallyExplicit,
    HarmCategoryDangerousContent,
    HarmCategoryHarassment,
    HarmCategoryCivicIntegrity,
}

/// Thresholds for blocking harmful content.
#[derive(Debug, Clone, Copy, PartialEq, Eq, Structural)]
pub enum HarmBlockThreshold {
    HarmBlockThresholdUnspecified,
    BlockLowAndAbove,
    BlockMediumAndAbove,
    BlockOnlyHigh,
    BlockNone,
    Off,
}

/// The blocking threshold of one harm category.
#[derive(Debug, Clone, Copy)]
pub struct SafetySetting {
    /// The harm category.
    pub category: HarmCategory,
    /// The threshold for blocking.
    pub threshold: HarmBlockThreshold,
}

/// A safety rating of a response.
#[derive(Debug, Clone)]
pub struct SafetyRating {
    /// The harm category.
    pub category: HarmCategory,
    /// The probability of harm.
    pub probability: String,
    /// Whether the content was blocked.
    pub blocked: bool,
}

} // verus!
