//! Requests to the Gemini API and their builders.
use vstd::prelude::*;
use crate::models::defaults;
use crate::text::{decimal, opt_view, owned, push_decimal, str_views};
use crate::types::config::{
    FunctionCallingConfig, FunctionCallingMode, SafetySetting, ThinkingConfig, ThinkingLevel, Tool, ToolConfig,
    ToolSettings,
};
use crate::types::content::{Content, Part};
use crate::types::generation::GenerationConfig;
use super::config::TaskType;

verus! {

/// A request to generate content.
#[derive(Debug, Clone)]
pub struct GenerateContentRequest {
    /// The model; the client's default model when `None`.
    pub model: Option<String>,
    /// The content to generate from.
    pub contents: Vec<Content>,
    /// System instruction.
    pub system_instruction: Option<Content>,
    /// Generation configuration.
    pub generation_config: Option<GenerationConfig>,
    /// Safety settings.
    pub safety_settings: Option<Vec<SafetySetting>>,
    /// Tools with function declarations.
    pub tools: Option<Vec<Tool>>,
    /// Name of cached content to use.
    pub cached_content: Option<String>,
    /// Built-in tools (Google Search, URL Context, Code Execution), sent under the
    /// same `tools` key as the function declarations.
    pub builtin_tools: Option<Vec<ToolConfig>>,
    /// Tool settings (function calling mode).
    pub tool_config: Option<ToolSettings>,
}

impl GenerateContentRequest {
    /// The request for `contents` with nothing else set.
    pub open spec fn bare(contents: Vec<Content>) -> GenerateContentRequest {
        GenerateContentRequest {
            model: None,
            contents,
            system_instruction: None,
            generation_config: None,
            safety_settings: None,
            tools: None,
            cached_content: None,
            builtin_tools: None,
            tool_config: None,
        }
    }

    /// The built-in tools so far, none when there is no list yet.
    pub open spec fn builtin_tools_so_far(self) -> Seq<ToolConfig> {
        match self.builtin_tools {
            Some(t) => t@,
            None => Seq::empty(),
        }
    }

    /// `r` is `self` with `tool` added after the built-in tools so far.
    pub open spec fn adds_builtin_tool(self, r: GenerateContentRequest, tool: ToolConfig) -> bool {
        &&& r == (GenerateContentRequest { builtin_tools: r.builtin_tools, ..self })
        &&& r.builtin_tools is Some
        &&& r.builtin_tools.unwrap()@ == self.builtin_tools_so_far().push(tool)
    }

    /// The generation configuration, or an empty one when there is none yet.
    pub open spec fn generation_or_default(self) -> GenerationConfig {
        match self.generation_config {
            Some(g) => g,
            None => GenerationConfig::empty(),
        }
    }

    /// `self` with the thinking configuration `t` in its generation configuration,
    /// an empty generation configuration taken when there is none.
    pub open spec fn with_thinking(self, t: ThinkingConfig) -> GenerateContentRequest {
        GenerateContentRequest { generation_config: Some(self.generation_or_default().with_thinking(t)), ..self }
    }

    /// A request for the given contents.
    pub fn new(contents: Vec<Content>) -> (r: Self)
        ensures
            r == GenerateContentRequest::bare(contents),
    {
        GenerateContentRequest {
            model: None,
            contents,
            system_instruction: None,
            generation_config: None,
            safety_settings: None,
            tools: None,
            cached_content: None,
            builtin_tools: None,
            tool_config: None,
        }
    }

    /// A request for one text of the user.
    pub fn with_text(text: &str) -> (r: Self)
        ensures
            r == GenerateContentRequest::bare(r.contents),
            r.contents@.len() == 1,
            Content::is_text_content(r.contents@[0], Some("user"@), text@),
    {
        GenerateContentRequest::new(vec![Content::user(text)])
    }

    /// Sets the model.
    pub fn model(self, model: &str) -> (r: Self)
        ensures
            r == (GenerateContentRequest { model: r.model, ..self }),
            opt_view(r.model) == Some(model@),
    {
        GenerateContentRequest { model: Some(owned(model)), ..self }
    }

    /// Sets the system instruction: one text, without a role.
    pub fn system_instruction(self, instruction: &str) -> (r: Self)
        ensures
            r == (GenerateContentRequest { system_instruction: r.system_instruction, ..self }),
            r.system_instruction is Some,
            Content::is_text_content(r.system_instruction.unwrap(), None, instruction@),
    {
        GenerateContentRequest { system_instruction: Some(Content { parts: vec![Part::text(instruction)], role: None }), ..self }
    }

    /// Sets the generation configuration.
    pub fn generation_config(self, config: GenerationConfig) -> (r: Self)
        ensures
            r == (GenerateContentRequest { generation_config: Some(config), ..self }),
    {
        GenerateContentRequest { generation_config: Some(config), ..self }
    }

    /// Sets the safety settings.
    pub fn safety_settings(self, settings: Vec<SafetySetting>) -> (r: Self)
        ensures
            r == (GenerateContentRequest { safety_settings: Some(settings), ..self }),
    {
        GenerateContentRequest { safety_settings: Some(settings), ..self }
    }

    /// Sets the tools with function declarations.
    pub fn tools(self, tools: Vec<Tool>) -> (r: Self)
        ensures
            r == (GenerateContentRequest { tools: Some(tools), ..self }),
    {
        GenerateContentRequest { tools: Some(tools), ..self }
    }

    /// Appends content.
    pub fn add_content(self, content: Content) -> (r: Self)
        ensures
            r == (GenerateContentRequest { contents: r.contents, ..self }),
            r.contents@ == self.contents@.push(content),
    {
        let mut req = self;
        req.contents.push(content);
        req
    }

    /// Sets the built-in tools.
    pub fn with_builtin_tools(self, tools: Vec<ToolConfig>) -> (r: Self)
        ensures
            r == (GenerateContentRequest { builtin_tools: Some(tools), ..self }),
    {
        GenerateContentRequest { builtin_tools: Some(tools), ..self }
    }

    fn add_builtin_tool(self, tool: ToolConfig) -> (r: Self)
        ensures
            self.adds_builtin_tool(r, tool),
    {
        let mut req = self;
        let mut tools = match req.builtin_tools {
            Some(t) => t,
            None => Vec::new(),
        };
        tools.push(tool);
        req.builtin_tools = Some(tools);
        req
    }

    /// Adds Google Search grounding after the built-in tools so far.
    pub fn with_google_search(self) -> (r: Self)
        ensures
            self.adds_builtin_tool(r, ToolConfig::google_search_spec()),
    {
        self.add_builtin_tool(ToolConfig::google_search())
    }

    /// Adds the URL Context tool after the built-in tools so far.
    pub fn with_url_context(self) -> (r: Self)
        ensures
            self.adds_builtin_tool(r, ToolConfig::url_context_spec()),
    {
        self.add_builtin_tool(ToolConfig::url_context())
    }

    /// Adds the Code Execution tool after the built-in tools so far.
    pub fn with_code_execution(self) -> (r: Self)
        ensures
            self.adds_builtin_tool(r, ToolConfig::code_execution_spec()),
    {
        self.add_builtin_tool(ToolConfig::code_execution())
    }

    /// Sets the function calling configuration.
    pub fn function_calling_config(self, config: FunctionCallingConfig) -> (r: Self)
        ensures
            r == (GenerateContentRequest {
                tool_config: Some(ToolSettings { function_calling_config: Some(config) }),
                ..self
            }),
    {
        GenerateContentRequest { tool_config: Some(ToolSettings::with_function_calling(config)), ..self }
    }

    /// The model must call some function.
    pub fn force_function_call(self) -> (r: Self)
        ensures
            r == (GenerateContentRequest {
                tool_config: Some(ToolSettings {
                    function_calling_config: Some(FunctionCallingConfig::mode_only(FunctionCallingMode::Any)),
                }),
                ..self
            }),
    {
        GenerateContentRequest { tool_config: Some(ToolSettings::force_function_call()), ..self }
    }

    /// The model must call one of the named functions.
    pub fn force_function_call_of(self, function_names: Vec<&str>) -> (r: Self)
        ensures
            r == (GenerateContentRequest { tool_config: r.tool_config, ..self }),
            r.tool_config is Some,
            r.tool_config.unwrap().function_calling_config is Some,
            FunctionCallingConfig::allows(
                r.tool_config.unwrap().function_calling_config.unwrap(),
                FunctionCallingMode::Any,
                str_views(function_names@),
            ),
    {
        GenerateContentRequest { tool_config: Some(ToolSettings::force_function_call_of(function_names)), ..self }
    }

    /// Turns function calling off.
    pub fn disable_function_calling(self) -> (r: Self)
        ensures
            r == (GenerateContentRequest {
                tool_config: Some(ToolSettings {
                    function_calling_config: Some(FunctionCallingConfig::mode_only(FunctionCallingMode::NoCalls)),
                }),
                ..self
            }),
    {
        GenerateContentRequest { tool_config: Some(ToolSettings::disable_function_call()), ..self }
    }

    /// Sets the thinking level (Gemini 3), keeping the rest of the generation and
    /// thinking configurations.
    pub fn thinking_level(self, level: ThinkingLevel) -> (r: Self)
        ensures
            r == self.with_thinking(
                ThinkingConfig { thinking_level: Some(level), ..self.generation_or_default().thinking_or_default() },
            ),
    {
        let mut req = self;
        let g = match req.generation_config {
            Some(g) => g,
            None => GenerationConfig::new(),
        };
        req.generation_config = Some(g.thinking_level(level));
        req
    }

    /// Turns thinking off (thinking budget 0), keeping the rest of the generation
    /// and thinking configurations.
    pub fn disable_thinking(self) -> (r: Self)
        ensures
            r == self.with_thinking(
                ThinkingConfig { thinking_budget: Some(0i32), ..self.generation_or_default().thinking_or_default() },
            ),
    {
        let mut req = self;
        let g = match req.generation_config {
            Some(g) => g,
            None => GenerationConfig::new(),
        };
        req.generation_config = Some(g.thinking_budget(0));
        req
    }
}

impl Default for GenerateContentRequest {
    fn default() -> (r: Self)
        ensures
            r == GenerateContentRequest::bare(r.contents),
            r.contents@.len() == 0,
    {
        GenerateContentRequest::new(Vec::new())
    }
}

/// A request to count tokens.
#[derive(Debug, Clone)]
pub struct CountTokensRequest {
    /// The model; the client's default model when `None`.
    pub model: Option<String>,
    /// The contents to count.
    pub contents: Vec<Content>,
}

impl CountTokensRequest {
    /// A request for the given contents.
    pub fn new(contents: Vec<Content>) -> (r: Self)
        ensures
            r == (CountTokensRequest { model: None, contents }),
    {
        CountTokensRequest { model: None, contents }
    }

    /// A request for one text of the user.
    pub fn with_text(text: &str) -> (r: Self)
        ensures
            r.model is None,
            r.contents@.len() == 1,
            Content::is_text_content(r.contents@[0], Some("user"@), text@),
    {
        CountTokensRequest::new(vec![Content::user(text)])
    }

    /// Sets the model.
    pub fn model(self, model: &str) -> (r: Self)
        ensures
            r.contents == self.contents,
            opt_view(r.model) == Some(model@),
    {
        CountTokensRequest { model: Some(owned(model)), ..self }
    }
}

/// A request to embed content.
#[derive(Debug, Clone)]
pub struct EmbedContentRequest {
    /// The model; `text-embedding-004` when `None`.
    pub model: Option<String>,
    /// The content to embed.
    pub content: Content,
    /// The task type, one of [`TaskType`].
    pub task_type: Option<String>,
    /// Title, used with the task type `RETRIEVAL_DOCUMENT`.
    pub title: Option<String>,
    /// Dimensionality of the output (768, 1536 or 3072, the default).
    pub output_dimensionality: Option<i32>,
}

impl EmbedContentRequest {
    /// `r` is `self` with the task type `t` and nothing else changed.
    pub open spec fn sets_task_type(self, r: EmbedContentRequest, t: Seq<char>) -> bool {
        &&& r == (EmbedContentRequest { task_type: r.task_type, ..self })
        &&& opt_view(r.task_type) == Some(t)
    }

    /// A request to embed one text of the user.
    pub fn new(text: &str) -> (r: Self)
        ensures
            Content::is_text_content(r.content, Some("user"@), text@),
            r.model is None,
            r.task_type is None,
            r.title is None,
            r.output_dimensionality is None,
    {
        EmbedContentRequest {
            model: None,
            content: Content::user(text),
            task_type: None,
            title: None,
            output_dimensionality: None,
        }
    }

    /// Sets the model.
    pub fn model(self, model: &str) -> (r: Self)
        ensures
            r == (EmbedContentRequest { model: r.model, ..self }),
            opt_view(r.model) == Some(model@),
    {
        EmbedContentRequest { model: Some(owned(model)), ..self }
    }

    /// Sets the task type.
    pub fn task_type(self, task_type: &str) -> (r: Self)
        ensures
            self.sets_task_type(r, task_type@),
    {
        EmbedContentRequest { task_type: Some(owned(task_type)), ..self }
    }

    /// Sets the title (for the task type `RETRIEVAL_DOCUMENT`).
    pub fn title(self, title: &str) -> (r: Self)
        ensures
            r == (EmbedContentRequest { title: r.title, ..self }),
            opt_view(r.title) == Some(title@),
    {
        EmbedContentRequest { title: Some(owned(title)), ..self }
    }

    /// Sets the output dimensionality.
    pub fn output_dimensionality(self, dim: i32) -> (r: Self)
        ensures
            r == (EmbedContentRequest { output_dimensionality: Some(dim), ..self }),
    {
        EmbedContentRequest { output_dimensionality: Some(dim), ..self }
    }

    /// Tunes the embedding to semantic similarity.
    pub fn for_similarity(self) -> (r: Self)
        ensures
            self.sets_task_type(r, TaskType::SEMANTIC_SIMILARITY@),
    {
        self.task_type(TaskType::SEMANTIC_SIMILARITY)
    }

    /// Tunes the embedding to documents to be retrieved.
    pub fn for_document(self) -> (r: Self)
        ensures
            self.sets_task_type(r, TaskType::RETRIEVAL_DOCUMENT@),
    {
        self.task_type(TaskType::RETRIEVAL_DOCUMENT)
    }

    /// Tunes the embedding to search queries.
    pub fn for_query(self) -> (r: Self)
        ensures
            self.sets_task_type(r, TaskType::RETRIEVAL_QUERY@),
    {
        self.task_type(TaskType::RETRIEVAL_QUERY)
    }

    /// Tunes the embedding to classification.
    pub fn for_classification(self) -> (r: Self)
        ensures
            self.sets_task_type(r, TaskType::CLASSIFICATION@),
    {
        self.task_type(TaskType::CLASSIFICATION)
    }

    /// Tunes the embedding to clustering.
    pub fn for_clustering(self) -> (r: Self)
        ensures
            self.sets_task_type(r, TaskType::CLUSTERING@),
    {
        self.task_type(TaskType::CLUSTERING)
    }
}

/// A request to embed several contents.
#[derive(Debug, Clone)]
pub struct BatchEmbedContentsRequest {
    /// The model; `text-embedding-004` when `None`.
    pub model: Option<String>,
    /// The requests.
    pub requests: Vec<EmbedContentRequest>,
}

/// A request to create cached content. Explicit caching needs a model name with a
/// version suffix, such as `gemini-2.0-flash-001`.
#[derive(Debug, Clone)]
pub struct CreateCachedContentRequest {
    /// The model, with its version suffix.
    pub model: String,
    /// The content to cache.
    pub contents: Vec<Content>,
    /// A system instruction to cache.
    pub system_instruction: Option<Content>,
    /// Time to live, such as `"300s"`.
    pub ttl: Option<String>,
    /// Absolute expiration time (ISO 8601).
    pub expire_time: Option<String>,
    /// Display name.
    pub display_name: Option<String>,
}

impl CreateCachedContentRequest {
    /// A request for the model `model` and the contents, with nothing else set.
    pub open spec fn is_bare(r: CreateCachedContentRequest, model: Seq<char>) -> bool {
        &&& r.model@ == model
        &&& r.system_instruction is None
        &&& r.ttl is None
        &&& r.expire_time is None
        &&& r.display_name is None
    }

    /// A request to cache `contents` for `model`.
    pub fn new(model: &str, contents: Vec<Content>) -> (r: Self)
        ensures
            CreateCachedContentRequest::is_bare(r, model@),
            r.contents == contents,
    {
        CreateCachedContentRequest {
            model: owned(model),
            contents,
            system_instruction: None,
            ttl: None,
            expire_time: None,
            display_name: None,
        }
    }

    /// A request to cache a reference to the file `file_uri` of type `mime_type`.
    pub fn with_file(model: &str, file_uri: &str, mime_type: &str) -> (r: Self)
        ensures
            CreateCachedContentRequest::is_bare(r, model@),
            r.contents@.len() == 1,
            r.contents@[0].parts@.len() == 1,
            Part::is_file(r.contents@[0].parts@[0], mime_type@, file_uri@),
            opt_view(r.contents@[0].role) == Some("user"@),
    {
        CreateCachedContentRequest::new(model, vec![Content::user_with_file(file_uri, mime_type)])
    }

    /// Sets the system instruction.
    pub fn system_instruction(self, instruction: &str) -> (r: Self)
        ensures
            r == (CreateCachedContentRequest { system_instruction: r.system_instruction, ..self }),
            r.system_instruction is Some,
            Content::is_text_content(r.system_instruction.unwrap(), None, instruction@),
    {
        CreateCachedContentRequest { system_instruction: Some(Content::system(instruction)), ..self }
    }

    /// Sets the time to live, such as `"3600s"`.
    pub fn ttl(self, ttl: &str) -> (r: Self)
        ensures
            r == (CreateCachedContentRequest { ttl: r.ttl, ..self }),
            opt_view(r.ttl) == Some(ttl@),
    {
        CreateCachedContentRequest { ttl: Some(owned(ttl)), ..self }
    }

    /// Sets the time to live in seconds: the decimal number followed by `s`.
    pub fn ttl_seconds(self, seconds: u64) -> (r: Self)
        ensures
            r == (CreateCachedContentRequest { ttl: r.ttl, ..self }),
            opt_view(r.ttl) == Some(decimal(seconds as nat) + "s"@),
    {
        let mut t = String::new();
        push_decimal(&mut t, seconds);
        t.append("s");
        assert(t@ =~= decimal(seconds as nat) + "s"@);
        CreateCachedContentRequest { ttl: Some(t), ..self }
    }

    /// Sets the absolute expiration time (ISO 8601).
    pub fn expire_time(self, time: &str) -> (r: Self)
        ensures
            r == (CreateCachedContentRequest { expire_time: r.expire_time, ..self }),
            opt_view(r.expire_time) == Some(time@),
    {
        CreateCachedContentRequest { expire_time: Some(owned(time)), ..self }
    }

    /// Sets the display name.
    pub fn display_name(self, name: &str) -> (r: Self)
        ensures
            r == (CreateCachedContentRequest { display_name: r.display_name, ..self }),
            opt_view(r.display_name) == Some(name@),
    {
        CreateCachedContentRequest { display_name: Some(owned(name)), ..self }
    }
}

/// Metadata that identifies a request of a batch.
#[derive(Debug, Clone)]
pub struct BatchRequestMetadata {
    /// A key unique in the batch.
    pub key: Option<String>,
}

/// One request of a batch.
#[derive(Debug, Clone)]
pub struct InlinedRequest {
    /// The request.
    pub request: GenerateContentRequest,
    /// Metadata with a key that identifies the request.
    pub metadata: Option<BatchRequestMetadata>,
}

impl InlinedRequest {
    /// A request without a key.
    pub fn new(request: GenerateContentRequest) -> (r: Self)
        ensures
            r == (InlinedRequest { request, metadata: None }),
    {
        InlinedRequest { request, metadata: None }
    }

    /// A request with the key `key`.
    pub fn with_key(request: GenerateContentRequest, key: &str) -> (r: Self)
        ensures
            r.request == request,
            r.metadata is Some,
            opt_view(r.metadata.unwrap().key) == Some(key@),
    {
        InlinedRequest { request, metadata: Some(BatchRequestMetadata { key: Some(owned(key)) }) }
    }
}

/// The requests of a batch, sent inline.
#[derive(Debug, Clone)]
pub struct InlinedRequests {
    /// The requests.
    pub requests: Vec<InlinedRequest>,
}

/// Input of a batch job: inline requests or a JSONL file.
#[derive(Debug, Clone)]
pub struct BatchInputConfig {
    /// Inline requests (sent, never read back).
    pub requests: Option<InlinedRequests>,
    /// Name of a JSONL input file.
    pub file_name: Option<String>,
}

impl Default for BatchInputConfig {
    fn default() -> (r: Self)
        ensures
            r.requests is None && r.file_name is None,
    {
        BatchInputConfig { requests: None, file_name: None }
    }
}

/// A request to create a batch job.
#[derive(Debug, Clone)]
pub struct BatchJobRequest {
    /// The model (part of the URL).
    pub model: String,
    /// Display name of the job.
    pub display_name: Option<String>,
    /// The requests of the job.
    pub input_config: BatchInputConfig,
}

impl BatchJobRequest {
    /// A batch of inline requests for `model`.
    pub fn inline(model: &str, requests: Vec<InlinedRequest>) -> (r: Self)
        ensures
            r.model@ == model@,
            r.display_name is None,
            r.input_config.requests == Some(InlinedRequests { requests }),
            r.input_config.file_name is None,
    {
        BatchJobRequest {
            model: owned(model),
            display_name: None,
            input_config: BatchInputConfig { requests: Some(InlinedRequests { requests }), file_name: None },
        }
    }

    /// A batch read from the JSONL file `file_name`.
    pub fn from_file(model: &str, file_name: &str) -> (r: Self)
        ensures
            r.model@ == model@,
            r.display_name is None,
            r.input_config.requests is None,
            opt_view(r.input_config.file_name) == Some(file_name@),
    {
        BatchJobRequest {
            model: owned(model),
            display_name: None,
            input_config: BatchInputConfig { requests: None, file_name: Some(owned(file_name)) },
        }
    }

    /// Sets the display name.
    pub fn display_name(self, name: &str) -> (r: Self)
        ensures
            r == (BatchJobRequest { display_name: r.display_name, ..self }),
            opt_view(r.display_name) == Some(name@),
    {
        BatchJobRequest { display_name: Some(owned(name)), ..self }
    }
}

/// An image input of video generation.
#[derive(Debug, Clone)]
pub struct VideoImage {
    /// Base64-encoded image bytes.
    pub image_bytes: Option<String>,
    /// MIME type of the image.
    pub mime_type: Option<String>,
    /// URI of an uploaded image.
    pub uri: Option<String>,
}

impl VideoImage {
    /// An image from base64-encoded bytes.
    pub fn from_bytes(bytes: &str, mime_type: &str) -> (r: Self)
        ensures
            opt_view(r.image_bytes) == Some(bytes@),
            opt_view(r.mime_type) == Some(mime_type@),
            r.uri is None,
    {
        VideoImage { image_bytes: Some(owned(bytes)), mime_type: Some(owned(mime_type)), uri: None }
    }

    /// An image from a file URI.
    pub fn from_uri(uri: &str) -> (r: Self)
        ensures
            r.image_bytes is None,
            r.mime_type is None,
            opt_view(r.uri) == Some(uri@),
    {
        VideoImage { image_bytes: None, mime_type: None, uri: Some(owned(uri)) }
    }
}

/// A reference image that guides the content of a video (Veo 3.1).
#[derive(Debug, Clone)]
pub struct VideoReferenceImage {
    /// The image.
    pub image: VideoImage,
    /// The reference type: `asset` keeps the subject's appearance.
    pub reference_type: String,
}

impl VideoReferenceImage {
    /// An asset reference, which keeps the subject's appearance.
    pub fn asset(image: VideoImage) -> (r: Self)
        ensures
            r.image == image,
            r.reference_type@ == "asset"@,
    {
        VideoReferenceImage { image, reference_type: owned("asset") }
    }
}

/// A video to extend (Veo 3.1).
#[derive(Debug, Clone)]
pub struct VideoInput {
    /// URI of the video.
    pub uri: Option<String>,
    /// Bytes of the video, from an earlier generation.
    pub video_bytes: Option<Vec<u8>>,
}

/// Configuration of video generation.
#[derive(Debug, Clone)]
pub struct GenerateVideosConfig {
    /// Aspect ratio: "16:9" (the default) or "9:16".
    pub aspect_ratio: Option<String>,
    /// Resolution: "720p" (the default) or "1080p" (8 s only).
    pub resolution: Option<String>,
    /// Duration in seconds: 4, 6 or 8.
    pub duration_seconds: Option<u8>,
    /// Number of videos (1 for Veo 3, 1 or 2 for Veo 2).
    pub number_of_videos: Option<u8>,
    /// Person generation policy.
    pub person_generation: Option<String>,
    /// Seed (Veo 3), which does not promise determinism.
    pub seed: Option<u64>,
}

impl GenerateVideosConfig {
    /// The configuration with nothing set.
    pub open spec fn empty() -> GenerateVideosConfig {
        GenerateVideosConfig {
            aspect_ratio: None,
            resolution: None,
            duration_seconds: None,
            number_of_videos: None,
            person_generation: None,
            seed: None,
        }
    }
}

impl Default for GenerateVideosConfig {
    fn default() -> (r: Self)
        ensures
            r == GenerateVideosConfig::empty(),
    {
        GenerateVideosConfig {
            aspect_ratio: None,
            resolution: None,
            duration_seconds: None,
            number_of_videos: None,
            person_generation: None,
            seed: None,
        }
    }
}

/// A request to generate videos with Veo.
#[derive(Debug, Clone)]
pub struct GenerateVideosRequest {
    /// The model, such as `veo-3.1-generate-preview`.
    pub model: String,
    /// What the video shows.
    pub prompt: String,
    /// What the video must not show.
    pub negative_prompt: Option<String>,
    /// A starting image.
    pub image: Option<VideoImage>,
    /// A last frame, for interpolation (Veo 3.1).
    pub last_frame: Option<VideoImage>,
    /// Up to three reference images (Veo 3.1).
    pub reference_images: Option<Vec<VideoReferenceImage>>,
    /// A video to extend (Veo 3.1).
    pub video: Option<VideoInput>,
    /// Configuration.
    pub config: Option<GenerateVideosConfig>,
}

impl GenerateVideosRequest {
    /// The configuration, or an empty one when there is none yet.
    pub open spec fn config_or_default(self) -> GenerateVideosConfig {
        match self.config {
            Some(c) => c,
            None => GenerateVideosConfig::empty(),
        }
    }

    /// A request for the prompt `prompt` with the default video model.
    pub fn new(prompt: &str) -> (r: Self)
        ensures
            r.model@ == defaults::VIDEO_GEN@,
            r.prompt@ == prompt@,
            r.negative_prompt is None,
            r.image is None,
            r.last_frame is None,
            r.reference_images is None,
            r.video is None,
            r.config is None,
    {
        GenerateVideosRequest {
            model: owned(defaults::VIDEO_GEN),
            prompt: owned(prompt),
            negative_prompt: None,
            image: None,
            last_frame: None,
            reference_images: None,
            video: None,
            config: None,
        }
    }

    /// Sets the model.
    pub fn model(self, model: &str) -> (r: Self)
        ensures
            r == (GenerateVideosRequest { model: r.model, ..self }),
            r.model@ == model@,
    {
        GenerateVideosRequest { model: owned(model), ..self }
    }

    /// Sets the negative prompt.
    pub fn negative_prompt(self, prompt: &str) -> (r: Self)
        ensures
            r == (GenerateVideosRequest { negative_prompt: r.negative_prompt, ..self }),
            opt_view(r.negative_prompt) == Some(prompt@),
    {
        GenerateVideosRequest { negative_prompt: Some(owned(prompt)), ..self }
    }

    /// Sets the starting image.
    pub fn image(self, image: VideoImage) -> (r: Self)
        ensures
            r == (GenerateVideosRequest { image: Some(image), ..self }),
    {
        GenerateVideosRequest { image: Some(image), ..self }
    }

    /// Sets the last frame (Veo 3.1).
    pub fn last_frame(self, image: VideoImage) -> (r: Self)
        ensures
            r == (GenerateVideosRequest { last_frame: Some(image), ..self }),
    {
        GenerateVideosRequest { last_frame: Some(image), ..self }
    }

    /// Sets the reference images (Veo 3.1, up to three).
    pub fn reference_images(self, images: Vec<VideoReferenceImage>) -> (r: Self)
        ensures
            r == (GenerateVideosRequest { reference_images: Some(images), ..self }),
    {
        GenerateVideosRequest { reference_images: Some(images), ..self }
    }

    /// Sets the video to extend (Veo 3.1).
    pub fn video(self, video: VideoInput) -> (r: Self)
        ensures
            r == (GenerateVideosRequest { video: Some(video), ..self }),
    {
        GenerateVideosRequest { video: Some(video), ..self }
    }

    /// Sets the configuration.
    pub fn config(self, config: GenerateVideosConfig) -> (r: Self)
        ensures
            r == (GenerateVideosRequest { config: Some(config), ..self }),
    {
        GenerateVideosRequest { config: Some(config), ..self }
    }

    /// Sets the aspect ratio, keeping the rest of the configuration.
    pub fn aspect_ratio(self, ratio: &str) -> (r: Self)
        ensures
            r == (GenerateVideosRequest { config: r.config, ..self }),
            r.config is Some,
            r.config.unwrap() == (GenerateVideosConfig {
                aspect_ratio: r.config.unwrap().aspect_ratio,
                ..self.config_or_default()
            }),
            opt_view(r.config.unwrap().aspect_ratio) == Some(ratio@),
    {
        let mut req = self;
        let c = match req.config {
            Some(c) => c,
            None => GenerateVideosConfig::default(),
        };
        req.config = Some(GenerateVideosConfig { aspect_ratio: Some(owned(ratio)), ..c });
        req
    }

    /// Sets the resolution, keeping the rest of the configuration.
    pub fn resolution(self, res: &str) -> (r: Self)
        ensures
            r == (GenerateVideosRequest { config: r.config, ..self }),
            r.config is Some,
            r.config.unwrap() == (GenerateVideosConfig { resolution: r.config.unwrap().resolution, ..self.config_or_default() }),
            opt_view(r.config.unwrap().resolution) == Some(res@),
    {
        let mut req = self;
        let c = match req.config {
            Some(c) => c,
            None => GenerateVideosConfig::default(),
        };
        req.config = Some(GenerateVideosConfig { resolution: Some(owned(res)), ..c });
        req
    }

    /// Sets the duration in seconds, keeping the rest of the configuration.
    pub fn duration(self, seconds: u8) -> (r: Self)
        ensures
            r == (GenerateVideosRequest {
                config: Some(GenerateVideosConfig { duration_seconds: Some(seconds), ..self.config_or_default() }),
                ..self
            }),
    {
        let mut req = self;
        let c = match req.config {
            Some(c) => c,
            None => GenerateVideosConfig::default(),
        };
        req.config = Some(GenerateVideosConfig { duration_seconds: Some(seconds), ..c });
        req
    }
}

} // verus!
