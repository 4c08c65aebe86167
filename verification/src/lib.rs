//! A client library for the Google Gemini generative language API, with the
//! logic of the prompt improver and of the Gemini command-line program.
//!
//! The library builds requests, reads responses and decides what the client does;
//! sending the requests, reading files and the environment, and printing are left
//! to the programs around it.
pub mod cli;
pub mod client;
pub mod encoding;
pub mod error;
pub mod json;
pub mod models;
pub mod text;
pub mod time;
pub mod types;

pub use client::config::{ClientConfig, TaskType};
pub use client::files::{FileMapping, chrono_now, mime_from_path};
pub use client::requests::{
    BatchEmbedContentsRequest, BatchInputConfig, BatchJobRequest, BatchRequestMetadata, CountTokensRequest,
    CreateCachedContentRequest, EmbedContentRequest, GenerateContentRequest, GenerateVideosConfig,
    GenerateVideosRequest, InlinedRequest, InlinedRequests, VideoImage, VideoInput, VideoReferenceImage,
};
pub use client::responses::{
    BatchError, BatchJob, BatchJobState, BatchOutputConfig, CachedContent, CachedContentUsageMetadata,
    CountTokensResponse, FileMetadata, GenerateContentResponse, GenerateVideosResponse, GeneratedVideo,
    InlinedResponse, InlinedResponses, ListBatchJobsResponse, ListCachedContentsResponse, ListFilesResponse,
    OperationError, UploadFileResponse, VideoFile, VideoOperation,
};
pub use error::{GeminiError, Result};
pub use json::JsonValue;
pub use models::defaults as default_models;
pub use models::thinking_budget;
pub use types::audio_prompts;
pub use types::config::{
    CodeExecutionTool, FunctionCallingConfig, FunctionCallingMode, FunctionDeclaration, GoogleSearchTool,
    HarmBlockThreshold, HarmCategory, ImageConfig, MultiSpeakerVoiceConfig, PrebuiltVoiceConfig,
    ResponseModality, SafetyRating, SafetySetting, SpeakerVoiceConfig, SpeechConfig, ThinkingConfig,
    ThinkingLevel, Tool, ToolConfig, ToolSettings, UrlContextTool, VoiceConfig,
};
pub use types::content::{
    Blob, Content, FileData, FunctionCall, FunctionResponse, MediaResolution, MediaResolutionConfig, Part,
    VideoMetadata,
};
pub use types::generation::GenerationConfig;
pub use types::json_schema;
pub use types::response::{
    Candidate, FinishReason, GroundingChunk, GroundingChunkWeb, GroundingMetadata, GroundingSegment,
    GroundingSupport, Model, SearchEntryPoint, UsageMetadata,
};
pub use types::thought_signatures;
pub use types::tts_voices;
pub use types::vision::{BoundingBox2D, SegmentationMask};
pub use types::vision_prompts;
