//! Responses of the Gemini API.
use vstd::prelude::*;
use crate::text::{opt_view, strip_prefix_or_self, without_prefix};
use crate::types::response::{Candidate, UsageMetadata};

verus! {

/// A response of content generation.
#[derive(Debug, Clone)]
pub struct GenerateContentResponse {
    /// The generated candidates.
    pub candidates: Vec<Candidate>,
    /// Token usage.
    pub usage_metadata: Option<UsageMetadata>,
    /// The model version used.
    pub model_version: Option<String>,
}

impl GenerateContentResponse {
    /// The text of the first candidate, as [`Candidate::text_spec`] says; `None`
    /// without candidates.
    pub open spec fn text_spec(self) -> Option<Seq<char>> {
        if self.candidates@.len() > 0 {
            self.candidates@[0].text_spec()
        } else {
            None
        }
    }

    /// The text of a response is that of the first part of its first candidate's
    /// content, whatever that candidate's finish reason and whatever the other
    /// candidates hold; a response without candidates has none.
    pub proof fn lemma_response_text(r: GenerateContentResponse)
        ensures
            (r.candidates@.len() > 0 && r.candidates@[0].content is Some && r.candidates@[0].content->0.parts@.len() > 0
                && r.candidates@[0].content->0.parts@[0].text is Some)
                ==> r.text_spec() == Some(r.candidates@[0].content->0.parts@[0].text->0@),
            r.candidates@.len() == 0 ==> r.text_spec() is None,
    {
        if r.candidates@.len() > 0 {
            Candidate::lemma_candidate_text(r.candidates@[0]);
        }
    }

    /// The text of the first candidate.
    pub fn text(&self) -> (r: Option<&str>)
        ensures
            match r {
                Some(s) => self.text_spec() == Some(s@),
                None => self.text_spec() is None,
            },
            (self.candidates@.len() > 0 && self.candidates@[0].content is Some && self.candidates@[0].content->0.parts@.len() > 0
                && self.candidates@[0].content->0.parts@[0].text is Some)
                ==> (r is Some && r->0@ == self.candidates@[0].content->0.parts@[0].text->0@),
    {
        proof {
            GenerateContentResponse::lemma_response_text(*self);
        }
        if self.candidates.len() > 0 {
            self.candidates[0].text()
        } else {
            None
        }
    }
}

/// A response of token counting.
#[derive(Debug, Clone, Copy)]
pub struct CountTokensResponse {
    /// The number of tokens.
    pub total_tokens: u32,
}

/// Metadata of an uploaded file.
#[derive(Debug, Clone)]
pub struct FileMetadata {
    /// Resource name, such as `files/abc123`.
    pub name: String,
    /// Display name.
    pub display_name: Option<String>,
    /// MIME type.
    pub mime_type: String,
    /// Size in bytes, as a decimal text.
    pub size_bytes: Option<String>,
    /// Creation time.
    pub create_time: Option<String>,
    /// Update time.
    pub update_time: Option<String>,
    /// Expiration time.
    pub expiration_time: Option<String>,
    /// SHA-256 hash.
    pub sha256_hash: Option<String>,
    /// URI for use in requests.
    pub uri: Option<String>,
    /// Processing state, such as `ACTIVE` or `PROCESSING`.
    pub state: Option<String>,
}

impl FileMetadata {
    /// Whether the file is ready to use: its state is `ACTIVE`.
    pub fn is_active(&self) -> (b: bool)
        ensures
            b == (opt_view(self.state) == Some("ACTIVE"@)),
    {
        match &self.state {
            Some(s) => crate::text::str_eq(s.as_str(), "ACTIVE"),
            None => false,
        }
    }

    /// Whether the file is still being processed: its state is `PROCESSING`.
    pub fn is_processing(&self) -> (b: bool)
        ensures
            b == (opt_view(self.state) == Some("PROCESSING"@)),
    {
        match &self.state {
            Some(s) => crate::text::str_eq(s.as_str(), "PROCESSING"),
            None => false,
        }
    }

    /// The name without its `files/` prefix.
    pub fn short_name(&self) -> (r: &str)
        ensures
            r@ == without_prefix(self.name@, "files/"@),
    {
        strip_prefix_or_self(self.name.as_str(), "files/")
    }
}

/// A response of file upload.
#[derive(Debug, Clone)]
pub struct UploadFileResponse {
    /// The uploaded file.
    pub file: FileMetadata,
}

/// A page of uploaded files.
#[derive(Debug, Clone)]
pub struct ListFilesResponse {
    /// The files.
    pub files: Vec<FileMetadata>,
    /// Token of the next page.
    pub next_page_token: Option<String>,
}

/// Token usage of cached content.
#[derive(Debug, Clone, Copy)]
pub struct CachedContentUsageMetadata {
    /// Tokens in the cache.
    pub total_token_count: u32,
}

/// Cached content.
#[derive(Debug, Clone)]
pub struct CachedContent {
    /// Resource name, such as `cachedContents/abc123`.
    pub name: String,
    /// The model of the cache.
    pub model: String,
    /// Creation time.
    pub create_time: Option<String>,
    /// Update time.
    pub update_time: Option<String>,
    /// Expiration time.
    pub expire_time: Option<String>,
    /// Display name.
    pub display_name: Option<String>,
    /// Token usage.
    pub usage_metadata: Option<CachedContentUsageMetadata>,
}

impl CachedContent {
    /// The name without its `cachedContents/` prefix.
    pub fn short_name(&self) -> (r: &str)
        ensures
            r@ == without_prefix(self.name@, "cachedContents/"@),
    {
        strip_prefix_or_self(self.name.as_str(), "cachedContents/")
    }

    /// The number of tokens in the cache, when known.
    pub fn token_count(&self) -> (r: Option<u32>)
        ensures
            r == match self.usage_metadata {
                Some(u) => Some(u.total_token_count),
                None => None,
            },
    {
        match &self.usage_metadata {
            Some(u) => Some(u.total_token_count),
            None => None,
        }
    }
}

/// A page of cached contents.
#[derive(Debug, Clone)]
pub struct ListCachedContentsResponse {
    /// The cached contents.
    pub cached_contents: Vec<CachedContent>,
    /// Token of the next page.
    pub next_page_token: Option<String>,
}

/// State of a batch job.
#[derive(Debug, Clone, Copy, PartialEq, Eq, Structural)]
pub enum BatchJobState {
    /// Unspecified.
    BatchStateUnspecified,
    /// Waiting to be processed.
    BatchStatePending,
    /// Being processed.
    BatchStateRunning,
    /// Completed successfully.
    BatchStateSucceeded,
    /// Failed.
    BatchStateFailed,
    /// Cancelled.
    BatchStateCancelled,
}

/// An error of batch processing.
#[derive(Debug, Clone)]
pub struct BatchError {
    /// Error code.
    pub code: Option<i32>,
    /// Error message.
    pub message: Option<String>,
}

/// One response of a batch.
#[derive(Debug, Clone)]
pub struct InlinedResponse {
    /// The response, when the request succeeded.
    pub response: Option<GenerateContentResponse>,
    /// The error, when it failed.
    pub error: Option<BatchError>,
    /// The key of the request's metadata.
    pub key: Option<String>,
}

/// The responses of a batch.
#[derive(Debug, Clone)]
pub struct InlinedResponses {
    /// The responses (the API calls them `inlinedResponses` or `responses`).
    pub inlined_responses: Vec<InlinedResponse>,
}

/// Output of a batch job: inline responses or a JSONL file.
#[derive(Debug, Clone)]
pub struct BatchOutputConfig {
    /// Inline responses.
    pub inlined_responses: Option<InlinedResponses>,
    /// Name of a JSONL output file.
    pub file_name: Option<String>,
}

/// A batch job.
#[derive(Debug, Clone)]
pub struct BatchJob {
    /// Resource name, such as `batches/abc123`.
    pub name: String,
    /// Display name.
    pub display_name: Option<String>,
    /// Current state.
    pub state: BatchJobState,
    /// Creation time.
    pub create_time: Option<String>,
    /// Update time.
    pub update_time: Option<String>,
    /// Error details, when the job failed.
    pub error: Option<BatchError>,
    /// Input configuration.
    pub src: Option<crate::client::requests::BatchInputConfig>,
    /// Output of the older API (`dest`).
    pub dest: Option<BatchOutputConfig>,
    /// Output of the newer API (`output`).
    pub output: Option<BatchOutputConfig>,
}

/// The inline responses of an output, if it has them.
pub open spec fn inline_responses_of(o: Option<BatchOutputConfig>) -> Option<Seq<InlinedResponse>> {
    match o {
        Some(c) => match c.inlined_responses {
            Some(r) => Some(r.inlined_responses@),
            None => None,
        },
        None => None,
    }
}

/// The output file of an output, if it names one.
pub open spec fn output_file_of(o: Option<BatchOutputConfig>) -> Option<Seq<char>> {
    match o {
        Some(c) => opt_view(c.file_name),
        None => None,
    }
}

impl BatchJob {
    /// The job is done: it succeeded, failed or was cancelled.
    pub open spec fn complete(self) -> bool {
        ||| self.state == BatchJobState::BatchStateSucceeded
        ||| self.state == BatchJobState::BatchStateFailed
        ||| self.state == BatchJobState::BatchStateCancelled
    }

    /// Whether the job is waiting to be processed.
    pub fn is_pending(&self) -> (b: bool)
        ensures
            b == (self.state == BatchJobState::BatchStatePending),
    {
        self.state == BatchJobState::BatchStatePending
    }

    /// Whether the job is being processed.
    pub fn is_running(&self) -> (b: bool)
        ensures
            b == (self.state == BatchJobState::BatchStateRunning),
    {
        self.state == BatchJobState::BatchStateRunning
    }

    /// Whether the job completed successfully.
    pub fn succeeded(&self) -> (b: bool)
        ensures
            b == (self.state == BatchJobState::BatchStateSucceeded),
    {
        self.state == BatchJobState::BatchStateSucceeded
    }

    /// Whether the job failed.
    pub fn failed(&self) -> (b: bool)
        ensures
            b == (self.state == BatchJobState::BatchStateFailed),
    {
        self.state == BatchJobState::BatchStateFailed
    }

    /// Whether the job was cancelled.
    pub fn cancelled(&self) -> (b: bool)
        ensures
            b == (self.state == BatchJobState::BatchStateCancelled),
    {
        self.state == BatchJobState::BatchStateCancelled
    }

    /// Whether the job is done: it succeeded, failed or was cancelled.
    pub fn is_complete(&self) -> (b: bool)
        ensures
            b == self.complete(),
    {
        match self.state {
            BatchJobState::BatchStateSucceeded => true,
            BatchJobState::BatchStateFailed => true,
            BatchJobState::BatchStateCancelled => true,
            _ => false,
        }
    }

    /// The inline responses: those of `output` (newer API) when it has them, else
    /// those of `dest` (older API).
    pub open spec fn responses_spec(self) -> Option<Seq<InlinedResponse>> {
        match inline_responses_of(self.output) {
            Some(r) => Some(r),
            None => inline_responses_of(self.dest),
        }
    }

    /// The responses of a job whose output holds inline responses are those,
    /// whatever its `dest` holds; only when the output holds none do the inline
    /// responses of `dest` count; with neither there are none.
    pub proof fn lemma_batch_responses(job: BatchJob)
        ensures
            (job.output is Some && job.output->0.inlined_responses is Some) ==> job.responses_spec()
                == Some(job.output->0.inlined_responses->0.inlined_responses@),
            (job.output is Some && job.output->0.inlined_responses is Some) ==> forall|
                d: Option<BatchOutputConfig>,
            | #[trigger] (BatchJob { dest: d, ..job }).responses_spec() == job.responses_spec(),
            (!(job.output is Some && job.output->0.inlined_responses is Some) && job.dest is Some
                && job.dest->0.inlined_responses is Some) ==> job.responses_spec()
                == Some(job.dest->0.inlined_responses->0.inlined_responses@),
            (!(job.output is Some && job.output->0.inlined_responses is Some) && !(job.dest is Some
                && job.dest->0.inlined_responses is Some)) ==> job.responses_spec() is None,
    {
    }

    /// The inline responses, as [`BatchJob::responses_spec`] says: those of the
    /// output, else those of `dest`.
    pub fn responses(&self) -> (r: Option<&Vec<InlinedResponse>>)
        ensures
            match r {
                Some(v) => self.responses_spec() == Some(v@),
                None => self.responses_spec() is None,
            },
            (self.output is Some && self.output->0.inlined_responses is Some) ==> (r is Some && r->0@
                == self.output->0.inlined_responses->0.inlined_responses@),
    {
        proof {
            BatchJob::lemma_batch_responses(*self);
        }
        if let Some(o) = &self.output {
            if let Some(r) = &o.inlined_responses {
                return Some(&r.inlined_responses);
            }
        }
        if let Some(d) = &self.dest {
            if let Some(r) = &d.inlined_responses {
                return Some(&r.inlined_responses);
            }
        }
        None
    }

    /// The output file: that of `output` when it names one, else that of `dest`.
    pub open spec fn output_file_spec(self) -> Option<Seq<char>> {
        match output_file_of(self.output) {
            Some(f) => Some(f),
            None => output_file_of(self.dest),
        }
    }

    /// The output file of a file-based batch, as [`BatchJob::output_file_spec`] says.
    pub fn output_file(&self) -> (r: Option<&str>)
        ensures
            match r {
                Some(s) => self.output_file_spec() == Some(s@),
                None => self.output_file_spec() is None,
            },
    {
        if let Some(o) = &self.output {
            if let Some(f) = &o.file_name {
                return Some(f.as_str());
            }
        }
        if let Some(d) = &self.dest {
            if let Some(f) = &d.file_name {
                return Some(f.as_str());
            }
        }
        None
    }
}

/// A page of batch jobs.
#[derive(Debug, Clone)]
pub struct ListBatchJobsResponse {
    /// The jobs.
    pub batch_jobs: Vec<BatchJob>,
    /// Token of the next page.
    pub next_page_token: Option<String>,
}

/// An error of a long-running operation.
#[derive(Debug, Clone)]
pub struct OperationError {
    /// Error code.
    pub code: i32,
    /// Error message.
    pub message: String,
}

/// A video file.
#[derive(Debug, Clone)]
pub struct VideoFile {
    /// URI to download the video from.
    pub uri: Option<String>,
    /// Bytes of the video, once downloaded.
    pub video_bytes: Option<Vec<u8>>,
}

/// A generated video.
#[derive(Debug, Clone)]
pub struct GeneratedVideo {
    /// The video file.
    pub video: VideoFile,
}

/// The result of video generation.
#[derive(Debug, Clone)]
pub struct GenerateVideosResponse {
    /// The generated videos.
    pub generated_videos: Vec<GeneratedVideo>,
}

/// A long-running operation of video generation.
#[derive(Debug, Clone)]
pub struct VideoOperation {
    /// Name of the operation.
    pub name: String,
    /// Whether it is done.
    pub done: bool,
    /// Its error, when it failed.
    pub error: Option<OperationError>,
    /// Its result, when it succeeded.
    pub response: Option<GenerateVideosResponse>,
}

} // verus!
