//! What the API returns: candidates, usage, grounding and model information.
use vstd::prelude::*;
use crate::text::{has_prefix, opt_view, strip_prefix_or_self, without_prefix};
use super::config::SafetyRating;
use super::content::Content;

verus! {

/// Token usage of a generation request.
#[derive(Debug, Clone, Copy)]
pub struct UsageMetadata {
    /// Tokens in the prompt.
    pub prompt_token_count: u32,
    /// Tokens in the response.
    pub candidates_token_count: u32,
    /// Tokens in all.
    pub total_token_count: u32,
    /// Tokens used for thinking.
    pub thoughts_token_count: Option<u32>,
    /// Tokens served from a cache (implicit or explicit caching).
    pub cached_content_token_count: Option<u32>,
}

impl UsageMetadata {
    /// Whether any tokens were served from a cache.
    pub fn has_cache_hit(&self) -> (b: bool)
        ensures
            b == (self.cached_content_token_count is Some && self.cached_content_token_count.unwrap() > 0),
    {
        match self.cached_content_token_count {
            Some(n) => n > 0,
            None => false,
        }
    }
}

/// Why generation stopped.
#[derive(Debug, Clone, Copy, PartialEq, Eq, Structural)]
pub enum FinishReason {
    FinishReasonUnspecified,
    Stop,
    MaxTokens,
    Safety,
    Recitation,
    Language,
    Other,
    Blocklist,
    ProhibitedContent,
    Spii,
    MalformedFunctionCall,
}

/// Entry point of search results.
#[derive(Debug, Clone)]
pub struct SearchEntryPoint {
    /// Rendered HTML content.
    pub rendered_content: Option<String>,
    /// SDK blob of the search entry.
    pub sdk_blob: Option<String>,
}

/// A web source of grounding.
#[derive(Debug, Clone)]
pub struct GroundingChunkWeb {
    /// URI of the source.
    pub uri: String,
    /// Title of the source.
    pub title: Option<String>,
}

/// A chunk of grounding content.
#[derive(Debug, Clone)]
pub struct GroundingChunk {
    /// The web source.
    pub web: Option<GroundingChunkWeb>,
}

/// A segment of grounded text.
#[derive(Debug, Clone)]
pub struct GroundingSegment {
    /// Start index in the text.
    pub start_index: Option<u32>,
    /// End index in the text.
    pub end_index: Option<u32>,
    /// The text.
    pub text: Option<String>,
}

/// A citation of grounded content.
#[derive(Debug, Clone)]
pub struct GroundingSupport {
    /// The supported segment of text.
    pub segment: Option<GroundingSegment>,
    /// Indices into the grounding chunks.
    pub grounding_chunk_indices: Vec<u32>,
    /// Confidence scores, each the text of a JSON number.
    pub confidence_scores: Vec<String>,
}

/// Grounding in outside sources.
#[derive(Debug, Clone)]
pub struct GroundingMetadata {
    /// Search entry point (Google Search).
    pub search_entry_point: Option<SearchEntryPoint>,
    /// Source documents.
    pub grounding_chunks: Option<Vec<GroundingChunk>>,
    /// Citations.
    pub grounding_supports: Option<Vec<GroundingSupport>>,
    /// Web search queries used.
    pub web_search_queries: Option<Vec<String>>,
}

/// A generation candidate.
#[derive(Debug, Clone)]
pub struct Candidate {
    /// The generated content.
    pub content: Option<Content>,
    /// Why generation stopped.
    pub finish_reason: Option<FinishReason>,
    /// Safety ratings of the content.
    pub safety_ratings: Vec<SafetyRating>,
    /// Index of this candidate.
    pub index: u32,
    /// Grounding metadata from search or URL context.
    pub grounding_metadata: Option<GroundingMetadata>,
}

impl Candidate {
    /// The text of the first part of the content: `None` without content, without
    /// parts or when the first part has no text.
    pub open spec fn text_spec(self) -> Option<Seq<char>> {
        match self.content {
            Some(c) => if c.parts@.len() > 0 {
                opt_view(c.parts@[0].text)
            } else {
                None
            },
            None => None,
        }
    }

    /// A candidate whose content has a first part with text reads as that text,
    /// whatever its finish reason, safety ratings, index or grounding are; one
    /// without content, without parts or with no text in its first part reads as
    /// nothing.
    pub proof fn lemma_candidate_text(c: Candidate)
        ensures
            (c.content is Some && c.content->0.parts@.len() > 0 && c.content->0.parts@[0].text is Some)
                ==> c.text_spec() == Some(c.content->0.parts@[0].text->0@),
            c.content is None ==> c.text_spec() is None,
            (c.content is Some && (c.content->0.parts@.len() == 0 || c.content->0.parts@[0].text is None))
                ==> c.text_spec() is None,
            forall|f: Option<FinishReason>| #[trigger] (Candidate { finish_reason: f, ..c }).text_spec()
                == c.text_spec(),
    {
    }

    /// The text of this candidate, as [`Candidate::text_spec`] says: that of the
    /// first part of its content.
    pub fn text(&self) -> (r: Option<&str>)
        ensures
            match r {
                Some(s) => self.text_spec() == Some(s@),
                None => self.text_spec() is None,
            },
            (self.content is Some && self.content->0.parts@.len() > 0
                && self.content->0.parts@[0].text is Some)
                ==> (r is Some && r->0@ == self.content->0.parts@[0].text->0@),
    {
        proof {
            Candidate::lemma_candidate_text(*self);
        }
        match &self.content {
            Some(c) => if c.parts.len() > 0 {
                match &c.parts[0].text {
                    Some(t) => Some(t.as_str()),
                    None => None,
                }
            } else {
                None
            },
            None => None,
        }
    }
}

/// Information about a Gemini model.
///
/// Default sampling values are held as the text of a JSON number.
#[derive(Debug, Clone)]
pub struct Model {
    /// Resource name, such as `models/gemini-2.5-flash`.
    pub name: String,
    /// Base model ID.
    pub base_model_id: Option<String>,
    /// Model version.
    pub version: String,
    /// Display name.
    pub display_name: String,
    /// Description.
    pub description: String,
    /// Largest number of input tokens.
    pub input_token_limit: u32,
    /// Largest number of output tokens.
    pub output_token_limit: u32,
    /// Supported generation methods.
    pub supported_generation_methods: Vec<String>,
    /// Default temperature.
    pub temperature: Option<String>,
    /// Largest temperature.
    pub max_temperature: Option<String>,
    /// Default top-p.
    pub top_p: Option<String>,
    /// Default top-k.
    pub top_k: Option<i32>,
}

impl Model {
    /// The short model ID: the name without its `models/` prefix.
    pub fn id(&self) -> (r: &str)
        ensures
            r@ == without_prefix(self.name@, "models/"@),
    {
        strip_prefix_or_self(self.name.as_str(), "models/")
    }
}

/// Removing a prefix and putting it back gives the name again; a name without the
/// prefix is left as it is.
pub proof fn lemma_prefix_round_trip(s: Seq<char>, p: Seq<char>)
    ensures
        has_prefix(s, p) ==> p + without_prefix(s, p) == s,
        !has_prefix(s, p) ==> without_prefix(s, p) == s,
{
    if has_prefix(s, p) {
        assert(p + s.skip(p.len() as int) =~= s);
    }
}

} // verus!
