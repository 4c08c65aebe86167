//! Content for the model: parts of text, inline data and file references.
use vstd::prelude::*;
use crate::encoding::{
    base64_decode, base64_encode, encodable, encode_base64, lemma_base64_len, lemma_base64_round_trip,
};
use crate::json::JsonValue;
use crate::text::{opt_view, owned};

verus! {

/// Binary data with its MIME type.
#[derive(Debug, Clone)]
pub struct Blob {
    /// MIME type of the data.
    pub mime_type: String,
    /// Base64-encoded data.
    pub data: String,
}

/// Reference to a file in the API.
#[derive(Debug, Clone)]
pub struct FileData {
    /// MIME type of the file.
    pub mime_type: String,
    /// URI of the file (a File API URI or a YouTube URL).
    pub file_uri: String,
}

/// Video metadata for clipping intervals and frame rate control.
#[derive(Debug, Clone)]
pub struct VideoMetadata {
    /// Start offset for clipping, such as `"1250s"`.
    pub start_offset: Option<String>,
    /// End offset for clipping, such as `"1570s"`.
    pub end_offset: Option<String>,
    /// Custom frame rate for sampling, as the text of a JSON number (such as `"0.5"`).
    /// The default is one frame per second.
    pub fps: Option<String>,
}

/// Media resolution levels, which trade detail against tokens (Gemini 3).
#[derive(Debug, Clone, Copy, PartialEq, Eq, Structural)]
pub enum MediaResolution {
    /// 280 tokens for images, 70 tokens per video frame.
    MediaResolutionLow,
    /// 560 tokens for images, 70 tokens per video frame.
    MediaResolutionMedium,
    /// 1120 tokens for images, 280 tokens per video frame.
    MediaResolutionHigh,
}

/// Configuration for media resolution.
#[derive(Debug, Clone, Copy)]
pub struct MediaResolutionConfig {
    /// The resolution level.
    pub level: MediaResolution,
}

/// A function call made by the model.
#[derive(Debug, Clone)]
pub struct FunctionCall {
    /// Name of the function to call.
    pub name: String,
    /// Arguments to pass to the function.
    pub args: JsonValue,
}

/// The response to a function call.
#[derive(Debug, Clone)]
pub struct FunctionResponse {
    /// Name of the function that was called.
    pub name: String,
    /// What the function returned.
    pub response: JsonValue,
}

/// A part of content: text, inline data, a file reference, or a function call or
/// response.
#[derive(Debug, Clone)]
pub struct Part {
    /// Text content.
    pub text: Option<String>,
    /// Inline binary data.
    pub inline_data: Option<Blob>,
    /// Reference to a file.
    pub file_data: Option<FileData>,
    /// Function call made by the model.
    pub function_call: Option<FunctionCall>,
    /// Response to a function call.
    pub function_response: Option<FunctionResponse>,
    /// Thought signature that keeps the reasoning context (Gemini 3).
    pub thought_signature: Option<String>,
    /// Media resolution for images and video (Gemini 3).
    pub media_resolution: Option<MediaResolutionConfig>,
    /// Whether this part is a thought (intermediate reasoning).
    pub thought: Option<bool>,
    /// Video metadata for clipping and frame rate.
    pub video_metadata: Option<VideoMetadata>,
}

/// Content for the model: a prompt or a response.
#[derive(Debug, Clone)]
pub struct Content {
    /// The parts that make up the content.
    pub parts: Vec<Part>,
    /// The role of the content's author (`user` or `model`); system instructions have none.
    pub role: Option<String>,
}

/// The MIME type and data of a blob.
pub open spec fn blob_view(b: Option<Blob>) -> Option<(Seq<char>, Seq<char>)> {
    match b {
        Some(b) => Some((b.mime_type@, b.data@)),
        None => None,
    }
}

/// The MIME type and URI of a file reference.
pub open spec fn file_view(f: Option<FileData>) -> Option<(Seq<char>, Seq<char>)> {
    match f {
        Some(f) => Some((f.mime_type@, f.file_uri@)),
        None => None,
    }
}

/// The start offset, end offset and frame rate of video metadata.
pub open spec fn video_view(v: VideoMetadata) -> (Option<Seq<char>>, Option<Seq<char>>, Option<Seq<char>>) {
    (opt_view(v.start_offset), opt_view(v.end_offset), opt_view(v.fps))
}

impl VideoMetadata {
    /// Metadata with nothing set.
    pub fn new() -> (r: Self)
        ensures
            r == (VideoMetadata { start_offset: None, end_offset: None, fps: None }),
    {
        VideoMetadata { start_offset: None, end_offset: None, fps: None }
    }

    /// A clipping interval; offsets are in seconds, such as `"40s"`.
    pub fn clip(start: &str, end: &str) -> (r: Self)
        ensures
            video_view(r) == (Some(start@), Some(end@), None::<Seq<char>>),
    {
        VideoMetadata { start_offset: Some(owned(start)), end_offset: Some(owned(end)), fps: None }
    }

    /// Sets the frame rate, given as the text of a JSON number.
    pub fn with_fps(self, fps: &str) -> (r: Self)
        ensures
            r == (VideoMetadata { fps: r.fps, ..self }),
            opt_view(r.fps) == Some(fps@),
    {
        VideoMetadata { fps: Some(owned(fps)), ..self }
    }

    /// Sets the start offset.
    pub fn start(self, offset: &str) -> (r: Self)
        ensures
            r == (VideoMetadata { start_offset: r.start_offset, ..self }),
            opt_view(r.start_offset) == Some(offset@),
    {
        VideoMetadata { start_offset: Some(owned(offset)), ..self }
    }

    /// Sets the end offset.
    pub fn end(self, offset: &str) -> (r: Self)
        ensures
            r == (VideoMetadata { end_offset: r.end_offset, ..self }),
            opt_view(r.end_offset) == Some(offset@),
    {
        VideoMetadata { end_offset: Some(owned(offset)), ..self }
    }
}

impl Default for VideoMetadata {
    fn default() -> (r: Self)
        ensures
            r == (VideoMetadata { start_offset: None, end_offset: None, fps: None }),
    {
        VideoMetadata::new()
    }
}

impl Part {
    /// A part with nothing set.
    pub open spec fn blank() -> Part {
        Part {
            text: None,
            inline_data: None,
            file_data: None,
            function_call: None,
            function_response: None,
            thought_signature: None,
            media_resolution: None,
            thought: None,
            video_metadata: None,
        }
    }

    /// `p` is a text part with the text `t` and nothing else.
    pub open spec fn is_text(p: Part, t: Seq<char>) -> bool {
        &&& p == (Part { text: p.text, ..Part::blank() })
        &&& opt_view(p.text) == Some(t)
    }

    /// `p` is an inline data part with the MIME type `mime` and the data `data`, and
    /// nothing else.
    pub open spec fn is_inline(p: Part, mime: Seq<char>, data: Seq<char>) -> bool {
        &&& p == (Part { inline_data: p.inline_data, ..Part::blank() })
        &&& blob_view(p.inline_data) == Some((mime, data))
    }

    /// `p` is a file part with the MIME type `mime` and the URI `uri`, and nothing else.
    pub open spec fn is_file(p: Part, mime: Seq<char>, uri: Seq<char>) -> bool {
        &&& p == (Part { file_data: p.file_data, ..Part::blank() })
        &&& file_view(p.file_data) == Some((mime, uri))
    }

    /// A text part.
    pub fn text(text: &str) -> (r: Self)
        ensures
            Part::is_text(r, text@),
    {
        Part {
            text: Some(owned(text)),
            inline_data: None,
            file_data: None,
            function_call: None,
            function_response: None,
            thought_signature: None,
            media_resolution: None,
            thought: None,
            video_metadata: None,
        }
    }

    /// An inline data part.
    pub fn inline_data(mime_type: &str, data: &str) -> (r: Self)
        ensures
            Part::is_inline(r, mime_type@, data@),
    {
        Part {
            text: None,
            inline_data: Some(Blob { mime_type: owned(mime_type), data: owned(data) }),
            file_data: None,
            function_call: None,
            function_response: None,
            thought_signature: None,
            media_resolution: None,
            thought: None,
            video_metadata: None,
        }
    }

    /// A file data part.
    pub fn file_data(mime_type: &str, file_uri: &str) -> (r: Self)
        ensures
            Part::is_file(r, mime_type@, file_uri@),
    {
        Part {
            text: None,
            inline_data: None,
            file_data: Some(FileData { mime_type: owned(mime_type), file_uri: owned(file_uri) }),
            function_call: None,
            function_response: None,
            thought_signature: None,
            media_resolution: None,
            thought: None,
            video_metadata: None,
        }
    }

    /// A YouTube video part, such as `Part::youtube("https://www.youtube.com/watch?v=ID")`.
    pub fn youtube(url: &str) -> (r: Self)
        ensures
            Part::is_file(r, "video/*"@, url@),
    {
        Part::file_data("video/*", url)
    }

    /// A clip of a YouTube video; `start` and `end` are in seconds, such as `"1250s"`.
    pub fn youtube_clip(url: &str, start: &str, end: &str) -> (r: Self)
        ensures
            r == (Part { file_data: r.file_data, video_metadata: r.video_metadata, ..Part::blank() }),
            file_view(r.file_data) == Some(("video/*"@, url@)),
            r.video_metadata is Some,
            video_view(r.video_metadata.unwrap()) == (Some(start@), Some(end@), None::<Seq<char>>),
    {
        let p = Part::file_data("video/*", url);
        Part { video_metadata: Some(VideoMetadata::clip(start, end)), ..p }
    }

    /// A PDF document part from base64-encoded data.
    pub fn pdf(base64_data: &str) -> (r: Self)
        ensures
            Part::is_inline(r, "application/pdf"@, base64_data@),
    {
        Part::inline_data("application/pdf", base64_data)
    }

    /// A PDF document part from raw bytes, which it base64-encodes.
    pub fn pdf_bytes(data: &[u8]) -> (r: Self)
        requires
            encodable(data@.len()),
        ensures
            Part::is_inline(r, "application/pdf"@, base64_encode(data@)),
            base64_decode(r.inline_data.unwrap().data@) == data@,
            r.inline_data.unwrap().data@.len() == (data@.len() + 2) / 3 * 4,
    {
        proof {
            lemma_base64_round_trip(data@);
            lemma_base64_len(data@);
        }
        let encoded = encode_base64(data);
        Part::inline_data("application/pdf", encoded.as_str())
    }

    /// An audio part from raw bytes, which it base64-encodes.
    pub fn audio_bytes(mime_type: &str, data: &[u8]) -> (r: Self)
        requires
            encodable(data@.len()),
        ensures
            Part::is_inline(r, mime_type@, base64_encode(data@)),
            base64_decode(r.inline_data.unwrap().data@) == data@,
            r.inline_data.unwrap().data@.len() == (data@.len() + 2) / 3 * 4,
    {
        proof {
            lemma_base64_round_trip(data@);
            lemma_base64_len(data@);
        }
        let encoded = encode_base64(data);
        Part::inline_data(mime_type, encoded.as_str())
    }

    /// An MP3 audio part from raw bytes.
    pub fn mp3(data: &[u8]) -> (r: Self)
        requires
            encodable(data@.len()),
        ensures
            Part::is_inline(r, "audio/mp3"@, base64_encode(data@)),
            base64_decode(r.inline_data.unwrap().data@) == data@,
            r.inline_data.unwrap().data@.len() == (data@.len() + 2) / 3 * 4,
    {
        Part::audio_bytes("audio/mp3", data)
    }

    /// A WAV audio part from raw bytes.
    pub fn wav(data: &[u8]) -> (r: Self)
        requires
            encodable(data@.len()),
        ensures
            Part::is_inline(r, "audio/wav"@, base64_encode(data@)),
            base64_decode(r.inline_data.unwrap().data@) == data@,
            r.inline_data.unwrap().data@.len() == (data@.len() + 2) / 3 * 4,
    {
        Part::audio_bytes("audio/wav", data)
    }

    /// An AAC audio part from raw bytes.
    pub fn aac(data: &[u8]) -> (r: Self)
        requires
            encodable(data@.len()),
        ensures
            Part::is_inline(r, "audio/aac"@, base64_encode(data@)),
            base64_decode(r.inline_data.unwrap().data@) == data@,
            r.inline_data.unwrap().data@.len() == (data@.len() + 2) / 3 * 4,
    {
        Part::audio_bytes("audio/aac", data)
    }

    /// An OGG Vorbis audio part from raw bytes.
    pub fn ogg(data: &[u8]) -> (r: Self)
        requires
            encodable(data@.len()),
        ensures
            Part::is_inline(r, "audio/ogg"@, base64_encode(data@)),
            base64_decode(r.inline_data.unwrap().data@) == data@,
            r.inline_data.unwrap().data@.len() == (data@.len() + 2) / 3 * 4,
    {
        Part::audio_bytes("audio/ogg", data)
    }

    /// A FLAC audio part from raw bytes.
    pub fn flac(data: &[u8]) -> (r: Self)
        requires
            encodable(data@.len()),
        ensures
            Part::is_inline(r, "audio/flac"@, base64_encode(data@)),
            base64_decode(r.inline_data.unwrap().data@) == data@,
            r.inline_data.unwrap().data@.len() == (data@.len() + 2) / 3 * 4,
    {
        Part::audio_bytes("audio/flac", data)
    }

    /// An AIFF audio part from raw bytes.
    pub fn aiff(data: &[u8]) -> (r: Self)
        requires
            encodable(data@.len()),
        ensures
            Part::is_inline(r, "audio/aiff"@, base64_encode(data@)),
            base64_decode(r.inline_data.unwrap().data@) == data@,
            r.inline_data.unwrap().data@.len() == (data@.len() + 2) / 3 * 4,
    {
        Part::audio_bytes("audio/aiff", data)
    }

    /// An audio part from base64-encoded data, such as `audio/wav` or `audio/mp3`.
    pub fn audio(mime_type: &str, base64_data: &str) -> (r: Self)
        ensures
            Part::is_inline(r, mime_type@, base64_data@),
    {
        Part::inline_data(mime_type, base64_data)
    }

    /// An inline data part with a media resolution (Gemini 3).
    pub fn inline_data_with_resolution(mime_type: &str, data: &str, resolution: MediaResolution) -> (r: Self)
        ensures
            r == (Part {
                inline_data: r.inline_data,
                media_resolution: Some(MediaResolutionConfig { level: resolution }),
                ..Part::blank()
            }),
            blob_view(r.inline_data) == Some((mime_type@, data@)),
    {
        let p = Part::inline_data(mime_type, data);
        Part { media_resolution: Some(MediaResolutionConfig { level: resolution }), ..p }
    }

    /// Sets the video metadata of this part.
    pub fn with_video_metadata(self, metadata: VideoMetadata) -> (r: Self)
        ensures
            r == (Part { video_metadata: Some(metadata), ..self }),
    {
        Part { video_metadata: Some(metadata), ..self }
    }

    /// Whether this part is a thought; a part that does not say is none.
    pub fn is_thought(&self) -> (b: bool)
        ensures
            b == (self.thought == Some(true)),
    {
        match self.thought {
            Some(t) => t,
            None => false,
        }
    }

    /// Sets the thought signature, which Gemini 3 Pro function calling needs back
    /// exactly as it was received.
    pub fn with_thought_signature(self, signature: &str) -> (r: Self)
        ensures
            r == (Part { thought_signature: r.thought_signature, ..self }),
            opt_view(r.thought_signature) == Some(signature@),
    {
        Part { thought_signature: Some(owned(signature)), ..self }
    }

    /// Whether this part has a thought signature.
    pub fn has_thought_signature(&self) -> (b: bool)
        ensures
            b == self.thought_signature is Some,
    {
        self.thought_signature.is_some()
    }

    /// The thought signature, if any.
    pub fn get_thought_signature(&self) -> (r: Option<&str>)
        ensures
            match r {
                Some(s) => opt_view(self.thought_signature) == Some(s@),
                None => self.thought_signature is None,
            },
    {
        match &self.thought_signature {
            Some(s) => Some(s.as_str()),
            None => None,
        }
    }

    /// A function response part.
    pub fn function_response(name: &str, response: JsonValue) -> (r: Self)
        ensures
            r == (Part { function_response: r.function_response, ..Part::blank() }),
            r.function_response is Some,
            r.function_response.unwrap().name@ == name@,
            r.function_response.unwrap().response == response,
    {
        Part {
            text: None,
            inline_data: None,
            file_data: None,
            function_call: None,
            function_response: Some(FunctionResponse { name: owned(name), response }),
            thought_signature: None,
            media_resolution: None,
            thought: None,
            video_metadata: None,
        }
    }
}

impl Content {
    /// `c` has the single text part `t` and the role `role`.
    pub open spec fn is_text_content(c: Content, role: Option<Seq<char>>, t: Seq<char>) -> bool {
        &&& c.parts@.len() == 1
        &&& Part::is_text(c.parts@[0], t)
        &&& opt_view(c.role) == role
    }

    /// Text content with the given role.
    pub fn new(role: &str, text: &str) -> (r: Self)
        ensures
            Content::is_text_content(r, Some(role@), text@),
    {
        Content { parts: vec![Part::text(text)], role: Some(owned(role)) }
    }

    /// Text content of the user.
    pub fn user(text: &str) -> (r: Self)
        ensures
            Content::is_text_content(r, Some("user"@), text@),
    {
        Content::new("user", text)
    }

    /// Text content of the model.
    pub fn model(text: &str) -> (r: Self)
        ensures
            Content::is_text_content(r, Some("model"@), text@),
    {
        Content::new("model", text)
    }

    /// A system instruction: text content without a role.
    pub fn system(text: &str) -> (r: Self)
        ensures
            Content::is_text_content(r, None, text@),
    {
        Content { parts: vec![Part::text(text)], role: None }
    }

    /// User content with a reference to the file `file_uri` of type `mime_type`.
    pub fn user_with_file(file_uri: &str, mime_type: &str) -> (r: Self)
        ensures
            r.parts@.len() == 1,
            Part::is_file(r.parts@[0], mime_type@, file_uri@),
            opt_view(r.role) == Some("user"@),
    {
        Content { parts: vec![Part::file_data(mime_type, file_uri)], role: Some(owned("user")) }
    }

    /// User content with a file reference followed by text.
    pub fn user_with_text_and_file(text: &str, file_uri: &str, mime_type: &str) -> (r: Self)
        ensures
            r.parts@.len() == 2,
            Part::is_file(r.parts@[0], mime_type@, file_uri@),
            Part::is_text(r.parts@[1], text@),
            opt_view(r.role) == Some("user"@),
    {
        Content {
            parts: vec![Part::file_data(mime_type, file_uri), Part::text(text)],
            role: Some(owned("user")),
        }
    }

    /// Appends a part.
    pub fn add_part(self, part: Part) -> (r: Self)
        ensures
            r.parts@ == self.parts@.push(part),
            r.role == self.role,
    {
        let mut c = self;
        c.parts.push(part);
        c
    }

    /// Appends a reference to the file `file_uri` of type `mime_type`.
    pub fn add_file(self, file_uri: &str, mime_type: &str) -> (r: Self)
        ensures
            r.parts@.len() == self.parts@.len() + 1,
            r.parts@.take(self.parts@.len() as int) == self.parts@,
            Part::is_file(r.parts@.last(), mime_type@, file_uri@),
            r.role == self.role,
    {
        let mut c = self;
        let ghost before = c.parts@;
        c.parts.push(Part::file_data(mime_type, file_uri));
        assert(c.parts@.take(before.len() as int) =~= before);
        c
    }
}

impl Default for Content {
    /// Content without parts and without a role.
    fn default() -> (r: Self)
        ensures
            r.parts@.len() == 0 && r.role is None,
    {
        Content { parts: Vec::new(), role: None }
    }
}

} // verus!
