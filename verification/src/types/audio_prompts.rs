//! Prompts for common audio tasks. One second of audio is 32 tokens; a prompt
//! holds at most 9.5 hours of WAV, MP3, AIFF, AAC, OGG or FLAC audio.
use vstd::prelude::*;
use crate::text::{concat2, owned};

verus! {

/// A transcript of the speech.
pub const TRANSCRIBE: &'static str = "Generate a transcript of the speech.";

/// A description of the audio.
pub const DESCRIBE: &'static str = "Describe this audio clip.";

/// A summary of the audio.
pub const SUMMARIZE: &'static str = "Summarize the main points from this audio.";

/// The speakers in the audio.
pub const IDENTIFY_SPEAKERS: &'static str = "Identify the different speakers in this audio and describe their voices.";

/// The sounds that are not speech.
pub const DETECT_SOUNDS: &'static str = "Identify all non-speech sounds in this audio (music, ambient noise, sound effects, etc.).";

/// The sentiment of the speech.
pub const ANALYZE_SENTIMENT: &'static str = "Analyze the sentiment and emotional tone of the speakers in this audio.";

/// A transcript with speaker labels.
pub const TRANSCRIBE_WITH_SPEAKERS: &'static str = "Generate a transcript of the speech, labeling each speaker (e.g., Speaker 1, Speaker 2).";

/// Key moments with timestamps.
pub const KEY_MOMENTS: &'static str = "List the key moments or topics discussed in this audio with their timestamps (MM:SS format).";

/// A prompt for a transcript of the time range from `start` to `end` (MM:SS).
pub fn transcribe_range(start: &str, end: &str) -> (r: String)
    ensures
        r@ == "Provide a transcript of the speech from "@ + start@ + " to "@ + end@ + "."@,
{
    let mut r = owned("Provide a transcript of the speech from ");
    r.append(start);
    r.append(" to ");
    r.append(end);
    r.append(".");
    r
}

/// A prompt to answer the question `q` about the audio.
pub fn question(q: &str) -> (r: String)
    ensures
        r@ == "Listen to the audio and answer: "@ + q@,
{
    concat2("Listen to the audio and answer: ", q)
}

} // verus!
