use base64::Engine;
use gemini_client::json::JsonValue;
use gemini_client::{thought_signatures, Content, MediaResolution, Part, VideoMetadata};

fn text_of(p: &Part) -> Option<&str> {
    p.text.as_deref()
}

#[test]
fn text_part_has_only_text() {
    let p = Part::text("hello");
    assert_eq!(text_of(&p), Some("hello"));
    assert!(p.inline_data.is_none());
    assert!(p.file_data.is_none());
    assert!(p.thought_signature.is_none());
    assert!(!p.is_thought());
}

#[test]
fn user_content_is_new_with_user_role() {
    let a = Content::user("hi");
    let b = Content::new("user", "hi");
    assert_eq!(a.role.as_deref(), Some("user"));
    assert_eq!(a.role, b.role);
    assert_eq!(a.parts.len(), 1);
    assert_eq!(text_of(&a.parts[0]), text_of(&b.parts[0]));
    assert_eq!(Content::model("x").role.as_deref(), Some("model"));
    assert!(Content::system("be brief").role.is_none());
}

#[test]
fn user_with_file_references_the_file() {
    let c = Content::user_with_file("https://example.com/f", "audio/mp3");
    let f = c.parts[0].file_data.as_ref().unwrap();
    assert_eq!(f.file_uri, "https://example.com/f");
    assert_eq!(f.mime_type, "audio/mp3");
    assert_eq!(c.role.as_deref(), Some("user"));
}

#[test]
fn user_with_text_and_file_puts_file_first() {
    let c = Content::user_with_text_and_file("Describe", "files/abc", "image/png");
    assert_eq!(c.parts.len(), 2);
    assert_eq!(c.parts[0].file_data.as_ref().unwrap().file_uri, "files/abc");
    assert_eq!(text_of(&c.parts[1]), Some("Describe"));
}

#[test]
fn add_part_and_add_file_append() {
    let c = Content::user("a").add_part(Part::text("b")).add_file("files/x", "video/mp4");
    assert_eq!(c.parts.len(), 3);
    assert_eq!(text_of(&c.parts[1]), Some("b"));
    let f = c.parts[2].file_data.as_ref().unwrap();
    assert_eq!(f.file_uri, "files/x");
    assert_eq!(f.mime_type, "video/mp4");
}

#[test]
fn pdf_bytes_base64_encodes() {
    let p = Part::pdf_bytes(b"hello");
    let blob = p.inline_data.unwrap();
    assert_eq!(blob.mime_type, "application/pdf");
    assert_eq!(blob.data, "aGVsbG8=");
}

#[test]
fn base64_padding_cases() {
    assert_eq!(Part::wav(b"").inline_data.unwrap().data, "");
    assert_eq!(Part::wav(b"f").inline_data.unwrap().data, "Zg==");
    assert_eq!(Part::wav(b"fo").inline_data.unwrap().data, "Zm8=");
    assert_eq!(Part::wav(b"foo").inline_data.unwrap().data, "Zm9v");
    assert_eq!(Part::wav(b"foobar").inline_data.unwrap().data, "Zm9vYmFy");
    assert_eq!(Part::wav(&[0xfb, 0xff]).inline_data.unwrap().data, "+/8=");
}

#[test]
fn audio_helpers_set_mime_types() {
    assert_eq!(Part::mp3(b"x").inline_data.unwrap().mime_type, "audio/mp3");
    assert_eq!(Part::wav(b"x").inline_data.unwrap().mime_type, "audio/wav");
    assert_eq!(Part::aac(b"x").inline_data.unwrap().mime_type, "audio/aac");
    assert_eq!(Part::ogg(b"x").inline_data.unwrap().mime_type, "audio/ogg");
    assert_eq!(Part::flac(b"x").inline_data.unwrap().mime_type, "audio/flac");
    assert_eq!(Part::aiff(b"x").inline_data.unwrap().mime_type, "audio/aiff");
    let a = Part::audio_bytes("audio/mp3", b"abc").inline_data.unwrap();
    let b = Part::mp3(b"abc").inline_data.unwrap();
    assert_eq!(a.data, b.data);
    assert_eq!(a.data, "YWJj");
}

#[test]
fn pdf_and_audio_keep_base64_text() {
    let p = Part::pdf("JVBERi0=");
    assert_eq!(p.inline_data.unwrap().data, "JVBERi0=");
    let a = Part::audio("audio/ogg", "T2dn");
    assert_eq!(a.inline_data.unwrap().mime_type, "audio/ogg");
}

#[test]
fn youtube_parts() {
    let p = Part::youtube("https://www.youtube.com/watch?v=ID");
    let f = p.file_data.unwrap();
    assert_eq!(f.mime_type, "video/*");
    assert_eq!(f.file_uri, "https://www.youtube.com/watch?v=ID");
    let c = Part::youtube_clip("https://youtu.be/x", "40s", "80s");
    let m = c.video_metadata.unwrap();
    assert_eq!(m.start_offset.as_deref(), Some("40s"));
    assert_eq!(m.end_offset.as_deref(), Some("80s"));
    assert!(m.fps.is_none());
}

#[test]
fn video_metadata_builders() {
    let m = VideoMetadata::new().start("1s").end("2s").with_fps("0.5");
    assert_eq!(m.start_offset.as_deref(), Some("1s"));
    assert_eq!(m.end_offset.as_deref(), Some("2s"));
    assert_eq!(m.fps.as_deref(), Some("0.5"));
    let c = VideoMetadata::clip("10s", "20s");
    assert_eq!(c.start_offset.as_deref(), Some("10s"));
    let p = Part::text("t").with_video_metadata(c);
    assert_eq!(p.video_metadata.unwrap().end_offset.as_deref(), Some("20s"));
}

#[test]
fn thought_signature_round_trip() {
    let p = Part::text("Custom function call context").with_thought_signature(thought_signatures::SKIP_VALIDATION);
    assert!(p.has_thought_signature());
    assert_eq!(p.get_thought_signature(), Some("skip_thought_signature_validator"));
    assert_eq!(text_of(&p), Some("Custom function call context"));
    assert!(!Part::text("x").has_thought_signature());
    assert_eq!(Part::text("x").get_thought_signature(), None);
}

#[test]
fn is_thought_reads_the_flag() {
    let mut p = Part::text("t");
    assert!(!p.is_thought());
    p.thought = Some(true);
    assert!(p.is_thought());
    p.thought = Some(false);
    assert!(!p.is_thought());
}

#[test]
fn inline_data_with_resolution_sets_level() {
    let p = Part::inline_data_with_resolution("image/png", "AAAA", MediaResolution::MediaResolutionHigh);
    assert_eq!(p.media_resolution.unwrap().level, MediaResolution::MediaResolutionHigh);
    assert_eq!(p.inline_data.unwrap().data, "AAAA");
}

#[test]
fn function_response_part() {
    let p = Part::function_response("get_weather", JsonValue::Bool(true));
    let r = p.function_response.unwrap();
    assert_eq!(r.name, "get_weather");
    assert!(matches!(r.response, JsonValue::Bool(true)));
    assert!(p.text.is_none());
}

#[test]
fn byte_parts_decode_to_their_bytes() {
    let engine = base64::engine::general_purpose::STANDARD;
    for data in [&b""[..], b"a", b"ab", b"abc", b"%PDF-1.7\n\xff\x00\x80binary"] {
        let p = Part::pdf_bytes(data);
        let blob = p.inline_data.expect("inline data");
        assert_eq!(blob.mime_type, "application/pdf");
        assert_eq!(blob.data.len(), 4 * ((data.len() + 2) / 3));
        assert_eq!(engine.decode(&blob.data).unwrap(), data.to_vec());
        let a = Part::wav(data).inline_data.expect("inline data");
        assert_eq!(a.mime_type, "audio/wav");
        assert_eq!(engine.decode(&a.data).unwrap(), data.to_vec());
    }
}
