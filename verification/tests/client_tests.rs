use gemini_client::client::endpoints::{
    api_error, batch_poll_step, download_url, embedding_model, endpoint_url, error_message, generate_videos_url,
    list_url, model_url, resource_url, sse_data, stream_url, unwrap_metadata, upload_display_name,
    upload_start_body, upload_url, video_operation_url,
};
use gemini_client::client::files::{find_by_local_path, find_by_remote_name, log_lines, mime_type_for_extension};
use gemini_client::client::video::predict_body;
use gemini_client::time::iso8601_from_unix_seconds;
use gemini_client::{
    chrono_now, mime_from_path, BatchError, BatchJob, BatchJobRequest, BatchJobState, BatchOutputConfig, CachedContent,
    CachedContentUsageMetadata, ClientConfig, CreateCachedContentRequest, EmbedContentRequest, FileMapping,
    FileMetadata, GeminiError, GenerateContentRequest, GenerateVideosRequest, InlinedRequest, InlinedResponse,
    InlinedResponses, JsonValue, TaskType, ThinkingLevel, VideoImage, VideoReferenceImage,
};

fn to_value(j: &JsonValue) -> serde_json::Value {
    match j {
        JsonValue::Null => serde_json::Value::Null,
        JsonValue::Bool(b) => serde_json::Value::Bool(*b),
        JsonValue::Number(n) => serde_json::from_str(n).unwrap(),
        JsonValue::String(s) => serde_json::Value::String(s.clone()),
        JsonValue::Array(a) => serde_json::Value::Array(a.iter().map(to_value).collect()),
        JsonValue::Object(m) => {
            let mut map = serde_json::Map::new();
            for (k, v) in m {
                map.insert(k.clone(), to_value(v));
            }
            serde_json::Value::Object(map)
        }
    }
}

fn obj(pairs: Vec<(&str, JsonValue)>) -> JsonValue {
    JsonValue::Object(pairs.into_iter().map(|(k, v)| (k.to_string(), v)).collect())
}

fn file(name: &str, state: Option<&str>) -> FileMetadata {
    FileMetadata {
        name: name.to_string(),
        display_name: None,
        mime_type: "audio/mpeg".to_string(),
        size_bytes: None,
        create_time: None,
        update_time: None,
        expiration_time: Some("2030-01-01T00:00:00Z".to_string()),
        sha256_hash: None,
        uri: Some(format!("https://example.com/{}", name)),
        state: state.map(|s| s.to_string()),
    }
}

fn job(state: BatchJobState) -> BatchJob {
    BatchJob {
        name: "batches/abc".to_string(),
        display_name: None,
        state,
        create_time: None,
        update_time: None,
        error: None,
        src: None,
        dest: None,
        output: None,
    }
}

#[test]
fn client_config_defaults() {
    let c = ClientConfig::new("KEY");
    assert_eq!(c.api_key, "KEY");
    assert_eq!(c.base_url, "https://generativelanguage.googleapis.com/v1beta");
    assert_eq!(c.default_model, "gemini-2.5-flash");
    assert!(c.proxy.is_none());
    let d = c.with_model("m").with_base_url("http://local").with_proxy("http://127.0.0.1:7890");
    assert_eq!(d.default_model, "m");
    assert_eq!(d.base_url, "http://local");
    assert_eq!(d.proxy.as_deref(), Some("http://127.0.0.1:7890"));
}

#[test]
fn client_config_from_vars() {
    assert!(matches!(ClientConfig::from_vars(None, Some("m"), None, None, None, None), Err(GeminiError::MissingApiKey)));
    let c = ClientConfig::from_vars(Some("k"), None, None, Some("https://a"), Some("http://b"), None).unwrap();
    assert_eq!(c.default_model, "gemini-2.5-flash");
    assert_eq!(c.proxy.as_deref(), Some("https://a"));
    let d = ClientConfig::from_vars(Some("k"), Some("gemini-2.5-pro"), None, None, None, Some("http://d")).unwrap();
    assert_eq!(d.default_model, "gemini-2.5-pro");
    assert_eq!(d.proxy.as_deref(), Some("http://d"));
    let e = ClientConfig::from_vars(Some("k"), None, Some("H"), Some("h"), None, None).unwrap();
    assert_eq!(e.proxy.as_deref(), Some("H"));
    assert!(ClientConfig::from_vars(Some("k"), None, None, None, None, None).unwrap().proxy.is_none());
}

#[test]
fn urls_of_models_and_resources() {
    let c = ClientConfig::new("KEY");
    assert_eq!(endpoint_url(&c, "/models"), "https://generativelanguage.googleapis.com/v1beta/models");
    assert_eq!(
        model_url(&c, None, "generateContent"),
        "https://generativelanguage.googleapis.com/v1beta/models/gemini-2.5-flash:generateContent"
    );
    assert_eq!(
        model_url(&c, Some("gemini-3-pro-preview"), "countTokens"),
        "https://generativelanguage.googleapis.com/v1beta/models/gemini-3-pro-preview:countTokens"
    );
    assert_eq!(
        stream_url(&c, None),
        "https://generativelanguage.googleapis.com/v1beta/models/gemini-2.5-flash:streamGenerateContent?alt=sse"
    );
    assert_eq!(resource_url(&c, "batches/x"), "https://generativelanguage.googleapis.com/v1beta/batches/x");
    assert_eq!(
        generate_videos_url(&c, "veo-3.1-generate-preview"),
        "https://generativelanguage.googleapis.com/v1beta/models/veo-3.1-generate-preview:predictLongRunning?key=KEY"
    );
    assert_eq!(
        video_operation_url(&c, "operations/1"),
        "https://generativelanguage.googleapis.com/v1beta/operations/1?key=KEY"
    );
    assert_eq!(embedding_model(None), "text-embedding-004");
    assert_eq!(embedding_model(Some("gemini-embedding-001")), "gemini-embedding-001");
}

#[test]
fn list_urls_with_pages() {
    let c = ClientConfig::new("K").with_base_url("http://h/v1beta");
    assert_eq!(list_url(&c, "/files", None, None), "http://h/v1beta/files");
    assert_eq!(list_url(&c, "/files", Some(10), None), "http://h/v1beta/files?pageSize=10");
    assert_eq!(list_url(&c, "/files", None, Some("tok")), "http://h/v1beta/files?pageToken=tok");
    assert_eq!(list_url(&c, "/batches", Some(5), Some("t")), "http://h/v1beta/batches?pageSize=5&pageToken=t");
}

#[test]
fn upload_url_and_body() {
    let c = ClientConfig::new("KEY");
    assert_eq!(upload_url(&c), "https://generativelanguage.googleapis.com/upload/v1beta/files?key=KEY");
    let d = ClientConfig::new("K").with_base_url("http://h/v1beta/v1beta");
    assert_eq!(upload_url(&d), "http://h/upload/v1beta/files?key=K");
    assert_eq!(upload_start_body("clip"), r#"{"file": {"display_name": "clip"}}"#);
    assert_eq!(upload_display_name(Some("d"), Some("f.mp3")), "d");
    assert_eq!(upload_display_name(None, Some("f.mp3")), "f.mp3");
    assert_eq!(upload_display_name(None, None), "uploaded_file");
}

#[test]
fn download_url_adds_key() {
    assert_eq!(download_url("https://x/v", "K"), "https://x/v?key=K");
    assert_eq!(download_url("https://x/v?alt=media", "K"), "https://x/v?alt=media&key=K");
}

#[test]
fn api_errors_from_bodies() {
    let body = obj(vec![("error", obj(vec![("message", JsonValue::String("Bad key".to_string())), ("code", JsonValue::Number("400".to_string()))]))]);
    assert_eq!(error_message(&body), "Bad key");
    match api_error(400, Some(body)) {
        GeminiError::ApiError { status, message, details } => {
            assert_eq!(status, 400);
            assert_eq!(message, "Bad key");
            assert!(details.is_some());
        }
        _ => panic!("not an API error"),
    }
    let no_message = obj(vec![("error", obj(vec![("message", JsonValue::Number("1".to_string()))]))]);
    assert_eq!(error_message(&no_message), "Unknown error");
    assert_eq!(error_message(&JsonValue::Null), "Unknown error");
    match api_error(502, None) {
        GeminiError::ApiError { status, message, details } => {
            assert_eq!(status, 502);
            assert_eq!(message, "Failed to parse error response");
            assert!(details.is_none());
        }
        _ => panic!("not an API error"),
    }
}

#[test]
fn unwrap_metadata_takes_the_member() {
    let inner = obj(vec![("name", JsonValue::String("batches/1".to_string()))]);
    let wrapped = obj(vec![("metadata", inner.clone()), ("done", JsonValue::Bool(false))]);
    assert_eq!(to_value(&unwrap_metadata(wrapped)), to_value(&inner));
    assert_eq!(to_value(&unwrap_metadata(inner.clone())), to_value(&inner));
}

#[test]
fn batch_poll_decisions() {
    assert!(matches!(batch_poll_step(job(BatchJobState::BatchStatePending)), Ok(None)));
    assert!(matches!(batch_poll_step(job(BatchJobState::BatchStateRunning)), Ok(None)));
    assert!(matches!(batch_poll_step(job(BatchJobState::BatchStateUnspecified)), Ok(None)));
    match batch_poll_step(job(BatchJobState::BatchStateSucceeded)) {
        Ok(Some(j)) => assert_eq!(j.name, "batches/abc"),
        _ => panic!("expected the job"),
    }
    let mut failed = job(BatchJobState::BatchStateFailed);
    failed.error = Some(BatchError { code: Some(3), message: Some("quota".to_string()) });
    match batch_poll_step(failed) {
        Err(GeminiError::ApiError { status, message, .. }) => {
            assert_eq!(status, 500);
            assert_eq!(message, "Batch job failed: quota");
        }
        _ => panic!("expected an error"),
    }
    match batch_poll_step(job(BatchJobState::BatchStateFailed)) {
        Err(GeminiError::ApiError { message, .. }) => assert_eq!(message, "Batch job failed: Unknown error"),
        _ => panic!("expected an error"),
    }
    match batch_poll_step(job(BatchJobState::BatchStateCancelled)) {
        Err(GeminiError::ApiError { status, message, .. }) => {
            assert_eq!(status, 499);
            assert_eq!(message, "Batch job was cancelled");
        }
        _ => panic!("expected an error"),
    }
}

#[test]
fn batch_job_predicates() {
    for (state, complete) in [
        (BatchJobState::BatchStateUnspecified, false),
        (BatchJobState::BatchStatePending, false),
        (BatchJobState::BatchStateRunning, false),
        (BatchJobState::BatchStateSucceeded, true),
        (BatchJobState::BatchStateFailed, true),
        (BatchJobState::BatchStateCancelled, true),
    ] {
        let j = job(state);
        assert_eq!(j.is_complete(), complete);
        assert_eq!(j.is_complete(), j.succeeded() || j.failed() || j.cancelled());
    }
    assert!(job(BatchJobState::BatchStatePending).is_pending());
    assert!(job(BatchJobState::BatchStateRunning).is_running());
}

#[test]
fn batch_job_prefers_newer_output() {
    let resp = |k: &str| InlinedResponse { response: None, error: None, key: Some(k.to_string()) };
    let mut j = job(BatchJobState::BatchStateSucceeded);
    assert!(j.responses().is_none());
    assert!(j.output_file().is_none());
    j.dest = Some(BatchOutputConfig {
        inlined_responses: Some(InlinedResponses { inlined_responses: vec![resp("old")] }),
        file_name: Some("old.jsonl".to_string()),
    });
    assert_eq!(j.responses().unwrap()[0].key.as_deref(), Some("old"));
    assert_eq!(j.output_file(), Some("old.jsonl"));
    j.output = Some(BatchOutputConfig {
        inlined_responses: Some(InlinedResponses { inlined_responses: vec![resp("new")] }),
        file_name: None,
    });
    assert_eq!(j.responses().unwrap()[0].key.as_deref(), Some("new"));
    assert_eq!(j.output_file(), Some("old.jsonl"));
}

#[test]
fn sse_chunks() {
    let chunk = "data: {\"a\":1}\r\n\ndata: [DONE]\nevent: x\ndata:  [DONE] \ndata: {\"b\":2}";
    assert_eq!(sse_data(chunk), vec!["{\"a\":1}".to_string(), "{\"b\":2}".to_string()]);
    assert!(sse_data("").is_empty());
}

#[test]
fn mime_types() {
    assert_eq!(mime_from_path("music/Song.MP3"), "audio/mpeg");
    assert_eq!(mime_from_path("a.jpeg"), "image/jpeg");
    assert_eq!(mime_from_path("notes.md"), "text/markdown");
    assert_eq!(mime_from_path("archive.tar.gz"), "application/octet-stream");
    assert_eq!(mime_from_path("README"), "application/octet-stream");
    assert_eq!(mime_from_path(".bashrc"), "application/octet-stream");
    assert_eq!(mime_from_path("main.cpp"), "text/x-c++");
    assert_eq!(mime_from_path("x.h"), "text/x-c");
    assert_eq!(mime_type_for_extension("kt"), "text/x-kotlin");
}

#[test]
fn file_metadata_helpers() {
    let f = file("files/abc123", Some("ACTIVE"));
    assert!(f.is_active());
    assert!(!f.is_processing());
    assert_eq!(f.short_name(), "abc123");
    let g = file("abc", Some("PROCESSING"));
    assert!(g.is_processing());
    assert_eq!(g.short_name(), "abc");
    assert!(!file("x", None).is_active());
}

#[test]
fn short_names_put_back_give_the_name() {
    for name in ["files/abc", "files/", "abc", "file/abc"] {
        let f = file(name, None);
        let short = f.short_name();
        if name.starts_with("files/") {
            assert_eq!(format!("files/{}", short), name);
        } else {
            assert_eq!(short, name);
        }
    }
    let mask = gemini_client::SegmentationMask {
        box_2d: [0, 0, 10, 10],
        label: "cat".to_string(),
        mask: "data:image/png;base64,iVBORw0K".to_string(),
    };
    assert_eq!(mask.mask_base64(), "iVBORw0K");
    let model = gemini_client::Model {
        name: "models/gemini-2.5-flash".to_string(),
        base_model_id: None,
        version: "001".to_string(),
        display_name: "Gemini 2.5 Flash".to_string(),
        description: String::new(),
        input_token_limit: 0,
        output_token_limit: 0,
        supported_generation_methods: vec![],
        temperature: None,
        max_temperature: None,
        top_p: None,
        top_k: None,
    };
    assert_eq!(model.id(), "gemini-2.5-flash");
}

#[test]
fn cached_content_helpers() {
    let c = CachedContent {
        name: "cachedContents/xyz".to_string(),
        model: "m".to_string(),
        create_time: None,
        update_time: None,
        expire_time: None,
        display_name: None,
        usage_metadata: Some(CachedContentUsageMetadata { total_token_count: 4096 }),
    };
    assert_eq!(c.short_name(), "xyz");
    assert_eq!(c.token_count(), Some(4096));
}

#[test]
fn file_mappings() {
    let m = FileMapping::for_upload("audio.mp3", &file("files/1", None), "2024-01-01T00:00:00Z".to_string());
    assert_eq!(m.remote_name, "files/1");
    assert_eq!(m.remote_uri, "https://example.com/files/1");
    assert_eq!(m.expires_at.as_deref(), Some("2030-01-01T00:00:00Z"));
    let mut no_uri = file("files/2", None);
    no_uri.uri = None;
    let n = FileMapping::for_upload("b.wav", &no_uri, "t".to_string());
    assert_eq!(n.remote_uri, "");
    let all = vec![m.clone(), n.clone(), FileMapping::for_upload("audio.mp3", &file("files/3", None), "t".to_string())];
    assert_eq!(find_by_local_path(&all, "audio.mp3").unwrap().remote_name, "files/1");
    assert_eq!(find_by_remote_name(&all, "files/2").unwrap().local_path, "b.wav");
    assert!(find_by_local_path(&all, "none").is_none());
}

#[test]
fn log_lines_skip_blank() {
    assert_eq!(log_lines("{\"a\":1}\n\n   \n{\"b\":2}\n"), vec!["{\"a\":1}".to_string(), "{\"b\":2}".to_string()]);
}

#[test]
fn iso8601_formatting() {
    assert_eq!(iso8601_from_unix_seconds(0), "1970-01-01T00:00:00Z");
    assert_eq!(iso8601_from_unix_seconds(951782400), "2000-02-29T00:00:00Z");
    assert_eq!(iso8601_from_unix_seconds(1709294400 + 3661), "2024-03-01T13:01:01Z");
    assert_eq!(iso8601_from_unix_seconds(4102444799), "2099-12-31T23:59:59Z");
    let now = chrono_now();
    assert_eq!(now.len(), 20);
    assert!(now.ends_with('Z'));
    assert_eq!(&now[4..5], "-");
}

#[test]
fn generate_content_request_builders() {
    let r = GenerateContentRequest::with_text("Hi").model("gemini-3-pro-preview").system_instruction("Be brief");
    assert_eq!(r.model.as_deref(), Some("gemini-3-pro-preview"));
    assert_eq!(r.contents[0].role.as_deref(), Some("user"));
    assert!(r.system_instruction.as_ref().unwrap().role.is_none());
    let r = r.with_google_search().with_code_execution();
    let tools = r.builtin_tools.as_ref().unwrap();
    assert_eq!(tools.len(), 2);
    assert!(tools[0].google_search.is_some());
    assert!(tools[1].code_execution.is_some());
    let r = r.thinking_level(ThinkingLevel::Low).disable_thinking();
    let t = r.generation_config.as_ref().unwrap().thinking_config.unwrap();
    assert_eq!(t.thinking_level, Some(ThinkingLevel::Low));
    assert_eq!(t.thinking_budget, Some(0));
    let r = r.force_function_call_of(vec!["f"]);
    let fc = r.tool_config.unwrap().function_calling_config.unwrap();
    assert_eq!(fc.allowed_function_names.unwrap(), vec!["f".to_string()]);
}

#[test]
fn embed_and_cache_requests() {
    let e = EmbedContentRequest::new("q").model("gemini-embedding-001").for_query().title("t").output_dimensionality(768);
    assert_eq!(e.task_type.as_deref(), Some(TaskType::RETRIEVAL_QUERY));
    assert_eq!(e.output_dimensionality, Some(768));
    assert_eq!(EmbedContentRequest::new("x").for_similarity().task_type.as_deref(), Some("SEMANTIC_SIMILARITY"));
    let c = CreateCachedContentRequest::with_file("gemini-2.0-flash-001", "files/a", "video/mp4")
        .ttl_seconds(300)
        .display_name("d")
        .system_instruction("s");
    assert_eq!(c.ttl.as_deref(), Some("300s"));
    let f = c.contents[0].parts[0].file_data.as_ref().unwrap();
    assert_eq!(f.file_uri, "files/a");
    assert_eq!(f.mime_type, "video/mp4");
}

#[test]
fn batch_requests() {
    let r = BatchJobRequest::inline(
        "gemini-2.5-flash",
        vec![InlinedRequest::with_key(GenerateContentRequest::with_text("a"), "k1"), InlinedRequest::new(GenerateContentRequest::with_text("b"))],
    )
    .display_name("job");
    assert_eq!(r.display_name.as_deref(), Some("job"));
    let reqs = r.input_config.requests.unwrap().requests;
    assert_eq!(reqs[0].metadata.as_ref().unwrap().key.as_deref(), Some("k1"));
    assert!(reqs[1].metadata.is_none());
    let f = BatchJobRequest::from_file("m", "files/in.jsonl");
    assert_eq!(f.input_config.file_name.as_deref(), Some("files/in.jsonl"));
    assert!(f.input_config.requests.is_none());
}

#[test]
fn video_request_and_body() {
    let r = GenerateVideosRequest::new("A lion")
        .negative_prompt("blur")
        .aspect_ratio("16:9")
        .duration(8)
        .resolution("720p")
        .image(VideoImage::from_bytes("AAAA", "image/png"))
        .reference_images(vec![VideoReferenceImage::asset(VideoImage::from_uri("files/r"))]);
    assert_eq!(r.model, "veo-3.1-generate-preview");
    let c = r.config.as_ref().unwrap();
    assert_eq!(c.aspect_ratio.as_deref(), Some("16:9"));
    assert_eq!(c.duration_seconds, Some(8));
    let expected: serde_json::Value = serde_json::from_str(
        r#"{"instances":[{"prompt":"A lion","negativePrompt":"blur","image":{"imageBytes":"AAAA","mimeType":"image/png"},"referenceImages":[{"image":{"uri":"files/r"},"referenceType":"asset"}]}],"parameters":{"aspectRatio":"16:9","resolution":"720p","durationSeconds":8}}"#,
    )
    .unwrap();
    assert_eq!(to_value(&predict_body(&r)), expected);
    let bare = GenerateVideosRequest::new("x").model("veo-2.0-generate-001");
    let expected_bare: serde_json::Value = serde_json::from_str(r#"{"instances":[{"prompt":"x"}]}"#).unwrap();
    assert_eq!(to_value(&predict_body(&bare)), expected_bare);
}
