//! What the client sends and how it reads what comes back: URLs, bodies, errors
//! of the API, the polling of batch jobs and the data of server-sent events.
use vstd::prelude::*;
use crate::error::GeminiError;
use crate::json::{Json, JsonValue, get, json_get};
use crate::models::embeddings;
use crate::text::{
    concat2, concat3, contains_char, decimal, has_prefix, lines_spec, opt_view, owned, push_decimal,
    split_lines, strip_prefix_or_self, trim_end_matches, trim_spec, trim_suffix_repeated, trimmed_equals,
    without_prefix, starts_with,
};
use super::config::ClientConfig;
use super::responses::{BatchJob, BatchJobState};

verus! {

/// The model of embeddings when a request names none.
pub const DEFAULT_EMBEDDING_MODEL: &'static str = embeddings::TEXT_EMBEDDING_004;

/// The URL of an endpoint: the base URL followed by the endpoint.
pub fn endpoint_url(config: &ClientConfig, endpoint: &str) -> (r: String)
    ensures
        r@ == config.base_url@ + endpoint@,
{
    concat2(config.base_url.as_str(), endpoint)
}

/// The model that a request uses: the one it names, else the default model.
pub open spec fn model_or_default(config: ClientConfig, model: Option<&str>) -> Seq<char> {
    match model {
        Some(m) => m@,
        None => config.default_model@,
    }
}

/// The URL of a method of a model: `{base}/models/{model}:{method}`.
pub open spec fn model_url_spec(config: ClientConfig, model: Option<&str>, method: Seq<char>) -> Seq<char> {
    config.base_url@ + "/models/"@ + model_or_default(config, model) + ":"@ + method
}

/// The URL of a method of a model, the default model standing in for a missing one.
pub fn model_url(config: &ClientConfig, model: Option<&str>, method: &str) -> (r: String)
    ensures
        r@ == model_url_spec(*config, model, method@),
{
    let m = match model {
        Some(m) => m,
        None => config.default_model.as_str(),
    };
    let mut r = owned(config.base_url.as_str());
    r.append("/models/");
    r.append(m);
    r.append(":");
    r.append(method);
    r
}

/// The URL of streamed generation: that of `streamGenerateContent`, asking for
/// server-sent events.
pub fn stream_url(config: &ClientConfig, model: Option<&str>) -> (r: String)
    ensures
        r@ == model_url_spec(*config, model, "streamGenerateContent"@) + "?alt=sse"@,
{
    let mut r = model_url(config, model, "streamGenerateContent");
    r.append("?alt=sse");
    r
}

/// The model of an embedding request: the one it names, else `text-embedding-004`.
pub fn embedding_model(model: Option<&str>) -> (r: &str)
    ensures
        r@ == match model {
            Some(m) => m@,
            None => DEFAULT_EMBEDDING_MODEL@,
        },
{
    match model {
        Some(m) => m,
        None => DEFAULT_EMBEDDING_MODEL,
    }
}

/// The query of a listing: `pageSize` and `pageToken`, each when given, joined by
/// `&`, after a `?`; nothing when neither is given.
pub open spec fn page_query(page_size: Option<u32>, page_token: Option<&str>) -> Seq<char> {
    match (page_size, page_token) {
        (None, None) => Seq::empty(),
        (Some(n), None) => "?pageSize="@ + decimal(n as nat),
        (None, Some(t)) => "?pageToken="@ + t@,
        (Some(n), Some(t)) => "?pageSize="@ + decimal(n as nat) + "&pageToken="@ + t@,
    }
}

/// The URL of one page of a listing, such as that of the files.
pub fn list_url(config: &ClientConfig, endpoint: &str, page_size: Option<u32>, page_token: Option<&str>) -> (r: String)
    ensures
        r@ == config.base_url@ + endpoint@ + page_query(page_size, page_token),
{
    let mut r = endpoint_url(config, endpoint);
    let ghost start = r@;
    match page_size {
        Some(n) => {
            r.append("?pageSize=");
            push_decimal(&mut r, n as u64);
            match page_token {
                Some(t) => {
                    r.append("&pageToken=");
                    r.append(t);
                },
                None => {},
            }
        },
        None => {
            match page_token {
                Some(t) => {
                    r.append("?pageToken=");
                    r.append(t);
                },
                None => {},
            }
        },
    }
    assert(r@ =~= start + page_query(page_size, page_token));
    r
}

/// The URL that starts a resumable upload: the base URL without its trailing
/// `/v1beta` parts, then `/upload/v1beta/files?key=` and the API key.
pub fn upload_url(config: &ClientConfig) -> (r: String)
    ensures
        r@ == trim_suffix_repeated(config.base_url@, "/v1beta"@) + "/upload/v1beta/files?key="@ + config.api_key@,
{
    let mut r = trim_end_matches(config.base_url.as_str(), "/v1beta");
    r.append("/upload/v1beta/files?key=");
    r.append(config.api_key.as_str());
    r
}

/// The body that starts a resumable upload: `{"file": {"display_name": "NAME"}}`,
/// the name put in as it is.
pub fn upload_start_body(display_name: &str) -> (r: String)
    ensures
        r@ == "{\"file\": {\"display_name\": \""@ + display_name@ + "\"}}"@,
{
    concat3("{\"file\": {\"display_name\": \"", display_name, "\"}}")
}

/// What follows the answer to the start of an upload. An unsuccessful answer with
/// the status `status` and the body `body` fails with "Failed to initiate upload: "
/// and the body; a successful one without the header `x-goog-upload-url`
/// (`upload_url` is `None`) fails with the status 500; otherwise the bytes go to
/// that URL.
pub fn upload_start_reply(success: bool, status: u16, body: &str, upload_url: Option<&str>) -> (r: Result<
    String,
    GeminiError,
>)
    ensures
        !success ==> (r matches Err(GeminiError::ApiError { status: s, message, details })
            && s == status && message@ == "Failed to initiate upload: "@ + body@ && details is None),
        success && upload_url is None ==> (r matches Err(GeminiError::ApiError { status: s, message, details })
            && s == 500 && message@ == "Missing upload URL in response"@ && details is None),
        success && upload_url is Some ==> (r matches Ok(u) && u@ == upload_url->0@),
{
    if !success {
        Err(GeminiError::ApiError { status, message: concat2("Failed to initiate upload: ", body), details: None })
    } else {
        match upload_url {
            Some(u) => Ok(owned(u)),
            None => Err(
                GeminiError::ApiError { status: 500, message: owned("Missing upload URL in response"), details: None },
            ),
        }
    }
}

/// The error for an unsuccessful answer to the upload of the bytes, with the
/// status `status` and the body `body`: "Failed to upload file: " and the body.
pub fn upload_failed(status: u16, body: &str) -> (r: GeminiError)
    ensures
        r matches GeminiError::ApiError { status: s, message, details }
            && s == status && message@ == "Failed to upload file: "@ + body@ && details is None,
{
    GeminiError::ApiError { status, message: concat2("Failed to upload file: ", body), details: None }
}

/// The display name of an upload: the one given, else the file's name, else
/// `uploaded_file`.
pub fn upload_display_name(display_name: Option<&str>, file_name: Option<&str>) -> (r: String)
    ensures
        r@ == match display_name {
            Some(d) => d@,
            None => match file_name {
                Some(f) => f@,
                None => "uploaded_file"@,
            },
        },
{
    match display_name {
        Some(d) => owned(d),
        None => match file_name {
            Some(f) => owned(f),
            None => owned("uploaded_file"),
        },
    }
}

/// The URL of a resource: the base URL, a `/`, and the resource's name.
pub fn resource_url(config: &ClientConfig, name: &str) -> (r: String)
    ensures
        r@ == config.base_url@ + "/"@ + name@,
{
    concat3(config.base_url.as_str(), "/", name)
}

/// The URL that starts video generation: the model's `predictLongRunning`, with the API key.
pub fn generate_videos_url(config: &ClientConfig, model: &str) -> (r: String)
    ensures
        r@ == config.base_url@ + "/models/"@ + model@ + ":predictLongRunning?key="@ + config.api_key@,
{
    let mut r = owned(config.base_url.as_str());
    r.append("/models/");
    r.append(model);
    r.append(":predictLongRunning?key=");
    r.append(config.api_key.as_str());
    r
}

/// The URL of a video operation, with the API key.
pub fn video_operation_url(config: &ClientConfig, operation_name: &str) -> (r: String)
    ensures
        r@ == config.base_url@ + "/"@ + operation_name@ + "?key="@ + config.api_key@,
{
    let mut r = resource_url(config, operation_name);
    r.append("?key=");
    r.append(config.api_key.as_str());
    r
}

/// The URL that downloads a video: its URI with the API key added to the query,
/// after `&` when the URI has a query already and after `?` otherwise.
pub fn download_url(uri: &str, api_key: &str) -> (r: String)
    ensures
        r@ == uri@ + (if uri@.contains('?') { "&key="@ } else { "?key="@ }) + api_key@,
{
    if contains_char(uri, '?') {
        concat3(uri, "&key=", api_key)
    } else {
        concat3(uri, "?key=", api_key)
    }
}

/// The message of an error body: `error.message` when it is a string, else
/// `Unknown error`.
pub open spec fn error_message_spec(body: Json) -> Seq<char> {
    match get(body, "error"@) {
        Some(e) => match get(e, "message"@) {
            Some(Json::Str(m)) => m,
            _ => "Unknown error"@,
        },
        None => "Unknown error"@,
    }
}

/// The message of an error body, as [`error_message_spec`] says.
pub fn error_message(body: &JsonValue) -> (r: String)
    ensures
        r@ == error_message_spec(body@),
{
    match json_get(body, "error") {
        Some(e) => match json_get(e, "message") {
            Some(JsonValue::String(m)) => m.clone(),
            _ => owned("Unknown error"),
        },
        None => owned("Unknown error"),
    }
}

/// The error for an unsuccessful answer with the status `status`, whose body is
/// `body` when it was JSON and `None` when it could not be read as JSON.
pub fn api_error(status: u16, body: Option<JsonValue>) -> (r: GeminiError)
    ensures
        match body {
            Some(b) => r matches GeminiError::ApiError { status: s, message, details }
                && s == status && message@ == error_message_spec(b@) && details == Some(b),
            None => r matches GeminiError::ApiError { status: s, message, details }
                && s == status && message@ == "Failed to parse error response"@ && details is None,
        },
{
    match body {
        Some(b) => {
            let message = error_message(&b);
            GeminiError::ApiError { status, message, details: Some(b) }
        },
        None => GeminiError::ApiError { status, message: owned("Failed to parse error response"), details: None },
    }
}

/// The batch job in an answer: the member `metadata` when there is one, else the
/// whole answer.
pub fn unwrap_metadata(answer: JsonValue) -> (r: JsonValue)
    ensures
        r@ == match get(answer@, "metadata"@) {
            Some(m) => m,
            None => answer@,
        },
{
    match json_get(&answer, "metadata") {
        Some(m) => m.clone(),
        None => answer,
    }
}

/// What one look at a batch job decides.
pub open spec fn poll_outcome(job: BatchJob) -> Option<(u16, Seq<char>)> {
    if job.state == BatchJobState::BatchStateFailed {
        Some((
            500u16,
            "Batch job failed: "@ + match job.error {
                Some(e) => match opt_view(e.message) {
                    Some(m) => m,
                    None => "Unknown error"@,
                },
                None => "Unknown error"@,
            },
        ))
    } else if job.state == BatchJobState::BatchStateCancelled {
        Some((499u16, "Batch job was cancelled"@))
    } else {
        None
    }
}

/// One step of waiting for a batch job: `Ok(None)` while it is not done (the
/// caller waits and looks again); the job when it succeeded; an API error with
/// status 500 and the job's error message when it failed, and with status 499 when
/// it was cancelled.
pub fn batch_poll_step(job: BatchJob) -> (r: Result<Option<BatchJob>, GeminiError>)
    ensures
        !job.complete() ==> r == Ok::<Option<BatchJob>, GeminiError>(None),
        job.state == BatchJobState::BatchStateSucceeded ==> r == Ok::<Option<BatchJob>, GeminiError>(Some(job)),
        poll_outcome(job) matches Some((status, message)) ==> (r matches Err(GeminiError::ApiError { status: s, message: m, details })
            && s == status && m@ == message && details is None),
{
    if !job.is_complete() {
        return Ok(None);
    }
    if job.failed() {
        let msg = match &job.error {
            Some(e) => match &e.message {
                Some(m) => m.as_str(),
                None => "Unknown error",
            },
            None => "Unknown error",
        };
        return Err(GeminiError::ApiError { status: 500, message: concat2("Batch job failed: ", msg), details: None });
    }
    if job.cancelled() {
        return Err(GeminiError::ApiError { status: 499, message: owned("Batch job was cancelled"), details: None });
    }
    Ok(Some(job))
}

/// The data of the server-sent events in a chunk: each line that starts with
/// `data: `, without that prefix, except those whose data trims to `[DONE]`; in order.
pub open spec fn sse_data_spec(lines: Seq<Seq<char>>) -> Seq<Seq<char>>
    decreases lines.len(),
{
    if lines.len() == 0 {
        Seq::empty()
    } else {
        let rest = sse_data_spec(lines.drop_last());
        let line = lines.last();
        if has_prefix(line, "data: "@) && trim_spec(without_prefix(line, "data: "@)) != "[DONE]"@ {
            rest.push(without_prefix(line, "data: "@))
        } else {
            rest
        }
    }
}

/// The data of the server-sent events in a chunk of text, as [`sse_data_spec`]
/// says of its lines.
pub fn sse_data(chunk: &str) -> (r: Vec<String>)
    ensures
        r@.map_values(|s: String| s@) == sse_data_spec(lines_spec(chunk@)),
{
    let lines = split_lines(chunk);
    let ghost ls = lines_spec(chunk@);
    let mut out: Vec<String> = Vec::new();
    let mut i: usize = 0;
    while i < lines.len()
        invariant
            lines@.len() == ls.len(),
            forall|j: int| 0 <= j < lines@.len() ==> (#[trigger] lines@[j])@ == ls[j],
            i <= lines@.len(),
            out@.map_values(|s: String| s@) == sse_data_spec(ls.take(i as int)),
        decreases lines@.len() - i,
    {
        let line = lines[i].as_str();
        let ghost before = out@;
        assert(ls.take(i as int + 1).drop_last() =~= ls.take(i as int));
        assert(ls.take(i as int + 1).last() == line@);
        if starts_with(line, "data: ") {
            let data = strip_prefix_or_self(line, "data: ");
            if !trimmed_equals(data, "[DONE]") {
                out.push(owned(data));
                assert(out@.map_values(|s: String| s@) =~= before.map_values(|s: String| s@).push(data@));
            }
        }
        i = i + 1;
    }
    assert(ls.take(ls.len() as int) =~= ls);
    out
}

} // verus!
