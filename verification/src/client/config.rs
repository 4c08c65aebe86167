//! Configuration of the client and the task types of embeddings.
use vstd::prelude::*;
use crate::error::{GeminiError, Result};
use crate::models::defaults;
use crate::text::{opt_view, owned};

verus! {

/// Base URL of the Gemini API.
pub const API_BASE_URL: &'static str = "https://generativelanguage.googleapis.com/v1beta";

/// The model used when a request names none.
pub const DEFAULT_MODEL: &'static str = defaults::GENERAL;

/// Task types of embeddings, each tuning embeddings to one use.
pub struct TaskType;

impl TaskType {
    /// Text similarity (recommendations, duplicate detection).
    pub const SEMANTIC_SIMILARITY: &'static str = "SEMANTIC_SIMILARITY";
    /// Classification by preset labels (sentiment, spam).
    pub const CLASSIFICATION: &'static str = "CLASSIFICATION";
    /// Clustering by similarity.
    pub const CLUSTERING: &'static str = "CLUSTERING";
    /// Documents to be retrieved by search.
    pub const RETRIEVAL_DOCUMENT: &'static str = "RETRIEVAL_DOCUMENT";
    /// Search queries; the documents take `RETRIEVAL_DOCUMENT`.
    pub const RETRIEVAL_QUERY: &'static str = "RETRIEVAL_QUERY";
    /// Natural language queries for code blocks.
    pub const CODE_RETRIEVAL_QUERY: &'static str = "CODE_RETRIEVAL_QUERY";
    /// Questions of a question-answering system.
    pub const QUESTION_ANSWERING: &'static str = "QUESTION_ANSWERING";
    /// Statements to be checked against evidence.
    pub const FACT_VERIFICATION: &'static str = "FACT_VERIFICATION";
}

/// Configuration of the Gemini client.
#[derive(Debug, Clone)]
pub struct ClientConfig {
    /// API key.
    pub api_key: String,
    /// Base URL of the API.
    pub base_url: String,
    /// Model used when a request names none.
    pub default_model: String,
    /// HTTP or HTTPS proxy URL, such as `http://127.0.0.1:7890`.
    pub proxy: Option<String>,
}

impl ClientConfig {
    /// `c` has the API key `key`, the default base URL, the default model `model`
    /// and the proxy `proxy`.
    pub open spec fn is_config(c: ClientConfig, key: Seq<char>, model: Seq<char>, proxy: Option<Seq<char>>) -> bool {
        &&& c.api_key@ == key
        &&& c.base_url@ == API_BASE_URL@
        &&& c.default_model@ == model
        &&& opt_view(c.proxy) == proxy
    }

    /// A configuration with the given API key, the default base URL and model, and no proxy.
    pub fn new(api_key: &str) -> (r: Self)
        ensures
            ClientConfig::is_config(r, api_key@, DEFAULT_MODEL@, None),
    {
        ClientConfig {
            api_key: owned(api_key),
            base_url: owned(API_BASE_URL),
            default_model: owned(DEFAULT_MODEL),
            proxy: None,
        }
    }

    /// The configuration that the environment gives: `GEMINI_API_KEY` (required),
    /// `GEMINI_MODEL` (else the default model) and the first proxy set of
    /// `HTTPS_PROXY`, `https_proxy`, `HTTP_PROXY` and `http_proxy`. Each argument is
    /// the value of that variable, `None` where it is not set.
    pub fn from_vars(
        api_key: Option<&str>,
        model: Option<&str>,
        https_proxy_upper: Option<&str>,
        https_proxy_lower: Option<&str>,
        http_proxy_upper: Option<&str>,
        http_proxy_lower: Option<&str>,
    ) -> (r: Result<Self>)
        ensures
            match api_key {
                None => r == Err::<ClientConfig, GeminiError>(GeminiError::MissingApiKey),
                Some(key) => r is Ok && ClientConfig::is_config(
                    r->Ok_0,
                    key@,
                    match model {
                        Some(m) => m@,
                        None => DEFAULT_MODEL@,
                    },
                    match first_set(https_proxy_upper, https_proxy_lower, http_proxy_upper, http_proxy_lower) {
                        Some(p) => Some(p@),
                        None => None,
                    },
                ),
            },
    {
        match api_key {
            None => Err(GeminiError::MissingApiKey),
            Some(key) => {
                let default_model = match model {
                    Some(m) => owned(m),
                    None => owned(DEFAULT_MODEL),
                };
                let proxy = if let Some(p) = https_proxy_upper {
                    Some(owned(p))
                } else if let Some(p) = https_proxy_lower {
                    Some(owned(p))
                } else if let Some(p) = http_proxy_upper {
                    Some(owned(p))
                } else if let Some(p) = http_proxy_lower {
                    Some(owned(p))
                } else {
                    None
                };
                Ok(ClientConfig { api_key: owned(key), base_url: owned(API_BASE_URL), default_model, proxy })
            },
        }
    }

    /// Sets the default model.
    pub fn with_model(self, model: &str) -> (r: Self)
        ensures
            r == (ClientConfig { default_model: r.default_model, ..self }),
            r.default_model@ == model@,
    {
        ClientConfig { default_model: owned(model), ..self }
    }

    /// Sets the base URL.
    pub fn with_base_url(self, url: &str) -> (r: Self)
        ensures
            r == (ClientConfig { base_url: r.base_url, ..self }),
            r.base_url@ == url@,
    {
        ClientConfig { base_url: owned(url), ..self }
    }

    /// Sets the proxy URL.
    pub fn with_proxy(self, proxy: &str) -> (r: Self)
        ensures
            r == (ClientConfig { proxy: r.proxy, ..self }),
            opt_view(r.proxy) == Some(proxy@),
    {
        ClientConfig { proxy: Some(owned(proxy)), ..self }
    }
}

/// The first of four optional values that is set.
pub open spec fn first_set<'a>(a: Option<&'a str>, b: Option<&'a str>, c: Option<&'a str>, d: Option<&'a str>) -> Option<&'a str> {
    if a is Some {
        a
    } else if b is Some {
        b
    } else if c is Some {
        c
    } else {
        d
    }
}

impl Default for ClientConfig {
    /// A configuration with every text empty and no proxy.
    fn default() -> (r: Self)
        ensures
            r.api_key@.len() == 0 && r.base_url@.len() == 0 && r.default_model@.len() == 0 && r.proxy is None,
    {
        ClientConfig { api_key: String::new(), base_url: String::new(), default_model: String::new(), proxy: None }
    }
}

} // verus!
