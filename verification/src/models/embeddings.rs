//! Embedding models.
use vstd::prelude::*;

verus! {

/// Recommended embedding model (3072 dimensions, supports MRL).
pub const GEMINI_EMBEDDING_001: &'static str = "gemini-embedding-001";

/// Experimental embedding model (deprecating October 2025).
pub const GEMINI_EMBEDDING_EXP: &'static str = "gemini-embedding-exp-03-07";

/// Legacy text embedding model (deprecating October 2025).
pub const TEXT_EMBEDDING_004: &'static str = "text-embedding-004";

}
