//! Gemini 2.5 Computer Use, browser automation.
use vstd::prelude::*;

verus! {

/// Computer Use Preview.
pub const PREVIEW: &'static str = "gemini-2.5-computer-use-preview-10-2025";

}
