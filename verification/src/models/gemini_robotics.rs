//! Gemini Robotics-ER, embodied reasoning for robotics.
use vstd::prelude::*;

verus! {

/// Robotics-ER 1.5 Preview.
pub const ER_1_5_PREVIEW: &'static str = "gemini-robotics-er-1.5-preview";

}
