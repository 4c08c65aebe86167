//! Placeholder thought signatures, with which the API skips validating signatures:
//! for function call blocks made by hand or history taken from another model.
use vstd::prelude::*;

verus! {

/// Skips the validation of thought signatures.
pub const SKIP_VALIDATION: &'static str = "skip_thought_signature_validator";

/// Another placeholder, for context engineering.
pub const CONTEXT_ENGINEERING: &'static str = "context_engineering_is_the_way_to_go";

} // verus!
