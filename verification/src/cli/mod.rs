//! The logic of the command-line programs: messages and the handling of input.
pub mod i18n;
pub mod prompt;
pub mod usage;
