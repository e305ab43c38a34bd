//! Turning natural-language input into a `ParsedReminder`.
pub mod cors;
pub mod matching;
pub mod parser_ai;
pub mod parser_regexp;
pub mod patterns;
