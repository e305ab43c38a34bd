//! Natural-language reminders: parsing Chinese reminder phrases into
//! structured reminders, and producing the AppleScript that files them in
//! Apple's Reminders app.
pub mod text;
pub mod datetime;
pub mod parser;
pub mod cors;
pub mod reminder;
pub mod apple_reminders;
pub mod config;
pub mod hybrid_parser;
pub mod cli;
pub mod commands;
