//! The application's settings.
//!
//! Reading and writing the settings file is left to the caller; this module
//! holds the settings and answers questions about them.
use vstd::prelude::*;
use crate::text::owned;

verus! {

/// How to reach the language model.
#[derive(Debug, Clone)]
pub struct AIConfig {
    /// Address of the chat-completions endpoint.
    pub api_url: String,
    /// Key sent as a bearer token.
    pub api_key: String,
    /// Model name.
    pub model: String,
}

pub struct SpecAIConfig {
    pub api_url: Seq<char>,
    pub api_key: Seq<char>,
    pub model: Seq<char>,
}

impl View for AIConfig {
    type V = SpecAIConfig;

    open spec fn view(&self) -> SpecAIConfig {
        SpecAIConfig { api_url: self.api_url@, api_key: self.api_key@, model: self.model@ }
    }
}

/// The application's settings.
#[derive(Debug, Clone)]
pub struct AppConfig {
    pub ai: AIConfig,
    /// The list reminders go to when the input names none.
    pub default_list: String,
    /// Alert times, in minutes before the due time, used when a parse gives
    /// none.
    pub default_reminder_minutes: Vec<i32>,
    /// Whether to parse with the language model (a settings file without
    /// this entry means yes).
    pub use_ai: bool,
}

pub struct SpecAppConfig {
    pub ai: SpecAIConfig,
    pub default_list: Seq<char>,
    pub default_reminder_minutes: Seq<i32>,
    pub use_ai: bool,
}

impl View for AppConfig {
    type V = SpecAppConfig;

    open spec fn view(&self) -> SpecAppConfig {
        SpecAppConfig {
            ai: self.ai@,
            default_list: self.default_list@,
            default_reminder_minutes: self.default_reminder_minutes@,
            use_ai: self.use_ai,
        }
    }
}

/// The value a settings file without `use_ai` gets.
pub fn default_true() -> (r: bool)
    ensures
        r,
{
    true
}

/// The settings written on first run.
pub open spec fn default_app_config() -> SpecAppConfig {
    SpecAppConfig {
        ai: SpecAIConfig {
            api_url: "https://api.openai.com/v1/chat/completions"@,
            api_key: ""@,
            model: "gpt-4-turbo-preview"@,
        },
        default_list: "提醒事项"@,
        default_reminder_minutes: seq![15i32],
        use_ai: false,
    }
}

impl Default for AppConfig {
    fn default() -> (r: AppConfig)
        ensures
            r@ == default_app_config(),
    {
        let minutes = vec![15i32];
        assert(minutes@ =~= seq![15i32]);
        AppConfig {
            ai: AIConfig {
                api_url: owned("https://api.openai.com/v1/chat/completions"),
                api_key: owned(""),
                model: owned("gpt-4-turbo-preview"),
            },
            default_list: owned("提醒事项"),
            default_reminder_minutes: minutes,
            use_ai: false,
        }
    }
}

/// Settings with the questions the rest of the application asks of them.
#[derive(Debug, Clone)]
pub struct ConfigManager {
    config: AppConfig,
}

impl View for ConfigManager {
    type V = SpecAppConfig;

    closed spec fn view(&self) -> SpecAppConfig {
        self.config@
    }
}

/// The language model is to be used: a key is set and the settings ask for
/// it.
pub open spec fn ai_configured(c: SpecAppConfig) -> bool {
    c.ai.api_key.len() > 0 && c.use_ai
}

impl ConfigManager {
    /// A manager over settings already loaded.
    pub fn from_config(config: AppConfig) -> (r: ConfigManager)
        ensures
            r@ == config@,
    {
        ConfigManager { config }
    }

    /// Whether the language model is to be used.
    pub fn is_ai_configured(&self) -> (r: bool)
        ensures
            r == ai_configured(self@),
    {
        !self.config.ai.api_key.as_str().is_empty() && self.config.use_ai
    }

    /// How to reach the language model.
    pub fn get_ai_config(&self) -> (r: &AIConfig)
        ensures
            r@ == self@.ai,
    {
        &self.config.ai
    }

    /// The list reminders go to when the input names none.
    pub fn get_default_list(&self) -> (r: &str)
        ensures
            r@ == self@.default_list,
    {
        self.config.default_list.as_str()
    }

    /// The alert times used when a parse gives none.
    pub fn get_default_reminder_minutes(&self) -> (r: &[i32])
        ensures
            r@ == self@.default_reminder_minutes,
    {
        self.config.default_reminder_minutes.as_slice()
    }
}

/// The model is used exactly when the settings turn it on and give an API
/// key.
pub proof fn model_needs_key_and_switch(c: SpecAppConfig)
    ensures
        ai_configured(c) <==> (c.use_ai && c.ai.api_key.len() > 0),
{
}

} // verus!
