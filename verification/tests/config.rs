use reminders::config::{default_true, AIConfig, AppConfig, ConfigManager};

#[test]
fn test_default_config() {
    let config = AppConfig::default();
    assert_eq!(config.default_list, "提醒事项");
    assert_eq!(config.default_reminder_minutes, vec![15]);
    assert!(!config.use_ai);
}

fn config_with(key: &str, use_ai: bool) -> AppConfig {
    AppConfig {
        ai: AIConfig {
            api_url: "https://example.invalid/v1".to_string(),
            api_key: key.to_string(),
            model: "m".to_string(),
        },
        default_list: "工作".to_string(),
        default_reminder_minutes: vec![15, 30],
        use_ai,
    }
}

#[test]
fn ai_needs_a_key_and_the_switch() {
    assert!(ConfigManager::from_config(config_with("k", true)).is_ai_configured());
    assert!(!ConfigManager::from_config(config_with("", true)).is_ai_configured());
    assert!(!ConfigManager::from_config(config_with("k", false)).is_ai_configured());
    assert!(!ConfigManager::from_config(AppConfig::default()).is_ai_configured());
    assert!(default_true());
}

#[test]
fn getters_give_the_settings() {
    let m = ConfigManager::from_config(config_with("k", true));
    assert_eq!(m.get_default_list(), "工作");
    assert_eq!(m.get_default_reminder_minutes(), &[15, 30]);
    assert_eq!(m.get_ai_config().model, "m");
    assert_eq!(m.get_ai_config().api_url, "https://example.invalid/v1");
    let d = AppConfig::default();
    assert_eq!(d.ai.api_url, "https://api.openai.com/v1/chat/completions");
    assert_eq!(d.ai.model, "gpt-4-turbo-preview");
    assert_eq!(d.ai.api_key, "");
}
