use aigcw::app_config::{default_config_version, AppConfig, LLMConfig, LLMProvider};
use aigcw::commit_types::{CommitTypeConfig, Config, EmojiConfig};

fn some(text: &str) -> Option<String> {
    Some(text.to_string())
}

#[test]
fn default_version_is_one() {
    assert_eq!(default_config_version(), 1);
}

#[test]
fn default_settings_switch_drafting_off() {
    let config = AppConfig::default();
    assert_eq!(config.config_version, 1);
    assert_eq!(config.llm_config, LLMConfig::new(LLMProvider::OpenAI, false, None, None, None));
    assert_eq!(config, AppConfig::new(1, LLMConfig::new(LLMProvider::OpenAI, false, None, None, None)));
}

#[test]
fn new_settings_keep_their_fields() {
    let config = LLMConfig::new(LLMProvider::Groq, true, some("k"), some("u"), some("m"));
    assert_eq!(config.provider, LLMProvider::Groq);
    assert!(config.enable);
    assert_eq!(config.api_key, some("k"));
    assert_eq!(config.url, some("u"));
    assert_eq!(config.model, some("m"));
}

#[test]
fn only_the_custom_provider_is_custom() {
    for provider in [
        LLMProvider::OpenAI,
        LLMProvider::Anthropic,
        LLMProvider::Ollama,
        LLMProvider::DeepSeek,
        LLMProvider::XAI,
        LLMProvider::Phind,
        LLMProvider::Google,
        LLMProvider::Groq,
    ] {
        assert!(!LLMConfig::new(provider, true, None, None, None).is_custom());
    }
    assert!(LLMConfig::new(LLMProvider::CUSTOM, false, None, None, None).is_custom());
}

#[test]
fn custom_settings_need_address_and_key() {
    assert!(LLMConfig::new(LLMProvider::CUSTOM, true, some("k"), some("u"), None).is_complete());
    assert!(!LLMConfig::new(LLMProvider::CUSTOM, true, None, some("u"), some("m")).is_complete());
    assert!(!LLMConfig::new(LLMProvider::CUSTOM, true, some("k"), None, some("m")).is_complete());
}

#[test]
fn other_settings_need_key_and_model() {
    assert!(LLMConfig::new(LLMProvider::OpenAI, true, some("k"), None, some("m")).is_complete());
    assert!(!LLMConfig::new(LLMProvider::OpenAI, true, None, some("u"), some("m")).is_complete());
    assert!(!LLMConfig::new(LLMProvider::OpenAI, true, some("k"), some("u"), None).is_complete());
    assert!(!AppConfig::default().llm_config.is_complete());
}

#[test]
fn settings_of_an_earlier_version_are_outdated() {
    let llm = AppConfig::default().llm_config;
    assert!(AppConfig::new(0, llm.clone()).is_outdated());
    assert!(!AppConfig::new(1, llm.clone()).is_outdated());
    assert!(!AppConfig::new(2, llm).is_outdated());
    assert!(!AppConfig::default().is_outdated());
}

#[test]
fn label_is_name_colon_emoji() {
    let fix = CommitTypeConfig::new("fix".to_string(), "🐛".to_string(), "Bug修复".to_string());
    assert_eq!(fix.show_string(), "fix: 🐛");
    let plain = CommitTypeConfig::new("wip".to_string(), String::new(), String::new());
    assert_eq!(plain.show_string(), "wip: ");
}

#[test]
fn builtin_settings_hold_eleven_types() {
    let config = Config::builtin();
    assert_eq!(config.emoji, EmojiConfig::new(true));
    assert!(config.emoji.enable);
    let names: Vec<&str> = config.types.iter().map(|t| t.name.as_str()).collect();
    assert_eq!(
        names,
        vec!["feat", "fix", "docs", "style", "refactor", "perf", "test", "build", "ci", "chore", "revert"]
    );
    assert_eq!(
        config.types[0],
        CommitTypeConfig::new("feat".to_string(), "✨".to_string(), "新增功能".to_string())
    );
    assert_eq!(
        config.types[10],
        CommitTypeConfig::new("revert".to_string(), "⏪️".to_string(), "提交回滚".to_string())
    );
    assert_eq!(config.types[4].emoji, "♻️");
    assert_eq!(config.types[8].desc, "CI配置变更");
}

#[test]
fn labels_follow_the_types() {
    assert_eq!(
        Config::builtin().labels(),
        vec![
            "feat: ✨",
            "fix: 🐛",
            "docs: 📚",
            "style: 🎨",
            "refactor: ♻️",
            "perf: ⚡️",
            "test: ✅",
            "build: 📦️",
            "ci: 👷",
            "chore: 🔧",
            "revert: ⏪️"
        ]
    );
    assert_eq!(Config::new(EmojiConfig::new(false), Vec::new()).labels(), Vec::<String>::new());
}

#[test]
fn labels_keep_duplicates_and_order() {
    let a = CommitTypeConfig::new("x".to_string(), "1".to_string(), "first".to_string());
    let b = CommitTypeConfig::new("y".to_string(), "2".to_string(), "second".to_string());
    let config = Config::new(EmojiConfig::new(true), vec![b.clone(), a.clone(), b]);
    assert_eq!(config.labels(), vec!["y: 2", "x: 1", "y: 2"]);
}
