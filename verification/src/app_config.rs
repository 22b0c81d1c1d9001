//! Application settings: the version of the settings file and the
//! language-model provider that drafts commit messages.

use vstd::prelude::*;

verus! {

/// The version that a freshly written settings file carries.
pub open spec fn current_config_version() -> u32 {
    1
}

/// The settings version that is assumed where a file leaves it out.
pub fn default_config_version() -> (version: u32)
    ensures
        version == current_config_version(),
{
    1
}

/// The services that can draft a message.
#[derive(Debug, Clone, Copy, PartialEq, Eq, Structural)]
pub enum LLMProvider {
    OpenAI,
    Anthropic,
    /// Models that run on the user's own machine.
    Ollama,
    DeepSeek,
    XAI,
    /// Models trained on code.
    Phind,
    Google,
    Groq,
    /// An endpoint of the user's own, reached directly over HTTP.
    CUSTOM,
}

/// The model of the provider settings.
pub struct LLMConfigView {
    pub provider: LLMProvider,
    pub enable: bool,
    pub api_key: Option<Seq<char>>,
    pub url: Option<Seq<char>>,
    pub model: Option<Seq<char>>,
}

impl LLMConfigView {
    /// Whether the provider is the user's own endpoint.
    pub open spec fn is_custom(self) -> bool {
        self.provider == LLMProvider::CUSTOM
    }

    /// Whether the settings hold what their provider needs: the user's own
    /// endpoint an address and a key, every other provider a key and a model.
    pub open spec fn complete(self) -> bool {
        if self.is_custom() {
            self.url is Some && self.api_key is Some
        } else {
            self.api_key is Some && self.model is Some
        }
    }
}

/// The provider settings.
#[derive(Debug, Clone, PartialEq, Eq)]
pub struct LLMConfig {
    pub provider: LLMProvider,
    pub enable: bool,
    pub api_key: Option<String>,
    pub url: Option<String>,
    pub model: Option<String>,
}

impl View for LLMConfig {
    type V = LLMConfigView;

    open spec fn view(&self) -> LLMConfigView {
        LLMConfigView {
            provider: self.provider,
            enable: self.enable,
            api_key: self.api_key.deep_view(),
            url: self.url.deep_view(),
            model: self.model.deep_view(),
        }
    }
}

impl LLMConfig {
    pub fn new(
        provider: LLMProvider,
        enable: bool,
        api_key: Option<String>,
        url: Option<String>,
        model: Option<String>,
    ) -> (config: LLMConfig)
        ensures
            config == (LLMConfig { provider, enable, api_key, url, model }),
    {
        LLMConfig { provider, enable, api_key, url, model }
    }

    /// Whether the provider is the user's own endpoint.
    pub fn is_custom(&self) -> (custom: bool)
        ensures
            custom == self@.is_custom(),
    {
        match self.provider {
            LLMProvider::CUSTOM => true,
            _ => false,
        }
    }

    /// Whether the settings hold what their provider needs.
    pub fn is_complete(&self) -> (complete: bool)
        ensures
            complete == self@.complete(),
    {
        if self.is_custom() {
            self.url.is_some() && self.api_key.is_some()
        } else {
            self.api_key.is_some() && self.model.is_some()
        }
    }
}

/// The model of the application settings.
pub struct AppConfigView {
    pub config_version: u32,
    pub llm_config: LLMConfigView,
}

impl AppConfigView {
    /// The settings that are written where no file exists yet: the current
    /// version, and message drafting switched off.
    pub open spec fn initial() -> AppConfigView {
        AppConfigView {
            config_version: current_config_version(),
            llm_config: LLMConfigView {
                provider: LLMProvider::OpenAI,
                enable: false,
                api_key: None,
                url: None,
                model: None,
            },
        }
    }
}

/// The application settings.
#[derive(Debug, Clone, PartialEq, Eq)]
pub struct AppConfig {
    pub config_version: u32,
    pub llm_config: LLMConfig,
}

impl View for AppConfig {
    type V = AppConfigView;

    open spec fn view(&self) -> AppConfigView {
        AppConfigView { config_version: self.config_version, llm_config: self.llm_config@ }
    }
}

impl AppConfig {
    pub fn new(config_version: u32, llm_config: LLMConfig) -> (config: AppConfig)
        ensures
            config == (AppConfig { config_version, llm_config }),
    {
        AppConfig { config_version, llm_config }
    }

    /// Whether these settings were written by an earlier version and are due
    /// for an upgrade.
    pub fn is_outdated(&self) -> (outdated: bool)
        ensures
            outdated == (self.config_version < current_config_version()),
    {
        self.config_version < default_config_version()
    }
}

impl Default for AppConfig {
    fn default() -> (config: AppConfig)
        ensures
            config@ == AppConfigView::initial(),
    {
        AppConfig::new(1, LLMConfig::new(LLMProvider::OpenAI, false, None, None, None))
    }
}

} // verus!
