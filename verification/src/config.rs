//! Persistent settings: their defaults and the start-up decision that
//! chooses between a loaded file, a freshly written default, and an error.

use vstd::prelude::*;

verus! {

/// All settings of the application.
#[derive(Debug, Clone, PartialEq, Eq)]
pub struct AppConfig {
    pub general: GeneralConfig,
    pub engines: EngineConfigs,
    pub ui: UiConfig,
}

/// Behaviour of the translator itself.
#[derive(Debug, Clone, PartialEq, Eq)]
pub struct GeneralConfig {
    /// Master switch: while false the hotkey stays registered but is ignored.
    pub active: bool,
    /// "pt" | "en" | "es"
    pub source_language: String,
    /// "zh-cn"
    pub target_language: String,
    /// "windows_lp" | "marian" | "deepl" | "google"
    pub active_engine: String,
    /// "shift" | "ctrl+shift" | "alt"
    pub hotkey_modifier: String,
    /// "enter"
    pub hotkey_key: String,
}

/// Per-engine settings.
#[derive(Debug, Clone, PartialEq, Eq)]
pub struct EngineConfigs {
    pub deepl: DeepLConfig,
    pub google: GoogleConfig,
    pub marian: MarianConfig,
}

#[derive(Debug, Clone, PartialEq, Eq)]
pub struct DeepLConfig {
    pub api_key: String,
}

#[derive(Debug, Clone, PartialEq, Eq)]
pub struct GoogleConfig {
    pub api_key: String,
}

#[derive(Debug, Clone, PartialEq, Eq)]
pub struct MarianConfig {
    /// Folder holding the local models, as path text.
    pub model_path: String,
}

/// Notification and logging settings.
#[derive(Debug, Clone, PartialEq, Eq)]
pub struct UiConfig {
    pub show_notifications: bool,
    pub notification_duration_ms: u64,
    pub show_original_in_notification: bool,
    pub log_translations: bool,
    /// Log file, as path text.
    pub log_file: String,
}

/// The settings as plain values.
pub struct ConfigView {
    pub active: bool,
    pub source_language: Seq<char>,
    pub target_language: Seq<char>,
    pub active_engine: Seq<char>,
    pub hotkey_modifier: Seq<char>,
    pub hotkey_key: Seq<char>,
    pub deepl_api_key: Seq<char>,
    pub google_api_key: Seq<char>,
    pub marian_model_path: Seq<char>,
    pub show_notifications: bool,
    pub notification_duration_ms: u64,
    pub show_original_in_notification: bool,
    pub log_translations: bool,
    pub log_file: Seq<char>,
}

impl View for AppConfig {
    type V = ConfigView;

    open spec fn view(&self) -> ConfigView {
        ConfigView {
            active: self.general.active,
            source_language: self.general.source_language@,
            target_language: self.general.target_language@,
            active_engine: self.general.active_engine@,
            hotkey_modifier: self.general.hotkey_modifier@,
            hotkey_key: self.general.hotkey_key@,
            deepl_api_key: self.engines.deepl.api_key@,
            google_api_key: self.engines.google.api_key@,
            marian_model_path: self.engines.marian.model_path@,
            show_notifications: self.ui.show_notifications,
            notification_duration_ms: self.ui.notification_duration_ms,
            show_original_in_notification: self.ui.show_original_in_notification,
            log_translations: self.ui.log_translations,
            log_file: self.ui.log_file@,
        }
    }
}

/// The settings a fresh installation starts with.
pub open spec fn default_config() -> ConfigView {
    ConfigView {
        active: true,
        source_language: "pt"@,
        target_language: "zh-cn"@,
        active_engine: "windows_lp"@,
        hotkey_modifier: "shift"@,
        hotkey_key: "enter"@,
        deepl_api_key: ""@,
        google_api_key: ""@,
        marian_model_path: "./models"@,
        show_notifications: true,
        notification_duration_ms: 2000,
        show_original_in_notification: true,
        log_translations: true,
        log_file: "translations.log"@,
    }
}

impl Default for GeneralConfig {
    fn default() -> (r: Self)
        ensures
            r.active,
            r.source_language@ == "pt"@,
            r.target_language@ == "zh-cn"@,
            r.active_engine@ == "windows_lp"@,
            r.hotkey_modifier@ == "shift"@,
            r.hotkey_key@ == "enter"@,
    {
        GeneralConfig {
            active: true,
            source_language: String::from_str("pt"),
            target_language: String::from_str("zh-cn"),
            active_engine: String::from_str("windows_lp"),
            hotkey_modifier: String::from_str("shift"),
            hotkey_key: String::from_str("enter"),
        }
    }
}

impl Default for DeepLConfig {
    fn default() -> (r: Self)
        ensures
            r.api_key@ == ""@,
    {
        DeepLConfig { api_key: String::from_str("") }
    }
}

impl Default for GoogleConfig {
    fn default() -> (r: Self)
        ensures
            r.api_key@ == ""@,
    {
        GoogleConfig { api_key: String::from_str("") }
    }
}

impl Default for MarianConfig {
    fn default() -> (r: Self)
        ensures
            r.model_path@ == "./models"@,
    {
        MarianConfig { model_path: String::from_str("./models") }
    }
}

impl Default for EngineConfigs {
    fn default() -> (r: Self)
        ensures
            r.deepl.api_key@ == ""@,
            r.google.api_key@ == ""@,
            r.marian.model_path@ == "./models"@,
    {
        EngineConfigs {
            deepl: DeepLConfig::default(),
            google: GoogleConfig::default(),
            marian: MarianConfig::default(),
        }
    }
}

impl Default for UiConfig {
    fn default() -> (r: Self)
        ensures
            r.show_notifications,
            r.notification_duration_ms == 2000,
            r.show_original_in_notification,
            r.log_translations,
            r.log_file@ == "translations.log"@,
    {
        UiConfig {
            show_notifications: true,
            notification_duration_ms: 2000,
            show_original_in_notification: true,
            log_translations: true,
            log_file: String::from_str("translations.log"),
        }
    }
}

impl Default for AppConfig {
    fn default() -> (r: Self)
        ensures
            r@ == default_config(),
    {
        AppConfig {
            general: GeneralConfig::default(),
            engines: EngineConfigs::default(),
            ui: UiConfig::default(),
        }
    }
}

/// What start-up does with the result of reading the settings file.
pub enum Startup {
    /// The file was read and parsed: use it.
    Use(AppConfig),
    /// There is no file: write these defaults to it, then use them.
    CreateDefault(AppConfig),
    /// The file exists but could not be read or parsed.
    Fail(String),
}

impl AppConfig {
    /// Decides how start-up proceeds, given what loading the settings file
    /// gave (`loaded`) and whether the file exists (`path_exists`).
    pub fn load_or_create(loaded: Result<AppConfig, String>, path_exists: bool) -> (r: Startup)
        ensures
            match loaded {
                Ok(c) => r == Startup::Use(c),
                Err(e) => if path_exists {
                    r == Startup::Fail(e)
                } else {
                    r matches Startup::CreateDefault(d) && d@ == default_config()
                },
            },
    {
        match loaded {
            Ok(c) => Startup::Use(c),
            Err(e) => {
                if path_exists {
                    Startup::Fail(e)
                } else {
                    Startup::CreateDefault(AppConfig::default())
                }
            },
        }
    }
}

} // verus!
