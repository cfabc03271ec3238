use tongyi_translator::config::{AppConfig, Startup};

#[test]
fn test_missing_file_creates_default() {
    let outcome = AppConfig::load_or_create(Err("cannot read config.toml".to_string()), false);
    match outcome {
        Startup::CreateDefault(cfg) => assert_eq!(cfg, AppConfig::default()),
        _ => panic!("a missing file must give the defaults"),
    }
}

#[test]
fn defaults_match_the_documented_settings() {
    let cfg = AppConfig::default();
    assert!(cfg.general.active);
    assert_eq!(cfg.general.source_language, "pt");
    assert_eq!(cfg.general.target_language, "zh-cn");
    assert_eq!(cfg.general.active_engine, "windows_lp");
    assert_eq!(cfg.general.hotkey_modifier, "shift");
    assert_eq!(cfg.general.hotkey_key, "enter");
    assert_eq!(cfg.engines.deepl.api_key, "");
    assert_eq!(cfg.engines.google.api_key, "");
    assert_eq!(cfg.engines.marian.model_path, "./models");
    assert!(cfg.ui.show_notifications);
    assert_eq!(cfg.ui.notification_duration_ms, 2000);
    assert!(cfg.ui.show_original_in_notification);
    assert!(cfg.ui.log_translations);
    assert_eq!(cfg.ui.log_file, "translations.log");
}

#[test]
fn loaded_file_is_used_and_unreadable_existing_file_fails() {
    let mut cfg = AppConfig::default();
    cfg.general.active_engine = "google".to_string();
    match AppConfig::load_or_create(Ok(cfg.clone()), true) {
        Startup::Use(c) => assert_eq!(c, cfg),
        _ => panic!("a loaded file must be used"),
    }
    match AppConfig::load_or_create(Err("Failed to parse TOML: config.toml".to_string()), true) {
        Startup::Fail(m) => assert_eq!(m, "Failed to parse TOML: config.toml"),
        _ => panic!("a broken existing file must fail"),
    }
}
