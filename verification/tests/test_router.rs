use tongyi_translator::config::AppConfig;
use tongyi_translator::engine::router;

#[test]
fn test_router_returns_correct_engine_name() {
    let mut cfg = AppConfig::default();

    cfg.general.active_engine = "windows_lp".to_string();
    assert_eq!(router::get_engine(&cfg).name(), "Windows LP");

    cfg.general.active_engine = "marian".to_string();
    assert_eq!(router::get_engine(&cfg).name(), "MarianMT");

    cfg.general.active_engine = "deepl".to_string();
    assert_eq!(router::get_engine(&cfg).name(), "DeepL");

    cfg.general.active_engine = "google".to_string();
    assert_eq!(router::get_engine(&cfg).name(), "Google Translate");

    cfg.general.active_engine = "unknown".to_string();
    assert_eq!(router::get_engine(&cfg).name(), "Windows LP");
}

#[test]
fn router_carries_the_configured_settings() {
    let mut cfg = AppConfig::default();
    cfg.general.active_engine = "deepl".to_string();
    cfg.engines.deepl.api_key = "k:fx".to_string();
    let e = router::get_engine(&cfg);
    assert!(e.requires_api_key());
    match e {
        router::Engine::DeepL(_) => {}
        _ => panic!("expected DeepL"),
    }
    cfg.general.active_engine = "marian".to_string();
    assert!(!router::get_engine(&cfg).requires_api_key());
    cfg.general.active_engine = "Google".to_string();
    assert_eq!(router::get_engine(&cfg).name(), "Windows LP");
}
