use tongyi_translator::engine::windows_lp::WindowsLPEngine;
use tongyi_translator::engine::TranslationEngine;
use tongyi_translator::engine::TranslationError;

#[test]
fn test_windows_lp_placeholder_translates_common_phrases() {
    let e = WindowsLPEngine::new();
    assert_eq!(e.translate("Hello", "en", "zh-cn").unwrap(), "你好");
    assert_eq!(e.translate("Bom dia", "pt", "zh-cn").unwrap(), "早上好");
}

#[test]
fn windows_lp_reports_unavailable_outside_the_phrasebook() {
    let e = WindowsLPEngine::new();
    assert_eq!(e.name(), "Windows LP");
    assert!(!e.requires_api_key());
    assert!(!e.is_available());
    let expected = TranslationError::EngineUnavailable(
        "Windows Language Pack translation is not implemented yet on this build".to_string(),
    );
    assert_eq!(e.translate("a long sentence", "en", "zh-cn"), Err(expected.clone()));
    assert_eq!(e.translate("Hello", "en", "en"), Err(expected));
    assert_eq!(e.translate("  GRACIAS!! ", "es", " zh-cn ").unwrap(), "谢谢");
}
