use tongyi_translator::engine::deepl::{DeepLEngine, DeepLResponse, DeepLTranslation};
use tongyi_translator::engine::google::{GoogleData, GoogleEngine, GoogleResponse, GoogleTranslation};
use tongyi_translator::engine::marian::{MarianEngine, MarianReply, WorkerStatus};
use tongyi_translator::engine::{HttpReply, TranslationEngine, TranslationError};

fn pairs(v: &[(&str, &str)]) -> Vec<(String, String)> {
    v.iter().map(|(a, b)| (a.to_string(), b.to_string())).collect()
}

#[test]
fn deepl_request_uses_trimmed_key_and_free_endpoint() {
    let e = DeepLEngine::new(" abc:fx ".to_string());
    let req = e.prepare("Olá", "pt", "zh-cn").unwrap();
    assert_eq!(req.url, "https://api-free.deepl.com/v2/translate");
    assert!(req.query.is_empty());
    assert_eq!(
        req.form,
        pairs(&[("auth_key", "abc:fx"), ("text", "Olá"), ("target_lang", "ZH"), ("source_lang", "PT")])
    );
    let e = DeepLEngine::new("paid".to_string());
    let req = e.prepare("x", "fr", "zh-cn").unwrap();
    assert_eq!(req.url, "https://api.deepl.com/v2/translate");
    assert_eq!(req.form, pairs(&[("auth_key", "paid"), ("text", "x"), ("target_lang", "ZH")]));
    assert_eq!(e.name(), "DeepL");
    assert!(e.requires_api_key());
    assert!(e.is_available());
}

#[test]
fn deepl_refuses_missing_key_and_unknown_target() {
    let e = DeepLEngine::new("   ".to_string());
    assert_eq!(e.prepare("x", "pt", "zh-cn").unwrap_err(), TranslationError::ApiKeyMissing);
    let e = DeepLEngine::new("k".to_string());
    assert_eq!(
        e.prepare("x", "pt", "ja").unwrap_err(),
        TranslationError::LanguageNotSupported("ja".to_string())
    );
}

#[test]
fn deepl_reply_reading() {
    let ok = |body: &str| Ok(HttpReply { status: 200, body: body.to_string() });
    let resp = |t: &str| DeepLResponse { translations: vec![DeepLTranslation { text: t.to_string() }] };
    assert_eq!(DeepLEngine::finish(ok("{}"), Some(resp("  你好 "))).unwrap(), "你好");
    assert_eq!(
        DeepLEngine::finish(Ok(HttpReply { status: 403, body: "Forbidden".to_string() }), None),
        Err(TranslationError::TranslationFailed("DeepL HTTP 403: Forbidden".to_string()))
    );
    assert_eq!(
        DeepLEngine::finish(ok("oops"), None),
        Err(TranslationError::TranslationFailed("DeepL JSON parse failed: oops".to_string()))
    );
    assert_eq!(
        DeepLEngine::finish(ok("{}"), Some(DeepLResponse { translations: vec![] })),
        Err(TranslationError::TranslationFailed("DeepL returned empty translation".to_string()))
    );
    assert_eq!(
        DeepLEngine::finish(Err("timed out".to_string()), None),
        Err(TranslationError::NetworkError("timed out".to_string()))
    );
}

#[test]
fn google_request_and_reply() {
    let e = GoogleEngine::new("key1".to_string());
    let req = e.prepare("hola", "es", "zh-cn").unwrap();
    assert_eq!(req.url, "https://translation.googleapis.com/language/translate/v2");
    assert_eq!(req.query, pairs(&[("key", "key1")]));
    assert_eq!(
        req.form,
        pairs(&[("q", "hola"), ("source", "es"), ("target", "zh-CN"), ("format", "text")])
    );
    assert_eq!(
        e.prepare("hola", "de", "zh-cn").unwrap_err(),
        TranslationError::LanguageNotSupported("de".to_string())
    );
    assert_eq!(GoogleEngine::new(String::new()).prepare("a", "pt", "en").unwrap_err(), TranslationError::ApiKeyMissing);
    let parsed = GoogleResponse {
        data: GoogleData { translations: vec![GoogleTranslation { translated_text: "谢谢".to_string() }] },
    };
    let reply = Ok(HttpReply { status: 200, body: "{..}".to_string() });
    assert_eq!(GoogleEngine::finish(reply, Some(parsed)).unwrap(), "谢谢");
    assert_eq!(
        GoogleEngine::finish(Ok(HttpReply { status: 500, body: String::new() }), None),
        Err(TranslationError::TranslationFailed("Google HTTP 500: ".to_string()))
    );
    assert_eq!(e.name(), "Google Translate");
}

#[test]
fn marian_languages_and_request_line() {
    assert_eq!(
        MarianEngine::map_lang(" PT ", "ZH-CN").unwrap(),
        ("pt".to_string(), "zh-cn".to_string())
    );
    assert_eq!(
        MarianEngine::map_lang("pt", "en").unwrap_err(),
        TranslationError::LanguageNotSupported(
            "Marian only wired for target zh-cn right now (got en)".to_string()
        )
    );
    assert_eq!(
        MarianEngine::map_lang("FR", "zh-cn").unwrap_err(),
        TranslationError::LanguageNotSupported("fr".to_string())
    );
    let e = MarianEngine::new(String::new());
    assert_eq!(
        e.prepare("Bom \"dia\"", "pt", "zh-cn").unwrap(),
        r#"{"model_root":"./models","source":"pt","target":"zh-cn","text":"Bom \"dia\""}"#
    );
    let e = MarianEngine::new("C:/m".to_string());
    assert!(e.prepare("x", "en", "zh-cn").unwrap().contains(r#""model_root":"C:/m""#));
    assert_eq!(MarianEngine::ping_line(), r#"{"cmd":"ping"}"#);
    assert_eq!(e.name(), "MarianMT");
    assert!(!e.requires_api_key());
}

#[test]
fn marian_reply_reading_and_worker_decision() {
    let reply = |ok: bool, t: Option<&str>, err: Option<&str>| MarianReply {
        ok,
        translated: t.map(|s| s.to_string()),
        error: err.map(|s| s.to_string()),
    };
    assert_eq!(MarianEngine::finish(reply(true, Some(" 早上好\n"), None)).unwrap(), "早上好");
    assert_eq!(
        MarianEngine::finish(reply(false, None, Some("model missing"))),
        Err(TranslationError::TranslationFailed("model missing".to_string()))
    );
    assert_eq!(
        MarianEngine::finish(reply(false, None, None)),
        Err(TranslationError::TranslationFailed("unknown error".to_string()))
    );
    assert_eq!(
        MarianEngine::finish(reply(true, None, None)),
        Err(TranslationError::TranslationFailed("Marian returned empty translation".to_string()))
    );
    assert!(MarianEngine::needs_spawn(WorkerStatus::Absent));
    assert!(MarianEngine::needs_spawn(WorkerStatus::Exited));
    assert!(MarianEngine::needs_spawn(WorkerStatus::Unknown));
    assert!(!MarianEngine::needs_spawn(WorkerStatus::Running));
}

#[test]
fn error_messages() {
    assert_eq!(TranslationError::ApiKeyMissing.message(), "api key missing");
    assert_eq!(TranslationError::NetworkError("x".into()).message(), "network error: x");
    assert_eq!(TranslationError::LanguageNotSupported("x".into()).message(), "language not supported: x");
    assert_eq!(TranslationError::ModelNotFound("x".into()).message(), "model not found: x");
    assert_eq!(TranslationError::EngineUnavailable("x".into()).message(), "engine unavailable: x");
    assert_eq!(TranslationError::TranslationFailed("x".into()).message(), "translation failed: x");
}
