use tongyi_translator::config::AppConfig;
use tongyi_translator::engine::router::Engine;
use tongyi_translator::engine::TranslationError;
use tongyi_translator::translator::{
    normalize_phrase, phrasebook_zh_cn, step, translate_via_selected_engine, Action, Event,
    HotpathError, Stage, TranslatingGuard, TranslationResult,
};

fn drive(cfg: &AppConfig, events: Vec<Event>) -> Vec<Action> {
    let mut stage = Stage::Idle;
    let mut out = Vec::new();
    for e in events {
        let (s, a) = step(stage, cfg, e);
        stage = s;
        out.push(a);
    }
    out
}

fn finish_of(a: &Action) -> &Result<TranslationResult, HotpathError> {
    match a {
        Action::Finish(r) => r,
        _ => panic!("expected a finish"),
    }
}

#[test]
fn normalization_and_phrasebook() {
    assert_eq!(normalize_phrase("  Bom Dia!! "), "bom dia");
    assert_eq!(normalize_phrase("¿Hola?"), "¿hola");
    assert_eq!(normalize_phrase("  ，谢谢。 "), "谢谢");
    assert_eq!(phrasebook_zh_cn("Good night."), Some("晚安"));
    assert_eq!(phrasebook_zh_cn("BUENOS DÍAS"), Some("早上好"));
    assert_eq!(phrasebook_zh_cn("Tudo bem?"), Some("你好吗？"));
    assert_eq!(phrasebook_zh_cn("por favor!"), Some("请"));
    assert_eq!(phrasebook_zh_cn("good day"), None);
}

#[test]
fn successful_run_with_engine() {
    let mut cfg = AppConfig::default();
    cfg.general.active_engine = "deepl".to_string();
    cfg.general.source_language = " en ".to_string();
    let acts = drive(
        &cfg,
        vec![
            Event::Start,
            Event::BackedUp(Ok(())),
            Event::Foreground(42),
            Event::SelectionRead(Ok("  a long sentence \n".to_string())),
            Event::EngineDone(Ok("一个长句子".to_string())),
            Event::Foreground(42),
            Event::ClipboardWritten(Ok(())),
            Event::Pasted(Ok(())),
            Event::Restored { elapsed_ms: 120 },
        ],
    );
    assert!(matches!(acts[0], Action::BackupClipboard));
    assert!(matches!(acts[1], Action::FindForeground));
    assert!(matches!(acts[2], Action::ReadSelection));
    match &acts[3] {
        Action::RunEngine(job) => {
            assert!(matches!(job.engine, Engine::DeepL(_)));
            assert_eq!(job.text, "a long sentence");
            assert_eq!(job.source, "en");
            assert_eq!(job.target, "zh-cn");
        }
        _ => panic!("expected an engine call"),
    }
    assert!(matches!(acts[4], Action::CheckForeground));
    match &acts[5] {
        Action::WriteClipboard(t) => assert_eq!(t, "一个长句子"),
        _ => panic!("expected a clipboard write"),
    }
    assert!(matches!(acts[6], Action::Paste(42)));
    assert!(matches!(acts[7], Action::RestoreClipboard));
    let r = finish_of(&acts[8]).as_ref().unwrap();
    assert_eq!(r.original, "a long sentence");
    assert_eq!(r.translated, "一个长句子");
    assert_eq!(r.engine_used, "DeepL");
    assert_eq!(r.duration_ms, 120);
}

#[test]
fn focus_change_aborts_paste_and_restores() {
    let cfg = AppConfig::default();
    let acts = drive(
        &cfg,
        vec![
            Event::Start,
            Event::BackedUp(Ok(())),
            Event::Foreground(7),
            Event::SelectionRead(Ok("bom dia".to_string())),
            Event::Foreground(8),
            Event::Restored { elapsed_ms: 5 },
        ],
    );
    assert!(matches!(acts[3], Action::CheckForeground));
    assert!(matches!(acts[4], Action::RestoreClipboard));
    assert!(acts.iter().all(|a| !matches!(a, Action::Paste(_))));
    assert!(matches!(finish_of(&acts[5]), Err(HotpathError::FocusChanged)));
}

#[test]
fn phrasebook_answers_without_engine() {
    let cfg = AppConfig::default();
    let acts = drive(
        &cfg,
        vec![
            Event::Start,
            Event::BackedUp(Ok(())),
            Event::Foreground(3),
            Event::SelectionRead(Ok(" Obrigado! ".to_string())),
            Event::Foreground(3),
            Event::ClipboardWritten(Ok(())),
            Event::Pasted(Ok(())),
            Event::Restored { elapsed_ms: 9 },
        ],
    );
    assert!(acts.iter().all(|a| !matches!(a, Action::RunEngine(_))));
    match &acts[4] {
        Action::WriteClipboard(t) => assert_eq!(t, "谢谢"),
        _ => panic!("expected a clipboard write"),
    }
    let r = finish_of(&acts[7]).as_ref().unwrap();
    assert_eq!(r.engine_used, "phrasebook");
    assert_eq!(r.original, "Obrigado!");
}

#[test]
fn failures_restore_the_clipboard_except_a_failed_backup() {
    let cfg = AppConfig::default();
    let acts = drive(&cfg, vec![Event::Start, Event::BackedUp(Err("busy".to_string()))]);
    match finish_of(&acts[1]) {
        Err(e) => assert_eq!(e.message(), "clipboard backup failed: busy"),
        _ => panic!(),
    }
    let acts = drive(&cfg, vec![Event::Start, Event::BackedUp(Ok(())), Event::Foreground(0), Event::Restored { elapsed_ms: 1 }]);
    assert!(matches!(acts[2], Action::RestoreClipboard));
    assert!(matches!(finish_of(&acts[3]), Err(HotpathError::NoForegroundWindow)));
    let acts = drive(
        &cfg,
        vec![Event::Start, Event::BackedUp(Ok(())), Event::Foreground(1), Event::SelectionRead(Ok(" \t ".to_string())), Event::Restored { elapsed_ms: 1 }],
    );
    assert!(matches!(acts[3], Action::RestoreClipboard));
    match finish_of(&acts[4]) {
        Err(e) => assert_eq!(e.message(), "no text detected in active field"),
        _ => panic!(),
    }
    let mut cfg2 = AppConfig::default();
    cfg2.general.active_engine = "google".to_string();
    let acts = drive(
        &cfg2,
        vec![
            Event::Start,
            Event::BackedUp(Ok(())),
            Event::Foreground(1),
            Event::SelectionRead(Ok("some text".to_string())),
            Event::EngineDone(Err(TranslationError::ApiKeyMissing)),
            Event::Restored { elapsed_ms: 1 },
        ],
    );
    assert!(matches!(acts[4], Action::RestoreClipboard));
    match finish_of(&acts[5]) {
        Err(e) => assert_eq!(e.message(), "translation failed: api key missing"),
        _ => panic!(),
    }
}

#[test]
fn out_of_place_events_are_ignored() {
    let cfg = AppConfig::default();
    let acts = drive(&cfg, vec![Event::Foreground(3), Event::Start, Event::Start, Event::Restored { elapsed_ms: 1 }]);
    assert!(matches!(acts[0], Action::Ignore));
    assert!(matches!(acts[1], Action::BackupClipboard));
    assert!(matches!(acts[2], Action::Ignore));
    assert!(matches!(acts[3], Action::Ignore));
}

#[test]
fn single_flight_guard() {
    let mut busy = false;
    let g = TranslatingGuard::enter(&mut busy).ok().unwrap();
    assert!(busy);
    match TranslatingGuard::enter(&mut busy) {
        Err(e) => assert_eq!(e.message(), "translation already in progress"),
        Ok(_) => panic!("a second run must be refused"),
    }
    g.leave(&mut busy);
    assert!(!busy);
    assert!(TranslatingGuard::enter(&mut busy).is_ok());
}

#[test]
fn error_texts() {
    assert_eq!(HotpathError::ReadFailed("Ctrl+A failed".into()).message(), "Ctrl+A failed");
    assert_eq!(HotpathError::WriteFailed("x".into()).message(), "write translated text to clipboard failed: x");
    assert_eq!(HotpathError::PasteFailed("x".into()).message(), "Ctrl+V failed: x");
    assert_eq!(
        HotpathError::FocusChanged.message(),
        "focus changed during translation; aborted paste to avoid wrong target"
    );
    assert_eq!(HotpathError::NoForegroundWindow.message(), "no foreground window");
}

#[test]
fn job_uses_trimmed_languages() {
    let mut cfg = AppConfig::default();
    cfg.general.target_language = " zh-cn\n".to_string();
    let job = translate_via_selected_engine(&cfg, "texto");
    assert!(matches!(job.engine, Engine::WindowsLp(_)));
    assert_eq!(job.text, "texto");
    assert_eq!(job.source, "pt");
    assert_eq!(job.target, "zh-cn");
}
