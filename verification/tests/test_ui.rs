use tongyi_translator::clipboard::{read_text_retry, retry_allowed, text_units};
use tongyi_translator::config::AppConfig;
use tongyi_translator::hotkey::{modifier_flags, vk_code};
use tongyi_translator::input::{release_shift, simulate_paste, KeyStroke, VK_CONTROL, VK_SHIFT};
use tongyi_translator::logger::{log_translation, rotate_if_needed};
use tongyi_translator::translator::{HotpathError, TranslationResult};
use tongyi_translator::ui::notification::{show_error, show_translation};
use tongyi_translator::ui::tray::{MenuEntry, Tray, ID_EXIT, ID_SRC_PT};
use tongyi_translator::window::{
    apply_menu_command, build_balloon, maybe_notify, on_hotkey, on_tray_message, run_notice,
    MenuOutcome, TrayReaction,
};

fn result() -> TranslationResult {
    TranslationResult {
        original: " bom dia ".to_string(),
        translated: "早上好".to_string(),
        engine_used: "phrasebook".to_string(),
        duration_ms: 35,
    }
}

#[test]
fn hotkey_settings() {
    let mut cfg = AppConfig::default();
    assert_eq!(modifier_flags(&cfg), 0x4);
    cfg.general.hotkey_modifier = "ctrl+shift".to_string();
    assert_eq!(modifier_flags(&cfg), 0x6);
    cfg.general.hotkey_modifier = "alt".to_string();
    assert_eq!(modifier_flags(&cfg), 0x1);
    cfg.general.hotkey_modifier = "win".to_string();
    assert_eq!(modifier_flags(&cfg), 0x4);
    cfg.general.hotkey_key = "space".to_string();
    assert_eq!(vk_code(&cfg), 0x0D);
}

#[test]
fn key_strokes() {
    let s = simulate_paste();
    assert_eq!(s.len(), 4);
    assert_eq!(s[0], KeyStroke { vk: VK_CONTROL, key_up: false });
    assert_eq!(s[1], KeyStroke { vk: 0x56, key_up: false });
    assert_eq!(s[2], KeyStroke { vk: 0x56, key_up: true });
    assert_eq!(s[3], KeyStroke { vk: VK_CONTROL, key_up: true });
    assert_eq!(release_shift(), KeyStroke { vk: VK_SHIFT, key_up: true });
}

#[test]
fn clipboard_retry_decisions() {
    assert!(retry_allowed(0, 250));
    assert!(!retry_allowed(250, 250));
    assert_eq!(read_text_retry("x".to_string(), 900, 500), Some("x".to_string()));
    assert_eq!(read_text_retry(String::new(), 100, 500), None);
    assert_eq!(read_text_retry(String::new(), 500, 500), Some(String::new()));
    assert_eq!(text_units("hé"), vec![104, 233, 0]);
}

#[test]
fn logging() {
    let cfg = AppConfig::default();
    assert_eq!(
        log_translation(&cfg, &result(), "2024-01-02 03:04:05").unwrap(),
        "[2024-01-02 03:04:05] pt→zh-cn | phrasebook | 35ms | \"bom dia\" -> \"早上好\"\n"
    );
    let mut off = AppConfig::default();
    off.ui.log_translations = false;
    assert!(log_translation(&off, &result(), "t").is_none());
    assert!(!rotate_if_needed(1_000_000));
    assert!(rotate_if_needed(1_000_001));
}

#[test]
fn toasts() {
    let mut cfg = AppConfig::default();
    let t = show_translation(&cfg, &result()).unwrap();
    assert_eq!(t.title, "TōngYì 通译");
    assert_eq!(t.text1, "bom dia → 早上好");
    assert_eq!(t.text2.unwrap(), "Engine: phrasebook • 35ms");
    cfg.ui.show_original_in_notification = false;
    assert_eq!(show_translation(&cfg, &result()).unwrap().text1, "早上好");
    let e = show_error(&cfg, "boom").unwrap();
    assert_eq!(e.title, "TōngYì 通译 — Error");
    assert_eq!(e.text1, "boom");
    assert!(e.text2.is_none());
    cfg.ui.show_notifications = false;
    assert!(show_translation(&cfg, &result()).is_none());
    assert!(show_error(&cfg, "boom").is_none());
}

#[test]
fn tray_messages() {
    assert_eq!(Tray::extract_notify_code(0x0001_0400), 0x400);
    assert_eq!(Tray::extract_icon_id(0x0001_0400), 1);
    assert_eq!(Tray::extract_anchor_x(0x0020_FFFE), -2);
    assert_eq!(Tray::extract_anchor_y(0x0020_FFFE), 32);
    assert_eq!(Tray::extract_anchor_y(0x8000_0000), -32768);
    assert!(Tray::is_left_click(0x202));
    assert!(Tray::is_right_click(0x7B));
    assert!(!Tray::is_right_click(0x202));
    let cfg = AppConfig::default();
    assert_eq!(Tray::tip_text(&cfg, true), "TongYi - Active (windows_lp)");
    assert_eq!(Tray::tip_text(&cfg, false), "TongYi - Inactive (windows_lp)");
    let mut buf = [1u16; 8];
    Tray::fill_tooltip(&mut buf, &cfg, true);
    assert_eq!(buf, [84, 111, 110, 103, 89, 105, 32, 0]);
    let t = Tray::new(77);
    assert_eq!(t.hwnd(), 77);
}

#[test]
fn tray_menu_entries() {
    let mut cfg = AppConfig::default();
    cfg.general.source_language = "en".to_string();
    let m = Tray::build_menu(&cfg);
    assert_eq!(m.len(), 12);
    assert!(matches!(m[0], MenuEntry::Title("Engine:")));
    assert!(matches!(m[1], MenuEntry::Item { id: 1001, label: "Windows Language Pack", checked: true }));
    assert!(matches!(m[2], MenuEntry::Item { id: 1002, checked: false, .. }));
    assert!(matches!(m[5], MenuEntry::Separator));
    assert!(matches!(m[7], MenuEntry::Item { id: ID_SRC_PT, checked: false, .. }));
    assert!(matches!(m[8], MenuEntry::Item { id: 2002, label: "English (en)", checked: true }));
    assert!(matches!(m[11], MenuEntry::Item { id: ID_EXIT, label: "Exit", checked: false }));
}

#[test]
fn menu_commands() {
    let mut cfg = AppConfig::default();
    assert_eq!(apply_menu_command(&mut cfg, 1003), MenuOutcome::Changed("Engine: DeepL (API)"));
    assert_eq!(cfg.general.active_engine, "deepl");
    assert_eq!(apply_menu_command(&mut cfg, 2003), MenuOutcome::Changed("Source: ES"));
    assert_eq!(cfg.general.source_language, "es");
    let before = cfg.clone();
    assert_eq!(apply_menu_command(&mut cfg, 9999), MenuOutcome::Exit);
    assert_eq!(apply_menu_command(&mut cfg, 42), MenuOutcome::Unchanged);
    assert_eq!(cfg, before);
}

#[test]
fn tray_clicks_toggle_and_open_menu() {
    let mut cfg = AppConfig::default();
    let left = 0x0001_0202;
    assert_eq!(on_tray_message(&mut cfg, left), TrayReaction::Toggled("Translator disabled"));
    assert!(!cfg.general.active);
    assert!(!on_hotkey(&cfg, 1));
    assert_eq!(on_tray_message(&mut cfg, left), TrayReaction::Toggled("Translator enabled"));
    assert!(cfg.general.active);
    assert!(on_hotkey(&cfg, 1));
    assert!(!on_hotkey(&cfg, 2));
    assert_eq!(on_tray_message(&mut cfg, 0x0001_007B), TrayReaction::ShowMenu);
    assert_eq!(on_tray_message(&mut cfg, 0x0002_0202), TrayReaction::Ignore);
    assert_eq!(on_tray_message(&mut cfg, 0x0001_0200), TrayReaction::Ignore);
    assert!(cfg.general.active);
}

#[test]
fn balloons() {
    let long: String = std::iter::repeat('x').take(300).collect();
    let b = build_balloon("TongYi", &long, true);
    assert_eq!(b.title.len(), 64);
    assert_eq!(&b.title[..7], &[84, 111, 110, 103, 89, 105, 0]);
    assert_eq!(b.info.len(), 256);
    assert!(b.info[..200].iter().all(|&u| u == 120));
    assert!(b.info[200..].iter().all(|&u| u == 0));
    assert!(b.is_error);
    let mut cfg = AppConfig::default();
    let ok = run_notice(&cfg, &Ok(result())).unwrap();
    let text: Vec<u16> = "Translated (35 ms)".encode_utf16().collect();
    assert_eq!(&ok.info[..text.len()], &text[..]);
    assert!(!ok.is_error);
    let err = run_notice(&cfg, &Err(HotpathError::NoText)).unwrap();
    assert!(err.is_error);
    cfg.ui.show_notifications = false;
    assert!(maybe_notify(&cfg, "a", "b", false).is_none());
    assert!(run_notice(&cfg, &Err(HotpathError::NoText)).is_none());
}
