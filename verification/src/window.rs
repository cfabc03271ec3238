//! Decisions of the hidden window that owns the tray icon and the hotkey:
//! menu commands, tray clicks, hotkey presses, and balloon notices.

use vstd::prelude::*;
use crate::config::{AppConfig, ConfigView};
use crate::hotkey::HOTKEY_ID_TRANSLATE;
use crate::text::{decimal, decimal_string, first_chars, fixed_units, fill_fixed_utf16, join, truncate_chars, utf16};
use crate::translator::{HotpathError, TranslationResult, fault_text};
use crate::ui::tray::{
    EntryView, menu_for,
    ID_ENGINE_DEEPL, ID_ENGINE_GOOGLE, ID_ENGINE_MARIAN, ID_ENGINE_WINDOWS_LP, ID_EXIT, ID_SRC_EN,
    ID_SRC_ES, ID_SRC_PT, TRAY_UID, Tray, high_word, left_click, low_word, right_click,
};

verus! {

/// What a menu command did.
#[derive(Debug, Clone, Copy, PartialEq, Eq)]
pub enum MenuOutcome {
    /// Close the window and quit.
    Exit,
    /// A setting changed: save the settings, refresh the tooltip, and show this notice.
    Changed(&'static str),
    /// Nothing to do.
    Unchanged,
}

/// A menu outcome as plain values.
pub enum MenuOutcomeView {
    Exit,
    Changed(Seq<char>),
    Unchanged,
}

impl View for MenuOutcome {
    type V = MenuOutcomeView;

    open spec fn view(&self) -> MenuOutcomeView {
        match self {
            MenuOutcome::Exit => MenuOutcomeView::Exit,
            MenuOutcome::Changed(m) => MenuOutcomeView::Changed(m@),
            MenuOutcome::Unchanged => MenuOutcomeView::Unchanged,
        }
    }
}

/// The settings after menu command `cmd`, and what follows.
pub open spec fn menu_effect(c: ConfigView, cmd: u16) -> (ConfigView, MenuOutcomeView) {
    if cmd == ID_ENGINE_WINDOWS_LP {
        (
            ConfigView { active_engine: "windows_lp"@, ..c },
            MenuOutcomeView::Changed("Engine: Windows Language Pack"@),
        )
    } else if cmd == ID_ENGINE_MARIAN {
        (
            ConfigView { active_engine: "marian"@, ..c },
            MenuOutcomeView::Changed("Engine: MarianMT (Offline)"@),
        )
    } else if cmd == ID_ENGINE_DEEPL {
        (ConfigView { active_engine: "deepl"@, ..c }, MenuOutcomeView::Changed("Engine: DeepL (API)"@))
    } else if cmd == ID_ENGINE_GOOGLE {
        (
            ConfigView { active_engine: "google"@, ..c },
            MenuOutcomeView::Changed("Engine: Google Translate (API)"@),
        )
    } else if cmd == ID_SRC_PT {
        (ConfigView { source_language: "pt"@, ..c }, MenuOutcomeView::Changed("Source: PT"@))
    } else if cmd == ID_SRC_EN {
        (ConfigView { source_language: "en"@, ..c }, MenuOutcomeView::Changed("Source: EN"@))
    } else if cmd == ID_SRC_ES {
        (ConfigView { source_language: "es"@, ..c }, MenuOutcomeView::Changed("Source: ES"@))
    } else if cmd == ID_EXIT {
        (c, MenuOutcomeView::Exit)
    } else {
        (c, MenuOutcomeView::Unchanged)
    }
}

/// Applies a tray menu command to the settings.
pub fn apply_menu_command(cfg: &mut AppConfig, cmd: u16) -> (r: MenuOutcome)
    ensures
        (final(cfg)@, r@) == menu_effect(old(cfg)@, cmd),
{
    if cmd == ID_ENGINE_WINDOWS_LP {
        cfg.general.active_engine = String::from_str("windows_lp");
        MenuOutcome::Changed("Engine: Windows Language Pack")
    } else if cmd == ID_ENGINE_MARIAN {
        cfg.general.active_engine = String::from_str("marian");
        MenuOutcome::Changed("Engine: MarianMT (Offline)")
    } else if cmd == ID_ENGINE_DEEPL {
        cfg.general.active_engine = String::from_str("deepl");
        MenuOutcome::Changed("Engine: DeepL (API)")
    } else if cmd == ID_ENGINE_GOOGLE {
        cfg.general.active_engine = String::from_str("google");
        MenuOutcome::Changed("Engine: Google Translate (API)")
    } else if cmd == ID_SRC_PT {
        cfg.general.source_language = String::from_str("pt");
        MenuOutcome::Changed("Source: PT")
    } else if cmd == ID_SRC_EN {
        cfg.general.source_language = String::from_str("en");
        MenuOutcome::Changed("Source: EN")
    } else if cmd == ID_SRC_ES {
        cfg.general.source_language = String::from_str("es");
        MenuOutcome::Changed("Source: ES")
    } else if cmd == ID_EXIT {
        MenuOutcome::Exit
    } else {
        MenuOutcome::Unchanged
    }
}

/// What a tray callback asks for.
#[derive(Debug, Clone, Copy, PartialEq, Eq)]
pub enum TrayReaction {
    /// Not for our icon, or not a click.
    Ignore,
    /// The master switch was flipped: save, refresh icon and tooltip, show this notice.
    Toggled(&'static str),
    /// Show the context menu.
    ShowMenu,
}

/// A tray reaction as plain values.
pub enum TrayReactionView {
    Ignore,
    Toggled(Seq<char>),
    ShowMenu,
}

impl View for TrayReaction {
    type V = TrayReactionView;

    open spec fn view(&self) -> TrayReactionView {
        match self {
            TrayReaction::Ignore => TrayReactionView::Ignore,
            TrayReaction::Toggled(m) => TrayReactionView::Toggled(m@),
            TrayReaction::ShowMenu => TrayReactionView::ShowMenu,
        }
    }
}

/// The settings after a tray callback with `lparam`, and what follows: a left
/// click on our icon flips the master switch, a right click opens the menu.
pub open spec fn tray_effect(c: ConfigView, lparam: isize) -> (ConfigView, TrayReactionView) {
    let code = low_word(lparam as u32);
    let icon = high_word(lparam as u32);
    if icon != TRAY_UID {
        (c, TrayReactionView::Ignore)
    } else if left_click(code) {
        (
            ConfigView { active: !c.active, ..c },
            TrayReactionView::Toggled(
                if !c.active { "Translator enabled"@ } else { "Translator disabled"@ },
            ),
        )
    } else if right_click(code) {
        (c, TrayReactionView::ShowMenu)
    } else {
        (c, TrayReactionView::Ignore)
    }
}

/// Handles a tray callback message.
pub fn on_tray_message(cfg: &mut AppConfig, lparam: isize) -> (r: TrayReaction)
    ensures
        (final(cfg)@, r@) == tray_effect(old(cfg)@, lparam),
{
    let code = Tray::extract_notify_code(lparam);
    let icon = Tray::extract_icon_id(lparam);
    if icon != TRAY_UID {
        return TrayReaction::Ignore;
    }
    if Tray::is_left_click(code) {
        cfg.general.active = !cfg.general.active;
        if cfg.general.active {
            TrayReaction::Toggled("Translator enabled")
        } else {
            TrayReaction::Toggled("Translator disabled")
        }
    } else if Tray::is_right_click(code) {
        TrayReaction::ShowMenu
    } else {
        TrayReaction::Ignore
    }
}

/// Two left clicks on the icon give back the settings they started from.
pub proof fn law_double_toggle_restores(c: ConfigView, lparam: isize)
    requires
        high_word(lparam as u32) == TRAY_UID,
        left_click(low_word(lparam as u32)),
    ensures
        tray_effect(tray_effect(c, lparam).0, lparam).0 == c,
{
}

/// Whether a hotkey press starts a translation: our hotkey, while active.
pub fn on_hotkey(cfg: &AppConfig, hotkey_id: i32) -> (r: bool)
    ensures
        r == (hotkey_id == HOTKEY_ID_TRANSLATE && cfg@.active),
{
    hotkey_id == HOTKEY_ID_TRANSLATE && cfg.general.active
}

/// The fields of a balloon notice, ready for `NOTIFYICONDATAW`.
#[derive(Debug, Clone)]
pub struct Balloon {
    /// `szInfoTitle`: 64 units.
    pub title: Vec<u16>,
    /// `szInfo`: 256 units.
    pub info: Vec<u16>,
    pub is_error: bool,
}

/// The balloon's title buffer: at most 48 characters.
pub open spec fn balloon_title(title: Seq<char>) -> Seq<u16> {
    fixed_units(utf16(first_chars(title, 48)), 64)
}

/// The balloon's text buffer: at most 200 characters.
pub open spec fn balloon_info(msg: Seq<char>) -> Seq<u16> {
    fixed_units(utf16(first_chars(msg, 200)), 256)
}

fn fixed_buffer(s: &str, n: usize) -> (r: Vec<u16>)
    ensures
        r@ == fixed_units(utf16(s@), n as nat),
{
    let mut v: Vec<u16> = vec![0u16; n];
    fill_fixed_utf16(v.as_mut_slice(), s);
    v
}

/// Builds the balloon fields for a notice.
pub fn build_balloon(title: &str, msg: &str, is_error: bool) -> (b: Balloon)
    ensures
        b.title@ == balloon_title(title@),
        b.info@ == balloon_info(msg@),
        b.is_error == is_error,
{
    let t = truncate_chars(title, 48);
    let m = truncate_chars(msg, 200);
    Balloon { title: fixed_buffer(t.as_str(), 64), info: fixed_buffer(m.as_str(), 256), is_error }
}

/// The balloon for a notice, unless notifications are off.
pub fn maybe_notify(cfg: &AppConfig, title: &str, msg: &str, is_error: bool) -> (r: Option<Balloon>)
    ensures
        r is Some <==> cfg@.show_notifications,
        r matches Some(b) ==> b.title@ == balloon_title(title@) && b.info@ == balloon_info(msg@)
            && b.is_error == is_error,
{
    if !cfg.ui.show_notifications {
        return None;
    }
    Some(build_balloon(title, msg, is_error))
}

/// The notice text for the end of a run: how long a translation took, or
/// the error.
pub open spec fn run_notice_text(r: Result<(u64), crate::translator::FaultView>) -> Seq<char> {
    match r {
        Ok(ms) => "Translated ("@ + decimal(ms as nat) + " ms)"@,
        Err(f) => fault_text(f),
    }
}

pub open spec fn run_summary(r: Result<TranslationResult, HotpathError>) -> Result<(u64), crate::translator::FaultView> {
    match r {
        Ok(t) => Ok(t.duration_ms),
        Err(e) => Err(e@),
    }
}

/// The balloon shown when a run ends, titled "TongYi"; an error balloon on failure.
pub fn run_notice(cfg: &AppConfig, result: &Result<TranslationResult, HotpathError>) -> (r: Option<Balloon>)
    ensures
        r is Some <==> cfg@.show_notifications,
        r matches Some(b) ==> b.title@ == balloon_title("TongYi"@) && b.info@ == balloon_info(
            run_notice_text(run_summary(*result)),
        ) && b.is_error == (result is Err),
{
    match result {
        Ok(t) => {
            let ms = decimal_string(t.duration_ms);
            let a = join("Translated (", ms.as_str());
            let text = join(a.as_str(), " ms)");
            maybe_notify(cfg, "TongYi", text.as_str(), false)
        },
        Err(e) => {
            let text = e.message();
            maybe_notify(cfg, "TongYi", text.as_str(), true)
        },
    }
}


/// Choosing an engine or a source language in the tray menu is what the
/// menu then shows checked, and no other entry of that group is checked.
pub proof fn law_menu_choice_is_checked(c: ConfigView, cmd: u16)
    ensures
        ({
            let m = menu_for(menu_effect(c, cmd).0);
            &&& cmd == ID_ENGINE_WINDOWS_LP ==> m[1] == EntryView::Item(cmd, "Windows Language Pack"@, true)
                && m[2]->Item_2 == false && m[3]->Item_2 == false && m[4]->Item_2 == false
            &&& cmd == ID_ENGINE_MARIAN ==> m[2] == EntryView::Item(cmd, "MarianMT (Offline)"@, true)
                && m[1]->Item_2 == false && m[3]->Item_2 == false && m[4]->Item_2 == false
            &&& cmd == ID_ENGINE_DEEPL ==> m[3] == EntryView::Item(cmd, "DeepL (API)"@, true)
                && m[1]->Item_2 == false && m[2]->Item_2 == false && m[4]->Item_2 == false
            &&& cmd == ID_ENGINE_GOOGLE ==> m[4] == EntryView::Item(cmd, "Google Translate (API)"@, true)
                && m[1]->Item_2 == false && m[2]->Item_2 == false && m[3]->Item_2 == false
            &&& cmd == ID_SRC_PT ==> m[7] == EntryView::Item(cmd, "Portugues (pt)"@, true)
                && m[8]->Item_2 == false && m[9]->Item_2 == false
            &&& cmd == ID_SRC_EN ==> m[8] == EntryView::Item(cmd, "English (en)"@, true)
                && m[7]->Item_2 == false && m[9]->Item_2 == false
            &&& cmd == ID_SRC_ES ==> m[9] == EntryView::Item(cmd, "Espanol (es)"@, true)
                && m[7]->Item_2 == false && m[8]->Item_2 == false
        }),
{
    reveal_strlit("windows_lp");
    reveal_strlit("marian");
    reveal_strlit("deepl");
    reveal_strlit("google");
    reveal_strlit("pt");
    reveal_strlit("en");
    reveal_strlit("es");
    assert("windows_lp"@[0] == 'w' && "marian"@[0] == 'm' && "deepl"@[0] == 'd' && "google"@[0] == 'g');
    assert("pt"@[0] == 'p' && "en"@[1] == 'n' && "es"@[1] == 's');
    assert("windows_lp"@ != "marian"@ && "windows_lp"@ != "deepl"@ && "windows_lp"@ != "google"@);
    assert("marian"@ != "deepl"@ && "marian"@ != "google"@ && "deepl"@ != "google"@);
    assert("pt"@ != "en"@ && "pt"@ != "es"@ && "en"@ != "es"@);
}

} // verus!
