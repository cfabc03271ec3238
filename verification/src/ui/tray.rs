//! The tray icon: reading its callback messages (NOTIFYICON_VERSION_4
//! layout), its tooltip, and the entries of its menu.

use vstd::prelude::*;
use crate::config::{AppConfig, ConfigView};
use crate::text::{fill_fixed_utf16, fixed_units, join, same_text, utf16};

verus! {

/// `WM_USER`.
pub const WM_USER: u32 = 0x0400;

/// The message the tray icon reports through.
pub const WM_TRAYICON: u32 = WM_USER + 1;

/// The id of the one tray icon.
pub const TRAY_UID: u32 = 1;

pub const ID_ENGINE_WINDOWS_LP: u16 = 1001;
pub const ID_ENGINE_MARIAN: u16 = 1002;
pub const ID_ENGINE_DEEPL: u16 = 1003;
pub const ID_ENGINE_GOOGLE: u16 = 1004;

pub const ID_SRC_PT: u16 = 2001;
pub const ID_SRC_EN: u16 = 2002;
pub const ID_SRC_ES: u16 = 2003;

pub const ID_EXIT: u16 = 9999;

/// `NIN_SELECT` (`WM_USER + 0`).
pub const NIN_SELECT: u32 = 0x0400;

/// `WM_LBUTTONUP`.
pub const WM_LBUTTONUP: u32 = 0x0202;

/// `WM_CONTEXTMENU`.
pub const WM_CONTEXTMENU: u32 = 0x007B;

/// `WM_RBUTTONUP`.
pub const WM_RBUTTONUP: u32 = 0x0205;

/// The tray icon of a window (its handle as an integer).
pub struct Tray {
    hwnd: usize,
}

/// The low 16 bits of a word.
pub open spec fn low_word(x: u32) -> u32 {
    x % 0x10000
}

/// Bits 16 to 31 of a word.
pub open spec fn high_word(x: u32) -> u32 {
    (x / 0x10000) % 0x10000
}

/// A 16-bit value read as a signed number.
pub open spec fn signed16(w: u32) -> i32 {
    if w < 0x8000 {
        w as i32
    } else {
        (w - 0x10000) as i32
    }
}

/// Whether a notification code is a left click (or keyboard select).
pub open spec fn left_click(code: u32) -> bool {
    code == NIN_SELECT || code == WM_LBUTTONUP
}

/// Whether a notification code asks for the context menu.
pub open spec fn right_click(code: u32) -> bool {
    code == WM_CONTEXTMENU || code == WM_RBUTTONUP
}

/// The tooltip text.
pub open spec fn tip_for(engine: Seq<char>, active: bool) -> Seq<char> {
    "TongYi - "@ + (if active { "Active"@ } else { "Inactive"@ }) + " ("@ + engine + ")"@
}

/// One entry of the tray menu.
#[derive(Debug, Clone, Copy)]
pub enum MenuEntry {
    /// A greyed heading.
    Title(&'static str),
    /// A command; `checked` marks the current choice.
    Item { id: u16, label: &'static str, checked: bool },
    Separator,
}

/// A menu entry as plain values.
pub enum EntryView {
    Title(Seq<char>),
    Item(u16, Seq<char>, bool),
    Separator,
}

impl View for MenuEntry {
    type V = EntryView;

    open spec fn view(&self) -> EntryView {
        match self {
            MenuEntry::Title(t) => EntryView::Title(t@),
            MenuEntry::Item { id, label, checked } => EntryView::Item(*id, label@, *checked),
            MenuEntry::Separator => EntryView::Separator,
        }
    }
}

/// The tray menu for the settings `c`: the engines, then the source
/// languages, each with the current one checked, then Exit.
pub open spec fn menu_for(c: ConfigView) -> Seq<EntryView> {
    seq![
        EntryView::Title("Engine:"@),
        EntryView::Item(ID_ENGINE_WINDOWS_LP, "Windows Language Pack"@, c.active_engine == "windows_lp"@),
        EntryView::Item(ID_ENGINE_MARIAN, "MarianMT (Offline)"@, c.active_engine == "marian"@),
        EntryView::Item(ID_ENGINE_DEEPL, "DeepL (API)"@, c.active_engine == "deepl"@),
        EntryView::Item(ID_ENGINE_GOOGLE, "Google Translate (API)"@, c.active_engine == "google"@),
        EntryView::Separator,
        EntryView::Title("Source language:"@),
        EntryView::Item(ID_SRC_PT, "Portugues (pt)"@, c.source_language == "pt"@),
        EntryView::Item(ID_SRC_EN, "English (en)"@, c.source_language == "en"@),
        EntryView::Item(ID_SRC_ES, "Espanol (es)"@, c.source_language == "es"@),
        EntryView::Separator,
        EntryView::Item(ID_EXIT, "Exit"@, false),
    ]
}

/// Writes `s` into a fixed tooltip buffer (see `fill_fixed_utf16`).
fn fill_tip(buf: &mut [u16], s: &str)
    ensures
        final(buf)@ == fixed_units(utf16(s@), old(buf)@.len()),
{
    fill_fixed_utf16(buf, s);
}

impl Tray {
    /// The window handle.
    pub closed spec fn handle(&self) -> usize {
        self.hwnd
    }

    pub fn new(hwnd: usize) -> (r: Self)
        ensures
            r.handle() == hwnd,
    {
        Tray { hwnd }
    }

    /// The window the icon belongs to.
    pub fn hwnd(&self) -> (r: usize)
        ensures
            r == self.handle(),
    {
        self.hwnd
    }

    /// The notification code: the low word of `lparam`.
    pub fn extract_notify_code(lparam: isize) -> (r: u32)
        ensures
            r == low_word(lparam as u32),
    {
        let x = lparam as u32;
        assert(x & 0xFFFF == x % 0x10000) by (bit_vector);
        x & 0xFFFF
    }

    /// The icon id: the high word of `lparam`.
    pub fn extract_icon_id(lparam: isize) -> (r: u32)
        ensures
            r == high_word(lparam as u32),
    {
        let x = lparam as u32;
        assert((x >> 16) & 0xFFFF == (x / 0x10000) % 0x10000) by (bit_vector);
        (x >> 16) & 0xFFFF
    }

    /// The anchor's x coordinate: the low word of `wparam`, signed.
    pub fn extract_anchor_x(wparam: usize) -> (r: i32)
        ensures
            r == signed16(low_word(wparam as u32)),
    {
        let x = wparam as u32;
        assert(x & 0xFFFF == x % 0x10000) by (bit_vector);
        let w = x & 0xFFFF;
        if w < 0x8000 {
            w as i32
        } else {
            (w as i32) - 0x10000
        }
    }

    /// The anchor's y coordinate: the high word of `wparam`, signed.
    pub fn extract_anchor_y(wparam: usize) -> (r: i32)
        ensures
            r == signed16(high_word(wparam as u32)),
    {
        let x = wparam as u32;
        assert((x >> 16) & 0xFFFF == (x / 0x10000) % 0x10000) by (bit_vector);
        let w = (x >> 16) & 0xFFFF;
        if w < 0x8000 {
            w as i32
        } else {
            (w as i32) - 0x10000
        }
    }

    pub fn is_left_click(code: u32) -> (r: bool)
        ensures
            r == left_click(code),
    {
        code == NIN_SELECT || code == WM_LBUTTONUP
    }

    pub fn is_right_click(code: u32) -> (r: bool)
        ensures
            r == right_click(code),
    {
        code == WM_CONTEXTMENU || code == WM_RBUTTONUP
    }

    /// The tooltip for the settings and the on/off state.
    pub fn tip_text(config: &AppConfig, active: bool) -> (r: String)
        ensures
            r@ == tip_for(config@.active_engine, active),
    {
        let state = if active { "Active" } else { "Inactive" };
        let a = join("TongYi - ", state);
        let b = join(a.as_str(), " (");
        let c = join(b.as_str(), config.general.active_engine.as_str());
        join(c.as_str(), ")")
    }

    /// Writes the tooltip for the settings into a fixed buffer.
    pub fn fill_tooltip(buf: &mut [u16], config: &AppConfig, active: bool)
        ensures
            final(buf)@ == fixed_units(utf16(tip_for(config@.active_engine, active)), old(buf)@.len()),
    {
        let t = Self::tip_text(config, active);
        fill_tip(buf, t.as_str());
    }

    /// The entries of the tray menu, in order.
    pub fn build_menu(config: &AppConfig) -> (r: Vec<MenuEntry>)
        ensures
            r@.map_values(|e: MenuEntry| e@) == menu_for(config@),
    {
        let eng = config.general.active_engine.as_str();
        let src = config.general.source_language.as_str();
        let mut r: Vec<MenuEntry> = Vec::new();
        r.push(MenuEntry::Title("Engine:"));
        r.push(
            MenuEntry::Item {
                id: ID_ENGINE_WINDOWS_LP,
                label: "Windows Language Pack",
                checked: same_text(eng, "windows_lp"),
            },
        );
        r.push(
            MenuEntry::Item {
                id: ID_ENGINE_MARIAN,
                label: "MarianMT (Offline)",
                checked: same_text(eng, "marian"),
            },
        );
        r.push(
            MenuEntry::Item { id: ID_ENGINE_DEEPL, label: "DeepL (API)", checked: same_text(eng, "deepl") },
        );
        r.push(
            MenuEntry::Item {
                id: ID_ENGINE_GOOGLE,
                label: "Google Translate (API)",
                checked: same_text(eng, "google"),
            },
        );
        r.push(MenuEntry::Separator);
        r.push(MenuEntry::Title("Source language:"));
        r.push(MenuEntry::Item { id: ID_SRC_PT, label: "Portugues (pt)", checked: same_text(src, "pt") });
        r.push(MenuEntry::Item { id: ID_SRC_EN, label: "English (en)", checked: same_text(src, "en") });
        r.push(MenuEntry::Item { id: ID_SRC_ES, label: "Espanol (es)", checked: same_text(src, "es") });
        r.push(MenuEntry::Separator);
        r.push(MenuEntry::Item { id: ID_EXIT, label: "Exit", checked: false });
        assert(r@.map_values(|e: MenuEntry| e@) =~= menu_for(config@));
        r
    }
}

} // verus!
