//! The global hotkey: which modifier and key the settings ask for.

use vstd::prelude::*;
use crate::config::AppConfig;
use crate::text::same_text;

verus! {

/// The id the translate hotkey is registered under.
pub const HOTKEY_ID_TRANSLATE: i32 = 1;

/// `MOD_ALT` (WinUser.h).
pub const MOD_ALT: u32 = 0x0001;

/// `MOD_CONTROL` (WinUser.h).
pub const MOD_CONTROL: u32 = 0x0002;

/// `MOD_SHIFT` (WinUser.h).
pub const MOD_SHIFT: u32 = 0x0004;

/// `VK_RETURN`.
pub const VK_RETURN: u32 = 0x0D;

/// The modifier flags for a setting; anything unknown means Shift.
pub open spec fn modifier_bits(m: Seq<char>) -> u32 {
    if m == "shift"@ {
        MOD_SHIFT
    } else if m == "ctrl+shift"@ {
        MOD_CONTROL | MOD_SHIFT
    } else if m == "alt"@ {
        MOD_ALT
    } else {
        MOD_SHIFT
    }
}

/// The modifier flags the hotkey is registered with.
pub fn modifier_flags(cfg: &AppConfig) -> (r: u32)
    ensures
        r == modifier_bits(cfg@.hotkey_modifier),
{
    let m = cfg.general.hotkey_modifier.as_str();
    if same_text(m, "shift") {
        MOD_SHIFT
    } else if same_text(m, "ctrl+shift") {
        MOD_CONTROL | MOD_SHIFT
    } else if same_text(m, "alt") {
        MOD_ALT
    } else {
        MOD_SHIFT
    }
}

/// The virtual key the hotkey is registered with: Enter, the only key
/// supported ("enter" and anything else).
pub fn vk_code(cfg: &AppConfig) -> (r: u32)
    ensures
        r == VK_RETURN,
{
    if same_text(cfg.general.hotkey_key.as_str(), "enter") {
        VK_RETURN
    } else {
        VK_RETURN
    }
}

} // verus!
