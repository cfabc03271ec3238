//! Simulated keyboard input: the key strokes behind each shortcut.

use vstd::prelude::*;

verus! {

/// `VK_SHIFT`.
pub const VK_SHIFT: u16 = 0x10;

/// `VK_CONTROL`.
pub const VK_CONTROL: u16 = 0x11;

/// The virtual key of the letter A.
pub const VK_A: u16 = 0x41;

/// The virtual key of the letter C.
pub const VK_C: u16 = 0x43;

/// The virtual key of the letter V.
pub const VK_V: u16 = 0x56;

/// One key going down or up.
#[derive(Debug, Clone, Copy, PartialEq, Eq)]
pub struct KeyStroke {
    pub vk: u16,
    pub key_up: bool,
}

/// Pressing `key` while `modifier` is held: modifier down, key down, key up,
/// modifier up.
pub open spec fn combo(modifier: u16, key: u16) -> Seq<KeyStroke> {
    seq![
        KeyStroke { vk: modifier, key_up: false },
        KeyStroke { vk: key, key_up: false },
        KeyStroke { vk: key, key_up: true },
        KeyStroke { vk: modifier, key_up: true },
    ]
}

/// The strokes of a shortcut, in the order they are sent; sending stops at
/// the first stroke that fails.
pub fn send_key_combo(modifier: u16, key: u16) -> (r: Vec<KeyStroke>)
    ensures
        r@ == combo(modifier, key),
{
    let mut r: Vec<KeyStroke> = Vec::new();
    r.push(KeyStroke { vk: modifier, key_up: false });
    r.push(KeyStroke { vk: key, key_up: false });
    r.push(KeyStroke { vk: key, key_up: true });
    r.push(KeyStroke { vk: modifier, key_up: true });
    assert(r@ =~= combo(modifier, key));
    r
}

/// Letting go of Shift, so a held hotkey modifier does not leak into the
/// shortcuts that follow.
pub fn release_shift() -> (r: KeyStroke)
    ensures
        r == (KeyStroke { vk: VK_SHIFT, key_up: true }),
{
    KeyStroke { vk: VK_SHIFT, key_up: true }
}

/// Ctrl+A.
pub fn simulate_select_all() -> (r: Vec<KeyStroke>)
    ensures
        r@ == combo(VK_CONTROL, VK_A),
{
    send_key_combo(VK_CONTROL, VK_A)
}

/// Ctrl+C.
pub fn simulate_copy() -> (r: Vec<KeyStroke>)
    ensures
        r@ == combo(VK_CONTROL, VK_C),
{
    send_key_combo(VK_CONTROL, VK_C)
}

/// Ctrl+V.
pub fn simulate_paste() -> (r: Vec<KeyStroke>)
    ensures
        r@ == combo(VK_CONTROL, VK_V),
{
    send_key_combo(VK_CONTROL, VK_V)
}

} // verus!
