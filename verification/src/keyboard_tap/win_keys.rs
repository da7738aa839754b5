//! Windows key codes.

use vstd::prelude::*;

verus! {

/// Virtual-key codes, as the system defines them.
pub const VK_RETURN: u32 = 0x0D;

pub const VK_ESCAPE: u32 = 0x1B;

pub const VK_SHIFT: u32 = 0x10;

pub const VK_CONTROL: u32 = 0x11;

pub const VK_MENU: u32 = 0x12;

pub const VK_CAPITAL: u32 = 0x14;

pub const VK_LWIN: u32 = 0x5B;

pub const VK_RWIN: u32 = 0x5C;

pub const VK_LSHIFT: u32 = 0xA0;

pub const VK_RSHIFT: u32 = 0xA1;

pub const VK_LCONTROL: u32 = 0xA2;

pub const VK_RCONTROL: u32 = 0xA3;

pub const VK_LMENU: u32 = 0xA4;

pub const VK_RMENU: u32 = 0xA5;

/// True of the hotkey that toggles fullscreen: Ctrl and Enter.
pub fn is_win_toggle_fullscreen(vk: u32, ctrl: bool) -> (r: bool)
    ensures
        r == (ctrl && vk == VK_RETURN),
{
    ctrl && vk == VK_RETURN
}

/// True of the hotkey that turns capture on and off: Ctrl and Escape.
pub fn is_win_toggle_capture(vk: u32, ctrl: bool) -> (r: bool)
    ensures
        r == (ctrl && vk == VK_ESCAPE),
{
    ctrl && vk == VK_ESCAPE
}

/// The modifiers that this machine may see as well: Shift, Ctrl and Alt of
/// either side, and Caps Lock. The Windows key is none of them: alone it
/// already opens a menu.
pub open spec fn shared_modifiers() -> Set<u32> {
    set![
        VK_SHIFT,
        VK_CONTROL,
        VK_MENU,
        VK_CAPITAL,
        VK_LSHIFT,
        VK_RSHIFT,
        VK_LCONTROL,
        VK_RCONTROL,
        VK_LMENU,
        VK_RMENU,
    ]
}

/// True of the modifiers that this machine may see as well.
pub fn is_modifier_vk(vk: u32) -> (r: bool)
    ensures
        r == shared_modifiers().contains(vk),
{
    vk == VK_SHIFT || vk == VK_CONTROL || vk == VK_MENU || vk == VK_CAPITAL || vk == VK_LSHIFT || vk
        == VK_RSHIFT || vk == VK_LCONTROL || vk == VK_RCONTROL || vk == VK_LMENU || vk == VK_RMENU
}

/// The scancode that the host is told: the low byte, with the prefix of an
/// extended key before it. Zero is no key.
pub open spec fn composed(scan: u32, extended: bool) -> Option<u16> {
    let base = scan % 256;
    if base == 0 {
        None
    } else if extended {
        Some((0xE000 + base) as u16)
    } else {
        Some(base as u16)
    }
}

/// The scancode that the host is told.
pub fn compose_scancode(scan: u32, extended: bool) -> (r: Option<u16>)
    ensures
        r == composed(scan, extended),
{
    let base: u32 = scan % 256;
    if base == 0 {
        None
    } else if extended {
        Some((0xE000 + base) as u16)
    } else {
        Some(base as u16)
    }
}

/// The two hotkeys are different keys, and neither is a modifier.
pub proof fn law_win_hotkeys_do_not_overlap(vk: u32)
    ensures
        !(vk == VK_RETURN && vk == VK_ESCAPE),
        vk == VK_RETURN || vk == VK_ESCAPE ==> !shared_modifiers().contains(vk),
        !shared_modifiers().contains(VK_LWIN),
        !shared_modifiers().contains(VK_RWIN),
{
}

/// Extended and plain keys never share a scancode, and different keys of one
/// kind never do.
pub proof fn law_scancodes_are_distinct(a: u32, a_ext: bool, b: u32, b_ext: bool)
    requires
        a < 256,
        b < 256,
        composed(a, a_ext) is Some,
        composed(a, a_ext) == composed(b, b_ext),
    ensures
        a == b,
        a_ext == b_ext,
{
}

/// The host is told the low byte of a scancode, and of an extended key that
/// byte behind the prefix of extended keys; a scancode whose low byte is zero is
/// none.
pub proof fn law_scancode_is_told_by_its_low_byte(scan: u32, extended: bool, told: Option<u16>)
    requires
        call_ensures(compose_scancode, (scan, extended), told),
    ensures
        scan % 256 == 0 ==> told is None,
        scan % 256 != 0 && !extended ==> told == Some((scan % 256) as u16),
        scan % 256 != 0 && extended ==> told == Some((0xE000 + scan % 256) as u16),
        told == composed(scan, extended),
{
}

/// Shift, Ctrl and Alt of either side and Caps Lock are shared with this
/// machine; no other key is.
pub proof fn law_shared_modifiers(vk: u32, shared: bool)
    requires
        call_ensures(is_modifier_vk, (vk,), shared),
    ensures
        shared <==> 0x10 <= vk <= 0x12 || vk == 0x14 || 0xA0 <= vk <= 0xA5,
        shared <==> shared_modifiers().contains(vk),
{
}

/// Ctrl and Enter toggle fullscreen, Ctrl and Escape capture; without Ctrl
/// neither does.
pub proof fn law_win_hotkeys_are_recognised(vk: u32, ctrl: bool, fullscreen: bool, capture: bool)
    requires
        call_ensures(is_win_toggle_fullscreen, (vk, ctrl), fullscreen),
        call_ensures(is_win_toggle_capture, (vk, ctrl), capture),
    ensures
        fullscreen <==> ctrl && vk == 0x0D,
        capture <==> ctrl && vk == 0x1B,
{
}

} // verus!
