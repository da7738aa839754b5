//! Keys and modifiers, from this machine's codes to the host's scancodes.
//!
//! The host takes Windows scancodes (set 1). They name places on the keyboard,
//! so they are right whatever layout the host uses.

use vstd::prelude::*;

verus! {

/// A key as the window toolkit names it.
#[derive(Debug, Clone, Copy, PartialEq, Eq, Structural)]
pub enum Key {
    A,
    B,
    C,
    D,
    E,
    F,
    G,
    H,
    I,
    J,
    K,
    L,
    M,
    N,
    O,
    P,
    Q,
    R,
    S,
    T,
    U,
    V,
    W,
    X,
    Y,
    Z,
    Num0,
    Num1,
    Num2,
    Num3,
    Num4,
    Num5,
    Num6,
    Num7,
    Num8,
    Num9,
    F1,
    F2,
    F3,
    F4,
    F5,
    F6,
    F7,
    F8,
    F9,
    F10,
    F11,
    F12,
    Escape,
    Tab,
    Backspace,
    Enter,
    Space,
    Insert,
    Delete,
    Home,
    End,
    PageUp,
    PageDown,
    ArrowUp,
    ArrowDown,
    ArrowLeft,
    ArrowRight,
    Minus,
    Equals,
    OpenBracket,
    CloseBracket,
    Backslash,
    Semicolon,
    Quote,
    Backtick,
    Comma,
    Period,
    Slash,
    /// Any key without a scancode here.
    Other,
}

/// The scancode of a key.
pub open spec fn scancode_of(key: Key) -> Option<u16> {
    match key {
        Key::A => Some(0x1E),
        Key::B => Some(0x30),
        Key::C => Some(0x2E),
        Key::D => Some(0x20),
        Key::E => Some(0x12),
        Key::F => Some(0x21),
        Key::G => Some(0x22),
        Key::H => Some(0x23),
        Key::I => Some(0x17),
        Key::J => Some(0x24),
        Key::K => Some(0x25),
        Key::L => Some(0x26),
        Key::M => Some(0x32),
        Key::N => Some(0x31),
        Key::O => Some(0x18),
        Key::P => Some(0x19),
        Key::Q => Some(0x10),
        Key::R => Some(0x13),
        Key::S => Some(0x1F),
        Key::T => Some(0x14),
        Key::U => Some(0x16),
        Key::V => Some(0x2F),
        Key::W => Some(0x11),
        Key::X => Some(0x2D),
        Key::Y => Some(0x15),
        Key::Z => Some(0x2C),
        Key::Num0 => Some(0x0B),
        Key::Num1 => Some(0x02),
        Key::Num2 => Some(0x03),
        Key::Num3 => Some(0x04),
        Key::Num4 => Some(0x05),
        Key::Num5 => Some(0x06),
        Key::Num6 => Some(0x07),
        Key::Num7 => Some(0x08),
        Key::Num8 => Some(0x09),
        Key::Num9 => Some(0x0A),
        Key::F1 => Some(0x3B),
        Key::F2 => Some(0x3C),
        Key::F3 => Some(0x3D),
        Key::F4 => Some(0x3E),
        Key::F5 => Some(0x3F),
        Key::F6 => Some(0x40),
        Key::F7 => Some(0x41),
        Key::F8 => Some(0x42),
        Key::F9 => Some(0x43),
        Key::F10 => Some(0x44),
        Key::F11 => Some(0x57),
        Key::F12 => Some(0x58),
        Key::Escape => Some(0x01),
        Key::Tab => Some(0x0F),
        Key::Backspace => Some(0x0E),
        Key::Enter => Some(0x1C),
        Key::Space => Some(0x39),
        Key::Insert => Some(0xE052),
        Key::Delete => Some(0xE053),
        Key::Home => Some(0xE047),
        Key::End => Some(0xE04F),
        Key::PageUp => Some(0xE049),
        Key::PageDown => Some(0xE051),
        Key::ArrowUp => Some(0xE048),
        Key::ArrowDown => Some(0xE050),
        Key::ArrowLeft => Some(0xE04B),
        Key::ArrowRight => Some(0xE04D),
        Key::Minus => Some(0x0C),
        Key::Equals => Some(0x0D),
        Key::OpenBracket => Some(0x1A),
        Key::CloseBracket => Some(0x1B),
        Key::Backslash => Some(0x2B),
        Key::Semicolon => Some(0x27),
        Key::Quote => Some(0x28),
        Key::Backtick => Some(0x29),
        Key::Comma => Some(0x33),
        Key::Period => Some(0x34),
        Key::Slash => Some(0x35),
        Key::Other => None,
    }
}

/// The scancode of a key, where it has one.
pub fn egui_key_to_scancode(key: &Key) -> (r: Option<u16>)
    ensures
        r == scancode_of(*key),
{
    match key {
        Key::A => Some(0x1E),
        Key::B => Some(0x30),
        Key::C => Some(0x2E),
        Key::D => Some(0x20),
        Key::E => Some(0x12),
        Key::F => Some(0x21),
        Key::G => Some(0x22),
        Key::H => Some(0x23),
        Key::I => Some(0x17),
        Key::J => Some(0x24),
        Key::K => Some(0x25),
        Key::L => Some(0x26),
        Key::M => Some(0x32),
        Key::N => Some(0x31),
        Key::O => Some(0x18),
        Key::P => Some(0x19),
        Key::Q => Some(0x10),
        Key::R => Some(0x13),
        Key::S => Some(0x1F),
        Key::T => Some(0x14),
        Key::U => Some(0x16),
        Key::V => Some(0x2F),
        Key::W => Some(0x11),
        Key::X => Some(0x2D),
        Key::Y => Some(0x15),
        Key::Z => Some(0x2C),
        Key::Num0 => Some(0x0B),
        Key::Num1 => Some(0x02),
        Key::Num2 => Some(0x03),
        Key::Num3 => Some(0x04),
        Key::Num4 => Some(0x05),
        Key::Num5 => Some(0x06),
        Key::Num6 => Some(0x07),
        Key::Num7 => Some(0x08),
        Key::Num8 => Some(0x09),
        Key::Num9 => Some(0x0A),
        Key::F1 => Some(0x3B),
        Key::F2 => Some(0x3C),
        Key::F3 => Some(0x3D),
        Key::F4 => Some(0x3E),
        Key::F5 => Some(0x3F),
        Key::F6 => Some(0x40),
        Key::F7 => Some(0x41),
        Key::F8 => Some(0x42),
        Key::F9 => Some(0x43),
        Key::F10 => Some(0x44),
        Key::F11 => Some(0x57),
        Key::F12 => Some(0x58),
        Key::Escape => Some(0x01),
        Key::Tab => Some(0x0F),
        Key::Backspace => Some(0x0E),
        Key::Enter => Some(0x1C),
        Key::Space => Some(0x39),
        Key::Insert => Some(0xE052),
        Key::Delete => Some(0xE053),
        Key::Home => Some(0xE047),
        Key::End => Some(0xE04F),
        Key::PageUp => Some(0xE049),
        Key::PageDown => Some(0xE051),
        Key::ArrowUp => Some(0xE048),
        Key::ArrowDown => Some(0xE050),
        Key::ArrowLeft => Some(0xE04B),
        Key::ArrowRight => Some(0xE04D),
        Key::Minus => Some(0x0C),
        Key::Equals => Some(0x0D),
        Key::OpenBracket => Some(0x1A),
        Key::CloseBracket => Some(0x1B),
        Key::Backslash => Some(0x2B),
        Key::Semicolon => Some(0x27),
        Key::Quote => Some(0x28),
        Key::Backtick => Some(0x29),
        Key::Comma => Some(0x33),
        Key::Period => Some(0x34),
        Key::Slash => Some(0x35),
        Key::Other => None,
    }
}

/// The key that a Mac key code stands for.
pub open spec fn mac_key(keycode: u16) -> Option<Key> {
    match keycode {
        0x00 => Some(Key::A),
        0x0B => Some(Key::B),
        0x08 => Some(Key::C),
        0x02 => Some(Key::D),
        0x0E => Some(Key::E),
        0x03 => Some(Key::F),
        0x05 => Some(Key::G),
        0x04 => Some(Key::H),
        0x22 => Some(Key::I),
        0x26 => Some(Key::J),
        0x28 => Some(Key::K),
        0x25 => Some(Key::L),
        0x2E => Some(Key::M),
        0x2D => Some(Key::N),
        0x1F => Some(Key::O),
        0x23 => Some(Key::P),
        0x0C => Some(Key::Q),
        0x0F => Some(Key::R),
        0x01 => Some(Key::S),
        0x11 => Some(Key::T),
        0x20 => Some(Key::U),
        0x09 => Some(Key::V),
        0x0D => Some(Key::W),
        0x07 => Some(Key::X),
        0x10 => Some(Key::Y),
        0x06 => Some(Key::Z),
        0x1D => Some(Key::Num0),
        0x12 => Some(Key::Num1),
        0x13 => Some(Key::Num2),
        0x14 => Some(Key::Num3),
        0x15 => Some(Key::Num4),
        0x17 => Some(Key::Num5),
        0x16 => Some(Key::Num6),
        0x1A => Some(Key::Num7),
        0x1C => Some(Key::Num8),
        0x19 => Some(Key::Num9),
        0x18 => Some(Key::Equals),
        0x1B => Some(Key::Minus),
        0x21 => Some(Key::OpenBracket),
        0x1E => Some(Key::CloseBracket),
        0x2A => Some(Key::Backslash),
        0x29 => Some(Key::Semicolon),
        0x27 => Some(Key::Quote),
        0x32 => Some(Key::Backtick),
        0x2B => Some(Key::Comma),
        0x2F => Some(Key::Period),
        0x2C => Some(Key::Slash),
        0x24 => Some(Key::Enter),
        0x30 => Some(Key::Tab),
        0x31 => Some(Key::Space),
        0x33 => Some(Key::Backspace),
        0x35 => Some(Key::Escape),
        0x7B => Some(Key::ArrowLeft),
        0x7C => Some(Key::ArrowRight),
        0x7D => Some(Key::ArrowDown),
        0x7E => Some(Key::ArrowUp),
        0x73 => Some(Key::Home),
        0x77 => Some(Key::End),
        0x74 => Some(Key::PageUp),
        0x79 => Some(Key::PageDown),
        0x75 => Some(Key::Delete),
        0x7A => Some(Key::F1),
        0x78 => Some(Key::F2),
        0x63 => Some(Key::F3),
        0x76 => Some(Key::F4),
        0x60 => Some(Key::F5),
        0x61 => Some(Key::F6),
        0x62 => Some(Key::F7),
        0x64 => Some(Key::F8),
        0x65 => Some(Key::F9),
        0x6D => Some(Key::F10),
        0x67 => Some(Key::F11),
        0x6F => Some(Key::F12),
        _ => None,
    }
}

/// The scancode of a Mac key code: that of the key it stands for.
pub fn cgkeycode_to_scancode(keycode: u16) -> (r: Option<u16>)
    ensures
        r == (match mac_key(keycode) {
            Some(key) => scancode_of(key),
            None => None,
        }),
{
    match keycode {
        0x00 => Some(0x1E),
        0x0B => Some(0x30),
        0x08 => Some(0x2E),
        0x02 => Some(0x20),
        0x0E => Some(0x12),
        0x03 => Some(0x21),
        0x05 => Some(0x22),
        0x04 => Some(0x23),
        0x22 => Some(0x17),
        0x26 => Some(0x24),
        0x28 => Some(0x25),
        0x25 => Some(0x26),
        0x2E => Some(0x32),
        0x2D => Some(0x31),
        0x1F => Some(0x18),
        0x23 => Some(0x19),
        0x0C => Some(0x10),
        0x0F => Some(0x13),
        0x01 => Some(0x1F),
        0x11 => Some(0x14),
        0x20 => Some(0x16),
        0x09 => Some(0x2F),
        0x0D => Some(0x11),
        0x07 => Some(0x2D),
        0x10 => Some(0x15),
        0x06 => Some(0x2C),
        0x1D => Some(0x0B),
        0x12 => Some(0x02),
        0x13 => Some(0x03),
        0x14 => Some(0x04),
        0x15 => Some(0x05),
        0x17 => Some(0x06),
        0x16 => Some(0x07),
        0x1A => Some(0x08),
        0x1C => Some(0x09),
        0x19 => Some(0x0A),
        0x18 => Some(0x0D),
        0x1B => Some(0x0C),
        0x21 => Some(0x1A),
        0x1E => Some(0x1B),
        0x2A => Some(0x2B),
        0x29 => Some(0x27),
        0x27 => Some(0x28),
        0x32 => Some(0x29),
        0x2B => Some(0x33),
        0x2F => Some(0x34),
        0x2C => Some(0x35),
        0x24 => Some(0x1C),
        0x30 => Some(0x0F),
        0x31 => Some(0x39),
        0x33 => Some(0x0E),
        0x35 => Some(0x01),
        0x7B => Some(0xE04B),
        0x7C => Some(0xE04D),
        0x7D => Some(0xE050),
        0x7E => Some(0xE048),
        0x73 => Some(0xE047),
        0x77 => Some(0xE04F),
        0x74 => Some(0xE049),
        0x79 => Some(0xE051),
        0x75 => Some(0xE053),
        0x7A => Some(0x3B),
        0x78 => Some(0x3C),
        0x63 => Some(0x3D),
        0x76 => Some(0x3E),
        0x60 => Some(0x3F),
        0x61 => Some(0x40),
        0x62 => Some(0x41),
        0x64 => Some(0x42),
        0x65 => Some(0x43),
        0x6D => Some(0x44),
        0x67 => Some(0x57),
        0x6F => Some(0x58),
        _ => None,
    }
}

/// Rows of the keyboard, each with the scancode of its first key.
pub open spec fn keyboard_rows() -> Seq<(u16, Seq<Key>)> {
    seq![
        (
            0x02,
            seq![
                Key::Num1,
                Key::Num2,
                Key::Num3,
                Key::Num4,
                Key::Num5,
                Key::Num6,
                Key::Num7,
                Key::Num8,
                Key::Num9,
                Key::Num0,
                Key::Minus,
                Key::Equals,
                Key::Backspace,
                Key::Tab,
            ],
        ),
        (
            0x10,
            seq![
                Key::Q,
                Key::W,
                Key::E,
                Key::R,
                Key::T,
                Key::Y,
                Key::U,
                Key::I,
                Key::O,
                Key::P,
                Key::OpenBracket,
                Key::CloseBracket,
                Key::Enter,
            ],
        ),
        (
            0x1E,
            seq![
                Key::A,
                Key::S,
                Key::D,
                Key::F,
                Key::G,
                Key::H,
                Key::J,
                Key::K,
                Key::L,
                Key::Semicolon,
                Key::Quote,
                Key::Backtick,
            ],
        ),
        (
            0x2B,
            seq![
                Key::Backslash,
                Key::Z,
                Key::X,
                Key::C,
                Key::V,
                Key::B,
                Key::N,
                Key::M,
                Key::Comma,
                Key::Period,
                Key::Slash,
            ],
        ),
        (
            0x3B,
            seq![
                Key::F1,
                Key::F2,
                Key::F3,
                Key::F4,
                Key::F5,
                Key::F6,
                Key::F7,
                Key::F8,
                Key::F9,
                Key::F10,
            ],
        ),
    ]
}

/// Along a row of the keyboard the scancodes count up by one.
pub proof fn law_scancodes_follow_the_keyboard(row: int, place: int)
    requires
        0 <= row < keyboard_rows().len(),
        0 <= place < keyboard_rows()[row].1.len(),
    ensures
        scancode_of(keyboard_rows()[row].1[place]) == Some(
            (keyboard_rows()[row].0 + place) as u16,
        ),
{
}

/// No two keys share a scancode.
pub proof fn law_keys_have_distinct_scancodes(a: Key, b: Key)
    requires
        scancode_of(a) is Some,
        scancode_of(a) == scancode_of(b),
    ensures
        a == b,
{
}

/// Every key but `Other` has a scancode, and none is zero: zero stands for no
/// key.
pub proof fn law_every_key_has_a_scancode(key: Key)
    ensures
        scancode_of(key) is None <==> key == Key::Other,
        scancode_of(key) != Some(0u16),
{
}

/// No two Mac key codes stand for the same key.
pub proof fn law_mac_keys_are_distinct(a: u16, b: u16)
    requires
        mac_key(a) is Some,
        mac_key(a) == mac_key(b),
    ensures
        a == b,
{
}

/// Bits of the Mac modifier flags.
pub const CG_FLAG_SHIFT: u64 = 0x2_0000;

pub const CG_FLAG_CONTROL: u64 = 0x4_0000;

pub const CG_FLAG_ALT: u64 = 0x8_0000;

pub const CG_FLAG_COMMAND: u64 = 0x10_0000;

/// Scancodes of the left modifier keys.
pub const WIN_SCAN_LCTRL: u16 = 0x1D;

pub const WIN_SCAN_LSHIFT: u16 = 0x2A;

pub const WIN_SCAN_LALT: u16 = 0x38;

/// Whether a flag is set.
pub open spec fn flag_set(flags: u64, flag: u64) -> bool {
    flags & flag != 0
}

/// Whether the host's Ctrl is held: Command and Control both stand for it.
pub open spec fn ctrl_held(flags: u64) -> bool {
    flag_set(flags, CG_FLAG_COMMAND) || flag_set(flags, CG_FLAG_CONTROL)
}

/// The event of a key that was held or not and now is or not.
pub open spec fn edge(scancode: u16, was: bool, now: bool) -> Seq<(u16, bool)> {
    if was == now {
        Seq::empty()
    } else {
        seq![(scancode, now)]
    }
}

/// The key events that lead from the flags `prev` to `flags`.
pub open spec fn modifier_changes(flags: u64, prev: u64) -> Seq<(u16, bool)> {
    edge(WIN_SCAN_LCTRL, ctrl_held(prev), ctrl_held(flags)) + edge(
        WIN_SCAN_LSHIFT,
        flag_set(prev, CG_FLAG_SHIFT),
        flag_set(flags, CG_FLAG_SHIFT),
    ) + edge(WIN_SCAN_LALT, flag_set(prev, CG_FLAG_ALT), flag_set(flags, CG_FLAG_ALT))
}

fn push_edge(out: &mut Vec<(u16, bool)>, scancode: u16, was: bool, now: bool)
    ensures
        final(out)@ == old(out)@ + edge(scancode, was, now),
{
    if was != now {
        out.push((scancode, now));
    }
    assert(out@ =~= old(out)@ + edge(scancode, was, now));
}

/// The key events that lead from the flags `prev` to `flags`. Command and
/// Control are one key on the host: while one of them stays held nothing
/// happens to it.
pub fn cg_flag_change_to_scancodes(flags: u64, prev: u64) -> (r: Vec<(u16, bool)>)
    ensures
        r@ == modifier_changes(flags, prev),
{
    let mut out: Vec<(u16, bool)> = Vec::new();
    let was_ctrl = prev & CG_FLAG_COMMAND != 0 || prev & CG_FLAG_CONTROL != 0;
    let is_ctrl = flags & CG_FLAG_COMMAND != 0 || flags & CG_FLAG_CONTROL != 0;
    push_edge(&mut out, WIN_SCAN_LCTRL, was_ctrl, is_ctrl);
    push_edge(&mut out, WIN_SCAN_LSHIFT, prev & CG_FLAG_SHIFT != 0, flags & CG_FLAG_SHIFT != 0);
    push_edge(&mut out, WIN_SCAN_LALT, prev & CG_FLAG_ALT != 0, flags & CG_FLAG_ALT != 0);
    assert(out@ =~= modifier_changes(flags, prev));
    out
}

/// Flags with Command and Option exchanged.
pub open spec fn is_swapped(swapped: u64, flags: u64) -> bool {
    &&& flag_set(swapped, CG_FLAG_COMMAND) == flag_set(flags, CG_FLAG_ALT)
    &&& flag_set(swapped, CG_FLAG_ALT) == flag_set(flags, CG_FLAG_COMMAND)
    &&& swapped & !(CG_FLAG_COMMAND | CG_FLAG_ALT) == flags & !(CG_FLAG_COMMAND | CG_FLAG_ALT)
}

/// Exchanges Command and Option; every other bit stays.
pub fn swap_option_command(flags: u64) -> (r: u64)
    ensures
        is_swapped(r, flags),
{
    let rest: u64 = flags & !(CG_FLAG_COMMAND | CG_FLAG_ALT);
    let alt: u64 = if flags & CG_FLAG_COMMAND != 0 {
        CG_FLAG_ALT
    } else {
        0
    };
    let command: u64 = if flags & CG_FLAG_ALT != 0 {
        CG_FLAG_COMMAND
    } else {
        0
    };
    let out: u64 = rest | alt | command;
    assert(is_swapped(out, flags)) by (bit_vector)
        requires
            rest == flags & !(CG_FLAG_COMMAND | CG_FLAG_ALT),
            flags & CG_FLAG_COMMAND != 0 ==> alt == CG_FLAG_ALT,
            flags & CG_FLAG_COMMAND == 0 ==> alt == 0,
            flags & CG_FLAG_ALT != 0 ==> command == CG_FLAG_COMMAND,
            flags & CG_FLAG_ALT == 0 ==> command == 0,
            out == rest | alt | command,
    ;
    out
}

/// The key events that lead from `prev` to `flags` for a keyboard on which
/// Command and Option are exchanged.
pub open spec fn swapped_modifier_changes(flags: u64, prev: u64) -> Seq<(u16, bool)> {
    edge(
        WIN_SCAN_LCTRL,
        flag_set(prev, CG_FLAG_ALT) || flag_set(prev, CG_FLAG_CONTROL),
        flag_set(flags, CG_FLAG_ALT) || flag_set(flags, CG_FLAG_CONTROL),
    ) + edge(WIN_SCAN_LSHIFT, flag_set(prev, CG_FLAG_SHIFT), flag_set(flags, CG_FLAG_SHIFT)) + edge(
        WIN_SCAN_LALT,
        flag_set(prev, CG_FLAG_COMMAND),
        flag_set(flags, CG_FLAG_COMMAND),
    )
}

proof fn lemma_swap_keeps_the_rest(swapped: u64, flags: u64)
    requires
        is_swapped(swapped, flags),
    ensures
        flag_set(swapped, CG_FLAG_SHIFT) == flag_set(flags, CG_FLAG_SHIFT),
        flag_set(swapped, CG_FLAG_CONTROL) == flag_set(flags, CG_FLAG_CONTROL),
{
    assert((swapped & CG_FLAG_SHIFT != 0) == (flags & CG_FLAG_SHIFT != 0) && (swapped
        & CG_FLAG_CONTROL != 0) == (flags & CG_FLAG_CONTROL != 0)) by (bit_vector)
        requires
            swapped & !(CG_FLAG_COMMAND | CG_FLAG_ALT) == flags & !(CG_FLAG_COMMAND | CG_FLAG_ALT),
    ;
}

/// As [`cg_flag_change_to_scancodes`], with Command and Option exchanged.
pub fn cg_flag_change_to_scancodes_swapped(flags: u64, prev: u64) -> (r: Vec<(u16, bool)>)
    ensures
        r@ == swapped_modifier_changes(flags, prev),
{
    let flags2: u64 = swap_option_command(flags);
    let prev2: u64 = swap_option_command(prev);
    proof {
        lemma_swap_keeps_the_rest(flags2, flags);
        lemma_swap_keeps_the_rest(prev2, prev);
    }
    cg_flag_change_to_scancodes(flags2, prev2)
}

/// The keys that are down, and what an event does to them.
pub open spec fn key_event(down: Set<u16>, event: (u16, bool)) -> Set<u16> {
    if event.1 {
        down.insert(event.0)
    } else {
        down.remove(event.0)
    }
}

/// The keys that are down after a sequence of events.
pub open spec fn key_events(down: Set<u16>, events: Seq<(u16, bool)>) -> Set<u16>
    decreases events.len(),
{
    if events.len() == 0 {
        down
    } else {
        key_event(key_events(down, events.drop_last()), events.last())
    }
}

/// The modifier keys that flags hold down on the host.
pub open spec fn held_modifiers(flags: u64) -> Set<u16> {
    Set::new(
        |k: u16|
            k == WIN_SCAN_LCTRL && ctrl_held(flags) || k == WIN_SCAN_LSHIFT && flag_set(
                flags,
                CG_FLAG_SHIFT,
            ) || k == WIN_SCAN_LALT && flag_set(flags, CG_FLAG_ALT),
    )
}

/// The modifier keys that flags hold down on the host, for a keyboard on which
/// Command and Option are exchanged.
pub open spec fn held_modifiers_swapped(flags: u64) -> Set<u16> {
    Set::new(
        |k: u16|
            k == WIN_SCAN_LCTRL && (flag_set(flags, CG_FLAG_ALT) || flag_set(
                flags,
                CG_FLAG_CONTROL,
            )) || k == WIN_SCAN_LSHIFT && flag_set(flags, CG_FLAG_SHIFT) || k == WIN_SCAN_LALT
                && flag_set(flags, CG_FLAG_COMMAND),
    )
}

pub(crate) proof fn lemma_edge_events(down: Set<u16>, a: Seq<(u16, bool)>, scancode: u16, was: bool, now: bool)
    ensures
        key_events(down, a + edge(scancode, was, now)) == (if was == now {
            key_events(down, a)
        } else {
            key_event(key_events(down, a), (scancode, now))
        }),
{
    let e = edge(scancode, was, now);
    if was == now {
        assert(a + e =~= a);
    } else {
        assert((a + e).drop_last() =~= a);
        assert((a + e).last() == (scancode, now));
    }
}

/// The events do to the host's keyboard what the flags say: from the modifiers
/// held before to those held now.
pub proof fn law_changes_reach_the_flags(flags: u64, prev: u64)
    ensures
        key_events(held_modifiers(prev), modifier_changes(flags, prev)) == held_modifiers(flags),
{
    let down = held_modifiers(prev);
    let none = Seq::<(u16, bool)>::empty();
    let e1 = edge(WIN_SCAN_LCTRL, ctrl_held(prev), ctrl_held(flags));
    let e2 = edge(WIN_SCAN_LSHIFT, flag_set(prev, CG_FLAG_SHIFT), flag_set(flags, CG_FLAG_SHIFT));
    assert(none + e1 =~= e1);
    lemma_edge_events(down, none, WIN_SCAN_LCTRL, ctrl_held(prev), ctrl_held(flags));
    lemma_edge_events(
        down,
        e1,
        WIN_SCAN_LSHIFT,
        flag_set(prev, CG_FLAG_SHIFT),
        flag_set(flags, CG_FLAG_SHIFT),
    );
    lemma_edge_events(
        down,
        e1 + e2,
        WIN_SCAN_LALT,
        flag_set(prev, CG_FLAG_ALT),
        flag_set(flags, CG_FLAG_ALT),
    );
    assert(key_events(down, none) == down);
    assert(key_events(down, modifier_changes(flags, prev)) =~= held_modifiers(flags));
}

/// The same for a keyboard on which Command and Option are exchanged.
pub proof fn law_swapped_changes_reach_the_flags(flags: u64, prev: u64)
    ensures
        key_events(held_modifiers_swapped(prev), swapped_modifier_changes(flags, prev))
            == held_modifiers_swapped(flags),
{
    let down = held_modifiers_swapped(prev);
    let none = Seq::<(u16, bool)>::empty();
    let was_ctrl = flag_set(prev, CG_FLAG_ALT) || flag_set(prev, CG_FLAG_CONTROL);
    let is_ctrl = flag_set(flags, CG_FLAG_ALT) || flag_set(flags, CG_FLAG_CONTROL);
    let e1 = edge(WIN_SCAN_LCTRL, was_ctrl, is_ctrl);
    let e2 = edge(WIN_SCAN_LSHIFT, flag_set(prev, CG_FLAG_SHIFT), flag_set(flags, CG_FLAG_SHIFT));
    assert(none + e1 =~= e1);
    lemma_edge_events(down, none, WIN_SCAN_LCTRL, was_ctrl, is_ctrl);
    lemma_edge_events(
        down,
        e1,
        WIN_SCAN_LSHIFT,
        flag_set(prev, CG_FLAG_SHIFT),
        flag_set(flags, CG_FLAG_SHIFT),
    );
    lemma_edge_events(
        down,
        e1 + e2,
        WIN_SCAN_LALT,
        flag_set(prev, CG_FLAG_COMMAND),
        flag_set(flags, CG_FLAG_COMMAND),
    );
    assert(key_events(down, none) == down);
    assert(key_events(down, swapped_modifier_changes(flags, prev)) =~= held_modifiers_swapped(
        flags,
    ));
}

/// Unchanged flags cause no event.
pub proof fn law_unchanged_flags_cause_nothing(flags: u64)
    ensures
        modifier_changes(flags, flags) == Seq::<(u16, bool)>::empty(),
        swapped_modifier_changes(flags, flags) == Seq::<(u16, bool)>::empty(),
{
    assert(modifier_changes(flags, flags) =~= Seq::empty());
    assert(swapped_modifier_changes(flags, flags) =~= Seq::empty());
}

/// Going back causes the same events the other way round: what was pressed is
/// released.
pub proof fn law_changes_are_undone(flags: u64, prev: u64)
    ensures
        modifier_changes(prev, flags).len() == modifier_changes(flags, prev).len(),
        forall|i: int|
            0 <= i < modifier_changes(flags, prev).len() ==> #[trigger] modifier_changes(
                prev,
                flags,
            )[i] == (
                modifier_changes(flags, prev)[i].0,
                !modifier_changes(flags, prev)[i].1,
            ),
{
}

/// Modifiers as the window toolkit reports them.
#[derive(Debug, Clone, Copy, PartialEq, Eq, Structural)]
pub struct Modifiers {
    pub alt: bool,
    pub ctrl: bool,
    pub shift: bool,
    pub command: bool,
}

/// The host's modifier bits: Ctrl is 1, Shift 2, Alt 4. Command counts as Ctrl.
pub open spec fn modifier_bits(m: Modifiers) -> int {
    (if m.ctrl || m.command {
        1int
    } else {
        0
    }) + (if m.shift {
        2int
    } else {
        0
    }) + (if m.alt {
        4int
    } else {
        0
    })
}

/// The host's modifier bits.
pub fn egui_modifiers_to_u8(modifiers: &Modifiers) -> (r: u8)
    ensures
        r == modifier_bits(*modifiers),
{
    let mut m: u8 = 0;
    if modifiers.ctrl || modifiers.command {
        m = m + 1;
    }
    if modifiers.shift {
        m = m + 2;
    }
    if modifiers.alt {
        m = m + 4;
    }
    m
}

/// Rows of keys beside the main block, each with the scancode of its first key.
/// Those behind a prefix of their own stand apart from the number pad.
pub open spec fn side_rows() -> Seq<(u16, Seq<Key>)> {
    seq![
        (0x01, seq![Key::Escape]),
        (0x39, seq![Key::Space]),
        (0x57, seq![Key::F11, Key::F12]),
        (0xE047, seq![Key::Home, Key::ArrowUp, Key::PageUp]),
        (0xE04B, seq![Key::ArrowLeft]),
        (0xE04D, seq![Key::ArrowRight]),
        (0xE04F, seq![Key::End, Key::ArrowDown, Key::PageDown, Key::Insert, Key::Delete]),
    ]
}

/// Beside the main block, too, the scancodes count up by one along a row.
pub proof fn law_scancodes_follow_the_side_rows(row: int, place: int)
    requires
        0 <= row < side_rows().len(),
        0 <= place < side_rows()[row].1.len(),
    ensures
        scancode_of(side_rows()[row].1[place]) == Some((side_rows()[row].0 + place) as u16),
{
}

/// The keys in the order of their Mac key codes, in runs without a gap, each
/// with the code of its first key.
pub open spec fn mac_runs() -> Seq<(u16, Seq<Key>)> {
    seq![
        (
            0x00,
            seq![
                Key::A,
                Key::S,
                Key::D,
                Key::F,
                Key::H,
                Key::G,
                Key::Z,
                Key::X,
                Key::C,
                Key::V,
            ],
        ),
        (
            0x0B,
            seq![
                Key::B,
                Key::Q,
                Key::W,
                Key::E,
                Key::R,
                Key::Y,
                Key::T,
                Key::Num1,
                Key::Num2,
                Key::Num3,
                Key::Num4,
                Key::Num6,
                Key::Num5,
                Key::Equals,
                Key::Num9,
                Key::Num7,
                Key::Minus,
                Key::Num8,
                Key::Num0,
                Key::CloseBracket,
                Key::O,
                Key::U,
                Key::OpenBracket,
                Key::I,
                Key::P,
            ],
        ),
        (
            0x24,
            seq![
                Key::Enter,
                Key::L,
                Key::J,
                Key::Quote,
                Key::K,
                Key::Semicolon,
                Key::Backslash,
                Key::Comma,
                Key::Slash,
                Key::N,
                Key::M,
                Key::Period,
                Key::Tab,
                Key::Space,
                Key::Backtick,
                Key::Backspace,
            ],
        ),
        (0x35, seq![Key::Escape]),
        (0x60, seq![Key::F5, Key::F6, Key::F7, Key::F3, Key::F8, Key::F9]),
        (0x67, seq![Key::F11]),
        (0x6D, seq![Key::F10]),
        (0x6F, seq![Key::F12]),
        (
            0x73,
            seq![
                Key::Home,
                Key::PageUp,
                Key::Delete,
                Key::F4,
                Key::End,
                Key::F2,
                Key::PageDown,
                Key::F1,
                Key::ArrowLeft,
                Key::ArrowRight,
                Key::ArrowDown,
                Key::ArrowUp,
            ],
        ),
    ]
}

/// A Mac key code stands for the key that has its place in the order, and the
/// host is told that key's scancode.
pub proof fn law_mac_codes_follow_the_order(run: int, place: int, code: u16, told: Option<u16>)
    requires
        0 <= run < mac_runs().len(),
        0 <= place < mac_runs()[run].1.len(),
        code == mac_runs()[run].0 + place,
        call_ensures(cgkeycode_to_scancode, (code,), told),
    ensures
        mac_key(code) == Some(mac_runs()[run].1[place]),
        told == scancode_of(mac_runs()[run].1[place]),
        told is Some,
{
}

/// A Mac key code outside the order stands for no key, and the host is told
/// nothing of it.
pub proof fn law_other_mac_codes_are_no_keys(code: u16, told: Option<u16>)
    requires
        code == 0x0A || code == 0x34 || 0x36 <= code <= 0x5F || code == 0x66 || 0x68 <= code <= 0x6C
            || code == 0x6E || 0x70 <= code <= 0x72 || code >= 0x7F,
        call_ensures(cgkeycode_to_scancode, (code,), told),
    ensures
        mac_key(code) is None,
        told is None,
{
}

/// The host has Ctrl down for Command and for Control, Shift for Shift and Alt
/// for Option; on a keyboard with the two exchanged, Ctrl for Option and Alt for
/// Command. No other key is down for any flag.
pub proof fn law_flags_stand_for_these_keys(flags: u64, k: u16)
    ensures
        held_modifiers(flags).contains(0x1D) <==> flags & 0x10_0000 != 0 || flags & 0x4_0000 != 0,
        held_modifiers(flags).contains(0x2A) <==> flags & 0x2_0000 != 0,
        held_modifiers(flags).contains(0x38) <==> flags & 0x8_0000 != 0,
        held_modifiers_swapped(flags).contains(0x1D) <==> flags & 0x8_0000 != 0 || flags & 0x4_0000
            != 0,
        held_modifiers_swapped(flags).contains(0x2A) <==> flags & 0x2_0000 != 0,
        held_modifiers_swapped(flags).contains(0x38) <==> flags & 0x10_0000 != 0,
        k != 0x1D && k != 0x2A && k != 0x38 ==> !held_modifiers(flags).contains(k)
            && !held_modifiers_swapped(flags).contains(k),
{
}

/// Each of Ctrl, Shift and Alt has a bit of its own in what the host is told;
/// Command counts as Ctrl, and no other bit is ever set.
pub proof fn law_each_modifier_has_its_bit(m: Modifiers, told: u8)
    requires
        call_ensures(egui_modifiers_to_u8, (&m,), told),
    ensures
        told % 2 == 1 <==> m.ctrl || m.command,
        (told / 2) % 2 == 1 <==> m.shift,
        (told / 4) % 2 == 1 <==> m.alt,
        told < 8,
{
}

/// What the window toolkit names is told to the host by its own scancode.
pub proof fn law_key_is_told_by_its_scancode(key: Key, told: Option<u16>)
    requires
        call_ensures(egui_key_to_scancode, (&key,), told),
    ensures
        told == scancode_of(key),
        told is None <==> key == Key::Other,
{
}

/// The events that are computed from two states of the keyboard lead from the
/// one to the other on the host.
pub proof fn law_computed_changes_reach_the_flags(
    flags: u64,
    prev: u64,
    plain: Vec<(u16, bool)>,
    exchanged: Vec<(u16, bool)>,
)
    requires
        call_ensures(cg_flag_change_to_scancodes, (flags, prev), plain),
        call_ensures(cg_flag_change_to_scancodes_swapped, (flags, prev), exchanged),
    ensures
        key_events(held_modifiers(prev), plain@) == held_modifiers(flags),
        key_events(held_modifiers_swapped(prev), exchanged@) == held_modifiers_swapped(flags),
        plain@.len() <= 3 && exchanged@.len() <= 3,
{
    law_changes_reach_the_flags(flags, prev);
    law_swapped_changes_reach_the_flags(flags, prev);
}

/// Exchanging Command and Option twice changes nothing, and once nothing but
/// the two.
pub proof fn law_exchange_is_undone(flags: u64, once: u64, twice: u64)
    requires
        call_ensures(swap_option_command, (flags,), once),
        call_ensures(swap_option_command, (once,), twice),
    ensures
        twice == flags,
        once & 0x10_0000 != 0 <==> flags & 0x8_0000 != 0,
        once & 0x8_0000 != 0 <==> flags & 0x10_0000 != 0,
        once & !0x18_0000u64 == flags & !0x18_0000u64,
{
    assert(twice == flags) by (bit_vector)
        requires
            (once & 0x10_0000 != 0) == (flags & 0x8_0000 != 0),
            (once & 0x8_0000 != 0) == (flags & 0x10_0000 != 0),
            once & !(0x10_0000u64 | 0x8_0000) == flags & !(0x10_0000u64 | 0x8_0000),
            (twice & 0x10_0000 != 0) == (once & 0x8_0000 != 0),
            (twice & 0x8_0000 != 0) == (once & 0x10_0000 != 0),
            twice & !(0x10_0000u64 | 0x8_0000) == once & !(0x10_0000u64 | 0x8_0000),
    ;
    assert(0x10_0000u64 | 0x8_0000 == 0x18_0000) by (bit_vector);
}

} // verus!
