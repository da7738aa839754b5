use wiredesk_client::input::keymap::{
    CG_FLAG_ALT, CG_FLAG_COMMAND, CG_FLAG_CONTROL, CG_FLAG_SHIFT, WIN_SCAN_LALT, WIN_SCAN_LCTRL,
    WIN_SCAN_LSHIFT,
};
use wiredesk_client::keyboard_tap::mac::{MacEvent, MacEventKind, MacReaction, Passage};
use wiredesk_client::keyboard_tap::win_hook::{key_transition, HookState, WinKeyEvent, WinReaction};
use wiredesk_client::keyboard_tap::win_keys::{
    compose_scancode, is_modifier_vk, is_win_toggle_capture, is_win_toggle_fullscreen, VK_CAPITAL,
    VK_CONTROL, VK_ESCAPE, VK_LCONTROL, VK_LMENU, VK_LSHIFT, VK_LWIN, VK_MENU, VK_RCONTROL,
    VK_RETURN, VK_RMENU, VK_RSHIFT, VK_RWIN, VK_SHIFT,
};
use wiredesk_client::keyboard_tap::{
    is_cmd_enter, is_release_capture, is_synthetic_paste, permission_needed, start, Platform,
    TapEvent, TapHandle, CG_KEY_ESCAPE, CG_KEY_RETURN, CG_KEY_V,
};
use wiredesk_client::protocol::{Message, Packet};

fn mac_tap(swap: bool) -> TapHandle {
    start(Platform::MacOs, true, false, swap)
}

fn down(scancode: u16) -> Packet {
    Packet { message: Message::KeyDown { scancode, modifiers: 0 }, seq: 0 }
}

fn up(scancode: u16) -> Packet {
    Packet { message: Message::KeyUp { scancode, modifiers: 0 }, seq: 0 }
}

fn key_ups(packets: &[Packet]) -> Vec<u16> {
    packets
        .iter()
        .filter_map(|p| match p.message {
            Message::KeyUp { scancode, .. } => Some(scancode),
            _ => None,
        })
        .collect()
}

#[test]
fn ctrl_enter_toggles_fullscreen() {
    assert!(is_win_toggle_fullscreen(VK_RETURN, true));
    assert!(!is_win_toggle_fullscreen(VK_RETURN, false));
    assert!(!is_win_toggle_fullscreen(VK_ESCAPE, true));
}

#[test]
fn ctrl_escape_toggles_capture() {
    assert!(is_win_toggle_capture(VK_ESCAPE, true));
    assert!(!is_win_toggle_capture(VK_ESCAPE, false));
    assert!(!is_win_toggle_capture(VK_RETURN, true));
}

#[test]
fn hotkeys_do_not_overlap() {
    for key in [VK_RETURN, VK_ESCAPE] {
        assert!(!(is_win_toggle_fullscreen(key, true) && is_win_toggle_capture(key, true)));
    }
}

#[test]
fn modifiers_are_recognised_both_sided() {
    for key in [
        VK_SHIFT,
        VK_CONTROL,
        VK_MENU,
        VK_CAPITAL,
        VK_LSHIFT,
        VK_RSHIFT,
        VK_LCONTROL,
        VK_RCONTROL,
        VK_LMENU,
        VK_RMENU,
    ] {
        assert!(is_modifier_vk(key), "vk {key:#x} should be a modifier");
    }
}

#[test]
fn windows_key_is_swallowed_not_passed_through() {
    assert!(!is_modifier_vk(VK_LWIN));
    assert!(!is_modifier_vk(VK_RWIN));
}

#[test]
fn letters_and_arrows_are_not_modifiers() {
    for key in [0x41, 0x25, VK_RETURN, VK_ESCAPE] {
        assert!(!is_modifier_vk(key), "vk {key:#x} must not be a modifier");
    }
}

#[test]
fn plain_scancode_passes_through() {
    assert_eq!(compose_scancode(0x1E, false), Some(0x1E));
}

#[test]
fn extended_scancode_gets_e0_prefix() {
    assert_eq!(compose_scancode(0x1D, true), Some(0xE01D));
    assert_eq!(compose_scancode(0x4B, true), Some(0xE04B));
}

#[test]
fn scancode_high_bits_are_masked_off() {
    assert_eq!(compose_scancode(0xE01D, false), Some(0x1D));
    assert_eq!(compose_scancode(0xE01D, true), Some(0xE01D));
}

#[test]
fn zero_scancode_is_rejected() {
    assert_eq!(compose_scancode(0, false), None);
    assert_eq!(compose_scancode(0, true), None);
    assert_eq!(compose_scancode(0xE000, false), None);
}

#[test]
fn synthetic_paste_detects_cmd_v_only() {
    assert!(is_synthetic_paste(CG_KEY_V, CG_FLAG_COMMAND));
    assert!(is_synthetic_paste(
        CG_KEY_V,
        CG_FLAG_COMMAND | CG_FLAG_SHIFT
    ));
    assert!(!is_synthetic_paste(CG_KEY_V, 0));
    assert!(!is_synthetic_paste(CG_KEY_V, CG_FLAG_CONTROL));
    assert!(!is_synthetic_paste(0x08, CG_FLAG_COMMAND));
}

#[test]
fn cmd_enter_matches() {
    assert!(is_cmd_enter(CG_KEY_RETURN, CG_FLAG_COMMAND, false));
}

#[test]
fn cmd_enter_rejects_extra_modifier() {
    assert!(!is_cmd_enter(
        CG_KEY_RETURN,
        CG_FLAG_COMMAND | CG_FLAG_SHIFT,
        false
    ));
    assert!(!is_cmd_enter(
        CG_KEY_RETURN,
        CG_FLAG_COMMAND | CG_FLAG_CONTROL,
        false
    ));
}

#[test]
fn cmd_enter_rejects_no_cmd() {
    assert!(!is_cmd_enter(CG_KEY_RETURN, 0, false));
    assert!(!is_cmd_enter(CG_KEY_RETURN, CG_FLAG_CONTROL, false));
}

#[test]
fn cmd_enter_rejects_wrong_key() {
    assert!(!is_cmd_enter(0x00, CG_FLAG_COMMAND, false));
}

#[test]
fn release_capture_matches_cmd_esc() {
    assert!(is_release_capture(
        CG_KEY_ESCAPE,
        CG_FLAG_COMMAND,
        false
    ));
}

#[test]
fn release_capture_rejects_extra_modifiers() {
    assert!(!is_release_capture(
        CG_KEY_ESCAPE,
        CG_FLAG_COMMAND | CG_FLAG_SHIFT,
        false
    ));
    assert!(!is_release_capture(
        CG_KEY_ESCAPE,
        CG_FLAG_COMMAND | CG_FLAG_CONTROL,
        false
    ));
    assert!(!is_release_capture(
        CG_KEY_ESCAPE,
        CG_FLAG_COMMAND | CG_FLAG_ALT,
        false
    ));
}

#[test]
fn release_capture_rejects_no_cmd() {
    assert!(!is_release_capture(CG_KEY_ESCAPE, 0, false));
    assert!(!is_release_capture(
        CG_KEY_ESCAPE,
        CG_FLAG_CONTROL,
        false
    ));
}

#[test]
fn release_capture_rejects_wrong_key() {
    assert!(!is_release_capture(0x00, CG_FLAG_COMMAND, false));
}

#[test]
fn swap_mode_cmd_enter_matches_either_flag() {
    assert!(is_cmd_enter(CG_KEY_RETURN, CG_FLAG_ALT, true));
    assert!(is_cmd_enter(CG_KEY_RETURN, CG_FLAG_COMMAND, true));
}

#[test]
fn swap_mode_release_capture_matches_either_flag() {
    assert!(is_release_capture(CG_KEY_ESCAPE, CG_FLAG_ALT, true));
    assert!(is_release_capture(
        CG_KEY_ESCAPE,
        CG_FLAG_COMMAND,
        true
    ));
}

#[test]
fn swap_mode_rejects_no_modifier() {
    assert!(!is_cmd_enter(CG_KEY_RETURN, 0, true));
    assert!(!is_release_capture(CG_KEY_ESCAPE, 0, true));
}

#[test]
fn swap_mode_rejects_both_cmd_and_option() {
    assert!(!is_cmd_enter(
        CG_KEY_RETURN,
        CG_FLAG_COMMAND | CG_FLAG_ALT,
        true
    ));
    assert!(!is_release_capture(
        CG_KEY_ESCAPE,
        CG_FLAG_COMMAND | CG_FLAG_ALT,
        true
    ));
}

#[test]
fn swap_mode_rejects_extra_modifier() {
    assert!(!is_cmd_enter(
        CG_KEY_RETURN,
        CG_FLAG_ALT | CG_FLAG_SHIFT,
        true
    ));
    assert!(!is_release_capture(
        CG_KEY_ESCAPE,
        CG_FLAG_COMMAND | CG_FLAG_SHIFT,
        true
    ));
    assert!(!is_release_capture(
        CG_KEY_ESCAPE,
        CG_FLAG_ALT | CG_FLAG_CONTROL,
        true
    ));
}

#[test]
fn handle_starts_disabled() {
    let h = mac_tap(false);
    assert!(!h.is_enabled());
}

#[test]
fn enable_disable_toggles_flag() {
    let mut out: Vec<Packet> = Vec::new();
    let mut h = mac_tap(false);
    h.enable();
    assert!(h.is_enabled());
    h.disable(&mut out);
    assert!(!h.is_enabled());
}

#[test]
fn disable_emits_keyup_for_held_modifiers() {
    let mut out: Vec<Packet> = Vec::new();
    let mut h = mac_tap(false);

    h.prev_flags = CG_FLAG_COMMAND | CG_FLAG_SHIFT;
    h.disable(&mut out);

    let mut keyups = key_ups(&out);
    keyups.sort();
    let mut expected = vec![WIN_SCAN_LCTRL, WIN_SCAN_LSHIFT];
    expected.sort();
    assert_eq!(keyups, expected, "expected KeyUp for both held modifiers");
    assert_eq!(h.prev_flags, 0);
}

#[test]
fn disable_when_no_modifiers_is_silent() {
    let mut out: Vec<Packet> = Vec::new();
    let mut h = mac_tap(false);
    h.disable(&mut out);
    assert!(out.is_empty(), "no modifiers held → no KeyUp packets");
}

#[test]
fn disable_with_swap_emits_alt_for_held_cmd() {
    let mut out: Vec<Packet> = Vec::new();
    let mut h = mac_tap(true);
    h.prev_flags = CG_FLAG_COMMAND;
    h.disable(&mut out);
    assert_eq!(key_ups(&out), vec![WIN_SCAN_LALT]);
}

#[test]
fn passive_and_enabled_exclude_each_other() {
    let mut h = mac_tap(false);
    h.enable_passive();
    assert!(h.is_passive() && !h.is_enabled());
    h.enable();
    assert!(!h.is_passive() && h.is_enabled());
}

#[test]
fn tap_runs_where_the_system_lets_it() {
    assert!(start(Platform::MacOs, true, false, false).is_active());
    let mut waiting = start(Platform::MacOs, false, true, false);
    assert!(!waiting.is_active());
    assert!(!waiting.try_start_late(false));
    assert!(waiting.try_start_late(true));
    assert!(waiting.is_active() && !waiting.late);
    assert!(waiting.try_start_late(false));
    assert!(start(Platform::Windows, false, true, false).is_active());
    let mut unhooked = start(Platform::Windows, true, false, false);
    assert!(!unhooked.is_active());
    assert!(!unhooked.try_start_late(true));
    assert!(!start(Platform::Other, true, true, false).is_active());
    assert!(permission_needed(Platform::MacOs));
    assert!(!permission_needed(Platform::Windows));
}

fn event(kind: MacEventKind, keycode: u16, flags: u64, source_state_id: i64) -> MacEvent {
    MacEvent { kind, keycode, flags, source_state_id }
}

fn quiet(passage: Passage) -> MacReaction {
    MacReaction {
        passage,
        reenable: false,
        event: None,
        send: vec![],
        combo: vec![],
        kick: false,
    }
}

#[test]
fn tap_that_is_off_keeps_everything() {
    let mut h = mac_tap(false);
    for kind in [MacEventKind::KeyDown, MacEventKind::KeyUp, MacEventKind::FlagsChanged] {
        let r = h.on_mac_event(&event(kind, CG_KEY_ESCAPE, CG_FLAG_COMMAND, 1));
        assert_eq!(r, quiet(Passage::Keep));
    }
    assert_eq!(h.prev_flags, 0);
    let r = h.on_mac_event(&event(MacEventKind::TapDisabled, 0, 0, 0));
    assert_eq!(r, MacReaction { reenable: true, ..quiet(Passage::Drop) });
}

#[test]
fn passive_tap_watches_for_hotkeys_only() {
    let mut h = mac_tap(false);
    h.enable_passive();
    let r = h.on_mac_event(&event(MacEventKind::KeyDown, CG_KEY_ESCAPE, CG_FLAG_COMMAND, 1));
    assert_eq!(r, MacReaction { event: Some(TapEvent::EngageCapture), ..quiet(Passage::Drop) });
    let r = h.on_mac_event(&event(MacEventKind::KeyDown, CG_KEY_RETURN, CG_FLAG_COMMAND, 1));
    assert_eq!(r, MacReaction { event: Some(TapEvent::ToggleFullscreen), ..quiet(Passage::Drop) });
    let r = h.on_mac_event(&event(MacEventKind::KeyDown, CG_KEY_V, CG_FLAG_COMMAND, 1));
    assert_eq!(r, quiet(Passage::Keep));
    let r = h.on_mac_event(&event(MacEventKind::KeyUp, CG_KEY_ESCAPE, CG_FLAG_COMMAND, 1));
    assert_eq!(r, quiet(Passage::Keep));
}

#[test]
fn captured_keys_go_to_the_host() {
    let mut h = mac_tap(false);
    h.enable();
    let r = h.on_mac_event(&event(MacEventKind::KeyDown, 0x00, 0, 1));
    assert_eq!(r, MacReaction { send: vec![down(0x1E)], ..quiet(Passage::Drop) });
    let r = h.on_mac_event(&event(MacEventKind::KeyUp, 0x00, 0, 1));
    assert_eq!(r, MacReaction { send: vec![up(0x1E)], ..quiet(Passage::Drop) });
    let r = h.on_mac_event(&event(MacEventKind::KeyDown, 0x80, 0, 1));
    assert_eq!(r, quiet(Passage::Drop));
    let r = h.on_mac_event(&event(MacEventKind::KeyDown, CG_KEY_ESCAPE, CG_FLAG_COMMAND, 1));
    assert_eq!(r, MacReaction { event: Some(TapEvent::ReleaseCapture), ..quiet(Passage::Drop) });
    let r = h.on_mac_event(&event(MacEventKind::Other, 0, 0, 1));
    assert_eq!(r, quiet(Passage::Keep));
}

#[test]
fn modifiers_go_to_both_sides() {
    let mut h = mac_tap(true);
    h.enable();
    let r = h.on_mac_event(&event(MacEventKind::FlagsChanged, 0, CG_FLAG_COMMAND, 1));
    assert_eq!(r, MacReaction { send: vec![down(WIN_SCAN_LALT)], ..quiet(Passage::Keep) });
    assert_eq!(h.prev_flags, CG_FLAG_COMMAND);
    let r = h.on_mac_event(&event(MacEventKind::FlagsChanged, 0, 0, 1));
    assert_eq!(r, MacReaction { send: vec![up(WIN_SCAN_LALT)], ..quiet(Passage::Keep) });
}

#[test]
fn posted_paste_is_one_combination() {
    let mut h = mac_tap(true);
    h.enable();
    let r = h.on_mac_event(&event(MacEventKind::KeyDown, CG_KEY_V, CG_FLAG_COMMAND, 0));
    assert_eq!(
        r,
        MacReaction {
            combo: vec![down(WIN_SCAN_LCTRL), down(0x2F)],
            kick: true,
            ..quiet(Passage::Drop)
        }
    );
    let r = h.on_mac_event(&event(MacEventKind::KeyUp, CG_KEY_V, CG_FLAG_COMMAND, -1));
    assert_eq!(
        r,
        MacReaction { combo: vec![up(0x2F), up(WIN_SCAN_LCTRL)], ..quiet(Passage::Drop) }
    );
    let r = h.on_mac_event(&event(MacEventKind::KeyDown, 0x08, CG_FLAG_COMMAND, 0));
    assert!(!r.kick);
    assert_eq!(h.prev_flags, 0);
}

fn win(vk: u32, is_down: bool, scan: u32, ctrl: bool) -> WinKeyEvent {
    WinKeyEvent { vk, down: is_down, scan, extended: false, ctrl, mapped: 0 }
}

#[test]
fn hook_forwards_and_remembers() {
    let mut hook = HookState::new();
    let r = hook.on_key(true, false, &win(0x41, true, 0x1E, false));
    assert_eq!(r, WinReaction { swallow: true, event: None, send: Some(down(0x1E)) });
    let r = hook.on_key(true, false, &win(VK_LSHIFT, true, 0x2A, false));
    assert_eq!(r, WinReaction { swallow: false, event: None, send: Some(down(0x2A)) });
    let r = hook.on_key(true, false, &win(VK_LWIN, true, 0, false));
    assert_eq!(r, WinReaction { swallow: true, event: None, send: None });
    let mapped = WinKeyEvent { mapped: 0x10, extended: true, ..win(VK_LWIN, true, 0, false) };
    let r = hook.on_key(true, false, &mapped);
    assert_eq!(r.send, Some(down(0xE010)));

    let mut h = start(Platform::Windows, true, true, false);
    h.hook = hook;
    let mut out: Vec<Packet> = Vec::new();
    h.disable(&mut out);
    assert_eq!(out, vec![up(0x1E), up(0x2A), up(0xE010)]);
    out.clear();
    h.disable(&mut out);
    assert!(out.is_empty());
}

#[test]
fn released_keys_are_not_released_again() {
    let mut hook = HookState::new();
    hook.on_key(true, false, &win(0x41, true, 0x1E, false));
    let r = hook.on_key(true, false, &win(0x41, false, 0x1E, false));
    assert_eq!(r.send, Some(up(0x1E)));
    let mut out: Vec<Packet> = Vec::new();
    hook.release_held_keys(&mut out);
    assert!(out.is_empty());
}

#[test]
fn hotkey_and_its_release_go_nowhere() {
    let mut hook = HookState::new();
    let r = hook.on_key(true, false, &win(VK_ESCAPE, true, 0x01, true));
    assert_eq!(r.event, Some(TapEvent::ReleaseCapture));
    assert!(r.swallow && r.send.is_none());
    let r = hook.on_key(false, false, &win(VK_ESCAPE, false, 0x01, false));
    assert_eq!(r, WinReaction { swallow: true, event: None, send: None });
    let r = hook.on_key(false, false, &win(VK_ESCAPE, false, 0x01, false));
    assert!(!r.swallow);
    let r = hook.on_key(false, true, &win(VK_ESCAPE, true, 0x01, true));
    assert_eq!(r.event, Some(TapEvent::EngageCapture));
    let r = hook.on_key(false, true, &win(VK_RETURN, true, 0x1C, true));
    assert_eq!(r.event, Some(TapEvent::ToggleFullscreen));
    let r = hook.on_key(false, false, &win(VK_ESCAPE, true, 0x01, true));
    assert!(!r.swallow && r.event.is_none());
    let r = hook.on_key(false, true, &win(0x41, true, 0x1E, false));
    assert_eq!(r, WinReaction { swallow: false, event: None, send: None });
}

#[test]
fn window_messages_of_keys() {
    assert_eq!(key_transition(0x100), Some(true));
    assert_eq!(key_transition(0x104), Some(true));
    assert_eq!(key_transition(0x101), Some(false));
    assert_eq!(key_transition(0x105), Some(false));
    assert_eq!(key_transition(0x102), None);
}
