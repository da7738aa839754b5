use wiredesk_client::input::keymap::{
    cg_flag_change_to_scancodes, cg_flag_change_to_scancodes_swapped, cgkeycode_to_scancode,
    egui_key_to_scancode, egui_modifiers_to_u8, swap_option_command, Key, Modifiers, CG_FLAG_ALT,
    CG_FLAG_COMMAND, CG_FLAG_CONTROL, CG_FLAG_SHIFT, WIN_SCAN_LALT, WIN_SCAN_LCTRL,
    WIN_SCAN_LSHIFT,
};
use wiredesk_client::input::mapper::InputMapper;
use wiredesk_client::protocol::{Message, Packet};

const NONE: Modifiers = Modifiers { alt: false, ctrl: false, shift: false, command: false };

#[test]
fn letter_scancodes() {
    assert_eq!(egui_key_to_scancode(&Key::A), Some(0x1E));
    assert_eq!(egui_key_to_scancode(&Key::Z), Some(0x2C));
}

#[test]
fn number_scancodes() {
    assert_eq!(egui_key_to_scancode(&Key::Num0), Some(0x0B));
    assert_eq!(egui_key_to_scancode(&Key::Num9), Some(0x0A));
}

#[test]
fn function_keys() {
    assert_eq!(egui_key_to_scancode(&Key::F1), Some(0x3B));
    assert_eq!(egui_key_to_scancode(&Key::F12), Some(0x58));
}

#[test]
fn arrow_keys() {
    assert_eq!(egui_key_to_scancode(&Key::ArrowUp), Some(0xE048));
}

#[test]
fn special_keys() {
    assert_eq!(egui_key_to_scancode(&Key::Escape), Some(0x01));
    assert_eq!(egui_key_to_scancode(&Key::Enter), Some(0x1C));
    assert_eq!(egui_key_to_scancode(&Key::Space), Some(0x39));
}

#[test]
fn modifiers_cmd_to_ctrl() {
    let mods = Modifiers { command: true, ..NONE };
    assert_eq!(egui_modifiers_to_u8(&mods), 0x01);
}

#[test]
fn modifiers_combined() {
    let mods = Modifiers { ctrl: true, shift: true, alt: true, ..NONE };
    assert_eq!(egui_modifiers_to_u8(&mods), 0x07);
}

#[test]
fn cg_letters_match_egui() {
    assert_eq!(cgkeycode_to_scancode(0x00), Some(0x1E));
    assert_eq!(cgkeycode_to_scancode(0x06), Some(0x2C));
    assert_eq!(cgkeycode_to_scancode(0x08), Some(0x2E));
    assert_eq!(cgkeycode_to_scancode(0x09), Some(0x2F));
}

#[test]
fn cg_numbers() {
    assert_eq!(cgkeycode_to_scancode(0x1D), Some(0x0B));
    assert_eq!(cgkeycode_to_scancode(0x12), Some(0x02));
    assert_eq!(cgkeycode_to_scancode(0x19), Some(0x0A));
}

#[test]
fn cg_special() {
    assert_eq!(cgkeycode_to_scancode(0x24), Some(0x1C));
    assert_eq!(cgkeycode_to_scancode(0x31), Some(0x39));
    assert_eq!(cgkeycode_to_scancode(0x35), Some(0x01));
    assert_eq!(cgkeycode_to_scancode(0x33), Some(0x0E));
    assert_eq!(cgkeycode_to_scancode(0x30), Some(0x0F));
}

#[test]
fn cg_arrows_extended() {
    assert_eq!(cgkeycode_to_scancode(0x7E), Some(0xE048));
    assert_eq!(cgkeycode_to_scancode(0x7D), Some(0xE050));
    assert_eq!(cgkeycode_to_scancode(0x7B), Some(0xE04B));
    assert_eq!(cgkeycode_to_scancode(0x7C), Some(0xE04D));
}

#[test]
fn cg_function_keys() {
    assert_eq!(cgkeycode_to_scancode(0x7A), Some(0x3B));
    assert_eq!(cgkeycode_to_scancode(0x6F), Some(0x58));
}

#[test]
fn cg_unknown_keycode() {
    assert_eq!(cgkeycode_to_scancode(0xFFFF), None);
    assert_eq!(cgkeycode_to_scancode(0x80), None);
}

#[test]
fn flag_change_cmd_press() {
    let out = cg_flag_change_to_scancodes(CG_FLAG_COMMAND, 0);
    assert_eq!(out, vec![(WIN_SCAN_LCTRL, true)]);
}

#[test]
fn flag_change_cmd_release() {
    let out = cg_flag_change_to_scancodes(0, CG_FLAG_COMMAND);
    assert_eq!(out, vec![(WIN_SCAN_LCTRL, false)]);
}

#[test]
fn flag_change_ctrl_press() {
    let out = cg_flag_change_to_scancodes(CG_FLAG_CONTROL, 0);
    assert_eq!(out, vec![(WIN_SCAN_LCTRL, true)]);
}

#[test]
fn flag_change_cmd_then_ctrl_no_double_press() {
    let out = cg_flag_change_to_scancodes(CG_FLAG_COMMAND | CG_FLAG_CONTROL, CG_FLAG_COMMAND);
    assert!(out.is_empty(), "Cmd+Ctrl shouldn't double-press: {out:?}");
}

#[test]
fn flag_change_release_one_keep_other() {
    let out = cg_flag_change_to_scancodes(CG_FLAG_CONTROL, CG_FLAG_COMMAND | CG_FLAG_CONTROL);
    assert!(out.is_empty(), "releasing Cmd while Ctrl held shouldn't release Ctrl");
}

#[test]
fn flag_change_full_combo() {
    let target = CG_FLAG_COMMAND | CG_FLAG_SHIFT | CG_FLAG_ALT;
    let out = cg_flag_change_to_scancodes(target, 0);
    assert_eq!(out.len(), 3);
    assert!(out.contains(&(WIN_SCAN_LCTRL, true)));
    assert!(out.contains(&(WIN_SCAN_LSHIFT, true)));
    assert!(out.contains(&(WIN_SCAN_LALT, true)));
}

#[test]
fn flag_change_full_combo_release() {
    let prev = CG_FLAG_COMMAND | CG_FLAG_SHIFT | CG_FLAG_ALT;
    let out = cg_flag_change_to_scancodes(0, prev);
    assert_eq!(out.len(), 3);
    assert!(out.contains(&(WIN_SCAN_LCTRL, false)));
    assert!(out.contains(&(WIN_SCAN_LSHIFT, false)));
    assert!(out.contains(&(WIN_SCAN_LALT, false)));
}

#[test]
fn flag_change_idempotent() {
    let f = CG_FLAG_COMMAND | CG_FLAG_SHIFT;
    let out = cg_flag_change_to_scancodes(f, f);
    assert!(out.is_empty());
}

#[test]
fn flag_change_shift_only() {
    let out = cg_flag_change_to_scancodes(CG_FLAG_SHIFT, 0);
    assert_eq!(out, vec![(WIN_SCAN_LSHIFT, true)]);
}

#[test]
fn flag_change_alt_only() {
    let out = cg_flag_change_to_scancodes(CG_FLAG_ALT, 0);
    assert_eq!(out, vec![(WIN_SCAN_LALT, true)]);
}

#[test]
fn keys_without_a_scancode() {
    assert_eq!(egui_key_to_scancode(&Key::Other), None);
    assert_eq!(egui_key_to_scancode(&Key::Insert), Some(0xE052));
    assert_eq!(egui_key_to_scancode(&Key::Backslash), Some(0x2B));
}

#[test]
fn swapped_flags_exchange_command_and_option() {
    let other = 1u64 << 3;
    assert_eq!(swap_option_command(CG_FLAG_COMMAND | other), CG_FLAG_ALT | other);
    assert_eq!(swap_option_command(CG_FLAG_ALT), CG_FLAG_COMMAND);
    let both = CG_FLAG_ALT | CG_FLAG_COMMAND | CG_FLAG_SHIFT;
    assert_eq!(swap_option_command(both), both);
    assert_eq!(
        cg_flag_change_to_scancodes_swapped(CG_FLAG_COMMAND, 0),
        vec![(WIN_SCAN_LALT, true)]
    );
    assert_eq!(
        cg_flag_change_to_scancodes_swapped(0, CG_FLAG_ALT | CG_FLAG_SHIFT),
        vec![(WIN_SCAN_LCTRL, false), (WIN_SCAN_LSHIFT, false)]
    );
}

#[test]
fn modifier_bits_one_by_one() {
    assert_eq!(egui_modifiers_to_u8(&NONE), 0);
    assert_eq!(egui_modifiers_to_u8(&Modifiers { shift: true, ..NONE }), 2);
    assert_eq!(egui_modifiers_to_u8(&Modifiers { alt: true, ..NONE }), 4);
    assert_eq!(egui_modifiers_to_u8(&Modifiers { ctrl: true, command: true, ..NONE }), 1);
}

#[test]
fn send_key_maps_correctly() {
    let mut out: Vec<Packet> = Vec::new();
    let mut mapper = InputMapper::new(1920, 1080);

    mapper.send_key(&mut out, &Key::A, &NONE, true);

    match &out[0].message {
        Message::KeyDown { scancode, modifiers } => {
            assert_eq!(*scancode, 0x1E);
            assert_eq!(*modifiers, 0);
        }
        other => panic!("expected KeyDown, got {other:?}"),
    }
}

#[test]
fn send_key_cmd_becomes_ctrl() {
    let mut out: Vec<Packet> = Vec::new();
    let mut mapper = InputMapper::new(1920, 1080);

    let mods = Modifiers { command: true, ..NONE };
    mapper.send_key(&mut out, &Key::C, &mods, true);

    match &out[0].message {
        Message::KeyDown { scancode, modifiers } => {
            assert_eq!(*scancode, 0x2E);
            assert_eq!(*modifiers, 0x01);
        }
        other => panic!("expected KeyDown, got {other:?}"),
    }
}

#[test]
fn mouse_debounce() {
    let mut out: Vec<Packet> = Vec::new();
    let mut mapper = InputMapper::new(1920, 1080);

    mapper.send_mouse_move(&mut out, 3413, 6068);
    mapper.send_mouse_move(&mut out, 3413, 6068);

    assert_eq!(out.len(), 1);
    mapper.send_mouse_move(&mut out, 3413, 6069);
    assert_eq!(out[1].message, Message::MouseMove { x: 3413, y: 6069 });
}

#[test]
fn messages_are_numbered_and_the_number_wraps() {
    let mut out: Vec<Packet> = Vec::new();
    let mut mapper = InputMapper::new(800, 600);
    mapper.seq = u16::MAX;
    mapper.send_mouse_button(&mut out, 2, true);
    mapper.send_mouse_scroll(&mut out, -120, 240);
    mapper.send_key(&mut out, &Key::Other, &NONE, true);
    mapper.send_key(&mut out, &Key::Enter, &NONE, false);
    assert_eq!(
        out,
        vec![
            Packet { message: Message::MouseButton { button: 2, pressed: true }, seq: u16::MAX },
            Packet { message: Message::MouseScroll { delta_x: -120, delta_y: 240 }, seq: 0 },
            Packet { message: Message::KeyUp { scancode: 0x1C, modifiers: 0 }, seq: 1 },
        ]
    );
    mapper.set_screen_size(1024, 768);
    assert_eq!((mapper.host_screen_w, mapper.host_screen_h, mapper.seq), (1024, 768, 2));
    assert_eq!(mapper.next_seq(), 2);
}
