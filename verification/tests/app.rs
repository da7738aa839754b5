use wiredesk_client::app::settings::{
    resolve_target_monitor, selected_monitor_text, MonitorInfo, SettingEdit, Settings,
};
use wiredesk_client::app::shell_pane::SCROLLBACK_MAX;
use wiredesk_client::app::window::{
    FullscreenCommand, Place, PositionRestore, Screen, WireDeskApp,
};
use wiredesk_client::app::{format_progress, permission_steps, ConnectionState, TransportEvent};
use wiredesk_client::clipboard::clip_file::FileCaps;
use wiredesk_client::config::{BluetoothConfig, ClientConfig};
use wiredesk_client::input::keymap::{Key, Modifiers};
use wiredesk_client::keyboard_tap::{start, Platform, TapEvent};
use wiredesk_client::link::LinkContext;
use wiredesk_client::protocol::{Message, Packet};
use wiredesk_client::text::parse_number;

fn bluetooth() -> BluetoothConfig {
    BluetoothConfig {
        service_uuid: String::new(),
        peer_name: String::new(),
        mtu: 0,
        connect_timeout_secs: 0,
        reconnect_max_attempts: 0,
        require_encryption: false,
    }
}

fn make_config() -> ClientConfig {
    ClientConfig { port: "/dev/null".to_string(), ..ClientConfig::defaults(false, bluetooth()) }
}

fn make_app() -> WireDeskApp {
    WireDeskApp::new(make_config(), true, 0)
}

fn make_link() -> LinkContext {
    let caps = FileCaps { max_file_bytes: 1024, max_filename_len: 255 };
    LinkContext::new("test".to_string(), 1, 2, true, true, true, caps)
}

fn monitor(index: u32, label: &str, identity: &str) -> MonitorInfo {
    MonitorInfo { index, label: label.to_string(), identity: identity.to_string() }
}

fn connected() -> TransportEvent {
    TransportEvent::Connected { host_name: "win-host".to_string(), screen_w: 2560, screen_h: 1440 }
}

#[test]
fn chrome_shown_by_default() {
    let app = make_app();
    assert!(app.should_show_chrome());
}

#[test]
fn capturing_hides_chrome() {
    let mut app = make_app();
    app.capturing = true;
    assert!(!app.should_show_chrome());
}

#[test]
fn fullscreen_hides_chrome() {
    let mut app = make_app();
    app.fullscreen = true;
    assert!(!app.should_show_chrome());
}

#[test]
fn shell_open_sets_just_opened_flag() {
    let mut app = make_app();
    let mut out: Vec<Packet> = Vec::new();
    assert!(!app.shell.open);
    assert!(!app.shell.just_opened);

    app.shell_open_request(&mut out);
    assert!(app.shell.open, "shell_open should flip to true");
    assert!(
        app.shell.just_opened,
        "shell_just_opened should be set so the next render frame can grab focus"
    );
    assert_eq!(out.len(), 1);
    assert_eq!(out[0].message, Message::ShellOpen { shell: String::new() });

    app.shell.just_opened = false;
    app.shell_open_request(&mut out);
    assert!(
        !app.shell.just_opened,
        "second shell_open_request while open must NOT re-arm the flag"
    );
    assert_eq!(out.len(), 1);
}

#[test]
fn permission_state_initialized() {
    let app = WireDeskApp::new(make_config(), false, 5);
    let _: bool = app.permission_granted;
    assert!(!app.permission_granted);
    assert_eq!(app.screen(), Screen::Permission);
}

#[test]
fn connection_state_display_human_readable() {
    let cases = [
        (ConnectionState::Disconnected, "Not connected"),
        (ConnectionState::Connecting, "Connecting…"),
        (ConnectionState::Connected, "Connected"),
    ];
    for (state, expected) in cases {
        assert_eq!(state.to_text(), expected, "Display for {state:?}");
    }
}

#[test]
fn status_text_for_each_state() {
    let mut app = make_app();
    app.state = ConnectionState::Disconnected;
    app.status_msg = "ready".to_string();
    assert_eq!(app.status_text(), "Not connected");

    app.status_msg = "disconnected: serial: device busy".to_string();
    assert_eq!(app.status_text(), "Disconnected: serial: device busy");

    app.state = ConnectionState::Connecting;
    assert_eq!(app.status_text(), "Connecting…");

    app.state = ConnectionState::Connected;
    app.host_name = "win-host".to_string();
    app.screen_w = 2560;
    app.screen_h = 1440;
    assert_eq!(app.status_text(), "Connected to win-host (2560×1440)");
}

#[test]
fn permission_steps_has_four_steps() {
    assert_eq!(permission_steps().len(), 4);
}

#[test]
fn permission_steps_first_mentions_system_settings() {
    assert!(permission_steps()[0].contains("System Settings"));
}

#[test]
fn format_progress_active() {
    let s = format_progress("Sending clipboard", 340 * 1024, 780 * 1024).expect("active");
    assert!(s.contains("Sending clipboard"), "action prefix missing: {s}");
    assert!(s.contains("340"), "current KB missing: {s}");
    assert!(s.contains("780"), "total KB missing: {s}");
    assert!(s.contains("43%"), "percentage missing: {s}");
    assert_eq!(s, "Sending clipboard — 340/780 KB (43%)");
}

#[test]
fn format_progress_idle() {
    assert!(format_progress("Sending clipboard", 0, 0).is_none());
    assert!(format_progress("Sending clipboard", 256, 0).is_none());
}

#[test]
fn format_progress_complete() {
    let s = format_progress("Receiving clipboard", 1024, 1024).expect("active");
    assert!(s.contains("100%"), "expected 100% at boundary: {s}");
}

#[test]
fn format_progress_clamps_overshoot() {
    let s = format_progress("Sending clipboard", 2048, 1024).expect("active");
    assert!(s.contains("100%"), "overshoot must clamp to 100%: {s}");
}

#[test]
fn format_progress_sub_kb_uses_bytes() {
    let s = format_progress("Sending clipboard", 25, 50).expect("active");
    assert!(s.contains("25/50 B"), "expected raw bytes for sub-KB: {s}");
    assert!(s.contains("50%"), "percentage missing: {s}");
    assert!(!s.contains("KB"), "must not say KB for sub-KB total: {s}");
}

#[test]
fn format_progress_exactly_1kb_uses_kb() {
    let s = format_progress("Sending clipboard", 512, 1024).expect("active");
    assert!(s.contains("KB"), "1 KiB total must use KB units: {s}");
    assert!(s.contains("0/1 KB"), "expected 0/1 KB at 512/1024: {s}");
}

#[test]
fn capture_or_fullscreen_each_hides() {
    let mut app = make_app();
    app.capturing = true;
    app.fullscreen = false;
    assert!(!app.should_show_chrome());
    app.capturing = false;
    app.fullscreen = true;
    assert!(!app.should_show_chrome());
    app.capturing = true;
    app.fullscreen = true;
    assert!(!app.should_show_chrome());
    app.capturing = false;
    app.fullscreen = false;
    assert!(app.should_show_chrome());
}

#[test]
fn link_events_change_the_window() {
    let mut app = make_app();
    let mut link = make_link();
    app.on_transport_event(&mut link, connected(), 0);
    assert_eq!(app.state, ConnectionState::Connected);
    assert_eq!(app.status_msg, "connected to win-host");
    assert_eq!((app.mapper.host_screen_w, app.mapper.host_screen_h), (2560, 1440));

    app.toggle_capture();
    assert!(app.captures_input());
    link.outgoing_total = 9;
    link.incoming.incoming_total = 7;
    app.on_transport_event(&mut link, TransportEvent::Disconnected("cable".to_string()), 0);
    assert!(!app.capturing);
    assert_eq!(app.status_text(), "Disconnected: cable");
    assert_eq!((link.outgoing_total, link.incoming.incoming_total), (0, 0));

    app.on_transport_event(&mut link, TransportEvent::Reconnecting { attempt: 1 }, 0);
    assert_eq!(app.status_text(), "Connecting…");

    let text = TransportEvent::ClipboardFromHost("copied".to_string());
    app.on_transport_event(&mut link, text, 0);
    assert_eq!(app.clipboard_preview(), Some("copied".to_string()));
    app.on_transport_event(&mut link, TransportEvent::Heartbeat, 0);
}

#[test]
fn notices_come_and_go() {
    let mut app = make_app();
    let mut link = make_link();
    app.on_transport_event(&mut link, TransportEvent::Toast("too large".to_string()), 1000);
    app.expire_toast(3999);
    assert_eq!(app.transient_toast, Some(("too large".to_string(), 1000)));
    app.expire_toast(4000);
    assert_eq!(app.transient_toast, None);
}

#[test]
fn capture_toggles_with_its_status() {
    let mut app = make_app();
    app.toggle_capture();
    assert_eq!(app.status_msg, "input captured (Cmd+Esc to release)");
    app.toggle_capture();
    assert_eq!(app.status_msg, "input released");
    let none: Vec<MonitorInfo> = Vec::new();
    assert_eq!(app.on_tap_event(TapEvent::ReleaseCapture, &none, None, 0), None);
    assert!(!app.capturing);
    app.on_tap_event(TapEvent::EngageCapture, &none, None, 0);
    assert!(app.capturing);
    app.on_tap_event(TapEvent::EngageCapture, &none, None, 0);
    assert!(app.capturing);
    app.on_tap_event(TapEvent::ReleaseCapture, &none, None, 0);
    assert!(!app.capturing);
}

#[test]
fn fullscreen_on_the_preferred_display_and_back() {
    let cfg = ClientConfig { preferred_monitor: Some("B @ 0".to_string()), ..make_config() };
    let mut app = WireDeskApp::new(cfg, true, 0);
    let monitors = vec![monitor(0, "A", "A @ 0"), monitor(1, "B", "B @ 0")];
    let place = Place { x_bits: 7, y_bits: 9 };
    let cmd = app.toggle_fullscreen(&monitors, Some(place), 100);
    assert_eq!(cmd, FullscreenCommand::Enter { move_to: Some(1) });
    assert!(app.fullscreen && app.capturing);
    let cmd = app.toggle_fullscreen(&monitors, None, 1000);
    assert_eq!(cmd, FullscreenCommand::Leave { look_again_ms: Some(700) });
    assert!(!app.fullscreen && !app.capturing);
    assert_eq!(app.drain_pending_position_restore(1500), PositionRestore::Wait(100));
    assert_eq!(app.drain_pending_position_restore(1600), PositionRestore::MoveTo(place));
    assert_eq!(app.drain_pending_position_restore(1700), PositionRestore::Nothing);
}

#[test]
fn fullscreen_without_its_display_says_so() {
    let cfg = ClientConfig { preferred_monitor: Some("gone".to_string()), ..make_config() };
    let mut app = WireDeskApp::new(cfg, true, 0);
    let monitors = vec![monitor(0, "A", "A @ 0")];
    let place = Some(Place { x_bits: 1, y_bits: 1 });
    let cmd = app.toggle_fullscreen(&monitors, place, 100);
    assert_eq!(cmd, FullscreenCommand::Enter { move_to: None });
    assert_eq!(
        app.visible_fallback(5099),
        Some("Selected monitor unavailable; fullscreen on current display")
    );
    assert_eq!(app.visible_fallback(5100), None);
    let cmd = app.toggle_fullscreen(&monitors, place, 200);
    assert_eq!(cmd, FullscreenCommand::Leave { look_again_ms: None });
}

#[test]
fn fullscreen_without_a_preference_is_silent() {
    let mut app = make_app();
    let none: Vec<MonitorInfo> = Vec::new();
    let cmd = app.on_tap_event(TapEvent::ToggleFullscreen, &none, None, 0);
    assert_eq!(cmd, Some(FullscreenCommand::Enter { move_to: None }));
    assert_eq!(app.visible_fallback(0), None);
    assert_eq!(app.screen(), Screen::Captured);
}

#[test]
fn special_keys_are_pressed_and_released() {
    let mut app = make_app();
    let mut out: Vec<Packet> = Vec::new();
    app.seq = u16::MAX;
    app.send_win_key(&mut out);
    assert_eq!(
        out,
        vec![
            Packet { message: Message::KeyDown { scancode: 0xE05B, modifiers: 0 }, seq: 65535 },
            Packet { message: Message::KeyUp { scancode: 0xE05B, modifiers: 0 }, seq: 0 },
        ]
    );
    out.clear();
    app.send_ctrl_alt_del(&mut out);
    assert_eq!(out.len(), 6);
    assert_eq!(out[2].message, Message::KeyDown { scancode: 0xE053, modifiers: 5 });
    assert_eq!(out[5].message, Message::KeyUp { scancode: 0x1D, modifiers: 0 });
    assert_eq!(app.seq, 7);
    out.clear();
    app.send_language_key(&mut out);
    assert_eq!(out[1].message, Message::KeyDown { scancode: 0x39, modifiers: 8 });
    assert_eq!(out.len(), 4);
}

#[test]
fn shell_in_the_window() {
    let mut app = make_app();
    let mut link = make_link();
    let mut out: Vec<Packet> = Vec::new();
    app.shell_close_request(&mut out);
    assert!(out.is_empty(), "nothing is open");
    app.shell.kind = "cmd".to_string();
    assert_eq!(app.shell.kind_label(), "cmd");
    app.shell_open_request(&mut out);
    assert_eq!(out[0].message, Message::ShellOpen { shell: "cmd".to_string() });
    app.shell.input = "dir".to_string();
    let sent = app.shell.submit();
    assert_eq!(sent, Message::ShellInput { data: b"dir\n".to_vec() });
    app.shell_send(&mut out, sent);
    assert_eq!(app.shell.output, "> dir\n");
    assert_eq!(app.shell.input, "");
    app.on_transport_event(&mut link, TransportEvent::ShellOutput(b"ok\xFF\n".to_vec()), 0);
    assert_eq!(app.shell.output, "> dir\nok\u{FFFD}\n");
    app.shell_close_request(&mut out);
    assert!(app.shell.open, "open until the host says otherwise");
    app.on_transport_event(&mut link, TransportEvent::ShellExit(-3), 0);
    assert!(!app.shell.open);
    assert!(app.shell.output.ends_with("\n[shell exited with code -3]\n"));
    app.on_transport_event(&mut link, TransportEvent::ShellError("no shell".to_string()), 0);
    assert!(app.shell.output.ends_with("\n[shell error: no shell]\n"));
    app.shell_send_input(&mut out, "x");
    assert_eq!(out.last().unwrap().message, Message::ShellInput { data: b"x\n".to_vec() });
    assert_eq!(out.last().unwrap().seq, 3);
}

#[test]
fn scrollback_keeps_the_end() {
    let mut app = make_app();
    let first = vec![b'a'; SCROLLBACK_MAX];
    assert!(app.shell.try_append_output(&first));
    assert!(app.shell.try_append_output(b"end"));
    assert_eq!(app.shell.output.len(), SCROLLBACK_MAX);
    assert!(app.shell.output.ends_with("aend"));
}

#[test]
fn cut_inside_a_character_is_noticed() {
    let mut app = make_app();
    let mut link = make_link();
    let wide = "ж".repeat(SCROLLBACK_MAX / 2);
    assert!(app.shell.try_append_output(wide.as_bytes()));
    let one = TransportEvent::ShellOutput(b"x".to_vec());
    assert!(!app.try_on_transport_event(&mut link, one, 0));
    assert_eq!(app.shell.output, wide, "nothing is changed");
    let two = TransportEvent::ShellOutput(b"xy".to_vec());
    assert!(app.try_on_transport_event(&mut link, two, 0));
    assert_eq!(app.shell.output.len(), SCROLLBACK_MAX);
}

#[test]
fn captured_keys_go_to_the_host_but_for_hotkeys() {
    let mut app = make_app();
    let mut link = make_link();
    let mut out: Vec<Packet> = Vec::new();
    let plain = Modifiers { alt: false, ctrl: false, shift: false, command: false };
    let cmd = Modifiers { command: true, ..plain };
    app.forward_key(&mut out, &Key::A, &plain, true, false);
    assert!(out.is_empty(), "not captured");
    app.on_transport_event(&mut link, connected(), 0);
    app.toggle_capture();
    app.forward_key(&mut out, &Key::A, &plain, true, true);
    assert!(out.is_empty(), "the tap sends it");
    app.forward_key(&mut out, &Key::Escape, &cmd, true, false);
    app.forward_key(&mut out, &Key::Enter, &cmd, true, false);
    assert!(out.is_empty(), "hotkeys stay here");
    app.forward_key(&mut out, &Key::Enter, &plain, true, false);
    app.forward_key(&mut out, &Key::C, &cmd, false, false);
    assert_eq!(
        out,
        vec![
            Packet { message: Message::KeyDown { scancode: 0x1C, modifiers: 0 }, seq: 0 },
            Packet { message: Message::KeyUp { scancode: 0x2E, modifiers: 1 }, seq: 1 },
        ]
    );
    out.clear();
    app.forward_button(&mut out, 1, true);
    app.forward_scroll(&mut out, 0, -120);
    app.forward_move(&mut out, 5, 6);
    app.forward_move(&mut out, 5, 6);
    assert_eq!(out.len(), 3);
    assert_eq!(out[2], Packet { message: Message::MouseMove { x: 5, y: 6 }, seq: 4 });
    app.toggle_capture();
    app.forward_button(&mut out, 1, false);
    app.forward_scroll(&mut out, 1, 1);
    app.forward_move(&mut out, 9, 9);
    assert_eq!(out.len(), 3);
}

#[test]
fn tap_follows_focus_and_capture() {
    let mut app = make_app();
    let mut out: Vec<Packet> = Vec::new();
    let mut tap = start(Platform::MacOs, true, false, false);
    app.sync_tap_to_focus(Some(true), &mut tap, &mut out);
    assert!(tap.is_passive() && !tap.is_enabled());
    app.toggle_capture();
    app.sync_tap_to_focus(None, &mut tap, &mut out);
    assert!(!tap.is_passive() && tap.is_enabled());
    app.sync_tap_to_focus(Some(false), &mut tap, &mut out);
    assert!(!tap.is_passive() && !tap.is_enabled());
    assert!(out.is_empty());
}

#[test]
fn dock_icon_is_set_four_times() {
    let mut app = make_app();
    assert!(app.reapply_dock_icon_if_needed(0));
    assert!(!app.reapply_dock_icon_if_needed(1499));
    assert!(app.reapply_dock_icon_if_needed(1500));
    assert!(!app.reapply_dock_icon_if_needed(4499));
    assert!(app.reapply_dock_icon_if_needed(4500));
    assert!(!app.reapply_dock_icon_if_needed(9499));
    assert!(app.reapply_dock_icon_if_needed(9500));
    assert!(!app.reapply_dock_icon_if_needed(99999));
}

#[test]
fn permission_is_looked_at_every_two_seconds() {
    let mut app = WireDeskApp::new(make_config(), false, 0);
    assert!(!app.permission_check_due(1999));
    assert!(app.permission_check_due(2000));
    app.set_permission(true, 2000);
    assert_eq!(app.screen(), Screen::Chrome);
    assert!(!app.permission_check_due(3999));
}

#[test]
fn long_clipboard_is_shown_in_part() {
    let mut app = make_app();
    assert_eq!(app.clipboard_preview(), None);
    app.clipboard_text = "ж".repeat(200);
    assert_eq!(app.clipboard_preview(), Some("ж".repeat(200)));
    app.clipboard_text = "ж".repeat(201);
    assert_eq!(app.clipboard_preview(), Some(format!("{}...", "ж".repeat(200))));
}

#[test]
fn settings_are_edited_and_saved() {
    let mut s = Settings::new(make_config());
    assert!(!s.dirty);
    s.edit(SettingEdit::Baud("fast".to_string()));
    assert!(!s.dirty, "what cannot be read changes nothing");
    assert_eq!(s.pending_config.baud, 115_200);
    s.edit(SettingEdit::Baud("57600".to_string()));
    assert!(s.dirty);
    assert_eq!(s.pending_config.baud, 57_600);
    s.edit(SettingEdit::Width("65536".to_string()));
    assert_eq!(s.pending_config.width, 2560);
    s.edit(SettingEdit::Width("65535".to_string()));
    s.edit(SettingEdit::Height("+8".to_string()));
    assert_eq!((s.pending_config.width, s.pending_config.height), (65535, 8));
    s.edit(SettingEdit::SendText(false));
    assert!(!s.toggles.send_text && !s.pending_config.send_text);
    s.edit(SettingEdit::SendImages(false));
    s.edit(SettingEdit::ReceiveImages(false));
    s.edit(SettingEdit::ReceiveText(false));
    s.edit(SettingEdit::SwapOptionCommand(true));
    assert!(s.toggles.swap_option_command && !s.toggles.receive_images);
    s.edit(SettingEdit::Port("/dev/cu.x".to_string()));
    s.edit(SettingEdit::ClientName("me".to_string()));
    s.edit(SettingEdit::PreferredMonitor(Some("A @ 0".to_string())));
    assert_eq!(s.pending_config.port, "/dev/cu.x");
    assert_eq!(s.pending_config.client_name, "me");

    s.on_saved(Some("disk full"), false, 10);
    assert!(s.dirty);
    assert_eq!(s.visible_save_toast(10), Some("Save failed: disk full"));
    s.on_saved(None, false, 20);
    assert!(!s.dirty);
    assert_eq!(s.visible_save_toast(3019), Some("Saved. Restart WireDesk to apply."));
    assert_eq!(s.visible_save_toast(3020), None);
    s.reset_to_defaults(false, bluetooth());
    assert!(s.dirty);
    assert_eq!(s.pending_config, ClientConfig::defaults(false, bluetooth()));
    s.on_saved(None, true, 9000);
    assert_eq!(s.visible_save_toast(9000), None, "success is not announced before a restart");
}

#[test]
fn only_callout_ports_are_offered() {
    let mut s = Settings::new(make_config());
    s.set_ports(vec![
        "/dev/tty.usb".to_string(),
        "/dev/cu.usb".to_string(),
        "COM3".to_string(),
        "/dev/cu.bt".to_string(),
    ]);
    assert_eq!(s.available_ports, vec!["/dev/cu.usb".to_string(), "/dev/cu.bt".to_string()]);
}

#[test]
fn displays_are_found_by_identity() {
    let monitors = vec![
        monitor(0, "Studio (5120×2880)", "Studio (5120×2880 @ 0,0)"),
        monitor(1, "Studio (5120×2880)", "Studio (5120×2880 @ 5120,0)"),
    ];
    let second = Some("Studio (5120×2880 @ 5120,0)".to_string());
    assert_eq!(resolve_target_monitor(&second, &monitors), Some(1));
    assert_eq!(resolve_target_monitor(&None, &monitors), None);
    assert_eq!(resolve_target_monitor(&Some("other".to_string()), &monitors), None);
    assert_eq!(selected_monitor_text(&None, &monitors), "(active monitor — default)");
    assert_eq!(selected_monitor_text(&second, &monitors), "Display 2 — Studio (5120×2880)");
    assert_eq!(
        selected_monitor_text(&Some("other".to_string()), &monitors),
        "other (unavailable)"
    );
    let mut s = Settings::new(make_config());
    assert!(s.monitors_stale(0));
    s.set_monitors(monitors, 5);
    assert!(!s.monitors_stale(1004));
    assert!(s.monitors_stale(1005));
}

#[test]
fn numbers_are_read_strictly() {
    assert_eq!(parse_number("0", 9), Some(0));
    assert_eq!(parse_number("+7", 9), Some(7));
    assert_eq!(parse_number("007", 9), Some(7));
    assert_eq!(parse_number("10", 9), None);
    assert_eq!(parse_number("", 9), None);
    assert_eq!(parse_number("+", 9), None);
    assert_eq!(parse_number("-1", 9), None);
    assert_eq!(parse_number(" 1", 9), None);
    assert_eq!(parse_number("4294967295", u32::MAX), Some(u32::MAX));
    assert_eq!(parse_number("4294967296", u32::MAX), None);
    assert_eq!(parse_number("99999999999999999999999x", u32::MAX), None);
}
