//! The window's own state: capture, fullscreen, status and notices.

use vstd::prelude::*;
use vstd::string::*;
use vstd::utf8::*;

use crate::app::settings::{
    MonitorInfo, Settings, is_target, law_target_is_unique, preference, resolve_target_monitor,
};
use crate::app::shell_pane::{
    Pane, ShellPane, can_be_cut, error_line, error_text, exit_line, exit_text,
};
use crate::app::{ConnectionState, LinkEvent, TransportEvent};
use crate::config::ClientConfig;
use crate::input::keymap::{Key, Modifiers, key_events, modifier_bits, scancode_of};
use crate::input::mapper::InputMapper;
use crate::keyboard_tap::{Platform, TapEvent, TapHandle};
use crate::link::LinkContext;
use crate::protocol::{Message, MessageView, Packet, PacketView, packet_views};
use crate::text::{
    after_prefix, decimal, join, push_decimal, stands_at, string_from_utf8_lossy, strip_prefix,
    text_contains, text_of,
};

verus! {

/// Milliseconds between two looks at the permission to take the keyboard over.
pub const PERMISSION_CHECK_MS: u64 = 2000;

/// Milliseconds that a notice is shown.
pub const TOAST_MS: u64 = 3000;

/// Milliseconds that a notice of an unavailable display is shown.
pub const FALLBACK_MS: u64 = 5000;

/// Milliseconds after leaving fullscreen before the window can be moved.
pub const RESTORE_DELAY_MS: u64 = 600;

/// Milliseconds after leaving fullscreen until the window looks again.
pub const RESTORE_REPAINT_MS: u64 = 700;

/// How often the icon in the Dock is set.
pub const DOCK_ICON_MAX: u8 = 4;

/// How many characters of the host's clipboard are shown.
pub const PREVIEW_CHARS: usize = 200;

/// A place on the desk, by the bit patterns of its coordinates.
#[derive(Debug, Clone, Copy, PartialEq, Eq, Structural)]
pub struct Place {
    pub x_bits: u32,
    pub y_bits: u32,
}

/// The window.
#[derive(Debug)]
pub struct WireDeskApp {
    pub state: ConnectionState,
    /// Input goes to the host.
    pub capturing: bool,
    pub fullscreen: bool,
    pub host_name: String,
    pub screen_w: u16,
    pub screen_h: u16,
    pub clipboard_text: String,
    pub status_msg: String,
    /// The port that this process opened.
    pub runtime_serial_port: String,
    pub mapper: InputMapper,
    pub seq: u16,
    pub permission_granted: bool,
    pub last_perm_check_ms: u64,
    pub shell: ShellPane,
    pub settings: Settings,
    /// A notice, and when it came up.
    pub monitor_fallback_msg: Option<(String, u64)>,
    /// Where the window was before it went fullscreen on another display.
    pub original_position: Option<Place>,
    /// Where the window is to go, and since when.
    pub pending_position_restore: Option<(Place, u64)>,
    pub last_dock_icon_apply: Option<u64>,
    pub dock_icon_apply_count: u8,
    /// The display that fullscreen goes to, as it was at the start.
    pub runtime_preferred_monitor: Option<String>,
    /// A notice, and when it came up.
    pub transient_toast: Option<(String, u64)>,
}

/// `WireDeskApp` as a mathematical value.
#[verifier::ext_equal]
pub struct Window {
    pub state: ConnectionState,
    pub capturing: bool,
    pub fullscreen: bool,
    pub host_name: Seq<char>,
    pub screen_w: u16,
    pub screen_h: u16,
    pub clipboard_text: Seq<char>,
    pub status_msg: Seq<char>,
    pub serial_port: Seq<char>,
    pub mapper: InputMapper,
    pub seq: u16,
    pub permission_granted: bool,
    pub last_perm_check_ms: u64,
    pub shell: Pane,
    pub settings: Settings,
    pub fallback: Option<(Seq<char>, u64)>,
    pub original_position: Option<Place>,
    pub pending_position_restore: Option<(Place, u64)>,
    pub last_dock_icon_apply: Option<u64>,
    pub dock_icon_apply_count: u8,
    pub preferred_monitor: Option<Seq<char>>,
    pub toast: Option<(Seq<char>, u64)>,
}

/// A notice as a mathematical value.
pub open spec fn notice_view(notice: Option<(String, u64)>) -> Option<(Seq<char>, u64)> {
    match notice {
        Some((text, at)) => Some((text@, at)),
        None => None,
    }
}

impl View for WireDeskApp {
    type V = Window;

    open spec fn view(&self) -> Window {
        Window {
            state: self.state,
            capturing: self.capturing,
            fullscreen: self.fullscreen,
            host_name: self.host_name@,
            screen_w: self.screen_w,
            screen_h: self.screen_h,
            clipboard_text: self.clipboard_text@,
            status_msg: self.status_msg@,
            serial_port: self.runtime_serial_port@,
            mapper: self.mapper,
            seq: self.seq,
            permission_granted: self.permission_granted,
            last_perm_check_ms: self.last_perm_check_ms,
            shell: self.shell@,
            settings: self.settings,
            fallback: notice_view(self.monitor_fallback_msg),
            original_position: self.original_position,
            pending_position_restore: self.pending_position_restore,
            last_dock_icon_apply: self.last_dock_icon_apply,
            dock_icon_apply_count: self.dock_icon_apply_count,
            preferred_monitor: preference(self.runtime_preferred_monitor),
            toast: notice_view(self.transient_toast),
        }
    }
}

/// What the window is to do about fullscreen.
#[derive(Debug, Clone, Copy, PartialEq, Eq, Structural)]
pub enum FullscreenCommand {
    /// Go fullscreen, on this display where one is named.
    Enter { move_to: Option<usize> },
    /// Leave fullscreen, and look again after so many milliseconds where the
    /// window is to go back to its place.
    Leave { look_again_ms: Option<u64> },
}

/// What the window is to do about its place.
#[derive(Debug, Clone, Copy, PartialEq, Eq, Structural)]
pub enum PositionRestore {
    Nothing,
    /// Look again after so many milliseconds.
    Wait(u64),
    MoveTo(Place),
}

/// What the window shows.
#[derive(Debug, Clone, Copy, PartialEq, Eq, Structural)]
pub enum Screen {
    /// Hotkeys and progress, nothing to click on.
    Captured,
    /// How to permit the keyboard to be taken over.
    Permission,
    Chrome,
}

/// What an event of the link shows in the shell.
pub open spec fn shell_text(event: LinkEvent) -> Option<Seq<char>> {
    match event {
        LinkEvent::ShellOutput(data) => Some(text_of(data)),
        LinkEvent::ShellExit(code) => Some(exit_line(code)),
        LinkEvent::ShellError(msg) => Some(error_line(msg)),
        _ => None,
    }
}

impl Window {
    /// Input is captured where it was not, and the other way round.
    pub open spec fn capture_toggled(self) -> Window {
        Window {
            capturing: !self.capturing,
            status_msg: if self.capturing {
                "input released"@
            } else {
                "input captured (Cmd+Esc to release)"@
            },
            ..self
        }
    }

    /// Fullscreen is entered or left. `target` is the display that was asked
    /// for, `place` where the window is.
    pub open spec fn fullscreen_toggled(
        self,
        target: Option<usize>,
        place: Option<Place>,
        now_ms: u64,
    ) -> Window {
        if !self.fullscreen {
            let entered = Window {
                fullscreen: true,
                original_position: if target is Some {
                    place
                } else {
                    self.original_position
                },
                fallback: if target is None && self.preferred_monitor is Some {
                    Some(("Selected monitor unavailable; fullscreen on current display"@, now_ms))
                } else {
                    self.fallback
                },
                ..self
            };
            if entered.capturing {
                entered
            } else {
                entered.capture_toggled()
            }
        } else {
            let left = Window {
                fullscreen: false,
                original_position: None,
                pending_position_restore: match self.original_position {
                    Some(p) => Some((p, now_ms)),
                    None => self.pending_position_restore,
                },
                ..self
            };
            if left.capturing {
                left.capture_toggled()
            } else {
                left
            }
        }
    }

    /// What the window is to do about fullscreen.
    pub open spec fn fullscreen_command(self, target: Option<usize>) -> FullscreenCommand {
        if !self.fullscreen {
            FullscreenCommand::Enter { move_to: target }
        } else {
            FullscreenCommand::Leave {
                look_again_ms: match self.original_position {
                    Some(_) => Some(RESTORE_REPAINT_MS),
                    None => None,
                },
            }
        }
    }

    /// The window after an event of the link.
    pub open spec fn after_event(self, event: LinkEvent, now_ms: u64) -> Window {
        match event {
            LinkEvent::Connected { host_name, screen_w, screen_h } => Window {
                state: ConnectionState::Connected,
                host_name,
                screen_w,
                screen_h,
                mapper: InputMapper {
                    host_screen_w: screen_w,
                    host_screen_h: screen_h,
                    ..self.mapper
                },
                status_msg: "connected to "@ + host_name,
                ..self
            },
            LinkEvent::Disconnected(reason) => Window {
                state: ConnectionState::Disconnected,
                capturing: false,
                status_msg: "disconnected: "@ + reason,
                ..self
            },
            LinkEvent::Reconnecting { .. } => Window { state: ConnectionState::Connecting, ..self },
            LinkEvent::ClipboardFromHost(text) => Window { clipboard_text: text, ..self },
            LinkEvent::Heartbeat => self,
            LinkEvent::ShellOutput(data) => Window {
                shell: self.shell.showing(text_of(data)),
                ..self
            },
            LinkEvent::ShellExit(code) => Window {
                shell: self.shell.closed(exit_line(code)),
                ..self
            },
            LinkEvent::ShellError(msg) => Window {
                shell: self.shell.closed(error_line(msg)),
                ..self
            },
            LinkEvent::Toast(msg) => Window { toast: Some((msg, now_ms)), ..self },
        }
    }

    /// Input goes to the host: it is captured, and there is one.
    pub open spec fn captures_input(self) -> bool {
        self.capturing && self.state == ConnectionState::Connected
    }

    /// Whether a key goes to the host from here. Where the tap takes the keys it
    /// sends them itself; the two hotkeys are for this machine.
    pub open spec fn forwards_key(self, key: Key, modifiers: Modifiers, tap_owns_keys: bool) -> bool {
        &&& self.captures_input()
        &&& !tap_owns_keys
        &&& !(modifiers.command && (key == Key::Escape || key == Key::Enter))
    }

    /// The status in words.
    pub open spec fn status_words(self) -> Seq<char> {
        match self.state {
            ConnectionState::Connected => "Connected to "@ + self.host_name + " ("@ + decimal(
                self.screen_w as nat,
            ) + "×"@ + decimal(self.screen_h as nat) + ")"@,
            ConnectionState::Connecting => "Connecting…"@,
            ConnectionState::Disconnected => match after_prefix(self.status_msg, "disconnected: "@) {
                Some(reason) => "Disconnected: "@ + reason,
                None => "Not connected"@,
            },
        }
    }

    /// The icon in the Dock is to be set: a few times, farther and farther
    /// apart.
    pub open spec fn dock_icon_due(self, now_ms: u64) -> bool {
        &&& self.dock_icon_apply_count < DOCK_ICON_MAX
        &&& match self.last_dock_icon_apply {
            None => true,
            Some(at) => now_ms.saturating_sub(at) >= (if self.dock_icon_apply_count == 1 {
                1500
            } else if self.dock_icon_apply_count == 2 {
                3000
            } else {
                5000u64
            }),
        }
    }
}

/// What is shown of the host's clipboard: its beginning.
pub open spec fn preview(text: Seq<char>) -> Seq<char> {
    if text.len() > PREVIEW_CHARS {
        text.take(PREVIEW_CHARS as int) + "..."@
    } else {
        text
    }
}

/// The number after `n` more messages.
pub open spec fn seq_after(seq: u16, n: nat) -> u16 {
    ((seq + n) % 65536) as u16
}

/// The messages of key events, numbered from `seq` on. An event is a scancode,
/// modifiers, and whether the key goes down.
pub open spec fn numbered_keys(seq: u16, keys: Seq<(u16, u8, bool)>) -> Seq<PacketView> {
    Seq::new(
        keys.len(),
        |i: int|
            PacketView {
                message: if keys[i].2 {
                    MessageView::KeyDown { scancode: keys[i].0, modifiers: keys[i].1 }
                } else {
                    MessageView::KeyUp { scancode: keys[i].0, modifiers: keys[i].1 }
                },
                seq: seq_after(seq, i as nat),
            },
    )
}

/// Ctrl, Alt and Delete.
pub open spec fn ctrl_alt_del() -> Seq<(u16, u8, bool)> {
    seq![
        (0x1Du16, 0x01u8, true),
        (0x38u16, 0x05u8, true),
        (0xE053u16, 0x05u8, true),
        (0xE053u16, 0x00u8, false),
        (0x38u16, 0x00u8, false),
        (0x1Du16, 0x00u8, false),
    ]
}

/// The Windows key.
pub open spec fn win_key() -> Seq<(u16, u8, bool)> {
    seq![(0xE05Bu16, 0x00u8, true), (0xE05Bu16, 0x00u8, false)]
}

/// The Windows key and space, which change the keyboard's language.
pub open spec fn language_key() -> Seq<(u16, u8, bool)> {
    seq![
        (0xE05Bu16, 0x08u8, true),
        (0x39u16, 0x08u8, true),
        (0x39u16, 0x00u8, false),
        (0xE05Bu16, 0x00u8, false),
    ]
}

impl WireDeskApp {
    /// The window before anything has happened.
    pub fn new(config: ClientConfig, permission_granted: bool, now_ms: u64) -> (r: WireDeskApp)
        ensures
            r@ == (Window {
                state: ConnectionState::Disconnected,
                capturing: false,
                fullscreen: false,
                host_name: Seq::empty(),
                screen_w: config.width,
                screen_h: config.height,
                clipboard_text: Seq::empty(),
                status_msg: "ready"@,
                serial_port: config.port@,
                mapper: InputMapper {
                    host_screen_w: config.width,
                    host_screen_h: config.height,
                    seq: 0,
                    last_mouse_x: 0,
                    last_mouse_y: 0,
                },
                seq: 0,
                permission_granted,
                last_perm_check_ms: now_ms,
                shell: Pane {
                    open: false,
                    output: Seq::empty(),
                    input: Seq::empty(),
                    kind: Seq::empty(),
                    just_opened: false,
                },
                settings: r.settings,
                fallback: None,
                original_position: None,
                pending_position_restore: None,
                last_dock_icon_apply: None,
                dock_icon_apply_count: 0,
                preferred_monitor: preference(config.preferred_monitor),
                toast: None,
            }),
            r.settings.pending_config == config,
            !r.settings.dirty,
            r.settings.toggles.send_images == config.send_images,
            r.settings.toggles.receive_images == config.receive_images,
            r.settings.toggles.send_text == config.send_text,
            r.settings.toggles.receive_text == config.receive_text,
            r.settings.toggles.swap_option_command == config.swap_option_command,
            r.settings.save_toast is None,
            r.settings.available_ports@.len() == 0,
            r.settings.cached_monitors@.len() == 0,
            r.settings.cached_monitors_at is None,
    {
        let runtime_serial_port = config.port.clone();
        let runtime_preferred_monitor = match &config.preferred_monitor {
            Some(identity) => Some(identity.clone()),
            None => None,
        };
        let w: u16 = config.width;
        let h: u16 = config.height;
        WireDeskApp {
            state: ConnectionState::Disconnected,
            capturing: false,
            fullscreen: false,
            host_name: String::new(),
            screen_w: w,
            screen_h: h,
            clipboard_text: String::new(),
            status_msg: "ready".to_owned(),
            runtime_serial_port,
            mapper: InputMapper::new(w, h),
            seq: 0,
            permission_granted,
            last_perm_check_ms: now_ms,
            shell: ShellPane::new(),
            settings: Settings::new(config),
            monitor_fallback_msg: None,
            original_position: None,
            pending_position_restore: None,
            last_dock_icon_apply: None,
            dock_icon_apply_count: 0,
            runtime_preferred_monitor,
            transient_toast: None,
        }
    }

    /// The next message number. After the largest comes zero.
    pub fn next_seq(&mut self) -> (r: u16)
        ensures
            r == old(self).seq,
            final(self)@ == (Window { seq: old(self).seq.wrapping_add(1), ..old(self)@ }),
    {
        let s: u16 = self.seq;
        self.seq = self.seq.wrapping_add(1);
        s
    }

    /// Queues key events for the host.
    pub fn send_key_sequence(&mut self, out: &mut Vec<Packet>, keys: &[(u16, u8, bool)])
        ensures
            final(self)@ == (Window {
                seq: seq_after(old(self).seq, keys@.len()),
                ..old(self)@
            }),
            packet_views(final(out)@) == packet_views(old(out)@) + numbered_keys(
                old(self).seq,
                keys@,
            ),
    {
        let n: usize = keys.len();
        let mut i: usize = 0;
        let ghost first = self.seq;
        let ghost before = packet_views(out@);
        let ghost all = numbered_keys(first, keys@);
        assert(before + all.take(0) =~= before);
        while i < n
            invariant
                n == keys@.len(),
                i <= n,
                first == old(self).seq,
                all == numbered_keys(first, keys@),
                before == packet_views(old(out)@),
                self@ == (Window { seq: seq_after(first, i as nat), ..old(self)@ }),
                packet_views(out@) == before + all.take(i as int),
            decreases n - i,
        {
            let seq: u16 = self.next_seq();
            let (scancode, modifiers, pressed) = keys[i];
            let message = if pressed {
                Message::KeyDown { scancode, modifiers }
            } else {
                Message::KeyUp { scancode, modifiers }
            };
            let ghost queued = packet_views(out@);
            out.push(Packet::new(message, seq));
            proof {
                assert(packet_views(out@) =~= queued.push(all[i as int]));
                assert(before + all.take(i + 1) =~= (before + all.take(i as int)).push(
                    all[i as int],
                ));
                assert(seq_after(first, i as nat).wrapping_add(1) == seq_after(
                    first,
                    (i + 1) as nat,
                ));
            }
            i = i + 1;
        }
        assert(all.take(n as int) =~= all);
    }

    /// Queues Ctrl, Alt and Delete for the host.
    pub fn send_ctrl_alt_del(&mut self, out: &mut Vec<Packet>)
        ensures
            final(self)@ == (Window { seq: seq_after(old(self).seq, 6), ..old(self)@ }),
            packet_views(final(out)@) == packet_views(old(out)@) + numbered_keys(
                old(self).seq,
                ctrl_alt_del(),
            ),
    {
        let keys: [(u16, u8, bool); 6] = [
            (0x1D, 0x01, true),
            (0x38, 0x05, true),
            (0xE053, 0x05, true),
            (0xE053, 0x00, false),
            (0x38, 0x00, false),
            (0x1D, 0x00, false),
        ];
        assert(keys@ =~= ctrl_alt_del());
        self.send_key_sequence(out, keys.as_slice());
    }

    /// Queues the Windows key for the host.
    pub fn send_win_key(&mut self, out: &mut Vec<Packet>)
        ensures
            final(self)@ == (Window { seq: seq_after(old(self).seq, 2), ..old(self)@ }),
            packet_views(final(out)@) == packet_views(old(out)@) + numbered_keys(
                old(self).seq,
                win_key(),
            ),
    {
        let keys: [(u16, u8, bool); 2] = [(0xE05B, 0x00, true), (0xE05B, 0x00, false)];
        assert(keys@ =~= win_key());
        self.send_key_sequence(out, keys.as_slice());
    }

    /// Queues the keys that change the language of the host's keyboard.
    pub fn send_language_key(&mut self, out: &mut Vec<Packet>)
        ensures
            final(self)@ == (Window { seq: seq_after(old(self).seq, 4), ..old(self)@ }),
            packet_views(final(out)@) == packet_views(old(out)@) + numbered_keys(
                old(self).seq,
                language_key(),
            ),
    {
        let keys: [(u16, u8, bool); 4] = [
            (0xE05B, 0x08, true),
            (0x39, 0x08, true),
            (0x39, 0x00, false),
            (0xE05B, 0x00, false),
        ];
        assert(keys@ =~= language_key());
        self.send_key_sequence(out, keys.as_slice());
    }

    /// Queues a message of the shell inside the window.
    pub fn shell_send(&mut self, out: &mut Vec<Packet>, message: Message)
        ensures
            final(self)@ == (Window { seq: old(self).seq.wrapping_add(1), ..old(self)@ }),
            packet_views(final(out)@) == packet_views(old(out)@).push(
                PacketView { message: message@, seq: old(self).seq },
            ),
    {
        let seq: u16 = self.next_seq();
        out.push(Packet::new(message, seq));
        assert(packet_views(out@) =~= packet_views(old(out)@).push(
            PacketView { message: message@, seq: old(self).seq },
        ));
    }

    /// The user opens the shell. Where it is open already nothing happens.
    pub fn shell_open_request(&mut self, out: &mut Vec<Packet>)
        ensures
            old(self).shell.open ==> {
                &&& final(self)@ == old(self)@
                &&& packet_views(final(out)@) == packet_views(old(out)@)
            },
            !old(self).shell.open ==> {
                &&& final(self)@ == (Window {
                    seq: old(self).seq.wrapping_add(1),
                    shell: Pane {
                        open: true,
                        output: Seq::empty(),
                        just_opened: true,
                        ..old(self).shell@
                    },
                    ..old(self)@
                })
                &&& packet_views(final(out)@) == packet_views(old(out)@).push(
                    PacketView {
                        message: MessageView::ShellOpen { shell: old(self).shell.kind@ },
                        seq: old(self).seq,
                    },
                )
            },
    {
        match self.shell.open_request() {
            Some(message) => self.shell_send(out, message),
            None => {},
        }
    }

    /// The user closes the shell.
    pub fn shell_close_request(&mut self, out: &mut Vec<Packet>)
        ensures
            !old(self).shell.open ==> {
                &&& final(self)@ == old(self)@
                &&& packet_views(final(out)@) == packet_views(old(out)@)
            },
            old(self).shell.open ==> {
                &&& final(self)@ == (Window { seq: old(self).seq.wrapping_add(1), ..old(self)@ })
                &&& packet_views(final(out)@) == packet_views(old(out)@).push(
                    PacketView { message: MessageView::ShellClose, seq: old(self).seq },
                )
            },
    {
        match self.shell.close_request() {
            Some(message) => self.shell_send(out, message),
            None => {},
        }
    }

    /// Queues a line for the shell, with the newline that has it executed.
    pub fn shell_send_input(&mut self, out: &mut Vec<Packet>, text: &str)
        ensures
            final(self)@ == (Window { seq: old(self).seq.wrapping_add(1), ..old(self)@ }),
            packet_views(final(out)@) == packet_views(old(out)@).push(
                PacketView {
                    message: MessageView::ShellInput { data: text.spec_bytes().push(10) },
                    seq: old(self).seq,
                },
            ),
    {
        let message = ShellPane::input_message(text);
        self.shell_send(out, message);
    }

    /// The user turns capture on or off.
    pub fn toggle_capture(&mut self)
        ensures
            final(self)@ == old(self)@.capture_toggled(),
    {
        self.capturing = !self.capturing;
        if self.capturing {
            self.status_msg = "input captured (Cmd+Esc to release)".to_owned();
        } else {
            self.status_msg = "input released".to_owned();
        }
    }

    /// The tap follows the window: with the keyboard here it takes the keys
    /// while input is captured and watches for hotkeys otherwise; without it, it
    /// leaves the keyboard alone. Where the focus is not known, it counts as
    /// here.
    pub fn sync_tap_to_focus(&self, focused: Option<bool>, tap: &mut TapHandle, out: &mut Vec<Packet>)
        ensures
            focused == Some(false) ==> final(tap).disabled_from(
                *old(tap),
                packet_views(old(out)@),
                packet_views(final(out)@),
            ),
            focused != Some(false) ==> {
                &&& final(tap).enabled == self.capturing
                &&& final(tap).passive == !self.capturing
                &&& final(tap).same_but_mode(*old(tap))
                &&& packet_views(final(out)@) == packet_views(old(out)@)
            },
    {
        let here = match focused {
            Some(f) => f,
            None => true,
        };
        if !here {
            tap.disable(out);
        } else if self.capturing {
            tap.enable();
        } else {
            tap.enable_passive();
        }
    }

    /// The user enters or leaves fullscreen, and with it capture. `place` is
    /// where the window is.
    pub fn toggle_fullscreen(
        &mut self,
        monitors: &Vec<MonitorInfo>,
        place: Option<Place>,
        now_ms: u64,
    ) -> (r: FullscreenCommand)
        ensures
            exists|target: Option<usize>| #[trigger]
                is_target(target, old(self)@.preferred_monitor, monitors@) && final(self)@ == old(
                    self,
                )@.fullscreen_toggled(target, place, now_ms) && r == old(
                    self,
                )@.fullscreen_command(target),
    {
        let target = resolve_target_monitor(&self.runtime_preferred_monitor, monitors);
        assert(is_target(target, old(self)@.preferred_monitor, monitors@));
        if !self.fullscreen {
            self.fullscreen = true;
            if target.is_some() {
                self.original_position = place;
            } else if self.runtime_preferred_monitor.is_some() {
                self.monitor_fallback_msg = Some(
                    (
                        "Selected monitor unavailable; fullscreen on current display".to_owned(),
                        now_ms,
                    ),
                );
            }
            if !self.capturing {
                self.toggle_capture();
            }
            FullscreenCommand::Enter { move_to: target }
        } else {
            self.fullscreen = false;
            if self.capturing {
                self.toggle_capture();
            }
            let saved = self.original_position;
            self.original_position = None;
            match saved {
                Some(p) => {
                    self.pending_position_restore = Some((p, now_ms));
                    FullscreenCommand::Leave { look_again_ms: Some(RESTORE_REPAINT_MS) }
                },
                None => FullscreenCommand::Leave { look_again_ms: None },
            }
        }
    }

    /// A hotkey was pressed. Returns what is to be done about fullscreen.
    pub fn on_tap_event(
        &mut self,
        event: TapEvent,
        monitors: &Vec<MonitorInfo>,
        place: Option<Place>,
        now_ms: u64,
    ) -> (r: Option<FullscreenCommand>)
        ensures
            match event {
                TapEvent::ReleaseCapture => r is None && final(self)@ == (if old(self).capturing {
                    old(self)@.capture_toggled()
                } else {
                    old(self)@
                }),
                TapEvent::EngageCapture => r is None && final(self)@ == (if old(self).capturing {
                    old(self)@
                } else {
                    old(self)@.capture_toggled()
                }),
                TapEvent::ToggleFullscreen => exists|target: Option<usize>| #[trigger]
                    is_target(target, old(self)@.preferred_monitor, monitors@) && final(self)@
                        == old(self)@.fullscreen_toggled(target, place, now_ms) && r == Some(
                        old(self)@.fullscreen_command(target),
                    ),
            },
    {
        match event {
            TapEvent::ReleaseCapture => {
                if self.capturing {
                    self.toggle_capture();
                }
                None
            },
            TapEvent::EngageCapture => {
                if !self.capturing {
                    self.toggle_capture();
                }
                None
            },
            TapEvent::ToggleFullscreen => Some(self.toggle_fullscreen(monitors, place, now_ms)),
        }
    }

    /// What the window is to do about its place.
    pub fn drain_pending_position_restore(&mut self, now_ms: u64) -> (r: PositionRestore)
        ensures
            match old(self).pending_position_restore {
                None => r == PositionRestore::Nothing && final(self)@ == old(self)@,
                Some((place, since)) => {
                    let waited = now_ms.saturating_sub(since);
                    if waited >= RESTORE_DELAY_MS {
                        &&& r == PositionRestore::MoveTo(place)
                        &&& final(self)@ == (Window {
                            pending_position_restore: None,
                            ..old(self)@
                        })
                    } else {
                        &&& r == PositionRestore::Wait((RESTORE_DELAY_MS - waited) as u64)
                        &&& final(self)@ == old(self)@
                    }
                },
            },
    {
        match self.pending_position_restore {
            None => PositionRestore::Nothing,
            Some((place, since)) => {
                let waited: u64 = now_ms.saturating_sub(since);
                if waited >= RESTORE_DELAY_MS {
                    self.pending_position_restore = None;
                    PositionRestore::MoveTo(place)
                } else {
                    PositionRestore::Wait(RESTORE_DELAY_MS - waited)
                }
            },
        }
    }

    /// Whether the icon in the Dock is to be set now; it then counts as set.
    pub fn reapply_dock_icon_if_needed(&mut self, now_ms: u64) -> (r: bool)
        ensures
            r == old(self)@.dock_icon_due(now_ms),
            final(self)@ == (if r {
                Window {
                    last_dock_icon_apply: Some(now_ms),
                    dock_icon_apply_count: (old(self).dock_icon_apply_count + 1) as u8,
                    ..old(self)@
                }
            } else {
                old(self)@
            }),
    {
        if self.dock_icon_apply_count >= DOCK_ICON_MAX {
            return false;
        }
        let due = match self.last_dock_icon_apply {
            None => true,
            Some(at) => {
                let delay: u64 = if self.dock_icon_apply_count == 1 {
                    1500
                } else if self.dock_icon_apply_count == 2 {
                    3000
                } else {
                    5000
                };
                now_ms.saturating_sub(at) >= delay
            },
        };
        if due {
            self.last_dock_icon_apply = Some(now_ms);
            self.dock_icon_apply_count = self.dock_icon_apply_count + 1;
        }
        due
    }

    /// Whether everything is shown. While input goes to the host a stray click
    /// here would only disturb.
    pub fn should_show_chrome(&self) -> (r: bool)
        ensures
            r == (!self.capturing && !self.fullscreen),
    {
        !self.capturing && !self.fullscreen
    }

    /// What the window shows.
    pub fn screen(&self) -> (r: Screen)
        ensures
            r == (if self.capturing || self.fullscreen {
                Screen::Captured
            } else if !self.permission_granted {
                Screen::Permission
            } else {
                Screen::Chrome
            }),
    {
        if !self.should_show_chrome() {
            Screen::Captured
        } else if !self.permission_granted {
            Screen::Permission
        } else {
            Screen::Chrome
        }
    }

    /// Whether the permission is to be looked at again.
    pub fn permission_check_due(&self, now_ms: u64) -> (r: bool)
        ensures
            r == (now_ms.saturating_sub(self.last_perm_check_ms) >= PERMISSION_CHECK_MS),
    {
        now_ms.saturating_sub(self.last_perm_check_ms) >= PERMISSION_CHECK_MS
    }

    /// The permission was looked at.
    pub fn set_permission(&mut self, granted: bool, now_ms: u64)
        ensures
            final(self)@ == (Window {
                permission_granted: granted,
                last_perm_check_ms: now_ms,
                ..old(self)@
            }),
    {
        self.permission_granted = granted;
        self.last_perm_check_ms = now_ms;
    }

    /// The status in words.
    pub fn status_text(&self) -> (r: String)
        ensures
            r@ == self@.status_words(),
    {
        match self.state {
            ConnectionState::Connected => {
                let mut out = join("Connected to ", self.host_name.as_str());
                out.append(" (");
                push_decimal(&mut out, self.screen_w as u64);
                out.append("×");
                push_decimal(&mut out, self.screen_h as u64);
                out.append(")");
                out
            },
            ConnectionState::Connecting => "Connecting…".to_owned(),
            ConnectionState::Disconnected => {
                match strip_prefix(self.status_msg.as_str(), "disconnected: ") {
                    Some(reason) => join("Disconnected: ", reason),
                    None => "Not connected".to_owned(),
                }
            },
        }
    }

    /// An event of the link. Where the link is lost, no transfer is shown any
    /// more.
    pub fn on_transport_event(&mut self, link: &mut LinkContext, event: TransportEvent, now_ms: u64)
        requires
            shell_text(event@) matches Some(text) ==> can_be_cut(old(self).shell.output@ + text),
        ensures
            final(self)@ == old(self)@.after_event(event@, now_ms),
            final(link)@ == (if event@ is Disconnected {
                old(link)@.counters_zeroed()
            } else {
                old(link)@
            }),
    {
        match event {
            TransportEvent::Connected { host_name, screen_w, screen_h } => {
                self.state = ConnectionState::Connected;
                self.status_msg = join("connected to ", host_name.as_str());
                self.host_name = host_name;
                self.screen_w = screen_w;
                self.screen_h = screen_h;
                self.mapper.set_screen_size(screen_w, screen_h);
            },
            TransportEvent::Disconnected(reason) => {
                self.state = ConnectionState::Disconnected;
                self.capturing = false;
                self.status_msg = join("disconnected: ", reason.as_str());
                link.zero_counters();
            },
            TransportEvent::Reconnecting { attempt: _ } => {
                self.state = ConnectionState::Connecting;
            },
            TransportEvent::ClipboardFromHost(text) => {
                self.clipboard_text = text;
            },
            TransportEvent::Heartbeat => {},
            TransportEvent::ShellOutput(data) => {
                self.shell.shell_append_output(data.as_slice());
            },
            TransportEvent::ShellExit(code) => {
                let text = exit_text(code);
                self.shell.show(text.as_str());
                self.shell.open = false;
            },
            TransportEvent::ShellError(msg) => {
                let text = error_text(msg.as_str());
                self.shell.show(text.as_str());
                self.shell.open = false;
            },
            TransportEvent::Toast(msg) => {
                self.transient_toast = Some((msg, now_ms));
            },
        }
    }

    /// An event of the link, where what it shows in the shell can be shown.
    /// Returns whether it was taken; else nothing is changed.
    pub fn try_on_transport_event(
        &mut self,
        link: &mut LinkContext,
        event: TransportEvent,
        now_ms: u64,
    ) -> (r: bool)
        ensures
            r == match shell_text(event@) {
                Some(text) => can_be_cut(old(self).shell.output@ + text),
                None => true,
            },
            r ==> {
                &&& final(self)@ == old(self)@.after_event(event@, now_ms)
                &&& final(link)@ == (if event@ is Disconnected {
                    old(link)@.counters_zeroed()
                } else {
                    old(link)@
                })
            },
            !r ==> final(self)@ == old(self)@ && final(link)@ == old(link)@,
    {
        let shown = match &event {
            TransportEvent::ShellOutput(data) => {
                let text = string_from_utf8_lossy(data.as_slice());
                self.shell.can_show(text.as_str())
            },
            TransportEvent::ShellExit(code) => {
                let text = exit_text(*code);
                self.shell.can_show(text.as_str())
            },
            TransportEvent::ShellError(msg) => {
                let text = error_text(msg.as_str());
                self.shell.can_show(text.as_str())
            },
            _ => true,
        };
        if shown {
            self.on_transport_event(link, event, now_ms);
        }
        shown
    }

    /// A notice that was shown long enough is dropped.
    pub fn expire_toast(&mut self, now_ms: u64)
        ensures
            final(self)@ == (match old(self)@.toast {
                Some((_, at)) if now_ms.saturating_sub(at) >= TOAST_MS => Window {
                    toast: None,
                    ..old(self)@
                },
                _ => old(self)@,
            }),
    {
        let over = match &self.transient_toast {
            Some((_, at)) => now_ms.saturating_sub(*at) >= TOAST_MS,
            None => false,
        };
        if over {
            self.transient_toast = None;
        }
    }

    /// The notice of an unavailable display, while it is shown.
    pub fn visible_fallback(&self, now_ms: u64) -> (r: Option<&str>)
        ensures
            match self@.fallback {
                Some((text, at)) if now_ms.saturating_sub(at) < FALLBACK_MS => r matches Some(t)
                    && t@ == text,
                _ => r is None,
            },
    {
        match &self.monitor_fallback_msg {
            Some((text, at)) => {
                if now_ms.saturating_sub(*at) < FALLBACK_MS {
                    Some(text.as_str())
                } else {
                    None
                }
            },
            None => None,
        }
    }

    /// What is shown of the host's clipboard; nothing where it is empty.
    pub fn clipboard_preview(&self) -> (r: Option<String>)
        ensures
            self.clipboard_text@.len() == 0 ==> r is None,
            self.clipboard_text@.len() > 0 ==> (r matches Some(s) && s@ == preview(
                self.clipboard_text@,
            )),
    {
        let text = self.clipboard_text.as_str();
        if text.is_empty() {
            return None;
        }
        if text.unicode_len() > PREVIEW_CHARS {
            let head = text.substring_char(0, PREVIEW_CHARS);
            assert(head@ =~= text@.take(PREVIEW_CHARS as int));
            Some(join(head, "..."))
        } else {
            Some(text.to_owned())
        }
    }

    /// Whether input goes to the host.
    pub fn captures_input(&self) -> (r: bool)
        ensures
            r == self@.captures_input(),
    {
        if self.capturing {
            match self.state {
                ConnectionState::Connected => true,
                _ => false,
            }
        } else {
            false
        }
    }

    /// A key went down or up in the window.
    pub fn forward_key(
        &mut self,
        out: &mut Vec<Packet>,
        key: &Key,
        modifiers: &Modifiers,
        pressed: bool,
        tap_owns_keys: bool,
    )
        ensures
            match (
                scancode_of(*key),
                old(self)@.forwards_key(*key, *modifiers, tap_owns_keys),
            ) {
                (Some(scancode), true) => {
                    let bits = modifier_bits(*modifiers) as u8;
                    &&& final(self)@ == (Window {
                        mapper: old(self).mapper.numbered(),
                        ..old(self)@
                    })
                    &&& packet_views(final(out)@) == packet_views(old(out)@).push(
                        PacketView {
                            message: if pressed {
                                MessageView::KeyDown { scancode, modifiers: bits }
                            } else {
                                MessageView::KeyUp { scancode, modifiers: bits }
                            },
                            seq: old(self).mapper.seq,
                        },
                    )
                },
                _ => final(self)@ == old(self)@ && packet_views(final(out)@) == packet_views(
                    old(out)@,
                ),
            },
    {
        let hotkey = modifiers.command && match key {
            Key::Escape => true,
            Key::Enter => true,
            _ => false,
        };
        if self.captures_input() && !tap_owns_keys && !hotkey {
            self.mapper.send_key(out, key, modifiers, pressed);
        }
    }

    /// A mouse button went down or up in the window.
    pub fn forward_button(&mut self, out: &mut Vec<Packet>, button: u8, pressed: bool)
        ensures
            old(self)@.captures_input() ==> {
                &&& final(self)@ == (Window { mapper: old(self).mapper.numbered(), ..old(self)@ })
                &&& packet_views(final(out)@) == packet_views(old(out)@).push(
                    PacketView {
                        message: MessageView::MouseButton { button, pressed },
                        seq: old(self).mapper.seq,
                    },
                )
            },
            !old(self)@.captures_input() ==> final(self)@ == old(self)@ && packet_views(final(out)@)
                == packet_views(old(out)@),
    {
        if self.captures_input() {
            self.mapper.send_mouse_button(out, button, pressed);
        }
    }

    /// The mouse wheel was turned in the window.
    pub fn forward_scroll(&mut self, out: &mut Vec<Packet>, delta_x: i16, delta_y: i16)
        ensures
            old(self)@.captures_input() ==> {
                &&& final(self)@ == (Window { mapper: old(self).mapper.numbered(), ..old(self)@ })
                &&& packet_views(final(out)@) == packet_views(old(out)@).push(
                    PacketView {
                        message: MessageView::MouseScroll { delta_x, delta_y },
                        seq: old(self).mapper.seq,
                    },
                )
            },
            !old(self)@.captures_input() ==> final(self)@ == old(self)@ && packet_views(final(out)@)
                == packet_views(old(out)@),
    {
        if self.captures_input() {
            self.mapper.send_mouse_scroll(out, delta_x, delta_y);
        }
    }

    /// The mouse is at `(x, y)`, in parts of 65535 of the host's screen.
    pub fn forward_move(&mut self, out: &mut Vec<Packet>, x: u16, y: u16)
        ensures
            ({
                let moved = old(self)@.captures_input() && !(x == old(self).mapper.last_mouse_x && y
                    == old(self).mapper.last_mouse_y);
                &&& moved ==> {
                    &&& final(self)@ == (Window {
                        mapper: InputMapper {
                            last_mouse_x: x,
                            last_mouse_y: y,
                            ..old(self).mapper.numbered()
                        },
                        ..old(self)@
                    })
                    &&& packet_views(final(out)@) == packet_views(old(out)@).push(
                        PacketView {
                            message: MessageView::MouseMove { x, y },
                            seq: old(self).mapper.seq,
                        },
                    )
                }
                &&& !moved ==> final(self)@ == old(self)@ && packet_views(final(out)@)
                    == packet_views(old(out)@)
            }),
    {
        if self.captures_input() {
            self.mapper.send_mouse_move(out, x, y);
        }
    }
}

/// Fullscreen and capture go together: entering the one turns the other on,
/// leaving it turns it off.
pub proof fn law_fullscreen_brings_capture(
    window: Window,
    target: Option<usize>,
    place: Option<Place>,
    now_ms: u64,
)
    ensures
        ({
            let after = window.fullscreen_toggled(target, place, now_ms);
            after.fullscreen == !window.fullscreen && after.capturing == after.fullscreen
        }),
{
}

/// A window that went fullscreen on another display goes back to where it was.
pub proof fn law_window_returns_to_its_place(
    window: Window,
    target: usize,
    place: Place,
    entered_ms: u64,
    later: Option<usize>,
    elsewhere: Option<Place>,
    left_ms: u64,
)
    requires
        !window.fullscreen,
    ensures
        window.fullscreen_toggled(Some(target), Some(place), entered_ms).fullscreen_toggled(
            later,
            elsewhere,
            left_ms,
        ).pending_position_restore == Some((place, left_ms)),
{
}

/// A lost link ends capture, and the user is told why it was lost, whatever was
/// shown before.
pub proof fn law_lost_link_is_explained(window: Window, reason: Seq<char>, now_ms: u64)
    ensures
        ({
            let after = window.after_event(LinkEvent::Disconnected(reason), now_ms);
            &&& !after.capturing
            &&& !after.captures_input()
            &&& after.status_words() == "Disconnected: "@ + reason
        }),
{
    let prefix = "disconnected: "@;
    let msg = prefix + reason;
    assert(msg.subrange(0, prefix.len() as int) =~= prefix);
    assert(msg.subrange(prefix.len() as int, msg.len() as int) =~= reason);
}

/// The hotkeys never reach the host, and nothing does while input is not
/// captured or there is no host.
pub proof fn law_hotkeys_stay_here(window: Window, key: Key, modifiers: Modifiers, tap_owns_keys: bool)
    ensures
        modifiers.command && (key == Key::Escape || key == Key::Enter) ==> !window.forwards_key(
            key,
            modifiers,
            tap_owns_keys,
        ),
        !window.capturing || window.state != ConnectionState::Connected ==> !window.forwards_key(
            key,
            modifiers,
            tap_owns_keys,
        ),
        tap_owns_keys ==> !window.forwards_key(key, modifiers, tap_owns_keys),
{
}

/// The scancodes of key events, and whether each goes down.
pub open spec fn ups_and_downs(keys: Seq<(u16, u8, bool)>) -> Seq<(u16, bool)> {
    Seq::new(keys.len(), |i: int| (keys[i].0, keys[i].2))
}

/// The special keys leave nothing of their own down on the host, and nothing
/// else changes there.
pub proof fn law_special_keys_are_released(held: Set<u16>)
    ensures
        !held.contains(0x1D) && !held.contains(0x38) && !held.contains(0xE053) ==> key_events(
            held,
            ups_and_downs(ctrl_alt_del()),
        ) == held,
        !held.contains(0xE05B) ==> key_events(held, ups_and_downs(win_key())) == held,
        !held.contains(0xE05B) && !held.contains(0x39) ==> key_events(
            held,
            ups_and_downs(language_key()),
        ) == held,
{
    reveal_with_fuel(key_events, 7);
    let a = ups_and_downs(ctrl_alt_del());
    let a3 = a.drop_last().drop_last().drop_last();
    assert(key_events(held, a3) =~= held.insert(0x1D).insert(0x38).insert(0xE053)) by {
        let a2 = a3.drop_last();
        let a1 = a2.drop_last();
        assert(a1.drop_last() =~= Seq::empty());
    }
    if !held.contains(0x1D) && !held.contains(0x38) && !held.contains(0xE053) {
        assert(key_events(held, a) =~= held);
    }
    let w = ups_and_downs(win_key());
    assert(w.drop_last().drop_last() =~= Seq::empty());
    if !held.contains(0xE05B) {
        assert(key_events(held, w) =~= held);
    }
    let l = ups_and_downs(language_key());
    assert(l.drop_last().drop_last().drop_last().drop_last() =~= Seq::empty());
    if !held.contains(0xE05B) && !held.contains(0x39) {
        assert(key_events(held, l) =~= held);
    }
}

/// The icon in the Dock is set a limited number of times.
pub proof fn law_dock_icon_settles(window: Window, now_ms: u64)
    ensures
        window.dock_icon_apply_count >= DOCK_ICON_MAX ==> !window.dock_icon_due(now_ms),
        window.dock_icon_due(now_ms) ==> window.dock_icon_apply_count + 1 <= DOCK_ICON_MAX,
{
}

/// A host that answers is shown by its name and its screen, which the mouse is
/// measured by from then on; nothing else of the window changes.
pub proof fn law_connected_host_is_shown(
    app: &mut WireDeskApp,
    link: &mut LinkContext,
    event: TransportEvent,
    now_ms: u64,
)
    requires
        call_ensures(WireDeskApp::on_transport_event, (app, link, event, now_ms), ()),
    ensures
        event@ matches LinkEvent::Connected { host_name, screen_w, screen_h } ==> {
            let after = final(app)@;
            &&& after.state == ConnectionState::Connected
            &&& after.host_name == host_name
            &&& after.screen_w == screen_w && after.screen_h == screen_h
            &&& after.mapper.host_screen_w == screen_w && after.mapper.host_screen_h == screen_h
            &&& after.mapper.seq == old(app)@.mapper.seq
            &&& text_contains(after.status_msg, host_name)
            &&& after == (Window {
                state: after.state,
                host_name: after.host_name,
                screen_w: after.screen_w,
                screen_h: after.screen_h,
                mapper: after.mapper,
                status_msg: after.status_msg,
                ..old(app)@
            })
            &&& final(link)@ == old(link)@
        },
{
    if let LinkEvent::Connected { host_name, screen_w, screen_h } = event@ {
        let a = "connected to "@;
        let s = a + host_name;
        assert(s.subrange(a.len() as int, s.len() as int) =~= host_name);
        assert(stands_at(s, host_name, a.len() as int));
    }
}

/// A lost link ends capture and says why; no transfer is shown any more. The
/// shell, the clipboard and the rest stay as they are.
pub proof fn law_lost_link_ends_capture(
    app: &mut WireDeskApp,
    link: &mut LinkContext,
    event: TransportEvent,
    now_ms: u64,
)
    requires
        call_ensures(WireDeskApp::on_transport_event, (app, link, event, now_ms), ()),
    ensures
        event@ matches LinkEvent::Disconnected(reason) ==> {
            let after = final(app)@;
            &&& after.state == ConnectionState::Disconnected && !after.capturing
            &&& text_contains(after.status_msg, reason)
            &&& after == (Window {
                state: after.state,
                capturing: after.capturing,
                status_msg: after.status_msg,
                ..old(app)@
            })
            &&& final(link)@.outgoing.total == 0 && final(link)@.outgoing.progress == 0
            &&& final(link)@.incoming.reassembly.total == 0
            &&& final(link)@.incoming.reassembly.progress == 0
        },
        event@ is Reconnecting ==> final(app)@ == (Window {
            state: ConnectionState::Connecting,
            ..old(app)@
        }),
        !(event@ is Disconnected) ==> final(link)@ == old(link)@,
{
    if let LinkEvent::Disconnected(reason) = event@ {
        let a = "disconnected: "@;
        let s = a + reason;
        assert(s.subrange(a.len() as int, s.len() as int) =~= reason);
        assert(stands_at(s, reason, a.len() as int));
    }
}

/// What the host's clipboard holds and what the user is to be told is shown as
/// it came; a heartbeat changes nothing.
pub proof fn law_words_of_the_host_are_shown(
    app: &mut WireDeskApp,
    link: &mut LinkContext,
    event: TransportEvent,
    now_ms: u64,
)
    requires
        call_ensures(WireDeskApp::on_transport_event, (app, link, event, now_ms), ()),
    ensures
        event@ matches LinkEvent::ClipboardFromHost(text) ==> final(app)@ == (Window {
            clipboard_text: text,
            ..old(app)@
        }),
        event@ matches LinkEvent::Toast(text) ==> final(app)@ == (Window {
            toast: Some((text, now_ms)),
            ..old(app)@
        }),
        event@ is Heartbeat ==> final(app)@ == old(app)@,
{
}

/// What the shell puts out is shown in its pane; its end and an error close the
/// pane, each with its cause shown. Nothing else of the window changes.
pub proof fn law_shell_is_shown_in_its_pane(
    app: &mut WireDeskApp,
    link: &mut LinkContext,
    event: TransportEvent,
    now_ms: u64,
    taken: bool,
)
    requires
        call_ensures(WireDeskApp::try_on_transport_event, (app, link, event, now_ms), taken),
    ensures
        event@ matches LinkEvent::ShellOutput(data) ==> valid_utf8(data) && encode_utf8(
            old(app).shell.output@ + decode_utf8(data),
        ).len() <= 65536 ==> {
            &&& taken
            &&& final(app)@ == (Window {
                shell: Pane {
                    output: old(app)@.shell.output + decode_utf8(data),
                    ..old(app)@.shell
                },
                ..old(app)@
            })
        },
        event@ matches LinkEvent::ShellExit(code) ==> encode_utf8(
            old(app).shell.output@ + exit_line(code),
        ).len() <= 65536 ==> {
            &&& taken
            &&& !final(app).shell.open
            &&& final(app)@.shell.output == old(app)@.shell.output + exit_line(code)
            &&& final(app)@ == (Window { shell: final(app)@.shell, ..old(app)@ })
        },
        event@ matches LinkEvent::ShellError(msg) ==> encode_utf8(
            old(app).shell.output@ + error_line(msg),
        ).len() <= 65536 ==> {
            &&& taken
            &&& !final(app).shell.open
            &&& final(app)@.shell.output == old(app)@.shell.output + error_line(msg)
            &&& final(app)@ == (Window { shell: final(app)@.shell, ..old(app)@ })
        },
        !taken ==> final(app)@ == old(app)@ && final(link)@ == old(link)@,
        !(event@ is ShellOutput || event@ is ShellExit || event@ is ShellError) ==> taken
            && final(app)@.shell == old(app)@.shell,
{
}

/// Turning capture on or off does just that, and says so.
pub proof fn law_capture_is_toggled(app: &mut WireDeskApp)
    requires
        call_ensures(WireDeskApp::toggle_capture, (app,), ()),
    ensures
        final(app).capturing == !old(app).capturing,
        final(app)@ == (Window {
            capturing: final(app).capturing,
            status_msg: final(app)@.status_msg,
            ..old(app)@
        }),
        final(app).capturing ==> final(app)@.status_msg == "input captured (Cmd+Esc to release)"@,
        !final(app).capturing ==> final(app)@.status_msg == "input released"@,
{
}

/// The hotkeys do what they ask for: capture ends, begins, or fullscreen and
/// capture change together. What is already so stays so.
pub proof fn law_hotkeys_do_what_they_ask_for(
    app: &mut WireDeskApp,
    event: TapEvent,
    monitors: Vec<MonitorInfo>,
    place: Option<Place>,
    now_ms: u64,
    r: Option<FullscreenCommand>,
)
    requires
        call_ensures(WireDeskApp::on_tap_event, (app, event, &monitors, place, now_ms), r),
    ensures
        event == TapEvent::ReleaseCapture ==> !final(app).capturing && r is None
            && final(app).fullscreen == old(app).fullscreen,
        event == TapEvent::EngageCapture ==> final(app).capturing && r is None
            && final(app).fullscreen == old(app).fullscreen,
        event == TapEvent::ReleaseCapture && !old(app).capturing ==> final(app)@ == old(app)@,
        event == TapEvent::EngageCapture && old(app).capturing ==> final(app)@ == old(app)@,
        event == TapEvent::ToggleFullscreen ==> {
            &&& final(app).fullscreen == !old(app).fullscreen
            &&& final(app).capturing == final(app).fullscreen
            &&& r is Some
        },
        final(app)@.state == old(app)@.state && final(app)@.shell == old(app)@.shell
            && final(app)@.mapper == old(app)@.mapper && final(app)@.seq == old(app)@.seq,
{
}

/// Fullscreen is entered on the display that the user chose, where it is there,
/// and the place of the window is kept; where it is not there, the user is told.
pub proof fn law_fullscreen_goes_to_the_chosen_display(
    app: &mut WireDeskApp,
    monitors: Vec<MonitorInfo>,
    place: Option<Place>,
    now_ms: u64,
    r: FullscreenCommand,
    found: Option<usize>,
)
    requires
        call_ensures(WireDeskApp::toggle_fullscreen, (app, &monitors, place, now_ms), r),
        is_target(found, old(app)@.preferred_monitor, monitors@),
    ensures
        !old(app).fullscreen ==> {
            &&& r == (FullscreenCommand::Enter { move_to: found })
            &&& found is Some ==> final(app).original_position == place && final(app)@.fallback
                == old(app)@.fallback
            &&& found is None ==> final(app).original_position == old(app).original_position
            &&& found is None && old(app)@.preferred_monitor is Some ==> (
            final(app)@.fallback == Some(
                ("Selected monitor unavailable; fullscreen on current display"@, now_ms),
            ))
            &&& found is None && old(app)@.preferred_monitor is None ==> final(app)@.fallback
                == old(app)@.fallback
        },
        old(app).fullscreen ==> {
            &&& r is Leave
            &&& final(app).original_position is None
            &&& old(app).original_position matches Some(p) ==> final(app).pending_position_restore
                == Some((p, now_ms)) && r == (FullscreenCommand::Leave {
                look_again_ms: Some(700),
            })
            &&& old(app).original_position is None ==> final(app).pending_position_restore == old(app).pending_position_restore && r == (FullscreenCommand::Leave { look_again_ms: None })
        },
{
    let before = old(app)@;
    let target = choose|target: Option<usize>| #[trigger]
        is_target(target, before.preferred_monitor, monitors@) && final(app)@
            == before.fullscreen_toggled(target, place, now_ms) && r == before.fullscreen_command(
            target,
        );
    law_target_is_unique(target, found, before.preferred_monitor, monitors@);
}

/// The window goes back to its place once it can be moved, 600 milliseconds
/// after fullscreen was left, and once; until then it waits for just that long.
pub proof fn law_window_is_moved_back_once(app: &mut WireDeskApp, now_ms: u64, r: PositionRestore)
    requires
        call_ensures(WireDeskApp::drain_pending_position_restore, (app, now_ms), r),
    ensures
        old(app).pending_position_restore is None ==> r == PositionRestore::Nothing && final(app)@
            == old(app)@,
        old(app).pending_position_restore matches Some((place, since)) ==> since <= now_ms ==> {
            &&& now_ms >= since + 600 ==> r == PositionRestore::MoveTo(place) && final(app).pending_position_restore is None
            &&& now_ms < since + 600 ==> r == PositionRestore::Wait((since + 600 - now_ms) as u64)
                && final(app)@ == old(app)@
        },
{
}

/// The tap follows the window: it takes the keys while input is captured here,
/// watches for hotkeys while it is not, and lets go of the keyboard, and of what
/// the host has down, while the keyboard is elsewhere.
pub proof fn law_tap_follows_the_window(
    app: WireDeskApp,
    focused: Option<bool>,
    tap: &mut TapHandle,
    out: &mut Vec<Packet>,
)
    requires
        call_ensures(WireDeskApp::sync_tap_to_focus, (&app, focused, tap, out), ()),
    ensures
        focused == Some(false) ==> !final(tap).enabled && !final(tap).passive,
        focused != Some(false) && app.capturing ==> final(tap).enabled && !final(tap).passive,
        focused != Some(false) && !app.capturing ==> !final(tap).enabled && final(tap).passive,
        focused != Some(false) ==> packet_views(final(out)@) == packet_views(old(out)@)
            && final(tap).prev_flags == old(tap).prev_flags,
        focused == Some(false) && old(tap).platform == Platform::MacOs ==> final(tap).prev_flags
            == 0,
        focused == Some(false) && old(tap).platform == Platform::Windows ==> final(tap).hook.held@
            == Set::<u16>::empty(),
        final(tap).running == old(tap).running,
{
}

/// While input is captured and there is a host, a key in the window goes to it
/// with the modifiers that are held, unless the tap takes the keys or it is a
/// hotkey; otherwise no key does.
pub proof fn law_captured_key_goes_to_the_host(
    app: &mut WireDeskApp,
    out: &mut Vec<Packet>,
    key: Key,
    modifiers: Modifiers,
    pressed: bool,
    tap_owns_keys: bool,
)
    requires
        call_ensures(
            WireDeskApp::forward_key,
            (app, out, &key, &modifiers, pressed, tap_owns_keys),
            (),
        ),
    ensures
        ({
            let here = !old(app).capturing || old(app).state != ConnectionState::Connected
                || tap_owns_keys || modifiers.command && (key == Key::Escape || key == Key::Enter);
            let bits = ((if modifiers.ctrl || modifiers.command {
                1int
            } else {
                0
            }) + (if modifiers.shift {
                2int
            } else {
                0
            }) + (if modifiers.alt {
                4int
            } else {
                0
            })) as u8;
            &&& here || key == Key::Other ==> packet_views(final(out)@) == packet_views(old(out)@)
                && final(app)@ == old(app)@
            &&& scancode_of(key) matches Some(scancode) ==> !here ==> {
                &&& packet_views(final(out)@) == packet_views(old(out)@).push(
                    PacketView {
                        message: if pressed {
                            MessageView::KeyDown { scancode, modifiers: bits }
                        } else {
                            MessageView::KeyUp { scancode, modifiers: bits }
                        },
                        seq: old(app).mapper.seq,
                    },
                )
                &&& final(app).mapper.seq == (old(app).mapper.seq + 1) % 65536
            }
        }),
{
}

/// While input is captured and there is a host, the mouse in the window is the
/// host's: its buttons, its wheel, and each move to another place. Otherwise the
/// host hears nothing of it.
pub proof fn law_captured_mouse_goes_to_the_host(
    app: &mut WireDeskApp,
    out: &mut Vec<Packet>,
    button: u8,
    pressed: bool,
    delta_x: i16,
    delta_y: i16,
    x: u16,
    y: u16,
)
    ensures
        ({
            let captured = old(app).capturing && old(app).state == ConnectionState::Connected;
            let seq = old(app).mapper.seq;
            &&& call_ensures(WireDeskApp::forward_button, (app, out, button, pressed), ())
                ==> packet_views(final(out)@) == (if captured {
                packet_views(old(out)@).push(
                    PacketView { message: MessageView::MouseButton { button, pressed }, seq },
                )
            } else {
                packet_views(old(out)@)
            })
            &&& call_ensures(WireDeskApp::forward_scroll, (app, out, delta_x, delta_y), ())
                ==> packet_views(final(out)@) == (if captured {
                packet_views(old(out)@).push(
                    PacketView { message: MessageView::MouseScroll { delta_x, delta_y }, seq },
                )
            } else {
                packet_views(old(out)@)
            })
            &&& call_ensures(WireDeskApp::forward_move, (app, out, x, y), ()) ==> packet_views(
                final(out)@,
            ) == (if captured && (x, y) != (
                old(app).mapper.last_mouse_x,
                old(app).mapper.last_mouse_y,
            ) {
                packet_views(old(out)@).push(
                    PacketView { message: MessageView::MouseMove { x, y }, seq },
                )
            } else {
                packet_views(old(out)@)
            })
        }),
{
}

/// Input is captured exactly where the user turned it on and there is a host.
pub proof fn law_input_is_captured_with_a_host(app: WireDeskApp, r: bool)
    requires
        call_ensures(WireDeskApp::captures_input, (&app,), r),
    ensures
        r <==> app.capturing && app.state == ConnectionState::Connected,
{
}

/// The special keys are pressed together: after the presses all of them are
/// down on the host at once.
pub proof fn law_special_keys_are_pressed_together(held: Set<u16>)
    ensures
        key_events(held, ups_and_downs(ctrl_alt_del()).take(3)) == held.insert(0x1D).insert(
            0x38,
        ).insert(0xE053),
        key_events(held, ups_and_downs(win_key()).take(1)) == held.insert(0xE05B),
        key_events(held, ups_and_downs(language_key()).take(2)) == held.insert(0xE05B).insert(0x39),
        ctrl_alt_del().len() == 6 && win_key().len() == 2 && language_key().len() == 4,
{
    reveal_with_fuel(key_events, 4);
    let a = ups_and_downs(ctrl_alt_del()).take(3);
    assert(a.drop_last().drop_last().drop_last() =~= Seq::empty());
    assert(key_events(held, a) =~= held.insert(0x1D).insert(0x38).insert(0xE053));
    let w = ups_and_downs(win_key()).take(1);
    assert(w.drop_last() =~= Seq::empty());
    assert(key_events(held, w) =~= held.insert(0xE05B));
    let l = ups_and_downs(language_key()).take(2);
    assert(l.drop_last().drop_last() =~= Seq::empty());
    assert(key_events(held, l) =~= held.insert(0xE05B).insert(0x39));
}

/// Key events that are queued come behind what was queued before, in their
/// order, each with its own scancode, modifiers and direction, and numbered on
/// from the window's number.
pub proof fn law_key_sequence_is_queued_as_it_is(
    app: &mut WireDeskApp,
    out: &mut Vec<Packet>,
    keys: &[(u16, u8, bool)],
    i: int,
)
    requires
        call_ensures(WireDeskApp::send_key_sequence, (app, out, keys), ()),
        0 <= i < keys@.len(),
    ensures
        ({
            let before = packet_views(old(out)@);
            let after = packet_views(final(out)@);
            let (scancode, modifiers, down) = keys@[i];
            &&& after.len() == before.len() + keys@.len()
            &&& after.take(before.len() as int) == before
            &&& after[before.len() + i].message == (if down {
                MessageView::KeyDown { scancode, modifiers }
            } else {
                MessageView::KeyUp { scancode, modifiers }
            })
            &&& after[before.len() + i].seq == (old(app).seq + i) % 65536
            &&& final(app).seq == (old(app).seq + keys@.len()) % 65536
        }),
{
    let before = packet_views(old(out)@);
    assert(packet_views(final(out)@).take(before.len() as int) =~= before);
}

/// The buttons for special keys queue those keys.
pub proof fn law_special_buttons_queue_their_keys(app: &mut WireDeskApp, out: &mut Vec<Packet>)
    ensures
        call_ensures(WireDeskApp::send_ctrl_alt_del, (app, out), ()) ==> packet_views(final(out)@)
            == packet_views(old(out)@) + numbered_keys(old(app).seq, ctrl_alt_del()),
        call_ensures(WireDeskApp::send_win_key, (app, out), ()) ==> packet_views(final(out)@)
            == packet_views(old(out)@) + numbered_keys(old(app).seq, win_key()),
        call_ensures(WireDeskApp::send_language_key, (app, out), ()) ==> packet_views(final(out)@)
            == packet_views(old(out)@) + numbered_keys(old(app).seq, language_key()),
{
}

/// What the user does with the shell reaches the host: it is opened once, as
/// chosen, closed where it is open, and each line goes with its newline.
pub proof fn law_shell_requests_reach_the_host(
    app: &mut WireDeskApp,
    out: &mut Vec<Packet>,
    line: &str,
)
    ensures
        ({
            let before = packet_views(old(out)@);
            let after = packet_views(final(out)@);
            let seq = old(app).seq;
            &&& call_ensures(WireDeskApp::shell_open_request, (app, out), ()) ==> {
                &&& !old(app).shell.open ==> final(app).shell.open && after == before.push(
                    PacketView {
                        message: MessageView::ShellOpen { shell: old(app).shell.kind@ },
                        seq,
                    },
                )
                &&& old(app).shell.open ==> after == before && final(app)@ == old(app)@
            }
            &&& call_ensures(WireDeskApp::shell_close_request, (app, out), ()) ==> {
                &&& old(app).shell.open ==> after == before.push(
                    PacketView { message: MessageView::ShellClose, seq },
                )
                &&& !old(app).shell.open ==> after == before
                &&& final(app).shell.open == old(app).shell.open
            }
            &&& call_ensures(WireDeskApp::shell_send_input, (app, out, line), ()) ==> after
                == before.push(
                PacketView {
                    message: MessageView::ShellInput { data: encode_utf8(line@) + seq![10u8] },
                    seq,
                },
            )
        }),
{
    assert(encode_utf8(line@).push(10) =~= encode_utf8(line@) + seq![10u8]);
}

/// The status says what the state is: with a host its name and its screen, and
/// after a loss the reason for it.
pub proof fn law_status_says_what_is(app: WireDeskApp, r: String, reason: Seq<char>)
    requires
        call_ensures(WireDeskApp::status_text, (&app,), r),
    ensures
        app.state == ConnectionState::Connected ==> {
            &&& text_contains(r@, app.host_name@)
            &&& text_contains(r@, decimal(app.screen_w as nat) + "×"@ + decimal(app.screen_h as nat))
        },
        app.state == ConnectionState::Disconnected && app.status_msg@ == "disconnected: "@ + reason
            ==> text_contains(r@, reason),
{
    let host = app.host_name@;
    let a = "Connected to "@;
    let b = " ("@;
    let size = decimal(app.screen_w as nat) + "×"@ + decimal(app.screen_h as nat);
    if app.state == ConnectionState::Connected {
        assert(r@ =~= a + host + b + size + ")"@);
        assert(r@.subrange(a.len() as int, (a.len() + host.len()) as int) =~= host);
        assert(stands_at(r@, host, a.len() as int));
        let at = (a.len() + host.len() + b.len()) as int;
        assert(r@.subrange(at, at + size.len()) =~= size);
        assert(stands_at(r@, size, at));
    }
    if app.state == ConnectionState::Disconnected && app.status_msg@ == "disconnected: "@ + reason {
        let prefix = "disconnected: "@;
        let msg = prefix + reason;
        assert(msg.subrange(0, prefix.len() as int) =~= prefix);
        assert(msg.subrange(prefix.len() as int, msg.len() as int) =~= reason);
        let c = "Disconnected: "@;
        assert(r@ =~= c + reason);
        assert(r@.subrange(c.len() as int, r@.len() as int) =~= reason);
        assert(stands_at(r@, reason, c.len() as int));
    }
}

/// The host's clipboard is shown whole up to 200 characters, and by its first
/// 200 beyond that; an empty one is not shown.
pub proof fn law_clipboard_is_previewed(app: WireDeskApp, r: Option<String>)
    requires
        call_ensures(WireDeskApp::clipboard_preview, (&app,), r),
    ensures
        app.clipboard_text@.len() == 0 <==> r is None,
        0 < app.clipboard_text@.len() <= 200 ==> r->0@ == app.clipboard_text@,
        app.clipboard_text@.len() > 200 ==> r->0@ == app.clipboard_text@.take(200) + "..."@,
{
}

/// A notice is shown for three seconds, that of an unavailable display for five.
pub proof fn law_notices_pass(
    app: &mut WireDeskApp,
    now_ms: u64,
    later: WireDeskApp,
    shown: Option<&str>,
)
    ensures
        call_ensures(WireDeskApp::expire_toast, (app, now_ms), ()) ==> {
            &&& old(app)@.toast matches Some((text, at)) ==> at <= now_ms ==> final(app)@.toast == (
            if now_ms >= at + 3000 {
                None
            } else {
                Some((text, at))
            })
            &&& old(app)@.toast is None ==> final(app)@.toast is None
            &&& final(app)@ == (Window { toast: final(app)@.toast, ..old(app)@ })
        },
        call_ensures(WireDeskApp::visible_fallback, (&later, now_ms), shown) ==> {
            &&& later@.fallback matches Some((text, at)) ==> {
                &&& now_ms < at + 5000 ==> (shown matches Some(t) && t@ == text)
                &&& now_ms >= at + 5000 ==> shown is None
            }
            &&& later@.fallback is None ==> shown is None
        },
{
}

/// While input is captured or the window is fullscreen there is nothing to click
/// on; otherwise everything is shown, or how to permit the keyboard to be taken
/// over.
pub proof fn law_screen_follows_the_mode(app: WireDeskApp, r: Screen, chrome: bool)
    requires
        call_ensures(WireDeskApp::screen, (&app,), r),
        call_ensures(WireDeskApp::should_show_chrome, (&app,), chrome),
    ensures
        app.capturing || app.fullscreen <==> r == Screen::Captured,
        !app.capturing && !app.fullscreen && !app.permission_granted <==> r == Screen::Permission,
        !app.capturing && !app.fullscreen && app.permission_granted <==> r == Screen::Chrome,
        chrome <==> !app.capturing && !app.fullscreen,
{
}

/// The permission is looked at every two seconds, and what was found is what
/// counts.
pub proof fn law_permission_is_looked_at_again(
    app: &mut WireDeskApp,
    granted: bool,
    checked_ms: u64,
    later: WireDeskApp,
    now_ms: u64,
    due: bool,
)
    ensures
        call_ensures(WireDeskApp::set_permission, (app, granted, checked_ms), ()) ==> final(app)@
            == (Window {
            permission_granted: granted,
            last_perm_check_ms: checked_ms,
            ..old(app)@
        }),
        call_ensures(WireDeskApp::permission_check_due, (&later, now_ms), due) ==> (due <==> now_ms
            >= later.last_perm_check_ms + 2000),
{
}

/// The icon in the Dock is set at the start, and three more times: after a
/// second and a half, three seconds and five; each time it counts.
pub proof fn law_dock_icon_is_set_four_times(app: &mut WireDeskApp, now_ms: u64, r: bool)
    requires
        call_ensures(WireDeskApp::reapply_dock_icon_if_needed, (app, now_ms), r),
    ensures
        old(app).dock_icon_apply_count >= 4 ==> !r,
        old(app).dock_icon_apply_count < 4 && old(app).last_dock_icon_apply is None ==> r,
        old(app).last_dock_icon_apply matches Some(at) ==> {
            &&& old(app).dock_icon_apply_count == 1 ==> (r <==> now_ms >= at + 1500)
            &&& old(app).dock_icon_apply_count == 2 ==> (r <==> now_ms >= at + 3000)
            &&& old(app).dock_icon_apply_count == 3 ==> (r <==> now_ms >= at + 5000)
        },
        r ==> final(app).dock_icon_apply_count == old(app).dock_icon_apply_count + 1
            && final(app).last_dock_icon_apply == Some(now_ms),
        !r ==> final(app)@ == old(app)@,
{
}

/// Messages of the window are numbered one after the other, and after the
/// largest number comes zero.
pub proof fn law_window_numbers_count_up(app: &mut WireDeskApp, n: u16)
    requires
        call_ensures(WireDeskApp::next_seq, (app,), n),
    ensures
        n == old(app).seq,
        final(app).seq == (n + 1) % 65536,
        final(app)@ == (Window { seq: final(app).seq, ..old(app)@ }),
{
}

/// The window opens without a host and without capture, with the settings that
/// were loaded.
pub proof fn law_window_opens_idle(
    config: ClientConfig,
    permission: bool,
    now_ms: u64,
    app: WireDeskApp,
)
    requires
        call_ensures(WireDeskApp::new, (config, permission, now_ms), app),
    ensures
        app.state == ConnectionState::Disconnected && !app.capturing && !app.fullscreen,
        !app.shell.open && app.clipboard_text@.len() == 0,
        app.permission_granted == permission,
        app.screen_w == config.width && app.screen_h == config.height,
        app.mapper.host_screen_w == config.width && app.mapper.host_screen_h == config.height,
        app.runtime_serial_port@ == config.port@,
        app@.preferred_monitor == preference(config.preferred_monitor),
        app.settings.pending_config == config && !app.settings.dirty,
        app.transient_toast is None && app.monitor_fallback_msg is None,
{
}

/// Entering and leaving fullscreen touches nothing but fullscreen, capture and
/// its status, and what is kept of places and displays.
pub proof fn law_fullscreen_touches_nothing_else(
    app: &mut WireDeskApp,
    monitors: Vec<MonitorInfo>,
    place: Option<Place>,
    now_ms: u64,
    r: FullscreenCommand,
)
    requires
        call_ensures(WireDeskApp::toggle_fullscreen, (app, &monitors, place, now_ms), r),
    ensures
        final(app)@ == (Window {
            fullscreen: !old(app).fullscreen,
            capturing: !old(app).fullscreen,
            status_msg: final(app)@.status_msg,
            original_position: final(app)@.original_position,
            pending_position_restore: final(app)@.pending_position_restore,
            fallback: final(app)@.fallback,
            ..old(app)@
        }),
        !old(app).fullscreen ==> final(app)@.pending_position_restore
            == old(app)@.pending_position_restore,
        old(app).fullscreen ==> final(app)@.fallback == old(app)@.fallback,
        old(app).capturing == !old(app).fullscreen ==> final(app)@.status_msg
            == old(app)@.status_msg,
{
}

} // verus!
