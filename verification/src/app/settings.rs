//! The settings as the user edits them.

use vstd::prelude::*;
use vstd::string::*;

use crate::config::{BluetoothConfig, ClientConfig};
use crate::text::{
    after_prefix, decimal, join, law_only_numbers_are_read, law_shown_number_is_read_back,
    parse_number, parsed, push_decimal, stands_at, strip_prefix, text_contains,
};

verus! {

/// Milliseconds that a notice of saving is shown.
pub const SAVE_TOAST_MS: u64 = 3000;

/// Milliseconds after which the list of displays is read again.
pub const MONITOR_CACHE_TTL_MS: u64 = 1000;

/// The settings that take effect at once.
#[derive(Debug, Clone, Copy, PartialEq, Eq, Structural)]
pub struct Toggles {
    pub send_images: bool,
    pub receive_images: bool,
    pub send_text: bool,
    pub receive_text: bool,
    pub swap_option_command: bool,
}

/// A display.
#[derive(Debug, Clone, PartialEq, Eq)]
pub struct MonitorInfo {
    /// Its place among the displays.
    pub index: u32,
    /// What the user is shown of it.
    pub label: String,
    /// What tells it from every other display.
    pub identity: String,
}

/// What the user changed.
#[derive(Debug)]
pub enum SettingEdit {
    Port(String),
    /// As typed.
    Baud(String),
    Width(String),
    Height(String),
    PreferredMonitor(Option<String>),
    SendImages(bool),
    ReceiveImages(bool),
    SendText(bool),
    ReceiveText(bool),
    ClientName(String),
    SwapOptionCommand(bool),
}

/// The settings as the user edits them.
#[derive(Debug)]
pub struct Settings {
    pub pending_config: ClientConfig,
    /// Something was changed and not saved.
    pub dirty: bool,
    pub toggles: Toggles,
    /// A notice, and when it came up.
    pub save_toast: Option<(String, u64)>,
    pub available_ports: Vec<String>,
    pub cached_monitors: Vec<MonitorInfo>,
    pub cached_monitors_at: Option<u64>,
}

/// The settings after a change. A number that cannot be read changes nothing.
pub open spec fn edited(cfg: ClientConfig, edit: SettingEdit) -> Option<ClientConfig> {
    match edit {
        SettingEdit::Port(port) => Some(ClientConfig { port, ..cfg }),
        SettingEdit::Baud(text) => match parsed(text@, u32::MAX as nat) {
            Some(n) => Some(ClientConfig { baud: n as u32, ..cfg }),
            None => None,
        },
        SettingEdit::Width(text) => match parsed(text@, u16::MAX as nat) {
            Some(n) => Some(ClientConfig { width: n as u16, ..cfg }),
            None => None,
        },
        SettingEdit::Height(text) => match parsed(text@, u16::MAX as nat) {
            Some(n) => Some(ClientConfig { height: n as u16, ..cfg }),
            None => None,
        },
        SettingEdit::PreferredMonitor(preferred_monitor) => Some(
            ClientConfig { preferred_monitor, ..cfg },
        ),
        SettingEdit::SendImages(on) => Some(ClientConfig { send_images: on, ..cfg }),
        SettingEdit::ReceiveImages(on) => Some(ClientConfig { receive_images: on, ..cfg }),
        SettingEdit::SendText(on) => Some(ClientConfig { send_text: on, ..cfg }),
        SettingEdit::ReceiveText(on) => Some(ClientConfig { receive_text: on, ..cfg }),
        SettingEdit::ClientName(client_name) => Some(ClientConfig { client_name, ..cfg }),
        SettingEdit::SwapOptionCommand(on) => Some(
            ClientConfig { swap_option_command: on, ..cfg },
        ),
    }
}

/// What takes effect at once of a change.
pub open spec fn toggled(toggles: Toggles, edit: SettingEdit) -> Toggles {
    match edit {
        SettingEdit::SendImages(on) => Toggles { send_images: on, ..toggles },
        SettingEdit::ReceiveImages(on) => Toggles { receive_images: on, ..toggles },
        SettingEdit::SendText(on) => Toggles { send_text: on, ..toggles },
        SettingEdit::ReceiveText(on) => Toggles { receive_text: on, ..toggles },
        SettingEdit::SwapOptionCommand(on) => Toggles { swap_option_command: on, ..toggles },
        _ => toggles,
    }
}

fn toggle(toggles: Toggles, edit: &SettingEdit) -> (r: Toggles)
    ensures
        r == toggled(toggles, *edit),
{
    let mut out = toggles;
    match edit {
        SettingEdit::SendImages(on) => {
            out.send_images = *on;
        },
        SettingEdit::ReceiveImages(on) => {
            out.receive_images = *on;
        },
        SettingEdit::SendText(on) => {
            out.send_text = *on;
        },
        SettingEdit::ReceiveText(on) => {
            out.receive_text = *on;
        },
        SettingEdit::SwapOptionCommand(on) => {
            out.swap_option_command = *on;
        },
        _ => {},
    }
    out
}

#[verifier::rlimit(40)]
fn change(config: &mut ClientConfig, edit: SettingEdit) -> (r: bool)
    ensures
        match edited(*old(config), edit) {
            Some(after) => r && *final(config) == after,
            None => !r && *final(config) == *old(config),
        },
{
    match edit {
        SettingEdit::Port(port) => {
            config.port = port;
        },
        SettingEdit::Baud(text) => match parse_number(text.as_str(), u32::MAX) {
            Some(n) => {
                config.baud = n;
            },
            None => {
                return false;
            },
        },
        SettingEdit::Width(text) => match parse_number(text.as_str(), u16::MAX as u32) {
            Some(n) => {
                config.width = n as u16;
            },
            None => {
                return false;
            },
        },
        SettingEdit::Height(text) => match parse_number(text.as_str(), u16::MAX as u32) {
            Some(n) => {
                config.height = n as u16;
            },
            None => {
                return false;
            },
        },
        SettingEdit::PreferredMonitor(choice) => {
            config.preferred_monitor = choice;
        },
        SettingEdit::SendImages(on) => {
            config.send_images = on;
        },
        SettingEdit::ReceiveImages(on) => {
            config.receive_images = on;
        },
        SettingEdit::SendText(on) => {
            config.send_text = on;
        },
        SettingEdit::ReceiveText(on) => {
            config.receive_text = on;
        },
        SettingEdit::ClientName(name) => {
            config.client_name = name;
        },
        SettingEdit::SwapOptionCommand(on) => {
            config.swap_option_command = on;
        },
    }
    true
}

impl Settings {
    pub fn new(config: ClientConfig) -> (r: Settings)
        ensures
            r.pending_config == config,
            !r.dirty,
            r.toggles == (Toggles {
                send_images: config.send_images,
                receive_images: config.receive_images,
                send_text: config.send_text,
                receive_text: config.receive_text,
                swap_option_command: config.swap_option_command,
            }),
            r.save_toast is None,
            r.available_ports@.len() == 0,
            r.cached_monitors@.len() == 0,
            r.cached_monitors_at is None,
    {
        let toggles = Toggles {
            send_images: config.send_images,
            receive_images: config.receive_images,
            send_text: config.send_text,
            receive_text: config.receive_text,
            swap_option_command: config.swap_option_command,
        };
        Settings {
            pending_config: config,
            dirty: false,
            toggles,
            save_toast: None,
            available_ports: Vec::new(),
            cached_monitors: Vec::new(),
            cached_monitors_at: None,
        }
    }

    /// The user changed something.
    pub fn edit(&mut self, edit: SettingEdit)
        ensures
            match edited(old(self).pending_config, edit) {
                Some(config) => *final(self) == (Settings {
                    pending_config: config,
                    dirty: true,
                    toggles: toggled(old(self).toggles, edit),
                    ..*old(self)
                }),
                None => *final(self) == *old(self),
            },
    {
        let toggles = toggle(self.toggles, &edit);
        if change(&mut self.pending_config, edit) {
            self.toggles = toggles;
            self.dirty = true;
        }
    }

    /// The user wants the settings as they were before any choice. What already
    /// took effect stays in effect.
    pub fn reset_to_defaults(&mut self, windows: bool, bluetooth: BluetoothConfig)
        ensures
            final(self).pending_config.fresh(windows, bluetooth),
            *final(self) == (Settings {
                pending_config: final(self).pending_config,
                dirty: true,
                ..*old(self)
            }),
    {
        self.pending_config = ClientConfig::defaults(windows, bluetooth);
        self.dirty = true;
    }

    /// The settings were saved, or could not be. Where the program is started
    /// anew right away, success is not announced.
    pub fn on_saved(&mut self, error: Option<&str>, restarting: bool, now_ms: u64)
        ensures
            final(self).pending_config == old(self).pending_config,
            final(self).toggles == old(self).toggles,
            final(self).available_ports == old(self).available_ports,
            final(self).cached_monitors == old(self).cached_monitors,
            final(self).cached_monitors_at == old(self).cached_monitors_at,
            match error {
                Some(e) => {
                    &&& final(self).dirty == old(self).dirty
                    &&& final(self).save_toast matches Some((text, at)) && at == now_ms && text@
                        == "Save failed: "@ + e@
                },
                None => {
                    &&& !final(self).dirty
                    &&& restarting ==> final(self).save_toast == old(self).save_toast
                    &&& !restarting ==> (final(self).save_toast matches Some((text, at)) && at
                        == now_ms && text@ == "Saved. Restart WireDesk to apply."@)
                },
            },
    {
        match error {
            Some(e) => {
                self.save_toast = Some((join("Save failed: ", e), now_ms));
            },
            None => {
                self.dirty = false;
                if !restarting {
                    self.save_toast = Some(
                        ("Saved. Restart WireDesk to apply.".to_owned(), now_ms),
                    );
                }
            },
        }
    }

    /// The notice of saving, while it is shown.
    pub fn visible_save_toast(&self, now_ms: u64) -> (r: Option<&str>)
        ensures
            match self.save_toast {
                Some((text, at)) if now_ms.saturating_sub(at) < SAVE_TOAST_MS =>
                    r matches Some(t) && t@ == text@,
                _ => r is None,
            },
    {
        match &self.save_toast {
            Some((text, at)) => {
                if now_ms.saturating_sub(*at) < SAVE_TOAST_MS {
                    Some(text.as_str())
                } else {
                    None
                }
            },
            None => None,
        }
    }

    /// Whether the list of displays is to be read again.
    pub fn monitors_stale(&self, now_ms: u64) -> (r: bool)
        ensures
            r == match self.cached_monitors_at {
                Some(at) => now_ms.saturating_sub(at) >= MONITOR_CACHE_TTL_MS,
                None => true,
            },
    {
        match self.cached_monitors_at {
            Some(at) => now_ms.saturating_sub(at) >= MONITOR_CACHE_TTL_MS,
            None => true,
        }
    }

    /// The list of displays was read.
    pub fn set_monitors(&mut self, monitors: Vec<MonitorInfo>, now_ms: u64)
        ensures
            *final(self) == (Settings {
                cached_monitors: monitors,
                cached_monitors_at: Some(now_ms),
                ..*old(self)
            }),
    {
        self.cached_monitors = monitors;
        self.cached_monitors_at = Some(now_ms);
    }

    /// The serial ports were listed; those that can be opened to call out are
    /// offered.
    pub fn set_ports(&mut self, ports: Vec<String>)
        ensures
            final(self).available_ports@ == callout_ports(ports@),
            *final(self) == (Settings {
                available_ports: final(self).available_ports,
                ..*old(self)
            }),
    {
        self.available_ports = keep_callout_ports(ports);
    }
}

/// Whether a serial port is one to call out on.
pub open spec fn is_callout_port(name: Seq<char>) -> bool {
    after_prefix(name, "/dev/cu."@) is Some
}

/// The ports to call out on, in their order.
pub open spec fn callout_ports(ports: Seq<String>) -> Seq<String>
    decreases ports.len(),
{
    if ports.len() == 0 {
        Seq::empty()
    } else if is_callout_port(ports.last()@) {
        callout_ports(ports.drop_last()).push(ports.last())
    } else {
        callout_ports(ports.drop_last())
    }
}

fn keep_callout_ports(ports: Vec<String>) -> (r: Vec<String>)
    ensures
        r@ == callout_ports(ports@),
{
    let mut out: Vec<String> = Vec::new();
    let n: usize = ports.len();
    let mut i: usize = 0;
    while i < n
        invariant
            n == ports@.len(),
            i <= n,
            out@ == callout_ports(ports@.take(i as int)),
        decreases n - i,
    {
        assert(ports@.take(i + 1).drop_last() =~= ports@.take(i as int));
        if strip_prefix(ports[i].as_str(), "/dev/cu.").is_some() {
            out.push(ports[i].clone());
        }
        i = i + 1;
    }
    assert(ports@.take(n as int) =~= ports@);
    out
}

/// Only ports to call out on are offered, and all of them.
pub proof fn law_offered_ports_are_the_callout_ports(ports: Seq<String>, name: String)
    ensures
        callout_ports(ports).contains(name) <==> ports.contains(name) && is_callout_port(name@),
    decreases ports.len(),
{
    if ports.len() > 0 {
        let rest = ports.drop_last();
        law_offered_ports_are_the_callout_ports(rest, name);
        assert(ports =~= rest.push(ports.last()));
        assert(ports.contains(name) <==> rest.contains(name) || name == ports.last()) by {
            if rest.contains(name) {
                let i = choose|i: int| 0 <= i < rest.len() && rest[i] == name;
                assert(ports[i] == name);
            }
            if name == ports.last() {
                assert(ports[ports.len() - 1] == name);
            }
        }
        let kept = callout_ports(rest);
        if is_callout_port(ports.last()@) {
            assert(kept.push(ports.last()).contains(name) <==> kept.contains(name) || name
                == ports.last()) by {
                if kept.contains(name) {
                    let i = choose|i: int| 0 <= i < kept.len() && kept[i] == name;
                    assert(kept.push(ports.last())[i] == name);
                }
                if name == ports.last() {
                    assert(kept.push(ports.last())[kept.len() as int] == name);
                }
            }
        }
    }
}

/// True where a display is the one that is asked for.
pub open spec fn is_monitor(monitors: Seq<MonitorInfo>, i: int, identity: Seq<char>) -> bool {
    0 <= i < monitors.len() && monitors[i].identity@ == identity
}

/// The display that is asked for: the first with this identity.
pub open spec fn is_target(
    target: Option<usize>,
    preferred: Option<Seq<char>>,
    monitors: Seq<MonitorInfo>,
) -> bool {
    match (target, preferred) {
        (Some(i), Some(identity)) => {
            &&& is_monitor(monitors, i as int, identity)
            &&& forall|j: int| 0 <= j < i ==> !is_monitor(monitors, j, identity)
        },
        (None, Some(identity)) => forall|j: int| !is_monitor(monitors, j, identity),
        (Some(_), None) => false,
        (None, None) => true,
    }
}

/// A preference as a mathematical value.
pub open spec fn preference(preferred: Option<String>) -> Option<Seq<char>> {
    match preferred {
        Some(s) => Some(s@),
        None => None,
    }
}

/// The display that is asked for, where there is such a one.
pub fn resolve_target_monitor(preferred: &Option<String>, monitors: &Vec<MonitorInfo>) -> (r: Option<
    usize,
>)
    ensures
        is_target(r, preference(*preferred), monitors@),
{
    let wanted = match preferred {
        Some(identity) => identity,
        None => {
            return None;
        },
    };
    let n: usize = monitors.len();
    let mut i: usize = 0;
    while i < n
        invariant
            n == monitors@.len(),
            i <= n,
            preference(*preferred) == Some(wanted@),
            forall|j: int| 0 <= j < i ==> !is_monitor(monitors@, j, wanted@),
        decreases n - i,
    {
        if monitors[i].identity == *wanted {
            return Some(i);
        }
        i = i + 1;
    }
    None
}

/// What the user is shown of a display.
pub open spec fn monitor_words(monitor: MonitorInfo) -> Seq<char> {
    "Display "@ + decimal((monitor.index + 1) as nat) + " — "@ + monitor.label@
}

/// What the user is shown of a display.
pub fn monitor_text(monitor: &MonitorInfo) -> (r: String)
    ensures
        r@ == monitor_words(*monitor),
{
    let mut out = "Display ".to_owned();
    push_decimal(&mut out, monitor.index as u64 + 1);
    out.append(" — ");
    out.append(monitor.label.as_str());
    out
}

/// What the user is shown as chosen.
pub fn selected_monitor_text(preferred: &Option<String>, monitors: &Vec<MonitorInfo>) -> (r: String)
    ensures
        match *preferred {
            None => r@ == "(active monitor — default)"@,
            Some(saved) => exists|target: Option<usize>| #[trigger]
                is_target(target, Some(saved@), monitors@) && r@ == (match target {
                    Some(i) => monitor_words(monitors@[i as int]),
                    None => saved@ + " (unavailable)"@,
                }),
        },
{
    let saved = match preferred {
        Some(saved) => saved,
        None => {
            return "(active monitor — default)".to_owned();
        },
    };
    let target = resolve_target_monitor(preferred, monitors);
    match target {
        Some(i) => monitor_text(&monitors[i]),
        None => join(saved.as_str(), " (unavailable)"),
    }
}

/// There is at most one display that is asked for, so that what is shown as
/// chosen is determined.
pub proof fn law_target_is_unique(
    a: Option<usize>,
    b: Option<usize>,
    preferred: Option<Seq<char>>,
    monitors: Seq<MonitorInfo>,
)
    requires
        is_target(a, preferred, monitors),
        is_target(b, preferred, monitors),
    ensures
        a == b,
{
    match (a, b, preferred) {
        (Some(i), Some(j), Some(identity)) => {
            if i < j {
                assert(!is_monitor(monitors, i as int, identity));
            } else if j < i {
                assert(!is_monitor(monitors, j as int, identity));
            }
        },
        (Some(i), None, Some(identity)) => {
            assert(!is_monitor(monitors, i as int, identity));
        },
        (None, Some(j), Some(identity)) => {
            assert(!is_monitor(monitors, j as int, identity));
        },
        _ => {},
    }
}

/// What takes effect at once and what is saved do not part: where they agreed
/// before a change, they agree after it.
pub proof fn law_toggles_follow_the_settings(cfg: ClientConfig, toggles: Toggles, edit: SettingEdit)
    requires
        toggles == (Toggles {
            send_images: cfg.send_images,
            receive_images: cfg.receive_images,
            send_text: cfg.send_text,
            receive_text: cfg.receive_text,
            swap_option_command: cfg.swap_option_command,
        }),
        edited(cfg, edit) is Some,
    ensures
        ({
            let after = edited(cfg, edit)->0;
            toggled(toggles, edit) == (Toggles {
                send_images: after.send_images,
                receive_images: after.receive_images,
                send_text: after.send_text,
                receive_text: after.receive_text,
                swap_option_command: after.swap_option_command,
            })
        }),
{
}

/// An edit of a setting that is on or off sets that one, in what is saved and
/// in what is in effect, to what the user chose, and no other.
pub proof fn law_switch_sets_what_it_names(s: &mut Settings, edit: SettingEdit)
    requires
        call_ensures(Settings::edit, (s, edit), ()),
    ensures
        edit matches SettingEdit::SendImages(on) ==> {
            &&& final(s).pending_config == (ClientConfig {
                send_images: on,
                ..old(s).pending_config
            })
            &&& final(s).toggles == (Toggles { send_images: on, ..old(s).toggles })
        },
        edit matches SettingEdit::ReceiveImages(on) ==> {
            &&& final(s).pending_config == (ClientConfig {
                receive_images: on,
                ..old(s).pending_config
            })
            &&& final(s).toggles == (Toggles { receive_images: on, ..old(s).toggles })
        },
        edit matches SettingEdit::SendText(on) ==> {
            &&& final(s).pending_config == (ClientConfig { send_text: on, ..old(s).pending_config })
            &&& final(s).toggles == (Toggles { send_text: on, ..old(s).toggles })
        },
        edit matches SettingEdit::ReceiveText(on) ==> {
            &&& final(s).pending_config == (ClientConfig {
                receive_text: on,
                ..old(s).pending_config
            })
            &&& final(s).toggles == (Toggles { receive_text: on, ..old(s).toggles })
        },
        edit matches SettingEdit::SwapOptionCommand(on) ==> {
            &&& final(s).pending_config == (ClientConfig {
                swap_option_command: on,
                ..old(s).pending_config
            })
            &&& final(s).toggles == (Toggles { swap_option_command: on, ..old(s).toggles })
        },
{
}

/// An edit of a text sets the setting that it names, and no other; nothing of
/// it is in effect before it is saved.
pub proof fn law_text_edit_sets_what_it_names(s: &mut Settings, edit: SettingEdit)
    requires
        call_ensures(Settings::edit, (s, edit), ()),
    ensures
        edit matches SettingEdit::Port(text) ==> final(s).pending_config == (ClientConfig {
            port: text,
            ..old(s).pending_config
        }),
        edit matches SettingEdit::ClientName(text) ==> final(s).pending_config == (ClientConfig {
            client_name: text,
            ..old(s).pending_config
        }),
        edit matches SettingEdit::PreferredMonitor(choice) ==> final(s).pending_config == (
        ClientConfig { preferred_monitor: choice, ..old(s).pending_config }),
        edit is Port || edit is ClientName || edit is PreferredMonitor || edit is Baud || edit is Width
            || edit is Height ==> final(s).toggles == old(s).toggles,
{
}

/// A number that the user types becomes the setting that it is typed for, and
/// no other changes.
pub proof fn law_typed_number_is_taken(s: &mut Settings, edit: SettingEdit, n: nat)
    requires
        call_ensures(Settings::edit, (s, edit), ()),
    ensures
        edit matches SettingEdit::Baud(text) ==> text@ == decimal(n) && n <= u32::MAX ==> final(s).pending_config == (ClientConfig { baud: n as u32, ..old(s).pending_config }),
        edit matches SettingEdit::Width(text) ==> text@ == decimal(n) && n <= u16::MAX ==> final(s).pending_config == (ClientConfig { width: n as u16, ..old(s).pending_config }),
        edit matches SettingEdit::Height(text) ==> text@ == decimal(n) && n <= u16::MAX ==> final(s).pending_config == (ClientConfig { height: n as u16, ..old(s).pending_config }),
{
    if n <= u32::MAX {
        law_shown_number_is_read_back(n, u32::MAX as nat);
    }
    if n <= u16::MAX {
        law_shown_number_is_read_back(n, u16::MAX as nat);
    }
}

/// What is typed for a number and is none, or is one that the setting cannot
/// hold, changes nothing at all.
pub proof fn law_typed_nonsense_is_passed_over(s: &mut Settings, edit: SettingEdit, i: int, n: nat)
    requires
        call_ensures(Settings::edit, (s, edit), ()),
    ensures
        ({
            let typed = match edit {
                SettingEdit::Baud(text) => Some((text@, u32::MAX as nat)),
                SettingEdit::Width(text) => Some((text@, u16::MAX as nat)),
                SettingEdit::Height(text) => Some((text@, u16::MAX as nat)),
                _ => None,
            };
            typed matches Some((text, most)) ==> {
                ||| text.len() == 0
                ||| 0 < i < text.len() && !('0' <= text[i] <= '9')
                ||| i == 0 && text.len() > 0 && !('0' <= text[0] <= '9') && text[0] != '+'
                ||| text == decimal(n) && n > most
            } ==> *final(s) == *old(s)
        }),
{
    law_only_numbers_are_read(
        match edit {
            SettingEdit::Baud(text) => text@,
            SettingEdit::Width(text) => text@,
            SettingEdit::Height(text) => text@,
            _ => Seq::empty(),
        },
        i,
        n,
        u32::MAX as nat,
    );
    law_only_numbers_are_read(
        match edit {
            SettingEdit::Baud(text) => text@,
            SettingEdit::Width(text) => text@,
            SettingEdit::Height(text) => text@,
            _ => Seq::empty(),
        },
        i,
        n,
        u16::MAX as nat,
    );
}

/// An edit that is taken is one to save, and no edit touches what is shown of
/// ports, displays and saving.
pub proof fn law_edit_is_to_be_saved(s: &mut Settings, edit: SettingEdit)
    requires
        call_ensures(Settings::edit, (s, edit), ()),
    ensures
        !(edit is Baud || edit is Width || edit is Height) ==> final(s).dirty,
        final(s).pending_config != old(s).pending_config ==> final(s).dirty,
        old(s).dirty ==> final(s).dirty,
        final(s).save_toast == old(s).save_toast,
        final(s).available_ports == old(s).available_ports,
        final(s).cached_monitors == old(s).cached_monitors,
        final(s).cached_monitors_at == old(s).cached_monitors_at,
{
}

/// Settings that were loaded are in effect as they were saved, and there is
/// nothing to save yet.
pub proof fn law_loaded_settings_are_in_effect(config: ClientConfig, s: Settings)
    requires
        call_ensures(Settings::new, (config,), s),
    ensures
        s.pending_config == config,
        !s.dirty,
        s.toggles.send_images == config.send_images,
        s.toggles.receive_images == config.receive_images,
        s.toggles.send_text == config.send_text,
        s.toggles.receive_text == config.receive_text,
        s.toggles.swap_option_command == config.swap_option_command,
        s.save_toast is None,
        s.cached_monitors_at is None,
{
}

/// Going back to the defaults is to be saved like an edit; what is in effect
/// stays so until then, and files still go out only where the user asks.
pub proof fn law_defaults_wait_to_be_saved(
    s: &mut Settings,
    windows: bool,
    bluetooth: BluetoothConfig,
)
    requires
        call_ensures(Settings::reset_to_defaults, (s, windows, bluetooth), ()),
    ensures
        final(s).dirty,
        final(s).toggles == old(s).toggles,
        final(s).save_toast == old(s).save_toast,
        final(s).pending_config.bluetooth == bluetooth,
        final(s).pending_config.send_text && final(s).pending_config.receive_text,
        final(s).pending_config.send_images && final(s).pending_config.receive_images,
        final(s).pending_config.receive_files && !final(s).pending_config.send_files,
        !final(s).pending_config.swap_option_command,
        final(s).pending_config.baud == 115200,
        (final(s).pending_config.width, final(s).pending_config.height) == (2560u16, 1440u16),
        final(s).pending_config.preferred_monitor is None,
{
}

/// Once the settings are saved there is nothing to save; where that failed there
/// still is, and the user reads why.
pub proof fn law_saving_is_reported(
    s: &mut Settings,
    error: Option<&str>,
    restarting: bool,
    now_ms: u64,
)
    requires
        call_ensures(Settings::on_saved, (s, error, restarting, now_ms), ()),
    ensures
        final(s).pending_config == old(s).pending_config,
        final(s).toggles == old(s).toggles,
        error is None ==> !final(s).dirty,
        error is Some ==> final(s).dirty == old(s).dirty,
        error matches Some(e) ==> (final(s).save_toast matches Some((text, at)) && at == now_ms
            && text_contains(text@, e@)),
        error is None && !restarting ==> (final(s).save_toast matches Some((text, at)) && at
            == now_ms),
        error is None && restarting ==> final(s).save_toast == old(s).save_toast,
{
    if let Some(e) = error {
        let (toast, _) = final(s).save_toast->0;
        let text = toast@;
        let head = "Save failed: "@;
        assert(text.subrange(head.len() as int, text.len() as int) =~= e@);
        assert(stands_at(text, e@, head.len() as int));
    }
}

/// A notice of saving is shown for three seconds, as it was written.
pub proof fn law_saving_notice_passes(s: Settings, now_ms: u64, shown: Option<&str>)
    requires
        call_ensures(Settings::visible_save_toast, (&s, now_ms), shown),
    ensures
        s.save_toast is None ==> shown is None,
        s.save_toast matches Some((text, at)) ==> {
            &&& now_ms < at + 3000 ==> (shown matches Some(t) && t@ == text@)
            &&& now_ms >= at + 3000 ==> shown is None
        },
{
}

/// The displays are read anew a second after they were read, and once at the
/// start; what was read is what is kept.
pub proof fn law_displays_are_read_again(
    s: &mut Settings,
    monitors: Vec<MonitorInfo>,
    read_ms: u64,
    later: Settings,
    now_ms: u64,
    stale: bool,
)
    requires
        call_ensures(Settings::set_monitors, (s, monitors, read_ms), ()),
        call_ensures(Settings::monitors_stale, (&later, now_ms), stale),
    ensures
        final(s).cached_monitors == monitors,
        final(s).pending_config == old(s).pending_config,
        final(s).toggles == old(s).toggles,
        final(s).dirty == old(s).dirty,
        later == *final(s) ==> (stale <==> now_ms >= read_ms + 1000),
        later.cached_monitors_at is None ==> stale,
{
}

/// The ports that are offered keep their order: whatever comes later is offered
/// behind what came before.
pub proof fn law_ports_keep_their_order(before: Seq<String>, after: Seq<String>)
    ensures
        callout_ports(before + after) == callout_ports(before) + callout_ports(after),
        callout_ports(Seq::empty()) == Seq::<String>::empty(),
    decreases after.len(),
{
    if after.len() == 0 {
        assert(before + after =~= before);
        assert(callout_ports(before) + callout_ports(after) =~= callout_ports(before));
    } else {
        law_ports_keep_their_order(before, after.drop_last());
        assert((before + after).drop_last() =~= before + after.drop_last());
        assert((before + after).last() == after.last());
        assert(callout_ports(before + after) =~= callout_ports(before) + callout_ports(after));
    }
}

/// A port to call out on is one whose device name begins so, whatever follows;
/// no other is.
pub proof fn law_callout_ports_are_named_so(name: Seq<char>, rest: Seq<char>)
    ensures
        is_callout_port("/dev/cu."@ + rest),
        is_callout_port(name) ==> exists|more: Seq<char>| name == "/dev/cu."@ + more,
        !is_callout_port("/dev/tty."@ + rest),
{
    let prefix = "/dev/cu."@;
    assert((prefix + rest).subrange(0, prefix.len() as int) =~= prefix);
    if is_callout_port(name) {
        let more = name.subrange(prefix.len() as int, name.len() as int);
        assert(name =~= prefix + more);
    }
    reveal_strlit("/dev/cu.");
    reveal_strlit("/dev/tty.");
    let other = "/dev/tty."@ + rest;
    if is_callout_port(other) {
        assert(other.subrange(0, 8)[5] == prefix[5]);
        assert(other[5] == 't');
    }
}

/// Fullscreen goes to the display that the user chose, wherever it stands in
/// the list; to none where it is not there or none was chosen.
pub proof fn law_chosen_display_is_found(
    preferred: Option<String>,
    monitors: Vec<MonitorInfo>,
    found: Option<usize>,
    i: int,
)
    requires
        call_ensures(resolve_target_monitor, (&preferred, &monitors), found),
        0 <= i < monitors@.len(),
    ensures
        preferred is None ==> found is None,
        preferred matches Some(name) ==> monitors@[i].identity@ == name@ ==> found is Some
            && found->0 <= i,
        found matches Some(at) ==> at < monitors@.len() && preferred is Some
            && monitors@[at as int].identity@ == preferred->0@,
{
    match (found, preference(preferred)) {
        (None, Some(identity)) => {
            assert(!is_monitor(monitors@, i, identity));
        },
        (Some(at), Some(identity)) => {
            if i < at {
                assert(!is_monitor(monitors@, i, identity));
            }
        },
        _ => {},
    }
}

/// What the user is shown of a display holds its label, and displays count from
/// one on.
pub proof fn law_display_is_shown_by_its_label(monitor: MonitorInfo, shown: String)
    requires
        call_ensures(monitor_text, (&monitor,), shown),
    ensures
        text_contains(shown@, monitor.label@),
        text_contains(shown@, decimal((monitor.index + 1) as nat)),
{
    let number = decimal((monitor.index + 1) as nat);
    let head = "Display "@;
    let dash = " — "@;
    let at = (head.len() + number.len() + dash.len()) as int;
    assert(shown@.subrange(at, shown@.len() as int) =~= monitor.label@);
    assert(stands_at(shown@, monitor.label@, at));
    assert(shown@.subrange(head.len() as int, (head.len() + number.len()) as int) =~= number);
    assert(stands_at(shown@, number, head.len() as int));
}

/// What the user is shown as chosen is the display that is found, and a choice
/// that is not there is still named.
pub proof fn law_choice_is_shown(
    preferred: Option<String>,
    monitors: Vec<MonitorInfo>,
    shown: String,
    found: Option<usize>,
)
    requires
        call_ensures(selected_monitor_text, (&preferred, &monitors), shown),
        call_ensures(resolve_target_monitor, (&preferred, &monitors), found),
    ensures
        found matches Some(i) ==> text_contains(shown@, monitors@[i as int].label@),
        preferred matches Some(name) ==> found is None ==> text_contains(shown@, name@),
{
    if let Some(name) = preferred {
        let target = choose|target: Option<usize>| #[trigger]
            is_target(target, Some(name@), monitors@) && shown@ == (match target {
                Some(i) => monitor_words(monitors@[i as int]),
                None => name@ + " (unavailable)"@,
            });
        law_target_is_unique(target, found, Some(name@), monitors@);
        match found {
            Some(i) => {
                let monitor = monitors@[i as int];
                let head = "Display "@ + decimal((monitor.index + 1) as nat) + " — "@;
                assert(shown@ =~= head + monitor.label@);
                assert(shown@.subrange(head.len() as int, shown@.len() as int) =~= monitor.label@);
                assert(stands_at(shown@, monitor.label@, head.len() as int));
            },
            None => {
                assert(shown@.subrange(0, name@.len() as int) =~= name@);
                assert(stands_at(shown@, name@, 0));
            },
        }
    }
}

/// Listing the ports offers those to call out on, and changes nothing else.
pub proof fn law_listed_ports_are_offered(s: &mut Settings, ports: Vec<String>, name: String)
    requires
        call_ensures(Settings::set_ports, (s, ports), ()),
    ensures
        final(s).available_ports@.contains(name) <==> ports@.contains(name) && is_callout_port(
            name@,
        ),
        final(s).pending_config == old(s).pending_config && final(s).toggles == old(s).toggles,
        final(s).dirty == old(s).dirty && final(s).save_toast == old(s).save_toast,
        final(s).cached_monitors == old(s).cached_monitors,
{
    law_offered_ports_are_the_callout_ports(ports@, name);
}

} // verus!
