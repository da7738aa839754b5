//! The client's settings.
//!
//! Reading and writing the settings file is not done here.

use vstd::prelude::*;
use vstd::string::*;

use crate::text::chars_of;

verus! {

/// The serial port before the user has picked one.
pub const DEFAULT_PORT: &'static str = "/dev/cu.usbserial-120";

/// The same on Windows, where ports are named otherwise.
pub const DEFAULT_PORT_WINDOWS: &'static str = "COM3";

/// The smallest window that can show anything.
pub const MIN_WINDOW_W: i32 = 320;

pub const MIN_WINDOW_H: i32 = 240;

/// A window larger than any display.
pub const MAX_WINDOW_SIDE: i32 = 20000;

/// A place farther out than any desk of displays.
pub const MAX_WINDOW_ORIGIN: i32 = 30000;

/// Settings of the Bluetooth transport.
#[derive(Debug, Clone, PartialEq, Eq)]
pub struct BluetoothConfig {
    pub service_uuid: String,
    pub peer_name: String,
    pub mtu: u16,
    pub connect_timeout_secs: u64,
    pub reconnect_max_attempts: u32,
    pub require_encryption: bool,
}

/// The client's settings.
#[derive(Debug, Clone, PartialEq, Eq)]
pub struct ClientConfig {
    pub port: String,
    pub baud: u32,
    pub width: u16,
    pub height: u16,
    pub client_name: String,
    /// The display that fullscreen goes to; nothing stands for the one that the
    /// window is on.
    pub preferred_monitor: Option<String>,
    pub send_images: bool,
    pub receive_images: bool,
    pub send_text: bool,
    pub receive_text: bool,
    pub receive_files: bool,
    pub send_files: bool,
    /// The keyboard already swaps Option and Command.
    pub swap_option_command: bool,
    pub window_x: Option<i32>,
    pub window_y: Option<i32>,
    pub window_w: Option<i32>,
    pub window_h: Option<i32>,
    pub transport: String,
    /// What to open where `transport` cannot be.
    pub transport_fallback: Option<String>,
    pub bluetooth: BluetoothConfig,
}

/// What a setting that is on by default has where the file does not name it.
pub fn default_true() -> (r: bool)
    ensures
        r,
{
    true
}

/// The transport where the file does not name one.
pub fn default_transport() -> (r: String)
    ensures
        r@ == "serial"@,
{
    "serial".to_owned()
}

/// The serial port before the user has picked one.
pub fn default_port(windows: bool) -> (r: &'static str)
    ensures
        r@ == (if windows {
            DEFAULT_PORT_WINDOWS@
        } else {
            DEFAULT_PORT@
        }),
{
    if windows {
        DEFAULT_PORT_WINDOWS
    } else {
        DEFAULT_PORT
    }
}

impl ClientConfig {
    /// The settings before the user has chosen any: everything is synchronised
    /// but files to the host, which takes the user's consent.
    pub open spec fn fresh(self, windows: bool, bluetooth: BluetoothConfig) -> bool {
        &&& self.port@ == (if windows {
            DEFAULT_PORT_WINDOWS@
        } else {
            DEFAULT_PORT@
        })
        &&& self.baud == 115200
        &&& self.width == 2560
        &&& self.height == 1440
        &&& self.client_name@ == "wiredesk-client"@
        &&& self.preferred_monitor is None
        &&& self.send_images
        &&& self.receive_images
        &&& self.send_text
        &&& self.receive_text
        &&& self.receive_files
        &&& !self.send_files
        &&& !self.swap_option_command
        &&& self.window_x is None
        &&& self.window_y is None
        &&& self.window_w is None
        &&& self.window_h is None
        &&& self.transport@ == "serial"@
        &&& self.transport_fallback is None
        &&& self.bluetooth == bluetooth
    }

    /// The settings before the user has chosen any, with those of the Bluetooth
    /// transport as given.
    pub fn defaults(windows: bool, bluetooth: BluetoothConfig) -> (r: ClientConfig)
        ensures
            r.fresh(windows, bluetooth),
    {
        ClientConfig {
            port: default_port(windows).to_owned(),
            baud: 115200,
            width: 2560,
            height: 1440,
            client_name: "wiredesk-client".to_owned(),
            preferred_monitor: None,
            send_images: true,
            receive_images: true,
            send_text: true,
            receive_text: true,
            receive_files: true,
            send_files: false,
            swap_option_command: false,
            window_x: None,
            window_y: None,
            window_w: None,
            window_h: None,
            transport: default_transport(),
            transport_fallback: None,
            bluetooth,
        }
    }
}

/// Where the window is, and how large.
pub open spec fn sane(x: int, y: int, w: int, h: int) -> bool {
    &&& MIN_WINDOW_W <= w <= MAX_WINDOW_SIDE
    &&& MIN_WINDOW_H <= h <= MAX_WINDOW_SIDE
    &&& -MAX_WINDOW_ORIGIN <= x <= MAX_WINDOW_ORIGIN
    &&& -MAX_WINDOW_ORIGIN <= y <= MAX_WINDOW_ORIGIN
}

/// A place and a size for the window, where the user could reach it there.
pub fn sane_window_geometry(x: i32, y: i32, w: i32, h: i32) -> (r: Option<(i32, i32, i32, i32)>)
    ensures
        r == (if sane(x as int, y as int, w as int, h as int) {
            Some((x, y, w, h))
        } else {
            None
        }),
{
    if w < MIN_WINDOW_W || w > MAX_WINDOW_SIDE || h < MIN_WINDOW_H || h > MAX_WINDOW_SIDE {
        return None;
    }
    if x < -MAX_WINDOW_ORIGIN || x > MAX_WINDOW_ORIGIN || y < -MAX_WINDOW_ORIGIN || y
        > MAX_WINDOW_ORIGIN {
        return None;
    }
    Some((x, y, w, h))
}

/// The place and size that the settings keep, where they keep all of it and it
/// makes sense.
pub open spec fn kept_geometry(cfg: ClientConfig) -> Option<(i32, i32, i32, i32)> {
    match (cfg.window_x, cfg.window_y, cfg.window_w, cfg.window_h) {
        (Some(x), Some(y), Some(w), Some(h)) => if sane(x as int, y as int, w as int, h as int) {
            Some((x, y, w, h))
        } else {
            None
        },
        _ => None,
    }
}

/// The place and size to open the window with.
pub fn restore_window_geometry(cfg: &ClientConfig) -> (r: Option<(i32, i32, i32, i32)>)
    ensures
        r == kept_geometry(*cfg),
{
    match (cfg.window_x, cfg.window_y, cfg.window_w, cfg.window_h) {
        (Some(x), Some(y), Some(w), Some(h)) => sane_window_geometry(x, y, w, h),
        _ => None,
    }
}

/// The settings with another place and size of the window.
pub fn save_window_geometry_to(cfg: ClientConfig, x: i32, y: i32, w: i32, h: i32) -> (r:
    ClientConfig)
    ensures
        r == (ClientConfig {
            window_x: Some(x),
            window_y: Some(y),
            window_w: Some(w),
            window_h: Some(h),
            ..cfg
        }),
{
    let mut out = cfg;
    out.window_x = Some(x);
    out.window_y = Some(y);
    out.window_w = Some(w);
    out.window_h = Some(h);
    out
}

/// A window that the user could reach is restored where it was left.
pub proof fn law_saved_geometry_is_restored(cfg: ClientConfig, x: i32, y: i32, w: i32, h: i32)
    ensures
        ({
            let saved = ClientConfig {
                window_x: Some(x),
                window_y: Some(y),
                window_w: Some(w),
                window_h: Some(h),
                ..cfg
            };
            &&& sane(x as int, y as int, w as int, h as int) ==> kept_geometry(saved) == Some(
                (x, y, w, h),
            )
            &&& !sane(x as int, y as int, w as int, h as int) ==> kept_geometry(saved) is None
        }),
{
}

/// Where an argument's value comes from.
#[derive(Debug, Clone, Copy, PartialEq, Eq, Structural)]
pub enum ValueSource {
    DefaultValue,
    EnvVariable,
    CommandLine,
}

/// Whether the user gave the value.
pub open spec fn given(source: Option<ValueSource>) -> bool {
    source == Some(ValueSource::CommandLine) || source == Some(ValueSource::EnvVariable)
}

/// Whether the user gave the value.
pub fn from_user(source: Option<ValueSource>) -> (r: bool)
    ensures
        r == given(source),
{
    match source {
        Some(ValueSource::CommandLine) => true,
        Some(ValueSource::EnvVariable) => true,
        _ => false,
    }
}

/// The arguments that the program was started with, each with its source.
#[derive(Debug)]
pub struct CliArgs {
    pub port: (Option<ValueSource>, Option<String>),
    pub baud: (Option<ValueSource>, Option<u32>),
    pub name: (Option<ValueSource>, Option<String>),
    pub transport: (Option<ValueSource>, Option<String>),
}

/// What a setting is to be: what the user gave, or else what it was.
pub open spec fn overridden<T>(kept: T, arg: (Option<ValueSource>, Option<T>)) -> T {
    match arg.1 {
        Some(value) => if given(arg.0) {
            value
        } else {
            kept
        },
        None => kept,
    }
}

/// The settings with what the user gave when starting the program.
pub open spec fn merged(cfg: ClientConfig, args: CliArgs) -> ClientConfig {
    ClientConfig {
        port: overridden(cfg.port, args.port),
        baud: overridden(cfg.baud, args.baud),
        client_name: overridden(cfg.client_name, args.name),
        transport: overridden(cfg.transport, args.transport),
        ..cfg
    }
}

/// The settings with what the user gave when starting the program.
pub fn merge_args(matches: CliArgs, cfg: ClientConfig) -> (r: ClientConfig)
    ensures
        r == merged(cfg, matches),
{
    let mut out = cfg;
    if from_user(matches.port.0) {
        if let Some(value) = matches.port.1 {
            out.port = value;
        }
    }
    if from_user(matches.baud.0) {
        if let Some(value) = matches.baud.1 {
            out.baud = value;
        }
    }
    if from_user(matches.name.0) {
        if let Some(value) = matches.name.1 {
            out.client_name = value;
        }
    }
    if from_user(matches.transport.0) {
        if let Some(value) = matches.transport.1 {
            out.transport = value;
        }
    }
    out
}

/// A program that is started without arguments has the settings of its file;
/// with arguments, nothing but what they name differs.
pub proof fn law_only_given_arguments_override(cfg: ClientConfig, args: CliArgs)
    ensures
        !given(args.port.0) ==> merged(cfg, args).port == cfg.port,
        !given(args.baud.0) ==> merged(cfg, args).baud == cfg.baud,
        !given(args.name.0) ==> merged(cfg, args).client_name == cfg.client_name,
        !given(args.transport.0) ==> merged(cfg, args).transport == cfg.transport,
        merged(cfg, args).bluetooth == cfg.bluetooth,
        !given(args.port.0) && !given(args.baud.0) && !given(args.name.0) && !given(
            args.transport.0,
        ) ==> merged(cfg, args) == cfg,
{
}

/// A character's code, the same for an ASCII letter in either case.
pub open spec fn case_folded(c: char) -> u32 {
    if 65 <= c as u32 <= 90 {
        (c as u32 + 32) as u32
    } else {
        c as u32
    }
}

/// Whether two texts differ at most in the case of ASCII letters.
pub open spec fn same_but_for_case(a: Seq<char>, b: Seq<char>) -> bool {
    &&& a.len() == b.len()
    &&& forall|i: int| 0 <= i < a.len() ==> case_folded(#[trigger] a[i]) == case_folded(b[i])
}

fn fold_case(c: char) -> (r: u32)
    ensures
        r == case_folded(c),
{
    let code: u32 = c as u32;
    if 65 <= code && code <= 90 {
        code + 32
    } else {
        code
    }
}

fn equal_but_for_case(a: &str, b: &str) -> (r: bool)
    ensures
        r == same_but_for_case(a@, b@),
{
    let left = chars_of(a);
    let right = chars_of(b);
    let n: usize = left.len();
    if n != right.len() {
        return false;
    }
    let mut i: usize = 0;
    while i < n
        invariant
            left@ == a@,
            right@ == b@,
            n == left@.len(),
            n == right@.len(),
            i <= n,
            forall|j: int| 0 <= j < i ==> case_folded(#[trigger] a@[j]) == case_folded(b@[j]),
        decreases n - i,
    {
        if fold_case(left[i]) != fold_case(right[i]) {
            assert(case_folded(a@[i as int]) != case_folded(b@[i as int]));
            return false;
        }
        i = i + 1;
    }
    true
}

/// Whether the client cannot play its part in this transport: on Windows it
/// would announce itself over Bluetooth as the host does, and the two would
/// never meet.
pub open spec fn unsupported(requested: Seq<char>, client_is_windows: bool) -> bool {
    client_is_windows && same_but_for_case(requested, "bluetooth"@)
}

/// Why another transport is opened than the one asked for.
pub open spec fn fallback_note() -> Seq<char> {
    "transport=bluetooth is not supported on the Windows client                  (the BLE role is fixed to Peripheral there, same as the host)                  — falling back to serial"@
}

/// The transport to open: the one asked for, or the serial one and why.
pub fn resolve_transport(requested: &str, client_is_windows: bool) -> (r: (String, Option<String>))
    ensures
        unsupported(requested@, client_is_windows) ==> {
            &&& r.0@ == "serial"@
            &&& r.1 matches Some(note) && note@ == fallback_note()
        },
        !unsupported(requested@, client_is_windows) ==> r.0@ == requested@ && r.1 is None,
{
    if client_is_windows && equal_but_for_case(requested, "bluetooth") {
        let note =
            "transport=bluetooth is not supported on the Windows client                  (the BLE role is fixed to Peripheral there, same as the host)                  — falling back to serial".to_owned();
        return ("serial".to_owned(), Some(note));
    }
    (requested.to_owned(), None)
}

/// What the serial transport needs.
#[derive(Debug, Clone, PartialEq, Eq)]
pub struct SerialFactoryConfig {
    pub port: String,
    pub baud: u32,
}

/// What opening a transport needs.
#[derive(Debug, Clone, PartialEq, Eq)]
pub struct TransportConfig {
    pub transport: String,
    pub serial: SerialFactoryConfig,
    pub bluetooth: BluetoothConfig,
    pub fallback: Option<String>,
}

/// What opening the transport of the settings needs.
pub fn to_transport_config(cfg: &ClientConfig, client_is_windows: bool) -> (r: TransportConfig)
    ensures
        r.transport@ == (if unsupported(cfg.transport@, client_is_windows) {
            "serial"@
        } else {
            cfg.transport@
        }),
        r.serial == (SerialFactoryConfig { port: cfg.port, baud: cfg.baud }),
        r.bluetooth == cfg.bluetooth,
        r.fallback == cfg.transport_fallback,
{
    let (transport, _) = resolve_transport(cfg.transport.as_str(), client_is_windows);
    let fallback = match &cfg.transport_fallback {
        Some(name) => Some(name.clone()),
        None => None,
    };
    TransportConfig {
        transport,
        serial: SerialFactoryConfig { port: cfg.port.clone(), baud: cfg.baud },
        bluetooth: BluetoothConfig {
            service_uuid: cfg.bluetooth.service_uuid.clone(),
            peer_name: cfg.bluetooth.peer_name.clone(),
            mtu: cfg.bluetooth.mtu,
            connect_timeout_secs: cfg.bluetooth.connect_timeout_secs,
            reconnect_max_attempts: cfg.bluetooth.reconnect_max_attempts,
            require_encryption: cfg.bluetooth.require_encryption,
        },
        fallback,
    }
}

/// A Windows client never opens Bluetooth, in whichever case it is spelled; no
/// other client, and no other transport, is affected.
pub proof fn law_windows_never_opens_bluetooth(a: Seq<char>, b: Seq<char>, windows: bool)
    requires
        same_but_for_case(a, b),
    ensures
        unsupported(a, windows) == unsupported(b, windows),
        a == "bluetooth"@ ==> unsupported(b, true),
        a == "serial"@ ==> !unsupported(b, windows),
        !unsupported(a, false),
{
    reveal_strlit("serial");
    reveal_strlit("bluetooth");
    let target = "bluetooth"@;
    if same_but_for_case(a, target) {
        assert forall|i: int| 0 <= i < b.len() implies case_folded(#[trigger] b[i]) == case_folded(
            target[i],
        ) by {
            assert(case_folded(a[i]) == case_folded(b[i]));
        }
    }
    if same_but_for_case(b, target) {
        assert forall|i: int| 0 <= i < a.len() implies case_folded(#[trigger] a[i]) == case_folded(
            target[i],
        ) by {
            assert(case_folded(b[i]) == case_folded(target[i]));
        }
    }
}

/// The value that a display has in the settings file: older files hold a number
/// in its place, which is passed over.
#[derive(Debug)]
pub enum StringOrInt {
    S(String),
    I(i64),
}

/// The display that the settings file names.
pub fn deserialize_preferred_monitor(value: Option<StringOrInt>) -> (r: Option<String>)
    ensures
        match value {
            Some(StringOrInt::S(s)) => r == Some(s),
            _ => r is None,
        },
{
    match value {
        Some(StringOrInt::S(s)) => Some(s),
        _ => None,
    }
}

/// What the user gives when starting the program takes the place of what the
/// settings hold, each argument in its own; a default of the command line does
/// not.
pub proof fn law_given_arguments_are_taken(
    args: CliArgs,
    cfg: ClientConfig,
    source: ValueSource,
    r: ClientConfig,
)
    requires
        call_ensures(merge_args, (args, cfg), r),
        source == ValueSource::CommandLine || source == ValueSource::EnvVariable,
    ensures
        args.port matches (Some(from), Some(value)) ==> from == source ==> r.port == value,
        args.baud matches (Some(from), Some(value)) ==> from == source ==> r.baud == value,
        args.name matches (Some(from), Some(value)) ==> from == source ==> r.client_name == value,
        args.transport matches (Some(from), Some(value)) ==> from == source ==> r.transport
            == value,
        args.port.0 == Some(ValueSource::DefaultValue) ==> r.port == cfg.port,
        args.baud.0 == Some(ValueSource::DefaultValue) ==> r.baud == cfg.baud,
        args.name.0 == Some(ValueSource::DefaultValue) ==> r.client_name == cfg.client_name,
        args.transport.0 == Some(ValueSource::DefaultValue) ==> r.transport == cfg.transport,
        r == (ClientConfig {
            port: r.port,
            baud: r.baud,
            client_name: r.client_name,
            transport: r.transport,
            ..cfg
        }),
{
}

/// Before the user has chosen anything, everything is synchronised but files to
/// the host; the port is one of the system that the client runs on.
pub proof fn law_defaults_ask_before_files_leave(
    windows: bool,
    bluetooth: BluetoothConfig,
    r: ClientConfig,
)
    requires
        call_ensures(ClientConfig::defaults, (windows, bluetooth), r),
    ensures
        !r.send_files,
        r.receive_files && r.send_text && r.receive_text && r.send_images && r.receive_images,
        !r.swap_option_command,
        r.port@ == (if windows {
            "COM3"@
        } else {
            "/dev/cu.usbserial-120"@
        }),
        r.transport@ == "serial"@ && r.transport_fallback is None,
        r.baud == 115200 && r.width == 2560 && r.height == 1440,
        r.window_x is None && r.window_y is None && r.window_w is None && r.window_h is None,
        r.preferred_monitor is None,
        r.bluetooth == bluetooth,
{
}

/// The window is restored where it was saved, wherever that is on the desk and
/// however large it was, and nothing else of the settings is touched by saving.
pub proof fn law_window_comes_back(
    cfg: ClientConfig,
    x: i32,
    y: i32,
    w: i32,
    h: i32,
    saved: ClientConfig,
    restored: Option<(i32, i32, i32, i32)>,
)
    requires
        call_ensures(save_window_geometry_to, (cfg, x, y, w, h), saved),
        call_ensures(restore_window_geometry, (&saved,), restored),
    ensures
        320 <= w <= 20000 && 240 <= h <= 20000 && -30000 <= x <= 30000 && -30000 <= y <= 30000
            ==> restored == Some((x, y, w, h)),
        w < 320 || w > 20000 || h < 240 || h > 20000 ==> restored is None,
        x < -30000 || x > 30000 || y < -30000 || y > 30000 ==> restored is None,
        saved == (ClientConfig {
            window_x: saved.window_x,
            window_y: saved.window_y,
            window_w: saved.window_w,
            window_h: saved.window_h,
            ..cfg
        }),
{
}

/// A place and a size that are not kept together are not restored.
pub proof fn law_half_a_place_is_none(cfg: ClientConfig, restored: Option<(i32, i32, i32, i32)>)
    requires
        call_ensures(restore_window_geometry, (&cfg,), restored),
    ensures
        cfg.window_x is None || cfg.window_y is None || cfg.window_w is None || cfg.window_h is None
            ==> restored is None,
        restored matches Some((x, y, w, h)) ==> cfg.window_x == Some(x) && cfg.window_y == Some(y)
            && cfg.window_w == Some(w) && cfg.window_h == Some(h),
{
}

/// The link is opened with the port, the speed and the transport that the
/// settings name; only Bluetooth on Windows is replaced, by the serial one.
pub proof fn law_link_is_opened_as_set(cfg: ClientConfig, windows: bool, r: TransportConfig)
    requires
        call_ensures(to_transport_config, (&cfg, windows), r),
    ensures
        r.serial.port == cfg.port,
        r.serial.baud == cfg.baud,
        r.bluetooth == cfg.bluetooth,
        r.fallback == cfg.transport_fallback,
        !windows ==> r.transport@ == cfg.transport@,
        cfg.transport@.len() != 9 ==> r.transport@ == cfg.transport@,
        windows && cfg.transport@ == "bluetooth"@ ==> r.transport@ == "serial"@,
        r.transport@ == cfg.transport@ || r.transport@ == "serial"@,
{
    reveal_strlit("bluetooth");
}

/// The transport that is opened is the one that was asked for, unless the user
/// is told why not.
pub proof fn law_other_transport_is_explained(
    requested: &str,
    windows: bool,
    r: (String, Option<String>),
)
    requires
        call_ensures(resolve_transport, (requested, windows), r),
    ensures
        r.1 is None ==> r.0@ == requested@,
        r.1 is Some ==> windows && r.0@ == "serial"@,
        !windows ==> r.1 is None,
        windows && requested@ == "bluetooth"@ ==> r.1 is Some,
{
}

/// A display that is named is taken as it is named; what older files hold in its
/// place stands for none.
pub proof fn law_named_display_is_kept(value: Option<StringOrInt>, r: Option<String>)
    requires
        call_ensures(deserialize_preferred_monitor, (value,), r),
    ensures
        value matches Some(StringOrInt::S(name)) ==> r == Some(name),
        value matches Some(StringOrInt::I(_)) ==> r is None,
        value is None ==> r is None,
{
}

/// A place and a size are taken as they are where the user could reach the
/// window, and not at all otherwise.
pub proof fn law_reachable_place_is_taken(
    x: i32,
    y: i32,
    w: i32,
    h: i32,
    r: Option<(i32, i32, i32, i32)>,
)
    requires
        call_ensures(sane_window_geometry, (x, y, w, h), r),
    ensures
        r is Some <==> 320 <= w <= 20000 && 240 <= h <= 20000 && -30000 <= x <= 30000 && -30000 <= y
            <= 30000,
        r matches Some(place) ==> place == (x, y, w, h),
{
}

/// A value counts as the user's where it comes from the command line or the
/// environment.
pub proof fn law_defaults_are_not_the_users(source: Option<ValueSource>, r: bool)
    requires
        call_ensures(from_user, (source,), r),
    ensures
        r <==> source == Some(ValueSource::CommandLine) || source == Some(ValueSource::EnvVariable),
{
}

} // verus!
