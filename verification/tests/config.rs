use wiredesk_client::config::{
    default_port, default_transport, default_true, deserialize_preferred_monitor, from_user,
    merge_args, resolve_transport, restore_window_geometry, sane_window_geometry,
    save_window_geometry_to, to_transport_config, BluetoothConfig, ClientConfig, CliArgs,
    StringOrInt, ValueSource, DEFAULT_PORT, DEFAULT_PORT_WINDOWS,
};

fn bluetooth() -> BluetoothConfig {
    BluetoothConfig {
        service_uuid: "11111111-2222-3333-4444-555555555555".to_string(),
        peer_name: "TestHost".to_string(),
        mtu: 244,
        connect_timeout_secs: 5,
        reconnect_max_attempts: 3,
        require_encryption: true,
    }
}

fn defaults() -> ClientConfig {
    ClientConfig::defaults(false, bluetooth())
}

fn toml_cfg() -> ClientConfig {
    ClientConfig {
        port: "/dev/cu.from-toml".to_string(),
        baud: 9_600,
        width: 1280,
        height: 720,
        client_name: "from-toml".to_string(),
        ..defaults()
    }
}

/// The arguments of a program that was started without any.
fn no_args() -> CliArgs {
    CliArgs {
        port: (Some(ValueSource::DefaultValue), Some("/dev/cu.default".to_string())),
        baud: (Some(ValueSource::DefaultValue), Some(115_200)),
        name: (None, None),
        transport: (None, None),
    }
}

fn given<T>(value: T) -> (Option<ValueSource>, Option<T>) {
    (Some(ValueSource::CommandLine), Some(value))
}

#[test]
fn default_port_has_the_shape_of_this_platform() {
    assert!(DEFAULT_PORT_WINDOWS.starts_with("COM"), "{DEFAULT_PORT_WINDOWS}");
    assert!(DEFAULT_PORT.starts_with("/dev/"), "{DEFAULT_PORT}");
    assert_eq!(default_port(true), DEFAULT_PORT_WINDOWS);
    assert_eq!(default_port(false), DEFAULT_PORT);
}

#[test]
fn resolve_transport_passes_serial_through() {
    for windows in [false, true] {
        let (t, note) = resolve_transport("serial", windows);
        assert_eq!(t, "serial");
        assert!(note.is_none());
    }
}

#[test]
fn resolve_transport_keeps_bluetooth_on_mac() {
    let (t, note) = resolve_transport("bluetooth", false);
    assert_eq!(t, "bluetooth");
    assert!(note.is_none());
}

#[test]
fn resolve_transport_downgrades_bluetooth_on_windows() {
    let (t, note) = resolve_transport("bluetooth", true);
    assert_eq!(t, "serial");
    let note = note.expect("a silent downgrade would be worse than none");
    assert!(note.contains("Windows"), "{note}");
}

#[test]
fn resolve_transport_is_case_insensitive() {
    let (t, _) = resolve_transport("Bluetooth", true);
    assert_eq!(t, "serial");
}

#[test]
fn resolve_transport_leaves_unknown_values_alone() {
    let (t, note) = resolve_transport("carrier-pigeon", true);
    assert_eq!(t, "carrier-pigeon");
    assert!(note.is_none());
}

#[test]
fn resolve_transport_compares_ascii_letters_only() {
    assert_eq!(resolve_transport("BLUETOOTH", true).0, "serial");
    assert_eq!(resolve_transport("bluetooth ", true).0, "bluetooth ");
    assert_eq!(resolve_transport("bluetootH", true).0, "serial");
    assert_eq!(resolve_transport("blÜetooth", true).0, "blÜetooth");
}

#[test]
fn defaults_match_hardcodes() {
    let cfg = defaults();
    assert_eq!(cfg.port, DEFAULT_PORT);
    assert_eq!(cfg.baud, 115_200);
    assert_eq!(cfg.width, 2560);
    assert_eq!(cfg.height, 1440);
    assert_eq!(cfg.client_name, "wiredesk-client");
    assert!(cfg.preferred_monitor.is_none());
    assert!(cfg.send_images);
    assert!(cfg.receive_images);
    assert!(cfg.receive_files);
    assert!(!cfg.send_files, "send_files is opt-in, default off");
    assert_eq!(cfg.transport, "serial");
    assert!(cfg.transport_fallback.is_none());
    assert_eq!(cfg.bluetooth, bluetooth());
    assert!(default_true());
    assert_eq!(default_transport(), "serial");
    assert_eq!(ClientConfig::defaults(true, bluetooth()).port, "COM3");
}

#[test]
fn sane_geometry_accepts_ordinary_window() {
    assert_eq!(sane_window_geometry(1200, 240, 520, 760), Some((1200, 240, 520, 760)));
}

#[test]
fn sane_geometry_accepts_negative_origin() {
    assert!(sane_window_geometry(-2560, -300, 520, 760).is_some());
}

#[test]
fn sane_geometry_rejects_degenerate_size() {
    assert!(sane_window_geometry(0, 0, 0, 0).is_none());
    assert!(sane_window_geometry(0, 0, 100, 760).is_none());
    assert!(sane_window_geometry(0, 0, 520, 50).is_none());
}

#[test]
fn sane_geometry_rejects_absurd_origin() {
    assert!(sane_window_geometry(500_000, 0, 520, 760).is_none());
}

#[test]
fn sane_geometry_has_sharp_edges() {
    assert!(sane_window_geometry(30_000, -30_000, 320, 240).is_some());
    assert!(sane_window_geometry(30_001, 0, 320, 240).is_none());
    assert!(sane_window_geometry(0, -30_001, 320, 240).is_none());
    assert!(sane_window_geometry(0, 0, 319, 240).is_none());
    assert!(sane_window_geometry(0, 0, 320, 239).is_none());
    assert!(sane_window_geometry(0, 0, 20_000, 20_000).is_some());
    assert!(sane_window_geometry(0, 0, 20_001, 20_000).is_none());
    assert!(sane_window_geometry(i32::MIN, 0, 320, 240).is_none());
}

#[test]
fn restore_geometry_needs_all_four_fields() {
    let mut cfg = ClientConfig {
        window_x: Some(100),
        window_y: Some(100),
        window_w: Some(520),
        ..defaults()
    };
    assert!(restore_window_geometry(&cfg).is_none());
    cfg.window_h = Some(760);
    assert_eq!(restore_window_geometry(&cfg), Some((100, 100, 520, 760)));
}

#[test]
fn save_window_geometry_preserves_other_fields() {
    let cfg = ClientConfig {
        port: "/dev/cu.usbserial-999".to_string(),
        baud: 3_000_000,
        send_files: true,
        ..defaults()
    };
    let loaded = save_window_geometry_to(cfg, 12, 34, 520, 760);
    assert_eq!(loaded.port, "/dev/cu.usbserial-999");
    assert_eq!(loaded.baud, 3_000_000);
    assert!(loaded.send_files);
    assert_eq!(restore_window_geometry(&loaded), Some((12, 34, 520, 760)));
}

#[test]
fn save_window_geometry_creates_config_when_missing() {
    let loaded = save_window_geometry_to(defaults(), -100, 50, 600, 800);
    assert_eq!(restore_window_geometry(&loaded), Some((-100, 50, 600, 800)));
}

#[test]
fn merge_no_cli_args_keeps_toml() {
    let merged = merge_args(no_args(), toml_cfg());
    assert_eq!(merged.port, "/dev/cu.from-toml");
    assert_eq!(merged.baud, 9_600);
    assert_eq!(merged.client_name, "from-toml");
}

#[test]
fn merge_cli_port_overrides_toml() {
    let args = CliArgs { port: given("/dev/cu.from-cli".to_string()), ..no_args() };
    let merged = merge_args(args, toml_cfg());
    assert_eq!(merged.port, "/dev/cu.from-cli");
    assert_eq!(merged.baud, 9_600);
    assert_eq!(merged.client_name, "from-toml");
}

#[test]
fn merge_cli_all_fields_override_toml() {
    let args = CliArgs {
        port: given("/dev/cu.cli".to_string()),
        baud: given(57_600),
        name: given("cli-name".to_string()),
        ..no_args()
    };
    let merged = merge_args(args, toml_cfg());
    assert_eq!(merged.port, "/dev/cu.cli");
    assert_eq!(merged.baud, 57_600);
    assert_eq!(merged.client_name, "cli-name");
}

#[test]
fn merge_cli_transport_overrides_toml() {
    let args = CliArgs { transport: given("bluetooth".to_string()), ..no_args() };
    let merged = merge_args(args, toml_cfg());
    assert_eq!(merged.transport, "bluetooth");
    assert_eq!(merged.port, "/dev/cu.from-toml");
}

#[test]
fn merge_no_transport_arg_keeps_toml() {
    let mut cfg = toml_cfg();
    cfg.transport = "bluetooth".to_string();
    let merged = merge_args(no_args(), cfg);
    assert_eq!(merged.transport, "bluetooth");
}

#[test]
fn environment_counts_as_given() {
    assert!(from_user(Some(ValueSource::CommandLine)));
    assert!(from_user(Some(ValueSource::EnvVariable)));
    assert!(!from_user(Some(ValueSource::DefaultValue)));
    assert!(!from_user(None));
    let args = CliArgs { baud: (Some(ValueSource::EnvVariable), Some(1)), ..no_args() };
    assert_eq!(merge_args(args, toml_cfg()).baud, 1);
    let args = CliArgs { baud: (Some(ValueSource::CommandLine), None), ..no_args() };
    assert_eq!(merge_args(args, toml_cfg()).baud, 9_600);
}

#[test]
fn legacy_monitor_number_is_passed_over() {
    assert_eq!(deserialize_preferred_monitor(Some(StringOrInt::I(2))), None);
    assert_eq!(deserialize_preferred_monitor(None), None);
    assert_eq!(
        deserialize_preferred_monitor(Some(StringOrInt::S("Studio Display".to_string()))),
        Some("Studio Display".to_string())
    );
}

#[test]
fn to_transport_config_serial_passes_port_baud() {
    let cfg = ClientConfig {
        port: "/dev/cu.test".to_string(),
        baud: 921_600,
        transport: "serial".to_string(),
        ..defaults()
    };
    let tc = to_transport_config(&cfg, false);
    assert_eq!(tc.transport, "serial");
    assert_eq!(tc.serial.port, "/dev/cu.test");
    assert_eq!(tc.serial.baud, 921_600);
    assert!(tc.fallback.is_none());
}

#[test]
fn to_transport_config_bluetooth_carries_bt_fields() {
    let cfg = ClientConfig {
        transport: "bluetooth".to_string(),
        transport_fallback: Some("serial".to_string()),
        ..defaults()
    };
    let tc = to_transport_config(&cfg, false);
    assert_eq!(tc.transport, "bluetooth");
    assert_eq!(tc.bluetooth.service_uuid, "11111111-2222-3333-4444-555555555555");
    assert_eq!(tc.bluetooth.peer_name, "TestHost");
    assert_eq!(tc.bluetooth.mtu, 244);
    assert_eq!(tc.fallback.as_deref(), Some("serial"));
    assert_eq!(to_transport_config(&cfg, true).transport, "serial");
}
