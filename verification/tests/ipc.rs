use wiredesk_client::exec_bridge::{route, ExecEvent, ShellSlots, SlotKind};
use wiredesk_client::ipc::relay::{
    relay_error_packet, synth_hello_ack, PumpAction, Relay, TermAction, RELAY_REFUSE_CODE,
};
use wiredesk_client::ipc::run::{
    final_frame, post_run_idle, recv_event, ExecError, ExecRun, IpcResponse, RunStage,
    SHELL_KILL_GRACE_MAX_MS,
};
use wiredesk_client::ipc::{
    abbreviate_cmd, host_supports_pty_slot, narrowed_mode, send_input, with_omitted, AcceptErrors,
    Received, ACCEPT_ERROR_BACKOFF_MS, CMD_LOG_CHARS,
};
use wiredesk_client::link::HostInfo;
use wiredesk_client::protocol::{Message, Packet};
use wiredesk_client::shell_channel::{ShellChannel, ShellOwner};

const PTY_SINCE: u8 = 2;

fn host_info_v(proto_version: u8) -> Option<HostInfo> {
    Some(HostInfo {
        host_name: "win-host".to_string(),
        screen_w: 2560,
        screen_h: 1440,
        proto_version,
    })
}

fn populated_host_info() -> Option<HostInfo> {
    host_info_v(1)
}

fn dual_host_info() -> Option<HostInfo> {
    host_info_v(PTY_SINCE)
}

/// What the acceptor's connections share.
struct Gui {
    channel: ShellChannel,
    slots: ShellSlots,
    host: Option<HostInfo>,
    link_up: bool,
    wire: Vec<Packet>,
}

impl Gui {
    fn new(host: Option<HostInfo>) -> Gui {
        Gui {
            channel: ShellChannel::new(),
            slots: ShellSlots::new(),
            host,
            link_up: true,
            wire: Vec::new(),
        }
    }

    fn dual(&self) -> bool {
        host_supports_pty_slot(&self.host, PTY_SINCE)
    }

    fn console(&mut self, cols: u16, rows: u16) -> Result<Relay, Packet> {
        Relay::begin(
            &mut self.channel,
            &mut self.slots,
            self.link_up,
            &self.host,
            PTY_SINCE,
            "pwsh".to_string(),
            cols,
            rows,
        )
    }

    /// Greets, checks the answer and opens the console on the wire.
    fn open(&mut self, relay: &Relay) {
        let hello = Packet {
            message: Message::Hello { version: 1, client_name: "mac-term".to_string() },
            seq: 0,
        };
        let ack = relay.on_first(&hello, &self.host).expect("HelloAck");
        match ack.message {
            Message::HelloAck { host_name, screen_w, screen_h, .. } => {
                assert_eq!(host_name, "win-host");
                assert_eq!(screen_w, 2560);
                assert_eq!(screen_h, 1440);
            }
            other => panic!("expected synth HelloAck, got {other:?}"),
        }
        self.wire.push(relay.open_packet());
    }

    fn term(&mut self, relay: &Relay, message: Message) -> bool {
        match relay.on_term_packet(Packet { message, seq: 0 }) {
            TermAction::Ignore => true,
            TermAction::Forward(p) => {
                self.wire.push(p);
                true
            }
            TermAction::Stop => false,
        }
    }

    fn teardown(&mut self, relay: Relay) {
        self.wire.push(relay.close_packet());
        relay.release(&mut self.channel, &mut self.slots);
    }

    fn next_wire(&mut self) -> Message {
        self.wire.remove(0).message
    }

    fn begin_run(&mut self) -> (ExecRun, IpcResponse) {
        let dual = self.dual();
        ExecRun::begin(&mut self.channel, self.link_up, dual)
    }

    /// Runs a command that exits with `code`, from its turn to its end.
    fn finish_run(&mut self, mut run: ExecRun, code: i32) -> IpcResponse {
        let out = run.on_turn(&mut self.channel, &mut self.slots, self.link_up);
        self.wire.push(out.send.expect("ShellOpen"));
        let out = run.on_result(Ok(code));
        self.wire.push(out.send.expect("ShellClose"));
        run.on_drained(
            &mut self.channel,
            &mut self.slots,
            &Received::Event(ExecEvent::ShellClosed),
        );
        assert_eq!(run.stage, RunStage::Over);
        out.reply.expect("final frame")
    }
}

fn refusal(r: Result<Relay, Packet>) -> (u16, String) {
    match r {
        Err(p) => match p.message {
            Message::Error { code, msg } => (code, msg),
            other => panic!("expected Error refuse frame, got {other:?}"),
        },
        Ok(relay) => panic!("expected a refusal, got {relay:?}"),
    }
}

#[test]
fn a_finished_run_does_not_hold_the_next_command_for_two_seconds() {
    assert!(post_run_idle(true) <= 300);
    assert!(post_run_idle(true) >= 100);
    assert_eq!(post_run_idle(false), 2000);
}

#[test]
fn ipc_exec_transport_send_input_pushes_packet() {
    let mut out: Vec<Packet> = Vec::new();
    send_input(&mut out, b"hello", 4096);
    assert_eq!(out.len(), 1);
    match &out[0].message {
        Message::ShellInput { data } => assert_eq!(data, b"hello"),
        other => panic!("expected ShellInput, got {other:?}"),
    }
}

#[test]
fn long_input_is_cut_into_pieces() {
    let mut out: Vec<Packet> = Vec::new();
    send_input(&mut out, b"abcdefgh", 3);
    let parts: Vec<Vec<u8>> = out
        .iter()
        .map(|p| match &p.message {
            Message::ShellInput { data } => data.clone(),
            other => panic!("expected ShellInput, got {other:?}"),
        })
        .collect();
    assert_eq!(parts, vec![b"abc".to_vec(), b"def".to_vec(), b"gh".to_vec()]);
    out.clear();
    send_input(&mut out, b"", 3);
    assert!(out.is_empty());
}

#[test]
fn ipc_exec_transport_recv_event_idle_on_timeout() {
    assert_eq!(recv_event(Received::Timeout), Ok(ExecEvent::Idle));
}

#[test]
fn ipc_exec_transport_recv_event_disconnect_to_closed() {
    assert!(matches!(recv_event(Received::Disconnected), Err(ExecError::Closed)));
    assert_eq!(recv_event(Received::Event(ExecEvent::ShellExit(3))), Ok(ExecEvent::ShellExit(3)));
}

#[test]
fn narrow_socket_dir_makes_dir_owner_only() {
    assert_eq!(narrowed_mode(0o755), Some(0o700));
    assert_eq!(narrowed_mode(0o40755), Some(0o700));
}

#[test]
fn narrow_socket_dir_leaves_already_private_dir_alone() {
    assert_eq!(narrowed_mode(0o500), None);
    assert_eq!(narrowed_mode(0o700), None);
}

#[test]
fn accept_errors_are_tolerated_a_while() {
    let mut errors = AcceptErrors::new();
    for _ in 0..9 {
        assert_eq!(errors.on_error(), Some(ACCEPT_ERROR_BACKOFF_MS));
    }
    errors.on_accepted();
    for _ in 0..9 {
        assert_eq!(errors.on_error(), Some(200));
    }
    assert_eq!(errors.on_error(), None);
}

#[test]
fn handler_round_trip_via_unix_socket() {
    let mut gui = Gui::new(populated_host_info());
    let (run, reply) = gui.begin_run();
    assert_eq!(reply, IpcResponse::Stdout(Vec::new()), "an empty piece says that it is served");
    let exit = gui.finish_run(run, 0);
    assert_eq!(exit, IpcResponse::Exit(0));
    assert_eq!(gui.next_wire(), Message::ShellOpen { shell: String::new() });
    assert_eq!(gui.next_wire(), Message::ShellClose);
    assert_eq!(gui.channel.current_owner(), ShellOwner::Idle);
    assert!(!gui.slots.exec_slot);
}

#[test]
fn handler_link_down_returns_transport_unavailable() {
    let mut gui = Gui::new(populated_host_info());
    gui.link_up = false;
    let (run, reply) = gui.begin_run();
    match reply {
        IpcResponse::TransportUnavailable(msg) => {
            assert!(msg.contains("reconnecting"), "msg: {msg}")
        }
        other => panic!("expected TransportUnavailable, got {other:?}"),
    }
    assert_eq!(run.stage, RunStage::Over);
    assert!(gui.wire.is_empty());
    assert_eq!(gui.channel.current_owner(), ShellOwner::Idle);
}

#[test]
fn link_lost_while_queued_refuses_the_run() {
    let mut gui = Gui::new(populated_host_info());
    let (mut run, _) = gui.begin_run();
    assert_eq!(gui.channel.current_owner(), ShellOwner::Exec);
    let out = run.on_turn(&mut gui.channel, &mut gui.slots, false);
    assert_eq!(
        out.reply,
        Some(IpcResponse::TransportUnavailable(
            "transport reconnecting — retry shortly".to_string()
        ))
    );
    assert!(out.send.is_none());
    assert_eq!(gui.channel.current_owner(), ShellOwner::Idle);
    assert!(!gui.slots.exec_slot);
}

#[test]
fn failed_open_is_reported() {
    let mut gui = Gui::new(populated_host_info());
    let (mut run, _) = gui.begin_run();
    run.on_turn(&mut gui.channel, &mut gui.slots, true);
    assert!(gui.slots.exec_slot);
    let reply = run.on_open_failed(&mut gui.channel, &mut gui.slots, "channel closed");
    assert_eq!(reply, IpcResponse::Error("ShellOpen send: channel closed".to_string()));
    assert_eq!(gui.channel.current_owner(), ShellOwner::Idle);
    assert!(!gui.slots.exec_slot);
}

#[test]
fn gone_client_leaves_nothing_behind() {
    let mut gui = Gui::new(populated_host_info());
    let (mut run, _) = gui.begin_run();
    run.end(&mut gui.channel, &mut gui.slots);
    assert_eq!(gui.channel.current_owner(), ShellOwner::Idle);
    run.end(&mut gui.channel, &mut gui.slots);
    assert_eq!(gui.channel, ShellChannel::new());
}

#[test]
fn every_end_of_a_command_has_its_frame() {
    assert_eq!(final_frame(Ok(7)), IpcResponse::Exit(7));
    assert_eq!(final_frame(Err(ExecError::Timeout(vec![1, 2]))), IpcResponse::Exit(124));
    assert_eq!(
        final_frame(Err(ExecError::Transport("cable".to_string()))),
        IpcResponse::Error("cable".to_string())
    );
    assert_eq!(
        final_frame(Err(ExecError::Closed)),
        IpcResponse::Error("transport closed".to_string())
    );
    assert_eq!(
        final_frame(Err(ExecError::CompressionFailed("bad gzip".to_string()))),
        IpcResponse::Error("compression failed: bad gzip".to_string())
    );
}

#[test]
fn late_output_holds_the_run_until_it_is_quiet() {
    let mut gui = Gui::new(populated_host_info());
    let (mut run, _) = gui.begin_run();
    run.on_turn(&mut gui.channel, &mut gui.slots, true);
    run.on_result(Err(ExecError::Timeout(Vec::new())));
    assert_eq!(run.stage, RunStage::Draining { idle_ms: 2000 });
    assert_eq!(run.drain_wait(&mut gui.channel, &mut gui.slots, 0), Some(2000));
    let late = Received::Event(ExecEvent::ShellOutput(b"late".to_vec()));
    run.on_drained(&mut gui.channel, &mut gui.slots, &late);
    assert_eq!(run.drained, 1);
    assert!(gui.slots.exec_slot, "still registered");
    run.on_drained(&mut gui.channel, &mut gui.slots, &Received::Timeout);
    assert_eq!(run.stage, RunStage::Over);
    assert!(!gui.slots.exec_slot);
}

#[test]
fn drain_ends_after_the_grace() {
    let mut gui = Gui::new(populated_host_info());
    let (mut run, _) = gui.begin_run();
    run.on_turn(&mut gui.channel, &mut gui.slots, true);
    run.on_result(Ok(0));
    assert_eq!(run.drain_wait(&mut gui.channel, &mut gui.slots, 29999), Some(150));
    assert_eq!(run.drain_wait(&mut gui.channel, &mut gui.slots, SHELL_KILL_GRACE_MAX_MS), None);
    assert_eq!(gui.channel.current_owner(), ShellOwner::Idle);
}

#[test]
fn interactive_hello_synth_ack_and_forwards_input() {
    let mut gui = Gui::new(populated_host_info());
    let relay = gui.console(100, 30).expect("granted");
    gui.open(&relay);
    assert_eq!(
        gui.next_wire(),
        Message::ShellOpenPty { shell: "pwsh".to_string(), cols: 100, rows: 30 }
    );
    assert_eq!(gui.channel.current_owner(), ShellOwner::Interactive);

    assert!(gui.term(&relay, Message::Heartbeat));
    assert!(gui.term(&relay, Message::ShellInput { data: b"ls\r".to_vec() }));
    assert!(gui.term(&relay, Message::PtyResize { cols: 80, rows: 24 }));
    assert_eq!(gui.next_wire(), Message::ShellInput { data: b"ls\r".to_vec() });
    assert_eq!(gui.next_wire(), Message::PtyResize { cols: 80, rows: 24 });

    assert_eq!(route(&gui.slots, SlotKind::Exec), Some(SlotKind::Exec));
    assert_eq!(
        relay.on_event(Received::Event(ExecEvent::ShellOutput(b"hi\n".to_vec()))),
        PumpAction::Write(Packet { message: Message::ShellOutput { data: b"hi\n".to_vec() }, seq: 0 })
    );
    assert_eq!(
        relay.on_event(Received::Event(ExecEvent::ShellExit(0))),
        PumpAction::WriteAndEnd(Packet { message: Message::ShellExit { code: 0 }, seq: 0 })
    );
    gui.teardown(relay);
    assert_eq!(gui.next_wire(), Message::ShellClose);
    assert_eq!(gui.channel.current_owner(), ShellOwner::Idle);
}

#[test]
fn interactive_refused_when_link_down() {
    let mut gui = Gui::new(populated_host_info());
    gui.link_up = false;
    let (code, msg) = refusal(gui.console(80, 24));
    assert_eq!(code, RELAY_REFUSE_CODE);
    assert_eq!(msg, "host link not ready");
    assert!(gui.wire.is_empty());
    assert_eq!(gui.channel.current_owner(), ShellOwner::Idle);
}

#[test]
fn interactive_refused_when_host_info_empty() {
    let mut gui = Gui::new(None);
    let (code, _) = refusal(gui.console(80, 24));
    assert_eq!(code, 125);
    assert!(gui.wire.is_empty());
    assert_eq!(gui.channel.current_owner(), ShellOwner::Idle);
}

#[test]
fn interactive_refused_when_channel_busy() {
    let mut gui = Gui::new(populated_host_info());
    assert!(gui.channel.try_acquire(ShellOwner::Exec, false));
    let (_, msg) = refusal(gui.console(80, 24));
    assert!(msg.contains("busy"), "msg: {msg}");
    assert!(gui.wire.is_empty());
}

#[test]
fn interactive_link_down_midsession_sends_disconnect() {
    let mut gui = Gui::new(populated_host_info());
    let relay = gui.console(80, 24).expect("granted");
    gui.open(&relay);
    assert_eq!(relay.before_wait(true, false), PumpAction::Continue);
    assert_eq!(
        relay.before_wait(false, false),
        PumpAction::WriteAndEnd(Packet { message: Message::Disconnect, seq: 0 })
    );
    assert_eq!(relay.before_wait(true, true), PumpAction::End);
}

#[test]
fn interactive_host_shell_error_tears_down_and_releases_owner() {
    let mut gui = Gui::new(populated_host_info());
    let relay = gui.console(80, 24).expect("granted");
    gui.open(&relay);
    assert!(matches!(gui.next_wire(), Message::ShellOpenPty { .. }));
    assert_eq!(gui.channel.current_owner(), ShellOwner::Interactive);
    let error = Received::Event(ExecEvent::HostError("shell already open".to_string()));
    match relay.on_event(error) {
        PumpAction::WriteAndEnd(Packet { message: Message::Error { code, msg }, .. }) => {
            assert_eq!(code, 0);
            assert!(msg.contains("shell"), "msg: {msg}");
        }
        other => panic!("expected forwarded Message::Error, got {other:?}"),
    }
    gui.teardown(relay);
    assert_eq!(gui.next_wire(), Message::ShellClose);
    assert_eq!(gui.channel.current_owner(), ShellOwner::Idle);
}

#[test]
fn exec_proceeds_while_interactive_holds_channel_on_a_dual_host() {
    let mut gui = Gui::new(dual_host_info());
    assert!(gui.channel.try_acquire(ShellOwner::Interactive, true));
    let (mut run, reply) = gui.begin_run();
    assert_eq!(reply, IpcResponse::Stdout(Vec::new()));
    let out = run.on_turn(&mut gui.channel, &mut gui.slots, true);
    assert!(matches!(out.send, Some(Packet { message: Message::ShellOpen { .. }, .. })));
}

#[test]
fn interactive_relay_speaks_the_pty_dialect_on_a_dual_host() {
    let mut gui = Gui::new(dual_host_info());
    let relay = gui.console(100, 30).expect("granted");
    gui.open(&relay);
    match gui.next_wire() {
        Message::PtyOpen { shell, cols, rows } => {
            assert_eq!((shell.as_str(), cols, rows), ("pwsh", 100, 30));
        }
        other => panic!("expected PtyOpen on a dual host, got {other:?}"),
    }
    gui.term(&relay, Message::ShellInput { data: b"echo hi\r".to_vec() });
    match gui.next_wire() {
        Message::PtyInput { data } => assert_eq!(data, b"echo hi\r"),
        other => panic!("expected PtyInput, got {other:?}"),
    }
    assert_eq!(route(&gui.slots, SlotKind::Pty), Some(SlotKind::Pty));
    match relay.on_event(Received::Event(ExecEvent::ShellOutput(b"hi\r\n".to_vec()))) {
        PumpAction::Write(Packet { message: Message::ShellOutput { data }, .. }) => {
            assert_eq!(data, b"hi\r\n")
        }
        other => panic!("expected ShellOutput to the term, got {other:?}"),
    }
    assert!(!gui.term(&relay, Message::Disconnect));
    gui.teardown(relay);
    assert!(matches!(gui.next_wire(), Message::PtyClose));
    assert_eq!(gui.channel.current_owner(), ShellOwner::Idle);
}

#[test]
fn exec_refused_when_interactive_holds_channel() {
    let mut gui = Gui::new(populated_host_info());
    assert!(gui.channel.try_acquire(ShellOwner::Interactive, false));
    let (run, reply) = gui.begin_run();
    match reply {
        IpcResponse::TransportUnavailable(msg) => assert!(msg.contains("busy"), "msg: {msg}"),
        other => panic!("expected TransportUnavailable (shell busy), got {other:?}"),
    }
    assert_eq!(run.stage, RunStage::Over);
    assert!(gui.wire.is_empty());
    assert_eq!(gui.channel.current_owner(), ShellOwner::Interactive);
}

#[test]
fn concurrent_exec_fifo_no_false_busy() {
    let mut gui = Gui::new(populated_host_info());
    let (first, r1) = gui.begin_run();
    let (second, r2) = gui.begin_run();
    assert_eq!(r1, IpcResponse::Stdout(Vec::new()));
    assert_eq!(r2, IpcResponse::Stdout(Vec::new()));
    assert_eq!(gui.finish_run(first, 0), IpcResponse::Exit(0));
    assert_eq!(gui.channel.current_owner(), ShellOwner::Exec, "no console slips in between");
    assert_eq!(gui.finish_run(second, 0), IpcResponse::Exit(0));
    assert_eq!(gui.channel.current_owner(), ShellOwner::Idle);
}

#[test]
fn abbreviate_cmd_keeps_short_commands_whole() {
    assert_eq!(abbreviate_cmd("Get-ChildItem"), "\"Get-ChildItem\"");
}

#[test]
fn abbreviate_cmd_truncates_long_commands_with_remainder() {
    let cmd = "x".repeat(CMD_LOG_CHARS + 40);
    let out = abbreviate_cmd(&cmd);
    assert!(out.starts_with(&format!("\"{}\"", "x".repeat(CMD_LOG_CHARS))));
    assert!(out.ends_with("… (+40 chars)"), "got {out}");
}

#[test]
fn abbreviate_cmd_cuts_on_char_boundary() {
    let cmd = "ж".repeat(CMD_LOG_CHARS + 3);
    let out = abbreviate_cmd(&cmd);
    assert!(out.ends_with("… (+3 chars)"), "got {out}");
    assert_eq!(out.matches('ж').count(), CMD_LOG_CHARS);
}

#[test]
fn abbreviate_cmd_escapes() {
    assert_eq!(abbreviate_cmd("a\"b\n"), "\"a\\\"b\\n\"");
    assert_eq!(with_omitted("shown".to_string(), 12), "shown… (+12 chars)");
    assert_eq!(with_omitted("shown".to_string(), 0), "shown");
}

#[test]
fn unknown_host_counts_as_legacy() {
    assert!(!host_supports_pty_slot(&None, 0));
    assert!(!host_supports_pty_slot(&host_info_v(1), PTY_SINCE));
    assert!(host_supports_pty_slot(&host_info_v(2), PTY_SINCE));
}

#[test]
fn synthesised_greeting_without_a_host_is_empty() {
    assert_eq!(
        synth_hello_ack(&None),
        Packet {
            message: Message::HelloAck {
                version: 1,
                host_name: String::new(),
                screen_w: 0,
                screen_h: 0
            },
            seq: 0
        }
    );
    assert_eq!(
        relay_error_packet("no"),
        Packet { message: Message::Error { code: 125, msg: "no".to_string() }, seq: 0 }
    );
}

#[test]
fn console_waits_for_a_greeting() {
    let mut gui = Gui::new(populated_host_info());
    let relay = gui.console(80, 24).expect("granted");
    let other = Packet { message: Message::Heartbeat, seq: 0 };
    assert!(relay.on_first(&other, &gui.host).is_none());
    relay.release(&mut gui.channel, &mut gui.slots);
    assert!(gui.wire.is_empty());
    assert_eq!(gui.channel.current_owner(), ShellOwner::Idle);
    assert!(!gui.slots.exec_slot);
}

#[test]
fn foreign_confirmation_does_not_end_a_console() {
    let mut gui = Gui::new(dual_host_info());
    let relay = gui.console(80, 24).expect("granted");
    for quiet in [
        Received::Event(ExecEvent::ShellClosed),
        Received::Event(ExecEvent::Idle),
        Received::Timeout,
    ] {
        assert_eq!(relay.on_event(quiet), PumpAction::Continue);
    }
    assert_eq!(relay.on_event(Received::Disconnected), PumpAction::End);
    assert_eq!(relay.on_term_packet(Packet { message: Message::ShellClose, seq: 4 }), TermAction::Stop);
    assert_eq!(
        relay.on_term_packet(Packet { message: Message::ShellInput { data: vec![1] }, seq: 4 }),
        TermAction::Forward(Packet { message: Message::PtyInput { data: vec![1] }, seq: 4 })
    );
    let open = Message::ShellOpen { shell: String::new() };
    assert_eq!(relay.on_term_packet(Packet { message: open, seq: 0 }), TermAction::Ignore);
}

#[test]
fn e2e_interactive_round_trip_through_acceptor() {
    let mut gui = Gui::new(populated_host_info());
    let relay = gui.console(120, 40).expect("granted");
    gui.open(&relay);
    match gui.next_wire() {
        Message::ShellOpenPty { shell, cols, rows } => {
            assert_eq!(shell, "pwsh");
            assert_eq!(cols, 120);
            assert_eq!(rows, 40);
        }
        other => panic!("expected ShellOpenPty after handshake, got {other:?}"),
    }
    assert_eq!(gui.channel.current_owner(), ShellOwner::Interactive);
    gui.term(&relay, Message::Heartbeat);
    gui.term(&relay, Message::ShellInput { data: b"echo hi\r".to_vec() });
    gui.term(&relay, Message::PtyResize { cols: 100, rows: 30 });
    match gui.next_wire() {
        Message::ShellInput { data } => assert_eq!(data, b"echo hi\r"),
        other => panic!("expected forwarded ShellInput, got {other:?}"),
    }
    assert!(matches!(gui.next_wire(), Message::PtyResize { cols: 100, rows: 30 }));
    assert!(gui.slots.exec_slot);
    match relay.on_event(Received::Event(ExecEvent::ShellOutput(b"hi\r\n".to_vec()))) {
        PumpAction::Write(p) => assert_eq!(p.message, Message::ShellOutput { data: b"hi\r\n".to_vec() }),
        other => panic!("expected ShellOutput, got {other:?}"),
    }
    assert!(matches!(
        relay.on_event(Received::Event(ExecEvent::ShellExit(0))),
        PumpAction::WriteAndEnd(Packet { message: Message::ShellExit { code: 0 }, .. })
    ));
    gui.teardown(relay);
    assert!(matches!(gui.next_wire(), Message::ShellClose));
    assert_eq!(gui.channel.current_owner(), ShellOwner::Idle);
}

#[test]
fn e2e_second_interactive_connect_is_busy() {
    let mut gui = Gui::new(populated_host_info());
    let c1 = gui.console(80, 24).expect("granted");
    gui.open(&c1);
    assert!(matches!(gui.next_wire(), Message::ShellOpenPty { .. }));
    assert_eq!(gui.channel.current_owner(), ShellOwner::Interactive);
    let (_, msg) = refusal(gui.console(80, 24));
    assert!(msg.contains("busy"), "msg: {msg}");
    assert!(!gui.term(&c1, Message::Disconnect));
    gui.teardown(c1);
    assert!(matches!(gui.next_wire(), Message::ShellClose));
    assert!(gui.wire.is_empty(), "refused session must not queue any packet on the wire");
    assert_eq!(gui.channel.current_owner(), ShellOwner::Idle);
}

#[test]
fn e2e_channel_reusable_after_teardown() {
    let mut gui = Gui::new(populated_host_info());
    let c1 = gui.console(80, 24).expect("granted");
    gui.open(&c1);
    assert!(matches!(gui.next_wire(), Message::ShellOpenPty { .. }));
    gui.teardown(c1);
    assert!(matches!(gui.next_wire(), Message::ShellClose));
    assert_eq!(gui.channel.current_owner(), ShellOwner::Idle);

    let c2 = gui.console(80, 24).expect("granted again");
    gui.open(&c2);
    assert!(matches!(gui.next_wire(), Message::ShellOpenPty { .. }));
    assert_eq!(gui.channel.current_owner(), ShellOwner::Interactive);
    assert!(
        !gui.channel.try_acquire(ShellOwner::Exec, false),
        "second session must exclusively hold the channel"
    );
    gui.teardown(c2);
    assert!(matches!(gui.next_wire(), Message::ShellClose));
    assert_eq!(gui.channel.current_owner(), ShellOwner::Idle);
}

#[test]
fn e2e_interactive_and_exec_run_concurrently_on_a_dual_host() {
    let mut gui = Gui::new(dual_host_info());
    let console = gui.console(80, 24).expect("granted");
    gui.open(&console);
    assert!(matches!(gui.next_wire(), Message::PtyOpen { .. }));
    assert_eq!(gui.channel.current_owner(), ShellOwner::Interactive);

    let (run, reply) = gui.begin_run();
    assert_eq!(reply, IpcResponse::Stdout(Vec::new()));
    assert_eq!(gui.finish_run(run, 0), IpcResponse::Exit(0));
    assert!(matches!(gui.next_wire(), Message::ShellOpen { .. }));
    assert!(matches!(gui.next_wire(), Message::ShellClose));

    assert_eq!(route(&gui.slots, SlotKind::Pty), Some(SlotKind::Pty), "the console is untouched");
    match console.on_event(Received::Event(ExecEvent::ShellOutput(b"prompt>".to_vec()))) {
        PumpAction::Write(p) => assert_eq!(p.message, Message::ShellOutput { data: b"prompt>".to_vec() }),
        other => panic!("expected console output, got {other:?}"),
    }
    assert!(!gui.term(&console, Message::Disconnect));
    gui.teardown(console);
    assert!(matches!(gui.next_wire(), Message::PtyClose));
    assert_eq!(gui.channel.current_owner(), ShellOwner::Idle);
}

#[test]
fn e2e_exec_is_refused_while_a_legacy_host_console_is_open() {
    let mut gui = Gui::new(populated_host_info());
    let console = gui.console(80, 24).expect("granted");
    gui.open(&console);
    gui.next_wire();
    let (_, reply) = gui.begin_run();
    match reply {
        IpcResponse::TransportUnavailable(m) => assert!(m.contains("busy"), "msg: {m}"),
        other => panic!("expected a transport-class refusal, got {other:?}"),
    }
    assert!(gui.wire.is_empty(), "a refused exec must not queue any packet");
    gui.teardown(console);
    assert!(matches!(gui.next_wire(), Message::ShellClose));
    assert_eq!(gui.channel.current_owner(), ShellOwner::Idle);
}

#[test]
fn e2e_second_interactive_connect_is_busy_on_a_dual_host() {
    let mut gui = Gui::new(dual_host_info());
    let c1 = gui.console(80, 24).expect("granted");
    gui.open(&c1);
    gui.next_wire();
    let (_, msg) = refusal(gui.console(80, 24));
    assert!(msg.contains("busy"), "msg: {msg}");
    gui.teardown(c1);
    assert!(matches!(gui.next_wire(), Message::PtyClose));
    assert!(gui.wire.is_empty());
    assert_eq!(gui.channel.current_owner(), ShellOwner::Idle);
}

#[test]
fn e2e_console_stdin_is_readdressed_on_a_dual_host() {
    let mut gui = Gui::new(dual_host_info());
    let console = gui.console(80, 24).expect("granted");
    gui.open(&console);
    gui.next_wire();
    gui.term(&console, Message::ShellInput { data: b"echo hi\r".to_vec() });
    gui.term(&console, Message::PtyResize { cols: 100, rows: 30 });
    match gui.next_wire() {
        Message::PtyInput { data } => assert_eq!(data, b"echo hi\r"),
        other => panic!("console stdin must travel as PtyInput, got {other:?}"),
    }
    assert!(matches!(gui.next_wire(), Message::PtyResize { cols: 100, rows: 30 }));
    gui.teardown(console);
    assert!(matches!(gui.next_wire(), Message::PtyClose));
    assert_eq!(gui.channel.current_owner(), ShellOwner::Idle);
}
