use wiredesk_client::app::TransportEvent;
use wiredesk_client::clipboard::clip_file::FileCaps;
use wiredesk_client::clipboard::incoming::Delivery;
use wiredesk_client::clipboard::outgoing::emit_offer_and_chunks;
use wiredesk_client::clipboard::png::{encode_rgba_to_png, RgbaImage};
use wiredesk_client::clipboard::{hash_bytes, hash_text, CHUNK_SIZE};
use wiredesk_client::exec_bridge::{ExecEvent, SlotKind};
use wiredesk_client::link::reader::{
    classify_failure, Reader, ReaderOutput, RecvFailure, StormCounter, RECV_TIMEOUT_BUSY_MS,
    RECV_TIMEOUT_IDLE_MS,
};
use wiredesk_client::link::supervisor::{
    backoff_delay, Supervisor, SupervisorAction, SupervisorEvent, SupervisorOutput,
};
use wiredesk_client::link::writer::{Writer, HEARTBEAT_INTERVAL_MS};
use wiredesk_client::link::{HostInfo, LinkContext};
use wiredesk_client::protocol::{Message, Packet, FORMAT_FILE, FORMAT_PNG_IMAGE, FORMAT_TEXT_UTF8};

const STORM: u32 = 10;
const VERSION: u8 = 1;
const PTY_SINCE: u8 = 2;

fn test_ctx() -> LinkContext {
    let caps = FileCaps { max_file_bytes: 20 * 1024 * 1024, max_filename_len: 255 };
    LinkContext::new("test".to_string(), VERSION, PTY_SINCE, true, true, true, caps)
}

fn reader(now_ms: u64) -> Reader {
    Reader::new(now_ms, STORM, RECV_TIMEOUT_IDLE_MS, RECV_TIMEOUT_BUSY_MS)
}

fn hello_ack() -> Message {
    Message::HelloAck {
        version: VERSION,
        host_name: "test-host".to_string(),
        screen_w: 100,
        screen_h: 100,
    }
}

fn bad_frame(r: &mut Reader, ctx: &mut LinkContext) -> ReaderOutput {
    r.on_failure(ctx, "scripted bad frame".to_string(), true, 0)
}

fn silence(r: &mut Reader, ctx: &mut LinkContext, now_ms: u64) -> ReaderOutput {
    r.on_failure(ctx, "recv timeout".to_string(), false, now_ms)
}

fn reason(out: &ReaderOutput) -> String {
    match &out.event {
        Some(TransportEvent::Disconnected(reason)) => reason.clone(),
        other => panic!("expected Disconnected, got {other:?}"),
    }
}

fn nothing(out: &ReaderOutput) -> bool {
    !out.stop
        && out.event.is_none()
        && out.send.is_none()
        && out.shell.is_none()
        && out.delivery.is_none()
}

#[test]
fn backoff_schedule_runs_up_to_thirty_seconds() {
    let delays: Vec<u64> = (0..=7).map(backoff_delay).collect();
    assert_eq!(delays, vec![1, 1, 2, 4, 8, 16, 30, 30]);
    assert_eq!(backoff_delay(u32::MAX), 30);
}

#[test]
fn reader_storm_emits_disconnect_after_threshold() {
    let mut ctx = test_ctx();
    let mut r = reader(0);
    for _ in 0..STORM - 1 {
        assert!(nothing(&bad_frame(&mut r, &mut ctx)));
    }
    let out = bad_frame(&mut r, &mut ctx);
    assert!(out.stop);
    assert!(reason(&out).contains("frame-error storm"), "reason: {}", reason(&out));
    assert_eq!(reason(&out), "frame-error storm — reopening port");
}

#[test]
fn reader_below_threshold_does_not_disconnect() {
    let mut ctx = test_ctx();
    let mut r = reader(0);
    for _ in 0..STORM - 1 {
        assert!(nothing(&bad_frame(&mut r, &mut ctx)));
    }
    let out = r.on_message(&mut ctx, Message::Heartbeat, 0);
    assert_eq!(out.event, Some(TransportEvent::Heartbeat));
    assert!(!out.stop);
}

#[test]
fn reader_fatal_error_emits_disconnect() {
    let mut ctx = test_ctx();
    let mut r = reader(0);
    let out = r.on_failure(&mut ctx, "transport: scripted fatal".to_string(), false, 0);
    assert!(out.stop);
    assert!(reason(&out).contains("scripted fatal"), "reason: {}", reason(&out));
}

#[test]
fn reader_valid_packet_resets_storm() {
    let mut ctx = test_ctx();
    let mut r = reader(0);
    for _ in 0..STORM - 1 {
        assert!(nothing(&bad_frame(&mut r, &mut ctx)));
    }
    let out = r.on_message(&mut ctx, Message::Heartbeat, 0);
    assert!(matches!(out.event, Some(TransportEvent::Heartbeat)));
    for _ in 0..STORM - 1 {
        assert!(nothing(&bad_frame(&mut r, &mut ctx)), "unexpected event after reset");
    }
}

#[test]
fn silence_does_not_end_a_run_of_damaged_frames() {
    let mut ctx = test_ctx();
    let mut r = reader(0);
    for _ in 0..STORM - 1 {
        assert!(nothing(&bad_frame(&mut r, &mut ctx)));
        assert!(nothing(&silence(&mut r, &mut ctx, 10)));
    }
    assert!(bad_frame(&mut r, &mut ctx).stop);
}

#[test]
fn storm_counter_counts_in_a_row() {
    let mut s = StormCounter::new(3);
    assert!(!s.on_protocol_error());
    assert!(!s.on_protocol_error());
    s.on_valid_packet();
    assert!(!s.on_protocol_error());
    assert!(!s.on_protocol_error());
    assert!(s.on_protocol_error());
    assert_eq!(s.count, 3);
}

#[test]
fn failures_are_told_apart() {
    assert_eq!(classify_failure("recv timeout", false), RecvFailure::Timeout);
    assert_eq!(classify_failure("protocol: timeout in frame", true), RecvFailure::Timeout);
    assert_eq!(classify_failure("bad crc", true), RecvFailure::BadFrame);
    assert_eq!(classify_failure("device gone", false), RecvFailure::Fatal);
}

#[test]
fn transfer_in_flight_reflects_counters() {
    let mut ctx = test_ctx();
    assert!(!ctx.transfer_in_flight());
    ctx.outgoing_total = 100;
    ctx.outgoing_progress = 10;
    assert!(ctx.transfer_in_flight());
    ctx.outgoing_progress = 100;
    assert!(!ctx.transfer_in_flight());
    ctx.incoming.incoming_total = 50;
    ctx.incoming.incoming_progress = 0;
    assert!(ctx.transfer_in_flight());
}

#[test]
fn open_shell_counts_as_busy() {
    let mut ctx = test_ctx();
    ctx.slots.pty_slot = true;
    assert!(ctx.transfer_in_flight());
}

#[test]
fn reader_idle_timeout_emits_disconnect() {
    let mut ctx = test_ctx();
    let mut r = Reader::new(0, STORM, 40, 30000);
    assert!(nothing(&silence(&mut r, &mut ctx, 39)));
    let out = silence(&mut r, &mut ctx, 40);
    assert!(out.stop);
    assert!(reason(&out).contains("host link lost"), "reason: {}", reason(&out));
}

#[test]
fn reader_busy_budget_suppresses_idle_disconnect() {
    let mut ctx = test_ctx();
    ctx.outgoing_total = 1000;
    ctx.outgoing_progress = 1;
    let mut r = Reader::new(0, STORM, 20, 30000);
    assert!(nothing(&silence(&mut r, &mut ctx, 200)));
    assert!(nothing(&silence(&mut r, &mut ctx, 29999)));
    assert!(silence(&mut r, &mut ctx, 30000).stop);
}

#[test]
fn packet_keeps_the_link_alive() {
    let mut ctx = test_ctx();
    let mut r = reader(0);
    r.on_message(&mut ctx, Message::Heartbeat, 5000);
    assert!(nothing(&silence(&mut r, &mut ctx, 10999)));
    assert!(silence(&mut r, &mut ctx, 11000).stop);
}

#[test]
fn link_up_requires_handshake_not_just_spawn() {
    let mut ctx = test_ctx();
    let mut r = reader(0);
    assert!(nothing(&silence(&mut r, &mut ctx, 50)));
    assert!(!ctx.link_up, "link_up must not raise before the handshake completes");

    let out = r.on_message(&mut ctx, hello_ack(), 60);
    assert_eq!(
        out.event,
        Some(TransportEvent::Connected {
            host_name: "test-host".to_string(),
            screen_w: 100,
            screen_h: 100
        })
    );
    assert!(ctx.link_up, "link_up must raise on HelloAck");
    assert!(r.on_message(&mut ctx, Message::Disconnect, 70).stop);
    assert!(!ctx.link_up, "link_up must clear when the reader exits");
}

#[test]
fn ended_reader_leaves_the_link_down() {
    // By a wire that fails, by silence, and by a storm of bad frames.
    for way in 0..3 {
        let mut ctx = test_ctx();
        let mut r = reader(0);
        r.on_message(&mut ctx, hello_ack(), 0);
        assert!(ctx.link_up && ctx.host_info.is_some() && ctx.slots.legacy_fallback);
        let out = match way {
            0 => r.on_failure(&mut ctx, "port is gone".to_string(), false, 1),
            1 => silence(&mut r, &mut ctx, 60_000),
            _ => {
                let mut out = bad_frame(&mut r, &mut ctx);
                while !out.stop {
                    assert!(ctx.link_up, "a bad frame alone ends nothing");
                    out = bad_frame(&mut r, &mut ctx);
                }
                out
            }
        };
        assert!(out.stop);
        assert!(!ctx.link_up && !ctx.slots.legacy_fallback);
        assert_eq!(ctx.host_info, None);
    }
}

#[test]
fn reader_caches_host_info_on_hello_ack() {
    let mut ctx = test_ctx();
    let mut r = reader(0);
    r.on_message(&mut ctx, hello_ack(), 0);
    assert_eq!(
        ctx.host_info,
        Some(HostInfo {
            host_name: "test-host".to_string(),
            screen_w: 100,
            screen_h: 100,
            proto_version: VERSION,
        })
    );
    assert!(ctx.slots.legacy_fallback, "this host has one shell");
    r.on_message(
        &mut ctx,
        Message::HelloAck {
            version: PTY_SINCE,
            host_name: "newer".to_string(),
            screen_w: 1,
            screen_h: 1,
        },
        0,
    );
    assert!(!ctx.slots.legacy_fallback, "this one has two");
}

#[test]
fn reader_clears_host_info_on_disconnect() {
    let mut ctx = test_ctx();
    let mut r = reader(0);
    r.on_message(&mut ctx, hello_ack(), 0);
    let out = r.on_message(&mut ctx, Message::Disconnect, 1);
    assert!(out.stop);
    assert_eq!(reason(&out), "host disconnected");
    assert_eq!(ctx.host_info, None);
}

#[test]
fn ended_session_forgets_what_was_sent() {
    let mut ctx = test_ctx();
    let mut r = reader(0);
    ctx.clipboard_state.set_text(hash_text("x"));
    ctx.outgoing_progress = 5;
    ctx.outgoing_total = 9;
    r.on_message(&mut ctx, Message::ClipOffer { format: FORMAT_TEXT_UTF8, total_len: 3 }, 0);
    assert_eq!(ctx.incoming.expected_len, 3);
    r.on_message(&mut ctx, Message::Disconnect, 1);
    assert!(!ctx.clipboard_state.get().matches_text_hash(hash_text("x")));
    assert_eq!((ctx.outgoing_progress, ctx.outgoing_total), (0, 0));
    assert_eq!(ctx.incoming.expected_len, 0);
}

#[test]
fn copied_text_appears_on_the_other_side() {
    let mut ctx = test_ctx();
    let mut r = reader(0);
    let text = "привет, ".repeat(400);
    let mut wire: Vec<Packet> = Vec::new();
    emit_offer_and_chunks(&mut wire, FORMAT_TEXT_UTF8, text.as_bytes());
    assert!(wire.len() > 2, "more than one chunk");
    let mut got: Vec<Delivery> = Vec::new();
    for p in wire {
        if let Some(d) = r.on_message(&mut ctx, p.message, 0).delivery {
            got.push(d);
        }
        let between = r.on_message(&mut ctx, Message::Heartbeat, 0);
        assert!(between.delivery.is_none());
    }
    assert_eq!(got.len(), 1);
    match &got[0] {
        Delivery::Text { text: t, hash } => {
            assert_eq!(*t, text);
            assert_eq!(*hash, hash_text(&text));
        }
        other => panic!("expected text, got {other:?}"),
    }
}

#[test]
fn refused_offer_is_declined_and_its_chunks_dropped() {
    let mut ctx = test_ctx();
    ctx.incoming.receive_images = false;
    let mut r = reader(0);
    let out =
        r.on_message(&mut ctx, Message::ClipOffer { format: FORMAT_PNG_IMAGE, total_len: 5 }, 0);
    assert_eq!(
        out.send,
        Some(Packet { message: Message::ClipDecline { format: FORMAT_PNG_IMAGE }, seq: 0 })
    );
    let out = r.on_message(&mut ctx, Message::ClipChunk { index: 0, data: vec![0; 5] }, 0);
    assert!(nothing(&out));
}

#[test]
fn cancelled_arrival_is_dropped_until_the_next_offer() {
    let mut ctx = test_ctx();
    let mut r = reader(0);
    let total = 2 * CHUNK_SIZE as u32;
    r.on_message(&mut ctx, Message::ClipOffer { format: FORMAT_TEXT_UTF8, total_len: total }, 0);
    let full = vec![b'a'; CHUNK_SIZE];
    r.on_message(&mut ctx, Message::ClipChunk { index: 0, data: full.clone() }, 0);
    ctx.cancel_incoming();
    let out = r.on_message(&mut ctx, Message::ClipChunk { index: 1, data: full }, 0);
    assert!(nothing(&out));
    assert_eq!(r.cancel_drop_count, 1);
    assert_eq!(ctx.incoming.expected_len, 0, "nothing is awaited any more");
    r.on_message(&mut ctx, Message::ClipOffer { format: FORMAT_TEXT_UTF8, total_len: 2 }, 0);
    assert!(!ctx.incoming_cancel);
    let out = r.on_message(&mut ctx, Message::ClipChunk { index: 0, data: b"ok".to_vec() }, 0);
    assert!(matches!(out.delivery, Some(Delivery::Text { ref text, .. }) if text == "ok"));
}

#[test]
fn declined_transfer_is_announced_and_cancelled() {
    let mut ctx = test_ctx();
    let mut r = reader(0);
    ctx.current_outgoing_label = "report.pdf".to_string();
    let out = r.on_message(&mut ctx, Message::ClipDecline { format: FORMAT_FILE }, 0);
    assert!(matches!(out.event, Some(TransportEvent::Toast(_))));
    assert!(ctx.outgoing_cancel);
    assert_eq!(ctx.current_outgoing_label, "");
}

#[test]
fn shell_events_go_to_the_registered_session() {
    let mut ctx = test_ctx();
    let mut r = reader(0);
    let output = Message::ShellOutput { data: b"hi".to_vec() };
    assert!(nothing(&r.on_message(&mut ctx, output.clone(), 0)));
    ctx.slots.exec_slot = true;
    let out = r.on_message(&mut ctx, output, 0);
    assert_eq!(out.shell, Some((SlotKind::Exec, ExecEvent::ShellOutput(b"hi".to_vec()))));
    let out = r.on_message(&mut ctx, Message::ShellExit { code: 3 }, 0);
    assert_eq!(out.shell, Some((SlotKind::Exec, ExecEvent::ShellExit(3))));
    let shell_error = Message::Error { code: 1, msg: "shell already open".to_string() };
    let out = r.on_message(&mut ctx, shell_error, 0);
    assert_eq!(
        out.shell,
        Some((SlotKind::Exec, ExecEvent::HostError("shell already open".to_string())))
    );
    let other = Message::Error { code: 1, msg: "something else".to_string() };
    assert!(nothing(&r.on_message(&mut ctx, other, 0)));
}

#[test]
fn writer_greets_and_beats() {
    let ctx = test_ctx();
    assert_eq!(
        Writer::hello(&ctx),
        Packet {
            message: Message::Hello { version: VERSION, client_name: "test".to_string() },
            seq: 0
        }
    );
    let mut w = Writer::new(1000);
    assert_eq!(w.wait_ms(1000), HEARTBEAT_INTERVAL_MS);
    assert_eq!(w.wait_ms(2500), 500);
    assert_eq!(w.wait_ms(9000), 1);
    assert!(!w.heartbeat_due(2999));
    assert!(w.heartbeat_due(3000));
    assert_eq!(Writer::heartbeat().message, Message::Heartbeat);
    w.heartbeat_sent(3000);
    assert!(!w.heartbeat_due(3001));
}

#[test]
fn writer_drops_a_cancelled_transfer_and_nothing_else() {
    let mut ctx = test_ctx();
    let mut w = Writer::new(0);
    let offer = Packet { message: Message::ClipOffer { format: 0, total_len: 9 }, seq: 0 };
    let key = Packet { message: Message::KeyDown { scancode: 1, modifiers: 0 }, seq: 0 };
    assert!(w.on_packet(&mut ctx, &offer));
    Writer::on_sent(&mut ctx, &offer);
    assert_eq!(ctx.outgoing_total, 9);
    ctx.cancel_outgoing();
    assert_eq!(ctx.outgoing_total, 0);
    assert!(!w.on_packet(&mut ctx, &offer));
    assert!(!w.on_packet(&mut ctx, &offer));
    assert_eq!(w.cancel_drop_count, 2);
    assert!(w.on_packet(&mut ctx, &key), "a key goes out and ends the sweep");
    assert!(!ctx.outgoing_cancel);
    assert!(w.on_packet(&mut ctx, &offer));
}

#[test]
fn idle_queue_ends_a_cancelled_transfer() {
    let mut ctx = test_ctx();
    let mut w = Writer::new(0);
    ctx.cancel_outgoing();
    w.on_idle(&mut ctx);
    assert!(!ctx.outgoing_cancel);
    assert!(!w.cancel_active);
}

#[test]
fn writer_failure_marks_the_link_down() {
    let mut ctx = test_ctx();
    ctx.link_up = true;
    let e = Writer::send_failed(&mut ctx, "scripted send failure".to_string());
    assert_eq!(e, TransportEvent::Disconnected("scripted send failure".to_string()));
    assert!(!ctx.link_up);
}

#[test]
fn supervisor_opens_again_once_the_queue_is_back() {
    let mut ctx = test_ctx();
    let mut s = Supervisor::new();
    s.step(&mut ctx, SupervisorEvent::Request);
    s.step(&mut ctx, SupervisorEvent::Opened);
    assert_eq!(s.step(&mut ctx, SupervisorEvent::Cloned).action, SupervisorAction::Spawn);
    assert!(!s.has_queue);
    assert_eq!(s.step(&mut ctx, SupervisorEvent::Request).action, SupervisorAction::TearDown);
    let out = s.step(&mut ctx, SupervisorEvent::TornDown { queue_back: true });
    assert_eq!(out.action, SupervisorAction::Open);
}

#[test]
fn lost_queue_stops_the_supervisor() {
    let mut ctx = test_ctx();
    let mut s = Supervisor::new();
    s.step(&mut ctx, SupervisorEvent::Request);
    s.step(&mut ctx, SupervisorEvent::Opened);
    s.step(&mut ctx, SupervisorEvent::Cloned);
    s.step(&mut ctx, SupervisorEvent::Request);
    let out = s.step(&mut ctx, SupervisorEvent::TornDown { queue_back: false });
    assert_eq!(out.action, SupervisorAction::Stop);
}

#[test]
fn supervisor_retries_then_links_up() {
    let mut ctx = test_ctx();
    let mut s = Supervisor::new();
    let mut attempts = Vec::new();
    let mut out = s.step(&mut ctx, SupervisorEvent::Request);
    let mut calls = 0u32;
    loop {
        match out.action {
            SupervisorAction::Open => {
                match out.event {
                    Some(TransportEvent::Reconnecting { attempt }) => attempts.push(attempt),
                    other => panic!("expected Reconnecting, got {other:?}"),
                }
                calls += 1;
                let event = if calls < 3 {
                    SupervisorEvent::OpenFailed
                } else {
                    SupervisorEvent::Opened
                };
                out = s.step(&mut ctx, event);
            }
            SupervisorAction::Sleep { secs } => {
                assert_eq!(secs, backoff_delay(calls));
                out = s.step(&mut ctx, SupervisorEvent::Waited);
            }
            SupervisorAction::Clone => out = s.step(&mut ctx, SupervisorEvent::Cloned),
            SupervisorAction::Spawn => break,
            other => panic!("unexpected {other:?}"),
        }
    }
    assert_eq!(attempts, vec![1, 2, 3]);
    assert!(!ctx.link_up, "an open port alone must not raise the flag");
    reader(0).on_message(&mut ctx, hello_ack(), 0);
    assert!(ctx.link_up);
}

#[test]
fn supervisor_reconnects_live_link_without_deadlock() {
    let mut ctx = test_ctx();
    let mut s = Supervisor::new();
    s.step(&mut ctx, SupervisorEvent::Request);
    s.step(&mut ctx, SupervisorEvent::Opened);
    s.step(&mut ctx, SupervisorEvent::Cloned);
    reader(0).on_message(&mut ctx, hello_ack(), 0);
    assert!(ctx.link_up);
    let out = s.step(&mut ctx, SupervisorEvent::Request);
    assert_eq!(out, SupervisorOutput { action: SupervisorAction::TearDown, event: None });
    assert!(!ctx.link_up, "no new shell sessions while the old link ends");
    assert_eq!(ctx.host_info, None);
    let out = s.step(&mut ctx, SupervisorEvent::TornDown { queue_back: true });
    assert_eq!(out.event, Some(TransportEvent::Reconnecting { attempt: 1 }));
    s.step(&mut ctx, SupervisorEvent::Opened);
    assert_eq!(s.step(&mut ctx, SupervisorEvent::Cloned).action, SupervisorAction::Spawn);
}

#[test]
fn supervisor_honors_request_from_instantly_dead_link() {
    let mut ctx = test_ctx();
    let mut s = Supervisor::new();
    s.step(&mut ctx, SupervisorEvent::Request);
    s.step(&mut ctx, SupervisorEvent::Opened);
    s.step(&mut ctx, SupervisorEvent::Cloned);
    // The greeting fails at once and the window asks again.
    Writer::send_failed(&mut ctx, "dead".to_string());
    assert_eq!(s.step(&mut ctx, SupervisorEvent::Request).action, SupervisorAction::TearDown);
    let out = s.step(&mut ctx, SupervisorEvent::TornDown { queue_back: true });
    assert!(matches!(out.event, Some(TransportEvent::Reconnecting { .. })));
}

#[test]
fn failed_clone_keeps_the_queue() {
    let mut ctx = test_ctx();
    let mut s = Supervisor::new();
    s.step(&mut ctx, SupervisorEvent::Request);
    s.step(&mut ctx, SupervisorEvent::Opened);
    let out = s.step(&mut ctx, SupervisorEvent::CloneFailed("busy".to_string()));
    assert_eq!(out.event, Some(TransportEvent::Disconnected("try_clone: busy".to_string())));
    assert_eq!(out.action, SupervisorAction::Wait);
    assert!(s.has_queue);
    assert_eq!(s.step(&mut ctx, SupervisorEvent::Request).action, SupervisorAction::Open);
}

#[test]
fn supervisor_stops_when_nobody_asks() {
    let mut ctx = test_ctx();
    let mut s = Supervisor::new();
    assert_eq!(s.step(&mut ctx, SupervisorEvent::RequestsClosed).action, SupervisorAction::Stop);
}

#[test]
fn copied_image_appears() {
    let mut bytes = Vec::new();
    for i in 0..64 * 64u32 {
        bytes.extend_from_slice(&[i as u8, (i >> 3) as u8, (i * 7) as u8, 0xFF]);
    }
    let image = RgbaImage { width: 64, height: 64, bytes };
    let png = encode_rgba_to_png(&image).unwrap();
    assert_ne!(png, image.bytes);
    let mut packets = Vec::new();
    emit_offer_and_chunks(&mut packets, FORMAT_PNG_IMAGE, &png);
    let mut ctx = test_ctx();
    let mut r = reader(0);
    let mut delivered = Vec::new();
    for packet in packets {
        delivered.extend(r.on_message(&mut ctx, packet.message, 1).delivery);
    }
    let hash = hash_bytes(&image.bytes);
    assert_eq!(delivered, [Delivery::Image { image, hash }]);
}

#[test]
fn shells_are_told_apart() {
    let mut ctx = test_ctx();
    let mut r = reader(0);
    let ack = Message::HelloAck {
        version: PTY_SINCE,
        host_name: "new".to_string(),
        screen_w: 1,
        screen_h: 1,
    };
    r.on_message(&mut ctx, ack, 1);
    ctx.slots.pty_slot = true;
    let out = r.on_message(&mut ctx, Message::PtyOutput { data: b"$ ".to_vec() }, 2);
    assert_eq!(out.shell, Some((SlotKind::Pty, ExecEvent::ShellOutput(b"$ ".to_vec()))));
    // Nobody runs a command: what its shell still says goes to nobody.
    assert_eq!(r.on_message(&mut ctx, Message::ShellExit { code: 0 }, 3).shell, None);
    assert_eq!(r.on_message(&mut ctx, Message::ShellClosed, 4).shell, None);
    ctx.slots.exec_slot = true;
    let out = r.on_message(&mut ctx, Message::ShellClosed, 5);
    assert_eq!(out.shell, Some((SlotKind::Exec, ExecEvent::ShellClosed)));
    let out = r.on_message(&mut ctx, Message::PtyExit { code: 3 }, 6);
    assert_eq!(out.shell, Some((SlotKind::Pty, ExecEvent::ShellExit(3))));
}

#[test]
fn text_sent_before_a_file_keeps_its_name() {
    let mut ctx = test_ctx();
    let mut packets = Vec::new();
    emit_offer_and_chunks(&mut packets, FORMAT_TEXT_UTF8, b"hello");
    emit_offer_and_chunks(&mut packets, FORMAT_FILE, b"file payload");
    ctx.current_outgoing_label = "a.pdf".to_string();
    for packet in &packets[..3] {
        Writer::on_sent(&mut ctx, packet);
        assert_eq!(ctx.current_outgoing_label, "a.pdf");
    }
    Writer::on_sent(&mut ctx, &packets[3]);
    assert_eq!(ctx.current_outgoing_label, "");
}

#[test]
fn nothing_outlives_its_link() {
    let mut ctx = test_ctx();
    let mut s = Supervisor::new();
    s.step(&mut ctx, SupervisorEvent::Request);
    s.step(&mut ctx, SupervisorEvent::Opened);
    s.step(&mut ctx, SupervisorEvent::Cloned);
    let mut packets = Vec::new();
    emit_offer_and_chunks(&mut packets, FORMAT_TEXT_UTF8, &[b'x'; CHUNK_SIZE + 1]);
    let mut first = reader(0);
    for packet in packets.drain(..2) {
        assert_eq!(first.on_message(&mut ctx, packet.message, 1).delivery, None);
    }
    s.step(&mut ctx, SupervisorEvent::Request);
    s.step(&mut ctx, SupervisorEvent::TornDown { queue_back: true });
    s.step(&mut ctx, SupervisorEvent::Opened);
    s.step(&mut ctx, SupervisorEvent::Cloned);
    let rest = packets.remove(0);
    assert_eq!(reader(2).on_message(&mut ctx, rest.message, 3).delivery, None);
    assert_eq!(ctx.incoming.expected_len, 0);
    assert!(ctx.incoming.received.is_empty());
}
