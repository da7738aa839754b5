use wiredesk_client::exec_bridge::{route, ExecEvent, ExecSlotGuard, ShellSlots, SlotKind};
use wiredesk_client::shell_channel::{ShellChannel, ShellOwner};

/// Both queues, as the sessions would see them.
#[derive(Default)]
struct Queues {
    command: Vec<ExecEvent>,
    console: Vec<ExecEvent>,
}

impl Queues {
    fn route(&mut self, slots: &ShellSlots, kind: SlotKind, event: ExecEvent) {
        match route(slots, kind) {
            Some(SlotKind::Exec) => self.command.push(event),
            Some(SlotKind::Pty) => self.console.push(event),
            None => {}
        }
    }
}

fn legacy_slots() -> ShellSlots {
    let mut slots = ShellSlots::new();
    slots.legacy_fallback = true;
    slots
}

#[test]
fn routing_into_empty_slots_is_a_noop() {
    for slots in [ShellSlots::new(), legacy_slots()] {
        assert_eq!(route(&slots, SlotKind::Exec), None);
        assert_eq!(route(&slots, SlotKind::Pty), None);
    }
}

#[test]
fn install_then_route_reaches_the_addressed_consumer() {
    let mut slots = ShellSlots::new();
    let mut q = Queues::default();
    let guard = ExecSlotGuard::install(&mut slots, SlotKind::Exec);

    q.route(&slots, SlotKind::Exec, ExecEvent::ShellOutput(b"data".to_vec()));
    q.route(&slots, SlotKind::Exec, ExecEvent::ShellExit(7));

    assert_eq!(q.command, vec![ExecEvent::ShellOutput(b"data".to_vec()), ExecEvent::ShellExit(7)]);
    guard.release(&mut slots);
    assert_eq!(route(&slots, SlotKind::Exec), None);
}

#[test]
fn each_consumer_only_gets_what_is_addressed_to_it() {
    let mut slots = ShellSlots::new();
    let mut q = Queues::default();
    let _eg = ExecSlotGuard::install(&mut slots, SlotKind::Exec);
    let _pg = ExecSlotGuard::install(&mut slots, SlotKind::Pty);

    q.route(&slots, SlotKind::Exec, ExecEvent::ShellOutput(b"e".to_vec()));
    q.route(&slots, SlotKind::Pty, ExecEvent::ShellOutput(b"p".to_vec()));

    assert_eq!(q.command, vec![ExecEvent::ShellOutput(b"e".to_vec())]);
    assert_eq!(q.console, vec![ExecEvent::ShellOutput(b"p".to_vec())]);
}

#[test]
fn legacy_host_falls_back_to_whichever_consumer_is_there() {
    let mut slots = legacy_slots();
    let mut q = Queues::default();
    let _pg = ExecSlotGuard::install(&mut slots, SlotKind::Pty);

    q.route(&slots, SlotKind::Exec, ExecEvent::ShellOutput(b"hi".to_vec()));
    assert_eq!(
        q.console,
        vec![ExecEvent::ShellOutput(b"hi".to_vec())],
        "legacy console must receive Shell*-addressed output"
    );
}

#[test]
fn dual_mode_never_falls_back() {
    let mut slots = ShellSlots::new();
    let mut q = Queues::default();
    assert!(!slots.legacy_fallback, "strict by default");
    let _pg = ExecSlotGuard::install(&mut slots, SlotKind::Pty);

    q.route(&slots, SlotKind::Exec, ExecEvent::ShellExit(0));
    q.route(&slots, SlotKind::Exec, ExecEvent::ShellClosed);
    assert!(q.console.is_empty(), "a stray exec event must never reach the console");
}

#[test]
fn any_installed_tracks_both_slots() {
    let mut slots = ShellSlots::new();
    assert!(!slots.any_installed());
    let g = ExecSlotGuard::install(&mut slots, SlotKind::Pty);
    assert!(slots.any_installed(), "an open console counts");
    g.release(&mut slots);
    assert!(!slots.any_installed());
}

#[test]
fn drop_clears_slot() {
    let mut slots = ShellSlots::new();
    let guard = ExecSlotGuard::install(&mut slots, SlotKind::Exec);
    assert!(slots.exec_slot, "slot installed");
    guard.release(&mut slots);
    assert!(!slots.exec_slot, "slot cleared on drop");
}

#[test]
fn sender_disconnected_mid_stream_keeps_reader_alive() {
    // Whoever is registered gets the event, whether or not it still listens:
    // even on a legacy host nothing spills over.
    let mut slots = legacy_slots();
    let mut q = Queues::default();
    let _guard = ExecSlotGuard::install(&mut slots, SlotKind::Exec);
    let _pg = ExecSlotGuard::install(&mut slots, SlotKind::Pty);
    for _ in 0..3 {
        q.route(&slots, SlotKind::Exec, ExecEvent::ShellOutput(b"x".to_vec()));
    }
    q.route(&slots, SlotKind::Exec, ExecEvent::ShellExit(1));
    assert!(q.console.is_empty(), "a dead receiver is not an empty slot");
}

#[test]
fn re_install_after_drop_routes_to_new_sender() {
    let mut slots = ShellSlots::new();

    let mut run1 = Queues::default();
    let g = ExecSlotGuard::install(&mut slots, SlotKind::Exec);
    run1.route(&slots, SlotKind::Exec, ExecEvent::ShellExit(0));
    g.release(&mut slots);
    assert_eq!(run1.command, vec![ExecEvent::ShellExit(0)]);
    assert!(!slots.exec_slot);

    let mut run2 = Queues::default();
    let g = ExecSlotGuard::install(&mut slots, SlotKind::Exec);
    run2.route(&slots, SlotKind::Exec, ExecEvent::ShellExit(1));
    g.release(&mut slots);
    assert_eq!(run2.command, vec![ExecEvent::ShellExit(1)]);
    assert_eq!(run1.command.len(), 1);
}

#[test]
fn lost_link_forgets_the_generation() {
    let mut slots = legacy_slots();
    let _pg = ExecSlotGuard::install(&mut slots, SlotKind::Pty);
    slots.forget_host_generation();
    assert!(!slots.legacy_fallback);
    assert!(slots.pty_slot, "the session itself stays registered");
    assert_eq!(slots, ShellSlots { exec_slot: false, pty_slot: true, legacy_fallback: false });
    assert_eq!(ShellSlots::default(), ShellSlots::new());
}

#[test]
fn commands_share_the_channel() {
    let mut c = ShellChannel::new();
    assert_eq!(c.current_owner(), ShellOwner::Idle);
    assert!(c.try_acquire(ShellOwner::Exec, false));
    assert!(c.try_acquire(ShellOwner::Exec, false));
    assert_eq!(c.current_owner(), ShellOwner::Exec);
    c.release(ShellOwner::Exec);
    assert_eq!(c.current_owner(), ShellOwner::Exec, "the queued one still holds it");
    assert!(!c.try_acquire(ShellOwner::Interactive, false));
    c.release(ShellOwner::Exec);
    assert_eq!(c.current_owner(), ShellOwner::Idle);
    assert!(c.try_acquire(ShellOwner::Interactive, false));
}

#[test]
fn console_excludes_commands_only_on_a_legacy_host() {
    let mut c = ShellChannel::new();
    assert!(c.try_acquire(ShellOwner::Interactive, false));
    assert!(!c.try_acquire(ShellOwner::Exec, false));
    assert!(c.try_acquire(ShellOwner::Exec, true));
    assert_eq!(c.current_owner(), ShellOwner::Interactive, "a console counts before commands");
    assert!(!c.try_acquire(ShellOwner::Interactive, true), "never a second console");
    assert!(!c.try_acquire(ShellOwner::Idle, true));
    c.release(ShellOwner::Interactive);
    assert_eq!(c.current_owner(), ShellOwner::Exec);
}
