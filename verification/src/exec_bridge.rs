//! Where the host's shell output goes.
//!
//! A shell session on this machine (a one-shot command, or an interactive
//! console) registers for the events of its shell and is served until it ends.
//! There are two places to register, because a host has a shell for commands
//! and, in newer generations, another for a console.

use vstd::prelude::*;

verus! {

/// What a shell on the host did.
#[derive(Debug, Clone, PartialEq, Eq)]
pub enum ExecEvent {
    ShellOutput(Vec<u8>),
    ShellExit(i32),
    /// The host confirmed that the shell was closed.
    ShellClosed,
    HostError(String),
    /// Nothing happened for a while.
    Idle,
}

/// `ExecEvent` as a mathematical value.
#[verifier::ext_equal]
pub enum ShellEvent {
    Output(Seq<u8>),
    Exit(i32),
    Closed,
    HostError(Seq<char>),
    Idle,
}

impl View for ExecEvent {
    type V = ShellEvent;

    open spec fn view(&self) -> ShellEvent {
        match *self {
            ExecEvent::ShellOutput(data) => ShellEvent::Output(data@),
            ExecEvent::ShellExit(code) => ShellEvent::Exit(code),
            ExecEvent::ShellClosed => ShellEvent::Closed,
            ExecEvent::HostError(msg) => ShellEvent::HostError(msg@),
            ExecEvent::Idle => ShellEvent::Idle,
        }
    }
}

/// Whom a shell event is addressed to.
#[derive(Debug, Clone, Copy, PartialEq, Eq, Structural)]
pub enum SlotKind {
    /// A one-shot command.
    Exec,
    /// An interactive console.
    Pty,
}

/// Who is registered for shell events.
#[derive(Debug, PartialEq, Eq, Structural)]
pub struct ShellSlots {
    /// A command is registered.
    pub exec_slot: bool,
    /// A console is registered.
    pub pty_slot: bool,
    /// The host has one shell for both and addresses everything to commands.
    /// False while the host's generation is not known.
    pub legacy_fallback: bool,
}

impl ShellSlots {
    /// Whether someone is registered there.
    pub open spec fn installed(self, kind: SlotKind) -> bool {
        match kind {
            SlotKind::Exec => self.exec_slot,
            SlotKind::Pty => self.pty_slot,
        }
    }

    /// The registrations with that of `kind` set to `on`.
    pub open spec fn with(self, kind: SlotKind, on: bool) -> ShellSlots {
        match kind {
            SlotKind::Exec => ShellSlots { exec_slot: on, ..self },
            SlotKind::Pty => ShellSlots { pty_slot: on, ..self },
        }
    }

    /// Who gets an event that is addressed to `kind`.
    pub open spec fn receiver(self, kind: SlotKind) -> Option<SlotKind> {
        let other = match kind {
            SlotKind::Exec => SlotKind::Pty,
            SlotKind::Pty => SlotKind::Exec,
        };
        if self.installed(kind) {
            Some(kind)
        } else if self.legacy_fallback && self.installed(other) {
            Some(other)
        } else {
            None
        }
    }

    /// Nobody is registered, and nothing is known of the host.
    pub fn new() -> (r: ShellSlots)
        ensures
            r == (ShellSlots { exec_slot: false, pty_slot: false, legacy_fallback: false }),
    {
        ShellSlots { exec_slot: false, pty_slot: false, legacy_fallback: false }
    }

    /// The link is down: the next host may be of another generation.
    pub fn forget_host_generation(&mut self)
        ensures
            *final(self) == (ShellSlots { legacy_fallback: false, ..*old(self) }),
    {
        self.legacy_fallback = false;
    }

    /// Whether a shell session is open.
    pub fn any_installed(&self) -> (r: bool)
        ensures
            r == (self.installed(SlotKind::Exec) || self.installed(SlotKind::Pty)),
    {
        self.exec_slot || self.pty_slot
    }
}

impl Default for ShellSlots {
    fn default() -> (r: ShellSlots)
        ensures
            r == (ShellSlots { exec_slot: false, pty_slot: false, legacy_fallback: false }),
    {
        ShellSlots::new()
    }
}

/// A registration. It ends with [`ExecSlotGuard::release`].
#[derive(Debug, PartialEq, Eq, Structural)]
pub struct ExecSlotGuard {
    pub kind: SlotKind,
}

impl ExecSlotGuard {
    /// Registers, in place of whoever was registered.
    pub fn install(slots: &mut ShellSlots, kind: SlotKind) -> (r: ExecSlotGuard)
        ensures
            *final(slots) == old(slots).with(kind, true),
            r.kind == kind,
    {
        match kind {
            SlotKind::Exec => {
                slots.exec_slot = true;
            },
            SlotKind::Pty => {
                slots.pty_slot = true;
            },
        }
        ExecSlotGuard { kind }
    }

    /// Ends the registration.
    pub fn release(self, slots: &mut ShellSlots)
        ensures
            *final(slots) == old(slots).with(self.kind, false),
    {
        match self.kind {
            SlotKind::Exec => {
                slots.exec_slot = false;
            },
            SlotKind::Pty => {
                slots.pty_slot = false;
            },
        }
    }
}

/// Who gets an event that is addressed to `kind`: whoever is registered there.
/// Only of a host with a single shell does it go to the other one instead,
/// since such a host addresses the console's events to commands.
pub fn route(slots: &ShellSlots, kind: SlotKind) -> (r: Option<SlotKind>)
    ensures
        r == slots.receiver(kind),
{
    let (primary, secondary, other) = match kind {
        SlotKind::Exec => (slots.exec_slot, slots.pty_slot, SlotKind::Pty),
        SlotKind::Pty => (slots.pty_slot, slots.exec_slot, SlotKind::Exec),
    };
    if primary {
        Some(kind)
    } else if slots.legacy_fallback && secondary {
        Some(other)
    } else {
        None
    }
}

/// With a host that has both shells no event ever reaches the wrong session,
/// not even where the right one has ended.
pub proof fn law_events_never_cross_on_a_dual_host(slots: ShellSlots, kind: SlotKind)
    requires
        !slots.legacy_fallback,
    ensures
        slots.receiver(kind) is None || slots.receiver(kind) == Some(kind),
{
}

/// With a host that has one shell, the one session that is registered gets
/// every event.
pub proof fn law_lone_session_gets_everything_of_a_legacy_host(
    slots: ShellSlots,
    session: SlotKind,
    kind: SlotKind,
)
    requires
        slots.legacy_fallback,
        slots == (ShellSlots { exec_slot: false, pty_slot: false, ..slots }).with(session, true),
    ensures
        slots.receiver(kind) == Some(session),
{
}

/// Where nobody is registered, nobody gets anything; and once a session has
/// ended it gets nothing any more.
pub proof fn law_ended_session_gets_nothing(slots: ShellSlots, session: SlotKind, kind: SlotKind)
    ensures
        slots.with(session, false).receiver(kind) != Some(session),
        (ShellSlots { exec_slot: false, pty_slot: false, ..slots }).receiver(kind) is None,
{
}

/// Whoever is registered for a shell gets its events, whatever the host's
/// generation and whoever else is registered.
pub proof fn law_registered_session_is_served(slots: ShellSlots, kind: SlotKind, to: Option<SlotKind>)
    requires
        call_ensures(route, (&slots, kind), to),
    ensures
        kind == SlotKind::Exec && slots.exec_slot ==> to == Some(SlotKind::Exec),
        kind == SlotKind::Pty && slots.pty_slot ==> to == Some(SlotKind::Pty),
        kind == SlotKind::Exec && !slots.exec_slot ==> to == (if slots.pty_slot
            && slots.legacy_fallback {
            Some(SlotKind::Pty)
        } else {
            None
        }),
        kind == SlotKind::Pty && !slots.pty_slot ==> to == (if slots.exec_slot
            && slots.legacy_fallback {
            Some(SlotKind::Exec)
        } else {
            None
        }),
        to == slots.receiver(kind),
{
}

/// Registering and its end concern one place and leave the other, and what is
/// known of the host, alone.
pub proof fn law_registration_is_for_one_place(slots: &mut ShellSlots, kind: SlotKind, guard: ExecSlotGuard)
    ensures
        call_ensures(ExecSlotGuard::install, (slots, kind), guard) ==> {
            &&& guard.kind == kind
            &&& final(slots).legacy_fallback == old(slots).legacy_fallback
            &&& kind == SlotKind::Exec ==> final(slots).exec_slot && final(slots).pty_slot == old(slots).pty_slot
            &&& kind == SlotKind::Pty ==> final(slots).pty_slot && final(slots).exec_slot == old(slots).exec_slot
        },
        call_ensures(ExecSlotGuard::release, (guard, slots), ()) ==> {
            &&& final(slots).legacy_fallback == old(slots).legacy_fallback
            &&& guard.kind == SlotKind::Exec ==> !final(slots).exec_slot && final(slots).pty_slot
                == old(slots).pty_slot
            &&& guard.kind == SlotKind::Pty ==> !final(slots).pty_slot && final(slots).exec_slot
                == old(slots).exec_slot
        },
{
}

/// A session is open exactly where someone is registered, and a lost host ends
/// no registration.
pub proof fn law_sessions_outlive_the_host(slots: &mut ShellSlots, any: bool, before: ShellSlots)
    ensures
        call_ensures(ShellSlots::any_installed, (&before,), any) ==> (any <==> before.exec_slot
            || before.pty_slot),
        call_ensures(ShellSlots::forget_host_generation, (slots,), ()) ==> final(slots).exec_slot
            == old(slots).exec_slot && final(slots).pty_slot == old(slots).pty_slot && !final(slots).legacy_fallback,
        before.installed(SlotKind::Exec) == before.exec_slot,
        before.installed(SlotKind::Pty) == before.pty_slot,
{
}

} // verus!
