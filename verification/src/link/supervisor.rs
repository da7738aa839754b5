//! Opening the link again after it broke.

use vstd::prelude::*;
use vstd::string::*;

use crate::app::{LinkEvent, TransportEvent};
use crate::link::{Link, LinkContext};
use crate::text::{join, stands_at, text_contains};

verus! {

/// Seconds to wait after the `attempt`th failure: doubling from one, at most
/// thirty.
pub open spec fn backoff_secs(attempt: u32) -> nat {
    if attempt <= 1 {
        1
    } else if attempt <= 5 {
        vstd::arithmetic::power2::pow2((attempt - 1) as nat)
    } else {
        30
    }
}

/// Seconds to wait after the `attempt`th failure.
pub fn backoff_delay(attempt: u32) -> (r: u64)
    ensures
        r == backoff_secs(attempt),
{
    proof {
        vstd::arithmetic::power2::lemma2_to64();
    }
    match attempt {
        0 => 1,
        1 => 1,
        2 => 2,
        3 => 4,
        4 => 8,
        5 => 16,
        _ => 30,
    }
}

/// Later attempts wait no shorter, and none waits less than one second or more
/// than thirty.
pub proof fn law_backoff_grows_up_to_thirty_seconds(earlier: u32, later: u32)
    requires
        earlier <= later,
    ensures
        1 <= backoff_secs(earlier) <= backoff_secs(later) <= 30,
{
    vstd::arithmetic::power2::lemma2_to64();
}

/// What the supervisor is doing.
#[derive(Debug, Clone, Copy, PartialEq, Eq, Structural)]
pub enum SupervisorPhase {
    /// Waiting for a request to connect.
    Waiting,
    /// Ending the old link.
    TearingDown,
    /// Opening the transport.
    Opening,
    /// Waiting before the next attempt.
    BackingOff,
    /// Duplicating the transport for reader and writer.
    Cloning,
    Stopped,
}

/// What happened.
#[derive(Debug, Clone, PartialEq, Eq)]
pub enum SupervisorEvent {
    /// The link is to be opened (again).
    Request,
    /// Nobody will ask any more.
    RequestsClosed,
    /// Both threads of the old link have ended; the writer gave its queue back
    /// or did not.
    TornDown { queue_back: bool },
    OpenFailed,
    /// The wait is over.
    Waited,
    Opened,
    CloneFailed(String),
    Cloned,
}

/// What is to be done next.
#[derive(Debug, Clone, Copy, PartialEq, Eq, Structural)]
pub enum SupervisorAction {
    /// Wait for a request.
    Wait,
    /// Stop both threads of the link and join them.
    TearDown,
    Open,
    Sleep { secs: u64 },
    Clone,
    /// Drop the requests that have piled up, then start both threads.
    Spawn,
    Stop,
}

/// What is to be done next, and what the window is told.
#[derive(Debug, Clone, PartialEq, Eq)]
pub struct SupervisorOutput {
    pub action: SupervisorAction,
    pub event: Option<TransportEvent>,
}

/// `SupervisorOutput` as a mathematical value.
#[verifier::ext_equal]
pub struct SupervisorAnswer {
    pub action: SupervisorAction,
    pub event: Option<LinkEvent>,
}

impl View for SupervisorOutput {
    type V = SupervisorAnswer;

    open spec fn view(&self) -> SupervisorAnswer {
        SupervisorAnswer {
            action: self.action,
            event: match self.event {
                Some(e) => Some(e@),
                None => None,
            },
        }
    }
}

/// The supervisor of the link.
#[derive(Debug, Clone, Copy, PartialEq, Eq, Structural)]
pub struct Supervisor {
    pub phase: SupervisorPhase,
    /// Both threads of a link run.
    pub linked: bool,
    /// The queue of outgoing packets is in the supervisor's hands.
    pub has_queue: bool,
    /// How often opening was tried for the current request.
    pub attempt: u32,
}

impl Supervisor {
    /// The next attempt to open.
    pub open spec fn attempting(self, attempt: u32) -> (Supervisor, SupervisorAnswer) {
        (
            Supervisor { phase: SupervisorPhase::Opening, attempt, ..self },
            SupervisorAnswer {
                action: SupervisorAction::Open,
                event: Some(LinkEvent::Reconnecting { attempt }),
            },
        )
    }

    /// Opening begins, unless the queue was lost with the old link.
    pub open spec fn opening(self) -> (Supervisor, SupervisorAnswer) {
        if self.has_queue {
            (Supervisor { has_queue: false, ..self }).attempting(1)
        } else {
            (
                Supervisor { phase: SupervisorPhase::Stopped, ..self },
                SupervisorAnswer { action: SupervisorAction::Stop, event: None },
            )
        }
    }

    /// What follows an event. An event that does not belong to the phase
    /// changes nothing.
    pub open spec fn after(self, event: SupervisorEvent) -> (Supervisor, SupervisorAnswer) {
        match (self.phase, event) {
            (SupervisorPhase::Waiting, SupervisorEvent::Request) => if self.linked {
                (
                    Supervisor { phase: SupervisorPhase::TearingDown, ..self },
                    SupervisorAnswer { action: SupervisorAction::TearDown, event: None },
                )
            } else {
                self.opening()
            },
            (SupervisorPhase::Waiting, SupervisorEvent::RequestsClosed) => (
                Supervisor { phase: SupervisorPhase::Stopped, ..self },
                SupervisorAnswer { action: SupervisorAction::Stop, event: None },
            ),
            (SupervisorPhase::TearingDown, SupervisorEvent::TornDown { queue_back }) => (Supervisor {
                linked: false,
                has_queue: self.has_queue || queue_back,
                ..self
            }).opening(),
            (SupervisorPhase::Opening, SupervisorEvent::OpenFailed) => (
                Supervisor { phase: SupervisorPhase::BackingOff, ..self },
                SupervisorAnswer {
                    action: SupervisorAction::Sleep { secs: backoff_secs(self.attempt) as u64 },
                    event: None,
                },
            ),
            (SupervisorPhase::BackingOff, SupervisorEvent::Waited) => self.attempting(
                self.attempt.saturating_add(1),
            ),
            (SupervisorPhase::Opening, SupervisorEvent::Opened) => (
                Supervisor { phase: SupervisorPhase::Cloning, ..self },
                SupervisorAnswer { action: SupervisorAction::Clone, event: None },
            ),
            (SupervisorPhase::Cloning, SupervisorEvent::CloneFailed(e)) => (
                Supervisor { phase: SupervisorPhase::Waiting, has_queue: true, ..self },
                SupervisorAnswer {
                    action: SupervisorAction::Wait,
                    event: Some(LinkEvent::Disconnected("try_clone: "@ + e@)),
                },
            ),
            (SupervisorPhase::Cloning, SupervisorEvent::Cloned) => (
                Supervisor { phase: SupervisorPhase::Waiting, linked: true, ..self },
                SupervisorAnswer { action: SupervisorAction::Spawn, event: None },
            ),
            _ => (self, SupervisorAnswer { action: SupervisorAction::Wait, event: None }),
        }
    }

    /// What follows an event for the link: a request marks it down, and on one
    /// that is about to run nothing is awaited yet.
    pub open spec fn link_after(self, link: Link, event: SupervisorEvent) -> Link {
        if self.phase == SupervisorPhase::Waiting && event is Request {
            link.link_down()
        } else if self.phase == SupervisorPhase::Cloning && event is Cloned {
            link.fresh()
        } else {
            link
        }
    }

    /// No link yet; the queue is at hand.
    pub fn new() -> (r: Supervisor)
        ensures
            r == (Supervisor {
                phase: SupervisorPhase::Waiting,
                linked: false,
                has_queue: true,
                attempt: 0,
            }),
    {
        Supervisor { phase: SupervisorPhase::Waiting, linked: false, has_queue: true, attempt: 0 }
    }

    fn try_open(&mut self, attempt: u32) -> (r: SupervisorOutput)
        ensures
            (*final(self), r@) == old(self).attempting(attempt),
    {
        self.phase = SupervisorPhase::Opening;
        self.attempt = attempt;
        SupervisorOutput {
            action: SupervisorAction::Open,
            event: Some(TransportEvent::Reconnecting { attempt }),
        }
    }

    fn begin_open(&mut self) -> (r: SupervisorOutput)
        ensures
            (*final(self), r@) == old(self).opening(),
    {
        if self.has_queue {
            self.has_queue = false;
            self.try_open(1)
        } else {
            self.phase = SupervisorPhase::Stopped;
            SupervisorOutput { action: SupervisorAction::Stop, event: None }
        }
    }

    /// Takes an event and says what is to be done next.
    pub fn step(&mut self, ctx: &mut LinkContext, event: SupervisorEvent) -> (r: SupervisorOutput)
        ensures
            (*final(self), r@) == old(self).after(event),
            final(ctx)@ == old(self).link_after(old(ctx)@, event),
    {
        match (self.phase, event) {
            (SupervisorPhase::Waiting, SupervisorEvent::Request) => {
                ctx.mark_down();
                if self.linked {
                    self.phase = SupervisorPhase::TearingDown;
                    SupervisorOutput { action: SupervisorAction::TearDown, event: None }
                } else {
                    self.begin_open()
                }
            },
            (SupervisorPhase::Waiting, SupervisorEvent::RequestsClosed) => {
                self.phase = SupervisorPhase::Stopped;
                SupervisorOutput { action: SupervisorAction::Stop, event: None }
            },
            (SupervisorPhase::TearingDown, SupervisorEvent::TornDown { queue_back }) => {
                self.linked = false;
                self.has_queue = self.has_queue || queue_back;
                self.begin_open()
            },
            (SupervisorPhase::Opening, SupervisorEvent::OpenFailed) => {
                self.phase = SupervisorPhase::BackingOff;
                SupervisorOutput {
                    action: SupervisorAction::Sleep { secs: backoff_delay(self.attempt) },
                    event: None,
                }
            },
            (SupervisorPhase::BackingOff, SupervisorEvent::Waited) => {
                let next: u32 = self.attempt.saturating_add(1);
                self.try_open(next)
            },
            (SupervisorPhase::Opening, SupervisorEvent::Opened) => {
                self.phase = SupervisorPhase::Cloning;
                SupervisorOutput { action: SupervisorAction::Clone, event: None }
            },
            (SupervisorPhase::Cloning, SupervisorEvent::CloneFailed(e)) => {
                self.phase = SupervisorPhase::Waiting;
                self.has_queue = true;
                SupervisorOutput {
                    action: SupervisorAction::Wait,
                    event: Some(TransportEvent::Disconnected(join("try_clone: ", e.as_str()))),
                }
            },
            (SupervisorPhase::Cloning, SupervisorEvent::Cloned) => {
                ctx.incoming.begin_link();
                self.phase = SupervisorPhase::Waiting;
                self.linked = true;
                SupervisorOutput { action: SupervisorAction::Spawn, event: None }
            },
            _ => SupervisorOutput { action: SupervisorAction::Wait, event: None },
        }
    }

    /// What holds in every phase: the queue is with the supervisor or with the
    /// link that runs, and never with both, as long as no link lost it.
    pub open spec fn queue_is_somewhere(self) -> bool {
        match self.phase {
            SupervisorPhase::Waiting => self.linked != self.has_queue,
            SupervisorPhase::TearingDown => self.linked && !self.has_queue,
            SupervisorPhase::Opening | SupervisorPhase::BackingOff | SupervisorPhase::Cloning =>
                !self.linked && !self.has_queue,
            SupervisorPhase::Stopped => true,
        }
    }
}

/// The supervisor never raises the link: an open port is not yet a host.
pub proof fn law_supervisor_never_raises_the_link(sup: Supervisor, link: Link, event: SupervisorEvent)
    ensures
        sup.link_after(link, event).link_up ==> link.link_up,
{
}

/// The queue of outgoing packets survives every reconnect, and the supervisor
/// stops only where nobody asks any more or a link lost the queue.
pub proof fn law_queue_survives_reconnects(sup: Supervisor, event: SupervisorEvent)
    requires
        sup.queue_is_somewhere(),
    ensures
        sup.after(event).0.queue_is_somewhere(),
        sup.after(event).1.action == SupervisorAction::Stop ==> event is RequestsClosed || event
            == (SupervisorEvent::TornDown { queue_back: false }),
{
}

/// However often opening fails, the supervisor goes on trying.
pub proof fn law_failed_open_is_tried_again(sup: Supervisor)
    requires
        sup.phase == SupervisorPhase::Opening,
    ensures
        ({
            let (waiting, first) = sup.after(SupervisorEvent::OpenFailed);
            let (trying, second) = waiting.after(SupervisorEvent::Waited);
            &&& first.action == SupervisorAction::Sleep { secs: backoff_secs(sup.attempt) as u64 }
            &&& second.action == SupervisorAction::Open
            &&& trying.phase == SupervisorPhase::Opening
            &&& trying.attempt == sup.attempt.saturating_add(1)
        }),
{
}

/// Each wait is twice the one before, from one second on, until half a minute
/// is reached.
pub proof fn law_waits_double(attempt: u32, secs: u64)
    requires
        call_ensures(backoff_delay, (attempt,), secs),
    ensures
        attempt <= 1 ==> secs == 1,
        1 <= attempt < 5 ==> backoff_secs((attempt + 1) as u32) == 2 * secs,
        attempt >= 6 ==> secs == 30,
        secs == backoff_secs(attempt),
{
    vstd::arithmetic::power2::lemma2_to64();
}

/// A request opens the link: at once where there is none, else once the old one
/// has ended and has given the queue back. The window is told of the first
/// attempt. Meanwhile there is no host.
pub proof fn law_request_opens_the_link(
    sup: &mut Supervisor,
    ctx: &mut LinkContext,
    event: SupervisorEvent,
    r: SupervisorOutput,
)
    requires
        call_ensures(Supervisor::step, (sup, ctx, event), r),
    ensures
        old(sup).phase == SupervisorPhase::Waiting && event is Request ==> {
            &&& !final(ctx).link_up && final(ctx).host_info is None
            &&& old(sup).linked ==> r.action == SupervisorAction::TearDown && final(sup).phase
                == SupervisorPhase::TearingDown
            &&& !old(sup).linked && old(sup).has_queue ==> {
                &&& r.action == SupervisorAction::Open
                &&& r@.event == Some(LinkEvent::Reconnecting { attempt: 1 })
                &&& final(sup).phase == SupervisorPhase::Opening && final(sup).attempt == 1
            }
        },
        old(sup).phase == SupervisorPhase::TearingDown && event == (SupervisorEvent::TornDown {
            queue_back: true,
        }) ==> {
            &&& r.action == SupervisorAction::Open
            &&& r@.event == Some(LinkEvent::Reconnecting { attempt: 1 })
            &&& final(sup).phase == SupervisorPhase::Opening && final(sup).attempt == 1
            &&& !final(sup).linked
        },
        old(sup).phase == SupervisorPhase::Waiting && event is RequestsClosed ==> r.action
            == SupervisorAction::Stop,
{
}

/// A transport that could not be opened is tried again after the wait of its
/// attempt, and the window is told each time, by the number of the attempt.
pub proof fn law_attempts_are_counted(
    sup: &mut Supervisor,
    ctx: &mut LinkContext,
    event: SupervisorEvent,
    r: SupervisorOutput,
)
    requires
        call_ensures(Supervisor::step, (sup, ctx, event), r),
    ensures
        old(sup).phase == SupervisorPhase::Opening && event is OpenFailed ==> {
            &&& r.action == (SupervisorAction::Sleep {
                secs: backoff_secs(old(sup).attempt) as u64,
            })
            &&& final(sup).phase == SupervisorPhase::BackingOff
            &&& final(sup).attempt == old(sup).attempt
            &&& r.event is None
        },
        old(sup).phase == SupervisorPhase::BackingOff && event is Waited && old(sup).attempt
            < u32::MAX ==> {
            &&& r.action == SupervisorAction::Open
            &&& r@.event == Some(
                LinkEvent::Reconnecting { attempt: (old(sup).attempt + 1) as u32 },
            )
            &&& final(sup).phase == SupervisorPhase::Opening
            &&& final(sup).attempt == old(sup).attempt + 1
        },
        final(sup).phase != SupervisorPhase::Opening && event is Waited ==> r.event is None,
{
}

/// A transport that was opened is duplicated, and both threads start; where the
/// duplicate cannot be had, the window is told why and the next request finds
/// the queue.
pub proof fn law_opened_link_runs(
    sup: &mut Supervisor,
    ctx: &mut LinkContext,
    event: SupervisorEvent,
    r: SupervisorOutput,
)
    requires
        call_ensures(Supervisor::step, (sup, ctx, event), r),
    ensures
        old(sup).phase == SupervisorPhase::Opening && event is Opened ==> r.action
            == SupervisorAction::Clone && final(sup).phase == SupervisorPhase::Cloning
            && final(ctx)@ == old(ctx)@,
        old(sup).phase == SupervisorPhase::Cloning && event is Cloned ==> {
            &&& r.action == SupervisorAction::Spawn && r.event is None
            &&& final(sup).linked && final(sup).phase == SupervisorPhase::Waiting
            &&& final(ctx)@.incoming.reassembly.expected_len == 0
            &&& final(ctx)@.incoming.reassembly.received == Map::<u16, Seq<u8>>::empty()
            &&& final(ctx)@.incoming.in_flight is None
            &&& final(ctx)@ == (Link { incoming: final(ctx)@.incoming, ..old(ctx)@ })
            &&& final(ctx)@.incoming.receive_text == old(ctx)@.incoming.receive_text
            &&& final(ctx)@.incoming.receive_images == old(ctx)@.incoming.receive_images
            &&& final(ctx)@.incoming.receive_files == old(ctx)@.incoming.receive_files
            &&& final(ctx)@.incoming.file_caps == old(ctx)@.incoming.file_caps
            &&& final(ctx)@.incoming.stale == old(ctx)@.incoming.stale
        },
        event matches SupervisorEvent::CloneFailed(e) ==> old(sup).phase
            == SupervisorPhase::Cloning ==> {
            &&& r.action == SupervisorAction::Wait
            &&& (r@.event matches Some(LinkEvent::Disconnected(reason)) && text_contains(
                reason,
                e@,
            ))
            &&& final(sup).phase == SupervisorPhase::Waiting && final(sup).has_queue
            &&& final(ctx)@ == old(ctx)@
        },
{
    if let SupervisorEvent::CloneFailed(e) = event {
        let head = "try_clone: "@;
        let reason = head + e@;
        assert(reason.subrange(head.len() as int, reason.len() as int) =~= e@);
        assert(stands_at(reason, e@, head.len() as int));
    }
}

/// An event that nobody waits for changes nothing, neither of the supervisor
/// nor of the link.
pub proof fn law_stray_events_change_nothing(
    sup: &mut Supervisor,
    ctx: &mut LinkContext,
    event: SupervisorEvent,
    r: SupervisorOutput,
)
    requires
        call_ensures(Supervisor::step, (sup, ctx, event), r),
        match old(sup).phase {
            SupervisorPhase::Waiting => !(event is Request || event is RequestsClosed),
            SupervisorPhase::TearingDown => !(event is TornDown),
            SupervisorPhase::Opening => !(event is OpenFailed || event is Opened),
            SupervisorPhase::BackingOff => !(event is Waited),
            SupervisorPhase::Cloning => !(event is CloneFailed || event is Cloned),
            SupervisorPhase::Stopped => true,
        },
    ensures
        *final(sup) == *old(sup),
        final(ctx)@ == old(ctx)@,
        r.action == SupervisorAction::Wait && r.event is None,
{
}

/// A supervisor starts without a link, with the queue at hand, and waits to be
/// asked.
pub proof fn law_supervisor_starts_waiting(sup: Supervisor)
    requires
        call_ensures(Supervisor::new, (), sup),
    ensures
        sup.phase == SupervisorPhase::Waiting && !sup.linked && sup.has_queue,
        sup.queue_is_somewhere(),
{
}

/// A link that lost the queue ends the supervisor: nothing could be sent any
/// more.
pub proof fn law_lost_queue_ends_the_supervisor(
    sup: &mut Supervisor,
    ctx: &mut LinkContext,
    event: SupervisorEvent,
    r: SupervisorOutput,
)
    requires
        call_ensures(Supervisor::step, (sup, ctx, event), r),
        !old(sup).has_queue,
    ensures
        old(sup).phase == SupervisorPhase::TearingDown && event == (SupervisorEvent::TornDown {
            queue_back: false,
        }) ==> r.action == SupervisorAction::Stop && final(sup).phase == SupervisorPhase::Stopped
            && r.event is None,
        old(sup).phase == SupervisorPhase::Waiting && !old(sup).linked && event is Request
            ==> r.action == SupervisorAction::Stop,
{
}

} // verus!
