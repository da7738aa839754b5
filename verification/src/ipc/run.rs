//! Running one command on the host.
//!
//! A run claims the shell side of the host, waits for its turn behind other
//! runs, registers for the shell's events, opens a shell, and when the command
//! has ended closes it and waits until nothing more arrives. Whatever happens,
//! its claim and its registration end with it.

use vstd::prelude::*;
use vstd::string::*;

use crate::exec_bridge::{ExecEvent, ShellEvent, ShellSlots, SlotKind};
use crate::ipc::{Arrival, Received};
use crate::protocol::{Message, MessageView, Packet, PacketView, unnumbered};
use crate::shell_channel::{ShellChannel, ShellOwner};
use crate::text::{join, stands_at, text_contains};

verus! {

/// Milliseconds without an event after which nothing more is expected of a
/// command that ended by itself.
pub const IDLE_AFTER_SUCCESS_MS: u64 = 150;

/// The same after a command that did not.
pub const IDLE_AFTER_FAILURE_MS: u64 = 2000;

/// Milliseconds after which the wait for late output ends in any case.
pub const SHELL_KILL_GRACE_MAX_MS: u64 = 30000;

/// What a client is told.
#[derive(Debug, Clone, PartialEq, Eq)]
pub enum IpcResponse {
    Stdout(Vec<u8>),
    Exit(i32),
    Error(String),
    /// The command was not run: there is no link, or no shell for it.
    TransportUnavailable(String),
}

/// `IpcResponse` as a mathematical value.
#[verifier::ext_equal]
pub enum Reply {
    Stdout(Seq<u8>),
    Exit(i32),
    Error(Seq<char>),
    TransportUnavailable(Seq<char>),
}

impl View for IpcResponse {
    type V = Reply;

    open spec fn view(&self) -> Reply {
        match *self {
            IpcResponse::Stdout(data) => Reply::Stdout(data@),
            IpcResponse::Exit(code) => Reply::Exit(code),
            IpcResponse::Error(msg) => Reply::Error(msg@),
            IpcResponse::TransportUnavailable(msg) => Reply::TransportUnavailable(msg@),
        }
    }
}

/// Why a command has no exit code.
#[derive(Debug, Clone, PartialEq, Eq)]
pub enum ExecError {
    /// It took too long; this came until then.
    Timeout(Vec<u8>),
    Transport(String),
    /// Nobody is there to send any events.
    Closed,
    /// Its output could not be unpacked.
    CompressionFailed(String),
}

/// What a client is told of a command's end.
pub open spec fn final_reply(result: Result<i32, ExecError>) -> Reply {
    match result {
        Ok(code) => Reply::Exit(code),
        Err(ExecError::Timeout(_)) => Reply::Exit(124),
        Err(ExecError::Transport(msg)) => Reply::Error(msg@),
        Err(ExecError::Closed) => Reply::Error("transport closed"@),
        Err(ExecError::CompressionFailed(msg)) => Reply::Error("compression failed: "@ + msg@),
    }
}

/// What a client is told of a command's end.
pub fn final_frame(result: Result<i32, ExecError>) -> (r: IpcResponse)
    ensures
        r@ == final_reply(result),
{
    match result {
        Ok(code) => IpcResponse::Exit(code),
        Err(ExecError::Timeout(_)) => IpcResponse::Exit(124),
        Err(ExecError::Transport(msg)) => IpcResponse::Error(msg),
        Err(ExecError::Closed) => IpcResponse::Error("transport closed".to_owned()),
        Err(ExecError::CompressionFailed(msg)) => IpcResponse::Error(
            join("compression failed: ", msg.as_str()),
        ),
    }
}

/// What a wait for an event means to a run: silence is an event too, but a
/// queue that nobody can fill is an error.
pub fn recv_event(received: Received) -> (r: Result<ExecEvent, ExecError>)
    ensures
        match received {
            Received::Event(event) => r == Ok::<ExecEvent, ExecError>(event),
            Received::Timeout => r == Ok::<ExecEvent, ExecError>(ExecEvent::Idle),
            Received::Disconnected => r == Err::<ExecEvent, ExecError>(ExecError::Closed),
        },
{
    match received {
        Received::Event(event) => Ok(event),
        Received::Timeout => Ok(ExecEvent::Idle),
        Received::Disconnected => Err(ExecError::Closed),
    }
}

/// How long a silence ends the wait for late output. A command that ended by
/// itself has nothing more to say.
pub open spec fn idle_after(sentinel_seen: bool) -> u64 {
    if sentinel_seen {
        IDLE_AFTER_SUCCESS_MS
    } else {
        IDLE_AFTER_FAILURE_MS
    }
}

/// How many milliseconds of silence end the wait for late output.
pub fn post_run_idle(sentinel_seen: bool) -> (r: u64)
    ensures
        r == idle_after(sentinel_seen),
{
    if sentinel_seen {
        IDLE_AFTER_SUCCESS_MS
    } else {
        IDLE_AFTER_FAILURE_MS
    }
}

/// Where a run stands.
#[derive(Debug, Clone, Copy, PartialEq, Eq, Structural)]
pub enum RunStage {
    /// It holds its claim and waits for its turn.
    Queued,
    /// It is registered, and its shell is being opened or runs the command.
    Running,
    /// The command has ended and the shell was told to close; late output is
    /// awaited, with this many milliseconds of silence for its end.
    Draining { idle_ms: u64 },
    /// It holds nothing any more.
    Over,
}

/// One command.
#[derive(Debug, PartialEq, Eq, Structural)]
pub struct ExecRun {
    pub stage: RunStage,
    /// Late events so far.
    pub drained: u32,
}

/// What follows for a run.
#[derive(Debug, PartialEq, Eq)]
pub struct RunOutput {
    /// What the client is told.
    pub reply: Option<IpcResponse>,
    /// What the host is told.
    pub send: Option<Packet>,
}

/// `RunOutput` as a mathematical value.
#[verifier::ext_equal]
pub struct RunAnswer {
    pub reply: Option<Reply>,
    pub send: Option<PacketView>,
}

impl View for RunOutput {
    type V = RunAnswer;

    open spec fn view(&self) -> RunAnswer {
        RunAnswer {
            reply: match self.reply {
                Some(r) => Some(r@),
                None => None,
            },
            send: match self.send {
                Some(p) => Some(p@),
                None => None,
            },
        }
    }
}

/// What a client is told where there is no link.
pub open spec fn no_link_reply() -> Reply {
    Reply::TransportUnavailable("transport reconnecting — retry shortly"@)
}

/// What a client is told where a console is in the way.
pub open spec fn busy_reply() -> Reply {
    Reply::TransportUnavailable("shell busy — interactive wd session active"@)
}

fn no_link() -> (r: IpcResponse)
    ensures
        r@ == no_link_reply(),
{
    IpcResponse::TransportUnavailable("transport reconnecting — retry shortly".to_owned())
}

/// What a run holds: its claim, and from its turn on its registration.
pub open spec fn claims_of(channel: ShellChannel, run: ExecRun) -> ShellChannel {
    if run.stage == RunStage::Over {
        channel
    } else {
        channel.claimed(ShellOwner::Exec)
    }
}

/// The registrations with that of a run.
pub open spec fn slots_of(slots: ShellSlots, run: ExecRun) -> ShellSlots {
    match run.stage {
        RunStage::Queued => slots,
        RunStage::Running => slots.with(SlotKind::Exec, true),
        RunStage::Draining { .. } => slots.with(SlotKind::Exec, true),
        RunStage::Over => slots,
    }
}

impl ExecRun {
    /// The run after the end, whatever it still held.
    pub open spec fn ended(self) -> ExecRun {
        ExecRun { stage: RunStage::Over, ..self }
    }

    /// The claims once a run at this stage is over.
    pub open spec fn channel_after_end(self, channel: ShellChannel) -> ShellChannel {
        if self.stage == RunStage::Over {
            channel
        } else {
            channel.released(ShellOwner::Exec)
        }
    }

    /// The registrations once a run at this stage is over.
    pub open spec fn slots_after_end(self, slots: ShellSlots) -> ShellSlots {
        match self.stage {
            RunStage::Running => slots.with(SlotKind::Exec, false),
            RunStage::Draining { .. } => slots.with(SlotKind::Exec, false),
            _ => slots,
        }
    }

    /// A client wants a command run. Without a link, or with a console in the
    /// way, it is told so and the run is over; else the run holds its claim, and
    /// an empty piece of output tells the client that it is being served.
    pub fn begin(channel: &mut ShellChannel, link_up: bool, dual: bool) -> (r: (
        ExecRun,
        IpcResponse,
    ))
        ensures
            r.0.drained == 0,
            !link_up ==> {
                &&& r.0.stage == RunStage::Over
                &&& r.1@ == no_link_reply()
                &&& *final(channel) == *old(channel)
            },
            link_up && !old(channel).grants(ShellOwner::Exec, dual) ==> {
                &&& r.0.stage == RunStage::Over
                &&& r.1@ == busy_reply()
                &&& *final(channel) == *old(channel)
            },
            link_up && old(channel).grants(ShellOwner::Exec, dual) ==> {
                &&& r.0.stage == RunStage::Queued
                &&& r.1@ == Reply::Stdout(Seq::empty())
                &&& *final(channel) == old(channel).claimed(ShellOwner::Exec)
            },
    {
        if !link_up {
            return (ExecRun { stage: RunStage::Over, drained: 0 }, no_link());
        }
        if !channel.try_acquire(ShellOwner::Exec, dual) {
            let busy = "shell busy — interactive wd session active".to_owned();
            return (
                ExecRun { stage: RunStage::Over, drained: 0 },
                IpcResponse::TransportUnavailable(busy),
            );
        }
        (ExecRun { stage: RunStage::Queued, drained: 0 }, IpcResponse::Stdout(Vec::new()))
    }

    /// The end: what is still held is given back.
    pub fn end(&mut self, channel: &mut ShellChannel, slots: &mut ShellSlots)
        ensures
            *final(self) == old(self).ended(),
            *final(channel) == old(self).channel_after_end(*old(channel)),
            *final(slots) == old(self).slots_after_end(*old(slots)),
    {
        match self.stage {
            RunStage::Over => {},
            RunStage::Queued => {
                channel.release(ShellOwner::Exec);
            },
            _ => {
                slots.exec_slot = false;
                channel.release(ShellOwner::Exec);
            },
        }
        self.stage = RunStage::Over;
    }

    /// The run's turn has come. The link may have gone down meanwhile; else the
    /// run registers and opens a shell.
    pub fn on_turn(
        &mut self,
        channel: &mut ShellChannel,
        slots: &mut ShellSlots,
        link_up: bool,
    ) -> (r: RunOutput)
        requires
            old(self).stage == RunStage::Queued,
        ensures
            !link_up ==> {
                &&& r@ == (RunAnswer { reply: Some(no_link_reply()), send: None })
                &&& *final(self) == old(self).ended()
                &&& *final(channel) == old(channel).released(ShellOwner::Exec)
                &&& *final(slots) == *old(slots)
            },
            link_up ==> {
                &&& r@ == (RunAnswer {
                    reply: None,
                    send: Some(unnumbered(MessageView::ShellOpen { shell: Seq::empty() })),
                })
                &&& *final(self) == (ExecRun { stage: RunStage::Running, ..*old(self) })
                &&& *final(channel) == *old(channel)
                &&& *final(slots) == old(slots).with(SlotKind::Exec, true)
            },
    {
        if !link_up {
            self.end(channel, slots);
            return RunOutput { reply: Some(no_link()), send: None };
        }
        slots.exec_slot = true;
        self.stage = RunStage::Running;
        let open = Packet::new(Message::ShellOpen { shell: String::new() }, 0);
        RunOutput { reply: None, send: Some(open) }
    }

    /// The shell could not be opened, for this reason.
    pub fn on_open_failed(
        &mut self,
        channel: &mut ShellChannel,
        slots: &mut ShellSlots,
        reason: &str,
    ) -> (r: IpcResponse)
        requires
            old(self).stage == RunStage::Running,
        ensures
            r@ == Reply::Error("ShellOpen send: "@ + reason@),
            *final(self) == old(self).ended(),
            *final(channel) == old(channel).released(ShellOwner::Exec),
            *final(slots) == old(slots).with(SlotKind::Exec, false),
    {
        self.end(channel, slots);
        IpcResponse::Error(join("ShellOpen send: ", reason))
    }

    /// The command has ended: the client is told how, the shell is closed, and
    /// late output is awaited.
    pub fn on_result(&mut self, result: Result<i32, ExecError>) -> (r: RunOutput)
        requires
            old(self).stage == RunStage::Running,
        ensures
            r@ == (RunAnswer {
                reply: Some(final_reply(result)),
                send: Some(unnumbered(MessageView::ShellClose)),
            }),
            *final(self) == (ExecRun {
                stage: RunStage::Draining { idle_ms: idle_after(result is Ok) },
                drained: 0,
            }),
    {
        let idle_ms: u64 = post_run_idle(result.is_ok());
        self.stage = RunStage::Draining { idle_ms };
        self.drained = 0;
        RunOutput {
            reply: Some(final_frame(result)),
            send: Some(Packet::new(Message::ShellClose, 0)),
        }
    }

    /// How many milliseconds to wait for the next late event, or nothing where
    /// the wait has lasted long enough and the run is over.
    pub fn drain_wait(
        &mut self,
        channel: &mut ShellChannel,
        slots: &mut ShellSlots,
        elapsed_ms: u64,
    ) -> (r: Option<u64>)
        requires
            old(self).stage is Draining,
        ensures
            elapsed_ms >= SHELL_KILL_GRACE_MAX_MS ==> {
                &&& r is None
                &&& *final(self) == old(self).ended()
                &&& *final(channel) == old(channel).released(ShellOwner::Exec)
                &&& *final(slots) == old(slots).with(SlotKind::Exec, false)
            },
            elapsed_ms < SHELL_KILL_GRACE_MAX_MS ==> {
                &&& r == Some(old(self).stage->idle_ms)
                &&& *final(self) == *old(self)
                &&& *final(channel) == *old(channel)
                &&& *final(slots) == *old(slots)
            },
    {
        if elapsed_ms >= SHELL_KILL_GRACE_MAX_MS {
            self.end(channel, slots);
            return None;
        }
        match self.stage {
            RunStage::Draining { idle_ms } => Some(idle_ms),
            _ => None,
        }
    }

    /// What came while late output was awaited. The shell's end, a silence, or
    /// a queue that nobody can fill ends the run; anything else is late output
    /// and is dropped.
    pub fn on_drained(
        &mut self,
        channel: &mut ShellChannel,
        slots: &mut ShellSlots,
        received: &Received,
    )
        requires
            old(self).stage is Draining,
        ensures
            late_output(received@) ==> {
                &&& *final(self) == (ExecRun {
                    drained: old(self).drained.saturating_add(1),
                    ..*old(self)
                })
                &&& *final(channel) == *old(channel)
                &&& *final(slots) == *old(slots)
            },
            !late_output(received@) ==> {
                &&& *final(self) == old(self).ended()
                &&& *final(channel) == old(channel).released(ShellOwner::Exec)
                &&& *final(slots) == old(slots).with(SlotKind::Exec, false)
            },
    {
        let more = match received {
            Received::Event(event) => match event {
                ExecEvent::ShellClosed => false,
                ExecEvent::ShellExit(_) => false,
                _ => true,
            },
            Received::Timeout => false,
            Received::Disconnected => false,
        };
        if more {
            self.drained = self.drained.saturating_add(1);
        } else {
            self.end(channel, slots);
        }
    }
}

/// An event that does not end the wait for late output.
pub open spec fn late_output(arrival: Arrival) -> bool {
    match arrival {
        Arrival::Event(ShellEvent::Closed) => false,
        Arrival::Event(ShellEvent::Exit(_)) => false,
        Arrival::Event(_) => true,
        _ => false,
    }
}

/// Wherever a run ends, the claims are those that there were without it, and
/// nobody is registered in its place.
pub proof fn law_ended_run_leaves_no_trace(channel: ShellChannel, slots: ShellSlots, run: ExecRun, dual: bool)
    requires
        channel.grants(ShellOwner::Exec, dual),
        !slots.installed(SlotKind::Exec),
    ensures
        run.channel_after_end(claims_of(channel, run)) == channel,
        run.slots_after_end(slots_of(slots, run)) == slots,
{
}

/// A command that ended by itself holds up the next one for a fraction of what
/// one that did not does.
pub proof fn law_successful_run_is_followed_at_once(result: Result<i32, ExecError>)
    ensures
        result is Ok ==> 100 <= idle_after(result is Ok) <= 300,
        result is Err ==> idle_after(result is Ok) == 2000,
        idle_after(result is Ok) < SHELL_KILL_GRACE_MAX_MS,
{
}

/// The client is told of an exit if and only if the command ended or took too
/// long; it never sees success of a command that did not succeed.
pub proof fn law_success_is_reported_only_of_success(result: Result<i32, ExecError>)
    ensures
        final_reply(result) == Reply::Exit(0) <==> result == Ok::<i32, ExecError>(0),
        final_reply(result) is Exit <==> result is Ok || result->Err_0 is Timeout,
        !(final_reply(result) is Stdout) && !(final_reply(result) is TransportUnavailable),
{
}

/// The client is told of a command what became of it: the code that it ended
/// with, 124 where it took too long, else what went wrong, in its words.
pub proof fn law_client_is_told_how_it_ended(result: Result<i32, ExecError>, r: IpcResponse)
    requires
        call_ensures(final_frame, (result,), r),
    ensures
        result matches Ok(code) ==> r@ == Reply::Exit(code),
        result is Err && result->Err_0 is Timeout ==> r@ == Reply::Exit(124),
        result matches Err(ExecError::Transport(msg)) ==> r@ == Reply::Error(msg@),
        result matches Err(ExecError::CompressionFailed(msg)) ==> (r@ matches Reply::Error(told)
            && text_contains(told, msg@)),
        result is Err && result->Err_0 is Closed ==> r@ == Reply::Error("transport closed"@),
{
    if let Err(ExecError::CompressionFailed(msg)) = result {
        let head = "compression failed: "@;
        let told = head + msg@;
        assert(told.subrange(head.len() as int, told.len() as int) =~= msg@);
        assert(stands_at(told, msg@, head.len() as int));
    }
}

/// What the shell did reaches the run as it happened; silence is told as such,
/// and a queue that nobody can fill is an error.
pub proof fn law_run_hears_what_the_shell_did(received: Received, r: Result<ExecEvent, ExecError>)
    requires
        call_ensures(recv_event, (received,), r),
    ensures
        received matches Received::Event(event) ==> r == Ok::<ExecEvent, ExecError>(event),
        received is Timeout ==> (r matches Ok(event) && event is Idle),
        received is Disconnected ==> (r matches Err(e) && e is Closed),
{
}

/// A command is taken on where there is a link and no console is in the way: it
/// then holds one claim more, and the client hears at once that it is served.
/// Else the client is told that it was not run, and nothing is held.
pub proof fn law_command_is_taken_on(
    channel: &mut ShellChannel,
    link_up: bool,
    dual: bool,
    r: (ExecRun, IpcResponse),
)
    requires
        call_ensures(ExecRun::begin, (channel, link_up, dual), r),
        old(channel).execs < u32::MAX,
    ensures
        ({
            let taken = link_up && (dual || !old(channel).interactive);
            &&& taken ==> {
                &&& r.0.stage == RunStage::Queued && r.0.drained == 0
                &&& final(channel).execs == old(channel).execs + 1
                &&& final(channel).interactive == old(channel).interactive
                &&& r.1@ == Reply::Stdout(Seq::empty())
            }
            &&& !taken ==> {
                &&& r.0.stage == RunStage::Over
                &&& *final(channel) == *old(channel)
                &&& r.1@ == Reply::TransportUnavailable(
                    if link_up {
                        "shell busy — interactive wd session active"@
                    } else {
                        "transport reconnecting — retry shortly"@
                    },
                )
            }
        }),
{
}

/// When its turn has come, a command gets a shell and hears of it; without a
/// link it gives its claim back and the client is told.
pub proof fn law_turn_opens_a_shell(
    run: &mut ExecRun,
    channel: &mut ShellChannel,
    slots: &mut ShellSlots,
    link_up: bool,
    r: RunOutput,
)
    requires
        call_ensures(ExecRun::on_turn, (run, channel, slots, link_up), r),
        old(run).stage == RunStage::Queued,
    ensures
        link_up ==> {
            &&& r@.send == Some(
                PacketView { message: MessageView::ShellOpen { shell: Seq::empty() }, seq: 0 },
            )
            &&& r.reply is None
            &&& final(run).stage == RunStage::Running
            &&& final(slots).exec_slot && final(slots).pty_slot == old(slots).pty_slot
            &&& *final(channel) == *old(channel)
        },
        !link_up ==> {
            &&& r.send is None && r@.reply == Some(
                Reply::TransportUnavailable("transport reconnecting — retry shortly"@),
            )
            &&& final(run).stage == RunStage::Over
            &&& final(channel).execs == old(channel).execs.saturating_sub(1)
            &&& final(channel).interactive == old(channel).interactive
            &&& *final(slots) == *old(slots)
        },
{
}

/// Once a command has ended the client is told how, and the shell is closed,
/// whatever it ended with; nothing is given back before the shell is done.
pub proof fn law_ended_command_closes_its_shell(
    run: &mut ExecRun,
    result: Result<i32, ExecError>,
    r: RunOutput,
)
    requires
        call_ensures(ExecRun::on_result, (run, result), r),
        old(run).stage == RunStage::Running,
    ensures
        r@.send == Some(PacketView { message: MessageView::ShellClose, seq: 0 }),
        result matches Ok(code) ==> r@.reply == Some(Reply::Exit(code)),
        result is Ok ==> final(run).stage == (RunStage::Draining { idle_ms: 150 }),
        result is Err ==> final(run).stage == (RunStage::Draining { idle_ms: 2000 }),
        r.reply is Some,
        final(run).drained == 0,
{
}

/// A shell that could not be opened ends the run: the client is told why, and
/// what was held is given back.
pub proof fn law_unopened_shell_ends_the_run(
    run: &mut ExecRun,
    channel: &mut ShellChannel,
    slots: &mut ShellSlots,
    reason: &str,
    r: IpcResponse,
)
    requires
        call_ensures(ExecRun::on_open_failed, (run, channel, slots, reason), r),
        old(run).stage == RunStage::Running,
    ensures
        r@ matches Reply::Error(told) && text_contains(told, reason@),
        final(run).stage == RunStage::Over,
        !final(slots).exec_slot && final(slots).pty_slot == old(slots).pty_slot,
        final(channel).execs == old(channel).execs.saturating_sub(1),
        final(channel).interactive == old(channel).interactive,
{
    let head = "ShellOpen send: "@;
    let told = head + reason@;
    assert(told.subrange(head.len() as int, told.len() as int) =~= reason@);
    assert(stands_at(told, reason@, head.len() as int));
}

/// Late output is awaited until the shell says that it has ended, nothing comes
/// for a while, nothing can come, or half a minute is over; the run then holds
/// nothing any more. What comes before that is dropped.
pub proof fn law_late_output_is_awaited(
    run: &mut ExecRun,
    channel: &mut ShellChannel,
    slots: &mut ShellSlots,
    received: Received,
    elapsed_ms: u64,
    wait: Option<u64>,
)
    requires
        old(run).stage is Draining,
    ensures
        call_ensures(ExecRun::on_drained, (run, channel, slots, &received), ()) ==> {
            let over = received@ is Timeout || received@ is Disconnected || received@
                == Arrival::Event(ShellEvent::Closed) || (
            received@ matches Arrival::Event(ShellEvent::Exit(_)));
            &&& over <==> final(run).stage == RunStage::Over
            &&& over ==> !final(slots).exec_slot && final(channel).execs == old(channel).execs.saturating_sub(1)
            &&& !over ==> *final(slots) == *old(slots) && *final(channel) == *old(channel)
                && final(run).stage == old(run).stage
            &&& !over && old(run).drained < u32::MAX ==> final(run).drained == old(run).drained + 1
            &&& final(slots).pty_slot == old(slots).pty_slot
            &&& final(channel).interactive == old(channel).interactive
        },
        call_ensures(ExecRun::drain_wait, (run, channel, slots, elapsed_ms), wait) ==> {
            &&& elapsed_ms >= 30000 ==> wait is None && final(run).stage == RunStage::Over && !final(slots).exec_slot && final(channel).execs == old(channel).execs.saturating_sub(1)
            &&& elapsed_ms < 30000 ==> wait == Some(old(run).stage->idle_ms) && *final(run) == *old(run) && *final(slots) == *old(slots) && *final(channel) == *old(channel)
        },
{
}

/// A run that ends gives back what it holds, at whatever stage: its claim from
/// the start, its registration from its turn on; and one that is over gives back
/// nothing twice.
pub proof fn law_run_gives_back_its_own(
    run: &mut ExecRun,
    channel: &mut ShellChannel,
    slots: &mut ShellSlots,
)
    requires
        call_ensures(ExecRun::end, (run, channel, slots), ()),
    ensures
        final(run).stage == RunStage::Over,
        old(run).stage == RunStage::Over ==> *final(channel) == *old(channel) && *final(slots)
            == *old(slots),
        old(run).stage == RunStage::Queued ==> final(channel).execs == old(channel).execs.saturating_sub(1) && *final(slots) == *old(slots),
        old(run).stage == RunStage::Running || old(run).stage is Draining ==> final(channel).execs
            == old(channel).execs.saturating_sub(1) && !final(slots).exec_slot,
        final(channel).interactive == old(channel).interactive,
        final(slots).pty_slot == old(slots).pty_slot,
        final(slots).legacy_fallback == old(slots).legacy_fallback,
{
}

/// A silence of 150 milliseconds follows a command that ended by itself, one of
/// two seconds any other.
pub proof fn law_silence_after_a_command(ended: bool, ms: u64)
    requires
        call_ensures(post_run_idle, (ended,), ms),
    ensures
        ended ==> ms == 150,
        !ended ==> ms == 2000,
{
}

} // verus!
