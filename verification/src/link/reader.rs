//! The side of the link that reads.

use vstd::prelude::*;
use vstd::string::*;

use crate::app::{LinkEvent, TransportEvent};
use crate::clipboard::incoming::{Delivery, DeliveryView, Reassembly, delivery_view};
use crate::clipboard::{Outgoing, apply_clip_decline_with_label, decline_notice};
use crate::exec_bridge::{ExecEvent, ShellEvent, ShellSlots, SlotKind, route};
use crate::link::{Host, HostInfo, Link, LinkContext};
use crate::protocol::{Message, MessageView, Packet, PacketView, unnumbered};
use crate::text::{contains_text, text_contains};

verus! {

/// Milliseconds without a packet after which an idle link counts as lost.
pub const RECV_TIMEOUT_IDLE_MS: u64 = 6000;

/// The same while payload is under way or a shell session is open.
pub const RECV_TIMEOUT_BUSY_MS: u64 = 30000;

/// Counts damaged frames in a row.
#[derive(Debug, Clone, Copy, PartialEq, Eq, Structural)]
pub struct StormCounter {
    pub threshold: u32,
    pub count: u32,
}

impl StormCounter {
    /// One more damaged frame.
    pub open spec fn worse(self) -> StormCounter {
        StormCounter { count: self.count.saturating_add(1), ..self }
    }

    /// So many in a row that the port is to be opened again.
    pub open spec fn storm(self) -> bool {
        self.count >= self.threshold
    }

    pub fn new(threshold: u32) -> (r: StormCounter)
        ensures
            r == (StormCounter { threshold, count: 0 }),
    {
        StormCounter { threshold, count: 0 }
    }

    /// A frame was damaged. Returns whether that makes a storm.
    pub fn on_protocol_error(&mut self) -> (r: bool)
        ensures
            *final(self) == old(self).worse(),
            r == final(self).storm(),
    {
        self.count = self.count.saturating_add(1);
        self.count >= self.threshold
    }

    /// A packet was read: the run is over.
    pub fn on_valid_packet(&mut self)
        ensures
            *final(self) == (StormCounter { count: 0, ..*old(self) }),
    {
        self.count = 0;
    }
}

/// Why nothing was read.
#[derive(Debug, Clone, Copy, PartialEq, Eq, Structural)]
pub enum RecvFailure {
    /// Nothing came.
    Timeout,
    /// A damaged frame came.
    BadFrame,
    /// The transport is broken.
    Fatal,
}

/// Why nothing was read: anything that speaks of a timeout is one; of the rest,
/// a damaged frame is not the end of the link.
pub open spec fn failure_kind(text: Seq<char>, protocol: bool) -> RecvFailure {
    if text_contains(text, "timeout"@) {
        RecvFailure::Timeout
    } else if protocol {
        RecvFailure::BadFrame
    } else {
        RecvFailure::Fatal
    }
}

/// Why nothing was read. `text` is the error in words, `protocol` says that the
/// frame was damaged.
pub fn classify_failure(text: &str, protocol: bool) -> (r: RecvFailure)
    ensures
        r == failure_kind(text@, protocol),
{
    if contains_text(text, "timeout") {
        RecvFailure::Timeout
    } else if protocol {
        RecvFailure::BadFrame
    } else {
        RecvFailure::Fatal
    }
}

/// What follows from what was read.
#[derive(Debug, PartialEq, Eq)]
pub struct ReaderOutput {
    /// The reader ends.
    pub stop: bool,
    /// What the window is told.
    pub event: Option<TransportEvent>,
    /// What the host is told.
    pub send: Option<Packet>,
    /// What a shell session is told, and which.
    pub shell: Option<(SlotKind, ExecEvent)>,
    /// What the clipboard is to hold.
    pub delivery: Option<Delivery>,
}

/// `ReaderOutput` as a mathematical value.
#[verifier::ext_equal]
pub struct ReaderAnswer {
    pub stop: bool,
    pub event: Option<LinkEvent>,
    pub send: Option<PacketView>,
    pub shell: Option<(SlotKind, ShellEvent)>,
    pub delivery: Option<DeliveryView>,
}

impl View for ReaderOutput {
    type V = ReaderAnswer;

    open spec fn view(&self) -> ReaderAnswer {
        ReaderAnswer {
            stop: self.stop,
            event: match self.event {
                Some(e) => Some(e@),
                None => None,
            },
            send: match self.send {
                Some(p) => Some(p@),
                None => None,
            },
            shell: match self.shell {
                Some((kind, e)) => Some((kind, e@)),
                None => None,
            },
            delivery: delivery_view(self.delivery),
        }
    }
}

impl ReaderAnswer {
    pub open spec fn nothing() -> ReaderAnswer {
        ReaderAnswer { stop: false, event: None, send: None, shell: None, delivery: None }
    }

    pub open spec fn telling(event: LinkEvent) -> ReaderAnswer {
        ReaderAnswer { event: Some(event), ..ReaderAnswer::nothing() }
    }

    /// The link is over.
    pub open spec fn ending(reason: Seq<char>) -> ReaderAnswer {
        ReaderAnswer { stop: true, ..ReaderAnswer::telling(LinkEvent::Disconnected(reason)) }
    }

    /// A shell event goes to whoever is registered for it. `kind` says whose
    /// shell it comes from.
    pub open spec fn shell_event(
        slots: ShellSlots,
        kind: SlotKind,
        event: ShellEvent,
    ) -> ReaderAnswer {
        ReaderAnswer {
            shell: match slots.receiver(kind) {
                Some(session) => Some((session, event)),
                None => None,
            },
            ..ReaderAnswer::nothing()
        }
    }
}

/// The reader's own state.
#[derive(Debug, Clone, Copy, PartialEq, Eq, Structural)]
pub struct Reader {
    pub storm: StormCounter,
    /// When the last packet was read, in milliseconds.
    pub last_recv_ms: u64,
    /// A cancelled transfer is being dropped.
    pub cancel_seen: bool,
    /// How many chunks of it were dropped.
    pub cancel_drop_count: u32,
    pub idle_ms: u64,
    pub busy_ms: u64,
}

/// The link once a host has answered.
pub open spec fn greeted(link: Link, host: Host) -> Link {
    Link {
        link_up: true,
        host: Some(host),
        slots: ShellSlots { legacy_fallback: !link.dual(host.proto_version), ..link.slots },
        ..link.session_reset()
    }
}

fn greet(ctx: &mut LinkContext, info: HostInfo)
    ensures
        final(ctx)@ == greeted(old(ctx)@, info@),
{
    ctx.reset_session_state();
    ctx.slots.legacy_fallback = info.proto_version < ctx.pty_since;
    ctx.host_info = Some(info);
    ctx.link_up = true;
}

fn end_session(ctx: &mut LinkContext)
    ensures
        final(ctx)@ == old(ctx)@.session_reset().link_down(),
{
    ctx.reset_session_state();
    ctx.mark_down();
}

/// The host does not take what was offered; the result tells the user.
fn declined(ctx: &mut LinkContext, format: u8) -> (r: String)
    ensures
        r@ == decline_notice(format),
        final(ctx)@ == (Link {
            outgoing_cancel: true,
            outgoing: Outgoing { label: Seq::empty(), ..old(ctx)@.outgoing },
            ..old(ctx)@
        }),
{
    let toast = apply_clip_decline_with_label(
        format,
        &mut ctx.outgoing_cancel,
        &mut ctx.current_outgoing_label,
    );
    assert(ctx.current_outgoing_label@ =~= Seq::empty());
    toast
}

impl Reader {
    /// The reader after any packet was read: the link is alive.
    pub open spec fn alive(self, now_ms: u64) -> Reader {
        Reader {
            storm: StormCounter { count: 0, ..self.storm },
            last_recv_ms: now_ms,
            ..self
        }
    }

    /// The reader after a chunk: it counts those that nobody wants.
    pub open spec fn after_chunk(self, link: Link) -> Reader {
        if link.incoming_cancel {
            let before = if self.cancel_seen {
                self.cancel_drop_count
            } else {
                0
            };
            Reader { cancel_seen: true, cancel_drop_count: before.saturating_add(1), ..self }
        } else {
            self
        }
    }

    /// The link after a chunk.
    pub open spec fn link_after_chunk(self, link: Link, index: u16, data: Seq<u8>) -> Link {
        Link {
            incoming: if !link.incoming_cancel {
                link.incoming.after_chunk(index, data)
            } else if self.cancel_seen {
                link.incoming
            } else {
                link.incoming.after_reset()
            },
            ..link
        }
    }

    /// The reader after a message.
    pub open spec fn after_message(self, link: Link, message: MessageView, now_ms: u64) -> Reader {
        let alive = self.alive(now_ms);
        match message {
            MessageView::ClipOffer { .. } => Reader {
                cancel_seen: false,
                cancel_drop_count: 0,
                ..alive
            },
            MessageView::ClipChunk { .. } => alive.after_chunk(link),
            _ => alive,
        }
    }

    /// The link after a message.
    pub open spec fn link_after_message(self, link: Link, message: MessageView) -> Link {
        match message {
            MessageView::HelloAck { version, host_name, screen_w, screen_h } => greeted(
                link,
                Host {
                    host_name,
                    screen_w: screen_w as u32,
                    screen_h: screen_h as u32,
                    proto_version: version,
                },
            ),
            MessageView::ClipOffer { format, total_len } => Link {
                incoming_cancel: false,
                incoming: link.incoming.after_offer(format, total_len),
                ..link
            },
            MessageView::ClipDecline { .. } => Link {
                outgoing_cancel: true,
                outgoing: Outgoing { label: Seq::empty(), ..link.outgoing },
                ..link
            },
            MessageView::ClipChunk { index, data } => self.link_after_chunk(link, index, data),
            MessageView::Disconnect => link.session_reset().link_down(),
            _ => link,
        }
    }

    /// What follows from a message.
    pub open spec fn answer(self, link: Link, message: MessageView) -> ReaderAnswer {
        match message {
            MessageView::HelloAck { version: _, host_name, screen_w, screen_h } =>
                ReaderAnswer::telling(LinkEvent::Connected { host_name, screen_w, screen_h }),
            MessageView::Heartbeat => ReaderAnswer::telling(LinkEvent::Heartbeat),
            MessageView::ClipOffer { format, total_len } => ReaderAnswer {
                send: if link.incoming.verdict(format, total_len) is Declined {
                    Some(unnumbered(MessageView::ClipDecline { format }))
                } else {
                    None
                },
                ..ReaderAnswer::nothing()
            },
            MessageView::ClipDecline { format } => ReaderAnswer::telling(
                LinkEvent::Toast(decline_notice(format)),
            ),
            MessageView::ClipChunk { index, data } => ReaderAnswer {
                delivery: if link.incoming_cancel {
                    None
                } else {
                    link.incoming.delivered(index, data)
                },
                ..ReaderAnswer::nothing()
            },
            MessageView::ShellOutput { data } => ReaderAnswer::shell_event(
                link.slots,
                SlotKind::Exec,
                ShellEvent::Output(data),
            ),
            MessageView::ShellExit { code } => ReaderAnswer::shell_event(
                link.slots,
                SlotKind::Exec,
                ShellEvent::Exit(code),
            ),
            MessageView::ShellClosed => ReaderAnswer::shell_event(
                link.slots,
                SlotKind::Exec,
                ShellEvent::Closed,
            ),
            MessageView::PtyOutput { data } => ReaderAnswer::shell_event(
                link.slots,
                SlotKind::Pty,
                ShellEvent::Output(data),
            ),
            MessageView::PtyExit { code } => ReaderAnswer::shell_event(
                link.slots,
                SlotKind::Pty,
                ShellEvent::Exit(code),
            ),
            MessageView::Error { code: _, msg } => if text_contains(msg, "shell"@) {
                ReaderAnswer::shell_event(link.slots, SlotKind::Exec, ShellEvent::HostError(msg))
            } else {
                ReaderAnswer::nothing()
            },
            MessageView::Disconnect => ReaderAnswer::ending("host disconnected"@),
            _ => ReaderAnswer::nothing(),
        }
    }

    /// How long the host may be silent, in milliseconds.
    pub open spec fn patience(self, link: Link) -> u64 {
        if link.busy() {
            self.busy_ms
        } else {
            self.idle_ms
        }
    }

    /// Why the link is over after a failure to read, where it is.
    pub open spec fn end_reason(
        self,
        link: Link,
        text: Seq<char>,
        protocol: bool,
        now_ms: u64,
    ) -> Option<Seq<char>> {
        match failure_kind(text, protocol) {
            RecvFailure::Timeout => if now_ms.saturating_sub(self.last_recv_ms) >= self.patience(
                link,
            ) {
                Some("host link lost — no heartbeat"@)
            } else {
                None
            },
            RecvFailure::BadFrame => if self.storm.worse().storm() {
                Some("frame-error storm — reopening port"@)
            } else {
                None
            },
            RecvFailure::Fatal => Some(text),
        }
    }

    /// The link after a failure to read.
    pub open spec fn link_after_failure(
        self,
        link: Link,
        text: Seq<char>,
        protocol: bool,
        now_ms: u64,
    ) -> Link {
        if self.end_reason(link, text, protocol, now_ms) is Some {
            link.session_reset().link_down()
        } else {
            link
        }
    }

    /// What follows from a failure to read.
    pub open spec fn failure_answer(
        self,
        link: Link,
        text: Seq<char>,
        protocol: bool,
        now_ms: u64,
    ) -> ReaderAnswer {
        match self.end_reason(link, text, protocol, now_ms) {
            Some(reason) => ReaderAnswer::ending(reason),
            None => ReaderAnswer::nothing(),
        }
    }

    /// The reader after a failure to read.
    pub open spec fn after_failure(self, text: Seq<char>, protocol: bool) -> Reader {
        if failure_kind(text, protocol) == RecvFailure::BadFrame {
            Reader { storm: self.storm.worse(), ..self }
        } else {
            self
        }
    }

    pub fn new(now_ms: u64, storm_threshold: u32, idle_ms: u64, busy_ms: u64) -> (r: Reader)
        ensures
            r == (Reader {
                storm: StormCounter { threshold: storm_threshold, count: 0 },
                last_recv_ms: now_ms,
                cancel_seen: false,
                cancel_drop_count: 0,
                idle_ms,
                busy_ms,
            }),
    {
        Reader {
            storm: StormCounter::new(storm_threshold),
            last_recv_ms: now_ms,
            cancel_seen: false,
            cancel_drop_count: 0,
            idle_ms,
            busy_ms,
        }
    }

    /// Takes a chunk in, or drops it where the user does not want the rest.
    fn take_chunk(&mut self, ctx: &mut LinkContext, index: u16, data: Vec<u8>) -> (r: Option<
        Delivery,
    >)
        ensures
            *final(self) == old(self).after_chunk(old(ctx)@),
            final(ctx)@ == old(self).link_after_chunk(old(ctx)@, index, data@),
            delivery_view(r) == (if old(ctx)@.incoming_cancel {
                None
            } else {
                old(ctx)@.incoming.delivered(index, data@)
            }),
    {
        if !ctx.incoming_cancel {
            return ctx.incoming.on_chunk(index, data);
        }
        if !self.cancel_seen {
            ctx.incoming.reset();
            self.cancel_seen = true;
            self.cancel_drop_count = 0;
        }
        self.cancel_drop_count = self.cancel_drop_count.saturating_add(1);
        None
    }

    /// A message was read.
    #[verifier::rlimit(40)]
    pub fn on_message(&mut self, ctx: &mut LinkContext, message: Message, now_ms: u64) -> (r:
        ReaderOutput)
        ensures
            *final(self) == old(self).after_message(old(ctx)@, message@, now_ms),
            final(ctx)@ == old(self).link_after_message(old(ctx)@, message@),
            r@ == old(self).answer(old(ctx)@, message@),
    {
        self.storm.on_valid_packet();
        self.last_recv_ms = now_ms;
        let mut out = ReaderOutput {
            stop: false,
            event: None,
            send: None,
            shell: None,
            delivery: None,
        };
        match message {
            Message::HelloAck { version, host_name, screen_w, screen_h } => {
                greet(
                    ctx,
                    HostInfo {
                        host_name: host_name.clone(),
                        screen_w: screen_w as u32,
                        screen_h: screen_h as u32,
                        proto_version: version,
                    },
                );
                out.event = Some(TransportEvent::Connected { host_name, screen_w, screen_h });
            },
            Message::Heartbeat => {
                out.event = Some(TransportEvent::Heartbeat);
            },
            Message::ClipOffer { format, total_len } => {
                ctx.incoming_cancel = false;
                self.cancel_seen = false;
                self.cancel_drop_count = 0;
                match ctx.incoming.on_offer(format, total_len) {
                    Some(decline) => {
                        out.send = Some(Packet::new(decline, 0));
                    },
                    None => {},
                }
            },
            Message::ClipDecline { format } => {
                out.event = Some(TransportEvent::Toast(declined(ctx, format)));
            },
            Message::ClipChunk { index, data } => {
                out.delivery = self.take_chunk(ctx, index, data);
            },
            Message::ShellOutput { data } => {
                out.shell = shell_event(&ctx.slots, SlotKind::Exec, ExecEvent::ShellOutput(data));
            },
            Message::ShellExit { code } => {
                out.shell = shell_event(&ctx.slots, SlotKind::Exec, ExecEvent::ShellExit(code));
            },
            Message::ShellClosed => {
                out.shell = shell_event(&ctx.slots, SlotKind::Exec, ExecEvent::ShellClosed);
            },
            Message::PtyOutput { data } => {
                out.shell = shell_event(&ctx.slots, SlotKind::Pty, ExecEvent::ShellOutput(data));
            },
            Message::PtyExit { code } => {
                out.shell = shell_event(&ctx.slots, SlotKind::Pty, ExecEvent::ShellExit(code));
            },
            Message::Error { code: _, msg } => {
                if contains_text(msg.as_str(), "shell") {
                    out.shell = shell_event(&ctx.slots, SlotKind::Exec, ExecEvent::HostError(msg));
                }
            },
            Message::Disconnect => {
                end_session(ctx);
                out.event = Some(TransportEvent::Disconnected("host disconnected".to_owned()));
                out.stop = true;
            },
            _ => {},
        }
        out
    }

    /// Reading failed; `text` is the error in words.
    pub fn on_failure(
        &mut self,
        ctx: &mut LinkContext,
        text: String,
        protocol: bool,
        now_ms: u64,
    ) -> (r: ReaderOutput)
        ensures
            *final(self) == old(self).after_failure(text@, protocol),
            final(ctx)@ == old(self).link_after_failure(old(ctx)@, text@, protocol, now_ms),
            r@ == old(self).failure_answer(old(ctx)@, text@, protocol, now_ms),
    {
        let reason = match classify_failure(text.as_str(), protocol) {
            RecvFailure::Timeout => {
                let limit: u64 = if ctx.transfer_in_flight() {
                    self.busy_ms
                } else {
                    self.idle_ms
                };
                if now_ms.saturating_sub(self.last_recv_ms) >= limit {
                    Some("host link lost — no heartbeat".to_owned())
                } else {
                    None
                }
            },
            RecvFailure::BadFrame => {
                if self.storm.on_protocol_error() {
                    Some("frame-error storm — reopening port".to_owned())
                } else {
                    None
                }
            },
            RecvFailure::Fatal => Some(text),
        };
        match reason {
            Some(words) => {
                end_session(ctx);
                ReaderOutput {
                    stop: true,
                    event: Some(TransportEvent::Disconnected(words)),
                    send: None,
                    shell: None,
                    delivery: None,
                }
            },
            None => ReaderOutput {
                stop: false,
                event: None,
                send: None,
                shell: None,
                delivery: None,
            },
        }
    }
}

fn shell_event(slots: &ShellSlots, kind: SlotKind, event: ExecEvent) -> (r: Option<
    (SlotKind, ExecEvent),
>)
    ensures
        r == (match slots.receiver(kind) {
            Some(session) => Some((session, event)),
            None => None,
        }),
{
    match route(slots, kind) {
        Some(session) => Some((session, event)),
        None => None,
    }
}

/// The link is raised by the host's answer and by nothing else that is read,
/// and the host is then known.
pub proof fn law_only_the_handshake_raises_the_link(reader: Reader, link: Link, message: MessageView)
    ensures
        reader.link_after_message(link, message).link_up && !link.link_up ==> message is HelloAck,
        message is HelloAck ==> reader.link_after_message(link, message).link_up
            && reader.link_after_message(link, message).host is Some,
{
}

/// Whatever ends the reader leaves the link down and the host unknown, so that
/// nothing is begun on a link that nobody reads from.
pub proof fn law_ended_reader_leaves_the_link_down(
    reader: Reader,
    link: Link,
    message: MessageView,
    text: Seq<char>,
    protocol: bool,
    now_ms: u64,
)
    ensures
        reader.answer(link, message).stop ==> {
            let after = reader.link_after_message(link, message);
            !after.link_up && after.host is None && !after.slots.legacy_fallback
        },
        reader.failure_answer(link, text, protocol, now_ms).stop ==> {
            let after = reader.link_after_failure(link, text, protocol, now_ms);
            !after.link_up && after.host is None && !after.slots.legacy_fallback
        },
{
}

/// With a host that has both shells, the console gets what its shell says and a
/// command what the other one says, whatever else is read.
pub proof fn law_shells_are_told_apart(reader: Reader, link: Link, message: MessageView)
    requires
        !link.slots.legacy_fallback,
    ensures
        reader.answer(link, message).shell matches Some((session, _)) ==> {
            &&& link.slots.installed(session)
            &&& session == SlotKind::Pty <==> message is PtyOutput || message is PtyExit
        },
        (message is PtyOutput || message is PtyExit) && link.slots.installed(SlotKind::Pty)
            ==> reader.answer(link, message).shell is Some,
        (message is ShellOutput || message is ShellExit || message is ShellClosed)
            && link.slots.installed(SlotKind::Exec) ==> reader.answer(link, message).shell is Some,
{
}

/// Damaged frames end the link only in a run as long as the threshold: one good
/// packet in between starts the count anew, and silence does not touch it.
pub proof fn law_good_packet_ends_a_run_of_damaged_frames(
    reader: Reader,
    link: Link,
    message: MessageView,
    now_ms: u64,
    text: Seq<char>,
)
    requires
        reader.storm.threshold >= 2,
        failure_kind(text, true) == RecvFailure::BadFrame,
    ensures
        reader.after_message(link, message, now_ms).storm.count == 0,
        reader.after_message(link, message, now_ms).end_reason(link, text, true, now_ms) is None,
        failure_kind(text, false) == RecvFailure::Fatal,
{
}

/// The reader after `n` damaged frames in a row.
pub open spec fn after_bad_frames(reader: Reader, n: nat) -> Reader
    decreases n,
{
    if n == 0 {
        reader
    } else {
        let before = after_bad_frames(reader, (n - 1) as nat);
        Reader { storm: before.storm.worse(), ..before }
    }
}

/// Starting from a good packet, exactly the threshold's number of damaged
/// frames in a row ends the link.
pub proof fn law_storm_takes_the_threshold(reader: Reader, n: nat)
    requires
        reader.storm.count == 0,
        n < reader.storm.threshold,
    ensures
        after_bad_frames(reader, n).storm.count == n,
        after_bad_frames(reader, n).storm.worse().storm() <==> n + 1 == reader.storm.threshold,
        after_bad_frames(reader, n).storm.threshold == reader.storm.threshold,
    decreases n,
{
    if n > 0 {
        law_storm_takes_the_threshold(reader, (n - 1) as nat);
    }
}

/// Nothing is awaited, no counter shows a transfer, and nothing counts as sent.
pub open spec fn nothing_half_done(link: Link) -> bool {
    &&& link.incoming.reassembly == Reassembly::idle()
    &&& link.outgoing.total == 0
    &&& link.outgoing.progress == 0
    &&& forall|h: u64|
        !(#[trigger] link.seen.has_text(h)) && !link.seen.has_image(h) && !link.seen.has_file(h)
}

/// What ends the session, and the handshake that begins one, leave nothing half
/// done.
pub proof fn law_ended_session_leaves_nothing_half_done(
    reader: Reader,
    link: Link,
    message: MessageView,
    text: Seq<char>,
    protocol: bool,
    now_ms: u64,
)
    ensures
        reader.answer(link, message).stop || message is HelloAck ==> nothing_half_done(
            reader.link_after_message(link, message),
        ),
        reader.failure_answer(link, text, protocol, now_ms).stop ==> nothing_half_done(
            reader.link_after_failure(link, text, protocol, now_ms),
        ),
{
}

/// What comes between the chunks of a transfer does not disturb it: only an
/// offer, a chunk, a handshake or the host's farewell touches what is awaited,
/// and only a chunk delivers anything.
pub proof fn law_other_messages_leave_a_transfer_alone(
    reader: Reader,
    link: Link,
    message: MessageView,
)
    ensures
        !(message is ClipOffer || message is ClipChunk || message is HelloAck
            || message is Disconnect) ==> {
            &&& reader.link_after_message(link, message).incoming == link.incoming
            &&& reader.link_after_message(link, message).incoming_cancel == link.incoming_cancel
        },
        message !is ClipChunk ==> reader.answer(link, message).delivery is None,
{
}

/// While the user does not want what arrives, its chunks are dropped and
/// nothing is delivered; the next offer is received again.
pub proof fn law_cancelled_transfer_is_not_delivered(
    reader: Reader,
    link: Link,
    index: u16,
    data: Seq<u8>,
    format: u8,
    total_len: u32,
)
    requires
        link.incoming_cancel,
    ensures
        ({
            let chunk = MessageView::ClipChunk { index, data };
            let offer = MessageView::ClipOffer { format, total_len };
            &&& reader.answer(link, chunk).delivery is None
            &&& reader.link_after_message(link, chunk).incoming_cancel
            &&& !reader.cancel_seen ==> reader.link_after_message(link, chunk).incoming
                == link.incoming.after_reset()
            &&& reader.cancel_seen ==> reader.link_after_message(link, chunk) == link
            &&& !reader.link_after_message(link, offer).incoming_cancel
        }),
{
}

/// A busy link is given more time than an idle one, and a link from which
/// something was just read is not lost.
pub proof fn law_fresh_link_is_not_lost(
    reader: Reader,
    link: Link,
    message: MessageView,
    now_ms: u64,
    text: Seq<char>,
)
    requires
        reader.idle_ms > 0,
        reader.busy_ms > 0,
        failure_kind(text, false) == RecvFailure::Timeout,
    ensures
        reader.after_message(link, message, now_ms).end_reason(link, text, false, now_ms) is None,
{
}

/// What a shell put out reaches the session that is registered for it byte for
/// byte, and so do its exit code and the word that it was closed: what comes of
/// the shell for commands goes to the command, what comes of the one for
/// consoles to the console.
pub proof fn law_shell_words_reach_their_session(
    reader: &mut Reader,
    ctx: &mut LinkContext,
    message: Message,
    now_ms: u64,
    r: ReaderOutput,
)
    requires
        call_ensures(Reader::on_message, (reader, ctx, message, now_ms), r),
    ensures
        old(ctx).slots.exec_slot ==> {
            &&& message@ matches MessageView::ShellOutput { data } ==> r@.shell == Some(
                (SlotKind::Exec, ShellEvent::Output(data)),
            )
            &&& message@ matches MessageView::ShellExit { code } ==> r@.shell == Some(
                (SlotKind::Exec, ShellEvent::Exit(code)),
            )
            &&& message@ is ShellClosed ==> r@.shell == Some((SlotKind::Exec, ShellEvent::Closed))
            &&& message@ matches MessageView::Error { code, msg } ==> text_contains(msg, "shell"@)
                ==> r@.shell == Some((SlotKind::Exec, ShellEvent::HostError(msg)))
        },
        old(ctx).slots.pty_slot ==> {
            &&& message@ matches MessageView::PtyOutput { data } ==> r@.shell == Some(
                (SlotKind::Pty, ShellEvent::Output(data)),
            )
            &&& message@ matches MessageView::PtyExit { code } ==> r@.shell == Some(
                (SlotKind::Pty, ShellEvent::Exit(code)),
            )
        },
{
}

/// Of a host with one shell, a console that is registered alone gets what the
/// shell says, unchanged.
pub proof fn law_legacy_shell_serves_the_console(
    reader: &mut Reader,
    ctx: &mut LinkContext,
    message: Message,
    now_ms: u64,
    r: ReaderOutput,
)
    requires
        call_ensures(Reader::on_message, (reader, ctx, message, now_ms), r),
        old(ctx).slots.legacy_fallback,
        old(ctx).slots.pty_slot,
        !old(ctx).slots.exec_slot,
    ensures
        message@ matches MessageView::ShellOutput { data } ==> r@.shell == Some(
            (SlotKind::Pty, ShellEvent::Output(data)),
        ),
        message@ matches MessageView::ShellExit { code } ==> r@.shell == Some(
            (SlotKind::Pty, ShellEvent::Exit(code)),
        ),
        message@ matches MessageView::Error { code, msg } ==> text_contains(msg, "shell"@)
            ==> r@.shell == Some((SlotKind::Pty, ShellEvent::HostError(msg))),
{
}

/// Nothing but what a shell said is told to a session, and nothing where nobody
/// is registered.
pub proof fn law_sessions_hear_of_shells_alone(
    reader: &mut Reader,
    ctx: &mut LinkContext,
    message: Message,
    now_ms: u64,
    r: ReaderOutput,
)
    requires
        call_ensures(Reader::on_message, (reader, ctx, message, now_ms), r),
    ensures
        r.shell is Some ==> old(ctx).slots.exec_slot || old(ctx).slots.pty_slot,
        r.shell is Some ==> message@ is ShellOutput || message@ is ShellExit || message@ is ShellClosed
            || message@ is PtyOutput || message@ is PtyExit || message@ is Error,
        message@ matches MessageView::Error { code, msg } ==> !text_contains(msg, "shell"@)
            ==> r.shell is None,
        message@ is ShellOutput || message@ is ShellExit || message@ is ShellClosed
            || message@ is PtyOutput || message@ is PtyExit || message@ is Error ==> {
            &&& final(ctx)@ == old(ctx)@
            &&& !r.stop && r.event is None && r.send is None && r.delivery is None
        },
{
}

/// The host's answer to the greeting is taken as it is: its name, its screen and
/// its generation are known from then on, the window is told of them, and
/// whether there is a shell of its own for consoles follows from the
/// generation.
pub proof fn law_host_is_known_as_it_said(
    reader: &mut Reader,
    ctx: &mut LinkContext,
    message: Message,
    now_ms: u64,
    r: ReaderOutput,
)
    requires
        call_ensures(Reader::on_message, (reader, ctx, message, now_ms), r),
    ensures
        message@ matches MessageView::HelloAck { version, host_name, screen_w, screen_h } ==> {
            &&& final(ctx)@.link_up
            &&& final(ctx)@.host == Some(
                Host {
                    host_name,
                    screen_w: screen_w as u32,
                    screen_h: screen_h as u32,
                    proto_version: version,
                },
            )
            &&& final(ctx)@.slots.legacy_fallback <==> version < old(ctx).pty_since
            &&& final(ctx)@.slots.exec_slot == old(ctx)@.slots.exec_slot
            &&& final(ctx)@.slots.pty_slot == old(ctx)@.slots.pty_slot
            &&& r@.event == Some(LinkEvent::Connected { host_name, screen_w, screen_h })
            &&& !r.stop && r.send is None && r.shell is None && r.delivery is None
        },
{
}

/// A heartbeat of the host is passed on to the window and changes nothing.
pub proof fn law_heartbeat_changes_nothing(
    reader: &mut Reader,
    ctx: &mut LinkContext,
    now_ms: u64,
    r: ReaderOutput,
)
    requires
        call_ensures(Reader::on_message, (reader, ctx, Message::Heartbeat, now_ms), r),
    ensures
        final(ctx)@ == old(ctx)@,
        r@ == (ReaderAnswer {
            stop: false,
            event: Some(LinkEvent::Heartbeat),
            send: None,
            shell: None,
            delivery: None,
        }),
{
}

/// A host that declines what was offered stops the transfer, and the user is
/// told; the file's name is then free for text again.
pub proof fn law_declined_offer_stops_the_transfer(
    reader: &mut Reader,
    ctx: &mut LinkContext,
    format: u8,
    now_ms: u64,
    r: ReaderOutput,
)
    requires
        call_ensures(Reader::on_message, (reader, ctx, Message::ClipDecline { format }, now_ms), r),
    ensures
        final(ctx)@.outgoing_cancel,
        final(ctx)@.outgoing.label.len() == 0,
        final(ctx)@ == (Link {
            outgoing_cancel: true,
            outgoing: Outgoing { label: Seq::empty(), ..old(ctx)@.outgoing },
            ..old(ctx)@
        }),
        r@.event == Some(
            LinkEvent::Toast(
                if format == 2 {
                    "Peer declined file (Receive files off)"@
                } else {
                    "Host declined the clipboard transfer"@
                },
            ),
        ),
        !r.stop && r.send is None && r.shell is None && r.delivery is None,
{
}

/// What is not for a client to hear is passed over.
pub proof fn law_foreign_messages_are_passed_over(
    reader: &mut Reader,
    ctx: &mut LinkContext,
    message: Message,
    now_ms: u64,
    r: ReaderOutput,
)
    requires
        call_ensures(Reader::on_message, (reader, ctx, message, now_ms), r),
        message@ is Hello || message@ is KeyDown || message@ is KeyUp || message@ is MouseMove
            || message@ is MouseButton || message@ is MouseScroll || message@ is ShellOpen
            || message@ is ShellOpenPty || message@ is ShellInput || message@ is ShellClose
            || message@ is PtyOpen || message@ is PtyInput || message@ is PtyResize
            || message@ is PtyClose,
    ensures
        final(ctx)@ == old(ctx)@,
        !r.stop && r.event is None && r.send is None && r.shell is None && r.delivery is None,
{
}

/// Whatever is read, the client keeps its name and version, the sessions keep
/// their places, and the user's choices stay; and only the end of a session and
/// a new one touch what was seen.
pub proof fn law_reading_keeps_what_is_not_the_hosts(
    reader: &mut Reader,
    ctx: &mut LinkContext,
    message: Message,
    now_ms: u64,
    r: ReaderOutput,
)
    requires
        call_ensures(Reader::on_message, (reader, ctx, message, now_ms), r),
    ensures
        final(ctx)@.client_name == old(ctx)@.client_name,
        final(ctx)@.version == old(ctx)@.version && final(ctx)@.pty_since == old(ctx)@.pty_since,
        final(ctx)@.slots.exec_slot == old(ctx)@.slots.exec_slot,
        final(ctx)@.slots.pty_slot == old(ctx)@.slots.pty_slot,
        final(ctx)@.incoming.receive_text == old(ctx)@.incoming.receive_text,
        final(ctx)@.incoming.receive_images == old(ctx)@.incoming.receive_images,
        final(ctx)@.incoming.receive_files == old(ctx)@.incoming.receive_files,
        final(ctx)@.incoming.file_caps == old(ctx)@.incoming.file_caps,
        !(message@ is HelloAck || message@ is Disconnect) ==> {
            &&& final(ctx)@.seen == old(ctx)@.seen
            &&& final(ctx)@.link_up == old(ctx)@.link_up && final(ctx)@.host == old(ctx)@.host
            &&& final(ctx)@.outgoing.progress == old(ctx)@.outgoing.progress
            &&& final(ctx)@.outgoing.total == old(ctx)@.outgoing.total
        },
        !(message@ is ClipDecline) ==> final(ctx)@.outgoing_cancel == old(ctx)@.outgoing_cancel
            && final(ctx)@.outgoing.label == old(ctx)@.outgoing.label,
{
}

/// Only the host's farewell ends the reader, and it does; the window is told.
pub proof fn law_farewell_ends_the_reader(
    reader: &mut Reader,
    ctx: &mut LinkContext,
    message: Message,
    now_ms: u64,
    r: ReaderOutput,
)
    requires
        call_ensures(Reader::on_message, (reader, ctx, message, now_ms), r),
    ensures
        r.stop <==> message@ is Disconnect,
        message@ is Disconnect ==> r@.event == Some(LinkEvent::Disconnected("host disconnected"@))
            && !final(ctx).link_up && final(ctx).host_info is None,
{
}

/// Whatever is read, the host is alive at that moment, and a run of damaged
/// frames is over.
pub proof fn law_any_message_is_a_sign_of_life(
    reader: &mut Reader,
    ctx: &mut LinkContext,
    message: Message,
    now_ms: u64,
    r: ReaderOutput,
)
    requires
        call_ensures(Reader::on_message, (reader, ctx, message, now_ms), r),
    ensures
        final(reader).last_recv_ms == now_ms,
        final(reader).storm.count == 0,
        final(reader).storm.threshold == old(reader).storm.threshold,
        final(reader).idle_ms == old(reader).idle_ms && final(reader).busy_ms
            == old(reader).busy_ms,
{
}

/// A host that is silent is given up after the time for an idle link, or after
/// the longer one while payload is under way or a shell session is open; not
/// before. Silence alone is no damaged frame.
pub proof fn law_silent_host_is_given_up(
    reader: &mut Reader,
    ctx: &mut LinkContext,
    text: String,
    protocol: bool,
    now_ms: u64,
    r: ReaderOutput,
)
    requires
        call_ensures(Reader::on_failure, (reader, ctx, text, protocol, now_ms), r),
        text_contains(text@, "timeout"@),
        old(reader).last_recv_ms <= now_ms,
    ensures
        ({
            let quiet = old(ctx).outgoing_progress >= old(ctx).outgoing_total && old(ctx).incoming.incoming_progress >= old(ctx).incoming.incoming_total && !old(ctx).slots.exec_slot && !old(ctx).slots.pty_slot;
            let silence = now_ms - old(reader).last_recv_ms;
            &&& quiet ==> (r.stop <==> silence >= old(reader).idle_ms)
            &&& !quiet ==> (r.stop <==> silence >= old(reader).busy_ms)
        }),
        r.stop <==> r.event is Some,
        r.stop ==> r@.event == Some(LinkEvent::Disconnected("host link lost — no heartbeat"@))
            && !final(ctx).link_up,
        !r.stop ==> final(ctx)@ == old(ctx)@,
        *final(reader) == *old(reader),
        r.send is None && r.shell is None && r.delivery is None,
{
}

/// A broken transport ends the reader at once, and the window is told in the
/// words of the failure.
pub proof fn law_broken_transport_ends_the_reader(
    reader: &mut Reader,
    ctx: &mut LinkContext,
    text: String,
    now_ms: u64,
    r: ReaderOutput,
)
    requires
        call_ensures(Reader::on_failure, (reader, ctx, text, false, now_ms), r),
        !text_contains(text@, "timeout"@),
    ensures
        r.stop,
        r@.event == Some(LinkEvent::Disconnected(text@)),
        !final(ctx).link_up && final(ctx).host_info is None,
        *final(reader) == *old(reader),
{
}

/// A damaged frame counts, and the link ends with the one that fills the
/// threshold; the link stays as it is until then.
pub proof fn law_damaged_frames_count(
    reader: &mut Reader,
    ctx: &mut LinkContext,
    text: String,
    now_ms: u64,
    r: ReaderOutput,
)
    requires
        call_ensures(Reader::on_failure, (reader, ctx, text, true, now_ms), r),
        !text_contains(text@, "timeout"@),
        old(reader).storm.count < u32::MAX,
    ensures
        final(reader).storm.count == old(reader).storm.count + 1,
        final(reader).storm.threshold == old(reader).storm.threshold,
        final(reader).last_recv_ms == old(reader).last_recv_ms,
        r.stop <==> final(reader).storm.count >= old(reader).storm.threshold,
        !r.stop ==> final(ctx)@ == old(ctx)@ && r.event is None,
        r.stop ==> r@.event == Some(LinkEvent::Disconnected("frame-error storm — reopening port"@))
            && !final(ctx).link_up,
{
}

/// An idle link is given six seconds, a busy one half a minute.
pub proof fn law_patience_of_the_client()
    ensures
        RECV_TIMEOUT_IDLE_MS == 6000,
        RECV_TIMEOUT_BUSY_MS == 30000,
{
}

/// A reader starts with the host alive, no damaged frame, and the times that it
/// is given, each in its place.
pub proof fn law_reader_starts_alive(
    now_ms: u64,
    threshold: u32,
    idle_ms: u64,
    busy_ms: u64,
    reader: Reader,
)
    requires
        call_ensures(Reader::new, (now_ms, threshold, idle_ms, busy_ms), reader),
    ensures
        reader.last_recv_ms == now_ms,
        reader.storm.count == 0 && reader.storm.threshold == threshold,
        reader.idle_ms == idle_ms && reader.busy_ms == busy_ms,
        !reader.cancel_seen && reader.cancel_drop_count == 0,
{
}

/// Damaged frames are counted one by one, and a good one starts the count anew;
/// a storm is as many as the threshold.
pub proof fn law_storm_is_counted(storm: &mut StormCounter, r: bool)
    ensures
        call_ensures(StormCounter::on_protocol_error, (storm,), r) ==> {
            &&& old(storm).count < u32::MAX ==> final(storm).count == old(storm).count + 1
            &&& r <==> final(storm).count >= old(storm).threshold
            &&& final(storm).threshold == old(storm).threshold
        },
        call_ensures(StormCounter::on_valid_packet, (storm,), ()) ==> final(storm).count == 0
            && final(storm).threshold == old(storm).threshold,
{
}

/// A failure that speaks of a timeout is silence; of the others a damaged frame
/// is not the end of the transport, anything else is.
pub proof fn law_failures_are_told_apart(text: &str, protocol: bool, r: RecvFailure)
    requires
        call_ensures(classify_failure, (text, protocol), r),
    ensures
        r == RecvFailure::Timeout <==> text_contains(text@, "timeout"@),
        r == RecvFailure::BadFrame <==> protocol && !text_contains(text@, "timeout"@),
        r == RecvFailure::Fatal <==> !protocol && !text_contains(text@, "timeout"@),
{
}

/// An offer that the user wants is awaited, one that the user does not want is
/// declined by its format, and either way what arrives next is wanted again.
pub proof fn law_offer_is_answered(
    reader: &mut Reader,
    ctx: &mut LinkContext,
    format: u8,
    total_len: u32,
    now_ms: u64,
    r: ReaderOutput,
)
    requires
        call_ensures(
            Reader::on_message,
            (reader, ctx, Message::ClipOffer { format, total_len }, now_ms),
            r,
        ),
    ensures
        ({
            let wanted = format == 0 && old(ctx).incoming.receive_text || format == 1 && old(ctx).incoming.receive_images || format == 2 && old(ctx).incoming.receive_files;
            let fits = format == 0 && total_len <= 256 * 1024 || format == 1 && total_len <= 20
                * 1024 * 1024 || format == 2 && total_len <= old(ctx).incoming.file_caps.max_file_bytes + old(ctx).incoming.file_caps.max_filename_len + 2;
            &&& wanted && fits ==> final(ctx)@.incoming.reassembly.expected_len == total_len
                && final(ctx)@.incoming.reassembly.expected_format == format
            &&& !(wanted && fits) ==> final(ctx)@.incoming.reassembly.expected_len == 0
            &&& r@.send == (if format <= 2 && !wanted {
                Some(PacketView { message: MessageView::ClipDecline { format }, seq: 0 })
            } else {
                None
            })
        }),
        !final(ctx).incoming_cancel,
        !r.stop && r.event is None && r.shell is None && r.delivery is None,
        final(ctx)@ == (Link {
            incoming: final(ctx)@.incoming,
            incoming_cancel: false,
            ..old(ctx)@
        }),
{
}

/// A chunk goes to what is awaited and is delivered from there; while the user
/// does not want it, it is dropped. Nothing else of the link changes by it.
pub proof fn law_chunk_goes_to_what_is_awaited(
    reader: &mut Reader,
    ctx: &mut LinkContext,
    index: u16,
    data: Vec<u8>,
    now_ms: u64,
    r: ReaderOutput,
)
    requires
        call_ensures(
            Reader::on_message,
            (reader, ctx, Message::ClipChunk { index, data }, now_ms),
            r,
        ),
    ensures
        old(ctx).incoming_cancel ==> r.delivery is None,
        !old(ctx).incoming_cancel ==> final(ctx)@.incoming == old(ctx)@.incoming.after_chunk(
            index,
            data@,
        ) && r@.delivery == old(ctx)@.incoming.delivered(index, data@),
        final(ctx)@ == (Link { incoming: final(ctx)@.incoming, ..old(ctx)@ }),
        !r.stop && r.event is None && r.send is None && r.shell is None,
{
}

/// A transfer that the user cancels is dropped from its next chunk on, once: the
/// first chunk drops what has come, the next ones change nothing. A new offer
/// ends the cancellation, so that the next one works the same.
pub proof fn law_cancellation_is_per_transfer(
    reader: &mut Reader,
    ctx: &mut LinkContext,
    message: Message,
    now_ms: u64,
    r: ReaderOutput,
)
    requires
        call_ensures(Reader::on_message, (reader, ctx, message, now_ms), r),
    ensures
        message@ is ClipOffer ==> !final(reader).cancel_seen && final(reader).cancel_drop_count == 0
            && !final(ctx).incoming_cancel,
        message@ is ClipChunk && old(ctx).incoming_cancel ==> {
            &&& final(reader).cancel_seen && final(ctx).incoming_cancel
            &&& !old(reader).cancel_seen ==> final(reader).cancel_drop_count == 1
                && final(ctx)@.incoming.reassembly.expected_len == 0
            &&& old(reader).cancel_seen && old(reader).cancel_drop_count < u32::MAX ==> final(reader).cancel_drop_count == old(reader).cancel_drop_count + 1 && final(ctx)@ == old(ctx)@
        },
        !(message@ is ClipOffer) ==> final(ctx).incoming_cancel == old(ctx).incoming_cancel,
        !(message@ is ClipOffer || message@ is ClipChunk) ==> final(reader).cancel_seen
            == old(reader).cancel_seen,
{
}

} // verus!
