//! The side of the link that writes.

use vstd::prelude::*;
use vstd::string::*;

use crate::app::{LinkEvent, TransportEvent};
use crate::clipboard::{Outgoing, apply_outgoing_progress_with_label};
use crate::link::{Link, LinkContext};
use crate::protocol::{Message, MessageView, Packet, PacketView, is_clip_payload, unnumbered};

verus! {

/// Milliseconds between two heartbeats.
pub const HEARTBEAT_INTERVAL_MS: u64 = 2000;

/// The writer's own state.
#[derive(Debug, Clone, Copy, PartialEq, Eq, Structural)]
pub struct Writer {
    /// When the last heartbeat went out, in milliseconds.
    pub last_heartbeat_ms: u64,
    /// A cancelled transfer is being dropped.
    pub cancel_active: bool,
    /// How many packets of it were dropped.
    pub cancel_drop_count: u32,
}

impl Writer {
    /// The sweep over a cancelled transfer is over.
    pub open spec fn swept(self) -> Writer {
        if self.cancel_active {
            Writer { cancel_active: false, cancel_drop_count: 0, ..self }
        } else {
            self
        }
    }

    /// One more packet of a cancelled transfer was dropped.
    pub open spec fn dropped(self) -> Writer {
        let before = if self.cancel_active {
            self.cancel_drop_count
        } else {
            0
        };
        Writer { cancel_active: true, cancel_drop_count: before.saturating_add(1), ..self }
    }

    /// Whether a packet from the queue goes out.
    pub open spec fn sends(link: Link, message: MessageView) -> bool {
        !(link.outgoing_cancel && is_clip_payload(message))
    }

    /// The writer after a packet was taken from the queue.
    pub open spec fn after_packet(self, link: Link, message: MessageView) -> Writer {
        if !Writer::sends(link, message) {
            self.dropped()
        } else if link.outgoing_cancel {
            self.swept()
        } else {
            self
        }
    }

    /// The link after a packet was taken from the queue: the first other packet
    /// ends a cancelled transfer.
    pub open spec fn link_after_packet(link: Link, message: MessageView) -> Link {
        if Writer::sends(link, message) {
            Link { outgoing_cancel: false, ..link }
        } else {
            link
        }
    }

    pub fn new(now_ms: u64) -> (r: Writer)
        ensures
            r == (Writer {
                last_heartbeat_ms: now_ms,
                cancel_active: false,
                cancel_drop_count: 0,
            }),
    {
        Writer { last_heartbeat_ms: now_ms, cancel_active: false, cancel_drop_count: 0 }
    }

    /// The first packet of a link.
    pub fn hello(ctx: &LinkContext) -> (r: Packet)
        ensures
            r@ == unnumbered(
                MessageView::Hello { version: ctx@.version, client_name: ctx@.client_name },
            ),
    {
        Packet::new(
            Message::Hello { version: ctx.version, client_name: ctx.client_name.clone() },
            0,
        )
    }

    /// Milliseconds to wait for the next packet: until the next heartbeat is
    /// due, and at least one.
    pub fn wait_ms(&self, now_ms: u64) -> (r: u64)
        ensures
            r == ({
                let left = HEARTBEAT_INTERVAL_MS - now_ms.saturating_sub(self.last_heartbeat_ms);
                if left >= 1 {
                    left
                } else {
                    1
                }
            }),
    {
        let elapsed: u64 = now_ms.saturating_sub(self.last_heartbeat_ms);
        if elapsed >= HEARTBEAT_INTERVAL_MS {
            1
        } else {
            HEARTBEAT_INTERVAL_MS - elapsed
        }
    }

    /// A packet was taken from the queue. Returns whether it goes out: what is
    /// left of a cancelled transfer does not.
    pub fn on_packet(&mut self, ctx: &mut LinkContext, packet: &Packet) -> (r: bool)
        ensures
            r == Writer::sends(old(ctx)@, packet@.message),
            *final(self) == old(self).after_packet(old(ctx)@, packet@.message),
            final(ctx)@ == Writer::link_after_packet(old(ctx)@, packet@.message),
    {
        let is_clip = match packet.message {
            Message::ClipOffer { .. } => true,
            Message::ClipChunk { .. } => true,
            _ => false,
        };
        if ctx.outgoing_cancel {
            if is_clip {
                if !self.cancel_active {
                    self.cancel_active = true;
                    self.cancel_drop_count = 0;
                }
                self.cancel_drop_count = self.cancel_drop_count.saturating_add(1);
                return false;
            }
            ctx.outgoing_cancel = false;
            if self.cancel_active {
                self.cancel_active = false;
                self.cancel_drop_count = 0;
            }
        }
        true
    }

    /// A packet was written: the counters follow.
    pub fn on_sent(ctx: &mut LinkContext, packet: &Packet)
        ensures
            final(ctx)@ == (Link {
                outgoing: old(ctx)@.outgoing.after(packet@.message),
                ..old(ctx)@
            }),
    {
        apply_outgoing_progress_with_label(
            &packet.message,
            &mut ctx.outgoing_progress,
            &mut ctx.outgoing_total,
            &mut ctx.outgoing_format,
            &mut ctx.current_outgoing_label,
        );
    }

    /// The queue is empty: nothing is left of a cancelled transfer.
    pub fn on_idle(&mut self, ctx: &mut LinkContext)
        ensures
            *final(self) == old(self).swept(),
            final(ctx)@ == (Link { outgoing_cancel: false, ..old(ctx)@ }),
    {
        ctx.outgoing_cancel = false;
        if self.cancel_active {
            self.cancel_active = false;
            self.cancel_drop_count = 0;
        }
    }

    /// Whether a heartbeat is due.
    pub fn heartbeat_due(&self, now_ms: u64) -> (r: bool)
        ensures
            r == (now_ms >= self.last_heartbeat_ms + HEARTBEAT_INTERVAL_MS),
    {
        now_ms.saturating_sub(self.last_heartbeat_ms) >= HEARTBEAT_INTERVAL_MS
    }

    /// The heartbeat itself.
    pub fn heartbeat() -> (r: Packet)
        ensures
            r@ == unnumbered(MessageView::Heartbeat),
    {
        Packet::new(Message::Heartbeat, 0)
    }

    /// A heartbeat was written.
    pub fn heartbeat_sent(&mut self, now_ms: u64)
        ensures
            *final(self) == (Writer { last_heartbeat_ms: now_ms, ..*old(self) }),
    {
        self.last_heartbeat_ms = now_ms;
    }

    /// Writing failed: the link is not usable any more, and the window is told
    /// why.
    pub fn send_failed(ctx: &mut LinkContext, error: String) -> (r: TransportEvent)
        ensures
            final(ctx)@ == (Link { link_up: false, ..old(ctx)@ }),
            r@ == LinkEvent::Disconnected(error@),
    {
        ctx.link_up = false;
        TransportEvent::Disconnected(error)
    }
}

/// The link after the packets of a queue were taken from it.
pub open spec fn link_after_queue(link: Link, queue: Seq<PacketView>) -> Link
    decreases queue.len(),
{
    if queue.len() == 0 {
        link
    } else {
        Writer::link_after_packet(
            link_after_queue(link, queue.drop_last()),
            queue.last().message,
        )
    }
}

/// Once a transfer is cancelled nothing of it goes out any more, however much
/// of it is queued; and what comes after it does, payload of the next transfer
/// among it once another packet has passed.
pub proof fn law_cancelled_transfer_is_dropped(
    link: Link,
    rest: Seq<PacketView>,
    other: MessageView,
    next: MessageView,
)
    requires
        link.outgoing_cancel,
        forall|i: int| 0 <= i < rest.len() ==> is_clip_payload((#[trigger] rest[i]).message),
        !is_clip_payload(other),
    ensures
        link_after_queue(link, rest).outgoing_cancel,
        forall|i: int|
            0 <= i < rest.len() ==> !Writer::sends(
                link_after_queue(link, rest.take(i)),
                (#[trigger] rest[i]).message,
            ),
        Writer::sends(link_after_queue(link, rest), other),
        Writer::sends(Writer::link_after_packet(link_after_queue(link, rest), other), next),
{
    lemma_cancel_stays(link, rest);
    assert forall|i: int| 0 <= i < rest.len() implies !Writer::sends(
        link_after_queue(link, rest.take(i)),
        (#[trigger] rest[i]).message,
    ) by {
        lemma_cancel_stays(link, rest.take(i));
    }
}

proof fn lemma_cancel_stays(link: Link, rest: Seq<PacketView>)
    requires
        link.outgoing_cancel,
        forall|i: int| 0 <= i < rest.len() ==> is_clip_payload((#[trigger] rest[i]).message),
    ensures
        link_after_queue(link, rest).outgoing_cancel,
    decreases rest.len(),
{
    if rest.len() > 0 {
        lemma_cancel_stays(link, rest.drop_last());
        assert(is_clip_payload(rest[rest.len() - 1].message));
    }
}

/// Without a cancellation every packet goes out, and the link stays as it is.
pub proof fn law_nothing_is_dropped_without_cancellation(link: Link, message: MessageView)
    requires
        !link.outgoing_cancel,
    ensures
        Writer::sends(link, message),
        Writer::link_after_packet(link, message) == link,
{
}

/// The first packet says who the client is, by its name and its version.
pub proof fn law_greeting_names_the_client(ctx: LinkContext, hello: Packet)
    requires
        call_ensures(Writer::hello, (&ctx,), hello),
    ensures
        hello@ == (PacketView {
            message: MessageView::Hello { version: ctx.version, client_name: ctx.client_name@ },
            seq: 0,
        }),
{
}

/// The writer wakes up for the next heartbeat: none is due before it has waited
/// as long as it says, and one is due then. A heartbeat is due every two
/// seconds.
pub proof fn law_writer_wakes_for_the_heartbeat(
    w: Writer,
    now_ms: u64,
    wait: u64,
    later_ms: u64,
    due: bool,
    due_later: bool,
)
    requires
        call_ensures(Writer::wait_ms, (&w, now_ms), wait),
        call_ensures(Writer::heartbeat_due, (&w, now_ms), due),
        call_ensures(Writer::heartbeat_due, (&w, later_ms), due_later),
        w.last_heartbeat_ms <= now_ms <= later_ms,
    ensures
        due <==> now_ms - w.last_heartbeat_ms >= 2000,
        1 <= wait <= 2000,
        due ==> wait == 1,
        !due ==> (due_later <==> later_ms >= now_ms + wait),
{
}

/// A heartbeat that went out is the last one, and nothing else changes by it.
pub proof fn law_heartbeat_is_noted(w: &mut Writer, now_ms: u64, beat: Packet)
    ensures
        call_ensures(Writer::heartbeat_sent, (w, now_ms), ()) ==> {
            &&& final(w).last_heartbeat_ms == now_ms
            &&& final(w).cancel_active == old(w).cancel_active
            &&& final(w).cancel_drop_count == old(w).cancel_drop_count
        },
        call_ensures(Writer::heartbeat, (), beat) ==> beat@ == (PacketView {
            message: MessageView::Heartbeat,
            seq: 0,
        }),
{
}

/// Of a cancelled transfer nothing goes out: neither its offer nor its chunks.
/// Everything else does, and ends the cancellation; and without one everything
/// goes out.
pub proof fn law_only_cancelled_payload_is_held_back(
    w: &mut Writer,
    ctx: &mut LinkContext,
    packet: Packet,
    goes: bool,
)
    requires
        call_ensures(Writer::on_packet, (w, ctx, &packet), goes),
    ensures
        goes <==> !old(ctx).outgoing_cancel || !(packet@.message is ClipOffer
            || packet@.message is ClipChunk),
        goes ==> final(ctx)@ == (Link { outgoing_cancel: false, ..old(ctx)@ }),
        !goes ==> final(ctx)@ == old(ctx)@,
        final(w).last_heartbeat_ms == old(w).last_heartbeat_ms,
{
}

/// What was written moves the counters of what goes out, and nothing else of
/// the link: an offer starts them, its chunks count by their bytes.
pub proof fn law_written_packet_moves_the_counters(ctx: &mut LinkContext, packet: Packet)
    requires
        call_ensures(Writer::on_sent, (ctx, &packet), ()),
    ensures
        final(ctx)@ == (Link { outgoing: final(ctx)@.outgoing, ..old(ctx)@ }),
        packet@.message matches MessageView::ClipOffer { format, total_len } ==> {
            &&& final(ctx)@.outgoing.total == total_len && final(ctx)@.outgoing.progress == 0
            &&& final(ctx)@.outgoing.format == format
            &&& final(ctx)@.outgoing.label == old(ctx)@.outgoing.label
        },
        packet@.message matches MessageView::ClipChunk { index, data } ==> {
            let sent = old(ctx)@.outgoing.progress + data.len();
            &&& sent < old(ctx)@.outgoing.total ==> final(ctx)@.outgoing == (Outgoing {
                progress: sent as u64,
                ..old(ctx)@.outgoing
            })
            &&& sent >= old(ctx)@.outgoing.total > 0 && sent <= u64::MAX ==> final(ctx)@.outgoing.total == 0 && final(ctx)@.outgoing.progress == 0 && final(ctx)@.outgoing.label == (if old(ctx)@.outgoing.format == 2 {
                Seq::empty()
            } else {
                old(ctx)@.outgoing.label
            })
        },
        !(packet@.message is ClipOffer || packet@.message is ClipChunk) ==> final(ctx)@ == old(ctx)@,
{
}

/// An empty queue ends a cancellation, and nothing else changes by it.
pub proof fn law_empty_queue_ends_the_cancellation(w: &mut Writer, ctx: &mut LinkContext)
    requires
        call_ensures(Writer::on_idle, (w, ctx), ()),
    ensures
        !final(ctx).outgoing_cancel,
        final(ctx)@ == (Link { outgoing_cancel: false, ..old(ctx)@ }),
        !final(w).cancel_active || !old(w).cancel_active,
        final(w).last_heartbeat_ms == old(w).last_heartbeat_ms,
{
}

/// A failure to write takes the link down, and the window is told in the words
/// of the failure.
pub proof fn law_failed_write_is_told(ctx: &mut LinkContext, error: String, event: TransportEvent)
    requires
        call_ensures(Writer::send_failed, (ctx, error), event),
    ensures
        !final(ctx).link_up,
        final(ctx)@ == (Link { link_up: false, ..old(ctx)@ }),
        event@ == LinkEvent::Disconnected(error@),
{
}

/// A writer starts as if a heartbeat had just gone out, and counts what it drops
/// of a cancelled transfer from one on.
pub proof fn law_writer_counts_what_it_drops(
    now_ms: u64,
    fresh: Writer,
    w: &mut Writer,
    ctx: &mut LinkContext,
    packet: Packet,
    goes: bool,
)
    ensures
        call_ensures(Writer::new, (now_ms,), fresh) ==> fresh.last_heartbeat_ms == now_ms
            && !fresh.cancel_active && fresh.cancel_drop_count == 0,
        call_ensures(Writer::on_packet, (w, ctx, &packet), goes) ==> {
            &&& !goes && !old(w).cancel_active ==> final(w).cancel_drop_count == 1
            &&& !goes && old(w).cancel_active && old(w).cancel_drop_count < u32::MAX ==> final(w).cancel_drop_count == old(w).cancel_drop_count + 1
            &&& !goes ==> final(w).cancel_active
            &&& goes && old(ctx).outgoing_cancel ==> !final(w).cancel_active
            &&& goes && !old(ctx).outgoing_cancel ==> *final(w) == *old(w)
        },
{
}

} // verus!
