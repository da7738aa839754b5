//! The link to the host: who is there, what arrives, what goes out, and how a
//! broken link is opened again.
//!
//! Reading, writing and opening the transport is not done here. The reader, the
//! writer and the supervisor take what happened there and say what follows.

pub mod reader;
pub mod session_laws;
pub mod supervisor;
pub mod writer;

use vstd::prelude::*;
use vstd::string::*;

use crate::clipboard::clip_file::FileCaps;
use crate::clipboard::incoming::{Incoming, IncomingClipboard, Reassembly};
use crate::clipboard::{ClipboardState, Outgoing, Seen};
use crate::exec_bridge::{ShellSlots, SlotKind};
use crate::protocol::FORMAT_TEXT_UTF8;

verus! {

/// What the host said of itself.
#[derive(Debug, Clone, PartialEq, Eq)]
pub struct HostInfo {
    pub host_name: String,
    pub screen_w: u32,
    pub screen_h: u32,
    /// The host's generation.
    pub proto_version: u8,
}

/// `HostInfo` as a mathematical value.
#[verifier::ext_equal]
pub struct Host {
    pub host_name: Seq<char>,
    pub screen_w: u32,
    pub screen_h: u32,
    pub proto_version: u8,
}

impl View for HostInfo {
    type V = Host;

    open spec fn view(&self) -> Host {
        Host {
            host_name: self.host_name@,
            screen_w: self.screen_w,
            screen_h: self.screen_h,
            proto_version: self.proto_version,
        }
    }
}

/// What is known of the host, as a mathematical value.
pub open spec fn host_view(info: Option<HostInfo>) -> Option<Host> {
    match info {
        Some(h) => Some(h@),
        None => None,
    }
}

/// Everything that outlives a single connection.
#[derive(Debug)]
pub struct LinkContext {
    pub client_name: String,
    /// The version that this client announces.
    pub version: u8,
    /// The first host generation with a shell of its own for consoles.
    pub pty_since: u8,
    pub clipboard_state: ClipboardState,
    pub outgoing_progress: u64,
    pub outgoing_total: u64,
    /// The format that was offered to the host last.
    pub outgoing_format: u8,
    /// The name of the file that is being sent or is queued.
    pub current_outgoing_label: String,
    pub incoming: IncomingClipboard,
    /// The user does not want the rest of what arrives.
    pub incoming_cancel: bool,
    /// The rest of what is queued is not to be sent.
    pub outgoing_cancel: bool,
    pub slots: ShellSlots,
    /// The host has answered and is being read from.
    pub link_up: bool,
    pub host_info: Option<HostInfo>,
}

/// `LinkContext` as a mathematical value.
#[verifier::ext_equal]
pub struct Link {
    pub client_name: Seq<char>,
    pub version: u8,
    pub pty_since: u8,
    pub seen: Seen,
    pub outgoing: Outgoing,
    pub incoming: Incoming,
    pub incoming_cancel: bool,
    pub outgoing_cancel: bool,
    pub slots: ShellSlots,
    pub link_up: bool,
    pub host: Option<Host>,
}

impl View for LinkContext {
    type V = Link;

    open spec fn view(&self) -> Link {
        Link {
            client_name: self.client_name@,
            version: self.version,
            pty_since: self.pty_since,
            seen: self.clipboard_state@,
            outgoing: Outgoing {
                progress: self.outgoing_progress,
                total: self.outgoing_total,
                format: self.outgoing_format,
                label: self.current_outgoing_label@,
            },
            incoming: self.incoming@,
            incoming_cancel: self.incoming_cancel,
            outgoing_cancel: self.outgoing_cancel,
            slots: self.slots,
            link_up: self.link_up,
            host: host_view(self.host_info),
        }
    }
}

impl Link {
    /// A session ends or begins: what was half done is dropped, and everything
    /// counts as unsent.
    pub open spec fn session_reset(self) -> Link {
        Link {
            incoming: self.incoming.after_reset(),
            seen: Seen::nothing(),
            outgoing: Outgoing { progress: 0, total: 0, ..self.outgoing },
            ..self
        }
    }

    /// Nothing is known of a host any more.
    pub open spec fn link_down(self) -> Link {
        Link {
            link_up: false,
            host: None,
            slots: ShellSlots { legacy_fallback: false, ..self.slots },
            ..self
        }
    }

    /// A link was opened: what the one before announced is not awaited on it.
    pub open spec fn fresh(self) -> Link {
        Link { incoming: self.incoming.on_fresh_link(), ..self }
    }

    /// No transfer is shown.
    pub open spec fn counters_zeroed(self) -> Link {
        Link {
            outgoing: Outgoing { progress: 0, total: 0, ..self.outgoing },
            incoming: Incoming {
                reassembly: Reassembly { progress: 0, total: 0, ..self.incoming.reassembly },
                ..self.incoming
            },
            ..self
        }
    }

    /// Payload is under way in either direction, or a shell session is open.
    pub open spec fn busy(self) -> bool {
        self.outgoing.total > self.outgoing.progress || self.incoming.reassembly.total
            > self.incoming.reassembly.progress || self.slots.installed(SlotKind::Exec)
            || self.slots.installed(SlotKind::Pty)
    }

    /// Whether a host of this generation has a shell for consoles.
    pub open spec fn dual(self, proto_version: u8) -> bool {
        proto_version >= self.pty_since
    }
}

impl LinkContext {
    /// No host yet.
    pub fn new(
        client_name: String,
        version: u8,
        pty_since: u8,
        receive_images: bool,
        receive_text: bool,
        receive_files: bool,
        file_caps: FileCaps,
    ) -> (r: LinkContext)
        ensures
            r@ == (Link {
                client_name: client_name@,
                version,
                pty_since,
                seen: Seen::nothing(),
                outgoing: Outgoing {
                    progress: 0,
                    total: 0,
                    format: FORMAT_TEXT_UTF8,
                    label: Seq::empty(),
                },
                incoming: Incoming {
                    reassembly: Reassembly::idle(),
                    receive_images,
                    receive_text,
                    receive_files,
                    file_caps,
                    in_flight: None,
                    stale: Seq::empty(),
                },
                incoming_cancel: false,
                outgoing_cancel: false,
                slots: ShellSlots { exec_slot: false, pty_slot: false, legacy_fallback: false },
                link_up: false,
                host: None,
            }),
    {
        LinkContext {
            client_name,
            version,
            pty_since,
            clipboard_state: ClipboardState::new(),
            outgoing_progress: 0,
            outgoing_total: 0,
            outgoing_format: FORMAT_TEXT_UTF8,
            current_outgoing_label: String::new(),
            incoming: IncomingClipboard::new(
                receive_images,
                receive_text,
                receive_files,
                file_caps,
            ),
            incoming_cancel: false,
            outgoing_cancel: false,
            slots: ShellSlots::new(),
            link_up: false,
            host_info: None,
        }
    }

    /// Drops what was half done, and counts everything as unsent.
    pub fn reset_session_state(&mut self)
        ensures
            final(self)@ == old(self)@.session_reset(),
    {
        self.incoming.reset();
        self.clipboard_state.reset();
        self.outgoing_progress = 0;
        self.outgoing_total = 0;
    }

    /// The link is down: nothing is known of a host any more.
    pub fn mark_down(&mut self)
        ensures
            final(self)@ == old(self)@.link_down(),
    {
        self.link_up = false;
        self.host_info = None;
        self.slots.forget_host_generation();
    }

    /// Shows no transfer any more.
    pub fn zero_counters(&mut self)
        ensures
            final(self)@ == old(self)@.counters_zeroed(),
    {
        self.outgoing_progress = 0;
        self.outgoing_total = 0;
        self.incoming.incoming_progress = 0;
        self.incoming.incoming_total = 0;
    }

    /// Whether payload is under way in either direction or a shell session is
    /// open. The host's heartbeats may then be late.
    pub fn transfer_in_flight(&self) -> (r: bool)
        ensures
            r == self@.busy(),
    {
        self.outgoing_total > self.outgoing_progress || self.incoming.incoming_total
            > self.incoming.incoming_progress || self.slots.any_installed()
    }

    /// The user cancels what is being sent.
    pub fn cancel_outgoing(&mut self)
        ensures
            final(self)@ == (Link {
                outgoing_cancel: true,
                outgoing: Outgoing { progress: 0, total: 0, ..old(self)@.outgoing },
                ..old(self)@
            }),
    {
        self.outgoing_cancel = true;
        self.outgoing_progress = 0;
        self.outgoing_total = 0;
    }

    /// The user cancels what is arriving.
    pub fn cancel_incoming(&mut self)
        ensures
            final(self)@ == (Link {
                incoming_cancel: true,
                incoming: Incoming {
                    reassembly: Reassembly {
                        progress: 0,
                        total: 0,
                        ..old(self)@.incoming.reassembly
                    },
                    ..old(self)@.incoming
                },
                ..old(self)@
            }),
    {
        self.incoming_cancel = true;
        self.incoming.incoming_progress = 0;
        self.incoming.incoming_total = 0;
    }
}

/// The end of a session forgets what was seen and what was under way, and
/// nothing else: not who is registered for a shell, not the user's choices, not
/// whether there is a host. The same file that was being written is to be
/// removed.
pub proof fn law_session_reset_forgets_only_the_session(ctx: &mut LinkContext)
    requires
        call_ensures(LinkContext::reset_session_state, (ctx,), ()),
    ensures
        ({
            let before = old(ctx)@;
            let after = final(ctx)@;
            &&& after.seen.texts.len() == 0 && after.seen.image is None && after.seen.file is None
            &&& after.seen.oversize_image is None && after.seen.oversize_file is None
            &&& after.outgoing.progress == 0 && after.outgoing.total == 0
            &&& after.outgoing.format == before.outgoing.format
            &&& after.outgoing.label == before.outgoing.label
            &&& after.incoming.reassembly.expected_len == 0
            &&& after.incoming.reassembly.received == Map::<u16, Seq<u8>>::empty()
            &&& after.incoming.reassembly.progress == 0 && after.incoming.reassembly.total == 0
            &&& after.incoming.receive_text == before.incoming.receive_text
            &&& after.incoming.receive_images == before.incoming.receive_images
            &&& after.incoming.receive_files == before.incoming.receive_files
            &&& after.incoming.file_caps == before.incoming.file_caps
            &&& before.incoming.in_flight matches Some(path) ==> after.incoming.stale
                == before.incoming.stale.push(path)
            &&& before.incoming.in_flight is None ==> after.incoming.stale == before.incoming.stale
            &&& after.incoming.in_flight is None
            &&& after.slots == before.slots
            &&& after.link_up == before.link_up && after.host == before.host
            &&& after.incoming_cancel == before.incoming_cancel
            &&& after.outgoing_cancel == before.outgoing_cancel
            &&& after.client_name == before.client_name
            &&& after.version == before.version && after.pty_since == before.pty_since
        }),
{
}

/// A link that is down has no host; what was seen, what is under way and who is
/// registered for a shell stay as they were.
pub proof fn law_link_down_forgets_only_the_host(ctx: &mut LinkContext)
    requires
        call_ensures(LinkContext::mark_down, (ctx,), ()),
    ensures
        ({
            let before = old(ctx)@;
            let after = final(ctx)@;
            &&& !after.link_up && after.host is None && !after.slots.legacy_fallback
            &&& after.slots.exec_slot == before.slots.exec_slot
            &&& after.slots.pty_slot == before.slots.pty_slot
            &&& after.seen == before.seen && after.outgoing == before.outgoing
            &&& after.incoming == before.incoming
            &&& after.incoming_cancel == before.incoming_cancel
            &&& after.outgoing_cancel == before.outgoing_cancel
            &&& after.client_name == before.client_name
            &&& after.version == before.version && after.pty_since == before.pty_since
        }),
{
}

/// Payload is under way while fewer bytes have gone or come than there are, and
/// an open shell session counts as well. Nothing else keeps a link busy.
pub proof fn law_busy_link_moves_something(ctx: LinkContext, busy: bool)
    requires
        call_ensures(LinkContext::transfer_in_flight, (&ctx,), busy),
    ensures
        ctx.outgoing_progress < ctx.outgoing_total ==> busy,
        ctx.incoming.incoming_progress < ctx.incoming.incoming_total ==> busy,
        ctx.slots.exec_slot || ctx.slots.pty_slot ==> busy,
        ctx.outgoing_progress >= ctx.outgoing_total && ctx.incoming.incoming_progress
            >= ctx.incoming.incoming_total && !ctx.slots.exec_slot && !ctx.slots.pty_slot ==> !busy,
        busy == ctx@.busy(),
{
}

/// Cancelling one direction stops that one, shows it no more, and leaves the
/// other one alone.
pub proof fn law_cancelling_stops_one_direction(ctx: &mut LinkContext)
    ensures
        call_ensures(LinkContext::cancel_outgoing, (ctx,), ()) ==> {
            &&& final(ctx)@.outgoing_cancel
            &&& final(ctx)@.outgoing.progress == 0 && final(ctx)@.outgoing.total == 0
            &&& final(ctx)@.outgoing.label == old(ctx)@.outgoing.label
            &&& final(ctx)@.incoming == old(ctx)@.incoming
            &&& final(ctx)@.incoming_cancel == old(ctx)@.incoming_cancel
            &&& final(ctx)@.seen == old(ctx)@.seen && final(ctx)@.slots == old(ctx)@.slots
            &&& final(ctx)@.link_up == old(ctx)@.link_up && final(ctx)@.host == old(ctx)@.host
        },
        call_ensures(LinkContext::cancel_incoming, (ctx,), ()) ==> {
            &&& final(ctx)@.incoming_cancel
            &&& final(ctx)@.incoming.reassembly.progress == 0
            &&& final(ctx)@.incoming.reassembly.total == 0
            &&& final(ctx)@.incoming.reassembly.expected_len
                == old(ctx)@.incoming.reassembly.expected_len
            &&& final(ctx)@.outgoing == old(ctx)@.outgoing
            &&& final(ctx)@.outgoing_cancel == old(ctx)@.outgoing_cancel
            &&& final(ctx)@.seen == old(ctx)@.seen && final(ctx)@.slots == old(ctx)@.slots
            &&& final(ctx)@.link_up == old(ctx)@.link_up && final(ctx)@.host == old(ctx)@.host
        },
{
}

/// Showing no transfer any more is showing alone: what is awaited and what was
/// seen stay.
pub proof fn law_hidden_counters_change_nothing_else(ctx: &mut LinkContext)
    requires
        call_ensures(LinkContext::zero_counters, (ctx,), ()),
    ensures
        ({
            let before = old(ctx)@;
            let after = final(ctx)@;
            &&& after.outgoing.progress == 0 && after.outgoing.total == 0
            &&& after.incoming.reassembly.progress == 0 && after.incoming.reassembly.total == 0
            &&& after.incoming.reassembly.expected_len == before.incoming.reassembly.expected_len
            &&& after.incoming.reassembly.received == before.incoming.reassembly.received
            &&& after.incoming.reassembly.received_total
                == before.incoming.reassembly.received_total
            &&& after.outgoing.label == before.outgoing.label
            &&& after.seen == before.seen && after.slots == before.slots
            &&& after.link_up == before.link_up && after.host == before.host
        }),
{
}

/// A client starts without a host, with nothing seen and nothing under way, and
/// with the user's choices.
pub proof fn law_client_starts_without_a_host(
    name: String,
    version: u8,
    pty_since: u8,
    images: bool,
    text: bool,
    files: bool,
    caps: FileCaps,
    ctx: LinkContext,
)
    requires
        call_ensures(
            LinkContext::new,
            (name, version, pty_since, images, text, files, caps),
            ctx,
        ),
    ensures
        ctx@.client_name == name@,
        ctx@.version == version && ctx@.pty_since == pty_since,
        ctx@.incoming.receive_images == images,
        ctx@.incoming.receive_text == text,
        ctx@.incoming.receive_files == files,
        ctx@.incoming.file_caps == caps,
        !ctx@.link_up && ctx@.host is None,
        !ctx@.busy() && !ctx@.incoming_cancel && !ctx@.outgoing_cancel,
        ctx@.seen.texts.len() == 0 && ctx@.seen.image is None && ctx@.seen.file is None,
        ctx@.incoming.reassembly.expected_len == 0,
{
}

} // verus!
