//! A console: an interactive shell on the host, relayed to a terminal on this
//! machine.
//!
//! The terminal speaks as if it were connected to the host directly and to a
//! host with a single shell. The relay answers its greeting, opens the console,
//! and where the host has a shell of its own for consoles addresses what the
//! terminal says to that one.

use vstd::prelude::*;
use vstd::string::*;

use crate::exec_bridge::{ExecEvent, ShellEvent, ShellSlots, SlotKind};
use crate::ipc::{Arrival, Received, host_supports_pty_slot, serves_both};
use crate::link::reader::Reader;
use crate::link::{Host, HostInfo, Link, host_view};
use crate::protocol::{Message, MessageView, Packet, PacketView, unnumbered};
use crate::shell_channel::{ShellChannel, ShellOwner};

verus! {

/// The version in the relay's answer to a greeting. Terminals do not read it.
pub const SYNTH_HELLO_ACK_VERSION: u8 = 1;

/// The code of a refusal.
pub const RELAY_REFUSE_CODE: u16 = 125;

/// Milliseconds that a terminal has for its greeting.
pub const HANDSHAKE_TIMEOUT_MS: u64 = 5000;

/// Milliseconds that a terminal has to take what it is sent.
pub const WRITE_TIMEOUT_MS: u64 = 15000;

/// Milliseconds between two looks at the link.
pub const PUMP_TICK_MS: u64 = 100;

/// What a refused terminal is told.
pub open spec fn refusal(msg: Seq<char>) -> PacketView {
    unnumbered(MessageView::Error { code: RELAY_REFUSE_CODE, msg })
}

/// What a refused terminal is told.
pub fn relay_error_packet(msg: &str) -> (r: Packet)
    ensures
        r@ == refusal(msg@),
{
    Packet::new(Message::Error { code: RELAY_REFUSE_CODE, msg: msg.to_owned() }, 0)
}

/// The answer to a terminal's greeting: what the host said of itself when it
/// was greeted.
pub open spec fn greeting_answer(host: Option<Host>) -> PacketView {
    match host {
        Some(h) => unnumbered(
            MessageView::HelloAck {
                version: SYNTH_HELLO_ACK_VERSION,
                host_name: h.host_name,
                screen_w: h.screen_w as u16,
                screen_h: h.screen_h as u16,
            },
        ),
        None => unnumbered(
            MessageView::HelloAck {
                version: SYNTH_HELLO_ACK_VERSION,
                host_name: Seq::empty(),
                screen_w: 0,
                screen_h: 0,
            },
        ),
    }
}

/// The answer to a terminal's greeting.
pub fn synth_hello_ack(host: &Option<HostInfo>) -> (r: Packet)
    ensures
        r@ == greeting_answer(host_view(*host)),
{
    match host {
        Some(h) => Packet::new(
            Message::HelloAck {
                version: SYNTH_HELLO_ACK_VERSION,
                host_name: h.host_name.clone(),
                screen_w: h.screen_w as u16,
                screen_h: h.screen_h as u16,
            },
            0,
        ),
        None => Packet::new(
            Message::HelloAck {
                version: SYNTH_HELLO_ACK_VERSION,
                host_name: String::new(),
                screen_w: 0,
                screen_h: 0,
            },
            0,
        ),
    }
}

/// What follows from what the terminal sent.
#[derive(Debug, PartialEq, Eq)]
pub enum TermAction {
    Ignore,
    /// This goes to the host.
    Forward(Packet),
    /// The terminal is done.
    Stop,
}

/// `TermAction` as a mathematical value.
#[verifier::ext_equal]
pub enum TermAnswer {
    Ignore,
    Forward(PacketView),
    Stop,
}

impl View for TermAction {
    type V = TermAnswer;

    open spec fn view(&self) -> TermAnswer {
        match *self {
            TermAction::Ignore => TermAnswer::Ignore,
            TermAction::Forward(p) => TermAnswer::Forward(p@),
            TermAction::Stop => TermAnswer::Stop,
        }
    }
}

/// What follows from what the host's shell did.
#[derive(Debug, PartialEq, Eq)]
pub enum PumpAction {
    Continue,
    /// The terminal is told; where that fails, the console ends.
    Write(Packet),
    /// The terminal is told, and the console ends.
    WriteAndEnd(Packet),
    End,
}

/// `PumpAction` as a mathematical value.
#[verifier::ext_equal]
pub enum PumpAnswer {
    Continue,
    Write(PacketView),
    WriteAndEnd(PacketView),
    End,
}

impl View for PumpAction {
    type V = PumpAnswer;

    open spec fn view(&self) -> PumpAnswer {
        match *self {
            PumpAction::Continue => PumpAnswer::Continue,
            PumpAction::Write(p) => PumpAnswer::Write(p@),
            PumpAction::WriteAndEnd(p) => PumpAnswer::WriteAndEnd(p@),
            PumpAction::End => PumpAnswer::End,
        }
    }
}

/// What follows from what the terminal sent. Greetings and heartbeats concern
/// this machine alone; input and window sizes go to the host, input addressed
/// to the shell that the console has; an end is not passed on, since the relay
/// closes the console itself.
pub open spec fn term_answer(dual: bool, packet: PacketView) -> TermAnswer {
    match packet.message {
        MessageView::ShellInput { data } => if dual {
            TermAnswer::Forward(
                PacketView { message: MessageView::PtyInput { data }, seq: packet.seq },
            )
        } else {
            TermAnswer::Forward(packet)
        },
        MessageView::PtyInput { .. } => TermAnswer::Forward(packet),
        MessageView::PtyResize { .. } => TermAnswer::Forward(packet),
        MessageView::ShellClose => TermAnswer::Stop,
        MessageView::Disconnect => TermAnswer::Stop,
        _ => TermAnswer::Ignore,
    }
}

/// What follows from what the host's shell did.
pub open spec fn pump_answer(arrival: Arrival) -> PumpAnswer {
    match arrival {
        Arrival::Event(ShellEvent::Output(data)) => PumpAnswer::Write(
            unnumbered(MessageView::ShellOutput { data }),
        ),
        Arrival::Event(ShellEvent::Exit(code)) => PumpAnswer::WriteAndEnd(
            unnumbered(MessageView::ShellExit { code }),
        ),
        Arrival::Event(ShellEvent::HostError(msg)) => PumpAnswer::WriteAndEnd(
            unnumbered(MessageView::Error { code: 0, msg }),
        ),
        Arrival::Event(ShellEvent::Closed) => PumpAnswer::Continue,
        Arrival::Event(ShellEvent::Idle) => PumpAnswer::Continue,
        Arrival::Timeout => PumpAnswer::Continue,
        Arrival::Disconnected => PumpAnswer::End,
    }
}

/// A console that was granted.
#[derive(Debug)]
pub struct Relay {
    /// The host has a shell of its own for consoles. Fixed while the console
    /// lasts.
    pub dual: bool,
    pub shell: String,
    pub cols: u16,
    pub rows: u16,
}

/// Where a console registers.
pub open spec fn console_slot(dual: bool) -> SlotKind {
    if dual {
        SlotKind::Pty
    } else {
        SlotKind::Exec
    }
}

/// The one message that opens a console.
pub open spec fn opening(dual: bool, shell: Seq<char>, cols: u16, rows: u16) -> MessageView {
    if dual {
        MessageView::PtyOpen { shell, cols, rows }
    } else {
        MessageView::ShellOpenPty { shell, cols, rows }
    }
}

/// The one message that closes a console.
pub open spec fn closing(dual: bool) -> MessageView {
    if dual {
        MessageView::PtyClose
    } else {
        MessageView::ShellClose
    }
}

/// Why a terminal is refused a console, where it is.
pub open spec fn refused(
    channel: ShellChannel,
    link_up: bool,
    host: Option<Host>,
    pty_since: u8,
) -> Option<Seq<char>> {
    if !link_up || host is None {
        Some("host link not ready"@)
    } else if !channel.grants(ShellOwner::Interactive, serves_both(host, pty_since)) {
        Some("shell busy"@)
    } else {
        None
    }
}

impl Relay {
    /// A terminal wants a console. It gets one at once or is refused; a console
    /// that is granted is claimed and registered.
    pub fn begin(
        channel: &mut ShellChannel,
        slots: &mut ShellSlots,
        link_up: bool,
        host: &Option<HostInfo>,
        pty_since: u8,
        shell: String,
        cols: u16,
        rows: u16,
    ) -> (r: Result<Relay, Packet>)
        ensures
            match refused(*old(channel), link_up, host_view(*host), pty_since) {
                Some(msg) => {
                    &&& r matches Err(packet) && packet@ == refusal(msg)
                    &&& *final(channel) == *old(channel)
                    &&& *final(slots) == *old(slots)
                },
                None => {
                    let dual = serves_both(host_view(*host), pty_since);
                    &&& r == Ok::<Relay, Packet>(Relay { dual, shell, cols, rows })
                    &&& *final(channel) == old(channel).claimed(ShellOwner::Interactive)
                    &&& *final(slots) == old(slots).with(console_slot(dual), true)
                },
            },
    {
        if !link_up || host.is_none() {
            return Err(relay_error_packet("host link not ready"));
        }
        let dual = host_supports_pty_slot(host, pty_since);
        if !channel.try_acquire(ShellOwner::Interactive, dual) {
            return Err(relay_error_packet("shell busy"));
        }
        if dual {
            slots.pty_slot = true;
        } else {
            slots.exec_slot = true;
        }
        Ok(Relay { dual, shell, cols, rows })
    }

    /// The terminal's first packet. A greeting is answered; after anything else
    /// the console is given up.
    pub fn on_first(&self, packet: &Packet, host: &Option<HostInfo>) -> (r: Option<Packet>)
        ensures
            r is Some <==> packet@.message is Hello,
            r matches Some(answer) ==> answer@ == greeting_answer(host_view(*host)),
    {
        match packet.message {
            Message::Hello { .. } => Some(synth_hello_ack(host)),
            _ => None,
        }
    }

    /// What opens the console, once the greeting is answered.
    pub fn open_packet(&self) -> (r: Packet)
        ensures
            r@ == unnumbered(opening(self.dual, self.shell@, self.cols, self.rows)),
    {
        let shell = self.shell.clone();
        if self.dual {
            Packet::new(Message::PtyOpen { shell, cols: self.cols, rows: self.rows }, 0)
        } else {
            Packet::new(Message::ShellOpenPty { shell, cols: self.cols, rows: self.rows }, 0)
        }
    }

    /// What the terminal sent later.
    pub fn on_term_packet(&self, packet: Packet) -> (r: TermAction)
        ensures
            r@ == term_answer(self.dual, packet@),
    {
        let seq: u16 = packet.seq;
        match packet.message {
            Message::ShellInput { data } => {
                if self.dual {
                    TermAction::Forward(Packet::new(Message::PtyInput { data }, seq))
                } else {
                    TermAction::Forward(Packet::new(Message::ShellInput { data }, seq))
                }
            },
            Message::PtyInput { data } => TermAction::Forward(
                Packet::new(Message::PtyInput { data }, seq),
            ),
            Message::PtyResize { cols, rows } => TermAction::Forward(
                Packet::new(Message::PtyResize { cols, rows }, seq),
            ),
            Message::ShellClose => TermAction::Stop,
            Message::Disconnect => TermAction::Stop,
            _ => TermAction::Ignore,
        }
    }

    /// Looked at before every wait: without a link the terminal is told so and
    /// the console ends, and it ends where the terminal is done.
    pub fn before_wait(&self, link_up: bool, stopped: bool) -> (r: PumpAction)
        ensures
            r@ == (if !link_up {
                PumpAnswer::WriteAndEnd(unnumbered(MessageView::Disconnect))
            } else if stopped {
                PumpAnswer::End
            } else {
                PumpAnswer::Continue
            }),
    {
        if !link_up {
            PumpAction::WriteAndEnd(Packet::new(Message::Disconnect, 0))
        } else if stopped {
            PumpAction::End
        } else {
            PumpAction::Continue
        }
    }

    /// What the host's shell did.
    pub fn on_event(&self, received: Received) -> (r: PumpAction)
        ensures
            r@ == pump_answer(received@),
    {
        match received {
            Received::Event(event) => match event {
                ExecEvent::ShellOutput(data) => PumpAction::Write(
                    Packet::new(Message::ShellOutput { data }, 0),
                ),
                ExecEvent::ShellExit(code) => PumpAction::WriteAndEnd(
                    Packet::new(Message::ShellExit { code }, 0),
                ),
                ExecEvent::HostError(msg) => PumpAction::WriteAndEnd(
                    Packet::new(Message::Error { code: 0, msg }, 0),
                ),
                ExecEvent::ShellClosed => PumpAction::Continue,
                ExecEvent::Idle => PumpAction::Continue,
            },
            Received::Timeout => PumpAction::Continue,
            Received::Disconnected => PumpAction::End,
        }
    }

    /// What closes the console, where it was opened.
    pub fn close_packet(&self) -> (r: Packet)
        ensures
            r@ == unnumbered(closing(self.dual)),
    {
        if self.dual {
            Packet::new(Message::PtyClose, 0)
        } else {
            Packet::new(Message::ShellClose, 0)
        }
    }

    /// The end: registration and claim are given back.
    pub fn release(self, channel: &mut ShellChannel, slots: &mut ShellSlots)
        ensures
            *final(channel) == old(channel).released(ShellOwner::Interactive),
            *final(slots) == old(slots).with(console_slot(self.dual), false),
    {
        if self.dual {
            slots.pty_slot = false;
        } else {
            slots.exec_slot = false;
        }
        channel.release(ShellOwner::Interactive);
    }
}

/// A console that has ended leaves claims and registrations as they were.
pub proof fn law_ended_console_leaves_no_trace(channel: ShellChannel, slots: ShellSlots, dual: bool)
    requires
        channel.grants(ShellOwner::Interactive, dual),
        !slots.installed(console_slot(dual)),
    ensures
        channel.claimed(ShellOwner::Interactive).released(ShellOwner::Interactive) == channel,
        slots.with(console_slot(dual), true).with(console_slot(dual), false) == slots,
{
}

/// With a host that has both shells a console neither opens, feeds nor closes
/// the one for commands, whatever the terminal sends, and does not register for
/// its events.
pub proof fn law_console_keeps_off_the_command_shell(
    packet: PacketView,
    shell: Seq<char>,
    cols: u16,
    rows: u16,
    slots: ShellSlots,
)
    ensures
        opening(true, shell, cols, rows) is PtyOpen,
        closing(true) is PtyClose,
        term_answer(true, packet) matches TermAnswer::Forward(p) ==> {
            ||| p.message is PtyInput
            ||| p.message is PtyResize
        },
        slots.with(console_slot(true), true).exec_slot == slots.exec_slot,
{
}

/// What the terminal types reaches the host, byte for byte and under its own
/// number, whichever shell it goes to.
pub proof fn law_input_is_passed_on_unchanged(dual: bool, data: Seq<u8>, seq: u16)
    ensures
        term_answer(dual, PacketView { message: MessageView::ShellInput { data }, seq })
            matches TermAnswer::Forward(p) && p.seq == seq && (p.message
            == MessageView::PtyInput { data } || p.message == MessageView::ShellInput { data }),
{
}

/// The terminal never opens or closes a shell on the host: the relay's opening
/// and closing are the only ones.
pub proof fn law_terminal_opens_and_closes_nothing(dual: bool, packet: PacketView)
    ensures
        term_answer(dual, packet) matches TermAnswer::Forward(p) ==> {
            &&& !(p.message is ShellOpen)
            &&& !(p.message is ShellOpenPty)
            &&& !(p.message is PtyOpen)
            &&& !(p.message is ShellClose)
            &&& !(p.message is PtyClose)
            &&& !(p.message is Disconnect)
            &&& !(p.message is Hello)
        },
{
}

/// An error of the host and the shell's own end both end the console, so that
/// its claim does not outlive it; a late confirmation of some other shell's
/// closing does not.
pub proof fn law_console_outlives_only_what_it_should(msg: Seq<char>, code: i32)
    ensures
        pump_answer(Arrival::Event(ShellEvent::HostError(msg))) is WriteAndEnd,
        pump_answer(Arrival::Event(ShellEvent::Exit(code))) is WriteAndEnd,
        pump_answer(Arrival::Event(ShellEvent::Closed)) is Continue,
{
}

/// Without a link or a known host there is no console, whoever asks.
pub proof fn law_no_console_without_a_host(
    channel: ShellChannel,
    link_up: bool,
    host: Option<Host>,
    pty_since: u8,
)
    ensures
        !link_up || host is None ==> refused(channel, link_up, host, pty_since) is Some,
        refused(channel, link_up, host, pty_since) is None ==> !channel.interactive,
{
}

/// A terminal is told of the host exactly what the host said of itself.
pub proof fn law_terminal_is_told_what_the_host_said(
    reader: Reader,
    link: Link,
    version: u8,
    host_name: Seq<char>,
    screen_w: u16,
    screen_h: u16,
)
    ensures
        ({
            let said = MessageView::HelloAck { version, host_name, screen_w, screen_h };
            greeting_answer(reader.link_after_message(link, said).host) == unnumbered(
                MessageView::HelloAck {
                    version: SYNTH_HELLO_ACK_VERSION,
                    host_name,
                    screen_w,
                    screen_h,
                },
            )
        }),
{
}

/// The terminal is told of the shell exactly what the shell did: its output byte
/// for byte, its exit code, and an error in the host's words. The shell's end
/// and an error end the console; silence and some other shell's closing do not,
/// and a queue that nobody can fill does.
pub proof fn law_terminal_is_told_what_the_shell_did(relay: Relay, received: Received, r: PumpAction)
    requires
        call_ensures(Relay::on_event, (&relay, received), r),
    ensures
        received@ matches Arrival::Event(ShellEvent::Output(data)) ==> r@ == PumpAnswer::Write(
            PacketView { message: MessageView::ShellOutput { data }, seq: 0 },
        ),
        received@ matches Arrival::Event(ShellEvent::Exit(code)) ==> r@ == PumpAnswer::WriteAndEnd(
            PacketView { message: MessageView::ShellExit { code }, seq: 0 },
        ),
        received@ matches Arrival::Event(ShellEvent::HostError(msg)) ==> r@
            == PumpAnswer::WriteAndEnd(
            PacketView { message: MessageView::Error { code: 0, msg }, seq: 0 },
        ),
        received@ == Arrival::Event(ShellEvent::Closed) ==> r@ is Continue,
        received@ == Arrival::Event(ShellEvent::Idle) || received@ is Timeout ==> r@ is Continue,
        received@ is Disconnected ==> r@ is End,
{
}

/// What the user types and how large the terminal is reaches the shell that the
/// console has, unchanged: that for consoles where there is one, else the only
/// one.
pub proof fn law_terminal_reaches_its_shell(relay: Relay, packet: Packet, r: TermAction)
    requires
        call_ensures(Relay::on_term_packet, (&relay, packet), r),
    ensures
        packet@.message matches MessageView::ShellInput { data } ==> r@ == TermAnswer::Forward(
            PacketView {
                message: if relay.dual {
                    MessageView::PtyInput { data }
                } else {
                    MessageView::ShellInput { data }
                },
                seq: packet.seq,
            },
        ),
        packet@.message matches MessageView::PtyInput { data } ==> r@ == TermAnswer::Forward(
            PacketView { message: MessageView::PtyInput { data }, seq: packet.seq },
        ),
        packet@.message matches MessageView::PtyResize { cols, rows } ==> r@ == TermAnswer::Forward(
            PacketView { message: MessageView::PtyResize { cols, rows }, seq: packet.seq },
        ),
        packet@.message is ShellClose || packet@.message is Disconnect ==> r@ is Stop,
        packet@.message is Hello || packet@.message is Heartbeat || packet@.message is ShellOpen
            || packet@.message is ShellOpenPty || packet@.message is PtyOpen
            || packet@.message is PtyClose || packet@.message is KeyDown || packet@.message is KeyUp
            || packet@.message is ClipOffer || packet@.message is ClipChunk ==> r@ is Ignore,
        r@ is Stop ==> packet@.message is ShellClose || packet@.message is Disconnect,
        r@ is Forward ==> packet@.message is ShellInput || packet@.message is PtyInput
            || packet@.message is PtyResize,
{
}

/// A console opens the shell that was asked for, in the terminal's size, and
/// closes it again: with a host that has a shell for consoles that one, else
/// the only one.
pub proof fn law_console_opens_what_was_asked_for(relay: Relay, opens: Packet, closes: Packet)
    requires
        call_ensures(Relay::open_packet, (&relay,), opens),
        call_ensures(Relay::close_packet, (&relay,), closes),
    ensures
        opens@ == (PacketView {
            message: if relay.dual {
                MessageView::PtyOpen { shell: relay.shell@, cols: relay.cols, rows: relay.rows }
            } else {
                MessageView::ShellOpenPty {
                    shell: relay.shell@,
                    cols: relay.cols,
                    rows: relay.rows,
                }
            },
            seq: 0,
        }),
        closes@ == (PacketView {
            message: if relay.dual {
                MessageView::PtyClose
            } else {
                MessageView::ShellClose
            },
            seq: 0,
        }),
{
}

/// A terminal gets a console where there is a host and nobody is in the way: no
/// other console, and no command unless the host has a shell for each. It is the
/// console that was asked for, it is claimed and registered, and nothing else
/// changes; a terminal that is refused changes nothing and is told why.
pub proof fn law_console_is_granted_where_nobody_is_in_the_way(
    channel: &mut ShellChannel,
    slots: &mut ShellSlots,
    link_up: bool,
    host: Option<HostInfo>,
    pty_since: u8,
    shell: String,
    cols: u16,
    rows: u16,
    r: Result<Relay, Packet>,
)
    requires
        call_ensures(
            Relay::begin,
            (channel, slots, link_up, &host, pty_since, shell, cols, rows),
            r,
        ),
    ensures
        ({
            let both = host is Some && host->0.proto_version >= pty_since;
            let ready = link_up && host is Some;
            let free = !old(channel).interactive && (both || old(channel).execs == 0);
            &&& r is Ok <==> ready && free
            &&& r matches Ok(relay) ==> {
                &&& relay.dual == both && relay.shell == shell && relay.cols == cols && relay.rows
                    == rows
                &&& final(channel).interactive && final(channel).execs == old(channel).execs
                &&& final(slots).pty_slot == (both || old(slots).pty_slot)
                &&& final(slots).exec_slot == (!both || old(slots).exec_slot)
                &&& final(slots).legacy_fallback == old(slots).legacy_fallback
            }
            &&& r matches Err(packet) ==> {
                &&& *final(channel) == *old(channel) && *final(slots) == *old(slots)
                &&& packet@ == (PacketView {
                    message: MessageView::Error {
                        code: 125,
                        msg: if ready {
                            "shell busy"@
                        } else {
                            "host link not ready"@
                        },
                    },
                    seq: 0,
                })
            }
        }),
{
}

/// A terminal that greets is answered with what is known of the host; after
/// anything else there is no answer.
pub proof fn law_greeting_is_answered(
    relay: Relay,
    packet: Packet,
    host: Option<HostInfo>,
    r: Option<Packet>,
)
    requires
        call_ensures(Relay::on_first, (&relay, &packet, &host), r),
    ensures
        r is Some <==> packet@.message is Hello,
        host matches Some(h) ==> packet@.message is Hello ==> (
        r matches Some(answer) && answer@.message matches MessageView::HelloAck {
            version,
            host_name,
            screen_w,
            screen_h,
        } && host_name == h.host_name@ && screen_w == h.screen_w as u16 && screen_h
            == h.screen_h as u16),
{
}

/// A console without a link is told so and ends; one whose terminal is done
/// ends; any other goes on.
pub proof fn law_console_ends_with_its_link(
    relay: Relay,
    link_up: bool,
    stopped: bool,
    r: PumpAction,
)
    requires
        call_ensures(Relay::before_wait, (&relay, link_up, stopped), r),
    ensures
        !link_up ==> r@ == PumpAnswer::WriteAndEnd(
            PacketView { message: MessageView::Disconnect, seq: 0 },
        ),
        link_up && stopped ==> r@ is End,
        link_up && !stopped ==> r@ is Continue,
{
}

/// The end of a console gives back its claim and its registration, and no one
/// else's.
pub proof fn law_console_gives_back_its_own(
    relay: Relay,
    channel: &mut ShellChannel,
    slots: &mut ShellSlots,
)
    requires
        call_ensures(Relay::release, (relay, channel, slots), ()),
    ensures
        !final(channel).interactive && final(channel).execs == old(channel).execs,
        relay.dual ==> !final(slots).pty_slot && final(slots).exec_slot == old(slots).exec_slot,
        !relay.dual ==> !final(slots).exec_slot && final(slots).pty_slot == old(slots).pty_slot,
        final(slots).legacy_fallback == old(slots).legacy_fallback,
{
}

/// A terminal is refused with its reason, and greeted with what is known of the
/// host; of an unknown one nothing is.
pub proof fn law_terminal_is_answered(
    msg: &str,
    refusal: Packet,
    host: Option<HostInfo>,
    answer: Packet,
)
    requires
        call_ensures(relay_error_packet, (msg,), refusal),
        call_ensures(synth_hello_ack, (&host,), answer),
    ensures
        refusal@ == (PacketView { message: MessageView::Error { code: 125, msg: msg@ }, seq: 0 }),
        host is None ==> answer@ == (PacketView {
            message: MessageView::HelloAck {
                version: 1,
                host_name: Seq::empty(),
                screen_w: 0,
                screen_h: 0,
            },
            seq: 0,
        }),
        host matches Some(h) ==> answer@ == (PacketView {
            message: MessageView::HelloAck {
                version: 1,
                host_name: h.host_name@,
                screen_w: h.screen_w as u16,
                screen_h: h.screen_h as u16,
            },
            seq: 0,
        }),
{
}

/// A terminal has five seconds for its greeting and fifteen to take what it is
/// sent; the link is looked at ten times a second.
pub proof fn law_times_of_a_console()
    ensures
        HANDSHAKE_TIMEOUT_MS == 5000,
        WRITE_TIMEOUT_MS == 15000,
        PUMP_TICK_MS == 100,
{
}

} // verus!
