//! Serving commands and consoles that other programs on this machine run
//! through the window's link.
//!
//! Accepting a connection, reading and writing it, and waiting are not done
//! here. A run ([`run`]) and a console ([`relay`]) take what happened there and
//! say what follows.

pub mod relay;
pub mod run;

use vstd::prelude::*;
use vstd::string::*;

use crate::exec_bridge::{ExecEvent, ShellEvent};
use crate::link::reader::Reader;
use crate::link::{Host, HostInfo, Link, host_view};
use crate::protocol::{Message, MessageView, Packet, PacketView, packet_views, unnumbered};
use crate::text::{decimal, push_decimal, stands_at, text_contains};

verus! {

/// How many characters of a command the log keeps.
pub const CMD_LOG_CHARS: usize = 160;

/// Milliseconds between a failed accept and the next try.
pub const ACCEPT_ERROR_BACKOFF_MS: u64 = 200;

/// After so many failures in a row nothing is accepted any more.
pub const MAX_ACCEPT_ERRORS: u32 = 10;

/// What `format!("{:?}", _)` makes of a text: quoted, and escaped where a
/// character is not printable.
pub uninterp spec fn debug_text(s: Seq<char>) -> Seq<char>;

/// `format!("{:?}", s)` of a text. Claimed: the result depends on the text
/// alone.
#[verifier::external_body]
fn quoted(s: &str) -> (r: String)
    ensures
        r@ == debug_text(s@),
{
    format!("{s:?}")
}

/// A text of which `omitted` characters were left out.
pub open spec fn cut_text(shown: Seq<char>, omitted: nat) -> Seq<char> {
    if omitted == 0 {
        shown
    } else {
        shown + "… (+"@ + decimal(omitted) + " chars)"@
    }
}

/// What the log shows of a command: all of it, or its beginning and how much
/// was left out.
pub open spec fn abbreviation(cmd: Seq<char>) -> Seq<char> {
    if cmd.len() <= CMD_LOG_CHARS {
        cut_text(debug_text(cmd), 0)
    } else {
        cut_text(
            debug_text(cmd.take(CMD_LOG_CHARS as int)),
            (cmd.len() - CMD_LOG_CHARS) as nat,
        )
    }
}

/// `shown`, with a note of how many characters were left out behind it.
pub fn with_omitted(shown: String, omitted: usize) -> (r: String)
    ensures
        r@ == cut_text(shown@, omitted as nat),
{
    if omitted == 0 {
        return shown;
    }
    let mut out = shown;
    out.append("… (+");
    push_decimal(&mut out, omitted as u64);
    out.append(" chars)");
    out
}

/// What the log shows of a command.
pub fn abbreviate_cmd(cmd: &str) -> (r: String)
    ensures
        r@ == abbreviation(cmd@),
{
    let total: usize = cmd.unicode_len();
    if total <= CMD_LOG_CHARS {
        return with_omitted(quoted(cmd), 0);
    }
    let head = cmd.substring_char(0, CMD_LOG_CHARS);
    assert(head@ =~= cmd@.take(CMD_LOG_CHARS as int));
    with_omitted(quoted(head), total - CMD_LOG_CHARS)
}

/// The mode that a directory is to get so that its owner alone can enter it,
/// or nothing where no one else can anyway.
pub open spec fn narrowed(mode: u32) -> Option<u32> {
    if mode & 0o077 == 0 {
        None
    } else {
        Some(0o700)
    }
}

/// The mode that a directory is to get so that its owner alone can enter it,
/// or nothing where no one else can anyway.
pub fn narrowed_mode(mode: u32) -> (r: Option<u32>)
    ensures
        r == narrowed(mode),
{
    if mode & 0o077 == 0 {
        None
    } else {
        Some(0o700)
    }
}

/// Afterwards nobody but the owner can enter the directory, and there is
/// nothing left to narrow.
pub proof fn law_narrowed_directory_is_private(mode: u32)
    ensures
        match narrowed(mode) {
            Some(new_mode) => new_mode & 0o077 == 0 && narrowed(new_mode) is None,
            None => mode & 0o077 == 0,
        },
{
    assert(0o700u32 & 0o077 == 0) by (bit_vector);
}

/// Failures to accept a connection, in a row.
#[derive(Debug, Clone, Copy, PartialEq, Eq, Structural)]
pub struct AcceptErrors {
    pub count: u32,
}

impl AcceptErrors {
    pub fn new() -> (r: AcceptErrors)
        ensures
            r.count == 0,
    {
        AcceptErrors { count: 0 }
    }

    /// A connection was accepted.
    pub fn on_accepted(&mut self)
        ensures
            final(self).count == 0,
    {
        self.count = 0;
    }

    /// Accepting failed. Returns how many milliseconds to wait before the next
    /// try, or nothing where the socket is given up.
    pub fn on_error(&mut self) -> (r: Option<u64>)
        ensures
            final(self).count == old(self).count.saturating_add(1),
            r == (if final(self).count >= MAX_ACCEPT_ERRORS {
                None
            } else {
                Some(ACCEPT_ERROR_BACKOFF_MS)
            }),
    {
        self.count = self.count.saturating_add(1);
        if self.count >= MAX_ACCEPT_ERRORS {
            None
        } else {
            Some(ACCEPT_ERROR_BACKOFF_MS)
        }
    }
}

/// What is waited for on a queue of shell events.
#[derive(Debug, PartialEq, Eq)]
pub enum Received {
    Event(ExecEvent),
    /// Nothing came in time.
    Timeout,
    /// Nobody can send any more.
    Disconnected,
}

/// `Received` as a mathematical value.
#[verifier::ext_equal]
pub enum Arrival {
    Event(ShellEvent),
    Timeout,
    Disconnected,
}

impl View for Received {
    type V = Arrival;

    open spec fn view(&self) -> Arrival {
        match *self {
            Received::Event(e) => Arrival::Event(e@),
            Received::Timeout => Arrival::Timeout,
            Received::Disconnected => Arrival::Disconnected,
        }
    }
}

/// Whether the host has a shell of its own for consoles, so that a console and
/// commands can run side by side. Of an unknown host the answer is no.
pub open spec fn serves_both(host: Option<Host>, pty_since: u8) -> bool {
    match host {
        Some(h) => h.proto_version >= pty_since,
        None => false,
    }
}

/// Whether the host has a shell of its own for consoles.
pub fn host_supports_pty_slot(host: &Option<HostInfo>, pty_since: u8) -> (r: bool)
    ensures
        r == serves_both(host_view(*host), pty_since),
{
    match host {
        Some(h) => h.proto_version >= pty_since,
        None => false,
    }
}

/// The input for a shell, in packets of at most `piece` bytes.
pub open spec fn input_packets(data: Seq<u8>, piece: nat) -> Seq<PacketView>
    decreases data.len(),
{
    if data.len() == 0 || piece == 0 {
        Seq::empty()
    } else if data.len() <= piece {
        seq![unnumbered(MessageView::ShellInput { data })]
    } else {
        seq![unnumbered(MessageView::ShellInput { data: data.take(piece as int) })] + input_packets(
            data.skip(piece as int),
            piece,
        )
    }
}

/// Queues input for a shell, in packets that the wire can carry.
pub fn send_input(out: &mut Vec<Packet>, data: &[u8], piece: usize)
    requires
        piece > 0,
    ensures
        packet_views(final(out)@) == packet_views(old(out)@) + input_packets(data@, piece as nat),
{
    let total: usize = data.len();
    let mut from: usize = 0;
    assert(data@.skip(0) =~= data@);
    while from < total
        invariant
            piece > 0,
            total == data@.len(),
            from <= total,
            packet_views(out@) + input_packets(data@.skip(from as int), piece as nat)
                == packet_views(old(out)@) + input_packets(data@, piece as nat),
        decreases total - from,
    {
        let ghost rest = data@.skip(from as int);
        let ghost before = packet_views(out@);
        let to: usize = if total - from <= piece {
            total
        } else {
            from + piece
        };
        let bytes = copy_range(data, from, to);
        let packet = Packet::new(Message::ShellInput { data: bytes }, 0);
        out.push(packet);
        proof {
            let sent = data@.subrange(from as int, to as int);
            assert(packet_views(out@) =~= before.push(
                unnumbered(MessageView::ShellInput { data: sent }),
            ));
            if rest.len() <= piece {
                assert(sent =~= rest);
                assert(data@.skip(to as int) =~= Seq::empty());
                assert(packet_views(out@) + input_packets(data@.skip(to as int), piece as nat)
                    =~= before + input_packets(rest, piece as nat));
            } else {
                assert(sent =~= rest.take(piece as int));
                assert(rest.skip(piece as int) =~= data@.skip(to as int));
                assert(packet_views(out@) + input_packets(data@.skip(to as int), piece as nat)
                    =~= before + input_packets(rest, piece as nat));
            }
        }
        from = to;
    }
    assert(data@.skip(from as int) =~= Seq::empty());
    assert(packet_views(out@) + Seq::<PacketView>::empty() =~= packet_views(out@));
}

fn copy_range(data: &[u8], from: usize, to: usize) -> (r: Vec<u8>)
    requires
        from <= to <= data@.len(),
    ensures
        r@ == data@.subrange(from as int, to as int),
{
    let mut out: Vec<u8> = Vec::new();
    let mut i: usize = from;
    while i < to
        invariant
            from <= i <= to <= data@.len(),
            out@ == data@.subrange(from as int, i as int),
        decreases to - i,
    {
        out.push(data[i]);
        i = i + 1;
        assert(out@ =~= data@.subrange(from as int, i as int));
    }
    out
}

/// The bytes of the input packets, one after the other.
pub open spec fn input_bytes(packets: Seq<PacketView>) -> Seq<u8>
    decreases packets.len(),
{
    if packets.len() == 0 {
        Seq::empty()
    } else {
        match packets[0].message {
            MessageView::ShellInput { data } => data + input_bytes(packets.skip(1)),
            _ => input_bytes(packets.skip(1)),
        }
    }
}

/// Input arrives whole and in order, in packets none of which is larger than
/// the wire can carry.
pub proof fn law_input_arrives_whole(data: Seq<u8>, piece: nat)
    requires
        piece > 0,
    ensures
        input_bytes(input_packets(data, piece)) == data,
        forall|i: int|
            #![trigger input_packets(data, piece)[i]]
            0 <= i < input_packets(data, piece).len() ==> {
                let packet = input_packets(data, piece)[i];
                packet.message matches MessageView::ShellInput { data: part } && 0 < part.len()
                    <= piece
            },
    decreases data.len(),
{
    if data.len() > piece {
        let head = unnumbered(MessageView::ShellInput { data: data.take(piece as int) });
        let tail = input_packets(data.skip(piece as int), piece);
        law_input_arrives_whole(data.skip(piece as int), piece);
        assert((seq![head] + tail).skip(1) =~= tail);
        assert(data.take(piece as int) + data.skip(piece as int) =~= data);
        assert forall|i: int|
            #![trigger input_packets(data, piece)[i]]
            0 <= i < input_packets(data, piece).len() implies {
            let packet = input_packets(data, piece)[i];
            packet.message matches MessageView::ShellInput { data: part } && 0 < part.len()
                <= piece
        } by {
            if i > 0 {
                assert(input_packets(data, piece)[i] == tail[i - 1]);
            }
        }
    } else if data.len() > 0 {
        let only = seq![unnumbered(MessageView::ShellInput { data })];
        assert(only.skip(1) =~= Seq::empty());
        reveal_with_fuel(input_bytes, 2);
        assert(data + Seq::<u8>::empty() =~= data);
    } else {
        assert(data =~= Seq::empty());
    }
}

/// The log shows a command whole up to 160 characters; of a longer one it shows
/// the first 160, and says how many more there were.
pub proof fn law_log_shows_the_beginning(cmd: &str, shown: String)
    requires
        call_ensures(abbreviate_cmd, (cmd,), shown),
    ensures
        cmd@.len() <= 160 ==> shown@ == debug_text(cmd@),
        cmd@.len() > 160 ==> {
            &&& text_contains(shown@, debug_text(cmd@.take(160)))
            &&& text_contains(shown@, decimal((cmd@.len() - 160) as nat))
        },
{
    if cmd@.len() > 160 {
        let head = debug_text(cmd@.take(160));
        let mark = "… (+"@;
        let number = decimal((cmd@.len() - 160) as nat);
        let at = (head.len() + mark.len()) as int;
        assert(shown@.subrange(0, head.len() as int) =~= head);
        assert(stands_at(shown@, head, 0));
        assert(shown@.subrange(at, at + number.len()) =~= number);
        assert(stands_at(shown@, number, at));
    }
}

/// A directory that others can enter is closed to them, and stays open to its
/// owner; one that they cannot enter is left as it is.
pub proof fn law_directory_is_closed_to_others(mode: u32, r: Option<u32>)
    requires
        call_ensures(narrowed_mode, (mode,), r),
    ensures
        mode & 0o077 == 0 ==> r is None,
        mode & 0o077 != 0 ==> r == Some(0o700u32),
{
}

/// A socket that fails to accept is tried again after a moment, nine times in a
/// row; the tenth failure ends it. One connection starts the count anew.
pub proof fn law_socket_is_given_up_after_ten_failures(errors: &mut AcceptErrors, r: Option<u64>)
    ensures
        call_ensures(AcceptErrors::on_error, (errors,), r) ==> {
            &&& old(errors).count < u32::MAX ==> final(errors).count == old(errors).count + 1
            &&& old(errors).count + 1 < 10 ==> r == Some(200u64)
            &&& old(errors).count + 1 >= 10 ==> r is None
        },
        call_ensures(AcceptErrors::on_accepted, (errors,), ()) ==> final(errors).count == 0,
{
}

/// A console and commands run side by side exactly with a host of a generation
/// that has a shell for each, and what is done with the host's events goes by
/// the same.
pub proof fn law_host_generation_decides(
    reader: Reader,
    link: Link,
    version: u8,
    host_name: Seq<char>,
    screen_w: u16,
    screen_h: u16,
    info: Option<HostInfo>,
    both: bool,
)
    requires
        call_ensures(host_supports_pty_slot, (&info, link.pty_since), both),
    ensures
        both <==> (info matches Some(h) && h.proto_version >= link.pty_since),
        ({
            let said = MessageView::HelloAck { version, host_name, screen_w, screen_h };
            let after = reader.link_after_message(link, said);
            serves_both(after.host, link.pty_since) == !after.slots.legacy_fallback
        }),
{
}

/// Input is cut only where it must be: every packet but the last is as large as
/// the wire can carry, and no more packets are queued than it takes.
pub proof fn law_input_is_cut_only_where_it_must_be(data: Seq<u8>, piece: nat, i: int)
    requires
        piece > 0,
    ensures
        0 <= i < input_packets(data, piece).len() - 1 ==> (input_packets(
            data,
            piece,
        )[i].message matches MessageView::ShellInput { data: part } && part.len() == piece),
        0 <= i < input_packets(data, piece).len() ==> input_packets(data, piece)[i].seq == 0,
        0 < data.len() <= piece ==> input_packets(data, piece).len() == 1,
        data.len() == 0 ==> input_packets(data, piece).len() == 0,
    decreases data.len(),
{
    if data.len() > piece {
        let tail = input_packets(data.skip(piece as int), piece);
        law_input_is_cut_only_where_it_must_be(data.skip(piece as int), piece, i - 1);
        if i > 0 && i < input_packets(data, piece).len() {
            assert(input_packets(data, piece)[i] == tail[i - 1]);
        }
    }
}

/// What is queued as input for a shell comes behind what was queued before, and
/// is the data, byte for byte.
pub proof fn law_queued_input_is_the_data(out: &mut Vec<Packet>, data: &[u8], piece: usize)
    requires
        call_ensures(send_input, (out, data, piece), ()),
        piece > 0,
    ensures
        packet_views(final(out)@).take(old(out)@.len() as int) == packet_views(old(out)@),
        input_bytes(packet_views(final(out)@).skip(old(out)@.len() as int)) == data@,
{
    law_input_arrives_whole(data@, piece as nat);
    let before = packet_views(old(out)@);
    let more = input_packets(data@, piece as nat);
    assert((before + more).take(before.len() as int) =~= before);
    assert((before + more).skip(before.len() as int) =~= more);
}

} // verus!
