//! The messages that client and host exchange, as plain values.
//!
//! How a message is laid out on the wire is the transport's business; the
//! rules of this crate only speak of the values.

use vstd::prelude::*;

verus! {

/// Clipboard payload: UTF-8 text.
pub const FORMAT_TEXT_UTF8: u8 = 0;

/// Clipboard payload: a PNG image.
pub const FORMAT_PNG_IMAGE: u8 = 1;

/// Clipboard payload: a file, name and content in one.
pub const FORMAT_FILE: u8 = 2;

/// One message between client and host.
#[derive(Debug, Clone, PartialEq, Eq)]
#[allow(inconsistent_fields)]
pub enum Message {
    Hello { version: u8, client_name: String },
    HelloAck { version: u8, host_name: String, screen_w: u16, screen_h: u16 },
    Heartbeat,
    Disconnect,
    Error { code: u16, msg: String },
    KeyDown { scancode: u16, modifiers: u8 },
    KeyUp { scancode: u16, modifiers: u8 },
    MouseMove { x: u16, y: u16 },
    MouseButton { button: u8, pressed: bool },
    MouseScroll { delta_x: i16, delta_y: i16 },
    ClipOffer { format: u8, total_len: u32 },
    ClipChunk { index: u16, data: Vec<u8> },
    ClipDecline { format: u8 },
    ShellOpen { shell: String },
    ShellOpenPty { shell: String, cols: u16, rows: u16 },
    ShellInput { data: Vec<u8> },
    ShellOutput { data: Vec<u8> },
    ShellExit { code: i32 },
    ShellClose,
    /// The host's answer to `ShellClose`.
    ShellClosed,
    PtyOpen { shell: String, cols: u16, rows: u16 },
    PtyInput { data: Vec<u8> },
    PtyOutput { data: Vec<u8> },
    PtyExit { code: i32 },
    PtyResize { cols: u16, rows: u16 },
    PtyClose,
}

/// A message as a mathematical value: bytes and text are sequences.
#[verifier::ext_equal]
#[allow(inconsistent_fields)]
pub enum MessageView {
    Hello { version: u8, client_name: Seq<char> },
    HelloAck { version: u8, host_name: Seq<char>, screen_w: u16, screen_h: u16 },
    Heartbeat,
    Disconnect,
    Error { code: u16, msg: Seq<char> },
    KeyDown { scancode: u16, modifiers: u8 },
    KeyUp { scancode: u16, modifiers: u8 },
    MouseMove { x: u16, y: u16 },
    MouseButton { button: u8, pressed: bool },
    MouseScroll { delta_x: i16, delta_y: i16 },
    ClipOffer { format: u8, total_len: u32 },
    ClipChunk { index: u16, data: Seq<u8> },
    ClipDecline { format: u8 },
    ShellOpen { shell: Seq<char> },
    ShellOpenPty { shell: Seq<char>, cols: u16, rows: u16 },
    ShellInput { data: Seq<u8> },
    ShellOutput { data: Seq<u8> },
    ShellExit { code: i32 },
    ShellClose,
    ShellClosed,
    PtyOpen { shell: Seq<char>, cols: u16, rows: u16 },
    PtyInput { data: Seq<u8> },
    PtyOutput { data: Seq<u8> },
    PtyExit { code: i32 },
    PtyResize { cols: u16, rows: u16 },
    PtyClose,
}

impl View for Message {
    type V = MessageView;

    open spec fn view(&self) -> MessageView {
        match *self {
            Message::Hello { version, client_name } => MessageView::Hello {
                version,
                client_name: client_name@,
            },
            Message::HelloAck { version, host_name, screen_w, screen_h } => MessageView::HelloAck {
                version,
                host_name: host_name@,
                screen_w,
                screen_h,
            },
            Message::Heartbeat => MessageView::Heartbeat,
            Message::Disconnect => MessageView::Disconnect,
            Message::Error { code, msg } => MessageView::Error { code, msg: msg@ },
            Message::KeyDown { scancode, modifiers } => MessageView::KeyDown {
                scancode,
                modifiers,
            },
            Message::KeyUp { scancode, modifiers } => MessageView::KeyUp { scancode, modifiers },
            Message::MouseMove { x, y } => MessageView::MouseMove { x, y },
            Message::MouseButton { button, pressed } => MessageView::MouseButton {
                button,
                pressed,
            },
            Message::MouseScroll { delta_x, delta_y } => MessageView::MouseScroll {
                delta_x,
                delta_y,
            },
            Message::ClipOffer { format, total_len } => MessageView::ClipOffer {
                format,
                total_len,
            },
            Message::ClipChunk { index, data } => MessageView::ClipChunk { index, data: data@ },
            Message::ClipDecline { format } => MessageView::ClipDecline { format },
            Message::ShellOpen { shell } => MessageView::ShellOpen { shell: shell@ },
            Message::ShellOpenPty { shell, cols, rows } => MessageView::ShellOpenPty {
                shell: shell@,
                cols,
                rows,
            },
            Message::ShellInput { data } => MessageView::ShellInput { data: data@ },
            Message::ShellOutput { data } => MessageView::ShellOutput { data: data@ },
            Message::ShellExit { code } => MessageView::ShellExit { code },
            Message::ShellClose => MessageView::ShellClose,
            Message::ShellClosed => MessageView::ShellClosed,
            Message::PtyOpen { shell, cols, rows } => MessageView::PtyOpen {
                shell: shell@,
                cols,
                rows,
            },
            Message::PtyInput { data } => MessageView::PtyInput { data: data@ },
            Message::PtyOutput { data } => MessageView::PtyOutput { data: data@ },
            Message::PtyExit { code } => MessageView::PtyExit { code },
            Message::PtyResize { cols, rows } => MessageView::PtyResize { cols, rows },
            Message::PtyClose => MessageView::PtyClose,
        }
    }
}

/// A message with its sequence number.
#[derive(Debug, Clone, PartialEq, Eq)]
pub struct Packet {
    pub message: Message,
    pub seq: u16,
}

/// A packet as a mathematical value.
#[verifier::ext_equal]
pub struct PacketView {
    pub message: MessageView,
    pub seq: u16,
}

impl View for Packet {
    type V = PacketView;

    open spec fn view(&self) -> PacketView {
        PacketView { message: self.message@, seq: self.seq }
    }
}

impl Packet {
    /// A packet that carries `message` under the number `seq`.
    pub fn new(message: Message, seq: u16) -> (r: Packet)
        ensures
            r@ == (PacketView { message: message@, seq }),
            r.message == message,
            r.seq == seq,
    {
        Packet { message, seq }
    }
}

/// The packets of a sequence, each as a mathematical value.
pub open spec fn packet_views(packets: Seq<Packet>) -> Seq<PacketView> {
    Seq::new(packets.len(), |i: int| packets[i]@)
}

/// The packet that carries `message` under the number zero.
pub open spec fn unnumbered(message: MessageView) -> PacketView {
    PacketView { message, seq: 0 }
}

/// True of the messages that move clipboard payload out: an offer and its
/// chunks.
pub open spec fn is_clip_payload(message: MessageView) -> bool {
    message is ClipOffer || message is ClipChunk
}

/// A packet carries the message that it was made of, under the number that it
/// was given.
pub proof fn law_packet_carries_its_message(message: Message, seq: u16, packet: Packet)
    requires
        call_ensures(Packet::new, (message, seq), packet),
    ensures
        packet.message == message && packet.seq == seq,
        packet@ == (PacketView { message: message@, seq }),
{
}

} // verus!
