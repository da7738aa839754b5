//! What arrives for this machine's clipboard.
//!
//! An offer announces a payload; its chunks follow in any order. Once as many
//! bytes as announced have arrived the payload is put together and handed out
//! for the clipboard.

use std::collections::BTreeMap;

use vstd::prelude::*;
use vstd::string::*;
use vstd::utf8::*;

use crate::clipboard::clip_file::{
    FileCaps, push_all, unpack_first_chunk, unpacked_file,
};
use crate::clipboard::png::{
    DECODE_MAX_ALLOC, ImageCodecError, Picture, RgbaImage, decode_png_to_rgba, decoded_picture,
    png_decoding,
};
use crate::clipboard::{
    ClipboardState, MAX_CLIPBOARD_BYTES, MAX_IMAGE_BYTES, Seen, bytes_hash, hash_bytes, hash_text,
    remembered,
};
use crate::protocol::{FORMAT_FILE, FORMAT_PNG_IMAGE, FORMAT_TEXT_UTF8, Message};

verus! {

broadcast use {
    vstd::laws_cmp::group_laws_cmp,
    vstd::std_specs::btree::group_btree_axioms,
};

/// What of a payload has arrived.
#[verifier::ext_equal]
pub struct Reassembly {
    /// Announced length; zero where no payload is awaited.
    pub expected_len: u32,
    pub expected_format: u8,
    /// The chunks that arrived, by index.
    pub received: Map<u16, Seq<u8>>,
    /// Bytes that arrived, each index counted once.
    pub received_total: u32,
    /// What the progress display shows: bytes so far and in all.
    pub progress: u64,
    pub total: u64,
}

/// The chunks `0..n`, one after the other.
pub open spec fn joined(chunks: Map<u16, Seq<u8>>, n: nat) -> Seq<u8>
    decreases n,
{
    if n == 0 {
        Seq::empty()
    } else {
        joined(chunks, (n - 1) as nat) + chunks[(n - 1) as u16]
    }
}

/// True where the indices are `0, 1, 2, ..` without a gap.
pub open spec fn contiguous(chunks: Map<u16, Seq<u8>>) -> bool {
    forall|i: int|
        0 <= i < chunks.len() ==> i <= u16::MAX && #[trigger] chunks.contains_key(i as u16)
}

impl Reassembly {
    /// No payload is awaited.
    pub open spec fn idle() -> Reassembly {
        Reassembly {
            expected_len: 0,
            expected_format: 0,
            received: Map::empty(),
            received_total: 0,
            progress: 0,
            total: 0,
        }
    }

    /// A payload was announced and nothing of it has arrived.
    pub open spec fn armed(format: u8, total_len: u32) -> Reassembly {
        Reassembly {
            expected_len: total_len,
            expected_format: format,
            received: Map::empty(),
            received_total: 0,
            progress: 0,
            total: total_len as u64,
        }
    }

    /// The payload that the chunks make, unless one is missing or the length
    /// is not the announced one.
    pub open spec fn payload(self) -> Option<Seq<u8>> {
        let bytes = joined(self.received, self.received.len());
        if contiguous(self.received) && bytes.len() as u32 == self.expected_len {
            Some(bytes)
        } else {
            None
        }
    }

    /// The state with one more chunk in it. A repeated index replaces the
    /// chunk and does not count again.
    pub open spec fn with_chunk(self, index: u16, data: Seq<u8>) -> Reassembly {
        let added = data.len() as u32;
        let fresh = !self.received.contains_key(index);
        Reassembly {
            received: self.received.insert(index, data),
            received_total: if fresh {
                self.received_total.saturating_add(added)
            } else {
                self.received_total
            },
            progress: if fresh {
                self.progress.wrapping_add(added as u64)
            } else {
                self.progress
            },
            ..self
        }
    }

    /// What a chunk does: dropped where nothing is awaited, kept while bytes
    /// are missing. The chunk that completes the announced length ends the
    /// reassembly, and the payload comes out where the chunks make one.
    pub open spec fn after_chunk(self, index: u16, data: Seq<u8>) -> (Reassembly, Option<Seq<u8>>) {
        if self.expected_len == 0 {
            (self, None)
        } else {
            let next = self.with_chunk(index, data);
            if next.received_total >= self.expected_len {
                (Reassembly::idle(), next.payload())
            } else {
                (next, None)
            }
        }
    }
}

/// What becomes of an offer.
pub enum Verdict {
    /// Unknown format: ignored.
    Unknown,
    /// Not wanted: declined.
    Declined,
    /// Over the limit of its format: ignored.
    OverCap,
    /// Awaited.
    Accepted,
}

/// The largest payload of a known format.
pub open spec fn format_cap(format: u8, caps: FileCaps) -> int {
    if format == FORMAT_PNG_IMAGE {
        MAX_IMAGE_BYTES as int
    } else if format == FORMAT_TEXT_UTF8 {
        MAX_CLIPBOARD_BYTES as int
    } else {
        caps.payload_cap()
    }
}

/// Payload ready for the clipboard, with the hash by which it is recognised.
#[derive(Debug, Clone, PartialEq, Eq)]
pub enum Delivery {
    Text { text: String, hash: u64 },
    Image { image: RgbaImage, hash: u64 },
    File { name: String, content: Vec<u8>, hash: u64 },
}

/// `Delivery` as a mathematical value.
#[verifier::ext_equal]
pub enum DeliveryView {
    Text { text: Seq<char>, hash: u64 },
    Image { picture: Picture, hash: u64 },
    File { name: Seq<char>, content: Seq<u8>, hash: u64 },
}

impl View for Delivery {
    type V = DeliveryView;

    open spec fn view(&self) -> DeliveryView {
        match *self {
            Delivery::Text { text, hash } => DeliveryView::Text { text: text@, hash },
            Delivery::Image { image, hash } => DeliveryView::Image { picture: image@, hash },
            Delivery::File { name, content, hash } => DeliveryView::File {
                name: name@,
                content: content@,
                hash,
            },
        }
    }
}

/// The text that a payload holds.
pub open spec fn text_delivery(payload: Seq<u8>) -> Option<DeliveryView> {
    if valid_utf8(payload) {
        Some(DeliveryView::Text { text: decode_utf8(payload), hash: bytes_hash(payload) })
    } else {
        None
    }
}

/// The image that was decoded. It is recognised by its pixels.
pub open spec fn image_delivery(decoded: Result<Picture, ImageCodecError>) -> Option<DeliveryView> {
    match decoded {
        Ok(picture) => Some(DeliveryView::Image { picture, hash: bytes_hash(picture.rgba) }),
        Err(_) => None,
    }
}

/// The file that a payload holds. It is recognised by its content.
pub open spec fn file_delivery(payload: Seq<u8>) -> Option<DeliveryView> {
    match unpacked_file(payload) {
        Ok((name, content)) => Some(
            DeliveryView::File { name, content, hash: bytes_hash(content) },
        ),
        Err(_) => None,
    }
}

/// What a payload of this format delivers.
pub open spec fn delivery(format: u8, payload: Seq<u8>) -> Option<DeliveryView> {
    if format == FORMAT_TEXT_UTF8 {
        text_delivery(payload)
    } else if format == FORMAT_PNG_IMAGE {
        image_delivery(decoded_picture(png_decoding(payload, DECODE_MAX_ALLOC)))
    } else if format == FORMAT_FILE {
        file_delivery(payload)
    } else {
        None
    }
}

/// An optional delivery as a mathematical value.
pub open spec fn delivery_view(d: Option<Delivery>) -> Option<DeliveryView> {
    match d {
        Some(x) => Some(x@),
        None => None,
    }
}

/// Takes in what the host offers.
#[derive(Debug)]
pub struct IncomingClipboard {
    pub expected_len: u32,
    pub expected_format: u8,
    pub received: BTreeMap<u16, Vec<u8>>,
    pub received_total: u32,
    pub incoming_progress: u64,
    pub incoming_total: u64,
    pub receive_images: bool,
    pub receive_text: bool,
    pub receive_files: bool,
    pub file_caps: FileCaps,
    /// The file being written, until it is complete.
    pub in_flight_file_path: Option<String>,
    /// Incomplete files that are to be removed from disk.
    pub stale_files: Vec<String>,
}

/// The files to remove after a reset: an incomplete one joins them.
pub open spec fn stale_after(stale: Seq<String>, in_flight: Option<String>) -> Seq<String> {
    match in_flight {
        Some(path) => stale.push(path),
        None => stale,
    }
}

/// `IncomingClipboard` as a mathematical value.
#[verifier::ext_equal]
pub struct Incoming {
    pub reassembly: Reassembly,
    pub receive_images: bool,
    pub receive_text: bool,
    pub receive_files: bool,
    pub file_caps: FileCaps,
    pub in_flight: Option<String>,
    pub stale: Seq<String>,
}

impl View for IncomingClipboard {
    type V = Incoming;

    open spec fn view(&self) -> Incoming {
        Incoming {
            reassembly: Reassembly {
                expected_len: self.expected_len,
                expected_format: self.expected_format,
                received: self.received@.map_values(|v: Vec<u8>| v@),
                received_total: self.received_total,
                progress: self.incoming_progress,
                total: self.incoming_total,
            },
            receive_images: self.receive_images,
            receive_text: self.receive_text,
            receive_files: self.receive_files,
            file_caps: self.file_caps,
            in_flight: self.in_flight_file_path,
            stale: self.stale_files@,
        }
    }
}

impl Incoming {
    /// What becomes of an offer.
    pub open spec fn verdict(self, format: u8, total_len: u32) -> Verdict {
        if format != FORMAT_TEXT_UTF8 && format != FORMAT_PNG_IMAGE && format != FORMAT_FILE {
            Verdict::Unknown
        } else if format == FORMAT_TEXT_UTF8 && !self.receive_text || format == FORMAT_PNG_IMAGE
            && !self.receive_images || format == FORMAT_FILE && !self.receive_files {
            Verdict::Declined
        } else if total_len > format_cap(format, self.file_caps) {
            Verdict::OverCap
        } else {
            Verdict::Accepted
        }
    }

    /// Nothing is awaited any more; files on disk stay as they are.
    pub open spec fn disarmed(self) -> Incoming {
        Incoming { reassembly: Reassembly::idle(), ..self }
    }

    /// Nothing is awaited on a link that was just opened. The counters still
    /// show what they did, and files on disk stay as they are.
    pub open spec fn on_fresh_link(self) -> Incoming {
        Incoming {
            reassembly: Reassembly {
                progress: self.reassembly.progress,
                total: self.reassembly.total,
                ..Reassembly::idle()
            },
            in_flight: None,
            ..self
        }
    }

    /// Nothing is awaited any more, and an incomplete file is to be removed.
    pub open spec fn after_reset(self) -> Incoming {
        Incoming {
            reassembly: Reassembly::idle(),
            in_flight: None,
            stale: stale_after(self.stale, self.in_flight),
            ..self
        }
    }

    /// The state after an offer.
    pub open spec fn after_offer(self, format: u8, total_len: u32) -> Incoming {
        match self.verdict(format, total_len) {
            Verdict::Unknown => self.disarmed(),
            Verdict::Declined => self.disarmed(),
            Verdict::OverCap => self.after_reset(),
            Verdict::Accepted => Incoming {
                reassembly: Reassembly::armed(format, total_len),
                ..self
            },
        }
    }

    /// Whether a chunk brings the announced number of bytes.
    pub open spec fn completes(self, index: u16, data: Seq<u8>) -> bool {
        self.reassembly.expected_len > 0 && self.reassembly.with_chunk(index, data).received_total
            >= self.reassembly.expected_len
    }

    /// The state after a chunk.
    pub open spec fn after_chunk(self, index: u16, data: Seq<u8>) -> Incoming {
        if self.completes(index, data) {
            self.after_reset()
        } else {
            Incoming { reassembly: self.reassembly.after_chunk(index, data).0, ..self }
        }
    }

    /// What is ready for the clipboard after a chunk.
    pub open spec fn delivered(self, index: u16, data: Seq<u8>) -> Option<DeliveryView> {
        match self.reassembly.after_chunk(index, data).1 {
            Some(payload) => delivery(self.reassembly.expected_format, payload),
            None => None,
        }
    }
}

impl IncomingClipboard {
    pub fn new(
        receive_images: bool,
        receive_text: bool,
        receive_files: bool,
        file_caps: FileCaps,
    ) -> (r: IncomingClipboard)
        ensures
            r@ == (Incoming {
                reassembly: Reassembly::idle(),
                receive_images,
                receive_text,
                receive_files,
                file_caps,
                in_flight: None,
                stale: Seq::empty(),
            }),
    {
        let r = IncomingClipboard {
            expected_len: 0,
            expected_format: 0,
            received: BTreeMap::new(),
            received_total: 0,
            incoming_progress: 0,
            incoming_total: 0,
            receive_images,
            receive_text,
            receive_files,
            file_caps,
            in_flight_file_path: None,
            stale_files: Vec::new(),
        };
        assert(r@.reassembly =~= Reassembly::idle());
        assert(r@.stale =~= Seq::empty());
        r
    }

    /// Awaits nothing any more; files on disk stay as they are.
    fn disarm(&mut self)
        ensures
            final(self)@ == old(self)@.disarmed(),
    {
        self.expected_len = 0;
        self.expected_format = 0;
        self.received.clear();
        self.received_total = 0;
        self.incoming_progress = 0;
        self.incoming_total = 0;
        assert(self@.reassembly =~= Reassembly::idle());
    }

    /// A link was opened: what the one before announced is not awaited on it.
    pub fn begin_link(&mut self)
        ensures
            final(self)@ == old(self)@.on_fresh_link(),
    {
        self.expected_len = 0;
        self.expected_format = 0;
        self.received.clear();
        self.received_total = 0;
        self.in_flight_file_path = None;
        assert(self@.reassembly.received =~= Map::empty());
    }

    /// Drops what has arrived and awaits nothing any more. A file that was
    /// being written is to be removed.
    pub fn reset(&mut self)
        ensures
            final(self)@ == old(self)@.after_reset(),
    {
        self.disarm();
        match self.in_flight_file_path.take() {
            Some(path) => self.stale_files.push(path),
            None => {},
        }
    }

    /// Takes an offer. Returns the message that declines it where the user
    /// does not want this kind of content.
    pub fn on_offer(&mut self, format: u8, total_len: u32) -> (r: Option<Message>)
        ensures
            final(self)@ == old(self)@.after_offer(format, total_len),
            r == (if old(self)@.verdict(format, total_len) is Declined {
                Some(Message::ClipDecline { format })
            } else {
                None
            }),
    {
        if format != FORMAT_TEXT_UTF8 && format != FORMAT_PNG_IMAGE && format != FORMAT_FILE {
            self.disarm();
            return None;
        }
        if format == FORMAT_TEXT_UTF8 && !self.receive_text {
            self.disarm();
            return Some(Message::ClipDecline { format });
        }
        if format == FORMAT_PNG_IMAGE && !self.receive_images {
            self.disarm();
            return Some(Message::ClipDecline { format });
        }
        if format == FORMAT_FILE && !self.receive_files {
            self.disarm();
            return Some(Message::ClipDecline { format });
        }
        let cap: u64 = if format == FORMAT_PNG_IMAGE {
            MAX_IMAGE_BYTES as u64
        } else if format == FORMAT_TEXT_UTF8 {
            MAX_CLIPBOARD_BYTES as u64
        } else {
            self.file_caps.max_payload_bytes()
        };
        if total_len as u64 > cap {
            self.reset();
            return None;
        }
        self.expected_len = total_len;
        self.expected_format = format;
        self.received.clear();
        self.received_total = 0;
        self.incoming_total = total_len as u64;
        self.incoming_progress = 0;
        assert(self@.reassembly =~= Reassembly::armed(format, total_len));
        None
    }

    /// Takes a chunk. Returns what is ready for the clipboard once the payload
    /// is complete.
    pub fn on_chunk(&mut self, index: u16, data: Vec<u8>) -> (r: Option<Delivery>)
        ensures
            final(self)@ == old(self)@.after_chunk(index, data@),
            delivery_view(r) == old(self)@.delivered(index, data@),
    {
        if self.expected_len == 0 {
            return None;
        }
        let ghost before = *self;
        let added: u32 = data.len() as u32;
        if self.received.insert(index, data).is_none() {
            self.received_total = self.received_total.saturating_add(added);
            self.incoming_progress = self.incoming_progress.wrapping_add(added as u64);
        }
        assert(self@.reassembly =~= before@.reassembly.with_chunk(index, data@));
        if self.received_total >= self.expected_len {
            self.commit()
        } else {
            None
        }
    }

    /// A delivered file is about to be written to `path`.
    pub fn begin_file(&mut self, path: String)
        ensures
            final(self)@ == (Incoming { in_flight: Some(path), ..old(self)@ }),
    {
        self.in_flight_file_path = Some(path);
    }

    /// The file was written, or could not be: what is left of it is then to be
    /// removed.
    pub fn finish_file(&mut self, wrote: bool)
        ensures
            final(self)@ == (Incoming {
                in_flight: None,
                stale: if wrote {
                    old(self)@.stale
                } else {
                    stale_after(old(self)@.stale, old(self)@.in_flight)
                },
                ..old(self)@
            }),
    {
        match self.in_flight_file_path.take() {
            Some(path) => if !wrote {
                self.stale_files.push(path);
            },
            None => {},
        }
    }

    /// Puts the payload together and hands out what it delivers. Nothing is
    /// awaited afterwards, whatever came of it.
    fn commit(&mut self) -> (r: Option<Delivery>)
        ensures
            final(self)@ == old(self)@.after_reset(),
            delivery_view(r) == (match old(self)@.reassembly.payload() {
                Some(bytes) => delivery(old(self)@.reassembly.expected_format, bytes),
                None => None,
            }),
    {
        let format: u8 = self.expected_format;
        let payload = self.assemble();
        self.reset();
        match payload {
            Some(buf) => if format == FORMAT_TEXT_UTF8 {
                commit_text(buf)
            } else if format == FORMAT_PNG_IMAGE {
                commit_image(buf.as_slice())
            } else if format == FORMAT_FILE {
                commit_file(buf.as_slice())
            } else {
                None
            },
            None => None,
        }
    }

    /// The payload that the chunks make.
    fn assemble(&self) -> (r: Option<Vec<u8>>)
        ensures
            match self@.reassembly.payload() {
                Some(bytes) => r matches Some(v) && v@ == bytes,
                None => r is None,
            },
    {
        let n: usize = self.received.len();
        let ghost chunks = self@.reassembly.received;
        assert(chunks.dom() =~= self.received@.dom());
        let mut buf: Vec<u8> = Vec::new();
        let mut i: usize = 0;
        while i < n
            invariant
                chunks == self@.reassembly.received,
                chunks.dom() == self.received@.dom(),
                n == chunks.len(),
                i <= n,
                buf@ == joined(chunks, i as nat),
                forall|j: int|
                    0 <= j < i ==> j <= u16::MAX && #[trigger] chunks.contains_key(j as u16),
            decreases n - i,
        {
            if i > u16::MAX as usize {
                assert(contiguous(chunks) ==> chunks.contains_key(i as u16));
                return None;
            }
            let key: u16 = i as u16;
            match self.received.get(&key) {
                Some(chunk) => {
                    push_all(&mut buf, chunk.as_slice());
                },
                None => {
                    assert(!chunks.contains_key(i as u16));
                    return None;
                },
            }
            i = i + 1;
        }
        assert(contiguous(chunks));
        if buf.len() as u32 != self.expected_len {
            return None;
        }
        Some(buf)
    }
}

/// Delivers text, where the payload is UTF-8.
pub fn commit_text(buf: Vec<u8>) -> (r: Option<Delivery>)
    ensures
        delivery_view(r) == text_delivery(buf@),
{
    match string_of(buf) {
        Some(text) => {
            let hash: u64 = hash_text(text.as_str());
            Some(Delivery::Text { text, hash })
        },
        None => None,
    }
}

fn string_of(buf: Vec<u8>) -> (r: Option<String>)
    ensures
        r is Some <==> valid_utf8(buf@),
        r matches Some(s) ==> s@ == decode_utf8(buf@) && encode_utf8(s@) == buf@,
{
    let r = crate::text::string_from_utf8(buf);
    proof {
        if valid_utf8(buf@) {
            decode_utf8_encode_utf8(buf@);
        }
    }
    r
}

/// Delivers the image that a PNG holds.
pub fn commit_image(buf: &[u8]) -> (r: Option<Delivery>)
    ensures
        delivery_view(r) == image_delivery(decoded_picture(png_decoding(buf@, DECODE_MAX_ALLOC))),
{
    deliver_image(decode_png_to_rgba(buf))
}

/// Delivers a decoded image.
pub fn deliver_image(decoded: Result<RgbaImage, ImageCodecError>) -> (r: Option<Delivery>)
    ensures
        delivery_view(r) == image_delivery(
            match decoded {
                Ok(img) => Ok(img@),
                Err(e) => Err(e),
            },
        ),
{
    match decoded {
        Ok(image) => {
            let hash: u64 = hash_bytes(image.bytes.as_slice());
            Some(Delivery::Image { image, hash })
        },
        Err(_) => None,
    }
}

/// Delivers the file that a payload holds.
pub fn commit_file(buf: &[u8]) -> (r: Option<Delivery>)
    ensures
        delivery_view(r) == file_delivery(buf@),
{
    match unpack_first_chunk(buf) {
        Ok((name, content)) => {
            let hash: u64 = hash_bytes(content.as_slice());
            Some(Delivery::File { name, content, hash })
        },
        Err(_) => None,
    }
}

/// What is remembered after a delivery reached the clipboard.
pub open spec fn seen_after_delivery(seen: Seen, d: DeliveryView) -> Seen {
    match d {
        DeliveryView::Text { text: _, hash } => seen.with_text(hash),
        DeliveryView::Image { picture: _, hash } => seen.with_image(hash),
        DeliveryView::File { name: _, content: _, hash } => seen.with_file(hash),
    }
}

/// Remembers a delivery, so that it is not sent back: only where the clipboard
/// took it. Otherwise the clipboard still holds what it held, and a change to
/// it is to be noticed.
pub fn note_delivery(state: &mut ClipboardState, d: &Delivery, wrote_ok: bool)
    ensures
        final(state)@ == (if wrote_ok {
            seen_after_delivery(old(state)@, d@)
        } else {
            old(state)@
        }),
{
    if wrote_ok {
        match d {
            Delivery::Text { text: _, hash } => state.set_text(*hash),
            Delivery::Image { image: _, hash } => state.set_image(*hash),
            Delivery::File { name: _, content: _, hash } => state.set_file(*hash),
        }
    }
}

/// What the user wants is awaited up to the limit of its kind, what the user
/// does not want is declined, and what is too large or of no known kind is
/// ignored. Only what is awaited is awaited afterwards.
pub proof fn law_wanted_offer_is_awaited(
    inc: &mut IncomingClipboard,
    format: u8,
    total_len: u32,
    r: Option<Message>,
)
    requires
        call_ensures(IncomingClipboard::on_offer, (inc, format, total_len), r),
    ensures
        ({
            let wanted = format == 0 && old(inc).receive_text || format == 1 && old(inc).receive_images || format == 2 && old(inc).receive_files;
            let fits = format == 0 && total_len <= 256 * 1024 || format == 1 && total_len <= 20
                * 1024 * 1024 || format == 2 && total_len <= old(inc).file_caps.max_file_bytes
                + old(inc).file_caps.max_filename_len + 2;
            &&& wanted && fits ==> {
                &&& final(inc)@.reassembly == (Reassembly {
                    expected_len: total_len,
                    expected_format: format,
                    received: Map::empty(),
                    received_total: 0,
                    progress: 0,
                    total: total_len as u64,
                })
                &&& r is None
            }
            &&& !(wanted && fits) ==> final(inc)@.reassembly.expected_len == 0 && final(inc)@.reassembly.received == Map::<u16, Seq<u8>>::empty() && final(inc)@.reassembly.total == 0
            &&& format <= 2 && !wanted ==> r == Some(Message::ClipDecline { format })
            &&& format > 2 || wanted ==> r is None
        }),
        final(inc)@.receive_text == old(inc)@.receive_text,
        final(inc)@.receive_images == old(inc)@.receive_images,
        final(inc)@.receive_files == old(inc)@.receive_files,
        final(inc)@.file_caps == old(inc)@.file_caps,
{
}

/// A chunk that is awaited is kept as it came, and counts by its bytes; nothing
/// is delivered before as many bytes came as were announced.
pub proof fn law_awaited_chunk_is_kept(
    inc: &mut IncomingClipboard,
    index: u16,
    data: Vec<u8>,
    r: Option<Delivery>,
)
    requires
        call_ensures(IncomingClipboard::on_chunk, (inc, index, data), r),
        !old(inc)@.reassembly.received.contains_key(index),
        old(inc)@.reassembly.received_total + data@.len() < old(inc)@.reassembly.expected_len,
        old(inc)@.reassembly.progress == old(inc)@.reassembly.received_total,
    ensures
        r is None,
        ({
            let before = old(inc)@.reassembly;
            &&& final(inc)@.reassembly == (Reassembly {
                received: before.received.insert(index, data@),
                received_total: (before.received_total + data@.len()) as u32,
                progress: (before.progress + data@.len()) as u64,
                ..before
            })
            &&& final(inc)@ == (Incoming {
                reassembly: final(inc)@.reassembly,
                ..old(inc)@
            })
        }),
{
}

/// Where nothing is awaited a chunk is dropped, and changes nothing.
pub proof fn law_stray_chunk_is_dropped(
    inc: &mut IncomingClipboard,
    index: u16,
    data: Vec<u8>,
    r: Option<Delivery>,
)
    requires
        call_ensures(IncomingClipboard::on_chunk, (inc, index, data), r),
        old(inc).expected_len == 0,
    ensures
        r is None,
        final(inc)@ == old(inc)@,
{
}

/// A payload that came in one chunk is delivered as what it is: the text that
/// the bytes encode, the image that they decode to, the file that they hold; and
/// nothing where they are none. It is recognised later by its text, its pixels
/// or its content, and the receiver is then free.
pub proof fn law_payload_is_delivered_as_what_it_is(
    inc: &mut IncomingClipboard,
    data: Vec<u8>,
    r: Option<Delivery>,
)
    requires
        call_ensures(IncomingClipboard::on_chunk, (inc, 0, data), r),
        old(inc)@.reassembly.received == Map::<u16, Seq<u8>>::empty(),
        old(inc)@.reassembly.received_total == 0,
        0 < old(inc).expected_len,
        old(inc).expected_len == data@.len(),
    ensures
        old(inc).expected_format == 0 ==> {
            &&& valid_utf8(data@) ==> (r matches Some(Delivery::Text { text, hash })
                && encode_utf8(text@) == data@ && hash == bytes_hash(data@))
            &&& !valid_utf8(data@) ==> r is None
        },
        old(inc).expected_format == 1 ==> match decoded_picture(
            png_decoding(data@, DECODE_MAX_ALLOC),
        ) {
            Ok(picture) => r matches Some(Delivery::Image { image, hash }) && image@ == picture
                && hash == bytes_hash(picture.rgba),
            Err(_) => r is None,
        },
        old(inc).expected_format == 2 ==> match unpacked_file(data@) {
            Ok((name, content)) => r matches Some(Delivery::File { name: n, content: c, hash })
                && n@ == name && c@ == content && hash == bytes_hash(content),
            Err(_) => r is None,
        },
        old(inc).expected_format > 2 ==> r is None,
        final(inc)@.reassembly.expected_len == 0 && final(inc)@.reassembly.total == 0,
        final(inc)@.reassembly.received == Map::<u16, Seq<u8>>::empty(),
{
    let before = old(inc)@.reassembly;
    let next = before.with_chunk(0, data@);
    assert(next.received.dom() =~= set![0u16]);
    assert(next.received.len() == 1);
    assert(contiguous(next.received));
    reveal_with_fuel(joined, 2);
    assert(joined(next.received, 1) =~= data@);
    if valid_utf8(data@) {
        decode_utf8_encode_utf8(data@);
    }
}

/// A reset awaits nothing any more and has an incomplete file removed; the
/// user's choices stay.
pub proof fn law_reset_removes_the_incomplete_file(inc: &mut IncomingClipboard)
    requires
        call_ensures(IncomingClipboard::reset, (inc,), ()),
    ensures
        final(inc)@.reassembly.expected_len == 0,
        final(inc)@.reassembly.received == Map::<u16, Seq<u8>>::empty(),
        final(inc)@.reassembly.progress == 0 && final(inc)@.reassembly.total == 0,
        final(inc)@.in_flight is None,
        old(inc)@.in_flight matches Some(path) ==> final(inc)@.stale == old(inc)@.stale.push(path),
        old(inc)@.in_flight is None ==> final(inc)@.stale == old(inc)@.stale,
        final(inc)@.receive_text == old(inc)@.receive_text,
        final(inc)@.receive_images == old(inc)@.receive_images,
        final(inc)@.receive_files == old(inc)@.receive_files,
        final(inc)@.file_caps == old(inc)@.file_caps,
{
}

/// A file that was written stays; one that could not be is to be removed; and
/// neither touches what is awaited meanwhile.
pub proof fn law_unwritten_file_is_removed(inc: &mut IncomingClipboard, path: String, wrote: bool)
    ensures
        call_ensures(IncomingClipboard::begin_file, (inc, path), ()) ==> final(inc)@ == (Incoming {
            in_flight: Some(path),
            ..old(inc)@
        }),
        call_ensures(IncomingClipboard::finish_file, (inc, wrote), ()) ==> {
            &&& final(inc)@.in_flight is None
            &&& wrote ==> final(inc)@.stale == old(inc)@.stale
            &&& old(inc)@.in_flight matches Some(path) ==> !wrote ==> final(inc)@.stale == old(inc)@.stale.push(path)
            &&& final(inc)@.reassembly == old(inc)@.reassembly
            &&& final(inc)@.receive_files == old(inc)@.receive_files
        },
{
}

/// What the clipboard took is remembered in the slot of its kind, so that it is
/// not sent back; what it did not take is not.
pub proof fn law_only_what_was_taken_is_remembered(
    state: &mut ClipboardState,
    d: Delivery,
    wrote: bool,
)
    requires
        call_ensures(note_delivery, (state, &d, wrote), ()),
    ensures
        !wrote ==> final(state)@ == old(state)@,
        d matches Delivery::Text { text, hash } ==> wrote ==> {
            &&& final(state)@.texts.len() > 0 && final(state)@.texts[0] == hash
            &&& final(state)@.image == old(state)@.image && final(state)@.file == old(state)@.file
        },
        d matches Delivery::Image { image, hash } ==> wrote ==> {
            &&& final(state)@.image == Some(hash)
            &&& final(state)@.texts == old(state)@.texts && final(state)@.file == old(state)@.file
        },
        d matches Delivery::File { name, content, hash } ==> wrote ==> {
            &&& final(state)@.file == Some(hash)
            &&& final(state)@.texts == old(state)@.texts && final(state)@.image == old(state)@.image
        },
{
    if let Delivery::Text { text, hash } = d {
        assert(remembered(old(state)@.texts, hash)[0] == hash);
    }
}

/// A receiver starts with the user's choices, each in its place, and awaits
/// nothing.
pub proof fn law_receiver_starts_with_the_choices(
    images: bool,
    text: bool,
    files: bool,
    caps: FileCaps,
    inc: IncomingClipboard,
)
    requires
        call_ensures(IncomingClipboard::new, (images, text, files, caps), inc),
    ensures
        inc.receive_images == images && inc.receive_text == text && inc.receive_files == files,
        inc.file_caps == caps,
        inc.expected_len == 0 && inc.incoming_total == 0,
        inc.in_flight_file_path is None && inc.stale_files@.len() == 0,
{
}

/// On a new link nothing is awaited; the user's choices and the files to remove
/// stay.
pub proof fn law_new_link_awaits_nothing(inc: &mut IncomingClipboard)
    requires
        call_ensures(IncomingClipboard::begin_link, (inc,), ()),
    ensures
        final(inc)@.reassembly.expected_len == 0,
        final(inc)@.reassembly.received == Map::<u16, Seq<u8>>::empty(),
        final(inc)@.reassembly.received_total == 0,
        final(inc)@.reassembly.progress == old(inc)@.reassembly.progress,
        final(inc)@.reassembly.total == old(inc)@.reassembly.total,
        final(inc)@.in_flight is None,
        final(inc)@.receive_text == old(inc)@.receive_text,
        final(inc)@.receive_images == old(inc)@.receive_images,
        final(inc)@.receive_files == old(inc)@.receive_files,
        final(inc)@.file_caps == old(inc)@.file_caps,
        final(inc)@.stale == old(inc)@.stale,
{
}

/// Bytes are delivered as the text that they encode, and not where they encode
/// none.
pub proof fn law_text_is_delivered(buf: Vec<u8>, r: Option<Delivery>)
    requires
        call_ensures(commit_text, (buf,), r),
    ensures
        r is Some <==> valid_utf8(buf@),
        r matches Some(d) ==> (d matches Delivery::Text { text, hash } && text@ == decode_utf8(buf@)
            && hash == bytes_hash(buf@)),
{
}

/// Pixels are delivered as they were decoded, and are recognised by themselves.
pub proof fn law_image_is_delivered(
    decoded: Result<RgbaImage, ImageCodecError>,
    r: Option<Delivery>,
    png: &[u8],
    made: Option<Delivery>,
)
    requires
        call_ensures(deliver_image, (decoded,), r),
        call_ensures(commit_image, (png,), made),
    ensures
        decoded is Err ==> r is None,
        decoded matches Ok(img) ==> (r matches Some(Delivery::Image { image, hash }) && image@
            == img@ && hash == bytes_hash(img.bytes@)),
        decoded_picture(png_decoding(png@, DECODE_MAX_ALLOC)) is Ok <==> made is Some,
        made matches Some(d) ==> (d matches Delivery::Image { image, hash } && Ok::<
            Picture,
            ImageCodecError,
        >(image@) == decoded_picture(png_decoding(png@, DECODE_MAX_ALLOC)) && hash == bytes_hash(
            image@.rgba,
        )),
{
}

/// A file is delivered under its name with its content, and is recognised by
/// its content alone.
pub proof fn law_file_is_delivered(buf: &[u8], r: Option<Delivery>)
    requires
        call_ensures(commit_file, (buf,), r),
    ensures
        match unpacked_file(buf@) {
            Ok((name, content)) => r matches Some(Delivery::File { name: n, content: c, hash })
                && n@ == name && c@ == content && hash == bytes_hash(content),
            Err(_) => r is None,
        },
{
}

/// An offer that is too large ends a file that was being written; one that is
/// declined, unknown or awaited leaves it alone.
pub proof fn law_oversize_offer_ends_the_incomplete_file(
    inc: &mut IncomingClipboard,
    format: u8,
    total_len: u32,
    r: Option<Message>,
)
    requires
        call_ensures(IncomingClipboard::on_offer, (inc, format, total_len), r),
    ensures
        ({
            let wanted = format == 0 && old(inc).receive_text || format == 1 && old(inc).receive_images || format == 2 && old(inc).receive_files;
            let fits = format == 0 && total_len <= 256 * 1024 || format == 1 && total_len <= 20
                * 1024 * 1024 || format == 2 && total_len <= old(inc).file_caps.max_file_bytes
                + old(inc).file_caps.max_filename_len + 2;
            &&& wanted && !fits ==> final(inc)@.in_flight is None && (
            old(inc)@.in_flight matches Some(path) ==> final(inc)@.stale == old(inc)@.stale.push(
                path,
            ))
            &&& !(wanted && !fits) ==> final(inc)@.in_flight == old(inc)@.in_flight
                && final(inc)@.stale == old(inc)@.stale
        }),
{
}

} // verus!
