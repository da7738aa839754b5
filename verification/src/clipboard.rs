//! Clipboard synchronisation between this machine and the host.
//!
//! Content is recognised by its hash, one slot per kind, so that what was just
//! received is not sent back and what was just sent is not sent again.

pub mod clip_file;
pub mod incoming;
pub mod laws;
pub mod outgoing;
pub mod png;
pub mod poll;
pub mod transfer_laws;

use std::collections::hash_map::DefaultHasher;
use std::collections::VecDeque;
use std::hash::{Hash, Hasher};

use vstd::prelude::*;
use vstd::std_specs::hash::DefaultHasherAdditionalSpecFns;
use vstd::string::*;

use crate::protocol::{FORMAT_FILE, FORMAT_PNG_IMAGE, FORMAT_TEXT_UTF8, Message, MessageView};
use crate::text::{decimal, push_decimal, stands_at, text_contains};

verus! {

/// Payload bytes per chunk.
pub const CHUNK_SIZE: usize = 1024;

/// The longest text that is synchronised, in bytes.
pub const MAX_CLIPBOARD_BYTES: usize = 262144;

/// The largest encoded image that is synchronised, in bytes.
pub const MAX_IMAGE_BYTES: usize = 20971520;

/// How many recent text hashes are remembered.
pub const TEXT_HISTORY: usize = 4;

/// Hashes of the content seen last, one slot per kind.
#[derive(Debug, Clone)]
pub struct LastSeen {
    /// Hashes of recent texts, the most recent first.
    pub text_history: VecDeque<u64>,
    /// The image last sent or received.
    pub image: Option<u64>,
    /// The image last refused for its size.
    pub oversize_image: Option<u64>,
    /// The file content last received.
    pub file: Option<u64>,
    /// The file last refused for its size.
    pub oversize_file: Option<u64>,
}

/// `LastSeen` as a mathematical value.
#[verifier::ext_equal]
pub struct Seen {
    pub texts: Seq<u64>,
    pub image: Option<u64>,
    pub oversize_image: Option<u64>,
    pub file: Option<u64>,
    pub oversize_file: Option<u64>,
}

impl View for LastSeen {
    type V = Seen;

    open spec fn view(&self) -> Seen {
        Seen {
            texts: self.text_history@,
            image: self.image,
            oversize_image: self.oversize_image,
            file: self.file,
            oversize_file: self.oversize_file,
        }
    }
}

/// `s` without the first occurrence of `h`.
pub open spec fn without_first(s: Seq<u64>, h: u64) -> Seq<u64>
    decreases s.len(),
{
    if s.len() == 0 {
        s
    } else if s[0] == h {
        s.drop_first()
    } else {
        seq![s[0]] + without_first(s.drop_first(), h)
    }
}

/// The first `n` elements, or all where there are fewer.
pub open spec fn capped(s: Seq<u64>, n: nat) -> Seq<u64> {
    if s.len() > n {
        s.take(n as int)
    } else {
        s
    }
}

/// The text history after `h` was seen: `h` moves to the front, and only the
/// most recent entries stay.
pub open spec fn remembered(s: Seq<u64>, h: u64) -> Seq<u64> {
    if s.len() > 0 && s[0] == h {
        s
    } else {
        capped(seq![h] + without_first(s, h), TEXT_HISTORY as nat)
    }
}

impl Seen {
    /// Nothing seen yet.
    pub open spec fn nothing() -> Seen {
        Seen {
            texts: Seq::empty(),
            image: None,
            oversize_image: None,
            file: None,
            oversize_file: None,
        }
    }

    pub open spec fn with_text(self, h: u64) -> Seen {
        Seen { texts: remembered(self.texts, h), ..self }
    }

    pub open spec fn with_image(self, h: u64) -> Seen {
        Seen {
            image: Some(h),
            oversize_image: if self.oversize_image == Some(h) {
                None
            } else {
                self.oversize_image
            },
            ..self
        }
    }

    pub open spec fn with_oversize_image(self, h: u64) -> Seen {
        Seen { oversize_image: Some(h), ..self }
    }

    pub open spec fn with_file(self, h: u64) -> Seen {
        Seen {
            file: Some(h),
            oversize_file: if self.oversize_file == Some(h) {
                None
            } else {
                self.oversize_file
            },
            ..self
        }
    }

    pub open spec fn with_oversize_file(self, h: u64) -> Seen {
        Seen { oversize_file: Some(h), ..self }
    }

    pub open spec fn has_text(self, h: u64) -> bool {
        self.texts.contains(h)
    }

    pub open spec fn has_image(self, h: u64) -> bool {
        self.image == Some(h) || self.oversize_image == Some(h)
    }

    pub open spec fn has_file(self, h: u64) -> bool {
        self.file == Some(h) || self.oversize_file == Some(h)
    }

    /// What every operation keeps: the text history is short and repeats
    /// nothing.
    pub open spec fn tidy(self) -> bool {
        &&& self.texts.len() <= TEXT_HISTORY
        &&& self.texts.no_duplicates()
    }
}

/// One stamp for any slot of [`ClipboardState`].
#[derive(Debug, Clone, Copy)]
pub enum LastKind {
    Nothing,
    Text(u64),
    Image(u64),
    OversizeImage(u64),
    File(u64),
    OversizeFile(u64),
}

impl Seen {
    /// The memory after one more thing; after `LastKind::Nothing` it is empty.
    pub open spec fn after(self, kind: LastKind) -> Seen {
        match kind {
            LastKind::Nothing => Seen::nothing(),
            LastKind::Text(h) => self.with_text(h),
            LastKind::Image(h) => self.with_image(h),
            LastKind::OversizeImage(h) => self.with_oversize_image(h),
            LastKind::File(h) => self.with_file(h),
            LastKind::OversizeFile(h) => self.with_oversize_file(h),
        }
    }
}

/// Whether an optional hash is `h`.
fn is_hash(slot: &Option<u64>, h: u64) -> (r: bool)
    ensures
        r == (*slot == Some(h)),
{
    match slot {
        Some(x) => *x == h,
        None => false,
    }
}

impl LastSeen {
    /// Nothing seen yet.
    pub fn new() -> (r: LastSeen)
        ensures
            r@ == Seen::nothing(),
    {
        LastSeen {
            text_history: VecDeque::new(),
            image: None,
            oversize_image: None,
            file: None,
            oversize_file: None,
        }
    }

    /// True of the image last sent or received and of the one last refused.
    pub fn matches_image_hash(&self, hash: u64) -> (r: bool)
        ensures
            r == self@.has_image(hash),
    {
        is_hash(&self.image, hash) || is_hash(&self.oversize_image, hash)
    }

    /// True of every text in the history.
    pub fn matches_text_hash(&self, hash: u64) -> (r: bool)
        ensures
            r == self@.has_text(hash),
    {
        position(&self.text_history, hash).is_some()
    }

    /// True of the file last received and of the one last refused.
    pub fn matches_file_hash(&self, hash: u64) -> (r: bool)
        ensures
            r == self@.has_file(hash),
    {
        is_hash(&self.file, hash) || is_hash(&self.oversize_file, hash)
    }
}

proof fn lemma_without_first(s: Seq<u64>, h: u64, i: int)
    requires
        0 <= i < s.len(),
        s[i] == h,
        forall|j: int| 0 <= j < i ==> s[j] != h,
    ensures
        without_first(s, h) == s.remove(i),
    decreases i,
{
    if i == 0 {
        assert(s.remove(0) =~= s.drop_first());
    } else {
        let t = s.drop_first();
        assert(t[i - 1] == h);
        lemma_without_first(t, h, i - 1);
        assert(seq![s[0]] + t.remove(i - 1) =~= s.remove(i));
    }
}

proof fn lemma_without_absent(s: Seq<u64>, h: u64)
    requires
        !s.contains(h),
    ensures
        without_first(s, h) == s,
    decreases s.len(),
{
    if s.len() > 0 {
        let t = s.drop_first();
        assert(s[0] != h);
        assert forall|j: int| 0 <= j < t.len() implies t[j] != h by {
            assert(t[j] == s[j + 1]);
        }
        lemma_without_absent(t, h);
        assert(seq![s[0]] + t =~= s);
    }
}

/// Where `hash` first stands in the history.
fn position(history: &VecDeque<u64>, hash: u64) -> (r: Option<usize>)
    ensures
        match r {
            Some(i) => i < history@.len() && history@[i as int] == hash && forall|j: int|
                0 <= j < i ==> history@[j] != hash,
            None => !history@.contains(hash),
        },
{
    let n: usize = history.len();
    let mut i: usize = 0;
    while i < n
        invariant
            n == history@.len(),
            i <= n,
            forall|j: int| 0 <= j < i ==> history@[j] != hash,
        decreases n - i,
    {
        if history[i] == hash {
            return Some(i);
        }
        i = i + 1;
    }
    None
}

/// What was seen last, of every kind. There is one of it for the side that
/// sends and the side that receives: a copy would forget apart from it.
#[derive(Debug)]
pub struct ClipboardState {
    pub last: LastSeen,
}

impl View for ClipboardState {
    type V = Seen;

    open spec fn view(&self) -> Seen {
        self.last@
    }
}

impl ClipboardState {
    pub fn new() -> (r: ClipboardState)
        ensures
            r@ == Seen::nothing(),
    {
        ClipboardState { last: LastSeen::new() }
    }

    /// The hashes seen last.
    pub fn get(&self) -> (r: &LastSeen)
        ensures
            r@ == self@,
    {
        &self.last
    }

    /// Remembers a text, as the most recent one.
    pub fn set_text(&mut self, hash: u64)
        ensures
            final(self)@ == old(self)@.with_text(hash),
    {
        let ghost before = self.last.text_history@;
        if self.last.text_history.len() > 0 && self.last.text_history[0] == hash {
            return;
        }
        match position(&self.last.text_history, hash) {
            Some(pos) => {
                proof {
                    lemma_without_first(before, hash, pos as int);
                }
                let _ = self.last.text_history.remove(pos);
            },
            None => {
                proof {
                    lemma_without_absent(before, hash);
                }
            },
        }
        self.last.text_history.push_front(hash);
        assert(self.last.text_history@ =~= seq![hash] + without_first(before, hash));
        self.last.text_history.truncate(TEXT_HISTORY);
        assert(self@.texts =~= remembered(before, hash));
    }

    /// Remembers an image as delivered. It no longer counts as refused.
    pub fn set_image(&mut self, hash: u64)
        ensures
            final(self)@ == old(self)@.with_image(hash),
    {
        self.last.image = Some(hash);
        if is_hash(&self.last.oversize_image, hash) {
            self.last.oversize_image = None;
        }
    }

    /// Remembers an image as refused for its size.
    pub fn set_oversize_image(&mut self, hash: u64)
        ensures
            final(self)@ == old(self)@.with_oversize_image(hash),
    {
        self.last.oversize_image = Some(hash);
    }

    /// Remembers a file as delivered. It no longer counts as refused.
    pub fn set_file(&mut self, hash: u64)
        ensures
            final(self)@ == old(self)@.with_file(hash),
    {
        self.last.file = Some(hash);
        if is_hash(&self.last.oversize_file, hash) {
            self.last.oversize_file = None;
        }
    }

    /// Remembers a file as refused for its size.
    pub fn set_oversize_file(&mut self, hash: u64)
        ensures
            final(self)@ == old(self)@.with_oversize_file(hash),
    {
        self.last.oversize_file = Some(hash);
    }

    /// Sets the slot that `kind` names; `LastKind::Nothing` forgets everything.
    pub fn set(&mut self, kind: LastKind)
        ensures
            final(self)@ == old(self)@.after(kind),
    {
        match kind {
            LastKind::Nothing => self.reset(),
            LastKind::Text(h) => self.set_text(h),
            LastKind::Image(h) => self.set_image(h),
            LastKind::OversizeImage(h) => self.set_oversize_image(h),
            LastKind::File(h) => self.set_file(h),
            LastKind::OversizeFile(h) => self.set_oversize_file(h),
        }
    }

    /// Forgets everything, so that the current content is sent again.
    pub fn reset(&mut self)
        ensures
            final(self)@ == Seen::nothing(),
    {
        self.last = LastSeen::new();
    }
}

/// What `<[u8] as Hash>::hash` feeds to a hasher: the length as a machine
/// word of `word_bits` bits, then the bytes.
pub uninterp spec fn slice_hash_input(bytes: Seq<u8>, word_bits: u32) -> Seq<Seq<u8>>;

/// `<[u8] as Hash>::hash` on a `DefaultHasher`. Claimed: what it writes depends
/// on the bytes and on the width of a machine word alone. (The word is written
/// in the machine's byte order; the client's machines are little-endian.)
#[verifier::external_body]
fn feed_slice(bytes: &[u8], hasher: &mut DefaultHasher)
    ensures
        final(hasher)@ == old(hasher)@ + slice_hash_input(bytes@, usize::BITS),
{
    bytes.hash(hasher)
}

/// The hash by which a sequence of bytes is recognised.
pub open spec fn bytes_hash(bytes: Seq<u8>) -> u64 {
    DefaultHasher::spec_finish(slice_hash_input(bytes, usize::BITS))
}

/// Hash over arbitrary bytes. Equal bytes have equal hashes.
pub fn hash_bytes(bytes: &[u8]) -> (r: u64)
    ensures
        r == bytes_hash(bytes@),
{
    let mut h = DefaultHasher::new();
    feed_slice(bytes, &mut h);
    assert(h@ =~= slice_hash_input(bytes@, usize::BITS));
    h.finish()
}

/// Hash of a text: that of its UTF-8 bytes.
pub fn hash_text(s: &str) -> (r: u64)
    ensures
        r == bytes_hash(s.spec_bytes()),
{
    hash_bytes(s.as_bytes())
}

/// An encoded image over the limit, with its length.
#[derive(Debug, Clone, Copy, PartialEq, Eq, Structural)]
pub struct ImageTooLarge {
    pub png_len: usize,
}

/// Refuses an encoded image longer than `limit`.
pub fn check_image_size(png_len: usize, limit: usize) -> (r: Result<(), ImageTooLarge>)
    ensures
        r == (if png_len > limit {
            Err(ImageTooLarge { png_len })
        } else {
            Ok(())
        }),
{
    if png_len > limit {
        Err(ImageTooLarge { png_len })
    } else {
        Ok(())
    }
}

/// The notice shown when an image was not sent for its size.
pub open spec fn oversize_image_notice(png_len: nat) -> Seq<char> {
    "image too large ("@ + decimal(png_len / 1024) + " KB), copy a smaller selection"@
}

/// The notice shown when an image was not sent for its size.
pub fn format_oversize_toast(e: &ImageTooLarge) -> (r: String)
    ensures
        r@ == oversize_image_notice(e.png_len as nat),
{
    let mut s = "image too large (".to_owned();
    push_decimal(&mut s, (e.png_len / 1024) as u64);
    s.append(" KB), copy a smaller selection");
    s
}

/// A file over the limit, with its size.
#[derive(Debug, Clone, Copy, PartialEq, Eq, Structural)]
pub struct FileTooLarge {
    pub size_bytes: usize,
}

/// Refuses a file larger than `limit`.
pub fn check_file_size(size_bytes: usize, limit: usize) -> (r: Result<(), FileTooLarge>)
    ensures
        r == (if size_bytes > limit {
            Err(FileTooLarge { size_bytes })
        } else {
            Ok(())
        }),
{
    if size_bytes > limit {
        Err(FileTooLarge { size_bytes })
    } else {
        Ok(())
    }
}

/// The notice shown when a file was not sent for its size.
pub open spec fn oversize_file_notice(size_bytes: nat) -> Seq<char> {
    "file too large ("@ + decimal(size_bytes / 1024) + " KB), copy a smaller file"@
}

/// The notice shown when a file was not sent for its size. The wording does
/// not name the limit.
pub fn format_oversize_file_toast(e: &FileTooLarge, _limit: usize) -> (r: String)
    ensures
        r@ == oversize_file_notice(e.size_bytes as nat),
{
    let mut s = "file too large (".to_owned();
    push_decimal(&mut s, (e.size_bytes / 1024) as u64);
    s.append(" KB), copy a smaller file");
    s
}

/// The notice shown when the host declined what was offered.
pub open spec fn decline_notice(format: u8) -> Seq<char> {
    if format == FORMAT_FILE {
        "Peer declined file (Receive files off)"@
    } else {
        "Host declined the clipboard transfer"@
    }
}

/// The notice shown when the host declined an offer of this format.
pub fn send_decline_toast(format: u8) -> (r: String)
    ensures
        r@ == decline_notice(format),
{
    if format == FORMAT_FILE {
        "Peer declined file (Receive files off)".to_owned()
    } else {
        "Host declined the clipboard transfer".to_owned()
    }
}

/// The host declined an offer: what is still queued of it is to be dropped.
/// Returns the notice to show.
pub fn apply_clip_decline(format: u8, outgoing_cancel: &mut bool) -> (r: String)
    ensures
        *final(outgoing_cancel),
        r@ == decline_notice(format),
{
    *outgoing_cancel = true;
    send_decline_toast(format)
}

/// As [`apply_clip_decline`]; the name of the file being sent, if any, is
/// cleared too.
pub fn apply_clip_decline_with_label(
    format: u8,
    outgoing_cancel: &mut bool,
    current_outgoing_label: &mut String,
) -> (r: String)
    ensures
        *final(outgoing_cancel),
        final(current_outgoing_label)@.len() == 0,
        r@ == decline_notice(format),
{
    let toast = apply_clip_decline(format, outgoing_cancel);
    *current_outgoing_label = String::new();
    toast
}

/// A format's name in the log.
pub fn format_label(format: u8) -> (r: &'static str)
    ensures
        r@ == (if format == FORMAT_TEXT_UTF8 {
            "TEXT"@
        } else if format == FORMAT_PNG_IMAGE {
            "IMAGE"@
        } else if format == FORMAT_FILE {
            "FILE"@
        } else {
            "UNKNOWN"@
        }),
{
    if format == FORMAT_TEXT_UTF8 {
        "TEXT"
    } else if format == FORMAT_PNG_IMAGE {
        "IMAGE"
    } else if format == FORMAT_FILE {
        "FILE"
    } else {
        "UNKNOWN"
    }
}

/// How far the outgoing transfer has come: bytes sent, bytes in all, the format
/// that was offered last, and the name of the file that is being sent or is
/// queued. No transfer is under way where `total` is zero.
#[verifier::ext_equal]
pub struct Outgoing {
    pub progress: u64,
    pub total: u64,
    pub format: u8,
    pub label: Seq<char>,
}

impl Outgoing {
    /// The state after `msg` went out on the wire. An offer starts a transfer,
    /// a chunk advances it, and the chunk that completes it ends it. The name
    /// of a file is kept until its own transfer ends: text and images leave it
    /// alone.
    pub open spec fn after(self, msg: MessageView) -> Outgoing {
        match msg {
            MessageView::ClipOffer { format, total_len } => Outgoing {
                progress: 0,
                total: total_len as u64,
                format,
                label: self.label,
            },
            MessageView::ClipChunk { index: _, data } => {
                let progress = self.progress.wrapping_add(data.len() as u64);
                if self.total > 0 && progress >= self.total {
                    Outgoing {
                        progress: 0,
                        total: 0,
                        label: if self.format == FORMAT_FILE {
                            Seq::empty()
                        } else {
                            self.label
                        },
                        ..self
                    }
                } else {
                    Outgoing { progress, ..self }
                }
            },
            _ => self,
        }
    }
}

/// Accounts for a message that was written to the wire.
pub fn apply_outgoing_progress(msg: &Message, outgoing_progress: &mut u64, outgoing_total: &mut u64)
    ensures
        ({
            let before = Outgoing {
                progress: *old(outgoing_progress),
                total: *old(outgoing_total),
                format: FORMAT_TEXT_UTF8,
                label: Seq::empty(),
            };
            let after = before.after(msg@);
            *final(outgoing_progress) == after.progress && *final(outgoing_total) == after.total
        }),
{
    let mut format: u8 = FORMAT_TEXT_UTF8;
    let mut label = String::new();
    apply_outgoing_progress_with_label(
        msg,
        outgoing_progress,
        outgoing_total,
        &mut format,
        &mut label,
    );
}

/// As [`apply_outgoing_progress`]; the name of the file being sent is cleared
/// when its transfer is complete. A text or an image leaves the name untouched,
/// which is why the format that was offered last is kept beside the counters.
pub fn apply_outgoing_progress_with_label(
    msg: &Message,
    outgoing_progress: &mut u64,
    outgoing_total: &mut u64,
    outgoing_format: &mut u8,
    current_outgoing_label: &mut String,
)
    ensures
        ({
            let before = Outgoing {
                progress: *old(outgoing_progress),
                total: *old(outgoing_total),
                format: *old(outgoing_format),
                label: old(current_outgoing_label)@,
            };
            let after = Outgoing {
                progress: *final(outgoing_progress),
                total: *final(outgoing_total),
                format: *final(outgoing_format),
                label: final(current_outgoing_label)@,
            };
            after == before.after(msg@)
        }),
{
    match msg {
        Message::ClipOffer { format, total_len } => {
            *outgoing_format = *format;
            *outgoing_total = *total_len as u64;
            *outgoing_progress = 0;
        },
        Message::ClipChunk { index: _, data } => {
            let progress: u64 = (*outgoing_progress).wrapping_add(data.len() as u64);
            if *outgoing_total > 0 && progress >= *outgoing_total {
                *outgoing_total = 0;
                *outgoing_progress = 0;
                if *outgoing_format == FORMAT_FILE {
                    *current_outgoing_label = String::new();
                }
            } else {
                *outgoing_progress = progress;
            }
        },
        _ => {},
    }
}

/// What to do with the text found on the clipboard.
#[derive(Debug, Clone, Copy, PartialEq, Eq, Structural)]
pub enum TextSendDecision {
    /// Send it now.
    Send,
    /// It is new and may still change: look again at the next poll.
    Hold,
    /// It was sent or received before.
    Skip,
}

/// Decides over the text found on the clipboard. A text is sent once it was
/// found twice in a row, or at once where a paste is waiting for it (`kicked`).
pub open spec fn text_send_decision(
    hash: u64,
    already_sent: bool,
    pending: Option<u64>,
    kicked: bool,
) -> TextSendDecision {
    if already_sent {
        TextSendDecision::Skip
    } else if kicked || pending == Some(hash) {
        TextSendDecision::Send
    } else {
        TextSendDecision::Hold
    }
}

/// Decides over the text found on the clipboard; `pending` is the hash held
/// since the poll before.
pub fn decide_text_send(
    hash: u64,
    already_sent: bool,
    pending: Option<u64>,
    kicked: bool,
) -> (r: TextSendDecision)
    ensures
        r == text_send_decision(hash, already_sent, pending, kicked),
{
    if already_sent {
        TextSendDecision::Skip
    } else if kicked || is_hash(&pending, hash) {
        TextSendDecision::Send
    } else {
        TextSendDecision::Hold
    }
}

/// What is remembered of one kind is recognised by its hash alone: the image and
/// the file that came or went last and the one that was last too large, and each
/// text of the history. Nothing else is.
pub proof fn law_recognition_is_by_hash(
    seen: LastSeen,
    h: u64,
    image: bool,
    file: bool,
    text: bool,
)
    requires
        call_ensures(LastSeen::matches_image_hash, (&seen, h), image),
        call_ensures(LastSeen::matches_file_hash, (&seen, h), file),
        call_ensures(LastSeen::matches_text_hash, (&seen, h), text),
    ensures
        image <==> seen.image == Some(h) || seen.oversize_image == Some(h),
        file <==> seen.file == Some(h) || seen.oversize_file == Some(h),
        text <==> exists|i: int| 0 <= i < seen.text_history@.len() && seen.text_history@[i] == h,
        image == seen@.has_image(h) && file == seen@.has_file(h) && text == seen@.has_text(h),
{
}

/// Remembering one thing replaces what was remembered of that kind and leaves
/// the other kinds alone; a delivered image or file is no longer one that was
/// too large, whatever it replaces.
pub proof fn law_remembering_replaces_one_kind(state: &mut ClipboardState, h: u64)
    ensures
        call_ensures(ClipboardState::set_image, (state, h), ()) ==> {
            &&& final(state)@.image == Some(h)
            &&& final(state)@.oversize_image == (if old(state)@.oversize_image == Some(h) {
                None
            } else {
                old(state)@.oversize_image
            })
            &&& final(state)@.texts == old(state)@.texts
            &&& final(state)@.file == old(state)@.file
            &&& final(state)@.oversize_file == old(state)@.oversize_file
        },
        call_ensures(ClipboardState::set_oversize_image, (state, h), ()) ==> {
            &&& final(state)@.oversize_image == Some(h)
            &&& final(state)@.image == old(state)@.image
            &&& final(state)@.texts == old(state)@.texts
            &&& final(state)@.file == old(state)@.file
            &&& final(state)@.oversize_file == old(state)@.oversize_file
        },
        call_ensures(ClipboardState::set_file, (state, h), ()) ==> {
            &&& final(state)@.file == Some(h)
            &&& final(state)@.oversize_file == (if old(state)@.oversize_file == Some(h) {
                None
            } else {
                old(state)@.oversize_file
            })
            &&& final(state)@.texts == old(state)@.texts
            &&& final(state)@.image == old(state)@.image
            &&& final(state)@.oversize_image == old(state)@.oversize_image
        },
        call_ensures(ClipboardState::set_oversize_file, (state, h), ()) ==> {
            &&& final(state)@.oversize_file == Some(h)
            &&& final(state)@.file == old(state)@.file
            &&& final(state)@.texts == old(state)@.texts
            &&& final(state)@.image == old(state)@.image
            &&& final(state)@.oversize_image == old(state)@.oversize_image
        },
        call_ensures(ClipboardState::set_text, (state, h), ()) ==> {
            &&& final(state)@.texts.len() > 0 && final(state)@.texts[0] == h
            &&& final(state)@.image == old(state)@.image
            &&& final(state)@.oversize_image == old(state)@.oversize_image
            &&& final(state)@.file == old(state)@.file
            &&& final(state)@.oversize_file == old(state)@.oversize_file
        },
{
    assert(remembered(old(state)@.texts, h)[0] == h);
}

/// A stamp goes to the slot that it names, and the empty one forgets everything.
pub proof fn law_stamp_goes_to_its_slot(state: &mut ClipboardState, kind: LastKind)
    requires
        call_ensures(ClipboardState::set, (state, kind), ()),
    ensures
        kind matches LastKind::Text(h) ==> final(state)@ == old(state)@.with_text(h),
        kind matches LastKind::Image(h) ==> final(state)@ == old(state)@.with_image(h),
        kind matches LastKind::OversizeImage(h) ==> final(state)@ == old(state)@.with_oversize_image(h),
        kind matches LastKind::File(h) ==> final(state)@ == old(state)@.with_file(h),
        kind matches LastKind::OversizeFile(h) ==> final(state)@ == old(state)@.with_oversize_file(
            h,
        ),
        kind is Nothing ==> {
            &&& final(state)@.texts.len() == 0
            &&& final(state)@.image is None && final(state)@.oversize_image is None
            &&& final(state)@.file is None && final(state)@.oversize_file is None
        },
{
}

/// A text is sent where it is new and either a paste waits for it or it was
/// there a look ago; where it is new otherwise it is held, and where it is not
/// it is skipped.
pub proof fn law_new_text_is_held_once(
    hash: u64,
    known: bool,
    pending: Option<u64>,
    kicked: bool,
    r: TextSendDecision,
)
    requires
        call_ensures(decide_text_send, (hash, known, pending, kicked), r),
    ensures
        known <==> r == TextSendDecision::Skip,
        !known && kicked ==> r == TextSendDecision::Send,
        !known && pending == Some(hash) ==> r == TextSendDecision::Send,
        !known && !kicked && pending != Some(hash) ==> r == TextSendDecision::Hold,
{
}

/// An image or a file is refused for its size exactly where it is larger than
/// the limit, and the refusal names its size.
pub proof fn law_only_what_is_too_large_is_refused(
    size: usize,
    limit: usize,
    image: Result<(), ImageTooLarge>,
    file: Result<(), FileTooLarge>,
)
    requires
        call_ensures(check_image_size, (size, limit), image),
        call_ensures(check_file_size, (size, limit), file),
    ensures
        image is Ok <==> size <= limit,
        file is Ok <==> size <= limit,
        image matches Err(e) ==> e.png_len == size,
        file matches Err(e) ==> e.size_bytes == size,
{
}

/// The notice of a refusal names the size in kilobytes.
pub proof fn law_refusal_names_the_size(
    image: ImageTooLarge,
    file: FileTooLarge,
    limit: usize,
    of_image: String,
    of_file: String,
)
    requires
        call_ensures(format_oversize_toast, (&image,), of_image),
        call_ensures(format_oversize_file_toast, (&file, limit), of_file),
    ensures
        text_contains(of_image@, decimal((image.png_len / 1024) as nat)),
        text_contains(of_file@, decimal((file.size_bytes / 1024) as nat)),
        of_image@ == oversize_image_notice(image.png_len as nat),
        of_file@ == oversize_file_notice(file.size_bytes as nat),
{
    let a = "image too large ("@;
    let n = decimal((image.png_len / 1024) as nat);
    assert(of_image@.subrange(a.len() as int, (a.len() + n.len()) as int) =~= n);
    assert(stands_at(of_image@, n, a.len() as int));
    let b = "file too large ("@;
    let m = decimal((file.size_bytes / 1024) as nat);
    assert(of_file@.subrange(b.len() as int, (b.len() + m.len()) as int) =~= m);
    assert(stands_at(of_file@, m, b.len() as int));
}

/// A declined offer is one to cancel, and its file's name is cleared.
pub proof fn law_declined_offer_is_cancelled(
    format: u8,
    cancel: &mut bool,
    label: &mut String,
    r: String,
)
    requires
        call_ensures(apply_clip_decline_with_label, (format, cancel, label), r),
    ensures
        *final(cancel),
        final(label)@.len() == 0,
        format == FORMAT_FILE ==> r@ == "Peer declined file (Receive files off)"@,
        format != FORMAT_FILE ==> r@ == "Host declined the clipboard transfer"@,
{
}

/// What is not payload does not move the counters of what goes out.
pub proof fn law_only_payload_moves_the_counters(o: Outgoing, message: MessageView)
    ensures
        !(message is ClipOffer || message is ClipChunk) ==> o.after(message) == o,
        o.after(message).label == o.label || o.after(message).label.len() == 0 && o.format == 2
            && message is ClipChunk,
{
}

/// The limits that client and host agree on.
pub proof fn law_sizes_of_the_clipboard()
    ensures
        CHUNK_SIZE == 1024,
        MAX_CLIPBOARD_BYTES == 256 * 1024,
        MAX_IMAGE_BYTES == 20 * 1024 * 1024,
        TEXT_HISTORY == 4,
        FORMAT_TEXT_UTF8 == 0 && FORMAT_PNG_IMAGE == 1 && FORMAT_FILE == 2,
{
}

/// Content is recognised by its bytes: a text has the hash of its UTF-8 bytes,
/// and equal bytes have equal hashes.
pub proof fn law_equal_content_has_equal_hashes(
    a: &[u8],
    b: &[u8],
    text: &str,
    of_a: u64,
    of_b: u64,
    of_text: u64,
)
    requires
        call_ensures(hash_bytes, (a,), of_a),
        call_ensures(hash_bytes, (b,), of_b),
        call_ensures(hash_text, (text,), of_text),
    ensures
        a@ == b@ ==> of_a == of_b,
        a@ == text.spec_bytes() ==> of_a == of_text,
        of_a == bytes_hash(a@),
{
}

/// The counters follow what goes out in the same way whether the file's name is
/// kept beside them or not.
pub proof fn law_counters_do_not_depend_on_the_name(
    message: Message,
    p: &mut u64,
    t: &mut u64,
    p2: &mut u64,
    t2: &mut u64,
    format: &mut u8,
    label: &mut String,
)
    requires
        call_ensures(apply_outgoing_progress, (&message, p, t), ()),
        call_ensures(
            apply_outgoing_progress_with_label,
            (&message, p2, t2, format, label),
            (),
        ),
        *old(p) == *old(p2),
        *old(t) == *old(t2),
    ensures
        *final(p) == *final(p2) && *final(t) == *final(t2),
        message@ matches MessageView::ClipOffer { format: f, total_len } ==> *final(t) == total_len
            && *final(p) == 0 && *final(format) == f && final(label)@ == old(label)@,
        message@ matches MessageView::ClipChunk { index, data } ==> *old(p) + data.len() < *old(t)
            ==> *final(p) == *old(p) + data.len() && *final(t) == *old(t) && final(label)@ == old(label)@,
        message@ matches MessageView::ClipChunk { index, data } ==> *old(t) > 0 && *old(t) <= *old(p) + data.len() <= u64::MAX ==> *final(p) == 0 && *final(t) == 0 && (*old(format) != 2
            ==> final(label)@ == old(label)@) && (*old(format) == 2 ==> final(label)@.len() == 0),
{
}

/// The log tells the known formats apart.
pub proof fn law_formats_have_names(format: u8, name: &'static str)
    requires
        call_ensures(format_label, (format,), name),
    ensures
        format == 0 ==> name@ == "TEXT"@,
        format == 1 ==> name@ == "IMAGE"@,
        format == 2 ==> name@ == "FILE"@,
        format > 2 ==> name@ == "UNKNOWN"@,
{
}

/// A memory starts empty, and is empty again after a reset.
pub proof fn law_memory_starts_empty(fresh: ClipboardState, state: &mut ClipboardState)
    ensures
        call_ensures(ClipboardState::new, (), fresh) ==> fresh@.texts.len() == 0 && fresh@.image
            is None && fresh@.oversize_image is None && fresh@.file is None && fresh@.oversize_file
            is None,
        call_ensures(ClipboardState::reset, (state,), ()) ==> final(state)@.texts.len() == 0
            && final(state)@.image is None && final(state)@.oversize_image is None && final(state)@.file is None && final(state)@.oversize_file is None,
{
}

/// A declined offer is one to cancel, and the user is told of a file that it was
/// one.
pub proof fn law_decline_is_told(format: u8, cancel: &mut bool, r: String, told: String)
    requires
        call_ensures(apply_clip_decline, (format, cancel), r),
        call_ensures(send_decline_toast, (format,), told),
    ensures
        *final(cancel),
        r@ == told@,
        format == 2 ==> told@ == "Peer declined file (Receive files off)"@,
        format != 2 ==> told@ == "Host declined the clipboard transfer"@,
{
}

} // verus!
