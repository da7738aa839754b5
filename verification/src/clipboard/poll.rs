//! Looking at this machine's clipboard.
//!
//! The clipboard is looked at regularly. Each look (a tick) considers a copied
//! file first, then text, then an image; what is new is queued as an offer and
//! its chunks. The file comes first because a file manager also offers the
//! file's name as text, at some later moment: that text is not to replace the
//! file on the other side.

use vstd::prelude::*;
use vstd::string::*;
use vstd::utf8::*;

use crate::clipboard::outgoing::{
    FileFound, FilePollOutcome, FilePreStampOutcome, emit_offer_and_chunks, transfer,
};
use crate::clipboard::png::{
    ImageCodecError, Picture, RgbaImage, encode_rgba_to_png, png_encoding,
};
use crate::clipboard::{
    ClipboardState, MAX_CLIPBOARD_BYTES, MAX_IMAGE_BYTES, Seen, TextSendDecision, bytes_hash,
    check_image_size, decide_text_send, format_oversize_file_toast, format_oversize_toast,
    hash_bytes, hash_text, oversize_file_notice, oversize_image_notice, text_send_decision,
};
use crate::protocol::{
    FORMAT_FILE, FORMAT_PNG_IMAGE, FORMAT_TEXT_UTF8, Packet, PacketView, packet_views,
};

verus! {

/// Milliseconds between two looks at the clipboard.
pub const CLIP_POLL_INTERVAL_MS: u64 = 200;

/// The side that looks at the clipboard.
#[derive(Debug)]
pub struct ClipboardPoller {
    /// The text found at the last look that was held back.
    pub pending_text_hash: Option<u64>,
    /// Whether text was queued at the last look. A paste on the host waits
    /// while it is.
    pub text_in_flight: bool,
    /// Packets to send.
    pub outgoing: Vec<Packet>,
    /// Notices to show.
    pub toasts: Vec<String>,
}

/// `ClipboardPoller` as a mathematical value.
#[verifier::ext_equal]
pub struct Poller {
    pub pending: Option<u64>,
    pub in_flight: bool,
    pub outgoing: Seq<PacketView>,
    pub toasts: Seq<Seq<char>>,
}

/// The texts of a sequence of strings.
pub open spec fn string_views(s: Seq<String>) -> Seq<Seq<char>> {
    Seq::new(s.len(), |i: int| s[i]@)
}

impl View for ClipboardPoller {
    type V = Poller;

    open spec fn view(&self) -> Poller {
        Poller {
            pending: self.pending_text_hash,
            in_flight: self.text_in_flight,
            outgoing: packet_views(self.outgoing@),
            toasts: string_views(self.toasts@),
        }
    }
}

/// What the user lets go to the host.
#[derive(Debug, Clone, Copy, PartialEq, Eq, Structural)]
pub struct Sends {
    pub files: bool,
    pub text: bool,
    pub images: bool,
}

/// What the clipboard holds at a tick.
#[derive(Debug)]
pub struct Sighting {
    /// The file that was copied since the last tick.
    pub file: Option<FilePollOutcome>,
    pub text: Option<String>,
    pub image: Option<RgbaImage>,
    /// A paste on the host waits for the text.
    pub kicked: bool,
}

/// `Sighting` as a mathematical value. An image comes with what the encoder
/// makes of it.
#[verifier::ext_equal]
pub struct Sight {
    pub file: Option<FileFound>,
    pub text: Option<Seq<char>>,
    pub image: Option<(Picture, Option<Seq<u8>>)>,
    pub kicked: bool,
}

impl View for Sighting {
    type V = Sight;

    open spec fn view(&self) -> Sight {
        Sight {
            file: match self.file {
                Some(f) => Some(f@),
                None => None,
            },
            text: match self.text {
                Some(t) => Some(t@),
                None => None,
            },
            image: match self.image {
                Some(img) => Some(
                    (img@, png_encoding(img.bytes@, img.width as u32, img.height as u32)),
                ),
                None => None,
            },
            kicked: self.kicked,
        }
    }
}

/// Poller, memory and the name of the file being sent, before or after a step.
#[verifier::ext_equal]
pub struct PollState {
    pub poller: Poller,
    pub seen: Seen,
    pub label: Seq<char>,
}

impl PollState {
    pub open spec fn holding(self, pending: Option<u64>) -> PollState {
        PollState { poller: Poller { pending, ..self.poller }, ..self }
    }

    /// A payload joins the queue.
    pub open spec fn sending(self, format: u8, payload: Seq<u8>) -> PollState {
        PollState {
            poller: Poller {
                outgoing: self.poller.outgoing + transfer(format, payload),
                ..self.poller
            },
            ..self
        }
    }

    /// A notice joins those to show.
    pub open spec fn noticing(self, notice: Seq<char>) -> PollState {
        PollState {
            poller: Poller { toasts: self.poller.toasts.push(notice), ..self.poller },
            ..self
        }
    }

    /// The file part of a tick: a file that is new is sent under its name. It
    /// is not remembered here, so that it can be copied again after the host
    /// declined it. A file over the limit is announced once.
    pub open spec fn after_file(self, found: FileFound) -> PollState {
        match found {
            FileFound::Ready { name, hash, packed } => if self.seen.has_file(hash) {
                self
            } else {
                (PollState { label: name, ..self }).sending(FORMAT_FILE, packed)
            },
            FileFound::Oversize { path_hash, size_bytes } => if self.seen.has_file(path_hash) {
                self
            } else {
                (PollState { seen: self.seen.with_oversize_file(path_hash), ..self }).noticing(
                    oversize_file_notice(size_bytes),
                )
            },
            FileFound::Skipped { reason: _ } => self,
        }
    }

    /// The text part of a tick, for text that is there.
    pub open spec fn after_some_text(self, text: Seq<char>, kicked: bool) -> PollState {
        let bytes = encode_utf8(text);
        let hash = bytes_hash(bytes);
        let stamped = PollState { seen: self.seen.with_text(hash), ..self };
        if self.label.len() > 0 && self.label == text {
            stamped.holding(None)
        } else {
            match text_send_decision(hash, self.seen.has_text(hash), self.poller.pending, kicked) {
                TextSendDecision::Skip => self.holding(None),
                TextSendDecision::Hold => self.holding(Some(hash)),
                TextSendDecision::Send => {
                    let settled = stamped.holding(None);
                    if bytes.len() > MAX_CLIPBOARD_BYTES {
                        settled
                    } else {
                        let sent = settled.sending(FORMAT_TEXT_UTF8, bytes);
                        PollState { poller: Poller { in_flight: true, ..sent.poller }, ..sent }
                    }
                },
            }
        }
    }

    /// The text part of a tick. Without text, or where texts are not sent,
    /// nothing is held.
    pub open spec fn after_text(
        self,
        send_text: bool,
        text: Option<Seq<char>>,
        kicked: bool,
    ) -> PollState {
        match text {
            Some(t) => if send_text && t.len() > 0 {
                self.after_some_text(t, kicked)
            } else {
                self.holding(None)
            },
            None => self.holding(None),
        }
    }

    /// The image part of a tick, for an image that was encoded to `png`, or
    /// could not be.
    pub open spec fn after_encoded_image(self, hash: u64, png: Option<Seq<u8>>) -> PollState {
        match png {
            None => self,
            Some(bytes) => if bytes.len() > MAX_IMAGE_BYTES {
                (PollState { seen: self.seen.with_oversize_image(hash), ..self }).noticing(
                    oversize_image_notice(bytes.len()),
                )
            } else {
                (PollState { seen: self.seen.with_image(hash), ..self }).sending(
                    FORMAT_PNG_IMAGE,
                    bytes,
                )
            },
        }
    }

    /// The image part of a tick. What was delivered or refused before is not
    /// even encoded.
    pub open spec fn after_image(self, picture: Picture, png: Option<Seq<u8>>) -> PollState {
        let hash = bytes_hash(picture.rgba);
        if self.seen.has_image(hash) {
            self
        } else {
            self.after_encoded_image(hash, png)
        }
    }

    /// A tick: text queued at the last one is on its way by now, and file, text
    /// and image are considered in this order, as far as the user lets them go.
    pub open spec fn after_tick(self, sends: Sends, sight: Sight) -> PollState {
        let begun = PollState { poller: Poller { in_flight: false, ..self.poller }, ..self };
        let filed = match sight.file {
            Some(f) => if sends.files {
                begun.after_file(f)
            } else {
                begun
            },
            None => begun,
        };
        let texted = filed.after_text(sends.text, sight.text, sight.kicked);
        match sight.image {
            Some((picture, png)) => if sends.images {
                texted.after_image(picture, png)
            } else {
                texted
            },
            None => texted,
        }
    }
}

fn push_toast(toasts: &mut Vec<String>, toast: String)
    ensures
        string_views(final(toasts)@) == string_views(old(toasts)@).push(toast@),
{
    let ghost before = toasts@;
    toasts.push(toast);
    assert(string_views(toasts@) =~= string_views(before).push(toast@));
}

impl ClipboardPoller {
    pub fn new() -> (r: ClipboardPoller)
        ensures
            r@ == (Poller {
                pending: None,
                in_flight: false,
                outgoing: Seq::empty(),
                toasts: Seq::empty(),
            }),
    {
        let r = ClipboardPoller {
            pending_text_hash: None,
            text_in_flight: false,
            outgoing: Vec::new(),
            toasts: Vec::new(),
        };
        assert(packet_views(r.outgoing@) =~= Seq::empty());
        assert(string_views(r.toasts@) =~= Seq::empty());
        r
    }

    /// A look at the clipboard. `limit` is the largest file that is sent.
    pub fn tick(
        &mut self,
        state: &mut ClipboardState,
        label: &mut String,
        sends: Sends,
        limit: usize,
        sighting: Sighting,
    )
        requires
            sighting.image matches Some(img) ==> sends.images && !old(state)@.has_image(
                bytes_hash(img.bytes@),
            ) ==> img.bytes@.len() == (img.width as u32) * (img.height as u32) * 4,
        ensures
            ({
                let before = PollState { poller: old(self)@, seen: old(state)@, label: old(label)@ };
                let after = PollState {
                    poller: final(self)@,
                    seen: final(state)@,
                    label: final(label)@,
                };
                after == before.after_tick(sends, sighting@)
            }),
    {
        self.begin_tick();
        self.file_step(state, label, sends.files, limit, sighting.file);
        self.text_step(state, label, sends.text, sighting.text, sighting.kicked);
        self.image_step(state, sends.images, sighting.image);
    }

    /// Starts a tick: text queued at the last one is on its way by now.
    pub fn begin_tick(&mut self)
        ensures
            final(self)@ == (Poller { in_flight: false, ..old(self)@ }),
    {
        self.text_in_flight = false;
    }

    /// The file part of a tick. `send_files` is off unless the user asked for
    /// it: a file that is merely found is then not sent.
    pub fn file_step(
        &mut self,
        state: &mut ClipboardState,
        label: &mut String,
        send_files: bool,
        limit: usize,
        found: Option<FilePollOutcome>,
    )
        ensures
            ({
                let before = PollState { poller: old(self)@, seen: old(state)@, label: old(label)@ };
                let after = PollState {
                    poller: final(self)@,
                    seen: final(state)@,
                    label: final(label)@,
                };
                after == (match found {
                    Some(f) => if send_files {
                        before.after_file(f@)
                    } else {
                        before
                    },
                    None => before,
                })
            }),
    {
        if !send_files {
            return;
        }
        match found {
            Some(FilePollOutcome::Ready { name, hash, packed }) => {
                if state.get().matches_file_hash(hash) {
                    return;
                }
                *label = name;
                emit_offer_and_chunks(&mut self.outgoing, FORMAT_FILE, packed.as_slice());
            },
            Some(FilePollOutcome::Oversize { path_hash, err }) => {
                if state.get().matches_file_hash(path_hash) {
                    return;
                }
                push_toast(&mut self.toasts, format_oversize_file_toast(&err, limit));
                state.set_oversize_file(path_hash);
            },
            Some(FilePollOutcome::Skipped(_)) => {},
            None => {},
        }
    }

    /// The text part of a tick. `text` is what the clipboard holds, `label` the
    /// name of the file being sent; `kicked` says that a paste is waiting.
    pub fn text_step(
        &mut self,
        state: &mut ClipboardState,
        label: &String,
        send_text: bool,
        text: Option<String>,
        kicked: bool,
    )
        ensures
            ({
                let before = PollState { poller: old(self)@, seen: old(state)@, label: label@ };
                let after = PollState { poller: final(self)@, seen: final(state)@, label: label@ };
                after == before.after_text(
                    send_text,
                    match text {
                        Some(t) => Some(t@),
                        None => None,
                    },
                    kicked,
                )
            }),
    {
        if !send_text {
            self.pending_text_hash = None;
            return;
        }
        let text = match text {
            Some(t) => t,
            None => {
                self.pending_text_hash = None;
                return;
            },
        };
        if text.as_str().is_empty() {
            self.pending_text_hash = None;
            return;
        }
        let hash: u64 = hash_text(text.as_str());
        if !label.as_str().is_empty() && *label == text {
            state.set_text(hash);
            self.pending_text_hash = None;
            return;
        }
        let already_sent = state.get().matches_text_hash(hash);
        match decide_text_send(hash, already_sent, self.pending_text_hash, kicked) {
            TextSendDecision::Skip => {
                self.pending_text_hash = None;
            },
            TextSendDecision::Hold => {
                self.pending_text_hash = Some(hash);
            },
            TextSendDecision::Send => {
                self.pending_text_hash = None;
                state.set_text(hash);
                let bytes = text.as_str().as_bytes();
                if bytes.len() <= MAX_CLIPBOARD_BYTES {
                    self.text_in_flight = true;
                    emit_offer_and_chunks(&mut self.outgoing, FORMAT_TEXT_UTF8, bytes);
                }
            },
        }
    }

    /// The image part of a tick. `image` is what the clipboard holds.
    pub fn image_step(
        &mut self,
        state: &mut ClipboardState,
        send_images: bool,
        image: Option<RgbaImage>,
    )
        requires
            image matches Some(img) ==> send_images && !old(state)@.has_image(
                bytes_hash(img.bytes@),
            ) ==> img.bytes@.len() == (img.width as u32) * (img.height as u32) * 4,
        ensures
            ({
                let before = PollState { poller: old(self)@, seen: old(state)@, label: Seq::empty() };
                let after = PollState {
                    poller: final(self)@,
                    seen: final(state)@,
                    label: Seq::empty(),
                };
                after == (match image {
                    Some(img) => if send_images {
                        before.after_image(
                            img@,
                            png_encoding(img.bytes@, img.width as u32, img.height as u32),
                        )
                    } else {
                        before
                    },
                    None => before,
                })
            }),
    {
        if !send_images {
            return;
        }
        match image {
            Some(img) => {
                let hash: u64 = hash_bytes(img.bytes.as_slice());
                if state.get().matches_image_hash(hash) {
                    return;
                }
                let encoded = encode_rgba_to_png(&img);
                self.encoded_image_step(state, hash, encoded);
            },
            None => {},
        }
    }

    /// Sends an image that was encoded, or says that it is too large.
    pub fn encoded_image_step(
        &mut self,
        state: &mut ClipboardState,
        hash: u64,
        encoded: Result<Vec<u8>, ImageCodecError>,
    )
        ensures
            ({
                let before = PollState { poller: old(self)@, seen: old(state)@, label: Seq::empty() };
                let after = PollState {
                    poller: final(self)@,
                    seen: final(state)@,
                    label: Seq::empty(),
                };
                after == before.after_encoded_image(
                    hash,
                    match encoded {
                        Ok(png) => Some(png@),
                        Err(_) => None,
                    },
                )
            }),
    {
        match encoded {
            Ok(png) => match check_image_size(png.len(), MAX_IMAGE_BYTES) {
                Err(e) => {
                    push_toast(&mut self.toasts, format_oversize_toast(&e));
                    state.set_oversize_image(hash);
                },
                Ok(()) => {
                    state.set_image(hash);
                    emit_offer_and_chunks(&mut self.outgoing, FORMAT_PNG_IMAGE, png.as_slice());
                },
            },
            Err(_) => {},
        }
    }
}

/// What is remembered of what was on the clipboard when the client started:
/// text that is not empty, an image, and a file that could be read. None of it
/// is sent.
pub open spec fn seen_at_start(
    seen: Seen,
    text: Option<Seq<char>>,
    rgba: Option<Seq<u8>>,
    file: Option<u64>,
) -> Seen {
    let s1 = match text {
        Some(t) => if t.len() > 0 {
            seen.with_text(bytes_hash(encode_utf8(t)))
        } else {
            seen
        },
        None => seen,
    };
    let s2 = match rgba {
        Some(bytes) => s1.with_image(bytes_hash(bytes)),
        None => s1,
    };
    match file {
        Some(h) => s2.with_file(h),
        None => s2,
    }
}

/// Remembers what is on the clipboard when the client starts, so that it is
/// not sent.
pub fn pre_stamp(
    state: &mut ClipboardState,
    text: Option<&str>,
    image: Option<&RgbaImage>,
    file: Option<&FilePreStampOutcome>,
)
    ensures
        final(state)@ == seen_at_start(
            old(state)@,
            match text {
                Some(t) => Some(t@),
                None => None,
            },
            match image {
                Some(img) => Some(img.bytes@),
                None => None,
            },
            match file {
                Some(FilePreStampOutcome::Stamped { name: _, hash }) => Some(*hash),
                _ => None,
            },
        ),
{
    match text {
        Some(t) => if !t.is_empty() {
            state.set_text(hash_text(t));
        },
        None => {},
    }
    match image {
        Some(img) => state.set_image(hash_bytes(img.bytes.as_slice())),
        None => {},
    }
    match file {
        Some(FilePreStampOutcome::Stamped { name: _, hash }) => state.set_file(*hash),
        _ => {},
    }
}

} // verus!
