//! What holds of clipboard synchronisation as a whole.

use vstd::prelude::*;
use vstd::string::*;
use vstd::utf8::*;

use crate::clipboard::incoming::{DeliveryView, delivery, seen_after_delivery};
use crate::clipboard::outgoing::{FileFound, FilePollOutcome, FilePreStampOutcome, transfer};
use crate::clipboard::png::{ImageCodecError, Picture, RgbaImage, png_encoding};
use crate::clipboard::poll::{ClipboardPoller, PollState, Sends, Sight, Sighting, pre_stamp};
use crate::clipboard::{
    ClipboardState, LastKind, MAX_CLIPBOARD_BYTES, MAX_IMAGE_BYTES, Seen, TEXT_HISTORY, bytes_hash,
    capped, oversize_file_notice, oversize_image_notice, remembered, without_first,
};
use crate::protocol::{FORMAT_FILE, FORMAT_TEXT_UTF8, PacketView};

verus! {

// ---- what is remembered ----

proof fn lemma_without_first_members(s: Seq<u64>, h: u64)
    requires
        s.no_duplicates(),
    ensures
        without_first(s, h).no_duplicates(),
        !without_first(s, h).contains(h),
        without_first(s, h).len() == s.len() - (if s.contains(h) {
            1int
        } else {
            0
        }),
        forall|x: u64|
            x != h ==> (#[trigger] without_first(s, h).contains(x) <==> s.contains(x)),
    decreases s.len(),
{
    if s.len() > 0 {
        let t = s.drop_first();
        assert(t.no_duplicates());
        assert(s =~= seq![s[0]] + t);
        assert(!t.contains(s[0])) by {
            if t.contains(s[0]) {
                let j = choose|j: int| 0 <= j < t.len() && t[j] == s[0];
                assert(s[j + 1] == s[0]);
            }
        }
        assert forall|x: u64| #[trigger] s.contains(x) <==> x == s[0] || t.contains(x) by {
            if s.contains(x) && x != s[0] {
                let j = choose|j: int| 0 <= j < s.len() && s[j] == x;
                assert(t[j - 1] == x);
            }
            if t.contains(x) {
                let j = choose|j: int| 0 <= j < t.len() && t[j] == x;
                assert(s[j + 1] == x);
            }
            assert(s.contains(s[0])) by {
                assert(s[0] == s[0]);
            }
        }
        if s[0] != h {
            lemma_without_first_members(t, h);
            let r = without_first(t, h);
            let w = seq![s[0]] + r;
            assert(without_first(s, h) == w);
            assert forall|x: u64| #[trigger] w.contains(x) <==> x == s[0] || r.contains(x) by {
                if w.contains(x) && x != s[0] {
                    let j = choose|j: int| 0 <= j < w.len() && w[j] == x;
                    assert(r[j - 1] == x);
                }
                if r.contains(x) {
                    let j = choose|j: int| 0 <= j < r.len() && r[j] == x;
                    assert(w[j + 1] == x);
                }
                if x == s[0] {
                    assert(w[0] == x);
                }
            }
            assert(!r.contains(s[0]));
            assert(w.no_duplicates()) by {
                assert forall|i: int, j: int| 0 <= i < w.len() && 0 <= j < w.len() && i != j implies w[i]
                    != w[j] by {
                    if i > 0 && j > 0 {
                        assert(w[i] == r[i - 1] && w[j] == r[j - 1]);
                    } else if i == 0 {
                        assert(w[j] == r[j - 1]);
                        assert(r.contains(r[j - 1]));
                    } else {
                        assert(w[i] == r[i - 1]);
                        assert(r.contains(r[i - 1]));
                    }
                }
            }
        }
    }
}

/// Whatever is remembered, the text history stays short and repeats nothing.
pub proof fn law_memory_stays_tidy(seen: Seen, h: u64)
    requires
        seen.tidy(),
    ensures
        Seen::nothing().tidy(),
        seen.with_text(h).tidy(),
        seen.with_image(h).tidy(),
        seen.with_oversize_image(h).tidy(),
        seen.with_file(h).tidy(),
        seen.with_oversize_file(h).tidy(),
{
    let s = seen.texts;
    if !(s.len() > 0 && s[0] == h) {
        lemma_without_first_members(s, h);
        let r = without_first(s, h);
        let w = seq![h] + r;
        assert(w.no_duplicates()) by {
            assert forall|i: int, j: int| 0 <= i < w.len() && 0 <= j < w.len() && i != j implies w[i]
                != w[j] by {
                if i > 0 && j > 0 {
                    assert(w[i] == r[i - 1] && w[j] == r[j - 1]);
                } else if i == 0 {
                    assert(r.contains(r[j - 1]));
                } else {
                    assert(r.contains(r[i - 1]));
                }
            }
        }
        assert(remembered(s, h) =~= capped(w, TEXT_HISTORY as nat));
    }
}

/// What was just remembered is recognised.
pub proof fn law_remembered_is_recognised(seen: Seen, h: u64)
    ensures
        seen.with_text(h).has_text(h),
        seen.with_image(h).has_image(h),
        seen.with_oversize_image(h).has_image(h),
        seen.with_file(h).has_file(h),
        seen.with_oversize_file(h).has_file(h),
{
    assert(remembered(seen.texts, h)[0] == h);
}

/// Text, image and file have slots of their own: remembering one kind changes
/// nothing of the others.
pub proof fn law_slots_are_independent(seen: Seen, h: u64, other: u64)
    ensures
        seen.with_text(h).has_image(other) == seen.has_image(other),
        seen.with_text(h).has_file(other) == seen.has_file(other),
        seen.with_image(h).has_text(other) == seen.has_text(other),
        seen.with_image(h).has_file(other) == seen.has_file(other),
        seen.with_oversize_image(h).has_text(other) == seen.has_text(other),
        seen.with_oversize_image(h).has_file(other) == seen.has_file(other),
        seen.with_file(h).has_text(other) == seen.has_text(other),
        seen.with_file(h).has_image(other) == seen.has_image(other),
        seen.with_oversize_file(h).has_text(other) == seen.has_text(other),
        seen.with_oversize_file(h).has_image(other) == seen.has_image(other),
{
}

/// The memory after a sequence of things.
pub open spec fn after_kinds(seen: Seen, kinds: Seq<LastKind>) -> Seen
    decreases kinds.len(),
{
    if kinds.len() == 0 {
        seen
    } else {
        after_kinds(seen, kinds.drop_last()).after(kinds.last())
    }
}

/// Whatever was remembered before, a reset leaves what a new memory holds:
/// nothing is recognised, so everything is sent again.
pub proof fn law_nothing_is_recognised_after_reset(seen: Seen, kinds: Seq<LastKind>, h: u64)
    ensures
        ({
            let reset = after_kinds(seen, kinds.push(LastKind::Nothing));
            &&& reset == Seen::nothing()
            &&& !reset.has_text(h)
            &&& !reset.has_image(h)
            &&& !reset.has_file(h)
        }),
{
}

/// A delivered image or file no longer counts as refused, and one that was
/// refused stays recognised while others are delivered.
pub proof fn law_refused_until_delivered(seen: Seen, refused: u64, delivered: u64)
    ensures
        seen.with_oversize_image(refused).with_image(refused).oversize_image is None,
        seen.with_oversize_file(refused).with_file(refused).oversize_file is None,
        refused != delivered ==> seen.with_oversize_image(refused).with_image(
            delivered,
        ).has_image(refused),
        refused != delivered ==> seen.with_oversize_file(refused).with_file(delivered).has_file(
            refused,
        ),
{
}

/// The memory after a sequence of texts.
pub open spec fn after_texts(seen: Seen, texts: Seq<u64>) -> Seen
    decreases texts.len(),
{
    if texts.len() == 0 {
        seen
    } else {
        after_texts(seen, texts.drop_last()).with_text(texts.last())
    }
}

/// Where `h` stands among the first `k` entries.
spec fn among_first(s: Seq<u64>, h: u64, k: nat) -> bool {
    exists|i: int| 0 <= i < s.len() && i < k && s[i] == h
}

proof fn lemma_entry_moves_back_by_one(s: Seq<u64>, h: u64, x: u64, k: nat)
    requires
        among_first(s, h, k),
        k < TEXT_HISTORY,
    ensures
        among_first(remembered(s, x), h, k + 1),
{
    let i = choose|i: int| 0 <= i < s.len() && i < k && s[i] == h;
    if s[0] == x {
        assert(remembered(s, x)[i] == h);
    } else if x == h {
        assert(remembered(s, x)[0] == h);
    } else {
        lemma_without_first_keeps(s, x, i);
        let r = without_first(s, x);
        let j = choose|j: int| 0 <= j <= i && j < r.len() && r[j] == s[i];
        let w = seq![x] + r;
        assert(w[j + 1] == h);
        assert(remembered(s, x)[j + 1] == h);
    }
}

proof fn lemma_without_first_keeps(s: Seq<u64>, x: u64, i: int)
    requires
        0 <= i < s.len(),
        s[i] != x,
    ensures
        exists|j: int|
            0 <= j <= i && j < without_first(s, x).len() && without_first(s, x)[j] == s[i],
    decreases s.len(),
{
    let t = s.drop_first();
    let r = without_first(s, x);
    if s[0] == x {
        assert(r[i - 1] == s[i]);
    } else if i == 0 {
        assert(r[0] == s[0]);
    } else {
        lemma_without_first_keeps(t, x, i - 1);
        let rt = without_first(t, x);
        let j = choose|j: int| 0 <= j <= i - 1 && j < rt.len() && rt[j] == t[i - 1];
        assert(r[j + 1] == s[i]);
    }
}

/// A text is recognised while fewer than four others follow it: whoever puts a
/// text on the clipboard for a moment and then restores what was there causes
/// no resend.
pub proof fn law_recent_text_is_recognised(seen: Seen, h: u64, later: Seq<u64>)
    requires
        later.len() < TEXT_HISTORY,
    ensures
        after_texts(seen.with_text(h), later).has_text(h),
{
    lemma_recent_text(seen, h, later);
    let s = after_texts(seen.with_text(h), later).texts;
    let i = choose|i: int| 0 <= i < s.len() && i < later.len() + 1 && s[i] == h;
    assert(s[i] == h);
}

proof fn lemma_recent_text(seen: Seen, h: u64, later: Seq<u64>)
    requires
        later.len() < TEXT_HISTORY,
    ensures
        among_first(after_texts(seen.with_text(h), later).texts, h, later.len() + 1),
    decreases later.len(),
{
    if later.len() == 0 {
        assert(remembered(seen.texts, h)[0] == h);
    } else {
        lemma_recent_text(seen, h, later.drop_last());
        lemma_entry_moves_back_by_one(
            after_texts(seen.with_text(h), later.drop_last()).texts,
            h,
            later.last(),
            later.len(),
        );
    }
}

// ---- no echo ----

/// What was received is not sent back: a tick that finds the delivered text
/// queues nothing.
pub proof fn law_received_text_is_not_sent_back(st: PollState, payload: Seq<u8>, kicked: bool)
    requires
        delivery(FORMAT_TEXT_UTF8, payload) is Some,
    ensures
        ({
            let text = decode_utf8(payload);
            let d = delivery(FORMAT_TEXT_UTF8, payload)->0;
            let next = PollState { seen: seen_after_delivery(st.seen, d), ..st };
            next.after_text(true, Some(text), kicked).poller.outgoing == st.poller.outgoing
        }),
{
    decode_utf8_encode_utf8(payload);
    law_remembered_is_recognised(st.seen, bytes_hash(payload));
}

/// What was received is not sent back: a tick that finds the delivered image
/// changes nothing.
pub proof fn law_received_image_is_not_sent_back(st: PollState, picture: Picture, png: Option<Seq<u8>>)
    ensures
        ({
            let d = DeliveryView::Image { picture, hash: bytes_hash(picture.rgba) };
            let next = PollState { seen: seen_after_delivery(st.seen, d), ..st };
            next.after_image(picture, png) == next
        }),
{
    law_remembered_is_recognised(st.seen, bytes_hash(picture.rgba));
}

/// What was received is not sent back: a tick that finds the delivered file
/// changes nothing, under whatever name it is found.
pub proof fn law_received_file_is_not_sent_back(
    st: PollState,
    name: Seq<char>,
    content: Seq<u8>,
    found_as: Seq<char>,
    packed: Seq<u8>,
)
    ensures
        ({
            let hash = bytes_hash(content);
            let d = DeliveryView::File { name, content, hash };
            let next = PollState { seen: seen_after_delivery(st.seen, d), ..st };
            next.after_file(FileFound::Ready { name: found_as, hash, packed }) == next
        }),
{
    law_remembered_is_recognised(st.seen, bytes_hash(content));
}

/// A text that keeps standing on the clipboard is sent once: held at the first
/// tick, sent at the second, and from then on left alone.
pub proof fn law_text_is_sent_once(st: PollState, text: Seq<char>)
    requires
        0 < encode_utf8(text).len() <= MAX_CLIPBOARD_BYTES,
        text.len() > 0,
        !st.seen.has_text(bytes_hash(encode_utf8(text))),
        st.poller.pending != Some(bytes_hash(encode_utf8(text))),
        st.label != text,
    ensures
        ({
            let first = st.after_text(true, Some(text), false);
            let second = first.after_text(true, Some(text), false);
            let third = second.after_text(true, Some(text), false);
            &&& first.poller.outgoing == st.poller.outgoing
            &&& second.poller.outgoing == st.poller.outgoing + transfer(
                FORMAT_TEXT_UTF8,
                encode_utf8(text),
            )
            &&& third.poller.outgoing == second.poller.outgoing
        }),
{
    law_remembered_is_recognised(st.seen, bytes_hash(encode_utf8(text)));
}

/// A paste that waits for a text has it sent at the first tick.
pub proof fn law_waiting_paste_gets_text_at_once(st: PollState, text: Seq<char>)
    requires
        encode_utf8(text).len() <= MAX_CLIPBOARD_BYTES,
        text.len() > 0,
        !st.seen.has_text(bytes_hash(encode_utf8(text))),
        st.label != text,
    ensures
        ({
            let next = st.after_text(true, Some(text), true);
            &&& next.poller.in_flight
            &&& next.poller.outgoing == st.poller.outgoing + transfer(
                FORMAT_TEXT_UTF8,
                encode_utf8(text),
            )
        }),
{
}

/// The name of the file being sent never goes out as text, at whatever tick it
/// turns up, and does not go out later either.
pub proof fn law_file_name_is_not_sent_as_text(st: PollState, kicked: bool, later: bool)
    requires
        st.label.len() > 0,
    ensures
        ({
            let next = st.after_text(true, Some(st.label), kicked);
            let done = PollState { label: Seq::empty(), ..next };
            &&& next.poller.outgoing == st.poller.outgoing
            &&& done.after_text(true, Some(st.label), later).poller.outgoing == st.poller.outgoing
        }),
{
    law_remembered_is_recognised(st.seen, bytes_hash(encode_utf8(st.label)));
}

/// An image or file over the limit is announced once, however often it is
/// found again.
pub proof fn law_oversize_is_announced_once(
    st: PollState,
    picture: Picture,
    png: Seq<u8>,
    path_hash: u64,
    size_bytes: nat,
)
    requires
        png.len() > MAX_IMAGE_BYTES,
    ensures
        ({
            let once = st.after_image(picture, Some(png));
            once.after_image(picture, Some(png)) == once
        }),
        ({
            let once = st.after_file(FileFound::Oversize { path_hash, size_bytes });
            once.after_file(FileFound::Oversize { path_hash, size_bytes }) == once
        }),
{
    law_remembered_is_recognised(st.seen, bytes_hash(picture.rgba));
    law_remembered_is_recognised(st.seen, path_hash);
}

/// A file that was sent can be copied and sent again as long as the host has
/// not delivered it back: sending leaves no mark.
pub proof fn law_sent_file_can_be_sent_again(st: PollState, name: Seq<char>, hash: u64, packed: Seq<u8>)
    requires
        !st.seen.has_file(hash),
    ensures
        ({
            let found = FileFound::Ready { name, hash, packed };
            let once = st.after_file(found);
            let twice = once.after_file(found);
            &&& once.seen == st.seen
            &&& twice.poller.outgoing == once.poller.outgoing + transfer(FORMAT_FILE, packed)
        }),
{
}

/// A clipboard that does not change keeps quiet: after two ticks nothing is
/// queued and nothing is announced any more.
pub proof fn law_unchanged_clipboard_keeps_quiet(st: PollState, sends: Sends, sight: Sight)
    requires
        sight.file is None,
        !sight.kicked,
    ensures
        ({
            let settled = st.after_tick(sends, sight).after_tick(sends, sight);
            let later = settled.after_tick(sends, sight);
            &&& later.poller.outgoing == settled.poller.outgoing
            &&& later.poller.toasts == settled.poller.toasts
            &&& later.seen == settled.seen
        }),
{
    match sight.text {
        Some(text) => {
            let hash = bytes_hash(encode_utf8(text));
            let first = st.after_tick(sends, sight);
            let second = first.after_tick(sends, sight);
            law_remembered_is_recognised(st.seen, hash);
            law_remembered_is_recognised(first.seen, hash);
            law_remembered_is_recognised(second.seen, hash);
            assert(remembered(remembered(st.seen.texts, hash), hash) == remembered(
                st.seen.texts,
                hash,
            ));
            assert(remembered(remembered(first.seen.texts, hash), hash) == remembered(
                first.seen.texts,
                hash,
            ));
        },
        None => {},
    }
    match sight.image {
        Some((picture, _)) => {
            let hash = bytes_hash(picture.rgba);
            law_remembered_is_recognised(st.seen, hash);
        },
        None => {},
    }
}

/// What the user does not let go stays here, whatever the clipboard holds: a
/// tick is then as if it were not there.
pub proof fn law_nothing_leaves_unasked(st: PollState, sends: Sends, sight: Sight)
    ensures
        !sends.files ==> st.after_tick(sends, sight) == st.after_tick(
            sends,
            Sight { file: None, ..sight },
        ),
        !sends.text ==> st.after_tick(sends, sight) == st.after_tick(
            sends,
            Sight { text: None, ..sight },
        ),
        !sends.images ==> st.after_tick(sends, sight) == st.after_tick(
            sends,
            Sight { image: None, ..sight },
        ),
        !sends.files && !sends.text && !sends.images ==> {
            let next = st.after_tick(sends, sight);
            &&& next.poller.outgoing == st.poller.outgoing
            &&& next.poller.toasts == st.poller.toasts
            &&& next.seen == st.seen
        },
{
}

/// A copied file goes out alone: its name, where it stands beside it as text,
/// does not follow, neither at the same tick nor at the next one.
pub proof fn law_copied_file_goes_out_alone(
    st: PollState,
    sends: Sends,
    name: Seq<char>,
    hash: u64,
    packed: Seq<u8>,
    kicked: bool,
)
    requires
        sends.files,
        name.len() > 0,
        !st.seen.has_file(hash),
    ensures
        ({
            let found = Some(FileFound::Ready { name, hash, packed });
            let copied = Sight { file: found, text: Some(name), image: None, kicked };
            let next = st.after_tick(sends, copied);
            let then = next.after_tick(sends, Sight { file: None, ..copied });
            &&& next.poller.outgoing == st.poller.outgoing + transfer(FORMAT_FILE, packed)
            &&& then.poller.outgoing == next.poller.outgoing
        }),
{
}

// ---- what leaves this machine ----

/// An image that is neither the one that came or went last nor the one that was
/// last too large is sent by the look that finds it, whatever else was seen
/// before: an offer and its chunks join the queue, and it is remembered. Over the
/// limit it is announced instead, and one that cannot be encoded changes nothing.
pub proof fn law_new_image_is_sent(p: &mut ClipboardPoller, state: &mut ClipboardState, img: RgbaImage)
    requires
        call_ensures(ClipboardPoller::image_step, (p, state, true, Some(img)), ()),
        old(state)@.image != Some(bytes_hash(img.bytes@)),
        old(state)@.oversize_image != Some(bytes_hash(img.bytes@)),
    ensures
        ({
            let hash = bytes_hash(img.bytes@);
            match png_encoding(img.bytes@, img.width as u32, img.height as u32) {
                Some(png) => {
                    &&& png.len() <= 20 * 1024 * 1024 ==> {
                        &&& final(p)@.outgoing == old(p)@.outgoing + transfer(1, png)
                        &&& final(p)@.toasts == old(p)@.toasts
                        &&& final(state)@.image == Some(hash)
                    }
                    &&& png.len() > 20 * 1024 * 1024 ==> {
                        &&& final(p)@.outgoing == old(p)@.outgoing
                        &&& final(p)@.toasts == old(p)@.toasts.push(oversize_image_notice(png.len()))
                        &&& final(state)@.oversize_image == Some(hash)
                        &&& final(state)@.image == old(state)@.image
                    }
                },
                None => final(p)@ == old(p)@ && final(state)@ == old(state)@,
            }
        }),
        final(p)@.pending == old(p)@.pending && final(p)@.in_flight == old(p)@.in_flight,
        final(state)@.texts == old(state)@.texts && final(state)@.file == old(state)@.file
            && final(state)@.oversize_file == old(state)@.oversize_file,
{
}

/// An image that is recognised, and any image where images are not sent, is left
/// alone.
pub proof fn law_known_image_is_left_alone(
    p: &mut ClipboardPoller,
    state: &mut ClipboardState,
    sends: bool,
    image: Option<RgbaImage>,
)
    requires
        call_ensures(ClipboardPoller::image_step, (p, state, sends, image), ()),
        !sends || image is None || old(state)@.image == Some(bytes_hash(image->0.bytes@)) || old(state)@.oversize_image == Some(bytes_hash(image->0.bytes@)),
    ensures
        final(p)@ == old(p)@,
        final(state)@ == old(state)@,
{
}

/// A file that was copied, and is neither the one that came last nor the one that
/// was last too large, is sent under its name by the look that finds it, whatever
/// else was seen before.
pub proof fn law_new_file_is_sent(
    p: &mut ClipboardPoller,
    state: &mut ClipboardState,
    label: &mut String,
    limit: usize,
    found: FilePollOutcome,
)
    requires
        call_ensures(ClipboardPoller::file_step, (p, state, label, true, limit, Some(found)), ()),
    ensures
        found@ matches FileFound::Ready { name, hash, packed } ==> {
            let known = old(state)@.file == Some(hash) || old(state)@.oversize_file == Some(hash);
            &&& !known ==> final(p)@.outgoing == old(p)@.outgoing + transfer(2, packed)
                && final(label)@ == name
            &&& known ==> final(p)@.outgoing == old(p)@.outgoing && final(label)@ == old(label)@
            &&& final(state)@ == old(state)@ && final(p)@.toasts == old(p)@.toasts
        },
        found@ matches FileFound::Oversize { path_hash, size_bytes } ==> {
            let known = old(state)@.file == Some(path_hash) || old(state)@.oversize_file == Some(
                path_hash,
            );
            &&& !known ==> final(p)@.toasts == old(p)@.toasts.push(oversize_file_notice(size_bytes))
                && final(state)@.oversize_file == Some(path_hash)
            &&& known ==> final(p)@.toasts == old(p)@.toasts && final(state)@ == old(state)@
            &&& final(p)@.outgoing == old(p)@.outgoing && final(label)@ == old(label)@
        },
        found@ is Skipped ==> final(p)@ == old(p)@ && final(state)@ == old(state)@ && final(label)@
            == old(label)@,
        final(p)@.pending == old(p)@.pending && final(p)@.in_flight == old(p)@.in_flight,
        final(state)@.texts == old(state)@.texts && final(state)@.image == old(state)@.image
            && final(state)@.file == old(state)@.file,
{
}

/// Where files are not sent, a file that is found is left alone.
pub proof fn law_files_wait_for_consent(
    p: &mut ClipboardPoller,
    state: &mut ClipboardState,
    label: &mut String,
    limit: usize,
    found: Option<FilePollOutcome>,
)
    requires
        call_ensures(ClipboardPoller::file_step, (p, state, label, false, limit, found), ()),
    ensures
        final(p)@ == old(p)@ && final(state)@ == old(state)@ && final(label)@ == old(label)@,
{
}

/// A text that is none of those remembered, and is not the name of the file that
/// is being sent, is sent once it was found twice in a row, or at once where a
/// paste waits for it, whatever was there before; up to the limit, it is then in
/// flight and remembered. Found for the first time, it is held.
pub proof fn law_new_text_is_sent(
    p: &mut ClipboardPoller,
    state: &mut ClipboardState,
    label: String,
    text: String,
    kicked: bool,
)
    requires
        call_ensures(ClipboardPoller::text_step, (p, state, &label, true, Some(text), kicked), ()),
        text@.len() > 0,
        label@ != text@,
        forall|i: int|
            0 <= i < old(state)@.texts.len() ==> old(state)@.texts[i] != bytes_hash(
                encode_utf8(text@),
            ),
    ensures
        ({
            let bytes = encode_utf8(text@);
            let hash = bytes_hash(bytes);
            let due = kicked || old(p)@.pending == Some(hash);
            &&& due && bytes.len() <= 256 * 1024 ==> final(p)@.outgoing == old(p)@.outgoing + transfer(
                0,
                bytes,
            ) && final(p)@.in_flight
            &&& due && bytes.len() > 256 * 1024 ==> final(p)@.outgoing == old(p)@.outgoing
                && final(p)@.in_flight == old(p)@.in_flight
            &&& due ==> final(p)@.pending is None && final(state)@.texts.len() > 0 && final(state)@.texts[0] == hash
            &&& !due ==> final(p)@.outgoing == old(p)@.outgoing && final(p)@.pending == Some(hash)
                && final(state)@ == old(state)@ && final(p)@.in_flight == old(p)@.in_flight
        }),
        final(p)@.toasts == old(p)@.toasts,
        final(state)@.image == old(state)@.image && final(state)@.file == old(state)@.file,
{
    let hash = bytes_hash(encode_utf8(text@));
    assert(!old(state)@.texts.contains(hash));
    assert(remembered(old(state)@.texts, hash)[0] == hash);
}

/// A text that is remembered is not sent again, nor is the name of the file that
/// is being sent, nor anything where texts are not sent; and nothing is held
/// then.
pub proof fn law_known_text_is_left_alone(
    p: &mut ClipboardPoller,
    state: &mut ClipboardState,
    label: String,
    sends: bool,
    text: Option<String>,
    kicked: bool,
    i: int,
)
    requires
        call_ensures(ClipboardPoller::text_step, (p, state, &label, sends, text, kicked), ()),
        !sends || text is None || text->0@.len() == 0 || text->0@ == label@ || (0 <= i < old(state)@.texts.len() && old(state)@.texts[i] == bytes_hash(encode_utf8(text->0@))),
    ensures
        final(p)@.outgoing == old(p)@.outgoing,
        final(p)@.pending is None,
        final(p)@.in_flight == old(p)@.in_flight && final(p)@.toasts == old(p)@.toasts,
        !sends || text is None || text->0@.len() == 0 ==> final(state)@ == old(state)@,
{
}

/// A look takes file, text and image in this order, and what it sends of each is
/// what that part alone sends: the look adds nothing, and leaves nothing out.
pub proof fn law_look_is_made_of_its_parts(
    p: &mut ClipboardPoller,
    state: &mut ClipboardState,
    label: &mut String,
    sends: Sends,
    limit: usize,
    sighting: Sighting,
)
    requires
        call_ensures(ClipboardPoller::tick, (p, state, label, sends, limit, sighting), ()),
    ensures
        ({
            let seen = old(state)@;
            let file = match sighting@.file {
                Some(FileFound::Ready { name, hash, packed }) => if sends.files && seen.file != Some(
                    hash,
                ) && seen.oversize_file != Some(hash) {
                    Some((name, packed))
                } else {
                    None
                },
                _ => None,
            };
            let text = match sighting@.text {
                Some(t) => {
                    let hash = bytes_hash(encode_utf8(t));
                    if sends.text && t.len() > 0 && !seen.texts.contains(hash) && t != final(label)@
                        && (sighting.kicked || old(p)@.pending == Some(hash)) && encode_utf8(t).len()
                        <= 256 * 1024 {
                        Some(encode_utf8(t))
                    } else {
                        None
                    }
                },
                None => None,
            };
            let image = match sighting@.image {
                Some((picture, Some(png))) => if sends.images && seen.image != Some(
                    bytes_hash(picture.rgba),
                ) && seen.oversize_image != Some(bytes_hash(picture.rgba)) && png.len() <= 20 * 1024
                    * 1024 {
                    Some(png)
                } else {
                    None
                },
                _ => None,
            };
            &&& final(label)@ == (match file {
                Some((name, _)) => name,
                None => old(label)@,
            })
            &&& final(p)@.in_flight == text is Some
            &&& final(p)@.outgoing == old(p)@.outgoing + (match file {
                Some((_, packed)) => transfer(2, packed),
                None => Seq::empty(),
            }) + (match text {
                Some(bytes) => transfer(0, bytes),
                None => Seq::empty(),
            }) + (match image {
                Some(png) => transfer(1, png),
                None => Seq::empty(),
            })
        }),
        final(state)@.file == old(state)@.file,
{
    let none = Seq::<PacketView>::empty();
    assert forall|s: Seq<PacketView>| #[trigger] (s + none) == s by {
        assert(s + none =~= s);
    }
}

/// What a look does not send it does not mark as sent either: the image that is
/// remembered changes only to the one that was found, and of the texts only the
/// one that was found is new.
pub proof fn law_look_remembers_only_what_it_found(
    p: &mut ClipboardPoller,
    state: &mut ClipboardState,
    label: &mut String,
    sends: Sends,
    limit: usize,
    sighting: Sighting,
    h: u64,
)
    requires
        call_ensures(ClipboardPoller::tick, (p, state, label, sends, limit, sighting), ()),
    ensures
        final(state)@.image != old(state)@.image ==> sends.images && (
        sighting@.image matches Some((picture, _)) && final(state)@.image == Some(
            bytes_hash(picture.rgba),
        )),
        final(state)@.oversize_image != old(state)@.oversize_image ==> sends.images && (
        sighting@.image matches Some((picture, _)) && (final(state)@.oversize_image == Some(
            bytes_hash(picture.rgba),
        ))),
        final(state)@.has_text(h) && !old(state)@.has_text(h) ==> sends.text && (
        sighting@.text matches Some(t) && h == bytes_hash(encode_utf8(t))),
{
    if let Some(t) = sighting@.text {
        let hash = bytes_hash(encode_utf8(t));
        let s = old(state)@.texts;
        lemma_remembered_members(s, hash, h);
    }
}

proof fn lemma_remembered_members(s: Seq<u64>, h: u64, x: u64)
    ensures
        remembered(s, h).contains(x) ==> x == h || s.contains(x),
{
    if !(s.len() > 0 && s[0] == h) && remembered(s, h).contains(x) && x != h {
        let w = seq![h] + without_first(s, h);
        let r = remembered(s, h);
        let i = choose|i: int| 0 <= i < r.len() && r[i] == x;
        assert(w[i] == x);
        assert(without_first(s, h)[i - 1] == x);
        lemma_without_first_subset(s, h, i - 1);
    }
}

proof fn lemma_without_first_subset(s: Seq<u64>, h: u64, i: int)
    requires
        0 <= i < without_first(s, h).len(),
    ensures
        s.contains(without_first(s, h)[i]),
    decreases s.len(),
{
    let t = s.drop_first();
    if s[0] == h {
        assert(s[i + 1] == without_first(s, h)[i]);
    } else if i == 0 {
        assert(s[0] == without_first(s, h)[0]);
    } else {
        lemma_without_first_subset(t, h, i - 1);
        let x = without_first(t, h)[i - 1];
        let j = choose|j: int| 0 <= j < t.len() && t[j] == x;
        assert(s[j + 1] == x);
    }
}

/// A new look begins with nothing in flight, and with everything else as it was.
pub proof fn law_look_begins_with_nothing_in_flight(p: &mut ClipboardPoller)
    requires
        call_ensures(ClipboardPoller::begin_tick, (p,), ()),
    ensures
        !final(p)@.in_flight,
        final(p)@.pending == old(p)@.pending,
        final(p)@.outgoing == old(p)@.outgoing && final(p)@.toasts == old(p)@.toasts,
{
}

/// What was on the clipboard when the client started counts as seen, each in its
/// own slot, and nothing else does.
pub proof fn law_start_is_remembered(
    state: &mut ClipboardState,
    text: Option<&str>,
    image: Option<&RgbaImage>,
    file: Option<&FilePreStampOutcome>,
    h: u64,
)
    requires
        call_ensures(pre_stamp, (state, text, image, file), ()),
    ensures
        text matches Some(t) ==> t@.len() > 0 ==> final(state)@.texts.len() > 0 && final(state)@.texts[0] == bytes_hash(encode_utf8(t@)),
        text is None || text->0@.len() == 0 ==> final(state)@.texts == old(state)@.texts,
        image matches Some(img) ==> final(state)@.image == Some(bytes_hash(img.bytes@)),
        image is None ==> final(state)@.image == old(state)@.image,
        file matches Some(FilePreStampOutcome::Stamped { name, hash }) ==> final(state)@.file
            == Some(*hash),
        !(file is Some && *file->0 is Stamped) ==> final(state)@.file == old(state)@.file,
        final(state)@.has_text(h) && !old(state)@.has_text(h) ==> (text matches Some(t) && h
            == bytes_hash(encode_utf8(t@))),
{
    if let Some(t) = text {
        let hash = bytes_hash(encode_utf8(t@));
        assert(remembered(old(state)@.texts, hash)[0] == hash);
        lemma_remembered_members(old(state)@.texts, hash, h);
    }
}

/// After four other texts a text is forgotten: put there again, it is sent
/// again.
pub proof fn law_older_text_is_forgotten(seen: Seen, h: u64, later: Seq<u64>)
    requires
        later.len() == 4,
        later.no_duplicates(),
        !later.contains(h),
    ensures
        !after_texts(seen, later).has_text(h),
{
    lemma_latest_first(seen, later);
    let less = later.drop_last();
    lemma_latest_first(seen, less);
    assert(after_texts(seen, less).texts[0] == later[2]);
    let s = after_texts(seen, later).texts;
    assert(s.len() == 4);
    if s.contains(h) {
        let i = choose|i: int| 0 <= i < s.len() && s[i] == h;
        assert(s[i] == later[3 - i]);
    }
}

proof fn lemma_latest_first(seen: Seen, later: Seq<u64>)
    requires
        later.len() <= TEXT_HISTORY,
        later.no_duplicates(),
    ensures
        after_texts(seen, later).texts.len() >= later.len(),
        forall|i: int|
            0 <= i < later.len() ==> (#[trigger] after_texts(seen, later).texts[i])
                == later[later.len() - 1 - i],
    decreases later.len(),
{
    if later.len() > 0 {
        let less = later.drop_last();
        let x = later.last();
        lemma_latest_first(seen, less);
        let s = after_texts(seen, less).texts;
        let k = less.len() as int;
        assert forall|i: int| 0 <= i < k implies s[i] != x by {
            assert(s[i] == less[k - 1 - i]);
            assert(later[k - 1 - i] != later[k]);
        }
        if s.len() > 0 && s[0] == x {
            assert(k == 0);
        } else {
            lemma_without_first_keeps_head(s, x, k);
            let w = seq![x] + without_first(s, x);
            let r = remembered(s, x);
            assert forall|i: int| 0 <= i < later.len() implies r[i] == later[later.len() - 1
                - i] by {
                assert(r[i] == w[i]);
                if i > 0 {
                    assert(w[i] == without_first(s, x)[i - 1]);
                    assert(s[i - 1] == less[k - i]);
                }
            }
        }
    }
}

proof fn lemma_without_first_keeps_head(s: Seq<u64>, x: u64, k: int)
    requires
        0 <= k <= s.len(),
        forall|i: int| 0 <= i < k ==> s[i] != x,
    ensures
        without_first(s, x).len() >= k,
        forall|i: int| 0 <= i < k ==> (#[trigger] without_first(s, x)[i]) == s[i],
    decreases s.len(),
{
    if k > 0 {
        let t = s.drop_first();
        assert forall|i: int| 0 <= i < k - 1 implies t[i] != x by {
            assert(t[i] == s[i + 1]);
        }
        lemma_without_first_keeps_head(t, x, k - 1);
        assert forall|i: int| 0 <= i < k implies (#[trigger] without_first(s, x)[i]) == s[i] by {
            if i > 0 {
                assert(without_first(s, x)[i] == without_first(t, x)[i - 1]);
            }
        }
    }
}

/// An image that was encoded is sent up to the limit, and announced beyond it;
/// it is remembered by the hash that it was found under.
pub proof fn law_encoded_image_is_sent(
    p: &mut ClipboardPoller,
    state: &mut ClipboardState,
    hash: u64,
    png: Vec<u8>,
)
    requires
        call_ensures(
            ClipboardPoller::encoded_image_step,
            (p, state, hash, Ok::<Vec<u8>, ImageCodecError>(png)),
            (),
        ),
    ensures
        png@.len() <= 20 * 1024 * 1024 ==> final(p)@.outgoing == old(p)@.outgoing + transfer(1, png@)
            && final(state)@.image == Some(hash) && final(p)@.toasts == old(p)@.toasts,
        png@.len() > 20 * 1024 * 1024 ==> final(p)@.outgoing == old(p)@.outgoing
            && final(state)@.oversize_image == Some(hash) && final(p)@.toasts.len() == old(p)@.toasts.len() + 1,
        final(p)@.pending == old(p)@.pending && final(p)@.in_flight == old(p)@.in_flight,
        final(state)@.texts == old(state)@.texts && final(state)@.file == old(state)@.file,
{
}

/// The side that looks at the clipboard starts with nothing queued, held or to
/// show.
pub proof fn law_poller_starts_empty(p: ClipboardPoller)
    requires
        call_ensures(ClipboardPoller::new, (), p),
    ensures
        p@.pending is None && !p@.in_flight,
        p@.outgoing.len() == 0 && p@.toasts.len() == 0,
{
}

/// After a look everything is remembered as before but what the look sent, held
/// or announced: a text that was sent, or is the name of the file being sent, as
/// the most recent one, an image that was sent as the last one, and what was too
/// large as such; and each announcement is shown once, a file's before an
/// image's.
pub proof fn law_look_remembers_what_it_did(
    p: &mut ClipboardPoller,
    state: &mut ClipboardState,
    label: &mut String,
    sends: Sends,
    limit: usize,
    sighting: Sighting,
)
    requires
        call_ensures(ClipboardPoller::tick, (p, state, label, sends, limit, sighting), ()),
    ensures
        ({
            let seen = old(state)@;
            let text = match sighting@.text {
                Some(t) => if sends.text && t.len() > 0 {
                    Some((t, bytes_hash(encode_utf8(t))))
                } else {
                    None
                },
                None => None,
            };
            let image = match sighting@.image {
                Some((picture, Some(png))) => {
                    let hash = bytes_hash(picture.rgba);
                    if sends.images && seen.image != Some(hash) && seen.oversize_image != Some(hash) {
                        Some((hash, png))
                    } else {
                        None
                    }
                },
                _ => None,
            };
            let file = match sighting@.file {
                Some(FileFound::Oversize { path_hash, size_bytes }) => if sends.files && seen.file
                    != Some(path_hash) && seen.oversize_file != Some(path_hash) {
                    Some((path_hash, size_bytes))
                } else {
                    None
                },
                _ => None,
            };
            let (hash, png) = image->0;
            let fits = image is Some && png.len() <= 20 * 1024 * 1024;
            &&& final(state)@.texts == (match text {
                Some((t, hash)) => if t == final(label)@ || !seen.texts.contains(hash) && (
                sighting.kicked || old(p)@.pending == Some(hash)) {
                    remembered(seen.texts, hash)
                } else {
                    seen.texts
                },
                None => seen.texts,
            })
            &&& final(p)@.pending == (match text {
                Some((t, hash)) => if t != final(label)@ && !seen.texts.contains(hash)
                    && !sighting.kicked && old(p)@.pending != Some(hash) {
                    Some(hash)
                } else {
                    None
                },
                None => None,
            })
            &&& final(state)@.image == (if fits {
                Some(hash)
            } else {
                seen.image
            })
            &&& image is Some && !fits ==> final(state)@.oversize_image == Some(hash)
            &&& image is None ==> final(state)@.oversize_image == seen.oversize_image
            &&& final(state)@.oversize_file == (match file {
                Some((path_hash, _)) => Some(path_hash),
                None => seen.oversize_file,
            })
            &&& final(p)@.toasts == (match file {
                Some((_, size_bytes)) => old(p)@.toasts.push(oversize_file_notice(size_bytes)),
                None => old(p)@.toasts,
            }) + (if image is Some && !fits {
                seq![oversize_image_notice(png.len())]
            } else {
                Seq::empty()
            })
        }),
{
    let none = Seq::<Seq<char>>::empty();
    assert forall|s: Seq<Seq<char>>| #[trigger] (s + none) == s by {
        assert(s + none =~= s);
    }
    assert forall|s: Seq<Seq<char>>, x: Seq<char>| #[trigger] (s + seq![x]) == s.push(x) by {
        assert(s + seq![x] =~= s.push(x));
    }
}

} // verus!
