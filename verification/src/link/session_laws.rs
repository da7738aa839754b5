//! What holds of a session from one end to the other.

use vstd::prelude::*;
use vstd::utf8::*;

use crate::clipboard::clip_file::packed_file;
use crate::clipboard::incoming::{DeliveryView, Incoming, Reassembly, Verdict, delivery};
use crate::clipboard::outgoing::{chunk_count, transfer};
use crate::clipboard::png::{
    DECODE_MAX_ALLOC, ImageCodecError, Picture, decoded_picture, png_decoding,
};
use crate::clipboard::transfer_laws::{
    holding, is_cut, is_order, law_file_arrives, law_own_chunks_make_the_payload, law_text_arrives,
    lemma_chunk_arrives, lemma_nothing_held, lemma_order_is_not_empty, lemma_prefix_of_order,
    own_cut,
};
use crate::clipboard::{MAX_CLIPBOARD_BYTES, MAX_IMAGE_BYTES, bytes_hash};
use crate::link::Link;
use crate::link::reader::{Reader, ReaderAnswer};
use crate::link::supervisor::{Supervisor, SupervisorEvent, SupervisorPhase};
use crate::protocol::{
    FORMAT_FILE, FORMAT_PNG_IMAGE, FORMAT_TEXT_UTF8, MessageView, PacketView, unnumbered,
};

verus! {

/// What a reader makes of packets, one after the other: the reader and the link
/// afterwards, and what the clipboard gets.
pub open spec fn after_reading(
    reader: Reader,
    link: Link,
    packets: Seq<PacketView>,
    now_ms: u64,
) -> (Reader, Link, Seq<DeliveryView>)
    decreases packets.len(),
{
    if packets.len() == 0 {
        (reader, link, Seq::empty())
    } else {
        let (r, l, d) = after_reading(reader, link, packets.drop_last(), now_ms);
        let message = packets.last().message;
        (
            r.after_message(l, message, now_ms),
            r.link_after_message(l, message),
            match r.answer(l, message).delivery {
                Some(more) => d.push(more),
                None => d,
            },
        )
    }
}

/// The packets by which a payload can come: the offer, then the chunks of a cut
/// in the order that `order` gives.
pub open spec fn arrival(
    format: u8,
    payload: Seq<u8>,
    cut: Seq<Seq<u8>>,
    order: Seq<int>,
) -> Seq<PacketView> {
    seq![unnumbered(MessageView::ClipOffer { format, total_len: payload.len() as u32 })]
        + Seq::new(
        order.len(),
        |k: int|
            unnumbered(MessageView::ClipChunk { index: order[k] as u16, data: cut[order[k]] }),
    )
}

/// The link while the chunks in `got` have arrived.
pub open spec fn link_holding(link: Link, format: u8, cut: Seq<Seq<u8>>, got: Set<int>) -> Link {
    Link {
        incoming_cancel: false,
        incoming: Incoming { reassembly: holding(format, cut, got), ..link.incoming },
        ..link
    }
}

proof fn lemma_reading(
    reader: Reader,
    link: Link,
    format: u8,
    payload: Seq<u8>,
    cut: Seq<Seq<u8>>,
    order: Seq<int>,
    now_ms: u64,
    k: int,
)
    requires
        is_cut(payload, cut),
        is_order(order, cut.len()),
        link.incoming.verdict(format, payload.len() as u32) == Verdict::Accepted,
        0 <= k < order.len(),
    ensures
        ({
            let (r, l, d) = after_reading(
                reader,
                link,
                arrival(format, payload, cut, order).take(k + 1),
                now_ms,
            );
            l == link_holding(link, format, cut, order.take(k).to_set()) && d == Seq::<
                DeliveryView,
            >::empty()
        }),
    decreases k,
{
    let all = arrival(format, payload, cut, order);
    let read = all.take(k + 1);
    assert(read.drop_last() =~= all.take(k));
    if k == 0 {
        assert(all.take(0) =~= Seq::empty());
        assert(after_reading(reader, link, all.take(0), now_ms) == (
            reader,
            link,
            Seq::<DeliveryView>::empty(),
        ));
        assert(read.last() == unnumbered(
            MessageView::ClipOffer { format, total_len: payload.len() as u32 },
        ));
        assert(order.take(0).to_set() =~= Set::empty());
        lemma_nothing_held(format, payload, cut);
    } else {
        lemma_reading(reader, link, format, payload, cut, order, now_ms, k - 1);
        assert(read.last() == unnumbered(
            MessageView::ClipChunk { index: order[k - 1] as u16, data: cut[order[k - 1]] },
        ));
        lemma_step(link, format, payload, cut, order, k - 1);
    }
}

proof fn lemma_step(
    link: Link,
    format: u8,
    payload: Seq<u8>,
    cut: Seq<Seq<u8>>,
    order: Seq<int>,
    k: int,
)
    requires
        is_cut(payload, cut),
        is_order(order, cut.len()),
        0 <= k < order.len(),
    ensures
        ({
            let before = link_holding(link, format, cut, order.take(k).to_set()).incoming;
            let index = order[k] as u16;
            let data = cut[order[k]];
            let last = k + 1 == order.len();
            &&& before.completes(index, data) == last
            &&& before.reassembly.after_chunk(index, data) == (if last {
                (Reassembly::idle(), Some(payload))
            } else {
                (holding(format, cut, order.take(k + 1).to_set()), None)
            })
        }),
{
    lemma_prefix_of_order(cut, order, k);
    lemma_chunk_arrives(format, payload, cut, order.take(k).to_set(), order[k]);
}

/// A payload that is announced and sent is received whole, however it was cut
/// and in whatever order its chunks come: exactly one thing is delivered, when
/// the last chunk is there, and it is what the payload stands for. The receiver
/// is then ready for the next offer.
pub proof fn law_any_transfer_is_received(
    reader: Reader,
    link: Link,
    format: u8,
    payload: Seq<u8>,
    cut: Seq<Seq<u8>>,
    order: Seq<int>,
    now_ms: u64,
)
    requires
        is_cut(payload, cut),
        is_order(order, cut.len()),
        link.incoming.verdict(format, payload.len() as u32) == Verdict::Accepted,
    ensures
        ({
            let (r, l, d) = after_reading(
                reader,
                link,
                arrival(format, payload, cut, order),
                now_ms,
            );
            &&& d == (match delivery(format, payload) {
                Some(what) => seq![what],
                None => Seq::empty(),
            })
            &&& l.incoming.reassembly == Reassembly::idle()
            &&& !l.incoming_cancel
        }),
        forall|k: int|
            0 <= k < order.len() ==> (#[trigger] after_reading(
                reader,
                link,
                arrival(format, payload, cut, order).take(k + 1),
                now_ms,
            )).2.len() == 0,
{
    lemma_order_is_not_empty(payload, cut, order);
    let n = order.len() as int;
    let all = arrival(format, payload, cut, order);
    assert forall|k: int| 0 <= k < n implies (#[trigger] after_reading(
        reader,
        link,
        all.take(k + 1),
        now_ms,
    )).2.len() == 0 by {
        lemma_reading(reader, link, format, payload, cut, order, now_ms, k);
    }
    lemma_reading(reader, link, format, payload, cut, order, now_ms, n - 1);
    assert(all.drop_last() =~= all.take(n));
    assert(all.last() == unnumbered(
        MessageView::ClipChunk { index: order[n - 1] as u16, data: cut[order[n - 1]] },
    ));
    lemma_step(link, format, payload, cut, order, n - 1);
    match delivery(format, payload) {
        Some(what) => {
            assert(Seq::<DeliveryView>::empty().push(what) =~= seq![what]);
        },
        None => {},
    }
}

/// A payload that this library announces and sends is received whole by it.
pub proof fn law_transfer_is_received(
    reader: Reader,
    link: Link,
    format: u8,
    payload: Seq<u8>,
    now_ms: u64,
)
    requires
        0 < payload.len() <= u32::MAX,
        chunk_count(payload.len()) <= 0x10000,
        link.incoming.verdict(format, payload.len() as u32) == Verdict::Accepted,
    ensures
        ({
            let (r, l, d) = after_reading(reader, link, transfer(format, payload), now_ms);
            &&& d == (match delivery(format, payload) {
                Some(what) => seq![what],
                None => Seq::empty(),
            })
            &&& l.incoming.reassembly == Reassembly::idle()
            &&& !l.incoming_cancel
        }),
{
    let cut = own_cut(payload);
    let order = Seq::new(cut.len(), |k: int| k);
    law_own_chunks_make_the_payload(payload);
    assert forall|i: int| #[trigger] order.contains(i) <==> 0 <= i < cut.len() by {
        if 0 <= i < cut.len() {
            assert(order[i] == i);
        }
    }
    law_any_transfer_is_received(reader, link, format, payload, cut, order, now_ms);
    assert(arrival(format, payload, cut, order) =~= transfer(format, payload));
}

/// Text that is copied on one side appears on the other as it was.
pub proof fn law_copied_text_appears(reader: Reader, link: Link, text: Seq<char>, now_ms: u64)
    requires
        link.incoming.receive_text,
        0 < encode_utf8(text).len() <= MAX_CLIPBOARD_BYTES,
    ensures
        after_reading(reader, link, transfer(FORMAT_TEXT_UTF8, encode_utf8(text)), now_ms).2
            == seq![DeliveryView::Text { text, hash: bytes_hash(encode_utf8(text)) }],
{
    law_text_arrives(text);
    law_transfer_is_received(reader, link, FORMAT_TEXT_UTF8, encode_utf8(text), now_ms);
}

/// A file that is copied on one side appears on the other under its name and
/// with its content.
pub proof fn law_copied_file_appears(
    reader: Reader,
    link: Link,
    name: Seq<char>,
    content: Seq<u8>,
    now_ms: u64,
)
    requires
        link.incoming.receive_files,
        encode_utf8(name).len() <= link.incoming.file_caps.max_filename_len,
        content.len() <= link.incoming.file_caps.max_file_bytes,
        packed_file(encode_utf8(name), content).len() <= u32::MAX,
        chunk_count(packed_file(encode_utf8(name), content).len()) <= 0x10000,
    ensures
        after_reading(
            reader,
            link,
            transfer(FORMAT_FILE, packed_file(encode_utf8(name), content)),
            now_ms,
        ).2 == seq![DeliveryView::File { name, content, hash: bytes_hash(content) }],
{
    law_file_arrives(name, content);
    law_transfer_is_received(
        reader,
        link,
        FORMAT_FILE,
        packed_file(encode_utf8(name), content),
        now_ms,
    );
}

/// An image that is copied on one side appears on the other as it was: whatever
/// encoding of it travels, what that decodes to is delivered.
pub proof fn law_copied_image_appears(
    reader: Reader,
    link: Link,
    png: Seq<u8>,
    picture: Picture,
    now_ms: u64,
)
    requires
        link.incoming.receive_images,
        0 < png.len() <= MAX_IMAGE_BYTES,
        decoded_picture(png_decoding(png, DECODE_MAX_ALLOC)) == Ok::<Picture, ImageCodecError>(
            picture,
        ),
    ensures
        after_reading(reader, link, transfer(FORMAT_PNG_IMAGE, png), now_ms).2
            == seq![DeliveryView::Image { picture, hash: bytes_hash(picture.rgba) }],
{
    law_transfer_is_received(reader, link, FORMAT_PNG_IMAGE, png, now_ms);
}

/// What one link announced is not completed on the next: whatever was awaited
/// when the link was lost, a chunk that a new reader takes before any offer is
/// dropped and delivers nothing.
pub proof fn law_nothing_outlives_its_link(
    supervisor: Supervisor,
    reader: Reader,
    link: Link,
    index: u16,
    data: Seq<u8>,
)
    requires
        supervisor.phase == SupervisorPhase::Cloning,
    ensures
        ({
            let opened = supervisor.link_after(link, SupervisorEvent::Cloned);
            let chunk = MessageView::ClipChunk { index, data };
            &&& reader.answer(opened, chunk).delivery is None
            &&& reader.link_after_message(opened, chunk).incoming.reassembly.received
                == Map::<u16, Seq<u8>>::empty()
            &&& reader.link_after_message(opened, chunk).incoming.reassembly.expected_len == 0
        }),
{
}

/// What the receiver does not want is never delivered: a declined, oversize or
/// unknown offer awaits nothing, so that the chunks that follow are dropped.
pub proof fn law_refused_offer_awaits_nothing(
    reader: Reader,
    link: Link,
    format: u8,
    total_len: u32,
    index: u16,
    data: Seq<u8>,
    now_ms: u64,
)
    requires
        link.incoming.verdict(format, total_len) != Verdict::Accepted,
    ensures
        ({
            let offer = MessageView::ClipOffer { format, total_len };
            let chunk = MessageView::ClipChunk { index, data };
            let l = reader.link_after_message(link, offer);
            let r = reader.after_message(link, offer, now_ms);
            &&& r.answer(l, chunk) == ReaderAnswer::nothing()
            &&& r.link_after_message(l, chunk).incoming.reassembly == Reassembly::idle()
            &&& reader.answer(link, offer).send == (if link.incoming.verdict(format, total_len)
                == Verdict::Declined {
                Some(unnumbered(MessageView::ClipDecline { format }))
            } else {
                None
            })
        }),
{
}

/// With a direction turned off, nothing of that kind is received, whatever its
/// size.
pub proof fn law_unwanted_kinds_are_refused(incoming: Incoming, total_len: u32)
    ensures
        !incoming.receive_text ==> incoming.verdict(FORMAT_TEXT_UTF8, total_len)
            == Verdict::Declined,
        !incoming.receive_images ==> incoming.verdict(FORMAT_PNG_IMAGE, total_len)
            == Verdict::Declined,
        !incoming.receive_files ==> incoming.verdict(FORMAT_FILE, total_len) == Verdict::Declined,
{
}

} // verus!
