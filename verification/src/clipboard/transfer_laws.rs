//! What holds of a transfer from one end to the other: the payload arrives
//! whole, however it was cut and in whatever order its chunks come, and the
//! counters end at zero.

use vstd::prelude::*;
use vstd::utf8::*;

use crate::clipboard::clip_file::{law_file_round_trip, packed_file};
use crate::clipboard::incoming::{DeliveryView, Reassembly, contiguous, delivery, joined};
use crate::clipboard::outgoing::{chunk_at, chunk_count, chunk_message, transfer};
use crate::clipboard::{CHUNK_SIZE, Outgoing, bytes_hash};
use crate::protocol::{FORMAT_FILE, FORMAT_TEXT_UTF8, PacketView, unnumbered};

verus! {

/// The smaller of two numbers.
pub open spec fn least(a: int, b: int) -> int {
    if a < b {
        a
    } else {
        b
    }
}

/// Chunks, one after the other.
pub open spec fn whole(cut: Seq<Seq<u8>>) -> Seq<u8>
    decreases cut.len(),
{
    if cut.len() == 0 {
        Seq::empty()
    } else {
        whole(cut.drop_last()) + cut.last()
    }
}

/// A payload cut into chunks, in whatever way: none is empty, each has an index,
/// and the length can be announced.
pub open spec fn is_cut(payload: Seq<u8>, cut: Seq<Seq<u8>>) -> bool {
    &&& whole(cut) == payload
    &&& 0 < payload.len() <= u32::MAX
    &&& cut.len() <= 0x10000
    &&& forall|i: int| 0 <= i < cut.len() ==> (#[trigger] cut[i]).len() > 0
}

/// The cut that this side sends.
pub open spec fn own_cut(payload: Seq<u8>) -> Seq<Seq<u8>> {
    Seq::new(chunk_count(payload.len()), |i: int| chunk_at(payload, i))
}

/// An order in which `n` chunks can come: each of them once.
pub open spec fn is_order(order: Seq<int>, n: nat) -> bool {
    &&& order.no_duplicates()
    &&& forall|i: int| #[trigger] order.contains(i) <==> 0 <= i < n
}

/// The indices of the chunks of a cut.
pub open spec fn all_chunks(cut: Seq<Seq<u8>>) -> Set<int> {
    Set::new(|i: int| 0 <= i < cut.len())
}

/// The bytes of those chunks below `n` that are in `got`.
pub open spec fn held(cut: Seq<Seq<u8>>, got: Set<int>, n: nat) -> int
    decreases n,
{
    if n == 0 {
        0
    } else {
        held(cut, got, (n - 1) as nat) + if got.contains(n - 1) {
            cut[n - 1].len() as int
        } else {
            0
        }
    }
}

/// A reassembly in which exactly the chunks in `got` have arrived.
pub open spec fn holding(format: u8, cut: Seq<Seq<u8>>, got: Set<int>) -> Reassembly {
    let bytes = held(cut, got, cut.len());
    Reassembly {
        expected_len: whole(cut).len() as u32,
        expected_format: format,
        received: Map::new(|k: u16| got.contains(k as int), |k: u16| cut[k as int]),
        received_total: bytes as u32,
        progress: bytes as u64,
        total: whole(cut).len() as u64,
    }
}

proof fn lemma_chunk_len(payload: Seq<u8>, i: int)
    requires
        0 <= i < chunk_count(payload.len()),
    ensures
        0 <= i * CHUNK_SIZE < payload.len(),
        chunk_at(payload, i).len() == least((i + 1) * CHUNK_SIZE, payload.len() as int) - i
            * CHUNK_SIZE,
        chunk_at(payload, i).len() >= 1,
        chunk_at(payload, i).len() <= CHUNK_SIZE,
{
}

proof fn lemma_own_cut_up_to(payload: Seq<u8>, n: nat)
    requires
        n <= chunk_count(payload.len()),
    ensures
        whole(own_cut(payload).take(n as int)) == payload.take(
            least(n * CHUNK_SIZE, payload.len() as int),
        ),
    decreases n,
{
    let part = own_cut(payload).take(n as int);
    if n == 0 {
        assert(payload.take(0) =~= Seq::empty());
    } else {
        lemma_own_cut_up_to(payload, (n - 1) as nat);
        lemma_chunk_len(payload, n - 1);
        assert(part.drop_last() =~= own_cut(payload).take(n - 1));
        assert(part.last() == chunk_at(payload, n - 1));
        assert(whole(part) =~= payload.take(least(n * CHUNK_SIZE, payload.len() as int)));
    }
}

/// What this side sends is a cut of the payload.
pub proof fn law_own_chunks_make_the_payload(payload: Seq<u8>)
    requires
        0 < payload.len() <= u32::MAX,
        chunk_count(payload.len()) <= 0x10000,
    ensures
        is_cut(payload, own_cut(payload)),
{
    let n = chunk_count(payload.len());
    lemma_own_cut_up_to(payload, n);
    assert(own_cut(payload).take(n as int) =~= own_cut(payload));
    assert(payload.take(payload.len() as int) =~= payload);
    assert forall|i: int| 0 <= i < own_cut(payload).len() implies (
    #[trigger] own_cut(payload)[i]).len() > 0 by {
        lemma_chunk_len(payload, i);
    }
}

proof fn lemma_held_insert(cut: Seq<Seq<u8>>, got: Set<int>, n: nat, i: int)
    requires
        !got.contains(i),
        i >= 0,
    ensures
        held(cut, got.insert(i), n) == held(cut, got, n) + (if i < n {
            cut[i].len() as int
        } else {
            0
        }),
    decreases n,
{
    if n > 0 {
        lemma_held_insert(cut, got, (n - 1) as nat, i);
    }
}

proof fn lemma_held_all(cut: Seq<Seq<u8>>, n: nat)
    requires
        n <= cut.len(),
    ensures
        held(cut, all_chunks(cut), n) == whole(cut.take(n as int)).len(),
    decreases n,
{
    if n > 0 {
        lemma_held_all(cut, (n - 1) as nat);
        assert(cut.take(n as int).drop_last() =~= cut.take(n - 1));
        assert(cut.take(n as int).last() == cut[n - 1]);
    }
}

proof fn lemma_held_at_most_all(cut: Seq<Seq<u8>>, got: Set<int>, n: nat)
    requires
        n <= cut.len(),
    ensures
        0 <= held(cut, got, n) <= held(cut, all_chunks(cut), n),
    decreases n,
{
    if n > 0 {
        lemma_held_at_most_all(cut, got, (n - 1) as nat);
    }
}

proof fn lemma_held_bounds(payload: Seq<u8>, cut: Seq<Seq<u8>>, got: Set<int>)
    requires
        is_cut(payload, cut),
        got.subset_of(all_chunks(cut)),
    ensures
        0 <= held(cut, got, cut.len()) <= payload.len(),
        got == all_chunks(cut) ==> held(cut, got, cut.len()) == payload.len(),
        got != all_chunks(cut) ==> held(cut, got, cut.len()) < payload.len(),
{
    let n = cut.len();
    let all = all_chunks(cut);
    lemma_held_all(cut, n);
    assert(cut.take(n as int) =~= cut);
    lemma_held_at_most_all(cut, got, n);
    if got != all {
        assert(exists|k: int| all.contains(k) && !got.contains(k)) by {
            if forall|k: int| all.contains(k) ==> got.contains(k) {
                assert(got =~= all);
            }
        }
        let k = choose|k: int| all.contains(k) && !got.contains(k);
        lemma_held_insert(cut, got, n, k);
        lemma_held_at_most_all(cut, got.insert(k), n);
        assert(cut[k].len() > 0);
    }
}

proof fn lemma_u16_below(n: int)
    requires
        0 <= n <= 0x10000,
    ensures
        Set::new(|k: u16| (k as int) < n).finite(),
        Set::new(|k: u16| (k as int) < n).len() == n,
    decreases n,
{
    let s = Set::new(|k: u16| (k as int) < n);
    if n == 0 {
        assert(s =~= Set::empty());
    } else {
        lemma_u16_below(n - 1);
        let t = Set::new(|k: u16| (k as int) < n - 1);
        assert(s =~= t.insert((n - 1) as u16));
        assert(!t.contains((n - 1) as u16));
    }
}

proof fn lemma_joined(cut: Seq<Seq<u8>>, chunks: Map<u16, Seq<u8>>, n: nat)
    requires
        n <= cut.len() <= 0x10000,
        forall|k: u16| (k as int) < cut.len() ==> #[trigger] chunks[k] == cut[k as int],
    ensures
        joined(chunks, n) == whole(cut.take(n as int)),
    decreases n,
{
    if n > 0 {
        lemma_joined(cut, chunks, (n - 1) as nat);
        let k = (n - 1) as u16;
        assert(chunks[k] == cut[n - 1]);
        assert(cut.take(n as int).drop_last() =~= cut.take(n - 1));
        assert(cut.take(n as int).last() == cut[n - 1]);
    }
}

pub(crate) proof fn lemma_chunk_arrives(
    format: u8,
    payload: Seq<u8>,
    cut: Seq<Seq<u8>>,
    got: Set<int>,
    i: int,
)
    requires
        is_cut(payload, cut),
        got.subset_of(all_chunks(cut)),
        all_chunks(cut).contains(i),
        !got.contains(i),
    ensures
        holding(format, cut, got).after_chunk(i as u16, cut[i]) == (if got.insert(i) == all_chunks(
            cut,
        ) {
            (Reassembly::idle(), Some(payload))
        } else {
            (holding(format, cut, got.insert(i)), None)
        }),
{
    let n = cut.len();
    let all = all_chunks(cut);
    let st = holding(format, cut, got);
    let more = got.insert(i);
    lemma_held_bounds(payload, cut, got);
    lemma_held_bounds(payload, cut, more);
    lemma_held_insert(cut, got, n, i);
    assert((i as u16) as int == i);
    let next = st.with_chunk(i as u16, cut[i]);
    let want = holding(format, cut, more);
    assert(next.received =~= want.received) by {
        assert forall|k: u16| next.received.contains_key(k) implies next.received[k]
            == want.received[k] by {}
    }
    assert(next =~= want);
    if more == all {
        assert(want.received.dom() =~= Set::new(|k: u16| (k as int) < n));
        lemma_u16_below(n as int);
        assert(want.received.len() == n);
        assert(contiguous(want.received));
        lemma_joined(cut, want.received, n);
        assert(cut.take(n as int) =~= cut);
    }
}

/// What chunks make of a reassembly, taken in the order that `order` gives.
pub open spec fn after_chunks(
    st: Reassembly,
    cut: Seq<Seq<u8>>,
    order: Seq<int>,
) -> (Reassembly, Option<Seq<u8>>)
    decreases order.len(),
{
    if order.len() == 0 {
        (st, None)
    } else {
        after_chunks(st, cut, order.drop_last()).0.after_chunk(
            order.last() as u16,
            cut[order.last()],
        )
    }
}

/// A payload that was announced arrives whole, however it was cut and in
/// whatever order its chunks come: the last chunk brings it out, none before
/// does, and the receiver is then ready for the next offer.
pub proof fn law_payload_arrives_whole(
    format: u8,
    payload: Seq<u8>,
    cut: Seq<Seq<u8>>,
    order: Seq<int>,
)
    requires
        is_cut(payload, cut),
        is_order(order, cut.len()),
    ensures
        after_chunks(Reassembly::armed(format, payload.len() as u32), cut, order) == (
            Reassembly::idle(),
            Some(payload),
        ),
        forall|k: int|
            0 <= k < order.len() ==> (#[trigger] after_chunks(
                Reassembly::armed(format, payload.len() as u32),
                cut,
                order.take(k),
            )).1 is None,
{
    assert forall|k: int| 0 <= k < order.len() implies (#[trigger] after_chunks(
        Reassembly::armed(format, payload.len() as u32),
        cut,
        order.take(k),
    )).1 is None by {
        lemma_prefix_arrives(format, payload, cut, order, k);
    }
    lemma_order_is_not_empty(payload, cut, order);
    lemma_prefix_arrives(format, payload, cut, order, order.len() as int);
    assert(order.take(order.len() as int) =~= order);
}

pub(crate) proof fn lemma_order_is_not_empty(
    payload: Seq<u8>,
    cut: Seq<Seq<u8>>,
    order: Seq<int>,
)
    requires
        is_cut(payload, cut),
        is_order(order, cut.len()),
    ensures
        order.len() > 0,
{
    assert(cut.len() > 0);
    assert(order.contains(0));
}

/// What has come after `k` of the chunks: not the one that comes next, and all
/// of them only at the end.
pub(crate) proof fn lemma_prefix_of_order(cut: Seq<Seq<u8>>, order: Seq<int>, k: int)
    requires
        is_order(order, cut.len()),
        0 <= k < order.len(),
    ensures
        order.take(k).to_set().subset_of(all_chunks(cut)),
        all_chunks(cut).contains(order[k]),
        !order.take(k).to_set().contains(order[k]),
        order.take(k).to_set().insert(order[k]) == order.take(k + 1).to_set(),
        order.take(k + 1).to_set() == all_chunks(cut) <==> k + 1 == order.len(),
{
    let prefix = order.take(k);
    let next = order.take(k + 1);
    let i = order[k];
    let got = prefix.to_set();
    let all = all_chunks(cut);
    assert(order.contains(i));
    if prefix.contains(i) {
        let j = choose|j: int| 0 <= j < prefix.len() && prefix[j] == i;
        assert(order[j] == i);
    }
    assert forall|x: int| got.contains(x) implies all.contains(x) by {
        let j = choose|j: int| 0 <= j < prefix.len() && prefix[j] == x;
        assert(order[j] == x);
        assert(order.contains(x));
    }
    assert(got.insert(i) =~= next.to_set()) by {
        assert forall|x: int| got.insert(i).contains(x) <==> next.to_set().contains(x) by {
            if got.contains(x) {
                let j = choose|j: int| 0 <= j < prefix.len() && prefix[j] == x;
                assert(next[j] == x);
            }
            if x == i {
                assert(next[k] == x);
            }
            if next.contains(x) {
                let j = choose|j: int| 0 <= j < next.len() && next[j] == x;
                if j < k {
                    assert(prefix[j] == x);
                }
            }
        }
    }
    if k + 1 < order.len() {
        let last = order[k + 1];
        assert(order.contains(last));
        assert(all.contains(last));
        if next.contains(last) {
            let m = choose|m: int| 0 <= m < next.len() && next[m] == last;
            assert(order[m] == last);
        }
        assert(!next.to_set().contains(last));
    } else {
        assert(next =~= order);
        assert(order.to_set() =~= all) by {
            assert forall|x: int| order.to_set().contains(x) <==> all.contains(x) by {
                assert(order.contains(x) <==> 0 <= x < cut.len());
            }
        }
    }
}

proof fn lemma_prefix_arrives(
    format: u8,
    payload: Seq<u8>,
    cut: Seq<Seq<u8>>,
    order: Seq<int>,
    k: int,
)
    requires
        is_cut(payload, cut),
        is_order(order, cut.len()),
        0 <= k <= order.len(),
        order.len() > 0,
    ensures
        after_chunks(Reassembly::armed(format, payload.len() as u32), cut, order.take(k)) == (if k
            < order.len() {
            (holding(format, cut, order.take(k).to_set()), None)
        } else {
            (Reassembly::idle(), Some(payload))
        }),
    decreases k,
{
    if k == 0 {
        lemma_nothing_held(format, payload, cut);
        assert(order.take(0).to_set() =~= Set::empty());
    } else {
        lemma_prefix_arrives(format, payload, cut, order, k - 1);
        assert(order.take(k).drop_last() =~= order.take(k - 1));
        assert(order.take(k).last() == order[k - 1]);
        lemma_prefix_of_order(cut, order, k - 1);
        lemma_chunk_arrives(format, payload, cut, order.take(k - 1).to_set(), order[k - 1]);
    }
}

proof fn lemma_held_empty(cut: Seq<Seq<u8>>, n: nat)
    ensures
        held(cut, Set::empty(), n) == 0,
    decreases n,
{
    if n > 0 {
        lemma_held_empty(cut, (n - 1) as nat);
    }
}

pub(crate) proof fn lemma_nothing_held(format: u8, payload: Seq<u8>, cut: Seq<Seq<u8>>)
    requires
        is_cut(payload, cut),
    ensures
        holding(format, cut, Set::empty()) == Reassembly::armed(format, payload.len() as u32),
{
    lemma_held_empty(cut, cut.len());
    assert(holding(format, cut, Set::empty()) =~= Reassembly::armed(format, payload.len() as u32));
}

/// A text that was sent arrives as the same text.
pub proof fn law_text_arrives(text: Seq<char>)
    ensures
        delivery(FORMAT_TEXT_UTF8, encode_utf8(text)) == Some(
            DeliveryView::Text { text, hash: bytes_hash(encode_utf8(text)) },
        ),
{
    encode_utf8_valid_utf8(text);
    encode_utf8_decode_utf8(text);
}

/// A file that was sent arrives under the same name with the same content.
pub proof fn law_file_arrives(name: Seq<char>, content: Seq<u8>)
    requires
        encode_utf8(name).len() <= u16::MAX,
    ensures
        delivery(FORMAT_FILE, packed_file(encode_utf8(name), content)) == Some(
            DeliveryView::File { name, content, hash: bytes_hash(content) },
        ),
{
    law_file_round_trip(name, content);
}

/// A chunk that nobody announced is dropped: nothing is stored.
pub proof fn law_unannounced_chunk_is_dropped(st: Reassembly, index: u16, data: Seq<u8>)
    requires
        st.expected_len == 0,
    ensures
        st.after_chunk(index, data) == (st, None::<Seq<u8>>),
{
}

/// A repeated chunk does not count twice: no payload comes out early.
pub proof fn law_repeated_chunk_counts_once(st: Reassembly, index: u16, first: Seq<u8>, again: Seq<u8>)
    ensures
        st.with_chunk(index, first).with_chunk(index, again).received_total == st.with_chunk(
            index,
            first,
        ).received_total,
        st.with_chunk(index, first).with_chunk(index, again).progress == st.with_chunk(
            index,
            first,
        ).progress,
{
}

/// Only a payload of the announced length, without a gap, ever comes out.
pub proof fn law_payload_has_announced_length(st: Reassembly, index: u16, data: Seq<u8>)
    ensures
        st.after_chunk(index, data).1 matches Some(bytes) ==> bytes.len() as u32
            == st.expected_len && contiguous(st.received.insert(index, data)),
{
}

/// What packets that went out make of the counters.
pub open spec fn after_packets(o: Outgoing, packets: Seq<PacketView>) -> Outgoing
    decreases packets.len(),
{
    if packets.len() == 0 {
        o
    } else {
        after_packets(o, packets.drop_last()).after(packets.last().message)
    }
}

/// While a payload goes out the counters show how much of it did; when the
/// last packet is out they are zero. The name of a file is kept until the file
/// itself is out: neither text nor an image clears it.
pub proof fn law_counters_follow_the_wire(o: Outgoing, format: u8, payload: Seq<u8>)
    requires
        0 < payload.len() <= u32::MAX,
    ensures
        forall|k: int|
            0 <= k < chunk_count(payload.len()) ==> #[trigger] after_packets(
                o,
                transfer(format, payload).take(k + 1),
            ) == (Outgoing {
                progress: (k * CHUNK_SIZE) as u64,
                total: payload.len() as u64,
                format,
                label: o.label,
            }),
        after_packets(o, transfer(format, payload)) == (Outgoing {
            progress: 0,
            total: 0,
            format,
            label: if format == FORMAT_FILE {
                Seq::empty()
            } else {
                o.label
            },
        }),
{
    let n = chunk_count(payload.len());
    let all = transfer(format, payload);
    assert forall|k: int| 0 <= k < n implies #[trigger] after_packets(o, all.take(k + 1)) == (
    Outgoing {
        progress: (k * CHUNK_SIZE) as u64,
        total: payload.len() as u64,
        format,
        label: o.label,
    }) by {
        lemma_counters(o, format, payload, k);
    }
    lemma_counters(o, format, payload, n - 1);
    lemma_chunk_len(payload, n - 1);
    assert(all.drop_last() =~= all.take(n as int));
    assert(all.last() == unnumbered(chunk_message(payload, n - 1)));
}

proof fn lemma_counters(o: Outgoing, format: u8, payload: Seq<u8>, k: int)
    requires
        0 < payload.len() <= u32::MAX,
        0 <= k < chunk_count(payload.len()),
    ensures
        after_packets(o, transfer(format, payload).take(k + 1)) == (Outgoing {
            progress: (k * CHUNK_SIZE) as u64,
            total: payload.len() as u64,
            format,
            label: o.label,
        }),
    decreases k,
{
    let all = transfer(format, payload);
    let sent = all.take(k + 1);
    assert(sent.drop_last() =~= all.take(k));
    if k == 0 {
        assert(all.take(0) =~= Seq::empty());
        assert(after_packets(o, all.take(0)) == o);
        assert(sent.last() == all[0]);
    } else {
        lemma_counters(o, format, payload, k - 1);
        lemma_chunk_len(payload, k - 1);
        lemma_chunk_len(payload, k);
        assert(sent.last() == unnumbered(chunk_message(payload, k - 1)));
    }
}

/// Of two chunks under one index the later one counts, and the others stay as
/// they came.
pub proof fn law_later_chunk_replaces_the_earlier(
    st: Reassembly,
    index: u16,
    first: Seq<u8>,
    again: Seq<u8>,
    other: u16,
)
    ensures
        st.with_chunk(index, first).with_chunk(index, again).received == st.received.insert(
            index,
            again,
        ),
        other != index && st.received.contains_key(other) ==> st.with_chunk(index, first).received[other]
            == st.received[other],
        st.with_chunk(index, first).expected_len == st.expected_len,
        st.with_chunk(index, first).expected_format == st.expected_format,
        st.with_chunk(index, first).total == st.total,
{
    assert(st.with_chunk(index, first).with_chunk(index, again).received =~= st.received.insert(
        index,
        again,
    ));
}

/// Once as many bytes have come as were announced the receiver is free for the
/// next offer, whatever they make; a gap among the chunks, or more bytes than
/// announced, make nothing.
pub proof fn law_receiver_is_free_when_all_has_come(st: Reassembly, index: u16, data: Seq<u8>)
    requires
        st.expected_len > 0,
        !st.received.contains_key(index),
        data.len() <= u32::MAX,
        st.received_total + data.len() >= st.expected_len,
    ensures
        st.after_chunk(index, data).0.expected_len == 0,
        st.after_chunk(index, data).0.received == Map::<u16, Seq<u8>>::empty(),
        st.after_chunk(index, data).0.progress == 0 && st.after_chunk(index, data).0.total == 0,
        st.received == Map::<u16, Seq<u8>>::empty() && index > 0 ==> st.after_chunk(index, data).1
            is None,
        st.received == Map::<u16, Seq<u8>>::empty() && index == 0 && data.len() != st.expected_len
            ==> st.after_chunk(index, data).1 is None,
{
    let next = st.received.insert(index, data);
    if st.received == Map::<u16, Seq<u8>>::empty() {
        assert(next.dom() =~= set![index]);
        assert(next.len() == 1);
        if index > 0 {
            assert(!next.contains_key(0u16));
            assert(!contiguous(next)) by {
                if contiguous(next) {
                    assert(next.contains_key(0int as u16));
                }
            }
        } else {
            reveal_with_fuel(joined, 2);
            assert(joined(next, 1) =~= data);
        }
    }
}

} // verus!
