//! How a payload leaves this machine: an offer, then the chunks. And how a
//! copied file becomes a payload.

use vstd::prelude::*;
use vstd::slice::{slice_subrange, slice_to_vec};
use vstd::string::*;
use vstd::utf8::*;

use crate::clipboard::clip_file::{
    UnpackError, law_file_round_trip, pack_first_chunk, packed_file, unpacked_file,
};
use crate::clipboard::{CHUNK_SIZE, FileTooLarge, bytes_hash, check_file_size, hash_bytes};
use crate::protocol::{Message, MessageView, Packet, PacketView, packet_views, unnumbered};

verus! {

/// How many chunks a payload of `len` bytes takes.
pub open spec fn chunk_count(len: nat) -> nat {
    (len + CHUNK_SIZE - 1) as nat / CHUNK_SIZE as nat
}

/// The chunk number `i` of a payload. All are full but perhaps the last.
pub open spec fn chunk_at(payload: Seq<u8>, i: int) -> Seq<u8> {
    payload.subrange(
        i * CHUNK_SIZE,
        if (i + 1) * CHUNK_SIZE < payload.len() {
            (i + 1) * CHUNK_SIZE
        } else {
            payload.len() as int
        },
    )
}

/// The message that carries chunk `i` of a payload.
pub open spec fn chunk_message(payload: Seq<u8>, i: int) -> MessageView {
    MessageView::ClipChunk { index: i as u16, data: chunk_at(payload, i) }
}

/// The packets that carry a payload: the offer, then the chunks in order.
pub open spec fn transfer(format: u8, payload: Seq<u8>) -> Seq<PacketView> {
    seq![unnumbered(MessageView::ClipOffer { format, total_len: payload.len() as u32 })]
        + Seq::new(chunk_count(payload.len()), |i: int| unnumbered(chunk_message(payload, i)))
}

/// Queues the packets that carry a payload.
pub fn emit_offer_and_chunks(outgoing: &mut Vec<Packet>, format: u8, payload: &[u8])
    ensures
        packet_views(final(outgoing)@) == packet_views(old(outgoing)@) + transfer(format, payload@),
{
    let ghost before = packet_views(outgoing@);
    let total: usize = payload.len();
    outgoing.push(Packet::new(Message::ClipOffer { format, total_len: total as u32 }, 0));
    let ghost all = transfer(format, payload@);
    let mut start: usize = 0;
    let mut idx: usize = 0;
    assert(packet_views(outgoing@) =~= before + all.take(1));
    while start < total
        invariant
            total == payload@.len(),
            all == transfer(format, payload@),
            idx <= chunk_count(total as nat),
            start == (if idx * CHUNK_SIZE < total { idx * CHUNK_SIZE } else { total as int }),
            start == total ==> idx == chunk_count(total as nat),
            packet_views(outgoing@) == before + all.take(idx + 1),
        decreases total - start,
    {
        let end: usize = if total - start > CHUNK_SIZE {
            start + CHUNK_SIZE
        } else {
            total
        };
        let data = slice_to_vec(slice_subrange(payload, start, end));
        assert(data@ =~= chunk_at(payload@, idx as int));
        let ghost sent = outgoing@;
        outgoing.push(Packet::new(Message::ClipChunk { index: idx as u16, data }, 0));
        assert(packet_views(outgoing@) =~= packet_views(sent).push(
            unnumbered(chunk_message(payload@, idx as int)),
        ));
        start = end;
        idx = idx + 1;
        assert(packet_views(outgoing@) =~= before + all.take(idx + 1));
    }
    assert(all.take(idx + 1) =~= all);
}

/// A file found on the clipboard.
#[derive(Debug, Clone, PartialEq, Eq)]
pub enum FilePollOutcome {
    /// Read and packed.
    Ready { name: String, hash: u64, packed: Vec<u8> },
    /// Over the limit; recognised by its path.
    Oversize { path_hash: u64, err: FileTooLarge },
    /// Not usable, and why.
    Skipped(&'static str),
}

/// `FilePollOutcome` as a mathematical value.
#[verifier::ext_equal]
pub enum FileFound {
    Ready { name: Seq<char>, hash: u64, packed: Seq<u8> },
    Oversize { path_hash: u64, size_bytes: nat },
    Skipped { reason: Seq<char> },
}

impl View for FilePollOutcome {
    type V = FileFound;

    open spec fn view(&self) -> FileFound {
        match *self {
            FilePollOutcome::Ready { name, hash, packed } => FileFound::Ready {
                name: name@,
                hash,
                packed: packed@,
            },
            FilePollOutcome::Oversize { path_hash, err } => FileFound::Oversize {
                path_hash,
                size_bytes: err.size_bytes as nat,
            },
            FilePollOutcome::Skipped(reason) => FileFound::Skipped { reason: reason@ },
        }
    }
}

/// Looks at a file's name and size before its content is read. `name` is the
/// last part of the path where it is UTF-8, `size` what the file system says.
/// Returns `None` where the content is to be read.
pub fn check_file_found(
    name: Option<&str>,
    path: &str,
    size: Option<u64>,
    limit: usize,
) -> (r: Option<FilePollOutcome>)
    ensures
        match r {
            None => name is Some && name->0@.len() > 0 && size is Some && size->0 <= limit,
            Some(found) => found@ == (if name is None || name->0@.len() == 0 {
                FileFound::Skipped { reason: "empty or non-UTF-8 basename"@ }
            } else if size is None {
                FileFound::Skipped { reason: "stat failed"@ }
            } else if size->0 > usize::MAX {
                FileFound::Skipped { reason: "file larger than usize"@ }
            } else {
                FileFound::Oversize {
                    path_hash: bytes_hash(path.spec_bytes()),
                    size_bytes: size->0 as nat,
                }
            }),
        },
        r is None <==> name is Some && name->0@.len() > 0 && size is Some && size->0 <= limit,
{
    let named = match name {
        Some(n) => !n.is_empty(),
        None => false,
    };
    if !named {
        return Some(FilePollOutcome::Skipped("empty or non-UTF-8 basename"));
    }
    let bytes: u64 = match size {
        Some(s) => s,
        None => return Some(FilePollOutcome::Skipped("stat failed")),
    };
    if bytes > usize::MAX as u64 {
        return Some(FilePollOutcome::Skipped("file larger than usize"));
    }
    match check_file_size(bytes as usize, limit) {
        Err(err) => Some(
            FilePollOutcome::Oversize { path_hash: hash_bytes(path.as_bytes()), err },
        ),
        Ok(()) => None,
    }
}

/// Packs a file whose content was read, or not (`None`). A file is recognised
/// by its content, whatever its name.
pub fn pack_file_or_warn(
    name: &str,
    content: Option<Vec<u8>>,
    max_filename_len: u16,
) -> (r: FilePollOutcome)
    ensures
        r@ == (match content {
            None => FileFound::Skipped { reason: "read failed"@ },
            Some(bytes) => if name.spec_bytes().len() > max_filename_len {
                FileFound::Skipped { reason: "pack failed"@ }
            } else {
                FileFound::Ready {
                    name: name@,
                    hash: bytes_hash(bytes@),
                    packed: packed_file(name.spec_bytes(), bytes@),
                }
            },
        }),
{
    let bytes = match content {
        Some(b) => b,
        None => return FilePollOutcome::Skipped("read failed"),
    };
    let hash: u64 = hash_bytes(bytes.as_slice());
    match pack_first_chunk(name, bytes.as_slice(), max_filename_len) {
        Some(packed) => FilePollOutcome::Ready { name: name.to_owned(), hash, packed },
        None => FilePollOutcome::Skipped("pack failed"),
    }
}

/// A file that was on the clipboard when the client started.
#[derive(Debug, Clone, PartialEq, Eq)]
pub enum FilePreStampOutcome {
    /// Read; it counts as seen.
    Stamped { name: String, hash: u64 },
    /// Over the limit; it does not count as seen.
    Oversize { size_bytes: usize },
    /// Not usable, and why.
    Skipped(&'static str),
}

/// Looks at a file that was on the clipboard when the client started, before
/// its content is read. Returns `None` where the content is to be read.
pub fn check_file_at_start(name: Option<&str>, size: Option<u64>, limit: usize) -> (r: Option<
    FilePreStampOutcome,
>)
    ensures
        r is None <==> name is Some && name->0@.len() > 0 && size is Some && size->0 <= limit,
        r matches Some(found) ==> match found {
            FilePreStampOutcome::Stamped { .. } => false,
            FilePreStampOutcome::Oversize { size_bytes } => name is Some && name->0@.len() > 0
                && size is Some && limit < size->0 && size->0 == size_bytes,
            FilePreStampOutcome::Skipped(reason) => if name is None || name->0@.len() == 0 {
                reason@ == "empty or non-UTF-8 basename"@
            } else if size is None {
                reason@ == "stat failed"@
            } else {
                size->0 > usize::MAX && reason@ == "file larger than usize"@
            },
        },
{
    let named = match name {
        Some(n) => !n.is_empty(),
        None => false,
    };
    if !named {
        return Some(FilePreStampOutcome::Skipped("empty or non-UTF-8 basename"));
    }
    let bytes: u64 = match size {
        Some(s) => s,
        None => return Some(FilePreStampOutcome::Skipped("stat failed")),
    };
    if bytes > usize::MAX as u64 {
        return Some(FilePreStampOutcome::Skipped("file larger than usize"));
    }
    match check_file_size(bytes as usize, limit) {
        Err(err) => Some(FilePreStampOutcome::Oversize { size_bytes: err.size_bytes }),
        Ok(()) => None,
    }
}

/// What is to be remembered of a file that was on the clipboard at the start.
pub fn pre_stamp_file_path(name: &str, content: Option<Vec<u8>>) -> (r: FilePreStampOutcome)
    ensures
        match r {
            FilePreStampOutcome::Stamped { name: n, hash } => n@ == name@ && content is Some
                && hash == bytes_hash(content->0@),
            FilePreStampOutcome::Oversize { .. } => false,
            FilePreStampOutcome::Skipped(reason) => content is None && reason@ == "read failed"@,
        },
{
    match content {
        Some(bytes) => FilePreStampOutcome::Stamped {
            name: name.to_owned(),
            hash: hash_bytes(bytes.as_slice()),
        },
        None => FilePreStampOutcome::Skipped("read failed"),
    }
}

/// A payload goes out as an offer that announces its format and its length, and
/// chunks that count up from zero, each of 1024 bytes but the last, which is not
/// empty.
pub proof fn law_payload_is_announced_and_cut(format: u8, payload: Seq<u8>, i: int)
    requires
        payload.len() <= u32::MAX,
    ensures
        ({
            let all = transfer(format, payload);
            &&& all.len() >= 1
            &&& all[0] == (PacketView {
                message: MessageView::ClipOffer { format, total_len: payload.len() as u32 },
                seq: 0,
            })
            &&& (all.len() - 1) * 1024 >= payload.len()
            &&& all.len() > 1 ==> (all.len() - 2) * 1024 < payload.len()
            &&& 1 <= i < all.len() ==> {
                &&& all[i].seq == 0
                &&& (all[i].message matches MessageView::ClipChunk { index, data } && index == (i
                    - 1) as u16 && 0 < data.len() <= 1024 && (i < all.len() - 1 ==> data.len()
                    == 1024))
            }
        }),
{
}

/// What is queued comes behind what was queued before, and is the payload's
/// transfer.
pub proof fn law_queued_payload_comes_last(out: &mut Vec<Packet>, format: u8, payload: &[u8])
    requires
        call_ensures(emit_offer_and_chunks, (out, format, payload), ()),
    ensures
        packet_views(final(out)@) == packet_views(old(out)@) + transfer(format, payload@),
{
}

/// A file is read exactly where it has a name, its size is known and it is no
/// larger than the limit. One that is too large is told by its size, anything
/// else is passed over.
pub proof fn law_file_is_read_within_the_limit(
    name: Option<&str>,
    path: &str,
    size: Option<u64>,
    limit: usize,
    r: Option<FilePollOutcome>,
    at_start: Option<FilePreStampOutcome>,
)
    requires
        call_ensures(check_file_found, (name, path, size, limit), r),
        call_ensures(check_file_at_start, (name, size, limit), at_start),
    ensures
        r is None <==> name is Some && name->0@.len() > 0 && size is Some && size->0 <= limit,
        r is None <==> at_start is None,
        name is Some && name->0@.len() > 0 && size is Some && limit < size->0 <= usize::MAX ==> {
            &&& (r matches Some(found) && found@ == (FileFound::Oversize {
                path_hash: bytes_hash(path.spec_bytes()),
                size_bytes: size->0 as nat,
            }))
            &&& at_start matches Some(FilePreStampOutcome::Oversize { size_bytes }) && size_bytes
                == size->0
        },
        name is None || name->0@.len() == 0 || size is None ==> {
            &&& (r matches Some(found) && found@ is Skipped)
            &&& (at_start matches Some(found) && found is Skipped)
        },
{
}

/// A file that was read is packed under its name with its content, so that it
/// unpacks to both, and is recognised by its content alone.
pub proof fn law_read_file_is_packed_whole(
    name: &str,
    content: Option<Vec<u8>>,
    longest: u16,
    r: FilePollOutcome,
)
    requires
        call_ensures(pack_file_or_warn, (name, content, longest), r),
    ensures
        content is None ==> r@ is Skipped,
        content matches Some(bytes) ==> {
            &&& encode_utf8(name@).len() > longest ==> r@ is Skipped
            &&& encode_utf8(name@).len() <= longest ==> (r@ matches FileFound::Ready {
                name: n,
                hash,
                packed,
            } && n == name@ && hash == bytes_hash(bytes@) && unpacked_file(packed) == Ok::<
                _,
                UnpackError,
            >((name@, bytes@)))
        },
{
    if let Some(bytes) = content {
        if encode_utf8(name@).len() <= longest {
            law_file_round_trip(name@, bytes@);
        }
    }
}

/// A file that was on the clipboard at the start is remembered by its content.
pub proof fn law_file_at_the_start_is_stamped(
    name: &str,
    content: Option<Vec<u8>>,
    r: FilePreStampOutcome,
)
    requires
        call_ensures(pre_stamp_file_path, (name, content), r),
    ensures
        content matches Some(bytes) ==> (r matches FilePreStampOutcome::Stamped { name: n, hash }
            && n@ == name@ && hash == bytes_hash(bytes@)),
        content is None ==> r is Skipped,
{
}

} // verus!
