//! A file as one clipboard payload: the length of its name (two bytes, low
//! byte first), the name, the content.

use vstd::prelude::*;
use vstd::slice::{slice_subrange, slice_to_vec};
use vstd::string::*;
use vstd::utf8::*;

use crate::text::string_from_utf8;

verus! {

/// The sizes that client and host agree on for files.
#[derive(Debug, Clone, Copy, PartialEq, Eq, Structural)]
pub struct FileCaps {
    /// The largest content, in bytes.
    pub max_file_bytes: u32,
    /// The longest name, in bytes.
    pub max_filename_len: u16,
}

impl FileCaps {
    /// The largest payload: content, name and the name's length.
    pub open spec fn payload_cap(self) -> int {
        self.max_file_bytes + self.max_filename_len + 2
    }

    /// The largest payload: content, name and the name's length.
    pub fn max_payload_bytes(&self) -> (r: u64)
        ensures
            r == self.payload_cap(),
    {
        self.max_file_bytes as u64 + self.max_filename_len as u64 + 2
    }
}

/// Name and content as one payload.
pub open spec fn packed_file(name: Seq<u8>, content: Seq<u8>) -> Seq<u8> {
    seq![(name.len() % 256) as u8, (name.len() / 256) as u8] + name + content
}

/// The length that the first two bytes give.
pub open spec fn packed_name_len(payload: Seq<u8>) -> int {
    payload[0] + payload[1] * 256
}

/// Why a payload is no file.
#[derive(Debug, Clone, Copy, PartialEq, Eq, Structural)]
pub enum UnpackError {
    /// The payload ends within the name.
    Truncated,
    /// The name is not UTF-8.
    BadName,
}

/// Name and content that a payload holds.
pub open spec fn unpacked_file(payload: Seq<u8>) -> Result<(Seq<char>, Seq<u8>), UnpackError> {
    if payload.len() < 2 || 2 + packed_name_len(payload) > payload.len() {
        Err(UnpackError::Truncated)
    } else {
        let n = packed_name_len(payload);
        let name = payload.subrange(2, 2 + n);
        if valid_utf8(name) {
            Ok((decode_utf8(name), payload.subrange(2 + n, payload.len() as int)))
        } else {
            Err(UnpackError::BadName)
        }
    }
}

pub(crate) fn push_all(out: &mut Vec<u8>, bytes: &[u8])
    ensures
        final(out)@ == old(out)@ + bytes@,
{
    let n: usize = bytes.len();
    let mut i: usize = 0;
    let ghost start = out@;
    while i < n
        invariant
            n == bytes@.len(),
            i <= n,
            out@ == start + bytes@.take(i as int),
        decreases n - i,
    {
        out.push(bytes[i]);
        i = i + 1;
        assert(out@ =~= start + bytes@.take(i as int));
    }
    assert(bytes@.take(n as int) =~= bytes@);
}

/// Packs a file. Fails exactly where the name is longer than the limit.
pub fn pack_first_chunk(name: &str, content: &[u8], max_filename_len: u16) -> (r: Option<Vec<u8>>)
    ensures
        r is None <==> name.spec_bytes().len() > max_filename_len,
        r matches Some(v) ==> v@ == packed_file(name.spec_bytes(), content@),
{
    let bytes = name.as_bytes();
    let n: usize = bytes.len();
    if n > max_filename_len as usize {
        return None;
    }
    let mut out: Vec<u8> = Vec::new();
    out.push((n % 256) as u8);
    out.push((n / 256) as u8);
    push_all(&mut out, bytes);
    push_all(&mut out, content);
    assert(out@ =~= packed_file(name.spec_bytes(), content@));
    Some(out)
}

/// Takes a payload apart into name and content.
pub fn unpack_first_chunk(payload: &[u8]) -> (r: Result<(String, Vec<u8>), UnpackError>)
    ensures
        match unpacked_file(payload@) {
            Ok((name, content)) => r matches Ok(v) && v.0@ == name && v.1@ == content,
            Err(e) => r == Err::<(String, Vec<u8>), UnpackError>(e),
        },
{
    if payload.len() < 2 {
        return Err(UnpackError::Truncated);
    }
    let n: usize = payload[0] as usize + payload[1] as usize * 256;
    if n > payload.len() - 2 {
        return Err(UnpackError::Truncated);
    }
    let name = slice_to_vec(slice_subrange(payload, 2, 2 + n));
    match string_from_utf8(name) {
        Some(text) => {
            let content = slice_to_vec(slice_subrange(payload, 2 + n, payload.len()));
            Ok((text, content))
        },
        None => Err(UnpackError::BadName),
    }
}

/// What is packed is unpacked again: every name that the header can hold, and
/// every content.
pub proof fn law_file_round_trip(name: Seq<char>, content: Seq<u8>)
    requires
        encode_utf8(name).len() <= u16::MAX,
    ensures
        unpacked_file(packed_file(encode_utf8(name), content)) == Ok::<_, UnpackError>(
            (name, content),
        ),
{
    let bytes = encode_utf8(name);
    let payload = packed_file(bytes, content);
    let n = bytes.len() as int;
    assert(n % 256 + (n / 256) * 256 == n);
    assert(payload[0] == (n % 256) as u8);
    assert(payload[1] == (n / 256) as u8);
    assert(packed_name_len(payload) == n);
    assert(payload.subrange(2, 2 + n) =~= bytes);
    assert(payload.subrange(2 + n, payload.len() as int) =~= content);
    encode_utf8_valid_utf8(name);
    encode_utf8_decode_utf8(name);
}

/// The layout of a packed file, as the other side reads it: the length of the
/// name in two bytes, the low one first, the name, and the content to the end.
pub proof fn law_packed_file_is_laid_out_so(
    name: &str,
    content: &[u8],
    longest: u16,
    r: Option<Vec<u8>>,
)
    requires
        call_ensures(pack_first_chunk, (name, content, longest), r),
    ensures
        r is Some <==> encode_utf8(name@).len() <= longest,
        r matches Some(packed) ==> {
            let n = encode_utf8(name@).len() as int;
            &&& packed@.len() == 2 + n + content@.len()
            &&& packed@[0] + packed@[1] * 256 == n
            &&& packed@.subrange(2, 2 + n) == encode_utf8(name@)
            &&& packed@.subrange(2 + n, packed@.len() as int) == content@
        },
{
    if let Some(packed) = r {
        let bytes = encode_utf8(name@);
        let n = bytes.len() as int;
        assert(n % 256 + (n / 256) * 256 == n);
        assert(packed@.subrange(2, 2 + n) =~= bytes);
        assert(packed@.subrange(2 + n, packed@.len() as int) =~= content@);
    }
}

/// A payload that ends before its name does is no file, nor is one whose name is
/// not text; any other is, and what comes behind the name is its content.
pub proof fn law_only_whole_files_are_unpacked(
    payload: &[u8],
    r: Result<(String, Vec<u8>), UnpackError>,
)
    requires
        call_ensures(unpack_first_chunk, (payload,), r),
    ensures
        payload@.len() < 2 ==> r is Err,
        payload@.len() >= 2 ==> {
            let n = payload@[0] + payload@[1] * 256;
            &&& payload@.len() < 2 + n ==> r == Err::<(String, Vec<u8>), _>(UnpackError::Truncated)
            &&& payload@.len() >= 2 + n ==> {
                let name = payload@.subrange(2, 2 + n);
                &&& r is Ok <==> valid_utf8(name)
                &&& r matches Ok((text, content)) ==> text@ == decode_utf8(name) && content@
                    == payload@.subrange(2 + n, payload@.len() as int)
            }
        },
{
}

/// The largest payload of a file holds the largest content under the longest
/// name.
pub proof fn law_largest_file_fits(caps: FileCaps, name: Seq<u8>, content: Seq<u8>, cap: u64)
    requires
        call_ensures(FileCaps::max_payload_bytes, (&caps,), cap),
    ensures
        name.len() <= caps.max_filename_len && content.len() <= caps.max_file_bytes ==> packed_file(
            name,
            content,
        ).len() <= cap,
        name.len() == caps.max_filename_len && content.len() == caps.max_file_bytes ==> packed_file(
            name,
            content,
        ).len() == cap,
{
}

} // verus!
