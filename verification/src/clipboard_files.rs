//! A single file on the clipboard, as macOS puts it there: by its URL.
//!
//! Reading and writing the pasteboard is not done here. What was read is judged
//! here, and so is what writing gave.

use vstd::prelude::*;
use vstd::string::*;
use vstd::utf8::*;

use crate::text::{
    after_prefix, join, stands_at, string_from_utf8_lossy, strip_prefix, text_contains, text_of,
    utf8_lossy,
};

verus! {

/// Why a file could not be put on the clipboard.
#[derive(Debug, PartialEq, Eq)]
pub enum FileClipboardError {
    /// There is no pasteboard.
    PasteboardUnavailable,
    BadPath(String),
    /// The pasteboard refused.
    FfiError(String),
}

impl FileClipboardError {
    /// The error in words.
    pub open spec fn words(self) -> Seq<char> {
        match self {
            FileClipboardError::PasteboardUnavailable =>
                "pasteboard unavailable (non-macOS build or no AppKit session)"@,
            FileClipboardError::BadPath(path) => "invalid path for clipboard: "@ + path@,
            FileClipboardError::FfiError(what) => "AppKit FFI error: "@ + what@,
        }
    }

    /// The error in words.
    pub fn to_text(&self) -> (r: String)
        ensures
            r@ == self.words(),
    {
        match self {
            FileClipboardError::PasteboardUnavailable =>
                "pasteboard unavailable (non-macOS build or no AppKit session)".to_owned(),
            FileClipboardError::BadPath(path) => join(
                "invalid path for clipboard: ",
                path.as_str(),
            ),
            FileClipboardError::FfiError(what) => join("AppKit FFI error: ", what.as_str()),
        }
    }
}

/// The value of a hexadecimal digit.
pub open spec fn hex_value(b: u8) -> Option<u8> {
    if 48 <= b <= 57 {
        Some((b - 48) as u8)
    } else if 97 <= b <= 102 {
        Some((b - 97 + 10) as u8)
    } else if 65 <= b <= 70 {
        Some((b - 65 + 10) as u8)
    } else {
        None
    }
}

/// The value of a hexadecimal digit.
pub fn hex_nibble(b: u8) -> (r: Option<u8>)
    ensures
        r == hex_value(b),
{
    if 48 <= b && b <= 57 {
        Some(b - 48)
    } else if 97 <= b && b <= 102 {
        Some(b - 97 + 10)
    } else if 65 <= b && b <= 70 {
        Some(b - 65 + 10)
    } else {
        None
    }
}

/// True where the bytes begin with an escape: a percent sign (37) and two
/// hexadecimal digits.
pub open spec fn escape_first(bytes: Seq<u8>) -> bool {
    bytes.len() > 2 && bytes[0] == 37 && hex_value(bytes[1]) is Some && hex_value(bytes[2]) is Some
}

/// The byte that two hexadecimal digits stand for.
pub open spec fn escaped_byte(hi: u8, lo: u8) -> u8 {
    (hex_value(hi)->0 * 16 + hex_value(lo)->0) as u8
}

/// The bytes with each escape replaced by the byte that it stands for.
pub open spec fn unescaped(bytes: Seq<u8>) -> Seq<u8>
    decreases bytes.len(),
{
    if bytes.len() == 0 {
        Seq::empty()
    } else if escape_first(bytes) {
        seq![escaped_byte(bytes[1], bytes[2])] + unescaped(bytes.skip(3))
    } else {
        seq![bytes[0]] + unescaped(bytes.skip(1))
    }
}

/// A text with its escapes replaced.
pub open spec fn unescaped_text(s: Seq<char>) -> Seq<char> {
    text_of(unescaped(encode_utf8(s)))
}

/// A text with its escapes replaced. A percent sign that begins none stays.
pub fn percent_decode(s: &str) -> (r: String)
    ensures
        r@ == unescaped_text(s@),
{
    let bytes = s.as_bytes();
    let out = unescape(bytes);
    string_from_utf8_lossy(out.as_slice())
}

fn unescape(bytes: &[u8]) -> (r: Vec<u8>)
    ensures
        r@ == unescaped(bytes@),
{
    let total: usize = bytes.len();
    let mut out: Vec<u8> = Vec::new();
    let mut i: usize = 0;
    assert(bytes@.skip(0) =~= bytes@);
    assert(out@ + unescaped(bytes@) =~= unescaped(bytes@));
    while i < total
        invariant
            total == bytes@.len(),
            i <= total,
            out@ + unescaped(bytes@.skip(i as int)) == unescaped(bytes@),
        decreases total - i,
    {
        let ghost rest = bytes@.skip(i as int);
        let ghost before = out@;
        let mut taken: usize = 1;
        let mut byte: u8 = bytes[i];
        if byte == 37 && total - i > 2 {
            match (hex_nibble(bytes[i + 1]), hex_nibble(bytes[i + 2])) {
                (Some(h), Some(l)) => {
                    byte = h * 16 + l;
                    taken = 3;
                },
                _ => {},
            }
        }
        out.push(byte);
        proof {
            assert(rest[0] == bytes@[i as int]);
            assert(rest.skip(taken as int) =~= bytes@.skip(i + taken));
            assert(out@ + unescaped(bytes@.skip(i + taken)) =~= before + (seq![byte] + unescaped(
                rest.skip(taken as int),
            )));
        }
        i = i + taken;
    }
    assert(bytes@.skip(i as int) =~= Seq::empty());
    assert(out@ + Seq::<u8>::empty() =~= out@);
    out
}

/// What stands behind the scheme and the host of a file's URL.
pub open spec fn behind_host(url: Seq<char>) -> Option<Seq<char>> {
    let rest = match after_prefix(url, "file://"@) {
        Some(r) => Some(r),
        None => after_prefix(url, "file:"@),
    };
    match rest {
        Some(r) => match after_prefix(r, "localhost"@) {
            Some(t) => Some(t),
            None => Some(r),
        },
        None => None,
    }
}

/// The path that a file's URL stands for. Other URLs have none, nor have those
/// of a file whose path is not absolute.
pub open spec fn file_path(url: Seq<char>) -> Option<Seq<char>> {
    match behind_host(url) {
        Some(rest) => if rest.len() > 0 && unescaped_text(rest).len() > 0 && unescaped_text(rest)[0]
            == '/' {
            Some(unescaped_text(rest))
        } else {
            None
        },
        None => None,
    }
}

/// The path that a file's URL stands for.
pub fn parse_file_url(url: &str) -> (r: Option<String>)
    ensures
        match file_path(url@) {
            Some(path) => r matches Some(p) && p@ == path,
            None => r is None,
        },
{
    let rest = match strip_prefix(url, "file://") {
        Some(rest) => rest,
        None => match strip_prefix(url, "file:") {
            Some(rest) => rest,
            None => {
                return None;
            },
        },
    };
    let rest = match strip_prefix(rest, "localhost") {
        Some(t) => t,
        None => rest,
    };
    if rest.is_empty() {
        return None;
    }
    absolute(percent_decode(rest))
}

/// A path from the root on.
pub open spec fn is_absolute(path: Seq<char>) -> bool {
    path.len() > 0 && path[0] == '/'
}

/// A path, where it is absolute.
pub fn absolute(path: String) -> (r: Option<String>)
    ensures
        r == (if is_absolute(path@) {
            Some(path)
        } else {
            None
        }),
{
    if path.as_str().is_empty() {
        return None;
    }
    if path.as_str().get_char(0) == '/' {
        Some(path)
    } else {
        None
    }
}

/// What was read of the pasteboard.
#[derive(Debug)]
pub struct Pasteboard {
    /// Rises whenever anything is put there.
    pub change_count: i64,
    /// How many items there are.
    pub items: usize,
    /// The URL of the first of them, where it is a file.
    pub url: Option<String>,
}

/// The file that was put on the clipboard since it was last looked at. The
/// change is noted whatever is found; more than one item at once is passed
/// over. Without a pasteboard there is nothing.
pub fn poll_file_url(last_change_count: &mut i64, board: Option<&Pasteboard>) -> (r: Option<String>)
    ensures
        match board {
            Some(b) => {
                &&& *final(last_change_count) == b.change_count
                &&& match (b.url, b.change_count != *old(last_change_count) && b.items == 1) {
                    (Some(url), true) => match file_path(url@) {
                        Some(path) => r matches Some(p) && p@ == path,
                        None => r is None,
                    },
                    _ => r is None,
                }
            },
            None => r is None && *final(last_change_count) == *old(last_change_count),
        },
{
    let b = match board {
        Some(b) => b,
        None => {
            return None;
        },
    };
    if b.change_count == *last_change_count {
        return None;
    }
    *last_change_count = b.change_count;
    if b.items != 1 {
        return None;
    }
    match &b.url {
        Some(url) => parse_file_url(url.as_str()),
        None => None,
    }
}

/// Whether a path can be put on the pasteboard: an absolute one can. Asked
/// before that is tried.
pub fn check_file_url(path: &str) -> (r: Result<(), FileClipboardError>)
    ensures
        r is Ok <==> is_absolute(path@),
        r matches Err(e) ==> e matches FileClipboardError::BadPath(p) && p@ == path@,
{
    if !path.is_empty() && path.get_char(0) == '/' {
        Ok(())
    } else {
        Err(FileClipboardError::BadPath(path.to_owned()))
    }
}

/// What putting a path on the pasteboard comes to. `wrote` says whether the
/// pasteboard took it; without a pasteboard there is no such answer.
pub fn set_file_url(path: &str, wrote: Option<bool>) -> (r: Result<(), FileClipboardError>)
    ensures
        match wrote {
            None => r == Err::<(), _>(FileClipboardError::PasteboardUnavailable),
            Some(taken) => {
                &&& r is Ok <==> is_absolute(path@) && taken
                &&& !is_absolute(path@) ==> (r matches Err(e)
                    && e matches FileClipboardError::BadPath(p) && p@ == path@)
                &&& is_absolute(path@) && !taken ==> (r matches Err(e)
                    && e matches FileClipboardError::FfiError(what) && what@
                    == "NSPasteboard.writeObjects returned NO"@)
            },
        },
{
    let taken = match wrote {
        Some(taken) => taken,
        None => {
            return Err(FileClipboardError::PasteboardUnavailable);
        },
    };
    check_file_url(path)?;
    if taken {
        Ok(())
    } else {
        Err(FileClipboardError::FfiError("NSPasteboard.writeObjects returned NO".to_owned()))
    }
}

/// A hexadecimal digit.
pub open spec fn hex_digit(v: u8) -> u8 {
    if v < 10 {
        (48 + v) as u8
    } else {
        (65 + v - 10) as u8
    }
}

/// The bytes with all but those of `plain` escaped.
pub open spec fn escaped(bytes: Seq<u8>, plain: Set<u8>) -> Seq<u8>
    decreases bytes.len(),
{
    if bytes.len() == 0 {
        Seq::empty()
    } else if plain.contains(bytes[0]) {
        seq![bytes[0]] + escaped(bytes.skip(1), plain)
    } else {
        seq![37u8, hex_digit(bytes[0] / 16), hex_digit(bytes[0] % 16)] + escaped(
            bytes.skip(1),
            plain,
        )
    }
}

/// Escaping is undone, whichever bytes were escaped besides the percent sign.
pub proof fn law_escapes_are_undone(bytes: Seq<u8>, plain: Set<u8>)
    requires
        !plain.contains(37),
    ensures
        unescaped(escaped(bytes, plain)) == bytes,
    decreases bytes.len(),
{
    if bytes.len() > 0 {
        let rest = escaped(bytes.skip(1), plain);
        let all = escaped(bytes, plain);
        law_escapes_are_undone(bytes.skip(1), plain);
        if plain.contains(bytes[0]) {
            assert(all.skip(1) =~= rest);
        } else {
            assert(all.skip(3) =~= rest);
            assert(escape_first(all));
            assert(escaped_byte(all[1], all[2]) == bytes[0]);
        }
        assert(seq![bytes[0]] + bytes.skip(1) =~= bytes);
    } else {
        assert(bytes =~= Seq::empty());
    }
}

/// Text without a percent sign is left as it is.
pub proof fn law_text_without_escapes_is_kept(s: Seq<char>)
    requires
        !encode_utf8(s).contains(37),
    ensures
        unescaped_text(s) == s,
{
    lemma_unescaped_identity(encode_utf8(s));
    encode_utf8_valid_utf8(s);
    encode_utf8_decode_utf8(s);
}

proof fn lemma_unescaped_identity(bytes: Seq<u8>)
    requires
        !bytes.contains(37),
    ensures
        unescaped(bytes) == bytes,
    decreases bytes.len(),
{
    if bytes.len() > 0 {
        assert(bytes.contains(bytes[0]));
        assert forall|b: u8| bytes.skip(1).contains(b) implies bytes.contains(b) by {
            let i = choose|i: int| 0 <= i < bytes.skip(1).len() && bytes.skip(1)[i] == b;
            assert(bytes[i + 1] == b);
        }
        lemma_unescaped_identity(bytes.skip(1));
        assert(seq![bytes[0]] + bytes.skip(1) =~= bytes);
    } else {
        assert(bytes =~= Seq::empty());
    }
}

/// Only absolute paths come out of a URL.
pub proof fn law_parsed_path_is_absolute(url: Seq<char>)
    ensures
        file_path(url) matches Some(path) ==> path.len() > 0 && path[0] == '/',
{
}

/// The URL of an absolute path, however its bytes are escaped, gives that path
/// back.
pub proof fn law_file_url_gives_the_path_back(path: Seq<char>, rest: Seq<char>, plain: Set<u8>)
    requires
        path.len() > 0,
        path[0] == '/',
        rest.len() > 0,
        rest[0] == '/',
        !plain.contains(37),
        encode_utf8(rest) == escaped(encode_utf8(path), plain),
    ensures
        file_path("file://"@ + rest) == Some(path),
{
    law_escapes_are_undone(encode_utf8(path), plain);
    encode_utf8_valid_utf8(path);
    encode_utf8_decode_utf8(path);
    reveal_strlit("file://");
    reveal_strlit("localhost");
    let url = "file://"@ + rest;
    assert(url.subrange(0, 7) =~= "file://"@);
    assert(url.subrange(7, url.len() as int) =~= rest);
    assert(after_prefix(rest, "localhost"@) is None) by {
        if stands_at(rest, "localhost"@, 0) {
            assert(rest.subrange(0, 9)[0] == "localhost"@[0]);
        }
    }
}

/// A hexadecimal digit counts the same in either case, and no other byte is one.
pub proof fn law_digits_count_in_either_case(v: u8, b: u8, r: Option<u8>)
    requires
        call_ensures(hex_nibble, (b,), r),
    ensures
        r matches Some(n) ==> n < 16,
        v < 10 && b == 48 + v ==> r == Some(v),
        10 <= v < 16 && (b == 65 + v - 10 || b == 97 + v - 10) ==> r == Some(v),
        b < 48 || 57 < b < 65 || 70 < b < 97 || b > 102 ==> r is None,
        r == hex_value(b),
{
}

/// A percent sign that begins no escape stays, and so does what follows it.
pub proof fn law_lone_percent_stays(bytes: Seq<u8>)
    requires
        bytes.len() > 0,
        bytes[0] != 37 || bytes.len() < 3 || hex_value(bytes[1]) is None || hex_value(bytes[2])
            is None,
    ensures
        unescaped(bytes) == seq![bytes[0]] + unescaped(bytes.skip(1)),
        unescaped(Seq::empty()) == Seq::<u8>::empty(),
{
}

/// Text in which everything but plain bytes is escaped comes out as it was.
pub proof fn law_decoding_undoes_escaping(s: &str, text: Seq<char>, plain: Set<u8>, r: String)
    requires
        call_ensures(percent_decode, (s,), r),
        encode_utf8(s@) == escaped(encode_utf8(text), plain),
        !plain.contains(37),
    ensures
        r@ == text,
{
    law_escapes_are_undone(encode_utf8(text), plain);
    encode_utf8_valid_utf8(text);
    encode_utf8_decode_utf8(text);
}

/// A file's URL is one that begins with its scheme, with or without slashes, and
/// with or without the name of this machine; what follows is the path, where it
/// is absolute. Anything else names no file.
pub proof fn law_file_urls_are_recognised(url: &str, rest: Seq<char>, r: Option<String>)
    requires
        call_ensures(parse_file_url, (url,), r),
        rest.len() > 0,
        rest[0] == '/',
        !encode_utf8(rest).contains(37),
    ensures
        url@ == "file://"@ + rest ==> (r matches Some(path) && path@ == rest),
        url@ == "file://localhost"@ + rest ==> (r matches Some(path) && path@ == rest),
        url@ == "file:"@ + rest && (rest.len() < 2 || rest[1] != '/') ==> (r matches Some(path)
            && path@ == rest),
        url@.len() < 5 || url@.subrange(0, 5) != "file:"@ ==> r is None,
        r matches Some(path) ==> path@.len() > 0 && path@[0] == '/',
{
    law_text_without_escapes_is_kept(rest);
    reveal_strlit("file://");
    reveal_strlit("file:");
    reveal_strlit("localhost");
    reveal_strlit("file://localhost");
    let u = url@;
    assert(after_prefix(rest, "localhost"@) is None) by {
        if stands_at(rest, "localhost"@, 0) {
            assert(rest.subrange(0, 9)[0] == "localhost"@[0]);
        }
    }
    if u == "file://"@ + rest {
        assert(u.subrange(0, 7) =~= "file://"@);
        assert(u.subrange(7, u.len() as int) =~= rest);
    }
    if u == "file://localhost"@ + rest {
        let named = "localhost"@ + rest;
        assert(u.subrange(0, 7) =~= "file://"@);
        assert(u.subrange(7, u.len() as int) =~= named);
        assert(named.subrange(0, 9) =~= "localhost"@);
        assert(named.subrange(9, named.len() as int) =~= rest);
    }
    if u == "file:"@ + rest && (rest.len() < 2 || rest[1] != '/') {
        assert(after_prefix(u, "file://"@) is None) by {
            if stands_at(u, "file://"@, 0) {
                assert(u.subrange(0, 7)[6] == '/');
                assert(u[6] == rest[1]);
            }
        }
        assert(u.subrange(0, 5) =~= "file:"@);
        assert(u.subrange(5, u.len() as int) =~= rest);
    }
    if u.len() < 5 || u.subrange(0, 5) != "file:"@ {
        assert(after_prefix(u, "file://"@) is None) by {
            if stands_at(u, "file://"@, 0) {
                assert(u.subrange(0, 5) =~= u.subrange(0, 7).subrange(0, 5));
                assert("file://"@.subrange(0, 5) =~= "file:"@);
            }
        }
    }
}

/// A file that was put on the clipboard is found once: the change is noted, and
/// the same board looked at again gives nothing. Two items at once, or none that
/// is a file, give nothing either.
pub proof fn law_copied_file_is_found_once(
    count: &mut i64,
    board: Pasteboard,
    r: Option<String>,
    parsed: Option<String>,
    url: &str,
)
    requires
        call_ensures(poll_file_url, (count, Some(&board)), r),
        call_ensures(parse_file_url, (url,), parsed),
        board.url matches Some(u) ==> u@ == url@,
    ensures
        *final(count) == board.change_count,
        *old(count) == board.change_count ==> r is None,
        board.items != 1 || board.url is None ==> r is None,
        *old(count) != board.change_count && board.items == 1 && board.url is Some ==> {
            &&& r is Some <==> parsed is Some
            &&& r matches Some(path) ==> path@ == parsed->0@
        },
{
}

/// Without a pasteboard nothing is found, and nothing is noted.
pub proof fn law_no_board_no_file(count: &mut i64, r: Option<String>)
    requires
        call_ensures(poll_file_url, (count, None), r),
    ensures
        r is None && *final(count) == *old(count),
{
}

/// A path can be put on the clipboard where it is absolute and the pasteboard
/// takes it; otherwise it is told what was wrong, and a path that is wrong is
/// named.
pub proof fn law_only_absolute_paths_are_put_there(
    path: &str,
    wrote: Option<bool>,
    checked: Result<(), FileClipboardError>,
    r: Result<(), FileClipboardError>,
)
    requires
        call_ensures(check_file_url, (path,), checked),
        call_ensures(set_file_url, (path, wrote), r),
    ensures
        checked is Ok <==> path@.len() > 0 && path@[0] == '/',
        checked matches Err(e) ==> (e matches FileClipboardError::BadPath(p) && p@ == path@),
        r is Ok <==> path@.len() > 0 && path@[0] == '/' && wrote == Some(true),
        wrote is None ==> (r matches Err(e) && e is PasteboardUnavailable),
        wrote is Some && !(path@.len() > 0 && path@[0] == '/') ==> (r matches Err(e)
            && e matches FileClipboardError::BadPath(p) && p@ == path@),
        wrote == Some(false) && path@.len() > 0 && path@[0] == '/' ==> (r matches Err(e)
            && e is FfiError),
{
}

/// An error names what it is about.
pub proof fn law_errors_name_their_cause(e: FileClipboardError, r: String)
    requires
        call_ensures(FileClipboardError::to_text, (&e,), r),
    ensures
        e matches FileClipboardError::BadPath(path) ==> text_contains(r@, path@),
        e matches FileClipboardError::FfiError(what) ==> text_contains(r@, what@),
{
    if let FileClipboardError::BadPath(path) = e {
        let a = "invalid path for clipboard: "@;
        assert(r@.subrange(a.len() as int, r@.len() as int) =~= path@);
        assert(stands_at(r@, path@, a.len() as int));
    }
    if let FileClipboardError::FfiError(what) = e {
        let a = "AppKit FFI error: "@;
        assert(r@.subrange(a.len() as int, r@.len() as int) =~= what@);
        assert(stands_at(r@, what@, a.len() as int));
    }
}

/// An escape is replaced by the byte that its two digits stand for, in either
/// case, and what follows is read on from behind it.
pub proof fn law_escape_is_replaced(bytes: Seq<u8>, hi: u8, lo: u8)
    requires
        bytes.len() >= 3,
        bytes[0] == 37,
        hex_value(bytes[1]) == Some(hi),
        hex_value(bytes[2]) == Some(lo),
    ensures
        unescaped(bytes) == seq![(hi * 16 + lo) as u8] + unescaped(bytes.skip(3)),
{
}

/// What is not UTF-8 after the escapes are replaced is shown by replacement
/// characters; the rest as the text that it is.
pub proof fn law_decoded_text(s: &str, r: String)
    requires
        call_ensures(percent_decode, (s,), r),
    ensures
        ({
            let bytes = unescaped(encode_utf8(s@));
            &&& valid_utf8(bytes) ==> r@ == decode_utf8(bytes)
            &&& !valid_utf8(bytes) ==> r@ == utf8_lossy(bytes)
        }),
{
}

} // verus!
