//! Building and taking apart text.
//!
//! A string is modelled by its characters (`Seq<char>`); where a byte offset
//! or a byte count matters, by its UTF-8 encoding.

use vstd::prelude::*;
use vstd::string::*;
use vstd::utf8::*;

verus! {

/// The character of one decimal digit.
pub open spec fn digit_char(d: nat) -> char {
    if d == 0 {
        '0'
    } else if d == 1 {
        '1'
    } else if d == 2 {
        '2'
    } else if d == 3 {
        '3'
    } else if d == 4 {
        '4'
    } else if d == 5 {
        '5'
    } else if d == 6 {
        '6'
    } else if d == 7 {
        '7'
    } else if d == 8 {
        '8'
    } else {
        '9'
    }
}

/// A number in decimal, most significant digit first, without leading zeros.
pub open spec fn decimal(n: nat) -> Seq<char>
    decreases n,
{
    if n < 10 {
        seq![digit_char(n)]
    } else {
        decimal(n / 10).push(digit_char(n % 10))
    }
}

/// A signed number in decimal.
pub open spec fn signed_decimal(n: int) -> Seq<char> {
    if n < 0 {
        seq!['-'] + decimal((-n) as nat)
    } else {
        decimal(n as nat)
    }
}

fn digit_str(d: u64) -> (r: &'static str)
    requires
        d < 10,
    ensures
        r@ == seq![digit_char(d as nat)],
{
    proof {
        reveal_strlit("0");
        reveal_strlit("1");
        reveal_strlit("2");
        reveal_strlit("3");
        reveal_strlit("4");
        reveal_strlit("5");
        reveal_strlit("6");
        reveal_strlit("7");
        reveal_strlit("8");
        reveal_strlit("9");
    }
    let r = match d {
        0 => "0",
        1 => "1",
        2 => "2",
        3 => "3",
        4 => "4",
        5 => "5",
        6 => "6",
        7 => "7",
        8 => "8",
        _ => "9",
    };
    assert(r@ =~= seq![digit_char(d as nat)]);
    r
}

/// Appends `n` in decimal.
pub fn push_decimal(out: &mut String, n: u64)
    ensures
        final(out)@ == old(out)@ + decimal(n as nat),
    decreases n,
{
    if n >= 10 {
        push_decimal(out, n / 10);
    }
    out.append(digit_str(n % 10));
    assert(out@ =~= old(out)@ + decimal(n as nat));
}

/// Appends a signed number in decimal.
pub fn push_signed(out: &mut String, n: i32)
    ensures
        final(out)@ == old(out)@ + signed_decimal(n as int),
{
    if n < 0 {
        proof {
            reveal_strlit("-");
        }
        out.append("-");
        push_decimal(out, (-(n as i64)) as u64);
        assert(out@ =~= old(out)@ + signed_decimal(n as int));
    } else {
        push_decimal(out, n as u64);
    }
}

/// `a` followed by `b`.
pub fn join(a: &str, b: &str) -> (r: String)
    ensures
        r@ == a@ + b@,
{
    let mut s = a.to_owned();
    s.append(b);
    s
}

/// `a`, then `b`, then `c`.
pub fn join3(a: &str, b: &str, c: &str) -> (r: String)
    ensures
        r@ == a@ + b@ + c@,
{
    let mut s = a.to_owned();
    s.append(b);
    s.append(c);
    s
}

/// `String::from_utf8`: the text that the bytes encode, or nothing where they
/// are not UTF-8. Claimed: it succeeds exactly on valid UTF-8, and then gives
/// the encoded characters.
#[verifier::external_body]
pub(crate) fn string_from_utf8(bytes: Vec<u8>) -> (r: Option<String>)
    ensures
        r is Some <==> valid_utf8(bytes@),
        r matches Some(s) ==> s@ == decode_utf8(bytes@),
{
    String::from_utf8(bytes).ok()
}

/// What `String::from_utf8_lossy` makes of a byte sequence.
pub uninterp spec fn utf8_lossy(bytes: Seq<u8>) -> Seq<char>;

/// `String::from_utf8_lossy`. Claimed: the result depends on the bytes alone,
/// and valid UTF-8 comes out as the characters it encodes.
#[verifier::external_body]
pub(crate) fn string_from_utf8_lossy(bytes: &[u8]) -> (r: String)
    ensures
        r@ == utf8_lossy(bytes@),
        valid_utf8(bytes@) ==> r@ == decode_utf8(bytes@),
{
    String::from_utf8_lossy(bytes).into_owned()
}

/// The characters of a text.
pub fn chars_of(s: &str) -> (r: Vec<char>)
    ensures
        r@ == s@,
{
    let mut out: Vec<char> = Vec::new();
    for c in it: s.chars()
        invariant
            it.seq() == s@,
            out@ == s@.take(it.index() as int),
    {
        out.push(c);
        assert(out@ =~= s@.take(it.index() + 1));
    }
    assert(s@.take(s@.len() as int) =~= s@);
    out
}

/// Whether `part` stands in `s` at place `i`.
pub open spec fn stands_at(s: Seq<char>, part: Seq<char>, i: int) -> bool {
    0 <= i && i + part.len() <= s.len() && s.subrange(i, i + part.len()) == part
}

/// Whether `part` stands anywhere in `s`.
pub open spec fn text_contains(s: Seq<char>, part: Seq<char>) -> bool {
    exists|i: int| #[trigger] stands_at(s, part, i)
}

fn stands_at_place(s: &Vec<char>, part: &Vec<char>, i: usize) -> (r: bool)
    requires
        i + part@.len() <= s@.len(),
    ensures
        r == stands_at(s@, part@, i as int),
{
    let n: usize = part.len();
    let total: usize = s.len();
    let mut k: usize = 0;
    while k < n
        invariant
            n == part@.len(),
            total == s@.len(),
            i + n <= total,
            k <= n,
            forall|j: int| 0 <= j < k ==> s@[i + j] == part@[j],
        decreases n - k,
    {
        if s[i + k] != part[k] {
            assert(s@.subrange(i as int, i + n)[k as int] != part@[k as int]);
            return false;
        }
        k = k + 1;
    }
    assert(s@.subrange(i as int, i + n) =~= part@);
    true
}

/// Whether `part` stands anywhere in `s`.
pub fn contains_text(s: &str, part: &str) -> (r: bool)
    ensures
        r == text_contains(s@, part@),
{
    let all = chars_of(s);
    let want = chars_of(part);
    if want.len() > all.len() {
        return false;
    }
    let last: usize = all.len() - want.len();
    let mut i: usize = 0;
    while i <= last
        invariant
            all@ == s@,
            want@ == part@,
            last == all@.len() - want@.len(),
            i <= last + 1,
            forall|j: int| 0 <= j < i ==> !stands_at(s@, part@, j),
        decreases last + 1 - i,
    {
        if stands_at_place(&all, &want, i) {
            return true;
        }
        if i == last {
            assert forall|j: int| !stands_at(s@, part@, j) by {}
            return false;
        }
        i = i + 1;
    }
    false
}

/// The text after `prefix`, where `s` begins with it.
pub open spec fn after_prefix(s: Seq<char>, prefix: Seq<char>) -> Option<Seq<char>> {
    if stands_at(s, prefix, 0) {
        Some(s.subrange(prefix.len() as int, s.len() as int))
    } else {
        None
    }
}

/// The text after `prefix`, where `s` begins with it.
pub fn strip_prefix<'a>(s: &'a str, prefix: &str) -> (r: Option<&'a str>)
    ensures
        match after_prefix(s@, prefix@) {
            Some(rest) => r matches Some(t) && t@ == rest,
            None => r is None,
        },
{
    let all = chars_of(s);
    let want = chars_of(prefix);
    let n: usize = want.len();
    let total: usize = all.len();
    if n > total {
        return None;
    }
    if stands_at_place(&all, &want, 0) {
        Some(s.substring_char(n, total))
    } else {
        None
    }
}

/// The text that bytes encode; what is not UTF-8 in them is replaced.
pub open spec fn text_of(bytes: Seq<u8>) -> Seq<char> {
    if valid_utf8(bytes) {
        decode_utf8(bytes)
    } else {
        utf8_lossy(bytes)
    }
}

/// The value of a decimal digit.
pub open spec fn digit_value(c: char) -> nat {
    (c as nat - '0' as nat) as nat
}

pub open spec fn is_digit(c: char) -> bool {
    '0' <= c <= '9'
}

/// The number that a sequence of digits stands for.
pub open spec fn digits_value(s: Seq<char>) -> nat
    decreases s.len(),
{
    if s.len() == 0 {
        0
    } else {
        digits_value(s.drop_last()) * 10 + digit_value(s.last())
    }
}

/// The digits of a number, behind a plus sign where there is one.
pub open spec fn without_plus(s: Seq<char>) -> Seq<char> {
    if s.len() > 0 && s[0] == '+' {
        s.skip(1)
    } else {
        s
    }
}

/// The number that a text stands for: digits and nothing else, behind a plus
/// sign or none, and no more than `max`.
pub open spec fn parsed(s: Seq<char>, max: nat) -> Option<nat> {
    let digits = without_plus(s);
    if digits.len() > 0 && (forall|i: int| 0 <= i < digits.len() ==> is_digit(#[trigger] digits[i]))
        && digits_value(digits) <= max {
        Some(digits_value(digits))
    } else {
        None
    }
}

proof fn lemma_more_digits_are_no_less(s: Seq<char>, n: nat)
    requires
        n <= s.len(),
    ensures
        digits_value(s.take(n as int)) <= digits_value(s),
    decreases s.len(),
{
    if n < s.len() {
        lemma_more_digits_are_no_less(s.drop_last(), n);
        assert(s.drop_last().take(n as int) =~= s.take(n as int));
    } else {
        assert(s.take(n as int) =~= s);
    }
}

/// The number that a text stands for, where it is no more than `max`.
pub fn parse_number(s: &str, max: u32) -> (r: Option<u32>)
    ensures
        match parsed(s@, max as nat) {
            Some(n) => r matches Some(v) && v == n,
            None => r is None,
        },
{
    let all = chars_of(s);
    let total: usize = all.len();
    let from: usize = if total > 0 && all[0] == '+' {
        1
    } else {
        0
    };
    let ghost digits = without_plus(s@);
    assert(digits =~= s@.skip(from as int));
    if from == total {
        return None;
    }
    let mut value: u64 = 0;
    let mut i: usize = from;
    while i < total
        invariant
            all@ == s@,
            total == all@.len(),
            from <= i <= total,
            from <= 1,
            from < total,
            digits == without_plus(s@),
            digits == s@.skip(from as int),
            value == digits_value(digits.take(i - from)),
            value <= max,
            forall|j: int| 0 <= j < i - from ==> is_digit(#[trigger] digits[j]),
        decreases total - i,
    {
        let c: char = all[i];
        assert(c == digits[i - from]);
        if c < '0' || c > '9' {
            return None;
        }
        let digit: u64 = (c as u32 - 48) as u64;
        let ghost k = i - from;
        proof {
            assert(digits.take(k + 1).drop_last() =~= digits.take(k));
            assert(digits.take(k + 1).last() == c);
        }
        value = value * 10 + digit;
        if value > max as u64 {
            proof {
                lemma_more_digits_are_no_less(digits, (k + 1) as nat);
            }
            return None;
        }
        i = i + 1;
    }
    assert(digits.take(total - from) =~= digits);
    Some(value as u32)
}

proof fn lemma_decimal_digits(n: nat)
    ensures
        decimal(n).len() > 0,
        forall|i: int| 0 <= i < decimal(n).len() ==> is_digit(#[trigger] decimal(n)[i]),
        digits_value(decimal(n)) == n,
    decreases n,
{
    if n >= 10 {
        lemma_decimal_digits(n / 10);
        let head = decimal(n / 10);
        let d = digit_char(n % 10);
        assert(decimal(n) == head.push(d));
        assert(head.push(d).drop_last() =~= head);
        assert(digit_value(d) == n % 10);
    } else {
        let only = seq![digit_char(n)];
        assert(only.drop_last() =~= Seq::empty());
        assert(digits_value(only.drop_last()) == 0);
        assert(digit_value(only.last()) == n);
    }
}

/// A number that is shown in decimal is read back as it was.
pub proof fn law_shown_number_is_read_back(n: nat, max: nat)
    requires
        n <= max,
    ensures
        parsed(decimal(n), max) == Some(n),
{
    lemma_decimal_digits(n);
    assert(is_digit(decimal(n)[0]));
}

/// A text that is no number is read as none: an empty one, one with anything
/// but digits behind its first character, one that begins with neither a digit
/// nor a plus sign, and a number over the limit.
pub proof fn law_only_numbers_are_read(s: Seq<char>, i: int, n: nat, max: nat)
    ensures
        s.len() == 0 ==> parsed(s, max) is None,
        0 < i < s.len() && !('0' <= s[i] <= '9') ==> parsed(s, max) is None,
        s.len() > 0 && !('0' <= s[0] <= '9') && s[0] != '+' ==> parsed(s, max) is None,
        s == decimal(n) && n > max ==> parsed(s, max) is None,
        parsed(s, max) matches Some(v) ==> v <= max,
{
    let digits = without_plus(s);
    if s.len() > 0 {
        if 0 < i < s.len() {
            assert(digits[if s[0] == '+' {
                i - 1
            } else {
                i
            }] == s[i]);
        }
        if s[0] != '+' {
            assert(digits[0] == s[0]);
        }
    }
    if s == decimal(n) {
        lemma_decimal_digits(n);
        assert(is_digit(s[0]));
    }
}

/// A plus sign before a number changes nothing of it, and each digit counts ten
/// times the one behind it.
pub proof fn law_digits_count_by_tens(s: Seq<char>, d: char, max: nat)
    requires
        s.len() > 0,
        '0' <= s[0] <= '9',
    ensures
        parsed(seq!['+'] + s, max) == parsed(s, max),
        '0' <= d <= '9' ==> parsed(s.push(d), max) == (match parsed(s, max) {
            Some(v) if v * 10 + (d as nat - 48) <= max => Some((v * 10 + (d as nat - 48)) as nat),
            _ => None,
        }),
{
    assert((seq!['+'] + s).skip(1) =~= s);
    if '0' <= d <= '9' {
        let t = s.push(d);
        assert(t[0] == s[0]);
        assert(t.drop_last() =~= s);
        assert(digits_value(t) == digits_value(s) * 10 + digit_value(d));
        if forall|i: int| 0 <= i < t.len() ==> is_digit(#[trigger] t[i]) {
            assert forall|i: int| 0 <= i < s.len() implies is_digit(#[trigger] s[i]) by {
                assert(s[i] == t[i]);
            }
        }
        if forall|i: int| 0 <= i < s.len() ==> is_digit(#[trigger] s[i]) {
            assert forall|i: int| 0 <= i < t.len() implies is_digit(#[trigger] t[i]) by {
                if i < s.len() {
                    assert(t[i] == s[i]);
                }
            }
        }
    }
}

/// A negative number is shown as the positive one behind a minus sign.
pub proof fn law_minus_stands_before_the_number(n: nat)
    requires
        n > 0,
    ensures
        signed_decimal(-(n as int)) == seq!['-'] + signed_decimal(n as int),
        signed_decimal(n as int) == decimal(n),
{
}

/// A text that begins with a prefix is that prefix and what is behind it; one
/// that does not is not.
pub proof fn law_prefix_and_rest_make_the_text(s: &str, prefix: &str, rest: Seq<char>, r: Option<&str>)
    requires
        call_ensures(strip_prefix, (s, prefix), r),
    ensures
        r matches Some(t) ==> s@ == prefix@ + t@,
        s@ == prefix@ + rest ==> (r matches Some(t) && t@ == rest),
{
    if let Some(t) = r {
        assert(s@ =~= prefix@ + t@);
    }
    if s@ == prefix@ + rest {
        assert(s@.subrange(0, prefix@.len() as int) =~= prefix@);
        assert(s@.subrange(prefix@.len() as int, s@.len() as int) =~= rest);
    }
}

/// A part stands in a text where the text is something, the part, and something
/// more.
pub proof fn law_part_stands_in_the_text(
    s: &str,
    part: &str,
    before: Seq<char>,
    after: Seq<char>,
    r: bool,
)
    requires
        call_ensures(contains_text, (s, part), r),
    ensures
        s@ == before + part@ + after ==> r,
        r ==> exists|a: Seq<char>, b: Seq<char>| s@ == #[trigger] (a + part@ + b),
        part@.len() > s@.len() ==> !r,
{
    if s@ == before + part@ + after {
        assert(s@.subrange(before.len() as int, (before.len() + part@.len()) as int) =~= part@);
        assert(stands_at(s@, part@, before.len() as int));
    }
    if r {
        let i = choose|i: int| #[trigger] stands_at(s@, part@, i);
        let a = s@.subrange(0, i);
        let b = s@.subrange(i + part@.len(), s@.len() as int);
        assert(s@ =~= a + part@ + b) by {
            assert forall|k: int| 0 <= k < s@.len() implies s@[k] == (a + part@ + b)[k] by {
                if i <= k < i + part@.len() {
                    assert(s@.subrange(i, i + part@.len())[k - i] == part@[k - i]);
                }
            }
        }
    }
}

/// A number that is shown is read back, and nothing is read as a number over
/// the limit.
pub proof fn law_numbers_are_read_back(s: &str, n: u32, max: u32, r: Option<u32>)
    requires
        call_ensures(parse_number, (s, max), r),
    ensures
        s@ == decimal(n as nat) && n <= max ==> r == Some(n),
        s@ == decimal(n as nat) && n > max ==> r is None,
        r matches Some(v) ==> v <= max,
        s@.len() == 0 ==> r is None,
{
    if n <= max {
        law_shown_number_is_read_back(n as nat, max as nat);
    }
    law_only_numbers_are_read(s@, 0, n as nat, max as nat);
}

/// Texts are put together in their order, and a number is appended as it is
/// shown.
pub proof fn law_texts_are_joined(
    a: &str,
    b: &str,
    c: &str,
    two: String,
    three: String,
    out: &mut String,
    n: u64,
    m: i32,
)
    ensures
        call_ensures(join, (a, b), two) ==> two@ == a@ + b@,
        call_ensures(join3, (a, b, c), three) ==> three@ == a@ + b@ + c@,
        call_ensures(push_decimal, (out, n), ()) ==> final(out)@ == old(out)@ + decimal(n as nat),
        call_ensures(push_signed, (out, m), ()) ==> m >= 0 ==> final(out)@ == old(out)@ + decimal(
            m as nat,
        ),
        call_ensures(push_signed, (out, m), ()) ==> m < 0 ==> final(out)@ == old(out)@ + (seq!['-']
            + decimal((-(m as int)) as nat)),
{
}

} // verus!
