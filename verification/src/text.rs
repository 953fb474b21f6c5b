//! Text that the service reads and writes: whole numbers in decimal, the
//! scheme prefix of a credential header, and the search for a phrase inside
//! a message.

use vstd::prelude::*;
use vstd::string::*;
use vstd::utf8::{is_ascii_chars, is_ascii_chars_nat_bound};

verus! {

/// The character that stands for the digit `d`.
pub open spec fn digit(d: int) -> char {
    (48 + d) as char
}

/// The decimal digits of `n`, most significant first, without leading zeros.
pub open spec fn digits(n: nat) -> Seq<char>
    decreases n,
{
    if n < 10 {
        seq![digit(n as int)]
    } else {
        digits(n / 10).push(digit((n % 10) as int))
    }
}

/// The decimal text of `n`: its digits, after a minus sign when it is
/// negative.
pub open spec fn decimal(n: int) -> Seq<char> {
    if n < 0 {
        seq!['-'] + digits((-n) as nat)
    } else {
        digits(n as nat)
    }
}

/// Whether `c` is one of the ten decimal digits.
pub open spec fn is_digit(c: char) -> bool {
    '0' <= c && c <= '9'
}

/// Whether `s` holds decimal digits only.
pub open spec fn all_digits(s: Seq<char>) -> bool {
    forall|i: int| 0 <= i < s.len() ==> is_digit(#[trigger] s[i])
}

/// The number that the digits of `s` write, most significant first.
pub open spec fn digits_value(s: Seq<char>) -> int
    decreases s.len(),
{
    if s.len() == 0 {
        0
    } else {
        10 * digits_value(s.drop_last()) + (s.last() as int - 48)
    }
}

/// The number that `s` writes in decimal, where it writes one that fits in
/// an `i64`: an optional sign, `+` or `-`, and then one or more digits and
/// nothing else.
pub open spec fn spec_parse_i64(s: Seq<char>) -> Option<i64> {
    let body = unsigned_part(s);
    let magnitude = digits_value(body);
    let value = if s.len() > 0 && s[0] == '-' {
        -magnitude
    } else {
        magnitude
    };
    if body.len() > 0 && all_digits(body) && i64::MIN <= value <= i64::MAX {
        Some(value as i64)
    } else {
        None
    }
}

/// Whether `s` begins with a sign.
pub open spec fn is_signed(s: Seq<char>) -> bool {
    s.len() > 0 && (s[0] == '-' || s[0] == '+')
}

/// `s` without the sign that it may begin with.
pub open spec fn unsigned_part(s: Seq<char>) -> Seq<char> {
    if is_signed(s) {
        s.subrange(1, s.len() as int)
    } else {
        s
    }
}

/// Whether `s` begins with `prefix`.
pub open spec fn has_prefix(s: Seq<char>, prefix: Seq<char>) -> bool {
    prefix.len() <= s.len() && s.subrange(0, prefix.len() as int) == prefix
}

/// What follows `prefix` in `s`, where `s` begins with it.
pub open spec fn without_prefix(s: Seq<char>, prefix: Seq<char>) -> Option<Seq<char>> {
    if has_prefix(s, prefix) {
        Some(s.subrange(prefix.len() as int, s.len() as int))
    } else {
        None
    }
}

/// Whether `needle` occurs in `haystack` as a run of neighbouring characters.
pub open spec fn occurs_in(needle: Seq<char>, haystack: Seq<char>) -> bool {
    exists|i: int| occurs_at(needle, haystack, i)
}

/// Whether `needle` stands in `haystack` from position `i` on.
pub open spec fn occurs_at(needle: Seq<char>, haystack: Seq<char>, i: int) -> bool {
    0 <= i && i + needle.len() <= haystack.len() && haystack.subrange(i, i + needle.len())
        == needle
}

/// The ASCII letters `A` to `Z` become `a` to `z`; every other character
/// stays as it is.
pub open spec fn lower_char(c: char) -> char {
    if 'A' <= c && c <= 'Z' {
        (c as int + 32) as char
    } else {
        c
    }
}

/// `s` with each character replaced by [`lower_char`] of it.
pub open spec fn ascii_lowercase(s: Seq<char>) -> Seq<char> {
    Seq::new(s.len(), |i: int| lower_char(s[i]))
}

/// The digits of a number are digits, at least one of them, and write that
/// number.
pub proof fn lemma_digits_value(n: nat)
    ensures
        digits(n).len() > 0,
        all_digits(digits(n)),
        digits_value(digits(n)) == n,
    decreases n,
{
    if n < 10 {
        let s = digits(n);
        assert(s.drop_last().len() == 0);
        assert(digits_value(s) == 10 * digits_value(s.drop_last()) + (s.last() as int - 48));
    } else {
        lemma_digits_value(n / 10);
        let head = digits(n / 10);
        let s = digits(n);
        assert(s.drop_last() =~= head);
        assert forall|i: int| 0 <= i < s.len() implies is_digit(#[trigger] s[i]) by {
            if i < head.len() {
                assert(s[i] == head[i]);
            }
        }
    }
}

/// Reading the decimal text of a number gives the number back.
pub proof fn lemma_parse_decimal(n: i64)
    ensures
        spec_parse_i64(decimal(n as int)) == Some(n),
{
    let s = decimal(n as int);
    if n < 0 {
        let m = (-(n as int)) as nat;
        lemma_digits_value(m);
        assert(s[0] == '-');
        assert(s.subrange(1, s.len() as int) =~= digits(m));
    } else {
        lemma_digits_value(n as nat);
        assert(is_digit(s[0]));
    }
}

/// Digits written after a number do not make it smaller.
proof fn lemma_prefix_value(s: Seq<char>, k: int)
    requires
        0 <= k <= s.len(),
        all_digits(s),
    ensures
        0 <= digits_value(s.subrange(0, k)) <= digits_value(s),
    decreases s.len() - k,
{
    if k == s.len() {
        assert(s.subrange(0, k) =~= s);
        lemma_value_not_negative(s);
    } else {
        lemma_prefix_value(s, k + 1);
        let longer = s.subrange(0, k + 1);
        assert(longer.drop_last() =~= s.subrange(0, k));
        assert(longer.last() == s[k]);
        assert(is_digit(s[k]));
        lemma_value_not_negative(s.subrange(0, k));
    }
}

/// A run of digits writes no negative number.
proof fn lemma_value_not_negative(s: Seq<char>)
    requires
        all_digits(s),
    ensures
        0 <= digits_value(s),
    decreases s.len(),
{
    if s.len() > 0 {
        assert forall|i: int| 0 <= i < s.drop_last().len() implies is_digit(
            #[trigger] s.drop_last()[i],
        ) by {
            assert(s.drop_last()[i] == s[i]);
        }
        lemma_value_not_negative(s.drop_last());
        assert(is_digit(s.last()));
    }
}

/// The text that stands for one decimal digit.
fn digit_text(d: u64) -> (text: &'static str)
    requires
        d < 10,
    ensures
        text@ == seq![digit(d as int)],
{
    proof {
        reveal_strlit("0");
        reveal_strlit("1");
        reveal_strlit("2");
        reveal_strlit("3");
        reveal_strlit("4");
        reveal_strlit("5");
        reveal_strlit("6");
        reveal_strlit("7");
        reveal_strlit("8");
        reveal_strlit("9");
    }
    let text = if d == 0 {
        "0"
    } else if d == 1 {
        "1"
    } else if d == 2 {
        "2"
    } else if d == 3 {
        "3"
    } else if d == 4 {
        "4"
    } else if d == 5 {
        "5"
    } else if d == 6 {
        "6"
    } else if d == 7 {
        "7"
    } else if d == 8 {
        "8"
    } else {
        "9"
    };
    text
}

/// Writes `n` in decimal, as formatting an integer for display does.
pub fn i64_to_decimal(n: i64) -> (text: String)
    ensures
        text@ == decimal(n as int),
{
    let magnitude: u64 = if n < 0 {
        ((-(n + 1)) as u64) + 1
    } else {
        n as u64
    };
    let mut rest: u64 = magnitude / 10;
    let mut text = String::from_str(digit_text(magnitude % 10));
    while rest > 0
        invariant
            digits(magnitude as nat) == if rest == 0 {
                text@
            } else {
                digits(rest as nat) + text@
            },
        decreases rest,
    {
        let ghost before = text@;
        let ghost shown = digits(rest as nat);
        let longer = String::from_str(digit_text(rest % 10)).concat(text.as_str());
        proof {
            if rest < 10 {
                assert(shown + before =~= longer@);
            } else {
                assert(shown + before =~= digits((rest / 10) as nat) + longer@);
            }
        }
        text = longer;
        rest = rest / 10;
    }
    if n < 0 {
        proof {
            reveal_strlit("-");
        }
        String::from_str("-").concat(text.as_str())
    } else {
        text
    }
}

/// A text with a character outside ASCII writes no number.
proof fn lemma_parse_needs_ascii(s: Seq<char>)
    requires
        !is_ascii_chars(s),
    ensures
        spec_parse_i64(s) is None,
{
    let k = choose|k: int| 0 <= k < s.len() && !('\0' <= #[trigger] s[k] <= '\u{7f}');
    if is_signed(s) {
        let body = s.subrange(1, s.len() as int);
        assert(body[k - 1] == s[k]);
        assert(!is_digit(body[k - 1]));
    } else {
        assert(!is_digit(s[k]));
    }
}

/// Reads a whole number written in decimal, as `str::parse::<i64>` does:
/// an optional sign, then digits only, and a value that fits.
pub fn parse_i64(text: &str) -> (parsed: Option<i64>)
    ensures
        parsed == spec_parse_i64(text@),
{
    if !text.is_ascii() {
        proof {
            lemma_parse_needs_ascii(text@);
        }
        return None;
    }
    let bytes = text.as_bytes();
    proof {
        is_ascii_spec_bytes(text);
        is_ascii_chars_nat_bound(text@);
    }
    let len = bytes.len();
    if len == 0 {
        return None;
    }
    let first = bytes[0];
    let negative = first == 45;
    let start: usize = if first == 45 || first == 43 {
        1
    } else {
        0
    };
    let ghost body = text@.subrange(start as int, len as int);
    assert(body =~= unsigned_part(text@));
    assert(negative == (text@[0] == '-'));
    if start == len {
        return None;
    }
    let limit: u128 = if negative {
        9223372036854775808
    } else {
        9223372036854775807
    };
    let mut acc: u128 = 0;
    let mut i: usize = start;
    while i < len
        invariant
            start <= i <= len,
            len == text@.len(),
            len == bytes@.len(),
            is_ascii_chars(text@),
            forall|j: int| 0 <= j < len ==> bytes@[j] == text@[j] as u8,
            forall|j: int| 0 <= j < len ==> (text@[j] as nat) < 128,
            body == text@.subrange(start as int, len as int),
            body == unsigned_part(text@),
            negative == (text@[0] == '-'),
            limit == if negative {
                9223372036854775808u128
            } else {
                9223372036854775807u128
            },
            all_digits(body.subrange(0, i - start)),
            acc == digits_value(body.subrange(0, i - start)),
            acc <= limit,
        decreases len - i,
    {
        let b = bytes[i];
        assert(body[i - start] == text@[i as int]);
        assert(b == text@[i as int] as u8);
        if b < 48 || b > 57 {
            assert(!is_digit(body[i - start]));
            return None;
        }
        let ghost shorter = body.subrange(0, i - start);
        let ghost longer = body.subrange(0, i + 1 - start);
        proof {
            assert(longer.drop_last() =~= shorter);
            assert(longer.last() == body[i - start]);
            assert forall|j: int| 0 <= j < longer.len() implies is_digit(#[trigger] longer[j]) by {
                if j < shorter.len() {
                    assert(longer[j] == shorter[j]);
                }
            }
        }
        acc = acc * 10 + (b - 48) as u128;
        if acc > limit {
            proof {
                if all_digits(body) {
                    lemma_prefix_value(body, i + 1 - start);
                }
            }
            return None;
        }
        i += 1;
    }
    assert(body.subrange(0, len - start) =~= body);
    let value: i64 = if negative {
        if acc == 9223372036854775808 {
            i64::MIN
        } else {
            -(acc as i64)
        }
    } else {
        acc as i64
    };
    Some(value)
}

/// The length of `text` in characters.
fn char_len(text: &str) -> (n: usize)
    ensures
        n == text@.len(),
{
    text.unicode_len()
}

/// Whether `text` begins with `prefix`.
pub fn starts_with(text: &str, prefix: &str) -> (found: bool)
    ensures
        found == has_prefix(text@, prefix@),
{
    let n = char_len(text);
    let m = char_len(prefix);
    if m > n {
        return false;
    }
    let head = String::from_str(text.substring_char(0, m));
    let wanted = String::from_str(prefix);
    head == wanted
}

/// What follows `prefix` in `text`, where `text` begins with it.
pub fn strip_prefix(text: &str, prefix: &str) -> (rest: Option<String>)
    ensures
        rest.deep_view() == without_prefix(text@, prefix@),
{
    if starts_with(text, prefix) {
        let n = char_len(text);
        let m = char_len(prefix);
        Some(String::from_str(text.substring_char(m, n)))
    } else {
        None
    }
}

/// Whether `needle` occurs somewhere in `haystack`.
pub fn contains(haystack: &str, needle: &str) -> (found: bool)
    ensures
        found == occurs_in(needle@, haystack@),
{
    let n = char_len(haystack);
    let m = char_len(needle);
    if m > n {
        assert(forall|i: int| !occurs_at(needle@, haystack@, i));
        return false;
    }
    let wanted = String::from_str(needle);
    let last: usize = n - m;
    let mut i: usize = 0;
    loop
        invariant
            n == haystack@.len(),
            m == needle@.len(),
            wanted@ == needle@,
            last == n - m,
            i <= last,
            forall|j: int| 0 <= j < i ==> !occurs_at(needle@, haystack@, j),
        decreases last - i,
    {
        let window = String::from_str(haystack.substring_char(i, i + m));
        if window == wanted {
            assert(occurs_at(needle@, haystack@, i as int));
            return true;
        }
        if i == last {
            assert(forall|j: int| !occurs_at(needle@, haystack@, j));
            return false;
        }
        i += 1;
    }
}

/// A copy of `text` with its ASCII capitals made small, from
/// `str::to_ascii_lowercase`: the standard library documents that the
/// letters `A` to `Z` are mapped to `a` to `z` and that every other
/// character is left unchanged.
#[verifier::external_body]
pub(crate) fn to_ascii_lowercase(text: &str) -> (lowered: String)
    ensures
        lowered@ == ascii_lowercase(text@),
{
    text.to_ascii_lowercase()
}

} // verus!
