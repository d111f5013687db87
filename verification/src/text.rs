//! Building and reading text: joining, decimal numbers, percent-encoding,
//! trimming and searching.

use vstd::prelude::*;
use vstd::utf8::encode_utf8;

verus! {

/// The first `count` of `parts`, with `separator` between neighbours.
pub open spec fn joined_prefix(parts: Seq<Seq<char>>, separator: Seq<char>, count: nat) -> Seq<char>
    decreases count,
{
    if count == 0 {
        Seq::empty()
    } else if count == 1 {
        parts[0]
    } else {
        joined_prefix(parts, separator, (count - 1) as nat) + separator + parts[count - 1]
    }
}

/// All of `parts`, with `separator` between neighbours.
pub open spec fn joined(parts: Seq<Seq<char>>, separator: Seq<char>) -> Seq<char> {
    joined_prefix(parts, separator, parts.len())
}

/// The character that writes the digit `d`.
pub open spec fn digit_char(d: nat) -> char {
    if d == 0 {
        '0'
    } else if d == 1 {
        '1'
    } else if d == 2 {
        '2'
    } else if d == 3 {
        '3'
    } else if d == 4 {
        '4'
    } else if d == 5 {
        '5'
    } else if d == 6 {
        '6'
    } else if d == 7 {
        '7'
    } else if d == 8 {
        '8'
    } else {
        '9'
    }
}

/// The decimal digits of `n`, most significant first, without leading zeros.
pub open spec fn decimal(n: nat) -> Seq<char>
    decreases n,
{
    if n < 10 {
        seq![digit_char(n)]
    } else {
        decimal(n / 10).push(digit_char(n % 10))
    }
}

/// A byte that percent-encoding leaves as it is: an ASCII letter or digit, or
/// one of `-`, `.`, `_`, `~`.
pub open spec fn is_unreserved(byte: u8) -> bool {
    ||| 0x30 <= byte <= 0x39
    ||| 0x41 <= byte <= 0x5a
    ||| 0x61 <= byte <= 0x7a
    ||| byte == 0x2d
    ||| byte == 0x2e
    ||| byte == 0x5f
    ||| byte == 0x7e
}

/// The upper-case hexadecimal digit for a value below sixteen.
pub open spec fn hex_char(nibble: u8) -> char {
    if nibble < 10 {
        (0x30 + nibble) as char
    } else {
        (0x37 + nibble) as char
    }
}

/// What percent-encoding writes for one byte.
pub open spec fn encoded_byte(byte: u8) -> Seq<char> {
    if is_unreserved(byte) {
        seq![byte as char]
    } else {
        seq!['%', hex_char(byte / 16), hex_char(byte % 16)]
    }
}

/// What percent-encoding writes for a run of bytes.
pub open spec fn percent_encoded(bytes: Seq<u8>) -> Seq<char>
    decreases bytes.len(),
{
    if bytes.len() == 0 {
        Seq::empty()
    } else {
        percent_encoded(bytes.drop_last()) + encoded_byte(bytes.last())
    }
}

/// A character with the Unicode property `White_Space`.
pub open spec fn is_space(c: char) -> bool {
    let n = c as u32;
    ||| 0x09 <= n <= 0x0d
    ||| n == 0x20
    ||| n == 0x85
    ||| n == 0xa0
    ||| n == 0x1680
    ||| 0x2000 <= n <= 0x200a
    ||| n == 0x2028
    ||| n == 0x2029
    ||| n == 0x202f
    ||| n == 0x205f
    ||| n == 0x3000
}

/// `text` without the white space it begins with.
pub open spec fn trimmed_start(text: Seq<char>) -> Seq<char>
    decreases text.len(),
{
    if text.len() > 0 && is_space(text[0]) {
        trimmed_start(text.drop_first())
    } else {
        text
    }
}

/// `text` without the white space it ends with.
pub open spec fn trimmed_end(text: Seq<char>) -> Seq<char>
    decreases text.len(),
{
    if text.len() > 0 && is_space(text.last()) {
        trimmed_end(text.drop_last())
    } else {
        text
    }
}

/// `text` without the white space at either end.
pub open spec fn trimmed(text: Seq<char>) -> Seq<char> {
    trimmed_end(trimmed_start(text))
}

/// `needle` occurs in `text` as a run of neighbouring characters.
pub open spec fn has_infix(text: Seq<char>, needle: Seq<char>) -> bool {
    exists|start: int|
        0 <= start && start + needle.len() <= text.len() && #[trigger] text.subrange(
            start,
            start + needle.len(),
        ) == needle
}

/// The first `count` parts joined do not depend on what follows them.
pub proof fn lemma_joined_prefix_agrees(
    a: Seq<Seq<char>>,
    b: Seq<Seq<char>>,
    separator: Seq<char>,
    count: nat,
)
    requires
        count <= a.len(),
        count <= b.len(),
        forall|i: int| 0 <= i < count ==> a[i] == b[i],
    ensures
        joined_prefix(a, separator, count) == joined_prefix(b, separator, count),
    decreases count,
{
    if count > 1 {
        lemma_joined_prefix_agrees(a, b, separator, (count - 1) as nat);
    }
}

/// A character that may stand in a query parameter without ending it: an
/// ASCII letter or digit, one of `-`, `.`, `_`, `~`, or `%`.
pub open spec fn is_query_safe(c: char) -> bool {
    let n = c as u32;
    ||| 0x30 <= n <= 0x39
    ||| 0x41 <= n <= 0x5a
    ||| 0x61 <= n <= 0x7a
    ||| n == 0x2d
    ||| n == 0x2e
    ||| n == 0x5f
    ||| n == 0x7e
    ||| n == 0x25
}

/// Percent-encoded text holds nothing that could end a query parameter or
/// begin another.
pub proof fn lemma_encoded_is_query_safe(bytes: Seq<u8>)
    ensures
        forall|i: int|
            0 <= i < percent_encoded(bytes).len() ==> is_query_safe(
                #[trigger] percent_encoded(bytes)[i],
            ),
    decreases bytes.len(),
{
    if bytes.len() > 0 {
        lemma_encoded_is_query_safe(bytes.drop_last());
        let head = percent_encoded(bytes.drop_last());
        let last = encoded_byte(bytes.last());
        assert(forall|i: int| 0 <= i < last.len() ==> is_query_safe(#[trigger] last[i]));
        assert forall|i: int| 0 <= i < percent_encoded(bytes).len() implies is_query_safe(
            #[trigger] percent_encoded(bytes)[i],
        ) by {
            if i < head.len() {
                assert(percent_encoded(bytes)[i] == head[i]);
            } else {
                assert(percent_encoded(bytes)[i] == last[i - head.len()]);
            }
        }
    }
}

/// Calls `urlencoding::encode`. Believed: the result is the UTF-8 bytes of
/// the text, each written as itself when it is unreserved and as `%` with two
/// upper-case hexadecimal digits when it is not.
#[verifier::external_body]
pub(crate) fn url_encode(text: &str) -> (r: String)
    ensures
        r@ == percent_encoded(encode_utf8(text@)),
{
    urlencoding::encode(text).into_owned()
}

/// Calls `str::trim`. Believed: the result is the text without the
/// `White_Space` characters at its two ends.
#[verifier::external_body]
pub(crate) fn trim(text: &str) -> (r: &str)
    ensures
        r@ == trimmed(text@),
{
    text.trim()
}

/// Calls `str::contains` with a string pattern. Believed: the result says
/// whether the pattern occurs somewhere in the text.
#[verifier::external_body]
pub(crate) fn contains(text: &str, needle: &str) -> (r: bool)
    ensures
        r == has_infix(text@, needle@),
{
    text.contains(needle)
}

/// An owned copy of a piece of text.
pub fn owned(text: &str) -> (r: String)
    ensures
        r@ == text@,
{
    text.to_owned()
}

/// Whether two pieces of text hold the same characters.
pub fn same_text(a: &str, b: &str) -> (r: bool)
    ensures
        r == (a@ == b@),
{
    let left = a.to_owned();
    let right = b.to_owned();
    left == right
}

/// Joins `parts`, putting `separator` between neighbours.
pub fn join(parts: &Vec<String>, separator: &str) -> (r: String)
    ensures
        r@ == joined(parts.deep_view(), separator@),
{
    let mut out = String::new();
    let mut i: usize = 0;
    while i < parts.len()
        invariant
            i <= parts.len(),
            out@ == joined_prefix(parts.deep_view(), separator@, i as nat),
        decreases parts.len() - i,
    {
        if i > 0 {
            out.append(separator);
        }
        out.append(parts[i].as_str());
        i += 1;
    }
    out
}

fn digit_text(d: u16) -> (r: &'static str)
    requires
        d < 10,
    ensures
        r@ == seq![digit_char(d as nat)],
{
    proof {
        reveal_strlit("0");
        reveal_strlit("1");
        reveal_strlit("2");
        reveal_strlit("3");
        reveal_strlit("4");
        reveal_strlit("5");
        reveal_strlit("6");
        reveal_strlit("7");
        reveal_strlit("8");
        reveal_strlit("9");
    }
    let r = if d == 0 {
        "0"
    } else if d == 1 {
        "1"
    } else if d == 2 {
        "2"
    } else if d == 3 {
        "3"
    } else if d == 4 {
        "4"
    } else if d == 5 {
        "5"
    } else if d == 6 {
        "6"
    } else if d == 7 {
        "7"
    } else if d == 8 {
        "8"
    } else {
        "9"
    };
    assert(r@ =~= seq![digit_char(d as nat)]);
    r
}

/// Writes a number in decimal.
pub fn decimal_text(n: u16) -> (r: String)
    ensures
        r@ == decimal(n as nat),
{
    let mut out = digit_text(n % 10).to_owned();
    let mut rest: u16 = n / 10;
    assert(decimal(n as nat) =~= if rest > 0 {
        decimal(rest as nat) + out@
    } else {
        out@
    });
    while rest > 0
        invariant
            decimal(n as nat) == if rest > 0 {
                decimal(rest as nat) + out@
            } else {
                out@
            },
        decreases rest,
    {
        let ghost before = out@;
        let ghost high = rest;
        out = digit_text(rest % 10).to_owned().concat(out.as_str());
        rest = rest / 10;
        assert(decimal(high as nat) + before =~= if rest > 0 {
            decimal(rest as nat) + out@
        } else {
            out@
        });
    }
    out
}

} // verus!
