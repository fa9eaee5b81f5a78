//! Finding the dotted-quad IPv4 address inside a raw address field.
//!
//! An octet is written in decimal, without leading zeros, and is at most 255.
//! A dotted quad is four octets joined by single dots. A quad is recognised
//! in a text where it is not directly followed by a further digit, so that
//! `1.2.3.4/24` holds the quad `1.2.3.4` while `1.2.3.456` holds none.
//! Nothing is asked of what stands before a quad: `999.1.1.1` holds
//! `99.1.1.1`. Of the quads that a text holds, the one that starts first is
//! its address. Only ASCII digits count as digits.

use vstd::prelude::*;
use crate::text::{decimal_text, digit_char, digit_value, is_digit, lemma_digit_round_trip};

verus! {

/// The text `a.b.c.d`.
pub open spec fn quad_text(a: nat, b: nat, c: nat, d: nat) -> Seq<char> {
    decimal_text(a) + seq!['.'] + decimal_text(b) + seq!['.'] + decimal_text(c) + seq!['.']
        + decimal_text(d)
}

/// `t` is a dotted quad: `a.b.c.d` with each of the four at most 255.
pub open spec fn is_quad_text(t: Seq<char>) -> bool {
    exists|a: nat, b: nat, c: nat, d: nat|
        a <= 255 && b <= 255 && c <= 255 && d <= 255 && t == #[trigger] quad_text(a, b, c, d)
}

/// The characters of `s` from `start` up to `end` are a dotted quad, and no
/// digit follows them.
pub open spec fn quad_match(s: Seq<char>, start: int, end: int) -> bool {
    &&& 0 <= start <= end <= s.len()
    &&& is_quad_text(s.subrange(start, end))
    &&& end < s.len() ==> !is_digit(s[end])
}

/// `start..end` is a match, and no match starts before `start`.
pub open spec fn first_quad_match(s: Seq<char>, start: int, end: int) -> bool {
    &&& quad_match(s, start, end)
    &&& forall|i: int, e: int| i < start ==> !quad_match(s, i, e)
}

/// The leftmost dotted quad of `s`, if it holds any.
pub open spec fn normalized(s: Seq<char>) -> Option<Seq<char>> {
    if exists|i: int, e: int| first_quad_match(s, i, e) {
        let (i, e) = choose|i: int, e: int| first_quad_match(s, i, e);
        Some(s.subrange(i, e))
    } else {
        None
    }
}

/// What normalisation makes of an address field that may be absent.
pub open spec fn normalized_field(raw: Option<Seq<char>>) -> Option<Seq<char>> {
    match raw {
        Some(s) => normalized(s),
        None => None,
    }
}

/// The characters of an optional string.
pub open spec fn field_text(field: Option<String>) -> Option<Seq<char>> {
    match field {
        Some(s) => Some(s@),
        None => None,
    }
}

// ---------------------------------------------------------------------------
// How a match is found: one octet at a time.

/// Where the octet that starts at `p` ends: the digits from `p` on, up to the
/// first character that is no digit, if they form an octet.
#[verifier::opaque]
spec fn octet_end(s: Seq<char>, p: int) -> Option<int> {
    if !(0 <= p < s.len()) || !is_digit(s[p]) {
        None
    } else if p + 1 >= s.len() || !is_digit(s[p + 1]) {
        Some(p + 1)
    } else if s[p] == '0' {
        None
    } else if p + 2 >= s.len() || !is_digit(s[p + 2]) {
        Some(p + 2)
    } else if p + 3 < s.len() && is_digit(s[p + 3]) {
        None
    } else if 100 * digit_value(s[p]) + 10 * digit_value(s[p + 1]) + digit_value(s[p + 2]) <= 255 {
        Some(p + 3)
    } else {
        None
    }
}

/// Where the octet at `p` ends, if a dot follows it.
spec fn dotted_octet_end(s: Seq<char>, p: int) -> Option<int> {
    match octet_end(s, p) {
        Some(q) => if q < s.len() && s[q] == '.' {
            Some(q + 1)
        } else {
            None
        },
        None => None,
    }
}

/// Where the dotted quad that starts at `i` ends.
spec fn quad_end(s: Seq<char>, i: int) -> Option<int> {
    match dotted_octet_end(s, i) {
        Some(after_a) => match dotted_octet_end(s, after_a) {
            Some(after_b) => match dotted_octet_end(s, after_b) {
                Some(after_c) => octet_end(s, after_c),
                None => None,
            },
            None => None,
        },
        None => None,
    }
}

/// The decimal notation of a number below 1000, digit by digit.
proof fn lemma_decimal_text_shape(v: nat)
    requires
        v < 1000,
    ensures
        v < 10 ==> decimal_text(v) == seq![digit_char(v)],
        10 <= v < 100 ==> decimal_text(v) == seq![digit_char(v / 10), digit_char(v % 10)],
        100 <= v ==> decimal_text(v) == seq![
            digit_char(v / 100),
            digit_char((v / 10) % 10),
            digit_char(v % 10),
        ],
{
    reveal_with_fuel(decimal_text, 3);
    if 10 <= v < 100 {
        assert(decimal_text(v) =~= seq![digit_char(v / 10), digit_char(v % 10)]);
    } else if 100 <= v {
        assert((v / 10) / 10 == v / 100);
        assert(decimal_text(v) =~= seq![
            digit_char(v / 100),
            digit_char((v / 10) % 10),
            digit_char(v % 10),
        ]);
    }
}

/// An octet that `octet_end` finds is the decimal notation of a number up to
/// 255, and no digit follows it.
proof fn lemma_octet_sound(s: Seq<char>, p: int) -> (v: nat)
    requires
        octet_end(s, p) is Some,
    ensures
        v <= 255,
        0 <= p < octet_end(s, p)->0 <= s.len(),
        s.subrange(p, octet_end(s, p)->0) == decimal_text(v),
        octet_end(s, p)->0 < s.len() ==> !is_digit(s[octet_end(s, p)->0]),
{
    reveal(octet_end);
    lemma_digit_round_trip();
    let q = octet_end(s, p)->0;
    let d0 = digit_value(s[p]);
    if q == p + 1 {
        lemma_decimal_text_shape(d0);
        assert(s.subrange(p, q) =~= seq![s[p]]);
        d0
    } else if q == p + 2 {
        let d1 = digit_value(s[p + 1]);
        let v = 10 * d0 + d1;
        lemma_decimal_text_shape(v);
        assert(v / 10 == d0 && v % 10 == d1);
        assert(s.subrange(p, q) =~= seq![s[p], s[p + 1]]);
        v
    } else {
        let d1 = digit_value(s[p + 1]);
        let d2 = digit_value(s[p + 2]);
        let v = 100 * d0 + 10 * d1 + d2;
        lemma_decimal_text_shape(v);
        assert(v / 100 == d0 && (v / 10) % 10 == d1 && v % 10 == d2);
        assert(s.subrange(p, q) =~= seq![s[p], s[p + 1], s[p + 2]]);
        v
    }
}

/// Where the decimal notation of a number up to 255 stands at `p` and no
/// digit follows it, `octet_end` finds it.
proof fn lemma_octet_complete(s: Seq<char>, p: int, q: int, v: nat)
    requires
        0 <= p <= q <= s.len(),
        v <= 255,
        s.subrange(p, q) == decimal_text(v),
        q < s.len() ==> !is_digit(s[q]),
    ensures
        octet_end(s, p) == Some(q),
{
    reveal(octet_end);
    lemma_digit_round_trip();
    lemma_decimal_text_shape(v);
    let t = s.subrange(p, q);
    if v < 10 {
        assert(t.len() == 1);
        assert(t[0] == s[p]);
    } else if v < 100 {
        assert(t.len() == 2);
        assert(t[0] == s[p] && t[1] == s[p + 1]);
        assert(v / 10 >= 1);
    } else {
        assert(t.len() == 3);
        assert(t[0] == s[p] && t[1] == s[p + 1] && t[2] == s[p + 2]);
        assert(v / 100 >= 1);
        assert(100 * (v / 100) + 10 * ((v / 10) % 10) + v % 10 == v);
    }
}

/// The length of a decimal notation of a number up to 255.
proof fn lemma_octet_text_len(v: nat)
    requires
        v <= 255,
    ensures
        1 <= decimal_text(v).len() <= 3,
{
    lemma_decimal_text_shape(v);
}

/// Two texts that stand one after the other stand there as one.
proof fn lemma_join_at(s: Seq<char>, i: int, m: int, e: int, head: Seq<char>, tail: Seq<char>)
    requires
        0 <= i <= m <= e <= s.len(),
        s.subrange(i, m) == head,
        s.subrange(m, e) == tail,
    ensures
        s.subrange(i, e) == head + tail,
{
    assert(s.subrange(i, e) =~= s.subrange(i, m) + s.subrange(m, e));
}

/// What `quad_end` finds is a match.
proof fn lemma_quad_sound(s: Seq<char>, i: int)
    requires
        quad_end(s, i) is Some,
    ensures
        quad_match(s, i, quad_end(s, i)->0),
{
    let after_a = dotted_octet_end(s, i)->0;
    let after_b = dotted_octet_end(s, after_a)->0;
    let after_c = dotted_octet_end(s, after_b)->0;
    let e = octet_end(s, after_c)->0;
    let a = lemma_octet_sound(s, i);
    let b = lemma_octet_sound(s, after_a);
    let c = lemma_octet_sound(s, after_b);
    let d = lemma_octet_sound(s, after_c);
    let dot = seq!['.'];
    let ta = decimal_text(a);
    let tb = decimal_text(b);
    let tc = decimal_text(c);
    let td = decimal_text(d);
    assert(s.subrange(after_a - 1, after_a) =~= dot);
    assert(s.subrange(after_b - 1, after_b) =~= dot);
    assert(s.subrange(after_c - 1, after_c) =~= dot);
    lemma_join_at(s, i, after_a - 1, after_a, ta, dot);
    lemma_join_at(s, i, after_a, after_b - 1, ta + dot, tb);
    lemma_join_at(s, i, after_b - 1, after_b, ta + dot + tb, dot);
    lemma_join_at(s, i, after_b, after_c - 1, ta + dot + tb + dot, tc);
    lemma_join_at(s, i, after_c - 1, after_c, ta + dot + tb + dot + tc, dot);
    lemma_join_at(s, i, after_c, e, ta + dot + tb + dot + tc + dot, td);
    assert(s.subrange(i, e) == quad_text(a, b, c, d));
}

/// A text that stands at `i..e` as `head + tail` has `head` first and `tail`
/// after it.
proof fn lemma_split_at(s: Seq<char>, i: int, e: int, head: Seq<char>, tail: Seq<char>)
    requires
        0 <= i <= e <= s.len(),
        s.subrange(i, e) == head + tail,
    ensures
        i + head.len() + tail.len() == e,
        s.subrange(i, i + head.len()) == head,
        s.subrange(i + head.len(), e) == tail,
{
    let t = s.subrange(i, e);
    assert(t.len() == head.len() + tail.len());
    assert forall|k: int| 0 <= k < head.len() implies s[i + k] == head[k] by {
        assert(t[k] == head[k]);
    }
    assert forall|k: int| 0 <= k < tail.len() implies s[i + head.len() + k] == tail[k] by {
        assert(t[head.len() + k] == tail[k]);
    }
    assert(s.subrange(i, i + head.len()) =~= head);
    assert(s.subrange(i + head.len(), e) =~= tail);
}

/// Every match is what `quad_end` finds.
proof fn lemma_quad_complete(s: Seq<char>, i: int, e: int)
    requires
        quad_match(s, i, e),
    ensures
        quad_end(s, i) == Some(e),
{
    let t = s.subrange(i, e);
    let (a, b, c, d) = choose|a: nat, b: nat, c: nat, d: nat|
        a <= 255 && b <= 255 && c <= 255 && d <= 255 && t == #[trigger] quad_text(a, b, c, d);
    lemma_octet_text_len(a);
    lemma_octet_text_len(b);
    lemma_octet_text_len(c);
    lemma_octet_text_len(d);
    let dot = seq!['.'];
    let ta = decimal_text(a);
    let tb = decimal_text(b);
    let tc = decimal_text(c);
    let td = decimal_text(d);
    let q1 = i + ta.len();
    let q2 = q1 + 1 + tb.len();
    let q3 = q2 + 1 + tc.len();
    lemma_split_at(s, i, e, ta + dot + tb + dot + tc + dot, td);
    lemma_split_at(s, i, q3 + 1, ta + dot + tb + dot + tc, dot);
    lemma_split_at(s, i, q3, ta + dot + tb + dot, tc);
    lemma_split_at(s, i, q2 + 1, ta + dot + tb, dot);
    lemma_split_at(s, i, q2, ta + dot, tb);
    lemma_split_at(s, i, q1 + 1, ta, dot);
    assert(s[q1] == '.') by {
        assert(s.subrange(q1, q1 + 1)[0] == '.');
    }
    assert(s[q2] == '.') by {
        assert(s.subrange(q2, q2 + 1)[0] == '.');
    }
    assert(s[q3] == '.') by {
        assert(s.subrange(q3, q3 + 1)[0] == '.');
    }
    lemma_octet_complete(s, i, q1, a);
    lemma_octet_complete(s, q1 + 1, q2, b);
    lemma_octet_complete(s, q2 + 1, q3, c);
    lemma_octet_complete(s, q3 + 1, e, d);
}

/// A match that starts at a given place ends at one place only.
pub proof fn lemma_match_end_unique(s: Seq<char>, i: int, e1: int, e2: int)
    requires
        quad_match(s, i, e1),
        quad_match(s, i, e2),
    ensures
        e1 == e2,
{
    lemma_quad_complete(s, i, e1);
    lemma_quad_complete(s, i, e2);
}

/// The first match of a text is what normalisation returns.
pub proof fn lemma_first_match_is_normalized(s: Seq<char>, i: int, e: int)
    requires
        first_quad_match(s, i, e),
    ensures
        normalized(s) == Some(s.subrange(i, e)),
{
    let (i2, e2) = choose|i2: int, e2: int| first_quad_match(s, i2, e2);
    assert(i2 == i);
    lemma_match_end_unique(s, i, e, e2);
}

/// A text that holds no dotted quad has no normalised address.
pub proof fn lemma_no_match_is_none(s: Seq<char>)
    requires
        forall|i: int, e: int| !quad_match(s, i, e),
    ensures
        normalized(s) is None,
{
}

/// Whatever normalisation returns is a dotted quad, and normalising it again
/// returns it unchanged.
pub proof fn lemma_normalized_is_quad(s: Seq<char>)
    requires
        normalized(s) is Some,
    ensures
        is_quad_text(normalized(s)->0),
        normalized(normalized(s)->0) == normalized(s),
{
    let (i, e) = choose|i: int, e: int| first_quad_match(s, i, e);
    let t = s.subrange(i, e);
    assert(t.subrange(0, t.len() as int) =~= t);
    assert(first_quad_match(t, 0, t.len() as int));
    lemma_first_match_is_normalized(t, 0, t.len() as int);
}

/// A dotted quad at the start of a text, followed by nothing or by a
/// character that is no digit, is the normalised address of that text.
pub proof fn lemma_leading_quad_normalizes(a: nat, b: nat, c: nat, d: nat, suffix: Seq<char>)
    requires
        a <= 255,
        b <= 255,
        c <= 255,
        d <= 255,
        suffix.len() > 0 ==> !is_digit(suffix[0]),
    ensures
        normalized(quad_text(a, b, c, d) + suffix) == Some(quad_text(a, b, c, d)),
{
    let q = quad_text(a, b, c, d);
    let s = q + suffix;
    assert(s.subrange(0, q.len() as int) =~= q);
    assert(q.len() < s.len() ==> s[q.len() as int] == suffix[0]);
    assert(first_quad_match(s, 0, q.len() as int));
    lemma_first_match_is_normalized(s, 0, q.len() as int);
}

/// For `a`, `b`, `c` and `d` from 0 to 255, the text `a.b.c.d` normalises to
/// itself, and so does `a.b.c.d/e` to `a.b.c.d`, whatever `e` is.
pub proof fn lemma_dotted_quad_normalizes(a: nat, b: nat, c: nat, d: nat, e: Seq<char>)
    requires
        a <= 255,
        b <= 255,
        c <= 255,
        d <= 255,
    ensures
        normalized(quad_text(a, b, c, d)) == Some(quad_text(a, b, c, d)),
        normalized(quad_text(a, b, c, d) + seq!['/'] + e) == Some(quad_text(a, b, c, d)),
{
    let q = quad_text(a, b, c, d);
    lemma_leading_quad_normalizes(a, b, c, d, Seq::empty());
    assert(q + Seq::<char>::empty() =~= q);
    lemma_leading_quad_normalizes(a, b, c, d, seq!['/'] + e);
    assert(q + (seq!['/'] + e) =~= q + seq!['/'] + e);
}

fn is_ascii_digit(c: char) -> (r: bool)
    ensures
        r == is_digit(c),
{
    '0' <= c && c <= '9'
}

fn ascii_digit_value(c: char) -> (v: u32)
    requires
        is_digit(c),
    ensures
        v == digit_value(c),
        v < 10,
{
    c as u32 - '0' as u32
}

/// The characters of a string, one by one.
fn text_chars(text: &str) -> (chars: Vec<char>)
    ensures
        chars@ == text@,
{
    let mut chars: Vec<char> = Vec::new();
    for c in it: text.chars()
        invariant
            chars@ == it.seq().take(it.index() as int),
            it.seq() == text@,
    {
        chars.push(c);
    }
    chars
}

fn scan_octet(chars: &Vec<char>, p: usize) -> (r: Option<usize>)
    ensures
        match r {
            Some(q) => octet_end(chars@, p as int) == Some(q as int),
            None => octet_end(chars@, p as int) is None,
        },
{
    proof {
        reveal(octet_end);
    }
    let n = chars.len();
    if p >= n || !is_ascii_digit(chars[p]) {
        return None;
    }
    if p + 1 >= n || !is_ascii_digit(chars[p + 1]) {
        return Some(p + 1);
    }
    if chars[p] == '0' {
        return None;
    }
    if p + 2 >= n || !is_ascii_digit(chars[p + 2]) {
        return Some(p + 2);
    }
    if p + 3 < n && is_ascii_digit(chars[p + 3]) {
        return None;
    }
    let value: u32 = 100 * ascii_digit_value(chars[p]) + 10 * ascii_digit_value(chars[p + 1])
        + ascii_digit_value(chars[p + 2]);
    if value <= 255 {
        Some(p + 3)
    } else {
        None
    }
}

fn scan_dotted_octet(chars: &Vec<char>, p: usize) -> (r: Option<usize>)
    ensures
        match r {
            Some(q) => dotted_octet_end(chars@, p as int) == Some(q as int),
            None => dotted_octet_end(chars@, p as int) is None,
        },
{
    match scan_octet(chars, p) {
        Some(q) => if q < chars.len() && chars[q] == '.' {
            Some(q + 1)
        } else {
            None
        },
        None => None,
    }
}

fn scan_quad(chars: &Vec<char>, i: usize) -> (r: Option<usize>)
    ensures
        match r {
            Some(e) => quad_end(chars@, i as int) == Some(e as int),
            None => quad_end(chars@, i as int) is None,
        },
{
    match scan_dotted_octet(chars, i) {
        Some(after_a) => match scan_dotted_octet(chars, after_a) {
            Some(after_b) => match scan_dotted_octet(chars, after_b) {
                Some(after_c) => scan_octet(chars, after_c),
                None => None,
            },
            None => None,
        },
        None => None,
    }
}

/// Where the leftmost dotted quad of `chars` starts and ends.
fn find_quad(chars: &Vec<char>) -> (r: Option<(usize, usize)>)
    ensures
        match r {
            Some((i, e)) => first_quad_match(chars@, i as int, e as int),
            None => forall|i: int, e: int| !quad_match(chars@, i, e),
        },
{
    let n = chars.len();
    let mut i: usize = 0;
    while i < n
        invariant
            i <= n,
            n == chars.len(),
            forall|j: int| 0 <= j < i ==> quad_end(chars@, j) is None,
        decreases n - i,
    {
        match scan_quad(chars, i) {
            Some(e) => {
                proof {
                    lemma_quad_sound(chars@, i as int);
                    assert forall|j: int, f: int| j < i implies !quad_match(chars@, j, f) by {
                        if quad_match(chars@, j, f) {
                            lemma_quad_complete(chars@, j, f);
                        }
                    }
                }
                return Some((i, e));
            },
            None => {},
        }
        i += 1;
    }
    proof {
        assert forall|j: int, f: int| !quad_match(chars@, j, f) by {
            if quad_match(chars@, j, f) {
                lemma_quad_complete(chars@, j, f);
                assert(j < n) by {
                    reveal(octet_end);
                }
            }
        }
    }
    None
}

/// Extracts the IPv4 address from a raw address field: the leftmost dotted
/// quad of the text, without whatever stands before or after it (such as a
/// CIDR suffix). An absent field, and one that holds no dotted quad, give no
/// address.
pub fn normalize_ip_address(raw: Option<String>) -> (address: Option<String>)
    ensures
        field_text(address) == normalized_field(field_text(raw)),
{
    match raw {
        Some(text) => {
            let chars = text_chars(text.as_str());
            match find_quad(&chars) {
                Some((i, e)) => {
                    proof {
                        lemma_first_match_is_normalized(text@, i as int, e as int);
                    }
                    let quad = text.as_str().substring_char(i, e);
                    Some(String::from_str(quad))
                },
                None => {
                    proof {
                        lemma_no_match_is_none(text@);
                    }
                    None
                },
            }
        },
        None => None,
    }
}

} // verus!
