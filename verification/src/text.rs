//! Character-level text helpers used by the analysis: splitting text into
//! lines, trimming whitespace, searching for substrings, and the byte-level
//! prefix and suffix cuts that the report's redaction uses.

use vstd::prelude::*;
use vstd::utf8::*;

verus! {

// ---------------------------------------------------------------------------
// Whitespace and trimming
// ---------------------------------------------------------------------------

/// The Unicode `White_Space` property, which `char::is_whitespace` and
/// `str::trim` go by.
pub open spec fn is_whitespace(c: char) -> bool {
    ||| ('\t' <= c && c <= '\r')
    ||| c == ' '
    ||| c == '\u{85}'
    ||| c == '\u{A0}'
    ||| c == '\u{1680}'
    ||| ('\u{2000}' <= c && c <= '\u{200A}')
    ||| c == '\u{2028}'
    ||| c == '\u{2029}'
    ||| c == '\u{202F}'
    ||| c == '\u{205F}'
    ||| c == '\u{3000}'
}

/// `s` without its leading whitespace.
pub open spec fn trim_start(s: Seq<char>) -> Seq<char>
    decreases s.len(),
{
    if s.len() > 0 && is_whitespace(s[0]) {
        trim_start(s.drop_first())
    } else {
        s
    }
}

/// `s` without its trailing whitespace.
pub open spec fn trim_end(s: Seq<char>) -> Seq<char>
    decreases s.len(),
{
    if s.len() > 0 && is_whitespace(s.last()) {
        trim_end(s.drop_last())
    } else {
        s
    }
}

/// `s` without leading and trailing whitespace, as `str::trim` gives it.
pub open spec fn trim(s: Seq<char>) -> Seq<char> {
    trim_end(trim_start(s))
}

/// Whether `c` is whitespace.
pub fn is_whitespace_char(c: char) -> (r: bool)
    ensures
        r == is_whitespace(c),
{
    ('\t' <= c && c <= '\r') || c == ' ' || c == '\u{85}' || c == '\u{A0}' || c == '\u{1680}'
        || ('\u{2000}' <= c && c <= '\u{200A}') || c == '\u{2028}' || c == '\u{2029}'
        || c == '\u{202F}' || c == '\u{205F}' || c == '\u{3000}'
}

/// The bounds of the trimmed part of `cs`: `cs[start..end]` is `trim(cs)`.
pub fn trim_bounds(cs: &Vec<char>) -> (r: (usize, usize))
    ensures
        r.0 <= r.1 <= cs@.len(),
        cs@.subrange(r.0 as int, r.1 as int) == trim(cs@),
{
    let len = cs.len();
    let mut a: usize = 0;
    assert(cs@.subrange(0, len as int) =~= cs@);
    while a < len && is_whitespace_char(cs[a])
        invariant
            len == cs@.len(),
            a <= len,
            trim_start(cs@) == trim_start(cs@.subrange(a as int, len as int)),
        decreases len - a,
    {
        assert(cs@.subrange(a as int, len as int).drop_first() =~= cs@.subrange(
            a + 1,
            len as int,
        ));
        a = a + 1;
    }
    let ghost rest = cs@.subrange(a as int, len as int);
    assert(trim_start(rest) == rest);
    let mut b: usize = len;
    while b > a && is_whitespace_char(cs[b - 1])
        invariant
            len == cs@.len(),
            a <= b <= len,
            trim_end(rest) == trim_end(cs@.subrange(a as int, b as int)),
            rest == cs@.subrange(a as int, len as int),
        decreases b,
    {
        assert(cs@.subrange(a as int, b as int).drop_last() =~= cs@.subrange(
            a as int,
            b - 1,
        ));
        b = b - 1;
    }
    (a, b)
}

// ---------------------------------------------------------------------------
// Substrings
// ---------------------------------------------------------------------------

/// `p` occurs in `s` starting at index `i`.
pub open spec fn occurs_at(s: Seq<char>, p: Seq<char>, i: int) -> bool {
    0 <= i && i + p.len() <= s.len() && s.subrange(i, i + p.len()) == p
}

/// `p` occurs somewhere in `s`, as `str::contains` tests it.
pub open spec fn seq_contains(s: Seq<char>, p: Seq<char>) -> bool {
    exists|i: int| #[trigger] occurs_at(s, p, i)
}

/// `s` begins with `p`, as `str::starts_with` tests it.
pub open spec fn seq_starts_with(s: Seq<char>, p: Seq<char>) -> bool {
    occurs_at(s, p, 0)
}

/// Whether `p` occurs in `s` at index `i`.
pub fn occurs_at_index(s: &Vec<char>, p: &Vec<char>, i: usize) -> (r: bool)
    ensures
        r == occurs_at(s@, p@, i as int),
{
    if i > s.len() || p.len() > s.len() - i {
        return false;
    }
    let slen = s.len();
    let mut k: usize = 0;
    while k < p.len()
        invariant
            slen == s@.len(),
            i + p@.len() <= s@.len(),
            k <= p@.len(),
            forall|j: int| 0 <= j < k ==> s@[i + j] == p@[j],
        decreases p@.len() - k,
    {
        assert(i + k < s@.len());
        if s[i + k] != p[k] {
            assert(s@.subrange(i as int, i + p@.len())[k as int] != p@[k as int]);
            return false;
        }
        k = k + 1;
    }
    assert(s@.subrange(i as int, i + p@.len()) =~= p@);
    true
}

/// Whether `p` occurs anywhere in `s`.
pub fn contains_chars(s: &Vec<char>, p: &Vec<char>) -> (r: bool)
    ensures
        r == seq_contains(s@, p@),
{
    if p.len() > s.len() {
        assert forall|i: int| !occurs_at(s@, p@, i) by {}
        return false;
    }
    let last = s.len() - p.len();
    let mut i: usize = 0;
    while i < last
        invariant
            last == s@.len() - p@.len(),
            i <= last,
            forall|j: int| 0 <= j < i ==> !occurs_at(s@, p@, j),
        decreases last - i,
    {
        if occurs_at_index(s, p, i) {
            return true;
        }
        i = i + 1;
    }
    if occurs_at_index(s, p, last) {
        return true;
    }
    assert forall|j: int| !occurs_at(s@, p@, j) by {
        if 0 <= j <= last {
        }
    }
    false
}

/// Whether `s` begins with `p`.
pub fn starts_with_chars(s: &Vec<char>, p: &Vec<char>) -> (r: bool)
    ensures
        r == seq_starts_with(s@, p@),
{
    occurs_at_index(s, p, 0)
}

/// Whether the text `s` contains the text `p`.
pub fn str_contains(s: &str, p: &str) -> (r: bool)
    ensures
        r == seq_contains(s@, p@),
{
    let sc = chars_of(s);
    let pc = chars_of(p);
    contains_chars(&sc, &pc)
}

/// Whether the text `s` begins with the text `p`.
pub fn str_starts_with(s: &str, p: &str) -> (r: bool)
    ensures
        r == seq_starts_with(s@, p@),
{
    let sc = chars_of(s);
    let pc = chars_of(p);
    starts_with_chars(&sc, &pc)
}

/// Whether two texts are equal.
pub fn str_equal(a: &str, b: &str) -> (r: bool)
    ensures
        r == (a@ == b@),
{
    let ac = chars_of(a);
    let bc = chars_of(b);
    if ac.len() != bc.len() {
        return false;
    }
    let r = occurs_at_index(&ac, &bc, 0);
    assert(r ==> ac@.subrange(0, bc@.len() as int) =~= ac@);
    assert(!r ==> ac@ != bc@) by {
        if ac@ == bc@ {
            assert(ac@.subrange(0, bc@.len() as int) =~= bc@);
        }
    }
    r
}

// ---------------------------------------------------------------------------
// Characters and lines
// ---------------------------------------------------------------------------

/// The characters of `s`, in order.
pub fn chars_of(s: &str) -> (out: Vec<char>)
    ensures
        out@ == s@,
{
    let mut out: Vec<char> = Vec::new();
    for c in it: s.chars()
        invariant
            it.seq() == s@,
            out@ == it.seq().take(it.index() as int),
    {
        out.push(c);
    }
    out
}

/// Calls `String::from_iter` (std, `FromIterator<char>` for `String`) on
/// the characters of `cs`. Claims what its documentation says: the string is
/// those characters in order.
#[verifier::external_body]
pub(crate) fn string_of_chars(cs: Vec<char>) -> (s: String)
    ensures
        s@ == cs@,
{
    String::from_iter(cs)
}

/// A `String` holding `cs[from..to]`.
pub fn string_from_chars(cs: &Vec<char>, from: usize, to: usize) -> (s: String)
    requires
        from <= to <= cs@.len(),
    ensures
        s@ == cs@.subrange(from as int, to as int),
{
    let mut part: Vec<char> = Vec::new();
    let mut k: usize = from;
    while k < to
        invariant
            from <= k <= to <= cs@.len(),
            part@ == cs@.subrange(from as int, k as int),
        decreases to - k,
    {
        part.push(cs[k]);
        assert(part@ =~= cs@.subrange(from as int, k + 1));
        k = k + 1;
    }
    string_of_chars(part)
}

/// `x` without one trailing carriage return.
pub open spec fn strip_cr(x: Seq<char>) -> Seq<char> {
    if x.len() > 0 && x.last() == '\r' {
        x.drop_last()
    } else {
        x
    }
}

/// The lines of `s[start..]`, with the scan at index `i` of the current line
/// that began at `start`.
pub open spec fn lines_from(s: Seq<char>, start: int, i: int) -> Seq<Seq<char>>
    decreases s.len() - i,
{
    if i < 0 || i >= s.len() {
        if 0 <= start < s.len() {
            seq![s.subrange(start, s.len() as int)]
        } else {
            seq![]
        }
    } else if s[i] == '\n' {
        seq![strip_cr(s.subrange(start, i))] + lines_from(s, i + 1, i + 1)
    } else {
        lines_from(s, start, i + 1)
    }
}

/// The lines of `s` as `str::lines` yields them: split at `\n`, a `\r` just
/// before a `\n` dropped, and no empty line after a final `\n`.
pub open spec fn lines_of(s: Seq<char>) -> Seq<Seq<char>> {
    lines_from(s, 0, 0)
}

/// The lines of `s`.
pub fn text_lines(s: &str) -> (out: Vec<String>)
    ensures
        out.deep_view() == lines_of(s@),
{
    let cs = chars_of(s);
    let mut out: Vec<String> = Vec::new();
    let mut start: usize = 0;
    let mut i: usize = 0;
    while i < cs.len()
        invariant
            cs@ == s@,
            start <= i <= cs@.len(),
            out.deep_view() + lines_from(cs@, start as int, i as int) == lines_of(cs@),
        decreases cs@.len() - i,
    {
        if cs[i] == '\n' {
            let mut end = i;
            if end > start && cs[end - 1] == '\r' {
                end = end - 1;
            }
            let line = string_from_chars(&cs, start, end);
            assert(line@ == strip_cr(cs@.subrange(start as int, i as int))) by {
                if i > start && cs@[i - 1] == '\r' {
                    assert(cs@.subrange(start as int, i as int).drop_last() =~= cs@.subrange(
                        start as int,
                        i - 1,
                    ));
                }
            }
            let ghost before = out.deep_view();
            out.push(line);
            assert(out.deep_view() =~= before.push(line@));
            assert(before.push(line@) + lines_from(cs@, i + 1, i + 1) =~= before + (seq![
                strip_cr(cs@.subrange(start as int, i as int)),
            ] + lines_from(cs@, i + 1, i + 1)));
            start = i + 1;
        }
        i = i + 1;
    }
    if start < cs.len() {
        let line = string_from_chars(&cs, start, cs.len());
        let ghost before = out.deep_view();
        out.push(line);
        assert(out.deep_view() =~= before.push(line@));
        assert(before + seq![cs@.subrange(start as int, cs@.len() as int)] =~= before.push(
            line@,
        ));
    } else {
        assert(out.deep_view() + Seq::<Seq<char>>::empty() =~= out.deep_view());
    }
    out
}

// ---------------------------------------------------------------------------
// Lower case
// ---------------------------------------------------------------------------

/// What `str::to_lowercase` gives for a text: the Unicode lower-case mapping.
pub uninterp spec fn lowercase(s: Seq<char>) -> Seq<char>;

/// Calls `str::to_lowercase` (std). The contract says only that the result is
/// the lower-case form of the argument, a function of it alone; the Unicode
/// mapping itself is left unsaid.
#[verifier::external_body]
pub(crate) fn to_lowercase(s: &str) -> (r: String)
    ensures
        r@ == lowercase(s@),
{
    s.to_lowercase()
}

// ---------------------------------------------------------------------------
// Byte-level cuts
// ---------------------------------------------------------------------------

/// The UTF-8 length of a text, as `str::len` counts it.
pub open spec fn byte_len(s: Seq<char>) -> nat {
    encode_utf8(s).len()
}

/// The text made of the UTF-8 bytes `b[from..to]`.
pub open spec fn bytes_text(b: Seq<u8>, from: int, to: int) -> Seq<char> {
    decode_utf8(b.subrange(from, to))
}

/// Whether `s` can be cut at byte offset `k` (`k` lies on a character
/// boundary of its UTF-8 encoding); slicing elsewhere panics.
pub open spec fn cuttable(s: Seq<char>, k: int) -> bool {
    0 <= k <= byte_len(s) && is_char_boundary(encode_utf8(s), k)
}

/// The first `k` bytes of `s`, as `&s[..k]` gives them, or `None` where that
/// slice would panic.
pub fn byte_prefix(s: &str, k: usize) -> (r: Option<String>)
    ensures
        r is Some <==> cuttable(s@, k as int),
        r matches Some(p) ==> p@ == bytes_text(encode_utf8(s@), 0, k as int),
{
    let n = s.as_bytes().len();
    if k > n || !s.is_char_boundary(k) {
        return None;
    }
    let (a, _b) = s.split_at(k);
    proof {
        encode_utf8_decode_utf8(a@);
    }
    let r = a.to_owned();
    Some(r)
}

/// The bytes of `s` from offset `k` on, as `&s[k..]` gives them, or `None`
/// where that slice would panic.
pub fn byte_suffix(s: &str, k: usize) -> (r: Option<String>)
    ensures
        r is Some <==> cuttable(s@, k as int),
        r matches Some(p) ==> p@ == bytes_text(encode_utf8(s@), k as int, byte_len(s@) as int),
{
    let n = s.as_bytes().len();
    if k > n || !s.is_char_boundary(k) {
        return None;
    }
    let (_a, b) = s.split_at(k);
    proof {
        encode_utf8_decode_utf8(b@);
    }
    let r = b.to_owned();
    Some(r)
}

} // verus!
