//! Character offsets and UTF-8 byte offsets within one line.
use vstd::prelude::*;
use vstd::utf8::*;

verus! {

/// The byte offset at which the character with index `k` of `s` starts
/// (or the byte length of `s`, for `k == s.len()`).
pub open spec fn byte_offset(s: Seq<char>, k: int) -> int {
    encode_utf8(s.take(k)).len() as int
}

/// Encoding a concatenation encodes each part in turn.
pub proof fn lemma_encode_concat(a: Seq<char>, b: Seq<char>)
    ensures
        encode_utf8(a + b) == encode_utf8(a) + encode_utf8(b),
    decreases a.len(),
{
    if a.len() == 0 {
        assert(a + b =~= b);
        assert(encode_utf8(a) =~= Seq::<u8>::empty());
        assert(encode_utf8(a) + encode_utf8(b) =~= encode_utf8(b));
    } else {
        assert((a + b).drop_first() =~= a.drop_first() + b);
        assert((a + b)[0] == a[0]);
        lemma_encode_concat(a.drop_first(), b);
        assert(encode_utf8(a + b) =~= encode_utf8(a) + encode_utf8(b));
    }
}

/// Advancing the character index by one advances the byte offset by the width
/// of the character passed over.
pub proof fn lemma_offset_step(s: Seq<char>, i: int)
    requires
        0 <= i < s.len(),
    ensures
        byte_offset(s, i + 1) == byte_offset(s, i) + encode_scalar(s[i] as u32).len(),
{
    let one = seq![s[i]];
    assert(s.take(i + 1) =~= s.take(i) + one);
    lemma_encode_concat(s.take(i), one);
    assert(one.drop_first() =~= Seq::<char>::empty());
    reveal_with_fuel(encode_utf8, 2);
    assert(encode_utf8(one) =~= encode_scalar(s[i] as u32));
}

/// The encoding of `s` is the encoding of its first `k` characters followed by
/// that of the rest.
pub proof fn lemma_offset_split(s: Seq<char>, k: int)
    requires
        0 <= k <= s.len(),
    ensures
        encode_utf8(s) == encode_utf8(s.take(k)) + encode_utf8(s.skip(k)),
        0 <= byte_offset(s, k) <= encode_utf8(s).len(),
        byte_offset(s, s.len() as int) == encode_utf8(s).len(),
{
    assert(s =~= s.take(k) + s.skip(k));
    lemma_encode_concat(s.take(k), s.skip(k));
    assert(s.take(s.len() as int) =~= s);
}

/// Every character takes at least one byte.
pub proof fn lemma_chars_le_bytes(s: Seq<char>)
    ensures
        s.len() <= encode_utf8(s).len(),
    decreases s.len(),
{
    if s.len() > 0 {
        lemma_chars_le_bytes(s.drop_first());
    }
}

/// The number of bytes of the UTF-8 encoding of `c`.
pub fn utf8_width(c: char) -> (w: usize)
    ensures
        w == encode_scalar(c as u32).len(),
        1 <= w <= 4,
{
    let v = c as u32;
    proof {
        char_is_scalar(c);
    }
    if v < 0x80 {
        1
    } else if v < 0x800 {
        2
    } else if v < 0x10000 {
        3
    } else {
        4
    }
}

/// The number of characters in `s`.
pub fn char_count(s: &str) -> (n: usize)
    ensures
        n == s@.len(),
{
    let total = s.as_bytes().len();
    proof {
        lemma_chars_le_bytes(s@);
    }
    let mut n: usize = 0;
    for c in it: s.chars()
        invariant
            n == it.index(),
            it.seq() == s@,
            s@.len() <= total,
    {
        n = n + 1;
    }
    n
}

/// The byte offset of the character with index `k` in `s`; the byte length of
/// `s` where `s` has no more than `k` characters.
pub fn byte_index(s: &str, k: usize) -> (b: usize)
    ensures
        b == byte_offset(s@, if k <= s@.len() { k as int } else { s@.len() as int }),
{
    let total = s.as_bytes().len();
    proof {
        lemma_chars_le_bytes(s@);
        lemma_offset_split(s@, 0);
        assert(s@.take(0) =~= Seq::<char>::empty());
    }
    let mut b: usize = 0;
    let mut i: usize = 0;
    for c in it: s.chars()
        invariant
            i == it.index(),
            it.seq() == s@,
            s@.len() <= total,
            total == encode_utf8(s@).len(),
            b == byte_offset(s@, if i <= k { i as int } else { k as int }),
    {
        proof {
            lemma_offset_step(s@, i as int);
            lemma_offset_split(s@, i + 1);
        }
        if i < k {
            b = b + utf8_width(c);
        }
        i = i + 1;
    }
    b
}

/// Relies on `String::insert`: puts `c` at byte position `idx`, which must be
/// the start of a character or the end of the string (else it panics).
#[verifier::external_body]
pub(crate) fn string_insert(s: &mut String, idx: usize, c: char)
    requires
        exists|k: int| 0 <= k <= old(s)@.len() && byte_offset(old(s)@, k) == idx,
    ensures
        forall|k: int|
            0 <= k <= old(s)@.len() && byte_offset(old(s)@, k) == idx ==> final(s)@ == old(
                s,
            )@.insert(k, c),
{
    s.insert(idx, c)
}

/// Relies on `String::split_off`: keeps the bytes before `at` and returns the
/// rest; `at` must be the start of a character or the end of the string.
#[verifier::external_body]
pub(crate) fn string_split_off(s: &mut String, at: usize) -> (r: String)
    requires
        exists|k: int| 0 <= k <= old(s)@.len() && byte_offset(old(s)@, k) == at,
    ensures
        forall|k: int|
            0 <= k <= old(s)@.len() && byte_offset(old(s)@, k) == at ==> final(s)@ == old(
                s,
            )@.take(k) && r@ == old(s)@.skip(k),
{
    s.split_off(at)
}

/// Relies on `String::remove`: takes out and returns the character that starts
/// at byte position `idx`, which must start a character of the string.
#[verifier::external_body]
pub(crate) fn string_remove(s: &mut String, idx: usize) -> (r: char)
    requires
        exists|k: int| 0 <= k < old(s)@.len() && byte_offset(old(s)@, k) == idx,
    ensures
        forall|k: int|
            0 <= k < old(s)@.len() && byte_offset(old(s)@, k) == idx ==> r == old(s)@[k]
                && final(s)@ == old(s)@.remove(k),
{
    s.remove(idx)
}

/// The pieces of `s` between its newline characters, in order: one more than
/// there are newlines.
pub open spec fn pieces(s: Seq<char>) -> Seq<Seq<char>>
    decreases s.len(),
{
    if s.len() == 0 {
        seq![Seq::<char>::empty()]
    } else {
        let rest = pieces(s.drop_first());
        if s[0] == '\n' {
            seq![Seq::<char>::empty()] + rest
        } else {
            rest.update(0, seq![s[0]] + rest[0])
        }
    }
}

/// `l` without one carriage return at its end.
pub open spec fn strip_cr(l: Seq<char>) -> Seq<char> {
    if l.len() > 0 && l.last() == '\r' {
        l.drop_last()
    } else {
        l
    }
}

/// The lines of a text: the pieces between newlines, each ended by a newline
/// losing a carriage return before it; a last piece that is empty (the text
/// ends in a newline, or is empty) is no line.
pub open spec fn text_lines(s: Seq<char>) -> Seq<Seq<char>> {
    let p = pieces(s);
    let ended = p.drop_last().map_values(|l: Seq<char>| strip_cr(l));
    if p.last().len() == 0 {
        ended
    } else {
        ended.push(p.last())
    }
}

/// Relies on `str::lines`: splits at `\n` and at `\r\n`, leaves the line
/// endings out, and gives no empty line after a final line ending.
#[verifier::external_body]
pub(crate) fn split_lines(text: &str) -> (r: Vec<String>)
    ensures
        r@.map_values(|l: String| l@) == text_lines(text@),
{
    text.lines().map(|l| l.to_string()).collect()
}

/// The text of `lines`, each line followed by a newline.
pub open spec fn joined(lines: Seq<Seq<char>>) -> Seq<char>
    decreases lines.len(),
{
    if lines.len() == 0 {
        Seq::empty()
    } else {
        joined(lines.drop_last()) + lines.last() + seq!['\n']
    }
}

} // verus!
