//! Character-level helpers for the launcher's text handling.
use vstd::prelude::*;
use vstd::utf8::{encode_utf8, encode_scalar};

verus! {

broadcast use vstd::string::group_string_axioms;

/// The characters of `s`, in order.
pub fn chars_of(s: &str) -> (v: Vec<char>)
    ensures
        v@ == s@,
{
    let mut v: Vec<char> = Vec::new();
    for c in it: s.chars()
        invariant
            it.seq() == s@,
            v@ == it.seq().take(it.index() as int),
    {
        v.push(c);
    }
    v
}

/// Collects characters into a string (`FromIterator<char>` for `String`).
#[verifier::external_body]
pub(crate) fn string_from_chars(chars: &Vec<char>) -> (s: String)
    ensures
        s@ == chars@,
{
    chars.iter().collect()
}

} // verus!

verus! {

/// The characters with the Unicode `White_Space` property, which is what
/// `char::is_whitespace` tests.
pub open spec fn spec_is_whitespace(c: char) -> bool {
    let u = c as u32;
    ||| 0x09 <= u <= 0x0d
    ||| u == 0x20
    ||| u == 0x85
    ||| u == 0xa0
    ||| u == 0x1680
    ||| 0x2000 <= u <= 0x200a
    ||| u == 0x2028
    ||| u == 0x2029
    ||| u == 0x202f
    ||| u == 0x205f
    ||| u == 0x3000
}

/// Tests whether `c` is a Unicode whitespace character.
pub fn is_whitespace(c: char) -> (b: bool)
    ensures
        b == spec_is_whitespace(c),
{
    let u = c as u32;
    (0x09 <= u && u <= 0x0d) || u == 0x20 || u == 0x85 || u == 0xa0 || u == 0x1680 || (0x2000
        <= u && u <= 0x200a) || u == 0x2028 || u == 0x2029 || u == 0x202f || u == 0x205f || u
        == 0x3000
}

/// `s` without its trailing whitespace.
pub open spec fn spec_trim_end(s: Seq<char>) -> Seq<char>
    decreases s.len(),
{
    if s.len() > 0 && spec_is_whitespace(s.last()) {
        spec_trim_end(s.drop_last())
    } else {
        s
    }
}

/// `s` without its leading whitespace.
pub open spec fn spec_trim_start(s: Seq<char>) -> Seq<char>
    decreases s.len(),
{
    if s.len() > 0 && spec_is_whitespace(s[0]) {
        spec_trim_start(s.drop_first())
    } else {
        s
    }
}

/// `s` without leading and trailing whitespace.
pub open spec fn spec_trim(s: Seq<char>) -> Seq<char> {
    spec_trim_start(spec_trim_end(s))
}

/// The end of `v[lo..hi]` once trailing whitespace is removed.
pub fn trim_end_index(v: &Vec<char>, lo: usize, hi: usize) -> (e: usize)
    requires
        lo <= hi <= v.len(),
    ensures
        lo <= e <= hi,
        v@.subrange(lo as int, e as int) == spec_trim_end(v@.subrange(lo as int, hi as int)),
{
    let mut e = hi;
    while e > lo && is_whitespace(v[e - 1])
        invariant
            lo <= e <= hi <= v.len(),
            spec_trim_end(v@.subrange(lo as int, e as int)) == spec_trim_end(
                v@.subrange(lo as int, hi as int),
            ),
        decreases e,
    {
        assert(v@.subrange(lo as int, e as int).drop_last() =~= v@.subrange(
            lo as int,
            e - 1,
        ));
        e = e - 1;
    }
    e
}

/// The start of `v[lo..hi]` once leading whitespace is removed.
pub fn trim_start_index(v: &Vec<char>, lo: usize, hi: usize) -> (b: usize)
    requires
        lo <= hi <= v.len(),
    ensures
        lo <= b <= hi,
        v@.subrange(b as int, hi as int) == spec_trim_start(v@.subrange(lo as int, hi as int)),
{
    let mut b = lo;
    while b < hi && is_whitespace(v[b])
        invariant
            lo <= b <= hi <= v.len(),
            spec_trim_start(v@.subrange(b as int, hi as int)) == spec_trim_start(
                v@.subrange(lo as int, hi as int),
            ),
        decreases hi - b,
    {
        assert(v@.subrange(b as int, hi as int).drop_first() =~= v@.subrange(
            b + 1,
            hi as int,
        ));
        b = b + 1;
    }
    b
}

/// Whether `a` and `b` hold the same characters.
pub fn str_eq(a: &str, b: &str) -> (r: bool)
    ensures
        r == (a@ == b@),
{
    let x = chars_of(a);
    let y = chars_of(b);
    if x.len() != y.len() {
        return false;
    }
    let mut i: usize = 0;
    while i < x.len()
        invariant
            x@ == a@,
            y@ == b@,
            x.len() == y.len(),
            i <= x.len(),
            forall|j: int| 0 <= j < i ==> x@[j] == y@[j],
        decreases x.len() - i,
    {
        if x[i] != y[i] {
            return false;
        }
        i = i + 1;
    }
    assert(x@ =~= y@);
    true
}

} // verus!

verus! {

/// The first character of the Unicode uppercase mapping of a character.
pub uninterp spec fn spec_to_uppercase(c: char) -> char;

/// `char::to_uppercase`, first character of the mapping. The contract
/// names the result and states the documented mapping of ASCII
/// characters (lowercase letters to uppercase, every other ASCII
/// character to itself); it says nothing further about other characters.
#[verifier::external_body]
pub(crate) fn to_uppercase_first(c: char) -> (u: char)
    ensures
        u == spec_to_uppercase(c),
        'a' <= c <= 'z' ==> u as u32 == c as u32 - 32,
        (c as u32) < 128 && !('a' <= c <= 'z') ==> u == c,
{
    c.to_uppercase().next().unwrap()
}

} // verus!

verus! {

/// The position, in bytes of the UTF-8 encoding of `s`, at which the
/// character with index `k` starts.
pub open spec fn spec_byte_offset(s: Seq<char>, k: int) -> int {
    encode_utf8(s.take(k)).len() as int
}

/// The length in bytes of the UTF-8 encoding of `s`.
pub open spec fn spec_byte_len(s: Seq<char>) -> int {
    encode_utf8(s).len() as int
}

/// Whether byte position `b` of the encoding of `s` is a character
/// boundary: the start of a character or the end of the text.
pub open spec fn spec_is_boundary(s: Seq<char>, b: int) -> bool {
    exists|k: int| 0 <= k <= s.len() && #[trigger] spec_byte_offset(s, k) == b
}

/// The index of the character that starts at byte position `b`.
pub open spec fn spec_char_at_byte(s: Seq<char>, b: int) -> int {
    choose|k: int| 0 <= k <= s.len() && #[trigger] spec_byte_offset(s, k) == b
}

/// Encoding a concatenation encodes each part.
pub proof fn lemma_encode_concat(a: Seq<char>, b: Seq<char>)
    ensures
        encode_utf8(a + b) == encode_utf8(a) + encode_utf8(b),
    decreases a.len(),
{
    if a.len() == 0 {
        assert(a + b =~= b);
        assert(encode_utf8(a) =~= Seq::<u8>::empty());
        assert(encode_utf8(a) + encode_utf8(b) =~= encode_utf8(b));
    } else {
        assert((a + b).drop_first() =~= a.drop_first() + b);
        lemma_encode_concat(a.drop_first(), b);
        assert((a + b)[0] == a[0]);
        assert(encode_utf8(a + b) =~= encode_scalar(a[0] as u32) + encode_utf8(a.drop_first() + b));
        assert(encode_utf8(a) + encode_utf8(b) =~= encode_scalar(a[0] as u32) + (encode_utf8(
            a.drop_first(),
        ) + encode_utf8(b)));
    }
}

/// Each character takes at least one byte.
pub proof fn lemma_offset_step(s: Seq<char>, k: int)
    requires
        0 <= k < s.len(),
    ensures
        spec_byte_offset(s, k + 1) >= spec_byte_offset(s, k) + 1,
{
    assert(s.take(k + 1) =~= s.take(k) + seq![s[k]]);
    lemma_encode_concat(s.take(k), seq![s[k]]);
    assert(seq![s[k]].drop_first() =~= Seq::<char>::empty());
    assert(encode_utf8(seq![s[k]]) =~= encode_scalar(s[k] as u32) + encode_utf8(
        Seq::<char>::empty(),
    ));
}

/// Byte offsets grow strictly with the character index.
pub proof fn lemma_offset_strictly_increasing(s: Seq<char>, j: int, k: int)
    requires
        0 <= j < k <= s.len(),
    ensures
        spec_byte_offset(s, j) < spec_byte_offset(s, k),
    decreases k - j,
{
    lemma_offset_step(s, k - 1);
    if j < k - 1 {
        lemma_offset_strictly_increasing(s, j, k - 1);
    }
}

/// A character boundary starts exactly one character.
pub proof fn lemma_char_at_byte_unique(s: Seq<char>, k: int)
    requires
        0 <= k <= s.len(),
    ensures
        spec_is_boundary(s, spec_byte_offset(s, k)),
        spec_char_at_byte(s, spec_byte_offset(s, k)) == k,
{
    let b = spec_byte_offset(s, k);
    let j = spec_char_at_byte(s, b);
    if j < k {
        lemma_offset_strictly_increasing(s, j, k);
    } else if k < j {
        lemma_offset_strictly_increasing(s, k, j);
    }
}

/// The end of the text is a boundary, of the character after the last.
pub proof fn lemma_byte_len_offset(s: Seq<char>)
    ensures
        spec_byte_offset(s, s.len() as int) == spec_byte_len(s),
{
    assert(s.take(s.len() as int) =~= s);
}

/// The byte length of `s`.
pub fn byte_len(s: &str) -> (n: usize)
    ensures
        n == spec_byte_len(s@),
{
    s.as_bytes().len()
}

/// `String::insert`: inserts `ch` at byte position `idx`. std panics
/// unless `idx` is a character boundary, which the contract requires; the
/// character then becomes the one at that position.
#[verifier::external_body]
pub(crate) fn string_insert(s: &mut String, idx: usize, ch: char)
    requires
        spec_is_boundary(old(s)@, idx as int),
    ensures
        final(s)@ == old(s)@.insert(spec_char_at_byte(old(s)@, idx as int), ch),
{
    s.insert(idx, ch);
}

/// `String::insert_str`: inserts `t` at byte position `idx`. std panics
/// unless `idx` is a character boundary, which the contract requires.
#[verifier::external_body]
pub(crate) fn string_insert_str(s: &mut String, idx: usize, t: &str)
    requires
        spec_is_boundary(old(s)@, idx as int),
    ensures
        final(s)@ == old(s)@.take(spec_char_at_byte(old(s)@, idx as int)) + t@ + old(s)@.skip(
            spec_char_at_byte(old(s)@, idx as int),
        ),
{
    s.insert_str(idx, t);
}

/// `String::remove`: removes and returns the character starting at byte
/// position `idx`. std panics unless `idx` is a character boundary before
/// the end of the text, which the contract requires.
#[verifier::external_body]
pub(crate) fn string_remove(s: &mut String, idx: usize) -> (c: char)
    requires
        spec_is_boundary(old(s)@, idx as int),
        idx < spec_byte_len(old(s)@),
    ensures
        c == old(s)@[spec_char_at_byte(old(s)@, idx as int)],
        final(s)@ == old(s)@.remove(spec_char_at_byte(old(s)@, idx as int)),
{
    s.remove(idx)
}

} // verus!
