//! The settings file format: one `key: type = value` entry per line, with
//! `#` starting a comment line.
use vstd::prelude::*;
use vstd::std_specs::convert::FromSpecImpl;
use crate::text::{
    chars_of,
    spec_is_whitespace,
    spec_trim,
    spec_trim_end,
    spec_trim_start,
    str_eq,
    string_from_chars,
    trim_end_index,
    trim_start_index,
};

verus! {

/// `std::io::Error`, carried through the library without being inspected.
#[verifier::external_type_specification]
#[verifier::external_body]
pub struct ExIoError(std::io::Error);

/// Why a settings file could not be read.
pub enum SettingLoadError {
    /// A line lacks the `:` after its key or the `=` before its value.
    IncorrectFormat,
    /// A line names a type other than `f32`, `i32`, `str` and `color`.
    InvalidType,
    /// A value cannot be read as its type.
    InvalidValue,
    /// The file could not be read.
    IoError(std::io::Error),
}

impl From<std::io::Error> for SettingLoadError {
    fn from(error: std::io::Error) -> (e: SettingLoadError) {
        SettingLoadError::IoError(error)
    }
}

impl FromSpecImpl<std::io::Error> for SettingLoadError {
    open spec fn obeys_from_spec() -> bool {
        true
    }

    open spec fn from_spec(error: std::io::Error) -> SettingLoadError {
        SettingLoadError::IoError(error)
    }
}

/// The value of a settings entry as it is written: numbers of type `i32`
/// are read, the text of the other types is kept.
pub enum SettingText {
    F32(String),
    I32(i32),
    Str(String),
    Color(String),
}

/// One entry of a settings file.
pub struct SettingLine {
    pub key: String,
    pub value: SettingText,
}

/// The position of the first `c` in `s`, if any.
pub open spec fn spec_find_char(s: Seq<char>, c: char) -> Option<int>
    decreases s.len(),
{
    if s.len() == 0 {
        None
    } else if s[0] == c {
        Some(0)
    } else {
        match spec_find_char(s.drop_first(), c) {
            Some(i) => Some(i + 1),
            None => None,
        }
    }
}

pub proof fn lemma_find_char_bounds(s: Seq<char>, c: char)
    ensures
        spec_find_char(s, c) matches Some(i) ==> 0 <= i < s.len() && s[i] == c,
    decreases s.len(),
{
    if s.len() > 0 {
        lemma_find_char_bounds(s.drop_first(), c);
    }
}

pub proof fn lemma_find_char(s: Seq<char>, c: char, i: int)
    requires
        0 <= i <= s.len(),
        forall|j: int| 0 <= j < i ==> s[j] != c,
        i < s.len() ==> s[i] == c,
    ensures
        spec_find_char(s, c) == (if i < s.len() {
            Some(i)
        } else {
            None
        }),
    decreases i,
{
    if i > 0 {
        lemma_find_char(s.drop_first(), c, i - 1);
    }
}

/// `line` without the carriage return that ends it, if any.
pub open spec fn spec_strip_cr(line: Seq<char>) -> Seq<char> {
    if line.len() > 0 && line.last() == '\r' {
        line.drop_last()
    } else {
        line
    }
}

/// The lines of `s` as `str::lines` gives them: split at each `\n`, with
/// a `\r` just before it dropped; a final line ending adds no empty line.
pub open spec fn spec_lines(s: Seq<char>) -> Seq<Seq<char>>
    decreases s.len(),
{
    if s.len() == 0 {
        Seq::empty()
    } else {
        match spec_find_char(s, '\n') {
            None => seq![s],
            Some(i) => {
                proof {
                    lemma_find_char_bounds(s, '\n');
                }
                seq![spec_strip_cr(s.take(i))] + spec_lines(s.skip(i + 1))
            },
        }
    }
}

/// The characters `v[lo..hi]`.
fn sub_chars(v: &Vec<char>, lo: usize, hi: usize) -> (r: Vec<char>)
    requires
        lo <= hi <= v@.len(),
    ensures
        r@ == v@.subrange(lo as int, hi as int),
{
    let mut r: Vec<char> = Vec::new();
    let mut i = lo;
    while i < hi
        invariant
            lo <= i <= hi <= v@.len(),
            r@ == v@.subrange(lo as int, i as int),
        decreases hi - i,
    {
        r.push(v[i]);
        i = i + 1;
        assert(r@ =~= v@.subrange(lo as int, i as int));
    }
    r
}

/// Splits `data` into lines (see [`spec_lines`]).
pub fn lines(data: &str) -> (r: Vec<String>)
    ensures
        r@.len() == spec_lines(data@).len(),
        forall|i: int| 0 <= i < r@.len() ==> #[trigger] r@[i]@ == spec_lines(data@)[i],
{
    let v = chars_of(data);
    let n = v.len();
    let mut r: Vec<String> = Vec::new();
    let ghost mut done: Seq<Seq<char>> = Seq::empty();
    let mut start: usize = 0;
    assert(v@.skip(0) =~= v@);
    let mut i: usize = 0;
    while i < n
        invariant
            v@ == data@,
            n == v@.len(),
            start <= i <= n,
            r@.len() == done.len(),
            forall|k: int| 0 <= k < r@.len() ==> #[trigger] r@[k]@ == done[k],
            forall|j: int| start <= j < i ==> v@[j] != '\n',
            spec_lines(data@) == done + spec_lines(v@.skip(start as int)),
        decreases n - i,
    {
        if v[i] == '\n' {
            let ghost rest = v@.skip(start as int);
            proof {
                lemma_find_char(rest, '\n', i - start);
                assert(rest.take(i - start) =~= v@.subrange(start as int, i as int));
                assert(rest.skip(i - start + 1) =~= v@.skip(i + 1));
            }
            let mut end = i;
            if end > start && v[end - 1] == '\r' {
                end = end - 1;
            }
            let line = sub_chars(&v, start, end);
            proof {
                assert(line@ =~= spec_strip_cr(v@.subrange(start as int, i as int)));
                done = done.push(line@);
                assert(spec_lines(data@) =~= done + spec_lines(v@.skip(i + 1)));
            }
            r.push(string_from_chars(&line));
            start = i + 1;
        }
        i = i + 1;
    }
    if start < n {
        let rest = sub_chars(&v, start, n);
        proof {
            lemma_find_char(v@.skip(start as int), '\n', n - start);
            assert(rest@ =~= v@.skip(start as int));
            done = done.push(rest@);
            assert(spec_lines(data@) =~= done);
        }
        r.push(string_from_chars(&rest));
    } else {
        proof {
            assert(v@.skip(start as int) =~= Seq::<char>::empty());
            assert(spec_lines(data@) =~= done);
        }
    }
    r
}

/// Whether `c` is a decimal digit.
pub open spec fn spec_is_digit(c: char) -> bool {
    '0' <= c <= '9'
}

/// The number that the decimal digits `d` write.
pub open spec fn spec_digits_value(d: Seq<char>) -> int
    decreases d.len(),
{
    if d.len() == 0 {
        0
    } else {
        spec_digits_value(d.drop_last()) * 10 + (d.last() as int - '0' as int)
    }
}

/// Whether `s` starts with a sign.
pub open spec fn spec_signed(s: Seq<char>) -> bool {
    s.len() > 0 && (s[0] == '-' || s[0] == '+')
}

/// `s` without its sign, if it has one.
pub open spec fn spec_unsigned_part(s: Seq<char>) -> Seq<char> {
    if spec_signed(s) {
        s.drop_first()
    } else {
        s
    }
}

/// Whether every character of `d` is a decimal digit.
pub open spec fn spec_all_digits(d: Seq<char>) -> bool {
    forall|i: int| 0 <= i < d.len() ==> spec_is_digit(#[trigger] d[i])
}

/// The `i32` that `s` writes, as `str::parse::<i32>` reads it: an
/// optional sign and at least one decimal digit, nothing else, and a value
/// within range.
pub open spec fn spec_parse_i32(s: Seq<char>) -> Option<i32> {
    let digits = spec_unsigned_part(s);
    let value = if spec_signed(s) && s[0] == '-' {
        -spec_digits_value(digits)
    } else {
        spec_digits_value(digits)
    };
    if digits.len() > 0 && spec_all_digits(digits) && i32::MIN <= value <= i32::MAX {
        Some(value as i32)
    } else {
        None
    }
}

proof fn lemma_digits_value_grows(d: Seq<char>, k: int)
    requires
        0 <= k <= d.len(),
        forall|i: int| 0 <= i < d.len() ==> spec_is_digit(#[trigger] d[i]),
    ensures
        spec_digits_value(d) >= spec_digits_value(d.take(k)) >= 0,
    decreases d.len() - k,
{
    if k == d.len() {
        assert(d.take(k) =~= d);
        lemma_digits_value_nonneg(d);
    } else {
        lemma_digits_value_grows(d, k + 1);
        assert(d.take(k + 1).drop_last() =~= d.take(k));
        lemma_digits_value_nonneg(d.take(k));
    }
}

proof fn lemma_digits_value_nonneg(d: Seq<char>)
    requires
        forall|i: int| 0 <= i < d.len() ==> spec_is_digit(#[trigger] d[i]),
    ensures
        spec_digits_value(d) >= 0,
    decreases d.len(),
{
    if d.len() > 0 {
        lemma_digits_value_nonneg(d.drop_last());
    }
}

/// Reads an `i32` written in decimal (see [`spec_parse_i32`]).
pub fn parse_i32(s: &Vec<char>) -> (r: Option<i32>)
    ensures
        r == spec_parse_i32(s@),
{
    let n = s.len();
    let signed = n > 0 && (s[0] == '-' || s[0] == '+');
    let negative = signed && s[0] == '-';
    let start: usize = if signed {
        1
    } else {
        0
    };
    let ghost digits = s@.skip(start as int);
    proof {
        if signed {
            assert(digits =~= s@.drop_first());
        } else {
            assert(digits =~= s@);
        }
    }
    if start == n {
        assert(digits.len() == 0);
        return None;
    }
    let mut value: i64 = 0;
    let mut big = false;
    let mut i = start;
    while i < n
        invariant
            start <= i <= n,
            n == s@.len(),
            digits == s@.skip(start as int),
            digits == spec_unsigned_part(s@),
            forall|j: int| 0 <= j < i - start ==> spec_is_digit(#[trigger] digits[j]),
            !big ==> value == spec_digits_value(digits.take(i - start)),
            big ==> spec_digits_value(digits.take(i - start)) > 0x8000_0000,
            0 <= value <= 0x8000_0000,
        decreases n - i,
    {
        let c = s[i];
        if !('0' <= c && c <= '9') {
            assert(!spec_is_digit(digits[i - start]));
            assert(!spec_all_digits(digits));
            return None;
        }
        proof {
            assert(digits.take(i - start + 1).drop_last() =~= digits.take(i - start));
            assert(digits.take(i - start + 1).last() == c);
            if big {
                lemma_digits_value_nonneg(digits.take(i - start));
            }
        }
        if !big {
            let d = (c as u32 - '0' as u32) as i64;
            let next = value * 10 + d;
            if next > 0x8000_0000 {
                big = true;
                value = 0;
            } else {
                value = next;
            }
        }
        i = i + 1;
    }
    proof {
        assert(digits.take(n - start) =~= digits);
        if big {
            lemma_digits_value_grows(digits, n - start);
        }
    }
    if big {
        return None;
    }
    if negative {
        Some((0 - value) as i32)
    } else if value <= 0x7fff_ffff {
        Some(value as i32)
    } else {
        None
    }
}

/// Whether a line is skipped when a settings file is read: it is empty or
/// a comment.
pub open spec fn spec_is_comment(line: Seq<char>) -> bool {
    line.len() == 0 || line[0] == '#'
}

/// The key, type and value of a settings line, each without surrounding
/// whitespace: the key comes before the first `:`, the type between that
/// and the next `=`, the value after it. `None` if either mark is missing.
pub open spec fn spec_setting_parts(line: Seq<char>) -> Option<(Seq<char>, Seq<char>, Seq<char>)> {
    match spec_find_char(line, ':') {
        None => None,
        Some(c) => {
            let rest = line.skip(c);
            match spec_find_char(rest, '=') {
                None => None,
                Some(e) => Some(
                    (
                        spec_trim(line.take(c)),
                        spec_trim(rest.subrange(1, e)),
                        spec_trim(rest.skip(e + 1)),
                    ),
                ),
            }
        },
    }
}

/// The trimmed part `v[lo..hi]`, as a string.
fn trimmed(v: &Vec<char>, lo: usize, hi: usize) -> (s: String)
    requires
        lo <= hi <= v@.len(),
    ensures
        s@ == spec_trim(v@.subrange(lo as int, hi as int)),
{
    let e = trim_end_index(v, lo, hi);
    let b = trim_start_index(v, lo, e);
    let part = sub_chars(v, b, e);
    string_from_chars(&part)
}

/// Reads one line of a settings file: `None` for a comment or an empty
/// line, otherwise its key and value, or why the line is not a valid
/// entry.
pub fn parse_setting_line(line: &str) -> (r: Result<Option<SettingLine>, SettingLoadError>)
    ensures
        spec_is_comment(line@) ==> r matches Ok(None),
        !spec_is_comment(line@) ==> match spec_setting_parts(line@) {
            None => r matches Err(SettingLoadError::IncorrectFormat),
            Some((key, ty, value)) => if ty == "f32"@ {
                r matches Ok(Some(l)) && l.key@ == key && (l.value matches SettingText::F32(v)
                    && v@ == value)
            } else if ty == "i32"@ {
                match spec_parse_i32(value) {
                    Some(n) => r matches Ok(Some(l)) && l.key@ == key && (l.value matches SettingText::I32(m)
                        && m == n),
                    None => r matches Err(SettingLoadError::InvalidValue),
                }
            } else if ty == "str"@ {
                r matches Ok(Some(l)) && l.key@ == key && (l.value matches SettingText::Str(v)
                    && v@ == value)
            } else if ty == "color"@ {
                r matches Ok(Some(l)) && l.key@ == key && (l.value matches SettingText::Color(v)
                    && v@ == value)
            } else {
                r matches Err(SettingLoadError::InvalidType)
            },
        },
{
    let v = chars_of(line);
    let n = v.len();
    if n == 0 || v[0] == '#' {
        return Ok(None);
    }
    let mut c: usize = 0;
    while c < n && v[c] != ':'
        invariant
            v@ == line@,
            n == v@.len(),
            c <= n,
            forall|j: int| 0 <= j < c ==> v@[j] != ':',
        decreases n - c,
    {
        c = c + 1;
    }
    proof {
        lemma_find_char(line@, ':', c as int);
    }
    if c == n {
        return Err(SettingLoadError::IncorrectFormat);
    }
    let mut e: usize = c;
    while e < n && v[e] != '='
        invariant
            v@ == line@,
            n == v@.len(),
            c <= e <= n,
            v@[c as int] == ':',
            forall|j: int| c <= j < e ==> v@[j] != '=',
        decreases n - e,
    {
        e = e + 1;
    }
    let ghost rest = line@.skip(c as int);
    proof {
        lemma_find_char(rest, '=', e - c);
    }
    if e == n {
        return Err(SettingLoadError::IncorrectFormat);
    }
    proof {
        assert(rest.subrange(1, e - c) =~= v@.subrange(c + 1, e as int));
        assert(rest.skip(e - c + 1) =~= v@.subrange(e + 1, n as int));
        assert(line@.take(c as int) =~= v@.subrange(0, c as int));
    }
    let key = trimmed(&v, 0, c);
    let ty = trimmed(&v, c + 1, e);
    let value = trimmed(&v, e + 1, n);
    if str_eq(ty.as_str(), "f32") {
        Ok(Some(SettingLine { key, value: SettingText::F32(value) }))
    } else if str_eq(ty.as_str(), "i32") {
        let digits = chars_of(value.as_str());
        match parse_i32(&digits) {
            Some(m) => Ok(Some(SettingLine { key, value: SettingText::I32(m) })),
            None => Err(SettingLoadError::InvalidValue),
        }
    } else if str_eq(ty.as_str(), "str") {
        Ok(Some(SettingLine { key, value: SettingText::Str(value) }))
    } else if str_eq(ty.as_str(), "color") {
        Ok(Some(SettingLine { key, value: SettingText::Color(value) }))
    } else {
        Err(SettingLoadError::InvalidType)
    }
}

/// The text of a settings entry as it is written to the file, without
/// the line ending: `key: type = value`.
pub open spec fn spec_setting_text(key: Seq<char>, ty: Seq<char>, value: Seq<char>) -> Seq<char> {
    key + ": "@ + ty + " = "@ + value
}

/// Writes a settings entry as a line of the file, without the line ending.
pub fn render_setting_line(key: &str, ty: &str, value: &str) -> (line: String)
    ensures
        line@ == spec_setting_text(key@, ty@, value@),
{
    let mut v = chars_of(key);
    let parts = [": ", ty, " = ", value];
    let mut k: usize = 0;
    let ghost mut acc = key@;
    while k < 4
        invariant
            k <= 4,
            parts@ == seq![": ", ty, " = ", value],
            v@ == acc,
            k == 0 ==> acc == key@,
            k == 1 ==> acc == key@ + ": "@,
            k == 2 ==> acc == key@ + ": "@ + ty@,
            k == 3 ==> acc == key@ + ": "@ + ty@ + " = "@,
            k == 4 ==> acc == key@ + ": "@ + ty@ + " = "@ + value@,
        decreases 4 - k,
    {
        let part = chars_of(parts[k]);
        let mut j: usize = 0;
        while j < part.len()
            invariant
                j <= part@.len(),
                v@ == acc + part@.take(j as int),
            decreases part@.len() - j,
        {
            v.push(part[j]);
            j = j + 1;
            assert(v@ =~= acc + part@.take(j as int));
        }
        proof {
            assert(part@.take(part@.len() as int) =~= part@);
            acc = acc + part@;
        }
        k = k + 1;
    }
    string_from_chars(&v)
}

proof fn lemma_trim_end_shrinks(s: Seq<char>)
    ensures
        spec_trim_end(s).len() <= s.len(),
        spec_trim_end(s).len() == s.len() ==> spec_trim_end(s) == s,
        s.len() > 0 && spec_is_whitespace(s.last()) ==> spec_trim_end(s).len() < s.len(),
    decreases s.len(),
{
    if s.len() > 0 && spec_is_whitespace(s.last()) {
        lemma_trim_end_shrinks(s.drop_last());
    }
}

proof fn lemma_trim_start_shrinks(s: Seq<char>)
    ensures
        spec_trim_start(s).len() <= s.len(),
        spec_trim_start(s).len() == s.len() ==> spec_trim_start(s) == s,
        s.len() > 0 && spec_is_whitespace(s[0]) ==> spec_trim_start(s).len() < s.len(),
    decreases s.len(),
{
    if s.len() > 0 && spec_is_whitespace(s[0]) {
        lemma_trim_start_shrinks(s.drop_first());
    }
}

/// Text that trimming leaves alone neither starts nor ends with
/// whitespace.
proof fn lemma_trimmed_ends(t: Seq<char>)
    requires
        spec_trim(t) == t,
    ensures
        spec_trim_end(t) == t,
        spec_trim_start(t) == t,
        t.len() > 0 ==> !spec_is_whitespace(t[0]) && !spec_is_whitespace(t.last()),
{
    lemma_trim_end_shrinks(t);
    lemma_trim_start_shrinks(spec_trim_end(t));
    lemma_trim_start_shrinks(t);
}

/// A space before trimmed text is trimmed away.
proof fn lemma_trim_space_before(t: Seq<char>)
    requires
        spec_trim(t) == t,
    ensures
        spec_trim(seq![' '] + t) == t,
{
    lemma_trimmed_ends(t);
    let s = seq![' '] + t;
    assert(s.drop_first() =~= t);
    if t.len() == 0 {
        assert(s.drop_last() =~= Seq::<char>::empty());
        assert(spec_trim_end(s) == spec_trim_end(Seq::<char>::empty()));
    } else {
        assert(s.last() == t.last());
        assert(spec_trim_end(s) == s);
        assert(spec_trim_start(s) == spec_trim_start(t));
    }
}

/// Spaces around trimmed text are trimmed away.
proof fn lemma_trim_spaces_around(t: Seq<char>)
    requires
        spec_trim(t) == t,
    ensures
        spec_trim(seq![' '] + t + seq![' ']) == t,
{
    let s = seq![' '] + t + seq![' '];
    assert(s.drop_last() =~= seq![' '] + t);
    assert(spec_trim_end(s) == spec_trim_end(seq![' '] + t));
    lemma_trim_space_before(t);
}

/// An entry written with a trimmed key that holds no `:` and does not start
/// a comment, a trimmed type that holds no `=`, and a trimmed value is read
/// back as the same key, type and value.
pub proof fn lemma_setting_round_trip(key: Seq<char>, ty: Seq<char>, value: Seq<char>)
    requires
        spec_trim(key) == key,
        spec_trim(ty) == ty,
        spec_trim(value) == value,
        forall|i: int| 0 <= i < key.len() ==> key[i] != ':',
        key.len() > 0 ==> key[0] != '#',
        forall|i: int| 0 <= i < ty.len() ==> ty[i] != '=',
    ensures
        !spec_is_comment(spec_setting_text(key, ty, value)),
        spec_setting_parts(spec_setting_text(key, ty, value)) == Some((key, ty, value)),
{
    reveal_strlit(": ");
    reveal_strlit(" = ");
    let line = spec_setting_text(key, ty, value);
    let k = key.len() as int;
    let n = ty.len() as int;
    assert(line[k] == ':');
    lemma_find_char(line, ':', k);
    let rest = line.skip(k);
    assert(rest =~= seq![':', ' '] + ty + seq![' ', '=', ' '] + value);
    assert forall|j: int| 0 <= j < n + 3 implies rest[j] != '=' by {
        if 2 <= j < n + 2 {
            assert(rest[j] == ty[j - 2]);
        }
    }
    lemma_find_char(rest, '=', n + 3);
    assert(line.take(k) =~= key);
    assert(rest.subrange(1, n + 3) =~= seq![' '] + ty + seq![' ']);
    assert(rest.skip(n + 4) =~= seq![' '] + value);
    lemma_trim_spaces_around(ty);
    lemma_trim_space_before(value);
}

/// The text of a file whose lines are `ls`, each ended by `\n`.
pub open spec fn spec_join_lines(ls: Seq<Seq<char>>) -> Seq<char>
    decreases ls.len(),
{
    if ls.len() == 0 {
        Seq::empty()
    } else {
        ls[0] + seq!['\n'] + spec_join_lines(ls.drop_first())
    }
}

/// Splitting a file written one line at a time into lines gives back the
/// lines written, as long as none holds a line ending or ends with `\r`.
pub proof fn lemma_lines_round_trip(ls: Seq<Seq<char>>)
    requires
        forall|i: int, j: int|
            0 <= i < ls.len() && 0 <= j < ls[i].len() ==> #[trigger] ls[i][j] != '\n',
        forall|i: int| 0 <= i < ls.len() && (#[trigger] ls[i]).len() > 0 ==> ls[i].last() != '\r',
    ensures
        spec_lines(spec_join_lines(ls)) == ls,
    decreases ls.len(),
{
    if ls.len() > 0 {
        let l = ls[0];
        let rest = ls.drop_first();
        let text = spec_join_lines(ls);
        assert forall|i: int, j: int|
            0 <= i < rest.len() && 0 <= j < rest[i].len() implies #[trigger] rest[i][j] != '\n' by {
            assert(rest[i] == ls[i + 1]);
        }
        assert forall|i: int| 0 <= i < rest.len() && (#[trigger] rest[i]).len() > 0 implies rest[i].last()
            != '\r' by {
            assert(rest[i] == ls[i + 1]);
        }
        lemma_lines_round_trip(rest);
        assert forall|j: int| 0 <= j < l.len() implies text[j] != '\n' by {
            assert(l[j] == ls[0][j]);
        }
        lemma_find_char(text, '\n', l.len() as int);
        assert(text.take(l.len() as int) =~= l);
        assert(text.skip(l.len() as int + 1) =~= spec_join_lines(rest));
        assert(spec_lines(text) =~= seq![l] + rest);
    } else {
        assert(spec_join_lines(ls) =~= Seq::<char>::empty());
    }
}

} // verus!
