//! Names of rom files and of the files the launcher stores assets in.
use vstd::prelude::*;
use crate::text::{chars_of, string_from_chars, str_eq, spec_trim_end, trim_end_index};
use vstd::utf8::decode_utf8;
use vstd::utf8::is_char_boundary;
use vstd::string::{StringSliceAdditionalSpecFns, StrSliceExecFns};

verus! {

broadcast use vstd::string::group_string_axioms;

/// The characters that are not allowed in a file name.
pub open spec fn spec_is_forbidden_in_file(c: char) -> bool {
    c == '"' || c == '*' || c == '<' || c == '>' || c == '?' || c == '\\' || c == '/' || c == ':'
}

/// `s` with every character that may not appear in a file name removed.
pub open spec fn spec_sanitize(s: Seq<char>) -> Seq<char>
    decreases s.len(),
{
    if s.len() == 0 {
        s
    } else if spec_is_forbidden_in_file(s.last()) {
        spec_sanitize(s.drop_last())
    } else {
        spec_sanitize(s.drop_last()).push(s.last())
    }
}

/// Removes the characters `"`, `*`, `<`, `>`, `?`, `\`, `/` and `:` from
/// `file` so that it can be used as a file name.
pub fn sanitize_file(file: &str) -> (r: String)
    ensures
        r@ == spec_sanitize(file@),
{
    let chars = chars_of(file);
    let mut out: Vec<char> = Vec::new();
    let mut i: usize = 0;
    while i < chars.len()
        invariant
            chars@ == file@,
            i <= chars.len(),
            out@ == spec_sanitize(chars@.take(i as int)),
        decreases chars.len() - i,
    {
        let c = chars[i];
        assert(chars@.take(i + 1).drop_last() =~= chars@.take(i as int));
        if !(c == '"' || c == '*' || c == '<' || c == '>' || c == '?' || c == '\\' || c == '/'
            || c == ':') {
            out.push(c);
        }
        i = i + 1;
    }
    assert(chars@.take(chars.len() as int) =~= chars@);
    string_from_chars(&out)
}

/// Whether a file with the given extension is a rom. Files without an
/// extension, save files (`srm`) and configuration files (`ini`) are not.
pub open spec fn spec_is_allowed_file_type(extension: Option<Seq<char>>) -> bool {
    match extension {
        None => false,
        Some(e) => e != "ini"@ && e != "srm"@,
    }
}

/// Decides from a file's extension whether it is a rom.
pub fn is_allowed_file_type(extension: Option<&str>) -> (r: bool)
    ensures
        r == spec_is_allowed_file_type(
            match extension {
                Some(e) => Some(e@),
                None => None,
            },
        ),
{
    match extension {
        None => false,
        Some(e) => !str_eq(e, "ini") && !str_eq(e, "srm"),
    }
}

/// The index of the first `(` or `[` in `s`, if there is one.
pub open spec fn spec_first_bracket(s: Seq<char>) -> Option<int> {
    if exists|i: int| 0 <= i < s.len() && (s[i] == '(' || s[i] == '[') {
        Some(
            choose|i: int|
                0 <= i < s.len() && (s[i] == '(' || s[i] == '[') && forall|j: int|
                    0 <= j < i ==> s[j] != '(' && s[j] != '[',
        )
    } else {
        None
    }
}

/// Whether cleaning `file` stays within the string: a bracket may not be
/// its first character, and the cut one position before the bracket,
/// counted in characters, must fall on a character boundary of the
/// file's bytes.
pub open spec fn clean_file_name_ok(file: &str) -> bool {
    match spec_first_bracket(file@) {
        None => true,
        Some(i) => i >= 1 && is_char_boundary(file.spec_bytes(), i - 1),
    }
}

/// The display name of a rom file: everything before the first `(` or
/// `[` (such as region or revision tags), with trailing whitespace
/// removed. The cut is made one character before the bracket, taken as
/// a byte offset into the file name.
pub open spec fn spec_clean_file_name(file: &str) -> Seq<char> {
    match spec_first_bracket(file@) {
        None => spec_trim_end(file@),
        Some(i) => spec_trim_end(decode_utf8(file.spec_bytes().subrange(0, i - 1))),
    }
}

/// Strips region and revision tags such as `(USA)` or `[!]` from a rom's
/// file stem.
pub fn clean_file_name(file: &str) -> (r: &str)
    requires
        clean_file_name_ok(file),
    ensures
        r@ == spec_clean_file_name(file),
{
    let chars = chars_of(file);
    let mut i: usize = 0;
    while i < chars.len()
        invariant
            chars@ == file@,
            clean_file_name_ok(file),
            i <= chars.len(),
            forall|j: int| 0 <= j < i ==> chars@[j] != '(' && chars@[j] != '[',
        decreases chars.len() - i,
    {
        if chars[i] == '(' || chars[i] == '[' {
            let ghost s = file@;
            assert(0 <= i < s.len() && (s[i as int] == '(' || s[i as int] == '['));
            let ghost k = choose|k: int|
                0 <= k < s.len() && (s[k] == '(' || s[k] == '[') && forall|j: int|
                    0 <= j < k ==> s[j] != '(' && s[j] != '[';
            assert(k == i) by {
                if k < i {
                } else if k > i {
                    assert(s[i as int] != '(' && s[i as int] != '[');
                }
            }
            let (prefix, _) = file.split_at(i - 1);
            proof {
                vstd::utf8::encode_utf8_decode_utf8(prefix@);
            }
            let pc = chars_of(prefix);
            let e = trim_end_index(&pc, 0, pc.len());
            assert(pc@.subrange(0, pc.len() as int) =~= pc@);
            return prefix.substring_char(0, e);
        }
        i = i + 1;
    }
    assert(spec_first_bracket(file@) is None);
    let e = trim_end_index(&chars, 0, chars.len());
    assert(chars@.subrange(0, chars.len() as int) =~= chars@);
    file.substring_char(0, e)
}

} // verus!
