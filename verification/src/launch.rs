//! The command line a game is started with.
use vstd::prelude::*;
use crate::settings::{lemma_find_char, spec_find_char};
use crate::text::{chars_of, string_from_chars};

verus! {

/// The pieces of `s` between single spaces, as `str::split(' ')` gives
/// them: empty pieces where spaces are adjacent or at either end, and one
/// empty piece for empty text.
pub open spec fn spec_split_spaces(s: Seq<char>) -> Seq<Seq<char>>
    decreases s.len(),
{
    match spec_find_char(s, ' ') {
        None => seq![s],
        Some(i) => {
            proof {
                crate::settings::lemma_find_char_bounds(s, ' ');
            }
            seq![s.take(i)] + spec_split_spaces(s.skip(i + 1))
        },
    }
}

/// Splits `s` at each space (see [`spec_split_spaces`]).
pub fn split_spaces(s: &str) -> (r: Vec<String>)
    ensures
        r@.len() == spec_split_spaces(s@).len(),
        forall|i: int| 0 <= i < r@.len() ==> #[trigger] r@[i]@ == spec_split_spaces(s@)[i],
{
    let v = chars_of(s);
    let n = v.len();
    let mut r: Vec<String> = Vec::new();
    let ghost mut done: Seq<Seq<char>> = Seq::empty();
    let mut start: usize = 0;
    let mut i: usize = 0;
    let mut piece: Vec<char> = Vec::new();
    assert(v@.skip(0) =~= v@);
    while i < n
        invariant
            v@ == s@,
            n == v@.len(),
            start <= i <= n,
            piece@ == v@.subrange(start as int, i as int),
            r@.len() == done.len(),
            forall|k: int| 0 <= k < r@.len() ==> #[trigger] r@[k]@ == done[k],
            forall|j: int| start <= j < i ==> v@[j] != ' ',
            spec_split_spaces(s@) == done + spec_split_spaces(v@.skip(start as int)),
        decreases n - i,
    {
        if v[i] == ' ' {
            let ghost rest = v@.skip(start as int);
            proof {
                lemma_find_char(rest, ' ', i - start);
                assert(rest.take(i - start) =~= v@.subrange(start as int, i as int));
                assert(rest.skip(i - start + 1) =~= v@.skip(i + 1));
                done = done.push(piece@);
                assert(spec_split_spaces(s@) =~= done + spec_split_spaces(v@.skip(i + 1)));
            }
            r.push(string_from_chars(&piece));
            piece = Vec::new();
            start = i + 1;
        } else {
            piece.push(v[i]);
        }
        i = i + 1;
        assert(piece@ =~= v@.subrange(start as int, i as int));
    }
    proof {
        lemma_find_char(v@.skip(start as int), ' ', n - start);
        assert(piece@ =~= v@.skip(start as int));
        done = done.push(piece@);
        assert(spec_split_spaces(s@) =~= done);
    }
    r.push(string_from_chars(&piece));
    r
}

/// The arguments a game is started with. A game of an emulator platform
/// passes its rom file first, then the platform's arguments split at
/// spaces, if there are any; an application passes its arguments split at
/// spaces.
pub open spec fn spec_launch_arguments(emulator: bool, rom: Seq<char>, args: Seq<char>) -> Seq<Seq<char>> {
    if emulator {
        if args.len() == 0 {
            seq![rom]
        } else {
            seq![rom] + spec_split_spaces(args)
        }
    } else {
        spec_split_spaces(args)
    }
}

/// The arguments a game is started with (see [`spec_launch_arguments`]).
pub fn launch_arguments(emulator: bool, rom: String, args: &str) -> (r: Vec<String>)
    ensures
        r@.len() == spec_launch_arguments(emulator, rom@, args@).len(),
        forall|i: int|
            0 <= i < r@.len() ==> #[trigger] r@[i]@ == spec_launch_arguments(emulator, rom@, args@)[i],
{
    let ghost rom_text = rom@;
    if emulator {
        let mut r: Vec<String> = Vec::new();
        r.push(rom);
        if !args.is_empty() {
            let mut pieces = split_spaces(args);
            let ghost parts = pieces@;
            r.append(&mut pieces);
            assert forall|i: int| 0 <= i < r@.len() implies #[trigger] r@[i]@
                == spec_launch_arguments(emulator, rom_text, args@)[i] by {
                if i > 0 {
                    assert(r@[i] == parts[i - 1]);
                }
            }
        }
        r
    } else {
        split_spaces(args)
    }
}

} // verus!
