//! Lookups by address: several addresses come in one path segment,
//! separated by commas.

pub mod names;
pub mod transactions;

use vstd::prelude::*;

use vstd::string::{StrSliceExecFns, StringExecFns};

use crate::text::chars_of;

verus! {

/// White space, as `char::is_whitespace` has it.
pub open spec fn is_space(c: char) -> bool {
    ||| ('\u{9}' <= c && c <= '\u{d}')
    ||| c == ' '
    ||| c == '\u{85}'
    ||| c == '\u{a0}'
    ||| c == '\u{1680}'
    ||| ('\u{2000}' <= c && c <= '\u{200a}')
    ||| c == '\u{2028}'
    ||| c == '\u{2029}'
    ||| c == '\u{202f}'
    ||| c == '\u{205f}'
    ||| c == '\u{3000}'
}

/// The position of the first comma at or after `from`, or the length of the
/// text if there is none.
pub open spec fn next_comma(s: Seq<char>, from: int) -> int
    decreases s.len() - from,
{
    if 0 <= from < s.len() && s[from] != ',' {
        next_comma(s, from + 1)
    } else {
        from
    }
}

/// How many white-space characters stand in a row from `from`, before `end`.
pub open spec fn leading_spaces(s: Seq<char>, from: int, end: int) -> int
    decreases end - from,
{
    if 0 <= from < end <= s.len() && is_space(s[from]) {
        1 + leading_spaces(s, from + 1, end)
    } else {
        0
    }
}

/// How many white-space characters stand in a row up to `end`, not before
/// `start`.
pub open spec fn trailing_spaces(s: Seq<char>, start: int, end: int) -> int
    decreases end - start,
{
    if 0 <= start < end <= s.len() && is_space(s[end - 1]) {
        1 + trailing_spaces(s, start, end - 1)
    } else {
        0
    }
}

/// The part of `s` between `from` and `end` without the white space around
/// it.
pub open spec fn trimmed(s: Seq<char>, from: int, end: int) -> Seq<char> {
    let start = from + leading_spaces(s, from, end);
    s.subrange(start, end - trailing_spaces(s, start, end))
}

/// The addresses that a path segment lists, from position `from` on: the
/// pieces between commas, each without the white space around it, those
/// left out of which nothing remains.
pub open spec fn addresses_from(s: Seq<char>, from: int) -> Seq<Seq<char>>
    decreases s.len() - from,
{
    if from < 0 || from > s.len() {
        Seq::empty()
    } else {
        let end = next_comma(s, from);
        let piece = trimmed(s, from, end);
        let rest = if from <= end < s.len() {
            addresses_from(s, end + 1)
        } else {
            Seq::empty()
        };
        if piece.len() > 0 {
            seq![piece] + rest
        } else {
            rest
        }
    }
}

/// The addresses that a path segment lists.
pub open spec fn spec_parse_addresses(s: Seq<char>) -> Seq<Seq<char>> {
    addresses_from(s, 0)
}

fn is_space_exec(c: char) -> (r: bool)
    ensures
        r == is_space(c),
{
    ('\u{9}' <= c && c <= '\u{d}') || c == ' ' || c == '\u{85}' || c == '\u{a0}' || c
        == '\u{1680}' || ('\u{2000}' <= c && c <= '\u{200a}') || c == '\u{2028}' || c
        == '\u{2029}' || c == '\u{202f}' || c == '\u{205f}' || c == '\u{3000}'
}

/// Reads the addresses that a path segment lists: the pieces between
/// commas, each without the white space around it, empty pieces left out.
pub fn parse_addresses(input: &str) -> (r: Vec<String>)
    ensures
        r.deep_view() == spec_parse_addresses(input@),
{
    let chars = chars_of(input);
    let n = chars.len();
    let mut out: Vec<String> = Vec::new();
    let mut from: usize = 0;
    let mut done = false;
    assert(out.deep_view() =~= Seq::<Seq<char>>::empty());
    while !done
        invariant
            chars@ == input@,
            n == chars.len(),
            from <= n,
            !done ==> out.deep_view() + addresses_from(input@, from as int)
                == spec_parse_addresses(input@),
            done ==> out.deep_view() == spec_parse_addresses(input@),
        decreases n - from + (if done { 0int } else { 1int }),
    {
        let ghost before = out.deep_view();
        let mut end = from;
        while end < n && chars[end] != ','
            invariant
                chars@ == input@,
                n == chars.len(),
                from <= end <= n,
                next_comma(input@, from as int) == next_comma(input@, end as int),
            decreases n - end,
        {
            end += 1;
        }
        let mut start = from;
        while start < end && is_space_exec(chars[start])
            invariant
                chars@ == input@,
                n == chars.len(),
                from <= start <= end <= n,
                leading_spaces(input@, from as int, end as int) == (start - from)
                    + leading_spaces(input@, start as int, end as int),
            decreases end - start,
        {
            start += 1;
        }
        let mut stop = end;
        while start < stop && is_space_exec(chars[stop - 1])
            invariant
                chars@ == input@,
                n == chars.len(),
                start <= stop <= end <= n,
                trailing_spaces(input@, start as int, end as int) == (end - stop)
                    + trailing_spaces(input@, start as int, stop as int),
            decreases stop - start,
        {
            stop -= 1;
        }
        proof {
            assert(trimmed(input@, from as int, end as int) == input@.subrange(
                start as int,
                stop as int,
            ));
        }
        if stop > start {
            let piece = String::from_str(input.substring_char(start, stop));
            out.push(piece);
            assert(out.deep_view() =~= before.push(input@.subrange(start as int, stop as int)));
        }
        if end < n {
            proof {
                let rest = addresses_from(input@, end + 1);
                let piece = input@.subrange(start as int, stop as int);
                if stop > start {
                    assert(before + (seq![piece] + rest) =~= before.push(piece) + rest);
                }
            }
            from = end + 1;
        } else {
            proof {
                let piece = input@.subrange(start as int, stop as int);
                if stop > start {
                    assert(before + (seq![piece] + Seq::<Seq<char>>::empty()) =~= before.push(
                        piece,
                    ));
                } else {
                    assert(before + Seq::<Seq<char>>::empty() =~= before);
                }
            }
            done = true;
        }
    }
    out
}

} // verus!
