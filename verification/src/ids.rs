//! Identifiers of sessions, tokens and connections.
//!
//! An identifier is the 128-bit value of a UUID. The `uuid` crate draws new
//! ones and reads their textual form.

use vstd::prelude::*;

use vstd::string::StringExecFns;

use crate::text::digit_char;

verus! {

/// The identifier that a piece of text spells, as `uuid::Uuid::try_parse`
/// reads it; `None` for text that it rejects.
pub uninterp spec fn uuid_from_text(text: Seq<char>) -> Option<u128>;

/// `uuid::Uuid::new_v4` followed by `Uuid::as_u128`: a freshly drawn random
/// identifier. Nothing is claimed of the value.
#[verifier::external_body]
pub(crate) fn fresh_uuid() -> u128 {
    uuid::Uuid::new_v4().as_u128()
}

/// `uuid::Uuid::try_parse` followed by `Uuid::as_u128`: the identifier that
/// `text` spells, which depends on the text alone.
#[verifier::external_body]
pub(crate) fn parse_uuid(text: &str) -> (r: Option<u128>)
    ensures
        r == uuid_from_text(text@),
{
    match uuid::Uuid::try_parse(text) {
        Ok(id) => Some(id.as_u128()),
        Err(_) => None,
    }
}

/// The character that writes the hexadecimal digit `n`, in lower case.
pub open spec fn hex_char(n: int) -> char {
    if n < 10 {
        digit_char(n)
    } else if n == 10 {
        'a'
    } else if n == 11 {
        'b'
    } else if n == 12 {
        'c'
    } else if n == 13 {
        'd'
    } else if n == 14 {
        'e'
    } else {
        'f'
    }
}

/// The `k`-th hexadecimal digit of an identifier, counted from the most
/// significant one.
pub open spec fn spec_nibble(id: u128, k: int) -> u128 {
    (id >> ((124 - 4 * k) as u128)) & 0xf
}

/// Whether a hyphen stands at position `i` of an identifier's text.
pub open spec fn is_hyphen_position(i: int) -> bool {
    i == 8 || i == 13 || i == 18 || i == 23
}

/// How many hyphens stand before position `i` of an identifier's text.
pub open spec fn hyphens_before(i: int) -> int {
    (if i > 8 {
        1int
    } else {
        0int
    }) + (if i > 13 {
        1int
    } else {
        0int
    }) + (if i > 18 {
        1int
    } else {
        0int
    }) + (if i > 23 {
        1int
    } else {
        0int
    })
}

/// The text of an identifier: its 32 hexadecimal digits in lower case, most
/// significant first, in groups of 8, 4, 4, 4 and 12 with hyphens between.
pub open spec fn spec_uuid_text(id: u128) -> Seq<char> {
    Seq::new(
        36,
        |i: int|
            if is_hyphen_position(i) {
                '-'
            } else {
                hex_char(spec_nibble(id, i - hyphens_before(i)) as int)
            },
    )
}

fn hex_str(n: u128) -> (r: &'static str)
    requires
        n < 16,
    ensures
        r@ == seq![hex_char(n as int)],
{
    proof {
        reveal_strlit("0");
        reveal_strlit("1");
        reveal_strlit("2");
        reveal_strlit("3");
        reveal_strlit("4");
        reveal_strlit("5");
        reveal_strlit("6");
        reveal_strlit("7");
        reveal_strlit("8");
        reveal_strlit("9");
        reveal_strlit("a");
        reveal_strlit("b");
        reveal_strlit("c");
        reveal_strlit("d");
        reveal_strlit("e");
        reveal_strlit("f");
    }
    let r = if n == 0 {
        "0"
    } else if n == 1 {
        "1"
    } else if n == 2 {
        "2"
    } else if n == 3 {
        "3"
    } else if n == 4 {
        "4"
    } else if n == 5 {
        "5"
    } else if n == 6 {
        "6"
    } else if n == 7 {
        "7"
    } else if n == 8 {
        "8"
    } else if n == 9 {
        "9"
    } else if n == 10 {
        "a"
    } else if n == 11 {
        "b"
    } else if n == 12 {
        "c"
    } else if n == 13 {
        "d"
    } else if n == 14 {
        "e"
    } else {
        "f"
    };
    assert(r@ =~= seq![hex_char(n as int)]);
    r
}

/// Writes an identifier as text.
pub fn uuid_text(id: u128) -> (r: String)
    ensures
        r@ == spec_uuid_text(id),
{
    let mut out = String::new();
    let mut i: u32 = 0;
    let mut k: u32 = 0;
    assert(out@ =~= spec_uuid_text(id).take(0));
    while i < 36
        invariant
            i <= 36,
            k == i - hyphens_before(i as int),
            k <= 32,
            i == 36 ==> k == 32,
            out@ == spec_uuid_text(id).take(i as int),
        decreases 36 - i,
    {
        let ghost before = out@;
        if i == 8 || i == 13 || i == 18 || i == 23 {
            proof {
                reveal_strlit("-");
            }
            out.append("-");
            assert(out@ =~= spec_uuid_text(id).take(i + 1));
        } else {
            let shift: u128 = (124 - 4 * k) as u128;
            let nibble = (id >> shift) & 0xf;
            assert(nibble < 16) by (bit_vector)
                requires
                    nibble == (id >> shift) & 0xf,
            ;
            out.append(hex_str(nibble));
            assert(out@ =~= spec_uuid_text(id).take(i + 1));
            k += 1;
        }
        i += 1;
    }
    assert(spec_uuid_text(id).take(36) =~= spec_uuid_text(id));
    out
}

} // verus!
