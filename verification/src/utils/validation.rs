use vstd::prelude::*;

use crate::text::chars_of;

verus! {

/// Lower-case letters and digits.
pub open spec fn is_address_char(c: char) -> bool {
    ('a' <= c && c <= 'z') || ('0' <= c && c <= '9')
}

/// Hexadecimal digits in lower case.
pub open spec fn is_hex_char(c: char) -> bool {
    ('a' <= c && c <= 'f') || ('0' <= c && c <= '9')
}

/// The form of a wallet address: ten characters, either `k` followed by
/// nine lower-case letters or digits, or ten hexadecimal digits in lower case
/// (the form of the oldest wallets).
pub open spec fn spec_valid_address(s: Seq<char>) -> bool {
    &&& s.len() == 10
    &&& ({
        ||| (s[0] == 'k' && forall|i: int| 1 <= i < 10 ==> is_address_char(#[trigger] s[i]))
        ||| (forall|i: int| 0 <= i < 10 ==> is_hex_char(#[trigger] s[i]))
    })
}

fn is_address_char_exec(c: char) -> (r: bool)
    ensures
        r == is_address_char(c),
{
    ('a' <= c && c <= 'z') || ('0' <= c && c <= '9')
}

fn is_hex_char_exec(c: char) -> (r: bool)
    ensures
        r == is_hex_char(c),
{
    ('a' <= c && c <= 'f') || ('0' <= c && c <= '9')
}

/// Whether `address` has the form of a wallet address.
pub fn is_valid_kromer_address(address: &str) -> (r: bool)
    ensures
        r == spec_valid_address(address@),
{
    let chars = chars_of(address);
    if chars.len() != 10 {
        return false;
    }
    let mut modern = chars[0] == 'k';
    let mut legacy = is_hex_char_exec(chars[0]);
    let mut i: usize = 1;
    while i < 10
        invariant
            1 <= i <= 10,
            chars.len() == 10,
            chars@ == address@,
            modern == (chars@[0] == 'k' && forall|j: int|
                1 <= j < i ==> is_address_char(#[trigger] chars@[j])),
            legacy == (forall|j: int| 0 <= j < i ==> is_hex_char(#[trigger] chars@[j])),
        decreases 10 - i,
    {
        if !is_address_char_exec(chars[i]) {
            modern = false;
        }
        if !is_hex_char_exec(chars[i]) {
            legacy = false;
        }
        i += 1;
    }
    modern || legacy
}

} // verus!
