//! The text forms of a 128-bit identifier: hexadecimal digits, most
//! significant first, plain or hyphenated.

use vstd::prelude::*;

verus! {

/// The value of a hexadecimal digit, in either case.
pub open spec fn hex_value(c: char) -> Option<nat> {
    let n = c as u32;
    if 0x30 <= n <= 0x39 {
        Some((n - 0x30) as nat)
    } else if 0x61 <= n <= 0x66 {
        Some((n - 0x61 + 10) as nat)
    } else if 0x41 <= n <= 0x46 {
        Some((n - 0x41 + 10) as nat)
    } else {
        None
    }
}

/// The lower-case hexadecimal digit for a value under 16.
pub open spec fn hex_digit(d: nat) -> char
    recommends
        d < 16,
{
    if d < 10 {
        ((0x30 + d) as u8) as char
    } else {
        ((0x61 + d - 10) as u8) as char
    }
}

/// The number that a text of hexadecimal digits writes, if every
/// character of it is such a digit.
pub open spec fn hex_number(s: Seq<char>) -> Option<nat>
    decreases s.len(),
{
    if s.len() == 0 {
        Some(0)
    } else {
        match (hex_number(s.drop_last()), hex_value(s.last())) {
            (Some(high), Some(low)) => Some(16 * high + low),
            _ => None,
        }
    }
}

/// The last `count` hexadecimal digits of `n`, in lower case.
pub open spec fn hex_text(n: nat, count: nat) -> Seq<char>
    decreases count,
{
    if count == 0 {
        Seq::empty()
    } else {
        hex_text(n / 16, (count - 1) as nat).push(hex_digit(n % 16))
    }
}

/// 16 to the power of `count`.
pub open spec fn sixteen_to(count: nat) -> nat
    decreases count,
{
    if count == 0 {
        1
    } else {
        16 * sixteen_to((count - 1) as nat)
    }
}

/// The text with the hyphens of the form 8-4-4-4-12 put between its 32
/// characters.
pub open spec fn with_hyphens(digits: Seq<char>) -> Seq<char>
    recommends
        digits.len() == 32,
{
    digits.subrange(0, 8) + seq!['-'] + digits.subrange(8, 12) + seq!['-'] + digits.subrange(
        12,
        16,
    ) + seq!['-'] + digits.subrange(16, 20) + seq!['-'] + digits.subrange(20, 32)
}

/// The 32 characters of a text of 36 that are no hyphens of the form
/// 8-4-4-4-12.
pub open spec fn without_hyphens(text: Seq<char>) -> Seq<char>
    recommends
        text.len() == 36,
{
    text.subrange(0, 8) + text.subrange(9, 13) + text.subrange(14, 18) + text.subrange(19, 23)
        + text.subrange(24, 36)
}

/// The canonical text of an identifier: 32 lower-case hexadecimal digits
/// in five groups, as in `67e55044-10b1-426f-9247-bb680e5fe0c8`.
pub open spec fn hyphenated(id: u128) -> Seq<char> {
    with_hyphens(hex_text(id as nat, 32))
}

/// The identifier that 32 hexadecimal digits write.
pub open spec fn parse_simple(text: Seq<char>) -> Option<u128> {
    if text.len() == 32 {
        match hex_number(text) {
            Some(n) => Some(n as u128),
            None => None,
        }
    } else {
        None
    }
}

/// The identifier that a text of the form 8-4-4-4-12 writes.
pub open spec fn parse_hyphenated(text: Seq<char>) -> Option<u128> {
    if text.len() == 36 && text[8] == '-' && text[13] == '-' && text[18] == '-' && text[23]
        == '-' {
        parse_simple(without_hyphens(text))
    } else {
        None
    }
}

/// The character with an upper-case ASCII letter turned to lower case.
pub open spec fn ascii_lower(c: char) -> char {
    let n = c as u32;
    if 0x41 <= n <= 0x5a {
        ((n + 0x20) as u8) as char
    } else {
        c
    }
}

/// Whether a text is `urn:uuid:`, in any mix of cases.
pub open spec fn is_urn_prefix(text: Seq<char>) -> bool {
    text.map_values(|c: char| ascii_lower(c)) == seq!['u', 'r', 'n', ':', 'u', 'u', 'i', 'd', ':']
}

/// The identifier that a text writes in one of the accepted forms: 32
/// digits, the hyphenated form, that form in braces, or that form after
/// `urn:uuid:`. Digits may be in either case.
pub open spec fn parse_uuid(text: Seq<char>) -> Option<u128> {
    if text.len() == 32 {
        parse_simple(text)
    } else if text.len() == 36 {
        parse_hyphenated(text)
    } else if text.len() == 38 && text[0] == '{' && text[37] == '}' {
        parse_hyphenated(text.subrange(1, 37))
    } else if text.len() == 45 && is_urn_prefix(text.subrange(0, 9)) {
        parse_hyphenated(text.subrange(9, 45))
    } else {
        None
    }
}

/// Whether an identifier is marked as random: version 4, variant 1.
pub open spec fn is_random_uuid(id: u128) -> bool {
    id & 0x0000_0000_0000_f000_c000_0000_0000_0000u128
        == 0x0000_0000_0000_4000_8000_0000_0000_0000u128
}

/// A digit reads back as the value it was written for.
pub proof fn lemma_hex_digit_value(d: nat)
    requires
        d < 16,
    ensures
        hex_value(hex_digit(d)) == Some(d),
{
}

/// The digits of a number that fits in them read back as that number.
pub proof fn lemma_hex_text_number(n: nat, count: nat)
    requires
        n < sixteen_to(count),
    ensures
        hex_text(n, count).len() == count,
        hex_number(hex_text(n, count)) == Some(n),
    decreases count,
{
    if count > 0 {
        let rest = (count - 1) as nat;
        lemma_hex_text_number(n / 16, rest);
        lemma_hex_digit_value(n % 16);
        let text = hex_text(n, count);
        assert(text.drop_last() =~= hex_text(n / 16, rest));
        assert(text.last() == hex_digit(n % 16));
    }
}

/// The hyphens go where the hyphenated form wants them, and taking them
/// out gives the digits back.
pub proof fn lemma_hyphens(digits: Seq<char>)
    requires
        digits.len() == 32,
    ensures
        with_hyphens(digits).len() == 36,
        with_hyphens(digits)[8] == '-',
        with_hyphens(digits)[13] == '-',
        with_hyphens(digits)[18] == '-',
        with_hyphens(digits)[23] == '-',
        without_hyphens(with_hyphens(digits)) == digits,
{
    assert(without_hyphens(with_hyphens(digits)) =~= digits);
}

/// The canonical text of an identifier parses, and to that identifier.
pub proof fn lemma_hyphenated_parses(id: u128)
    ensures
        hyphenated(id).len() == 36,
        parse_hyphenated(hyphenated(id)) == Some(id),
        parse_uuid(hyphenated(id)) == Some(id),
{
    assert(sixteen_to(32) == 0x1_0000_0000_0000_0000_0000_0000_0000_0000) by {
        reveal_with_fuel(sixteen_to, 33);
    }
    lemma_hex_text_number(id as nat, 32);
    lemma_hyphens(hex_text(id as nat, 32));
}

} // verus!
