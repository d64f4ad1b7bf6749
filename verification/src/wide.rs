//! Text as the operating system takes and gives it: UTF-16 code units.

use crate::text::chars_of;
use vstd::prelude::*;

verus! {

/// Whether a number is a Unicode scalar value.
pub open spec fn is_scalar(v: u32) -> bool {
    v < 0xD800 || (0xE000 <= v && v <= 0x10FFFF)
}

/// `char::from_u32` gives the character of a scalar value and nothing for any
/// other number.
pub assume_specification[ char::from_u32 ](v: u32) -> (r: Option<char>)
    ensures
        r == (if is_scalar(v) {
            Some(v as char)
        } else {
            None::<char>
        }),
;

/// The code units that write one character.
pub open spec fn units_of(c: char) -> Seq<u16> {
    let v = c as u32;
    if v < 0x10000 {
        seq![v as u16]
    } else {
        seq![
            (0xD800 + (v - 0x10000) / 0x400) as u16,
            (0xDC00 + (v - 0x10000) % 0x400) as u16,
        ]
    }
}

/// The UTF-16 encoding of a text.
pub open spec fn utf16_of(text: Seq<char>) -> Seq<u16>
    decreases text.len(),
{
    if text.len() == 0 {
        Seq::<u16>::empty()
    } else {
        utf16_of(text.drop_last()) + units_of(text.last())
    }
}

/// Whether a code unit is the first of a surrogate pair.
pub open spec fn is_high(u: u16) -> bool {
    0xD800 <= u <= 0xDBFF
}

/// Whether a code unit is the second of a surrogate pair.
pub open spec fn is_low(u: u16) -> bool {
    0xDC00 <= u <= 0xDFFF
}

/// The character a surrogate pair writes.
pub open spec fn paired(high: u16, low: u16) -> char {
    (0x10000 + (high - 0xD800) * 0x400 + (low - 0xDC00)) as char
}

/// The text that code units write, if they are well-formed UTF-16: every unit
/// outside the surrogate range is a character, and every high surrogate is
/// followed by a low one.
pub open spec fn utf16_decoded(units: Seq<u16>) -> Option<Seq<char>>
    decreases units.len(),
{
    if units.len() == 0 {
        Some(Seq::<char>::empty())
    } else if !is_high(units[0]) && !is_low(units[0]) {
        match utf16_decoded(units.skip(1)) {
            Some(rest) => Some(seq![units[0] as char] + rest),
            None => None,
        }
    } else if is_high(units[0]) && units.len() >= 2 && is_low(units[1]) {
        match utf16_decoded(units.skip(2)) {
            Some(rest) => Some(seq![paired(units[0], units[1])] + rest),
            None => None,
        }
    } else {
        None
    }
}

/// Encodes a text in UTF-16.
pub fn encode_utf16(text: &str) -> (r: Vec<u16>)
    ensures
        r@ == utf16_of(text@),
{
    let chars = chars_of(text);
    let mut r: Vec<u16> = Vec::new();
    let mut i: usize = 0;
    assert(chars@.take(0) =~= Seq::<char>::empty());
    while i < chars.len()
        invariant
            i <= chars.len(),
            chars@ == text@,
            r@ == utf16_of(chars@.take(i as int)),
        decreases chars.len() - i,
    {
        let v: u32 = chars[i] as u32;
        proof {
            assert(chars@.take(i + 1).drop_last() =~= chars@.take(i as int));
            assert(chars@.take(i + 1).last() == chars@[i as int]);
        }
        let ghost before = r@;
        if v < 0x10000 {
            r.push(v as u16);
            assert(r@ =~= before + units_of(chars@[i as int]));
        } else {
            let high: u32 = 0xD800 + (v - 0x10000) / 0x400;
            let low: u32 = 0xDC00 + (v - 0x10000) % 0x400;
            r.push(high as u16);
            r.push(low as u16);
            assert(r@ =~= before + units_of(chars@[i as int]));
        }
        i += 1;
    }
    assert(chars@.take(chars.len() as int) =~= chars@);
    r
}

/// A text as the operating system takes it: encoded in UTF-16 and ended by a
/// zero unit.
pub fn wide_string(s: &str) -> (r: Vec<u16>)
    ensures
        r@ == utf16_of(s@).push(0u16),
{
    let mut r = encode_utf16(s);
    r.push(0);
    r
}

/// Decodes UTF-16; gives nothing where the units are not well-formed.
pub fn decode_utf16(units: &Vec<u16>) -> (r: Option<Vec<char>>)
    ensures
        match r {
            Some(text) => utf16_decoded(units@) == Some(text@),
            None => utf16_decoded(units@) is None,
        },
{
    let mut text: Vec<char> = Vec::new();
    let mut i: usize = 0;
    assert(units@.skip(0) =~= units@);
    while i < units.len()
        invariant
            i <= units.len(),
            utf16_decoded(units@) == match utf16_decoded(units@.skip(i as int)) {
                Some(rest) => Some(text@ + rest),
                None => None::<Seq<char>>,
            },
        decreases units.len() - i,
    {
        let u: u16 = units[i];
        let ghost rest = units@.skip(i as int);
        let ghost before = text@;
        assert(rest[0] == u);
        if u < 0xD800 || u > 0xDFFF {
            match char::from_u32(u as u32) {
                Some(c) => {
                    text.push(c);
                },
                None => {
                    return None;
                },
            }
            proof {
                assert(rest.skip(1) =~= units@.skip(i + 1));
                assert forall|tail: Seq<char>| before + (seq![u as char] + tail) == text@ + tail by {
                    assert(before + (seq![u as char] + tail) =~= text@ + tail);
                }
            }
            i += 1;
        } else if u <= 0xDBFF && i + 1 < units.len() && 0xDC00 <= units[i + 1] && units[i + 1]
            <= 0xDFFF {
            let low: u16 = units[i + 1];
            assert(rest[1] == low);
            let v: u32 = 0x10000 + ((u - 0xD800) as u32) * 0x400 + ((low - 0xDC00) as u32);
            match char::from_u32(v) {
                Some(c) => {
                    text.push(c);
                },
                None => {
                    return None;
                },
            }
            proof {
                assert(rest.skip(2) =~= units@.skip(i + 2));
                assert(text@ =~= before.push(paired(u, low)));
                assert forall|tail: Seq<char>| before + (seq![paired(u, low)] + tail) == text@
                    + tail by {
                    assert(before + (seq![paired(u, low)] + tail) =~= text@ + tail);
                }
            }
            i += 2;
        } else {
            return None;
        }
    }
    assert(units@.skip(units.len() as int).len() == 0);
    assert(text@ + Seq::<char>::empty() =~= text@);
    Some(text)
}

/// The encoding of a text is the encoding of its first character and then
/// that of the rest.
pub proof fn utf16_of_first(text: Seq<char>)
    requires
        text.len() > 0,
    ensures
        utf16_of(text) == units_of(text[0]) + utf16_of(text.drop_first()),
    decreases text.len(),
{
    if text.len() == 1 {
        assert(text.drop_last().len() == 0);
        assert(text.drop_first().len() == 0);
        assert(utf16_of(text.drop_last()) == Seq::<u16>::empty());
        assert(utf16_of(text.drop_first()) == Seq::<u16>::empty());
        assert(text.last() == text[0]);
        assert(utf16_of(text) =~= units_of(text[0]) + utf16_of(text.drop_first()));
    } else {
        utf16_of_first(text.drop_last());
        assert(text.drop_last().drop_first() =~= text.drop_first().drop_last());
        assert(text.drop_last()[0] == text[0]);
        assert(text.drop_first().last() == text.last());
        assert(utf16_of(text) =~= units_of(text[0]) + utf16_of(text.drop_first()));
    }
}

/// Units that begin with the units of a character are decoded to that
/// character and what the rest is decoded to.
pub proof fn decoding_reads_a_character(c: char, rest: Seq<u16>)
    ensures
        utf16_decoded(units_of(c) + rest) == match utf16_decoded(rest) {
            Some(tail) => Some(seq![c] + tail),
            None => None::<Seq<char>>,
        },
{
    let units = units_of(c) + rest;
    let v = c as u32;
    if v < 0x10000 {
        assert(units[0] == v as u16);
        assert(units.skip(1) =~= rest);
        assert(units[0] as char == c);
    } else {
        let high = units[0];
        let low = units[1];
        assert(high == (0xD800 + (v - 0x10000) / 0x400) as u16);
        assert(low == (0xDC00 + (v - 0x10000) % 0x400) as u16);
        assert(units.skip(2) =~= rest);
        assert(paired(high, low) == c);
    }
}

/// A text that is encoded and decoded again is the text it was.
pub proof fn utf16_round_trip(text: Seq<char>)
    ensures
        utf16_decoded(utf16_of(text)) == Some(text),
    decreases text.len(),
{
    if text.len() > 0 {
        utf16_of_first(text);
        utf16_round_trip(text.drop_first());
        decoding_reads_a_character(text[0], utf16_of(text.drop_first()));
        assert(seq![text[0]] + text.drop_first() =~= text);
    }
}

} // verus!
