//! Conversion between Rust strings and the NUL-terminated UTF-16 strings
//! that the operating system takes and gives.

use vstd::prelude::*;

verus! {

/// The UTF-16 code units of one character: itself where it lies in the basic
/// plane, otherwise a high surrogate followed by a low one.
pub open spec fn utf16_units(c: char) -> Seq<u16> {
    let scalar = c as int;
    if scalar < 0x10000 {
        seq![scalar as u16]
    } else {
        seq![
            (0xD800 + (scalar - 0x10000) / 0x400) as u16,
            (0xDC00 + (scalar - 0x10000) % 0x400) as u16,
        ]
    }
}

/// The UTF-16 encoding of a text: the units of its characters, in order.
pub open spec fn encode_utf16(text: Seq<char>) -> Seq<u16>
    decreases text.len(),
{
    if text.len() == 0 {
        Seq::empty()
    } else {
        encode_utf16(text.drop_last()) + utf16_units(text.last())
    }
}

/// A character is a Unicode scalar value: a code point that is no surrogate.
pub proof fn lemma_scalar_range(c: char)
    ensures
        0 <= c as int <= 0x10FFFF,
        !(0xD800 <= c as int <= 0xDFFF),
{
}

/// Encodes `s` as UTF-16 and appends the terminating NUL.
pub fn str_to_w_vec(s: &str) -> (wide: Vec<u16>)
    ensures
        wide@ == encode_utf16(s@).push(0),
{
    broadcast use vstd::string::group_string_axioms;

    let mut wide: Vec<u16> = Vec::new();
    for c in it: s.chars()
        invariant
            it.seq() == s@,
            wide@ == encode_utf16(s@.take(it.index() as int)),
    {
        proof {
            let done = it.index() as int;
            assert(s@.take(done + 1).drop_last() =~= s@.take(done));
            assert(s@.take(done + 1).last() == c);
            lemma_scalar_range(c);
        }
        let scalar: u32 = c as u32;
        if scalar < 0x10000 {
            wide.push(scalar as u16);
        } else {
            let rest: u32 = scalar - 0x10000;
            wide.push((0xD800 + rest / 0x400) as u16);
            wide.push((0xDC00 + rest % 0x400) as u16);
        }
    }
    assert(s@.take(s@.len() as int) =~= s@);
    wide.push(0);
    wide
}

/// Whether `unit` is the first half of a surrogate pair.
pub open spec fn is_high_surrogate(unit: u16) -> bool {
    0xD800 <= unit <= 0xDBFF
}

/// Whether `unit` is the second half of a surrogate pair.
pub open spec fn is_low_surrogate(unit: u16) -> bool {
    0xDC00 <= unit <= 0xDFFF
}

/// The character that a high and a low surrogate stand for together.
pub open spec fn surrogate_pair(high: u16, low: u16) -> char {
    (0x10000 + (high - 0xD800) * 0x400 + (low - 0xDC00)) as char
}

/// The character that takes the place of a unit that cannot be decoded.
pub open spec fn replacement_character() -> char {
    '\u{FFFD}'
}

/// The text that a sequence of UTF-16 units stands for. A surrogate that is
/// not part of a well-formed pair decodes to the replacement character, and
/// decoding goes on with the unit after it.
pub open spec fn decode_utf16_lossy(units: Seq<u16>) -> Seq<char>
    decreases units.len(),
{
    if units.len() == 0 {
        Seq::empty()
    } else if is_high_surrogate(units[0]) && units.len() >= 2 && is_low_surrogate(units[1]) {
        seq![surrogate_pair(units[0], units[1])] + decode_utf16_lossy(units.skip(2))
    } else if is_high_surrogate(units[0]) || is_low_surrogate(units[0]) {
        seq![replacement_character()] + decode_utf16_lossy(units.skip(1))
    } else {
        seq![units[0] as char] + decode_utf16_lossy(units.skip(1))
    }
}

/// The units in front of the first NUL; all of them where there is none.
pub open spec fn until_nul(units: Seq<u16>) -> Seq<u16>
    decreases units.len(),
{
    if units.len() == 0 || units[0] == 0 {
        Seq::empty()
    } else {
        seq![units[0]] + until_nul(units.skip(1))
    }
}

/// `until_nul` is the prefix that ends at the first NUL.
pub proof fn lemma_until_nul(units: Seq<u16>, end: int)
    requires
        0 <= end <= units.len(),
        forall|i: int| 0 <= i < end ==> units[i] != 0,
        end < units.len() ==> units[end] == 0,
    ensures
        until_nul(units) == units.take(end),
    decreases end,
{
    if end == 0 {
        assert(units.take(0) =~= Seq::<u16>::empty());
    } else {
        let rest = units.skip(1);
        assert forall|i: int| 0 <= i < end - 1 implies rest[i] != 0 by {
            assert(rest[i] == units[i + 1]);
        }
        lemma_until_nul(rest, end - 1);
        assert(units.take(end) =~= seq![units[0]] + rest.take(end - 1));
    }
}

/// `char::from_u32` of std: the character with the given scalar value, and
/// `None` for a surrogate and for a value beyond the last code point.
pub assume_specification[ char::from_u32 ](scalar: u32) -> (c: Option<char>)
    ensures
        c == (if scalar <= 0xD7FF || 0xE000 <= scalar <= 0x10FFFF {
            Some(scalar as char)
        } else {
            None
        }),
;

/// `String::push` of std: the character is appended to the string.
pub assume_specification[ String::push ](text: &mut String, c: char)
    ensures
        final(text)@ == old(text)@.push(c),
;

/// Decodes the UTF-16 units in front of the first NUL of `wide`. A unit that
/// is no part of a well-formed surrogate pair becomes U+FFFD.
pub fn w_to_str(wide: &[u16]) -> (text: String)
    ensures
        text@ == decode_utf16_lossy(until_nul(wide@)),
{
    let mut end: usize = 0;
    while end < wide.len() && wide[end] != 0
        invariant
            end <= wide.len(),
            forall|i: int| 0 <= i < end ==> wide@[i] != 0,
        decreases wide.len() - end,
    {
        end += 1;
    }
    proof {
        lemma_until_nul(wide@, end as int);
    }
    let ghost units = wide@.take(end as int);
    let mut text = String::new();
    let mut at: usize = 0;
    assert(units.skip(0) =~= units);
    while at < end
        invariant
            at <= end <= wide.len(),
            units == wide@.take(end as int),
            decode_utf16_lossy(units) == text@ + decode_utf16_lossy(units.skip(at as int)),
        decreases end - at,
    {
        let ghost rest = units.skip(at as int);
        let unit = wide[at];
        assert(rest[0] == unit);
        let paired = at + 1 < end && 0xDC00 <= wide[at + 1] && wide[at + 1] <= 0xDFFF;
        if 0xD800 <= unit && unit <= 0xDBFF && paired {
            let low = wide[at + 1];
            assert(rest[1] == low);
            let scalar: u32 = 0x10000 + (unit as u32 - 0xD800) * 0x400 + (low as u32 - 0xDC00);
            let c = match char::from_u32(scalar) {
                Some(c) => c,
                None => '\u{FFFD}',
            };
            text.push(c);
            at += 2;
            assert(rest.skip(2) =~= units.skip(at as int));
        } else if 0xD800 <= unit && unit <= 0xDFFF {
            text.push('\u{FFFD}');
            at += 1;
            assert(rest.skip(1) =~= units.skip(at as int));
        } else {
            let c = match char::from_u32(unit as u32) {
                Some(c) => c,
                None => '\u{FFFD}',
            };
            text.push(c);
            at += 1;
            assert(rest.skip(1) =~= units.skip(at as int));
        }
    }
    text
}

/// Whether every element of `text` is a character that a string can hold,
/// and none of them is NUL.
pub open spec fn is_plain_text(text: Seq<char>) -> bool {
    forall|i: int|
        0 <= i < text.len() ==> {
            let scalar = (#[trigger] text[i]) as int;
            &&& 0 < scalar <= 0x10FFFF
            &&& !(0xD800 <= scalar <= 0xDFFF)
        }
}

/// The encoding of a text begins with the units of its first character.
proof fn lemma_encode_front(text: Seq<char>)
    requires
        text.len() > 0,
    ensures
        encode_utf16(text) == utf16_units(text[0]) + encode_utf16(text.skip(1)),
    decreases text.len(),
{
    if text.len() == 1 {
        assert(text.drop_last() =~= Seq::<char>::empty());
        assert(text.skip(1) =~= Seq::<char>::empty());
        assert(encode_utf16(text.drop_last()) =~= Seq::<u16>::empty());
        assert(encode_utf16(text) =~= utf16_units(text[0]) + encode_utf16(text.skip(1)));
    } else {
        let shorter = text.drop_last();
        lemma_encode_front(shorter);
        assert(shorter.skip(1) =~= text.skip(1).drop_last());
        assert(text.skip(1).last() == text.last());
        assert(encode_utf16(text) =~= utf16_units(text[0]) + encode_utf16(text.skip(1)));
    }
}

/// The encoding of a text without NUL holds no NUL.
proof fn lemma_encode_has_no_nul(text: Seq<char>, at: int)
    requires
        is_plain_text(text),
        0 <= at < encode_utf16(text).len(),
    ensures
        encode_utf16(text)[at] != 0,
    decreases text.len(),
{
    let shorter = text.drop_last();
    assert(is_plain_text(shorter)) by {
        assert forall|i: int| 0 <= i < shorter.len() implies 0 < (#[trigger] shorter[i]) as int
            <= 0x10FFFF && !(0xD800 <= shorter[i] as int <= 0xDFFF) by {
            assert(shorter[i] == text[i]);
        }
    }
    let last = text.last();
    assert(last == text[text.len() - 1]);
    if at < encode_utf16(shorter).len() {
        lemma_encode_has_no_nul(shorter, at);
    }
}

/// Decoding undoes encoding.
proof fn lemma_decode_encode(text: Seq<char>)
    requires
        is_plain_text(text),
    ensures
        decode_utf16_lossy(encode_utf16(text)) == text,
    decreases text.len(),
{
    if text.len() == 0 {
        assert(decode_utf16_lossy(encode_utf16(text)) =~= text);
    } else {
        let first = text[0];
        let rest = text.skip(1);
        assert(is_plain_text(rest)) by {
            assert forall|i: int| 0 <= i < rest.len() implies 0 < (#[trigger] rest[i]) as int
                <= 0x10FFFF && !(0xD800 <= rest[i] as int <= 0xDFFF) by {
                assert(rest[i] == text[i + 1]);
            }
        }
        lemma_encode_front(text);
        lemma_decode_encode(rest);
        let units = encode_utf16(text);
        let scalar = first as int;
        if scalar < 0x10000 {
            assert(units[0] == scalar as u16);
            assert(units.skip(1) =~= encode_utf16(rest));
            assert(units[0] as char == first);
        } else {
            let high = (0xD800 + (scalar - 0x10000) / 0x400) as u16;
            let low = (0xDC00 + (scalar - 0x10000) % 0x400) as u16;
            assert(units[0] == high && units[1] == low);
            assert(units.skip(2) =~= encode_utf16(rest));
            assert(0x10000 + (high - 0xD800) * 0x400 + (low - 0xDC00) == scalar);
            assert(surrogate_pair(high, low) == first);
        }
        assert(decode_utf16_lossy(units) =~= seq![first] + rest);
        assert(seq![first] + rest =~= text);
    }
}

/// What `str_to_w_vec` makes of a text without NUL, `w_to_str` reads back as
/// the same text.
pub proof fn law_wide_round_trip(text: Seq<char>)
    requires
        is_plain_text(text),
    ensures
        decode_utf16_lossy(until_nul(encode_utf16(text).push(0))) == text,
{
    let units = encode_utf16(text);
    let wide = units.push(0);
    assert forall|i: int| 0 <= i < units.len() implies wide[i] != 0 by {
        lemma_encode_has_no_nul(text, i);
    }
    lemma_until_nul(wide, units.len() as int);
    assert(wide.take(units.len() as int) =~= units);
    lemma_decode_encode(text);
}

} // verus!
