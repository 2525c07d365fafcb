//! UTF-16 as it crosses the host boundary: encoding, and decoding with replacement.
//!
//! The models are the definitions of UTF-16 itself. A scalar value below 0x10000 is one
//! code unit; any other is a high surrogate followed by a low surrogate. Decoding reads
//! the same pairs back and puts U+FFFD in the place of each surrogate that stands alone.

use vstd::prelude::*;

verus! {

/// `char::from_u32`: the scalar value with the number `i`, or `None` where `i` is a
/// surrogate code point or lies above 0x10FFFF.
pub assume_specification[ char::from_u32 ](i: u32) -> (c: Option<char>)
    ensures
        c is None <==> 0xD800 <= i <= 0xDFFF || i > 0x10FFFF,
        c is Some ==> c->0 as int == i as int,
;

/// `String::push`: appends one character to the end of the string.
pub assume_specification[ String::push ](s: &mut String, c: char)
    ensures
        final(s)@ == old(s)@.push(c),
;

/// What stands in decoded text for an unpaired surrogate.
pub const REPLACEMENT: char = '\u{FFFD}';

/// The first half of a surrogate pair.
pub open spec fn is_high_surrogate(unit: u16) -> bool {
    0xD800 <= unit <= 0xDBFF
}

/// The second half of a surrogate pair.
pub open spec fn is_low_surrogate(unit: u16) -> bool {
    0xDC00 <= unit <= 0xDFFF
}

/// The number of the scalar value that a surrogate pair stands for.
pub open spec fn pair_value(high: u16, low: u16) -> int {
    0x10000 + (high - 0xD800) * 0x400 + (low - 0xDC00)
}

/// The code units of one character.
pub open spec fn encode_char(c: char) -> Seq<u16> {
    let value = c as int;
    if value < 0x10000 {
        seq![value as u16]
    } else {
        seq![
            (0xD800 + (value - 0x10000) / 0x400) as u16,
            (0xDC00 + (value - 0x10000) % 0x400) as u16,
        ]
    }
}

/// The code units of a text, in order.
pub open spec fn encode(text: Seq<char>) -> Seq<u16>
    decreases text.len(),
{
    if text.len() == 0 {
        seq![]
    } else {
        encode_char(text[0]) + encode(text.drop_first())
    }
}

/// The text that a run of code units stands for, each unpaired surrogate replaced.
pub open spec fn decode_lossy(units: Seq<u16>) -> Seq<char>
    decreases units.len(),
{
    if units.len() == 0 {
        seq![]
    } else if is_high_surrogate(units[0]) && units.len() > 1 && is_low_surrogate(units[1]) {
        seq![pair_value(units[0], units[1]) as char] + decode_lossy(units.skip(2))
    } else if is_high_surrogate(units[0]) || is_low_surrogate(units[0]) {
        seq![REPLACEMENT] + decode_lossy(units.skip(1))
    } else {
        seq![units[0] as char] + decode_lossy(units.skip(1))
    }
}

/// Encoding goes piece by piece: the units of a concatenation are the units of its parts.
pub proof fn encode_concat(a: Seq<char>, b: Seq<char>)
    ensures
        encode(a + b) == encode(a) + encode(b),
    decreases a.len(),
{
    if a.len() == 0 {
        assert(a + b =~= b);
        assert(encode(a) + encode(b) =~= encode(b));
    } else {
        encode_concat(a.drop_first(), b);
        assert((a + b).drop_first() =~= a.drop_first() + b);
        assert(encode(a + b) =~= encode(a) + encode(b));
    }
}

/// One unit that is no surrogate and is the character's number, or a surrogate pair that
/// stands for it.
proof fn encode_char_shape(c: char)
    ensures
        encode_char(c).len() == 1 || encode_char(c).len() == 2,
        encode_char(c).len() == 1 ==> {
            &&& !is_high_surrogate(encode_char(c)[0])
            &&& !is_low_surrogate(encode_char(c)[0])
            &&& encode_char(c)[0] as int == c as int
            &&& encode_char(c)[0] as char == c
        },
        encode_char(c).len() == 2 ==> {
            &&& is_high_surrogate(encode_char(c)[0])
            &&& is_low_surrogate(encode_char(c)[1])
            &&& pair_value(encode_char(c)[0], encode_char(c)[1]) == c as int
            &&& pair_value(encode_char(c)[0], encode_char(c)[1]) as char == c
        },
{
}

/// A text is read back exactly from its own units, whatever units follow them.
pub proof fn decode_reads_back_prefix(text: Seq<char>, rest: Seq<u16>)
    ensures
        decode_lossy(encode(text) + rest) == text + decode_lossy(rest),
    decreases text.len(),
{
    if text.len() == 0 {
        assert(encode(text) + rest =~= rest);
        assert(text + decode_lossy(rest) =~= decode_lossy(rest));
    } else {
        let head = encode_char(text[0]);
        let tail = encode(text.drop_first()) + rest;
        let units = encode(text) + rest;
        assert(units =~= head + tail);
        decode_reads_back_prefix(text.drop_first(), rest);
        assert(units.skip(head.len() as int) =~= tail);
        encode_char_shape(text[0]);
        assert(units[0] == head[0]);
        if head.len() == 2 {
            assert(units[1] == head[1]);
        }
        assert(decode_lossy(units) =~= seq![text[0]] + decode_lossy(tail));
        assert(text + decode_lossy(rest) =~= seq![text[0]] + (text.drop_first() + decode_lossy(
            rest,
        )));
    }
}

/// Decoding undoes encoding, for every text.
pub proof fn decode_undoes_encode(text: Seq<char>)
    ensures
        decode_lossy(encode(text)) == text,
{
    decode_reads_back_prefix(text, seq![]);
    assert(encode(text) + Seq::<u16>::empty() =~= encode(text));
    assert(text + decode_lossy(Seq::<u16>::empty()) =~= text);
}

/// Two texts with the same units are the same text.
pub proof fn encode_is_injective(a: Seq<char>, b: Seq<char>)
    requires
        encode(a) == encode(b),
    ensures
        a == b,
{
    decode_undoes_encode(a);
    decode_undoes_encode(b);
}

/// A unit is zero exactly where the text holds a NUL character.
pub proof fn encode_has_zero_iff_nul(text: Seq<char>)
    ensures
        encode(text).contains(0u16) <==> text.contains('\0'),
    decreases text.len(),
{
    if text.len() > 0 {
        let head = encode_char(text[0]);
        let rest = text.drop_first();
        encode_has_zero_iff_nul(rest);
        assert(head.contains(0u16) <==> text[0] == '\0') by {
            encode_char_shape(text[0]);
            if text[0] == '\0' {
                assert(head[0] == 0u16);
            }
        }
        if encode(text).contains(0u16) {
            let i = choose|i: int| 0 <= i < encode(text).len() && encode(text)[i] == 0u16;
            if i < head.len() {
                assert(head[i] == 0u16);
                assert(text[0] == '\0');
            } else {
                assert(encode(rest)[i - head.len()] == 0u16);
                let j = choose|j: int| 0 <= j < rest.len() && rest[j] == '\0';
                assert(text[j + 1] == '\0');
            }
        }
        if text.contains('\0') {
            let i = choose|i: int| 0 <= i < text.len() && text[i] == '\0';
            if i == 0 {
                assert(encode(text)[0] == 0u16);
            } else {
                assert(rest[i - 1] == '\0');
                let j = choose|j: int| 0 <= j < encode(rest).len() && encode(rest)[j] == 0u16;
                assert(encode(text)[j + head.len()] == 0u16);
            }
        }
    }
}

/// Appends the code units of one character.
fn push_units(units: &mut Vec<u16>, c: char)
    ensures
        final(units)@ == old(units)@ + encode_char(c),
{
    let value: u32 = c as u32;
    if value < 0x10000 {
        units.push(value as u16);
    } else {
        let offset: u32 = value - 0x10000;
        units.push((0xD800 + offset / 0x400) as u16);
        units.push((0xDC00 + offset % 0x400) as u16);
    }
    assert(units@ =~= old(units)@ + encode_char(c));
}

/// The UTF-16 code units of a text.
pub fn encode_units(text: &str) -> (units: Vec<u16>)
    ensures
        units@ == encode(text@),
{
    let mut units: Vec<u16> = Vec::new();
    for c in it: text.chars()
        invariant
            it.seq() == text@,
            units@ == encode(text@.take(it.index() as int)),
    {
        push_units(&mut units, c);
        proof {
            let i = it.index() as int;
            let done = text@.take(i);
            encode_concat(done, seq![c]);
            assert(text@.take(i + 1) =~= done + seq![c]);
            assert(seq![c].drop_first() =~= Seq::<char>::empty());
            reveal_with_fuel(encode, 2);
            assert(encode(seq![c]) =~= encode_char(c));
        }
    }
    assert(text@.take(text@.len() as int) =~= text@);
    units
}

/// The text that the code units stand for, with U+FFFD for each unpaired surrogate.
pub fn decode_units(units: &[u16]) -> (text: String)
    ensures
        text@ == decode_lossy(units@),
{
    let mut text = String::new();
    let mut i: usize = 0;
    assert(units@.skip(0) =~= units@);
    while i < units.len()
        invariant
            i <= units@.len(),
            text@ + decode_lossy(units@.skip(i as int)) == decode_lossy(units@),
        decreases units@.len() - i,
    {
        let ghost before = text@;
        let ghost here = units@.skip(i as int);
        let unit: u16 = units[i];
        let high: bool = 0xD800 <= unit && unit <= 0xDBFF;
        if high && i + 1 < units.len() && 0xDC00 <= units[i + 1] && units[i + 1] <= 0xDFFF {
            let low: u16 = units[i + 1];
            let value: u32 = 0x10000 + (unit as u32 - 0xD800) * 0x400 + (low as u32 - 0xDC00);
            push_scalar(&mut text, value);
            proof {
                assert(here.skip(2) =~= units@.skip(i + 2));
                assert(text@ + decode_lossy(units@.skip(i + 2)) =~= before + decode_lossy(here));
            }
            i = i + 2;
        } else {
            if 0xD800 <= unit && unit <= 0xDFFF {
                text.push(REPLACEMENT);
            } else {
                push_scalar(&mut text, unit as u32);
            }
            proof {
                assert(here.skip(1) =~= units@.skip(i + 1));
                assert(text@ + decode_lossy(units@.skip(i + 1)) =~= before + decode_lossy(here));
            }
            i = i + 1;
        }
    }
    assert(units@.skip(i as int) =~= Seq::<u16>::empty());
    assert(text@ + decode_lossy(Seq::<u16>::empty()) =~= text@);
    text
}

/// Appends the scalar value with the given number.
fn push_scalar(text: &mut String, value: u32)
    requires
        value <= 0xD7FF || 0xE000 <= value <= 0x10FFFF,
    ensures
        final(text)@ == old(text)@.push(value as char),
{
    if let Some(c) = char::from_u32(value) {
        text.push(c);
    }
}

} // verus!
