//! UTF-16 and UTF-8 text helpers used at the window-system boundary.
use vstd::prelude::*;
use vstd::utf8::*;

verus! {

/// UTF-16 code units of one Unicode scalar value.
pub open spec fn utf16_of_char(c: char) -> Seq<u16> {
    let v = c as u32;
    if v < 0x10000 {
        seq![v as u16]
    } else {
        let u = v - 0x10000;
        seq![(0xD800 + u / 0x400) as u16, (0xDC00 + u % 0x400) as u16]
    }
}

/// UTF-16 encoding of a character sequence.
pub open spec fn encode_utf16(s: Seq<char>) -> Seq<u16>
    decreases s.len(),
{
    if s.len() == 0 {
        seq![]
    } else {
        encode_utf16(s.drop_last()) + utf16_of_char(s.last())
    }
}

/// A UTF-16 unit that starts a surrogate pair.
pub open spec fn is_high_surrogate(unit: u16) -> bool {
    0xD800 <= unit <= 0xDBFF
}

/// A UTF-16 unit that ends a surrogate pair.
pub open spec fn is_low_surrogate(unit: u16) -> bool {
    0xDC00 <= unit <= 0xDFFF
}

/// Decoding of UTF-16 text: a high surrogate followed by a low one stands
/// for one supplementary character, any other unit for the character of
/// its value.
pub open spec fn decode_utf16(units: Seq<u16>) -> Seq<char>
    decreases units.len(),
{
    if units.len() == 0 {
        seq![]
    } else if units.len() >= 2 && is_low_surrogate(units.last()) && is_high_surrogate(
        units[units.len() - 2],
    ) {
        let hi = units[units.len() - 2] as int;
        let lo = units.last() as int;
        decode_utf16(units.subrange(0, units.len() - 2)).push(
            ((hi - 0xD800) * 0x400 + (lo - 0xDC00) + 0x10000) as char,
        )
    } else {
        decode_utf16(units.drop_last()).push(units.last() as char)
    }
}

/// UTF-16 decoding gives back the encoded text: `to_wide` loses nothing
/// but appends its terminating NUL.
pub proof fn utf16_round_trip(s: Seq<char>)
    ensures
        decode_utf16(encode_utf16(s)) == s,
    decreases s.len(),
{
    if s.len() > 0 {
        let prefix = s.drop_last();
        let c = s.last();
        let v = c as u32;
        char_is_scalar(c);
        char_u32_cast(c, v);
        utf16_round_trip(prefix);
        let e = encode_utf16(s);
        let ep = encode_utf16(prefix);
        assert(e == ep + utf16_of_char(c));
        if v < 0x10000 {
            assert(e.drop_last() == ep);
            assert(!is_low_surrogate(e.last()));
            assert((e.last() as u32) == v);
        } else {
            let u = v - 0x10000;
            assert(u < 0x100000);
            assert(e.subrange(0, e.len() - 2) == ep);
            assert(e[e.len() - 2] == (0xD800 + u / 0x400) as u16);
            assert(e.last() == (0xDC00 + u % 0x400) as u16);
            assert((u / 0x400) * 0x400 + u % 0x400 + 0x10000 == v);
        }
        assert(s == prefix.push(c));
    }
}

fn push_utf16(out: &mut Vec<u16>, c: char)
    ensures
        final(out)@ == old(out)@ + utf16_of_char(c),
{
    let v = c as u32;
    if v < 0x10000 {
        out.push(v as u16);
    } else {
        let u = v - 0x10000;
        out.push((0xD800 + u / 0x400) as u16);
        out.push((0xDC00 + u % 0x400) as u16);
    }
}

/// Appends the UTF-16 encoding of `s` to `out`.
pub fn extend_utf16(out: &mut Vec<u16>, s: &str)
    ensures
        final(out)@ == old(out)@ + encode_utf16(s@),
{
    broadcast use vstd::string::group_string_axioms;
    let ghost start = out@;
    for c in it: s.chars()
        invariant
            it.seq() == s@,
            out@ == start + encode_utf16(s@.take(it.index() as int)),
    {
        assert(s@.take(it.index() + 1).drop_last() == s@.take(it.index() as int));
        push_utf16(out, c);
    }
    assert(s@.take(s@.len() as int) == s@);
}

/// The string as a NUL-terminated UTF-16 buffer, as the wide-character
/// window-system calls take it (`utf16_round_trip` decodes it back).
pub fn to_wide(value: &str) -> (wide: Vec<u16>)
    ensures
        wide@ == encode_utf16(value@).push(0),
{
    let mut wide: Vec<u16> = Vec::new();
    extend_utf16(&mut wide, value);
    wide.push(0);
    wide
}

/// The bytes that a single UTF-16 code unit typed at the keyboard stands
/// for: its UTF-8 encoding, or that of U+FFFD when the unit is a lone
/// surrogate (the lossy decoding of a one-unit UTF-16 string).
pub open spec fn lossy_unit_utf8(unit: u16) -> Seq<u8> {
    if 0xD800 <= unit <= 0xDFFF {
        encode_scalar(0xFFFD)
    } else {
        encode_scalar(unit as u32)
    }
}

/// UTF-8 bytes of one UTF-16 code unit, decoded lossily.
pub fn unit_to_utf8(unit: u16) -> (bytes: Vec<u8>)
    ensures
        bytes@ == lossy_unit_utf8(unit),
{
    let v: u32 = if 0xD800 <= unit && unit <= 0xDFFF { 0xFFFD } else { unit as u32 };
    assert(v <= 0xFFFF);
    if v < 0x80 {
        let b0: u8 = (v & 0x7F) as u8;
        assert(b0 == leading_byte_width_1(v)) by (bit_vector)
            requires b0 == (v & 0x7F) as u8;
        vec![b0]
    } else if v < 0x800 {
        let b0: u8 = 0xC0 | ((v >> 6) & 0x1F) as u8;
        let b1: u8 = 0x80 | (v & 0x3F) as u8;
        vec![b0, b1]
    } else {
        let b0: u8 = 0xE0 | ((v >> 12) & 0x0F) as u8;
        let b1: u8 = 0x80 | ((v >> 6) & 0x3F) as u8;
        let b2: u8 = 0x80 | (v & 0x3F) as u8;
        vec![b0, b1, b2]
    }
}

/// The contents of a fixed-size wide-character buffer of `capacity` units
/// filled with `text`: the NUL-terminated UTF-16 text, cut off at the
/// capacity, and zeros after it.
pub open spec fn wide_buffer(text: Seq<char>, capacity: nat) -> Seq<u16> {
    let w = encode_utf16(text).push(0);
    Seq::new(capacity, |i: int| if i < w.len() { w[i] } else { 0u16 })
}

/// Fills a zeroed buffer of `capacity` wide characters with as much of the
/// NUL-terminated `text` as fits (a tray icon's tooltip).
pub fn fill_wide_buffer(text: &str, capacity: usize) -> (buffer: Vec<u16>)
    ensures
        buffer@ == wide_buffer(text@, capacity as nat),
{
    let wide = to_wide(text);
    let mut buffer: Vec<u16> = Vec::new();
    let mut i: usize = 0;
    while i < capacity
        invariant
            i <= capacity,
            wide@ == encode_utf16(text@).push(0),
            buffer@ == wide_buffer(text@, capacity as nat).take(i as int),
        decreases capacity - i,
    {
        if i < wide.len() {
            buffer.push(wide[i]);
        } else {
            buffer.push(0);
        }
        assert(buffer@ == wide_buffer(text@, capacity as nat).take(i + 1));
        i = i + 1;
    }
    assert(buffer@ == wide_buffer(text@, capacity as nat));
    buffer
}

} // verus!
