//! Decoding of the UTF-16 text that Win32 hands out.

use vstd::prelude::*;

verus! {

/// Whether `unit` is the first half of a surrogate pair.
pub open spec fn is_high_surrogate(unit: u16) -> bool {
    0xD800 <= unit < 0xDC00
}

/// Whether `unit` is the second half of a surrogate pair.
pub open spec fn is_low_surrogate(unit: u16) -> bool {
    0xDC00 <= unit < 0xE000
}

/// The character that a surrogate pair encodes.
pub open spec fn surrogate_pair(high: u16, low: u16) -> char {
    (0x10000 + (high - 0xD800) * 0x400 + (low - 0xDC00)) as char
}

/// The text that `units` encode, every unpaired surrogate read as U+FFFD.
pub open spec fn utf16_lossy(units: Seq<u16>) -> Seq<char>
    decreases units.len(),
{
    if units.len() == 0 {
        Seq::empty()
    } else if units.len() >= 2 && is_high_surrogate(units[0]) && is_low_surrogate(units[1]) {
        seq![surrogate_pair(units[0], units[1])] + utf16_lossy(units.skip(2))
    } else if is_high_surrogate(units[0]) || is_low_surrogate(units[0]) {
        seq!['\u{FFFD}'] + utf16_lossy(units.skip(1))
    } else {
        seq![units[0] as char] + utf16_lossy(units.skip(1))
    }
}

/// Calls `String::from_utf16_lossy`. Believed of it: the result is the text
/// that the units encode in UTF-16, with U+FFFD in place of each surrogate
/// that has no partner.
#[verifier::external_body]
pub(crate) fn decode_lossy(units: &[u16]) -> (text: String)
    ensures
        text@ == utf16_lossy(units@),
{
    String::from_utf16_lossy(units)
}

/// The encoding of ASCII text: one unit for each character.
pub open spec fn ascii_units(text: Seq<char>) -> Seq<u16> {
    text.map_values(|c: char| c as u16)
}

/// Text of ASCII characters has one encoding: units decode to it exactly when
/// they are its characters, one unit each.
pub proof fn ascii_text_has_one_encoding(units: Seq<u16>, text: Seq<char>)
    requires
        vstd::utf8::is_ascii_chars(text),
    ensures
        utf16_lossy(units) == text <==> units == ascii_units(text),
    decreases units.len(),
{
    let decoded = utf16_lossy(units);
    if units.len() == 0 || text.len() == 0 {
        if units.len() == 0 && text.len() == 0 {
            assert(units =~= ascii_units(text));
            assert(decoded =~= text);
        }
    } else {
        let rest = units.skip(1);
        let tail = text.skip(1);
        assert(ascii_units(text) =~= seq![text[0] as u16] + ascii_units(tail));
        assert(units =~= seq![units[0]] + rest);
        assert(text =~= seq![text[0]] + tail);
        ascii_text_has_one_encoding(rest, tail);
        if is_high_surrogate(units[0]) || is_low_surrogate(units[0]) {
            assert(decoded[0] as int >= 0x80);
            assert((text[0] as u16) < 0x80);
            assert(ascii_units(text)[0] != units[0]);
        } else {
            assert(decoded.skip(1) =~= utf16_lossy(rest));
            assert(decoded =~= seq![decoded[0]] + decoded.skip(1));
            assert(ascii_units(text).skip(1) =~= ascii_units(tail));
            assert(decoded[0] == units[0] as char);
            assert(decoded[0] == text[0] <==> units[0] == text[0] as u16);
            assert(utf16_lossy(rest) == tail <==> rest == ascii_units(tail));
            if decoded == text {
                assert(decoded.skip(1) == text.skip(1));
                assert(units =~= ascii_units(text));
            }
            if units == ascii_units(text) {
                assert(units[0] == ascii_units(text)[0]);
                assert(decoded =~= text);
            }
        }
    }
}

} // verus!
