//! Text between the two encodings of the console: UTF-16 code units on the
//! console path, UTF-8 bytes on the byte path.

use vstd::prelude::*;
use vstd::std_specs::iter::IteratorSpec;
use vstd::string::StrSliceExecFns;
use vstd::utf8::decode_utf8;
use vstd::utf8::encode_utf8;
use vstd::utf8::valid_utf8;

verus! {

/// Whether `unit` alone stands for a character: whether it is no half of a
/// surrogate pair.
pub open spec fn is_single_unit(unit: u16) -> bool {
    unit < 0xD800 || 0xDFFF < unit
}

/// Whether `unit` is the first half of a surrogate pair.
pub open spec fn is_high_surrogate(unit: u16) -> bool {
    0xD800 <= unit <= 0xDBFF
}

/// Whether `unit` is the second half of a surrogate pair.
pub open spec fn is_low_surrogate(unit: u16) -> bool {
    0xDC00 <= unit <= 0xDFFF
}

/// The code of the character that the surrogate pair `high`, `low` stands
/// for.
pub open spec fn pair_value(high: u16, low: u16) -> int {
    0x10000 + (high - 0xD800) * 0x400 + (low - 0xDC00)
}

/// The UTF-16 code units of one character: itself where it fits in a unit,
/// else its surrogate pair.
pub open spec fn encode_char_utf16(c: char) -> Seq<u16> {
    if c as u32 <= 0xFFFF {
        seq![c as u32 as u16]
    } else {
        seq![
            (0xD800 + (c as u32 - 0x10000) / 0x400) as u16,
            (0xDC00 + (c as u32 - 0x10000) % 0x400) as u16,
        ]
    }
}

/// The UTF-16 encoding of a text.
pub open spec fn encode_utf16(chars: Seq<char>) -> Seq<u16>
    decreases chars.len(),
{
    if chars.len() == 0 {
        Seq::empty()
    } else {
        encode_char_utf16(chars[0]) + encode_utf16(chars.drop_first())
    }
}

/// The text that UTF-16 code units stand for. There is none where a
/// surrogate stands without its other half.
pub open spec fn decode_utf16(units: Seq<u16>) -> Option<Seq<char>>
    decreases units.len(),
{
    if units.len() == 0 {
        Some(Seq::empty())
    } else if is_single_unit(units[0]) {
        match decode_utf16(units.drop_first()) {
            Some(rest) => Some(seq![units[0] as u32 as char] + rest),
            None => None,
        }
    } else if is_high_surrogate(units[0]) && units.len() >= 2 && is_low_surrogate(units[1]) {
        match decode_utf16(units.skip(2)) {
            Some(rest) => Some(seq![pair_value(units[0], units[1]) as char] + rest),
            None => None,
        }
    } else {
        None
    }
}

/// Whether the code units are well-formed UTF-16.
pub open spec fn valid_utf16(units: Seq<u16>) -> bool {
    decode_utf16(units).is_some()
}

/// What the first character of a UTF-16 text is, and how many units it
/// takes; none at the end of the text and where the text is ill-formed
/// there.
pub open spec fn first_char_utf16(units: Seq<u16>) -> Option<(char, int)> {
    if units.len() == 0 {
        None
    } else if is_single_unit(units[0]) {
        Some((units[0] as u32 as char, 1))
    } else if is_high_surrogate(units[0]) && units.len() >= 2 && is_low_surrogate(units[1]) {
        Some((pair_value(units[0], units[1]) as char, 2))
    } else {
        None
    }
}

/// Decoding goes on after a prefix that has been decoded: where `units`
/// from `done` on starts with a character, the rest decodes as the units
/// after that character do, with the character in front.
pub proof fn lemma_decode_utf16_step(units: Seq<u16>, done: int)
    requires
        0 <= done < units.len(),
    ensures
        first_char_utf16(units.skip(done)) matches Some((c, n)) ==> done + n <= units.len()
            && decode_utf16(units.skip(done)) == match decode_utf16(units.skip(done + n)) {
            Some(rest) => Some(seq![c] + rest),
            None => None,
        },
        first_char_utf16(units.skip(done)).is_none() ==> decode_utf16(units.skip(done)).is_none(),
{
    let tail = units.skip(done);
    assert(tail.drop_first() =~= units.skip(done + 1));
    if tail.len() >= 2 {
        assert(tail.skip(2) =~= units.skip(done + 2));
    }
}

/// The units of one character decode to that character, whatever follows
/// them.
pub proof fn lemma_first_char_of_encoded(c: char, rest: Seq<u16>)
    ensures
        first_char_utf16(encode_char_utf16(c) + rest) == Some(
            (c, encode_char_utf16(c).len() as int),
        ),
{
    let units = encode_char_utf16(c) + rest;
    let code = c as u32;
    if code <= 0xFFFF {
        assert(units[0] == code as u16);
        assert(units[0] as u32 as char == c);
    } else {
        let high = (0xD800 + (code - 0x10000) / 0x400) as u16;
        let low = (0xDC00 + (code - 0x10000) % 0x400) as u16;
        assert(units[0] == high);
        assert(units[1] == low);
        assert(pair_value(high, low) == code as int);
        assert(pair_value(high, low) as char == c);
    }
}

/// Every text is what its UTF-16 encoding decodes to.
pub proof fn lemma_decode_encode_utf16(chars: Seq<char>)
    ensures
        decode_utf16(encode_utf16(chars)) == Some(chars),
    decreases chars.len(),
{
    if chars.len() > 0 {
        let head = encode_char_utf16(chars[0]);
        let rest = encode_utf16(chars.drop_first());
        let units = head + rest;
        lemma_first_char_of_encoded(chars[0], rest);
        lemma_decode_encode_utf16(chars.drop_first());
        lemma_decode_utf16_step(units, 0);
        assert(units.skip(0) =~= units);
        assert(units.skip(head.len() as int) =~= rest);
        assert(seq![chars[0]] + chars.drop_first() =~= chars);
    }
}

/// Well-formed UTF-16 is the encoding of the text it decodes to.
pub proof fn lemma_encode_decode_utf16(units: Seq<u16>)
    requires
        valid_utf16(units),
    ensures
        encode_utf16(decode_utf16(units).unwrap()) == units,
    decreases units.len(),
{
    if units.len() > 0 {
        lemma_decode_utf16_step(units, 0);
        assert(units.skip(0) =~= units);
        let (c, n) = first_char_utf16(units).unwrap();
        let rest = decode_utf16(units.skip(n)).unwrap();
        lemma_encode_decode_utf16(units.skip(n));
        let chars = seq![c] + rest;
        assert(chars.drop_first() =~= rest);
        assert(chars[0] == c);
        if n == 1 {
            assert(encode_char_utf16(c) =~= seq![units[0]]);
        } else {
            let code = pair_value(units[0], units[1]);
            assert(c as u32 == code);
            assert(encode_char_utf16(c) =~= seq![units[0], units[1]]);
        }
        assert(encode_char_utf16(c) + units.skip(n) =~= units);
    }
}

/// The character that one UTF-16 code unit stands for, if it stands for
/// one.
pub fn char_from_unit(unit: u16) -> (r: Option<char>)
    ensures
        r.is_some() <==> is_single_unit(unit),
        r matches Some(c) ==> c == unit as u32 as char && c as u32 == unit as u32,
{
    let r = char::from_u32(unit as u32);
    proof {
        if let Some(c) = r {
            vstd::utf8::char_u32_cast(c, unit as u32);
        }
    }
    r
}

/// The one UTF-16 code unit that `c` is written with, if one is enough.
pub fn unit_from_char(c: char) -> (r: Option<u16>)
    ensures
        r.is_some() <==> c as u32 <= 0xFFFF,
        r matches Some(unit) ==> unit as u32 == c as u32 && is_single_unit(unit)
            && encode_char_utf16(c) == seq![unit],
{
    let code: u32 = c as u32;
    if code <= 0xFFFF {
        Some(code as u16)
    } else {
        None
    }
}

/// Decodes UTF-16 code units into a string. There is a result exactly
/// where the units are well-formed, and it is then the text they stand for.
pub fn string_from_utf16(units: &[u16]) -> (r: Option<String>)
    ensures
        r.is_some() <==> valid_utf16(units@),
        r matches Some(text) ==> Some(text@) == decode_utf16(units@),
{
    let mut text = String::new();
    let mut done: usize = 0;
    assert(units@.skip(0) =~= units@);
    while done < units.len()
        invariant
            done <= units.len(),
            decode_utf16(units@) == match decode_utf16(units@.skip(done as int)) {
                Some(rest) => Some(text@ + rest),
                None => None,
            },
        decreases units.len() - done,
    {
        proof {
            lemma_decode_utf16_step(units@, done as int);
        }
        let ghost before = text@;
        let unit: u16 = units[done];
        assert(units@.skip(done as int)[0] == unit);
        match char_from_unit(unit) {
            Some(c) => {
                text.push(c);
                done = done + 1;
            },
            None => {
                if unit <= 0xDBFF && units.len() - done >= 2 {
                    let low: u16 = units[done + 1];
                    assert(units@.skip(done as int)[1] == low);
                    if 0xDC00 <= low && low <= 0xDFFF {
                        let value: u32 = 0x10000 + (unit as u32 - 0xD800) * 0x400 + (low as u32
                            - 0xDC00);
                        match char::from_u32(value) {
                            Some(c) => {
                                proof {
                                    vstd::utf8::char_u32_cast(c, value);
                                }
                                text.push(c);
                                done = done + 2;
                            },
                            None => {
                                return None;
                            },
                        }
                    } else {
                        return None;
                    }
                } else {
                    return None;
                }
            },
        }
        proof {
            let rest = decode_utf16(units@.skip(done as int));
            if let Some(tail) = rest {
                assert(before + (seq![text@.last()] + tail) =~= text@ + tail);
            }
        }
    }
    assert(units@.skip(done as int) =~= Seq::<u16>::empty());
    assert(text@ + Seq::<char>::empty() =~= text@);
    Some(text)
}

/// Encodes a text as UTF-16 code units.
pub fn utf16_from_str(text: &str) -> (r: Vec<u16>)
    ensures
        r@ == encode_utf16(text@),
        decode_utf16(r@) == Some(text@),
{
    broadcast use vstd::string::axiom_spec_iter, vstd::string::next_postcondition;

    let mut units: Vec<u16> = Vec::new();
    let mut chars = text.chars();
    assert(units@ + encode_utf16(chars.remaining()) =~= encode_utf16(text@));
    loop
        invariant
            units@ + encode_utf16(chars.remaining()) == encode_utf16(text@),
            chars.decrease() is Some,
        decreases chars.decrease().unwrap(),
    {
        let ghost rest = chars.remaining();
        match chars.next() {
            Some(c) => {
                let code: u32 = c as u32;
                if code <= 0xFFFF {
                    units.push(code as u16);
                } else {
                    units.push((0xD800 + (code - 0x10000) / 0x400) as u16);
                    units.push((0xDC00 + (code - 0x10000) % 0x400) as u16);
                }
                proof {
                    assert(rest[0] == c);
                    assert(units@ + encode_utf16(rest.drop_first()) =~= encode_utf16(text@));
                }
            },
            None => {
                assert(rest.len() == 0);
                assert(units@ + Seq::<u16>::empty() =~= units@);
                proof {
                    lemma_decode_encode_utf16(text@);
                }
                return units;
            },
        }
    }
}

/// Reads bytes as UTF-8. There is a result exactly where the bytes are
/// well-formed, and it is then the text they stand for.
pub fn string_from_utf8(bytes: &[u8]) -> (r: Option<String>)
    ensures
        r.is_some() <==> valid_utf8(bytes@),
        r matches Some(text) ==> text@ == decode_utf8(bytes@) && encode_utf8(text@) == bytes@,
{
    match core::str::from_utf8(bytes) {
        Ok(text) => {
            proof {
                vstd::utf8::encode_utf8_decode_utf8(text@);
            }
            Some(text.to_owned())
        },
        Err(_) => None,
    }
}

/// Transcodes UTF-16 code units to UTF-8 bytes. There is a result exactly
/// where the units are well-formed.
pub fn utf16_to_utf8(source: &[u16]) -> (r: Option<Vec<u8>>)
    ensures
        r.is_some() <==> valid_utf16(source@),
        r matches Some(bytes) ==> bytes@ == encode_utf8(decode_utf16(source@).unwrap()),
{
    match string_from_utf16(source) {
        Some(text) => Some(text.as_str().as_bytes_vec()),
        None => None,
    }
}

/// Transcodes UTF-8 bytes to UTF-16 code units. There is a result exactly
/// where the bytes are well-formed.
pub fn utf8_to_utf16(source: &[u8]) -> (r: Option<Vec<u16>>)
    ensures
        r.is_some() <==> valid_utf8(source@),
        r matches Some(units) ==> units@ == encode_utf16(decode_utf8(source@)) && decode_utf16(
            units@,
        ) == Some(decode_utf8(source@)),
{
    match core::str::from_utf8(source) {
        Ok(text) => {
            proof {
                vstd::utf8::encode_utf8_decode_utf8(text@);
            }
            Some(utf16_from_str(text))
        },
        Err(_) => None,
    }
}

/// A text written as UTF-8 and read back as UTF-8 is the same bytes, and a
/// text written from UTF-16 as UTF-8 and read back into UTF-16 is the same
/// units: the byte path keeps every well-formed text.
pub proof fn lemma_byte_path_round_trip(units: Seq<u16>)
    requires
        valid_utf16(units),
    ensures
        valid_utf8(encode_utf8(decode_utf16(units).unwrap())),
        encode_utf16(decode_utf8(encode_utf8(decode_utf16(units).unwrap()))) == units,
{
    let text = decode_utf16(units).unwrap();
    vstd::utf8::encode_utf8_valid_utf8(text);
    vstd::utf8::encode_utf8_decode_utf8(text);
    lemma_encode_decode_utf16(units);
}

} // verus!
