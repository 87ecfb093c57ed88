//! UTF-16 encoding and decoding for the native library's text convention:
//! variable-length text fields arrive as little-endian 16-bit code units and
//! search queries are handed over the same way.

use vstd::prelude::*;

verus! {

/// A 16-bit unit in the high-surrogate range.
pub open spec fn is_high_surrogate(u: u16) -> bool {
    0xD800 <= u <= 0xDBFF
}

/// A 16-bit unit in the low-surrogate range.
pub open spec fn is_low_surrogate(u: u16) -> bool {
    0xDC00 <= u <= 0xDFFF
}

/// A 16-bit unit in either surrogate range; such a unit is never a scalar
/// value on its own.
pub open spec fn is_surrogate(u: u16) -> bool {
    0xD800 <= u <= 0xDFFF
}

/// The scalar value a high/low surrogate pair stands for.
pub open spec fn combined_scalar(hi: u16, lo: u16) -> u32
    recommends
        is_high_surrogate(hi),
        is_low_surrogate(lo),
{
    (0x10000 + (hi - 0xD800) * 0x400 + (lo - 0xDC00)) as u32
}

/// The characters a well-formed UTF-16 unit sequence denotes, or `None` when
/// the sequence holds an unpaired surrogate.
pub open spec fn utf16_chars(units: Seq<u16>) -> Option<Seq<char>>
    decreases units.len(),
{
    if units.len() == 0 {
        Some(Seq::empty())
    } else if !is_surrogate(units[0]) {
        match utf16_chars(units.skip(1)) {
            Some(rest) => Some(seq![(units[0] as u32) as char] + rest),
            None => None,
        }
    } else if is_high_surrogate(units[0]) && units.len() >= 2 && is_low_surrogate(units[1]) {
        match utf16_chars(units.skip(2)) {
            Some(rest) => Some(seq![combined_scalar(units[0], units[1]) as char] + rest),
            None => None,
        }
    } else {
        None
    }
}

/// The UTF-16 encoding of one character: one unit for values below 0x10000,
/// a surrogate pair above.
pub open spec fn utf16_units_of_char(c: char) -> Seq<u16> {
    if (c as u32) < 0x10000 {
        seq![(c as u32) as u16]
    } else {
        seq![
            (0xD800 + ((c as u32) - 0x10000) / 0x400) as u16,
            (0xDC00 + ((c as u32) - 0x10000) % 0x400) as u16,
        ]
    }
}

/// The UTF-16 encoding of a character sequence.
pub open spec fn utf16_units(s: Seq<char>) -> Seq<u16>
    decreases s.len(),
{
    if s.len() == 0 {
        Seq::empty()
    } else {
        utf16_units_of_char(s[0]) + utf16_units(s.skip(1))
    }
}

/// Relies on char::from_u32: `Some` exactly for Unicode scalar values, and
/// the returned character casts back to the argument.
#[verifier::external_body]
pub(crate) fn char_from_u32(u: u32) -> (r: Option<char>)
    ensures
        r is Some <==> vstd::utf8::is_scalar(u),
        r is Some ==> r->0 as u32 == u,
{
    char::from_u32(u)
}

/// Relies on String::push: appends exactly the given character.
#[verifier::external_body]
pub(crate) fn push_char(s: &mut String, c: char)
    ensures
        final(s)@ == old(s)@.push(c),
{
    s.push(c)
}

/// Decode a UTF-16 unit sequence, or report `None` when it holds an unpaired
/// surrogate. Absence of a field and a malformed field stay distinct: the
/// empty sequence decodes to the empty string.
pub fn units_to_string(units: &Vec<u16>) -> (r: Option<String>)
    ensures
        match r {
            Some(s) => utf16_chars(units@) == Some(s@),
            None => utf16_chars(units@) is None,
        },
{
    let len = units.len();
    let mut out = String::new();
    let mut i: usize = 0;
    assert(units@.skip(0) =~= units@);
    loop
        invariant
            i <= len,
            len == units@.len(),
            match utf16_chars(units@.skip(i as int)) {
                Some(rest) => utf16_chars(units@) == Some(out@ + rest),
                None => utf16_chars(units@) is None,
            },
        decreases len - i,
    {
        if i == len {
            assert(units@.skip(i as int) =~= Seq::<u16>::empty());
            assert(out@ + Seq::<char>::empty() =~= out@);
            return Some(out);
        }
        let ghost pre_tail = units@.skip(i as int);
        assert(pre_tail[0] == units@[i as int]);
        let u = units[i];
        if !(0xD800 <= u && u <= 0xDFFF) {
            assert(vstd::utf8::is_scalar(u as u32));
            let c = char_from_u32(u as u32).unwrap();
            proof {
                vstd::utf8::char_u32_cast(c, u as u32);
            }
            let ghost old_out = out@;
            push_char(&mut out, c);
            proof {
                assert(pre_tail.skip(1) =~= units@.skip(i as int + 1));
                if let Some(rest2) = utf16_chars(units@.skip(i as int + 1)) {
                    assert(utf16_chars(pre_tail) == Some(seq![c] + rest2));
                    assert(old_out.push(c) =~= old_out + seq![c]);
                    assert((old_out + seq![c]) + rest2 =~= old_out + (seq![c] + rest2));
                }
            }
            i = i + 1;
        } else if 0xD800 <= u && u <= 0xDBFF && i + 1 < len && 0xDC00 <= units[i + 1]
            && units[i + 1] <= 0xDFFF {
            assert(pre_tail[1] == units@[i as int + 1]);
            let lo = units[i + 1];
            let v: u32 = 0x10000 + ((u - 0xD800) as u32) * 0x400 + ((lo - 0xDC00) as u32);
            assert(v == combined_scalar(u, lo));
            assert(vstd::utf8::is_scalar(v));
            let c = char_from_u32(v).unwrap();
            proof {
                vstd::utf8::char_u32_cast(c, v);
            }
            let ghost old_out = out@;
            push_char(&mut out, c);
            proof {
                assert(pre_tail.skip(2) =~= units@.skip(i as int + 2));
                if let Some(rest2) = utf16_chars(units@.skip(i as int + 2)) {
                    assert(utf16_chars(pre_tail) == Some(seq![c] + rest2));
                    assert(old_out.push(c) =~= old_out + seq![c]);
                    assert((old_out + seq![c]) + rest2 =~= old_out + (seq![c] + rest2));
                }
            }
            i = i + 2;
        } else {
            return None;
        }
    }
}

/// Appending a character extends the encoding by that character's units.
proof fn lemma_utf16_units_push(s: Seq<char>, c: char)
    ensures
        utf16_units(s.push(c)) == utf16_units(s) + utf16_units_of_char(c),
    decreases s.len(),
{
    reveal_with_fuel(utf16_units, 2);
    if s.len() == 0 {
        assert(s.push(c)[0] == c);
        assert(s.push(c).skip(1) =~= Seq::<char>::empty());
        assert(utf16_units(s.push(c)) =~= utf16_units_of_char(c));
        assert(utf16_units(s) + utf16_units_of_char(c) =~= utf16_units_of_char(c));
    } else {
        assert(s.push(c).skip(1) =~= s.skip(1).push(c));
        lemma_utf16_units_push(s.skip(1), c);
        assert(s.push(c)[0] == s[0]);
        assert(utf16_units_of_char(s[0]) + (utf16_units(s.skip(1)) + utf16_units_of_char(c)) =~= (
        utf16_units_of_char(s[0]) + utf16_units(s.skip(1))) + utf16_units_of_char(c));
    }
}

/// Encoding a character sequence as UTF-16 and decoding the units gives
/// the same characters back: the encoder emits no unpaired surrogate and
/// the decoder undoes it exactly.
pub proof fn lemma_utf16_round_trip(s: Seq<char>)
    ensures
        utf16_chars(utf16_units(s)) == Some(s),
    decreases s.len(),
{
    if s.len() == 0 {
        assert(utf16_units(s) =~= Seq::<u16>::empty());
        assert(s =~= Seq::<char>::empty());
    } else {
        let c = s[0];
        let u = utf16_units_of_char(c);
        let rest = utf16_units(s.skip(1));
        let whole = utf16_units(s);
        assert(whole == u + rest);
        lemma_utf16_round_trip(s.skip(1));
        vstd::utf8::char_is_scalar(c);
        let v = c as u32;
        if v < 0x10000 {
            let unit = (v as u16);
            assert(unit as u32 == v);
            vstd::utf8::char_u32_cast(c, v);
            assert(!is_surrogate(unit));
            assert(whole[0] == unit);
            assert(whole.skip(1) =~= rest);
            assert((unit as u32) as char == c);
            assert(seq![c] + s.skip(1) =~= s);
        } else {
            let hi = (0xD800 + (v - 0x10000) / 0x400) as u16;
            let lo = (0xDC00 + (v - 0x10000) % 0x400) as u16;
            assert((v - 0x10000) / 0x400 <= 0x3FF);
            assert(is_high_surrogate(hi));
            assert(is_low_surrogate(lo));
            assert(whole[0] == hi);
            assert(whole[1] == lo);
            assert(whole.len() >= 2);
            assert(whole.skip(2) =~= rest);
            assert(((v - 0x10000) / 0x400) * 0x400 + (v - 0x10000) % 0x400 == v - 0x10000);
            assert(combined_scalar(hi, lo) == v);
            vstd::utf8::char_u32_cast(c, v);
            assert(combined_scalar(hi, lo) as char == c);
            assert(seq![c] + s.skip(1) =~= s);
        }
    }
}

/// Encode a string as UTF-16 code units, in order, surrogate pairs for
/// characters above the basic plane.
pub fn string_to_units(s: &str) -> (r: Vec<u16>)
    ensures
        r@ == utf16_units(s@),
{
    let len = s.unicode_len();
    let mut out: Vec<u16> = Vec::new();
    let mut i: usize = 0;
    assert(out@ =~= utf16_units(s@.take(0)));
    while i < len
        invariant
            i <= len,
            len == s@.len(),
            out@ == utf16_units(s@.take(i as int)),
        decreases len - i,
    {
        let c = s.get_char(i);
        proof {
            vstd::utf8::char_is_scalar(c);
        }
        let v = c as u32;
        if v < 0x10000 {
            out.push(v as u16);
        } else {
            out.push((0xD800 + (v - 0x10000) / 0x400) as u16);
            out.push((0xDC00 + (v - 0x10000) % 0x400) as u16);
        }
        proof {
            assert(s@.take(i as int + 1) =~= s@.take(i as int).push(s@[i as int]));
            lemma_utf16_units_push(s@.take(i as int), s@[i as int]);
            assert(out@ =~= utf16_units(s@.take(i as int)) + utf16_units_of_char(c));
        }
        i = i + 1;
    }
    assert(s@.take(len as int) =~= s@);
    out
}

} // verus!
