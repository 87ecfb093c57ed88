//! The two-phase buffer marshaling protocol: every variable-length native
//! output is fetched by first asking for the required size with an empty
//! buffer, then — only when the reported size exceeds the field's terminator
//! minimum — calling again with a buffer of exactly that size, trimming the
//! trailing terminator, and decoding the field's encoding.
//!
//! Decode failure is kept distinct from "field absent": an absent field is
//! decided from the reported size alone, before any second call.

use crate::text16;
use vstd::prelude::*;

verus! {

/// A byte sequence nominally encoded as UTF-16 or UTF-8 failed to decode.
#[derive(Clone, Copy, Debug, PartialEq, Eq, Structural)]
pub enum DecodeError {
    InvalidUtf16,
    InvalidUtf8,
}

/// What the first protocol call decides: `None` means the field is absent
/// and no second call is made; `Some(cap)` means one second call with a
/// buffer of capacity exactly `cap`.
pub open spec fn fetch_plan_model(reported: u64, min_size: u64) -> Option<u64> {
    if reported <= min_size {
        None
    } else {
        Some(reported)
    }
}

/// Decide the second protocol call from the reported size. `min_size` is the
/// field's terminator minimum (0 for raw data, 1 for 8-bit text, 2 for
/// UTF-16 text).
pub fn fetch_plan(reported: u64, min_size: u64) -> (r: Option<u64>)
    ensures
        r == fetch_plan_model(reported, min_size),
{
    if reported <= min_size {
        None
    } else {
        Some(reported)
    }
}

/// A size report of 0 always classifies the field as absent, so no second
/// native call is made, whatever the terminator minimum.
pub proof fn lemma_zero_report_is_absent(min_size: u64)
    ensures
        fetch_plan_model(0, min_size) is None,
{
}

/// A size report above the terminator minimum always asks for exactly one
/// second call, with a buffer capacity of exactly the reported size.
pub proof fn lemma_positive_report_fetches_exactly(reported: u64, min_size: u64)
    requires
        reported > min_size,
    ensures
        fetch_plan_model(reported, min_size) == Some(reported),
{
}

/// The 16-bit units held by a little-endian byte buffer; a dangling odd
/// byte carries no unit and is ignored.
pub open spec fn units_of_le_bytes(bytes: Seq<u8>) -> Seq<u16> {
    Seq::new(bytes.len() / 2, |i: int| (bytes[2 * i] + 256 * bytes[2 * i + 1]) as u16)
}

/// Reinterpret a little-endian byte buffer as 16-bit code units.
pub fn le_bytes_to_units(bytes: &Vec<u8>) -> (r: Vec<u16>)
    ensures
        r@ == units_of_le_bytes(bytes@),
{
    let n = bytes.len() / 2;
    let mut out: Vec<u16> = Vec::new();
    let mut i: usize = 0;
    while i < n
        invariant
            i <= n,
            n == bytes@.len() / 2,
            2 * n <= usize::MAX,
            out@.len() == i,
            forall|j: int| 0 <= j < i ==> out@[j] == units_of_le_bytes(bytes@)[j],
        decreases n - i,
    {
        let lo = bytes[2 * i];
        let hi = bytes[2 * i + 1];
        let unit: u16 = lo as u16 + (hi as u16) * 256;
        out.push(unit);
        i = i + 1;
    }
    assert(out@ =~= units_of_le_bytes(bytes@));
    out
}

/// A unit sequence with a single trailing null unit stripped, if present.
pub open spec fn trimmed_units(units: Seq<u16>) -> Seq<u16> {
    if units.len() > 0 && units.last() == 0 {
        units.drop_last()
    } else {
        units
    }
}

/// Strip one trailing null code unit, if present.
pub fn trim_unit_terminator(units: Vec<u16>) -> (r: Vec<u16>)
    ensures
        r@ == trimmed_units(units@),
{
    let mut units = units;
    let ghost orig = units@;
    let n = units.len();
    if n > 0 && units[n - 1] == 0 {
        units.pop();
        assert(units@ =~= trimmed_units(orig));
    }
    units
}

/// A byte sequence with a single trailing null byte stripped, if present.
pub open spec fn trimmed_bytes(bytes: Seq<u8>) -> Seq<u8> {
    if bytes.len() > 0 && bytes.last() == 0 {
        bytes.drop_last()
    } else {
        bytes
    }
}

/// Strip one trailing null byte, if present.
pub fn trim_byte_terminator(bytes: Vec<u8>) -> (r: Vec<u8>)
    ensures
        r@ == trimmed_bytes(bytes@),
{
    let mut bytes = bytes;
    let ghost orig = bytes@;
    let n = bytes.len();
    if n > 0 && bytes[n - 1] == 0 {
        bytes.pop();
        assert(bytes@ =~= trimmed_bytes(orig));
    }
    bytes
}

/// Relies on String::from_utf8: succeeds exactly on valid UTF-8 input,
/// yielding its decoding; the failure detail is dropped on the way out.
#[verifier::external_body]
pub(crate) fn string_from_utf8(bytes: Vec<u8>) -> (r: Option<String>)
    ensures
        r is Some <==> vstd::utf8::valid_utf8(bytes@),
        r is Some ==> r->0@ == vstd::utf8::decode_utf8(bytes@),
{
    String::from_utf8(bytes).ok()
}

/// What a filled UTF-16 text field decodes to: trim the terminator; an
/// empty remainder means the field is absent; an unpaired surrogate is a
/// decode error, distinct from absence.
pub open spec fn utf16_field_model(bytes: Seq<u8>) -> Result<Option<Seq<char>>, DecodeError> {
    let t = trimmed_units(units_of_le_bytes(bytes));
    if t.len() == 0 {
        Ok(None)
    } else {
        match text16::utf16_chars(t) {
            Some(cs) => Ok(Some(cs)),
            None => Err(DecodeError::InvalidUtf16),
        }
    }
}

/// Decode a filled UTF-16 text field buffer (metadata values, page labels).
pub fn decode_utf16_field(bytes: &Vec<u8>) -> (r: Result<Option<String>, DecodeError>)
    ensures
        match r {
            Ok(Some(s)) => utf16_field_model(bytes@) == Ok::<Option<Seq<char>>, DecodeError>(
                Some(s@),
            ),
            Ok(None) => utf16_field_model(bytes@) == Ok::<Option<Seq<char>>, DecodeError>(
                None::<Seq<char>>,
            ),
            Err(e) => utf16_field_model(bytes@) == Err::<Option<Seq<char>>, DecodeError>(e),
        },
{
    let units = le_bytes_to_units(bytes);
    let units = trim_unit_terminator(units);
    if units.len() == 0 {
        return Ok(None);
    }
    match text16::units_to_string(&units) {
        Some(s) => Ok(Some(s)),
        None => Err(DecodeError::InvalidUtf16),
    }
}

/// What a UTF-16 field decodes to where the native call counts the two
/// terminator bytes into the reported size and they are dropped by byte
/// count (signature reasons): an empty remainder means the field is
/// absent; an unpaired surrogate is a decode error, distinct from absence.
pub open spec fn utf16_counted_field_model(bytes: Seq<u8>) -> Result<
    Option<Seq<char>>,
    DecodeError,
> {
    let t = units_of_le_bytes(bytes.take(bytes.len() - 2));
    if t.len() == 0 {
        Ok(None)
    } else {
        match text16::utf16_chars(t) {
            Some(cs) => Ok(Some(cs)),
            None => Err(DecodeError::InvalidUtf16),
        }
    }
}

/// Decode a filled UTF-16 field buffer whose final two bytes are the
/// terminator, dropped by byte count.
pub fn decode_utf16_counted_field(bytes: &Vec<u8>) -> (r: Result<Option<String>, DecodeError>)
    requires
        bytes@.len() >= 2,
    ensures
        match r {
            Ok(Some(s)) => utf16_counted_field_model(bytes@) == Ok::<
                Option<Seq<char>>,
                DecodeError,
            >(Some(s@)),
            Ok(None) => utf16_counted_field_model(bytes@) == Ok::<Option<Seq<char>>, DecodeError>(
                None::<Seq<char>>,
            ),
            Err(e) => utf16_counted_field_model(bytes@) == Err::<Option<Seq<char>>, DecodeError>(e),
        },
{
    let mut body = bytes.clone();
    body.truncate(bytes.len() - 2);
    assert(body@ =~= bytes@.take(bytes@.len() - 2));
    let units = le_bytes_to_units(&body);
    if units.len() == 0 {
        return Ok(None);
    }
    match text16::units_to_string(&units) {
        Some(s) => Ok(Some(s)),
        None => Err(DecodeError::InvalidUtf16),
    }
}

/// What a filled 8-bit text field decodes to under the full protocol: trim
/// the terminator; an empty remainder means the field is absent, and
/// malformed bytes are a decode error, distinct from absence.
pub open spec fn utf8_field_model(bytes: Seq<u8>) -> Result<Option<Seq<char>>, DecodeError> {
    let t = trimmed_bytes(bytes);
    if t.len() == 0 {
        Ok(None)
    } else if vstd::utf8::valid_utf8(t) {
        Ok(Some(vstd::utf8::decode_utf8(t)))
    } else {
        Err(DecodeError::InvalidUtf8)
    }
}

/// Decode a filled 8-bit text field buffer (font names, URI paths, file
/// paths, signature sub-filters and timestamps), keeping malformed output
/// distinct from a legitimately empty field.
pub fn decode_utf8_field(bytes: Vec<u8>) -> (r: Result<Option<String>, DecodeError>)
    ensures
        match r {
            Ok(Some(s)) => utf8_field_model(bytes@) == Ok::<Option<Seq<char>>, DecodeError>(
                Some(s@),
            ),
            Ok(None) => utf8_field_model(bytes@) == Ok::<Option<Seq<char>>, DecodeError>(
                None::<Seq<char>>,
            ),
            Err(e) => utf8_field_model(bytes@) == Err::<Option<Seq<char>>, DecodeError>(e),
        },
{
    let t = trim_byte_terminator(bytes);
    if t.len() == 0 {
        return Ok(None);
    }
    match string_from_utf8(t) {
        Some(s) => Ok(Some(s)),
        None => Err(DecodeError::InvalidUtf8),
    }
}

} // verus!
