//! Caller-facing error messages, assembled in verified code: decimal
//! rendering of native error codes and indices, and the fixed texts the
//! bridge reports for load, handle and validation failures.

use crate::handle::HandleError;
use crate::handle::ResourceKind;
use crate::text16::push_char;
use vstd::prelude::*;
use vstd::string::*;

verus! {

/// The decimal digit character for a value 0 through 9.
pub open spec fn dec_digit(d: int) -> char {
    if d == 0 {
        '0'
    } else if d == 1 {
        '1'
    } else if d == 2 {
        '2'
    } else if d == 3 {
        '3'
    } else if d == 4 {
        '4'
    } else if d == 5 {
        '5'
    } else if d == 6 {
        '6'
    } else if d == 7 {
        '7'
    } else if d == 8 {
        '8'
    } else {
        '9'
    }
}

/// The decimal rendering of a non-negative number, most significant digit
/// first, no leading zeros (a single zero for 0).
pub open spec fn dec_chars(n: nat) -> Seq<char>
    decreases n,
{
    if n < 10 {
        seq![dec_digit(n as int)]
    } else {
        dec_chars(n / 10).push(dec_digit((n % 10) as int))
    }
}

/// The decimal rendering of a signed number: a minus sign before the
/// magnitude when negative.
pub open spec fn dec_chars_signed(n: int) -> Seq<char> {
    if n < 0 {
        seq!['-'] + dec_chars((-n) as nat)
    } else {
        dec_chars(n as nat)
    }
}

fn digit_char(d: u8) -> (c: char)
    requires
        d < 10,
    ensures
        c == dec_digit(d as int),
{
    if d == 0 {
        '0'
    } else if d == 1 {
        '1'
    } else if d == 2 {
        '2'
    } else if d == 3 {
        '3'
    } else if d == 4 {
        '4'
    } else if d == 5 {
        '5'
    } else if d == 6 {
        '6'
    } else if d == 7 {
        '7'
    } else if d == 8 {
        '8'
    } else {
        '9'
    }
}

/// Render a number in decimal.
pub fn u64_to_string(n: u64) -> (s: String)
    ensures
        s@ == dec_chars(n as nat),
    decreases n,
{
    if n < 10 {
        let mut s = String::new();
        push_char(&mut s, digit_char(n as u8));
        assert(s@ =~= seq![dec_digit(n as int)]);
        s
    } else {
        let mut s = u64_to_string(n / 10);
        push_char(&mut s, digit_char((n % 10) as u8));
        s
    }
}

/// Render a signed number in decimal.
pub fn i32_to_string(n: i32) -> (s: String)
    ensures
        s@ == dec_chars_signed(n as int),
{
    if n < 0 {
        let mut s = String::new();
        push_char(&mut s, '-');
        let mag: u64 = (-(n as i64)) as u64;
        assert(mag == -(n as int));
        let digits = u64_to_string(mag);
        s.append(digits.as_str());
        assert(s@ =~= Seq::<char>::empty().push('-') + dec_chars(mag as nat));
        assert(s@ =~= seq!['-'] + dec_chars((-(n as int)) as nat));
        s
    } else {
        u64_to_string(n as u64)
    }
}

/// The message for a document that failed to load, naming the native error
/// code.
pub fn load_error_message(code: u64) -> (s: String)
    ensures
        s@ == "Failed to load document, error code: "@ + dec_chars(code as nat),
{
    let mut s = String::from_str("Failed to load document, error code: ");
    let digits = u64_to_string(code);
    s.append(digits.as_str());
    s
}

/// The message for a mandatory entry point missing from the native library,
/// naming the symbol and the loader's detail text.
pub fn missing_symbol_message(name: &str, detail: &str) -> (s: String)
    ensures
        s@ == "Failed to load symbol "@ + name@ + ": "@ + detail@,
{
    let mut s = String::from_str("Failed to load symbol ");
    s.append(name);
    s.append(": ");
    s.append(detail);
    assert(s@ =~= "Failed to load symbol "@ + name@ + ": "@ + detail@);
    s
}

/// The message for a native library that could not be opened.
pub fn library_load_message(detail: &str) -> (s: String)
    ensures
        s@ == "Failed to load library: "@ + detail@,
{
    let mut s = String::from_str("Failed to load library: ");
    s.append(detail);
    s
}

/// The message for a page that failed to load, naming the requested index.
pub fn page_load_error_message(index: i32) -> (s: String)
    ensures
        s@ == "Failed to load page "@ + dec_chars_signed(index as int),
{
    let mut s = String::from_str("Failed to load page ");
    let digits = i32_to_string(index);
    s.append(digits.as_str());
    s
}

/// The message for a caller-supplied page-box discriminant outside the
/// defined range.
pub fn box_type_error_message(code: i32) -> (s: String)
    ensures
        s@ == "Invalid box type: "@ + dec_chars_signed(code as int),
{
    let mut s = String::from_str("Invalid box type: ");
    let digits = i32_to_string(code);
    s.append(digits.as_str());
    s
}

/// The message a failed lookup reports when an operation expects a handle
/// of a particular kind.
pub fn resolve_error_message(expected: ResourceKind) -> (s: String)
    ensures
        expected == ResourceKind::Document ==> s@ == "Invalid document handle"@,
        expected == ResourceKind::Page ==> s@ == "Invalid page handle"@,
        expected == ResourceKind::TextPage ==> s@ == "Invalid text page handle"@,
{
    match expected {
        ResourceKind::Document => String::from_str("Invalid document handle"),
        ResourceKind::Page => String::from_str("Invalid page handle"),
        ResourceKind::TextPage => String::from_str("Invalid text page handle"),
    }
}

/// The message a failed close reports: a never-issued or already-removed
/// handle is "Invalid handle"; a live handle of another kind names the
/// expected kind.
pub fn close_error_message(err: HandleError, expected: ResourceKind) -> (s: String)
    ensures
        err == HandleError::NotFound ==> s@ == "Invalid handle"@,
        err == HandleError::WrongKind && expected == ResourceKind::Document ==> s@
            == "Handle is not a document"@,
        err == HandleError::WrongKind && expected == ResourceKind::Page ==> s@
            == "Handle is not a page"@,
        err == HandleError::WrongKind && expected == ResourceKind::TextPage ==> s@
            == "Handle is not a text page"@,
{
    match err {
        HandleError::NotFound => String::from_str("Invalid handle"),
        HandleError::WrongKind => match expected {
            ResourceKind::Document => String::from_str("Handle is not a document"),
            ResourceKind::Page => String::from_str("Handle is not a page"),
            ResourceKind::TextPage => String::from_str("Handle is not a text page"),
        },
    }
}

} // verus!
