//! Per-operation computation and validation around the native calls: text
//! extraction sizing and decoding, page-box discriminants, pixel-buffer
//! sizing and channel-order fixing, save entry-point selection, the
//! optional-capability fallback, and annotation snapshot assembly.
//!
//! Geometry values the native library reports as single-precision floats are
//! carried through as their IEEE-754 bit patterns (`u32`); this layer never
//! interprets them.

use crate::marshal::DecodeError;
use crate::marshal::trimmed_units;
use crate::text16;
use vstd::prelude::*;
use vstd::string::StringSliceAdditionalSpecFns;

verus! {

/// How many UTF-16 units to allocate for a full-text fetch: the character
/// count plus one terminator slot, or nothing when the reported count is
/// not positive (the text is then empty, with no native call).
pub fn text_fetch_plan(char_count: i32) -> (r: Option<usize>)
    ensures
        r is Some <==> char_count > 0,
        char_count > 0 ==> r == Some((char_count + 1) as usize),
{
    if char_count > 0 {
        Some(char_count as usize + 1)
    } else {
        None
    }
}

/// Decode extracted page text: exactly the first `count` units of the
/// filled buffer; the terminator slot is never decoded.
pub fn extract_page_text(buffer: Vec<u16>, count: usize) -> (r: Result<String, DecodeError>)
    requires
        count <= buffer@.len(),
    ensures
        match r {
            Ok(s) => text16::utf16_chars(buffer@.take(count as int)) == Some(s@),
            Err(e) => text16::utf16_chars(buffer@.take(count as int)) is None && e
                == DecodeError::InvalidUtf16,
        },
{
    let mut buffer = buffer;
    let ghost orig = buffer@;
    buffer.truncate(count);
    assert(buffer@ =~= orig.take(count as int));
    match text16::units_to_string(&buffer) {
        Some(s) => Ok(s),
        None => Err(DecodeError::InvalidUtf16),
    }
}

/// What a bounded-text fetch decodes to: the units actually written, less a
/// single trailing null unit if present.
pub open spec fn bounded_text_model(units: Seq<u16>, written: int) -> Option<Seq<char>> {
    text16::utf16_chars(trimmed_units(units.take(written)))
}

/// Decode the result of a bounded-text fetch, where the second call reports
/// how many units it wrote.
pub fn extract_bounded_text(buffer: Vec<u16>, written: usize) -> (r: Result<String, DecodeError>)
    requires
        written <= buffer@.len(),
    ensures
        match r {
            Ok(s) => bounded_text_model(buffer@, written as int) == Some(s@),
            Err(e) => bounded_text_model(buffer@, written as int) is None && e
                == DecodeError::InvalidUtf16,
        },
{
    let mut buffer = buffer;
    let ghost orig = buffer@;
    buffer.truncate(written);
    assert(buffer@ =~= orig.take(written as int));
    let buffer = crate::marshal::trim_unit_terminator(buffer);
    match text16::units_to_string(&buffer) {
        Some(s) => Ok(s),
        None => Err(DecodeError::InvalidUtf16),
    }
}

/// The five page-box kinds, selected by the caller-facing integer
/// discriminant.
#[derive(Clone, Copy, Debug, PartialEq, Eq, Structural)]
pub enum PageBoxKind {
    Media,
    Crop,
    Bleed,
    Trim,
    Art,
}

/// The discriminant each box kind answers to.
pub open spec fn box_code_model(code: i32) -> Option<PageBoxKind> {
    if code == 0 {
        Some(PageBoxKind::Media)
    } else if code == 1 {
        Some(PageBoxKind::Crop)
    } else if code == 2 {
        Some(PageBoxKind::Bleed)
    } else if code == 3 {
        Some(PageBoxKind::Trim)
    } else if code == 4 {
        Some(PageBoxKind::Art)
    } else {
        None
    }
}

/// Validate a page-box discriminant before any native call: only 0 through
/// 4 name a box kind.
pub fn box_kind_from_code(code: i32) -> (r: Option<PageBoxKind>)
    ensures
        r == box_code_model(code),
        r is Some <==> 0 <= code <= 4,
{
    match code {
        0 => Some(PageBoxKind::Media),
        1 => Some(PageBoxKind::Crop),
        2 => Some(PageBoxKind::Bleed),
        3 => Some(PageBoxKind::Trim),
        4 => Some(PageBoxKind::Art),
        _ => None,
    }
}

/// The pixel buffer for rendering: 4 bytes per pixel, `width * 4` bytes per
/// row. The bounds mirror the native interface's 32-bit stride arithmetic.
pub fn pixel_buffer_len(width: i32, height: i32) -> (r: usize)
    requires
        0 < width,
        0 < height,
        width * 4 * height <= i32::MAX,
    ensures
        r == width * 4 * height,
{
    proof {
        assert(width * 4 <= width * 4 * height) by (nonlinear_arith)
            requires
                0 < width,
                0 < height,
        ;
    }
    (width * 4 * height) as usize
}

/// The caller-facing pixel layout: the first and third byte of every 4-byte
/// pixel exchanged, other bytes unchanged.
pub open spec fn channel_swapped(s: Seq<u8>) -> Seq<u8> {
    Seq::new(
        s.len(),
        |i: int|
            if i % 4 == 0 {
                s[i + 2]
            } else if i % 4 == 2 {
                s[i - 2]
            } else {
                s[i]
            },
    )
}

/// Fix the byte order of a rendered pixel buffer in place, exchanging the
/// first and third byte of every 4-byte pixel.
pub fn swap_channels(buf: &mut Vec<u8>)
    requires
        old(buf)@.len() % 4 == 0,
    ensures
        final(buf)@ == channel_swapped(old(buf)@),
{
    let len = buf.len();
    let mut i: usize = 0;
    while i < len
        invariant
            i <= len,
            i % 4 == 0,
            len % 4 == 0,
            len == buf@.len(),
            len == old(buf)@.len(),
            forall|j: int| 0 <= j < i ==> buf@[j] == channel_swapped(old(buf)@)[j],
            forall|j: int| i <= j < len ==> buf@[j] == old(buf)@[j],
        decreases len - i,
    {
        let a = buf[i];
        let b = buf[i + 2];
        buf[i] = b;
        buf[i + 2] = a;
        assert forall|j: int| 0 <= j < i + 4 implies buf@[j] == channel_swapped(old(buf)@)[j] by {
            if i <= j < i + 4 {
                assert(j % 4 == j - i);
            }
        }
        i = i + 4;
    }
    assert(buf@ =~= channel_swapped(old(buf)@));
}

/// Which native save entry point a request uses: the version-targeted one
/// exactly when a target format version was asked for.
#[derive(Clone, Copy, Debug, PartialEq, Eq, Structural)]
pub enum SaveCall {
    Plain,
    WithVersion(i32),
}

/// Select the save entry point from the optional target version.
pub fn save_call_for(version: Option<i32>) -> (r: SaveCall)
    ensures
        match version {
            Some(v) => r == SaveCall::WithVersion(v),
            None => r == SaveCall::Plain,
        },
{
    match version {
        Some(v) => SaveCall::WithVersion(v),
        None => SaveCall::Plain,
    }
}

/// The character render mode, falling back to the documented default (fill
/// mode, 0) when the version-dependent native capability is absent.
pub fn char_render_mode(capability_present: bool, native_value: i32) -> (r: i32)
    ensures
        r == (if capability_present {
            native_value
        } else {
            0i32
        }),
{
    if capability_present {
        native_value
    } else {
        0
    }
}

/// A read-only annotation snapshot. Geometry fields hold IEEE-754
/// single-precision bit patterns.
pub struct AnnotationInfo {
    pub index: i32,
    pub subtype: i32,
    pub left: u32,
    pub top: u32,
    pub right: u32,
    pub bottom: u32,
    pub has_colour: bool,
    pub r: u32,
    pub g: u32,
    pub b: u32,
    pub a: u32,
}

/// How many annotation slots a scan visits: none when the reported count is
/// not positive.
pub fn annotation_scan_len(count: i32) -> (r: usize)
    ensures
        count <= 0 ==> r == 0,
        count > 0 ==> r == count,
{
    if count <= 0 {
        0
    } else {
        count as usize
    }
}

/// Assemble an annotation snapshot from what the native reads reported: a
/// missing rectangle reads as all zero, and colour channels are kept only
/// together with their presence flag.
pub fn annotation_from_parts(
    index: i32,
    subtype: i32,
    has_rect: bool,
    left: u32,
    top: u32,
    right: u32,
    bottom: u32,
    has_colour: bool,
    r: u32,
    g: u32,
    b: u32,
    a: u32,
) -> (info: AnnotationInfo)
    ensures
        info.index == index,
        info.subtype == subtype,
        info.left == if has_rect {
            left
        } else {
            0u32
        },
        info.top == if has_rect {
            top
        } else {
            0u32
        },
        info.right == if has_rect {
            right
        } else {
            0u32
        },
        info.bottom == if has_rect {
            bottom
        } else {
            0u32
        },
        info.has_colour == has_colour,
        info.r == r,
        info.g == g,
        info.b == b,
        info.a == a,
{
    if has_rect {
        AnnotationInfo { index, subtype, left, top, right, bottom, has_colour, r, g, b, a }
    } else {
        AnnotationInfo {
            index,
            subtype,
            left: 0,
            top: 0,
            right: 0,
            bottom: 0,
            has_colour,
            r,
            g,
            b,
            a,
        }
    }
}

/// The document format's standard signature bytes at the start of a saved
/// byte sequence.
pub open spec fn has_pdf_signature(bytes: Seq<u8>) -> bool {
    bytes.len() >= 4 && bytes[0] == 0x25 && bytes[1] == 0x50 && bytes[2] == 0x44 && bytes[3] == 0x46
}

/// Whether a byte sequence begins with the document format's signature
/// ("%PDF").
pub fn starts_with_pdf_signature(bytes: &Vec<u8>) -> (r: bool)
    ensures
        r == has_pdf_signature(bytes@),
{
    bytes.len() >= 4 && bytes[0] == 0x25 && bytes[1] == 0x50 && bytes[2] == 0x44 && bytes[3] == 0x46
}

/// Whether a string can travel as a C string: no interior null byte.
pub fn is_c_string_safe(s: &str) -> (r: bool)
    ensures
        r <==> forall|i: int| 0 <= i < s.spec_bytes().len() ==> s.spec_bytes()[i] != 0,
{
    let bytes = s.as_bytes();
    let n = bytes.len();
    let mut i: usize = 0;
    while i < n
        invariant
            i <= n,
            n == s.spec_bytes().len(),
            bytes@ == s.spec_bytes(),
            forall|j: int| 0 <= j < i ==> s.spec_bytes()[j] != 0,
        decreases n - i,
    {
        if bytes[i] == 0 {
            return false;
        }
        i = i + 1;
    }
    true
}

} // verus!
