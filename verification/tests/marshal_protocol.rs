use pdfium_bridge::marshal::DecodeError;
use pdfium_bridge::marshal::decode_utf16_counted_field;
use pdfium_bridge::marshal::decode_utf16_field;
use pdfium_bridge::marshal::decode_utf8_field;
use pdfium_bridge::marshal::fetch_plan;
use pdfium_bridge::marshal::le_bytes_to_units;
use pdfium_bridge::marshal::trim_byte_terminator;
use pdfium_bridge::marshal::trim_unit_terminator;

#[test]
fn size_zero_is_absent_without_second_call() {
    assert_eq!(fetch_plan(0, 0), None);
    assert_eq!(fetch_plan(0, 1), None);
    assert_eq!(fetch_plan(0, 2), None);
}

#[test]
fn positive_size_fetches_with_exactly_that_capacity() {
    assert_eq!(fetch_plan(1, 0), Some(1));
    assert_eq!(fetch_plan(10, 0), Some(10));
    assert_eq!(fetch_plan(2, 1), Some(2));
    assert_eq!(fetch_plan(3, 2), Some(3));
}

#[test]
fn size_at_or_under_terminator_minimum_is_absent() {
    assert_eq!(fetch_plan(1, 1), None);
    assert_eq!(fetch_plan(2, 2), None);
    assert_eq!(fetch_plan(1, 2), None);
}

#[test]
fn le_bytes_pair_into_units() {
    assert_eq!(le_bytes_to_units(&vec![0x41, 0x00, 0x42, 0x00]), vec![0x41, 0x42]);
    assert_eq!(le_bytes_to_units(&vec![0x34, 0x12]), vec![0x1234]);
}

#[test]
fn le_bytes_dangling_odd_byte_is_ignored() {
    assert_eq!(le_bytes_to_units(&vec![0x41, 0x00, 0x7F]), vec![0x41]);
    assert_eq!(le_bytes_to_units(&vec![0x09]), Vec::<u16>::new());
}

#[test]
fn trailing_null_unit_is_trimmed_once() {
    assert_eq!(trim_unit_terminator(vec![0x41, 0x42, 0]), vec![0x41, 0x42]);
    assert_eq!(trim_unit_terminator(vec![0x41, 0, 0]), vec![0x41, 0]);
    assert_eq!(trim_unit_terminator(vec![0x41]), vec![0x41]);
    assert_eq!(trim_unit_terminator(Vec::new()), Vec::<u16>::new());
}

#[test]
fn trailing_null_byte_is_trimmed_once() {
    assert_eq!(trim_byte_terminator(vec![0x61, 0]), vec![0x61]);
    assert_eq!(trim_byte_terminator(vec![0x61]), vec![0x61]);
    assert_eq!(trim_byte_terminator(Vec::new()), Vec::<u8>::new());
}

#[test]
fn utf16_field_decodes_text() {
    // "Hi\0" in UTF-16LE
    let bytes = vec![0x48, 0x00, 0x69, 0x00, 0x00, 0x00];
    assert_eq!(decode_utf16_field(&bytes), Ok(Some(String::from("Hi"))));
}

#[test]
fn utf16_field_empty_after_trim_is_absent() {
    assert_eq!(decode_utf16_field(&vec![0x00, 0x00]), Ok(None));
    assert_eq!(decode_utf16_field(&vec![]), Ok(None));
}

#[test]
fn utf16_field_unpaired_surrogate_is_a_decode_error_not_absence() {
    // A lone high surrogate 0xD800, then the terminator.
    let bytes = vec![0x00, 0xD8, 0x00, 0x00];
    assert_eq!(decode_utf16_field(&bytes), Err(DecodeError::InvalidUtf16));
}

#[test]
fn utf16_field_surrogate_pair_decodes() {
    // U+1D11E (musical G clef) = D834 DD1E, then terminator.
    let bytes = vec![0x34, 0xD8, 0x1E, 0xDD, 0x00, 0x00];
    assert_eq!(decode_utf16_field(&bytes), Ok(Some(String::from("\u{1D11E}"))));
}

#[test]
fn counted_utf16_field_drops_the_terminator_by_byte_count() {
    // "AB" followed by the two terminator bytes.
    let bytes = vec![0x41, 0x00, 0x42, 0x00, 0x00, 0x00];
    assert_eq!(decode_utf16_counted_field(&bytes), Ok(Some(String::from("AB"))));
    // Only the terminator: the field is absent.
    assert_eq!(decode_utf16_counted_field(&vec![0x00, 0x00]), Ok(None));
}

#[test]
fn counted_utf16_field_unpaired_surrogate_is_a_decode_error() {
    // "A", a lone high surrogate, then the two terminator bytes.
    let bytes = vec![0x41, 0x00, 0x00, 0xD8, 0x00, 0x00];
    assert_eq!(decode_utf16_counted_field(&bytes), Err(DecodeError::InvalidUtf16));
}

#[test]
fn utf8_field_trims_terminator_and_decodes() {
    assert_eq!(decode_utf8_field(vec![0x68, 0x69, 0x00]), Ok(Some(String::from("hi"))));
    assert_eq!(decode_utf8_field(vec![0x68, 0x69]), Ok(Some(String::from("hi"))));
}

#[test]
fn utf8_field_malformed_bytes_are_a_decode_error_not_absence() {
    assert_eq!(decode_utf8_field(vec![0xFF, 0xFE, 0x00]), Err(DecodeError::InvalidUtf8));
}

#[test]
fn utf8_field_empty_after_trim_is_absent() {
    assert_eq!(decode_utf8_field(vec![0x00]), Ok(None));
    assert_eq!(decode_utf8_field(Vec::new()), Ok(None));
}
