use pdfium_bridge::ops::PageBoxKind;
use pdfium_bridge::ops::SaveCall;
use pdfium_bridge::ops::annotation_from_parts;
use pdfium_bridge::ops::annotation_scan_len;
use pdfium_bridge::ops::box_kind_from_code;
use pdfium_bridge::ops::char_render_mode;
use pdfium_bridge::ops::extract_bounded_text;
use pdfium_bridge::ops::extract_page_text;
use pdfium_bridge::ops::is_c_string_safe;
use pdfium_bridge::ops::pixel_buffer_len;
use pdfium_bridge::ops::save_call_for;
use pdfium_bridge::ops::starts_with_pdf_signature;
use pdfium_bridge::ops::swap_channels;
use pdfium_bridge::ops::text_fetch_plan;
use pdfium_bridge::text16::string_to_units;
use pdfium_bridge::text16::units_to_string;

#[test]
fn non_positive_char_count_needs_no_buffer() {
    assert_eq!(text_fetch_plan(0), None);
    assert_eq!(text_fetch_plan(-1), None);
    assert_eq!(text_fetch_plan(5), Some(6));
}

#[test]
fn page_text_decodes_count_units_and_skips_terminator() {
    let buffer: Vec<u16> = vec![0x48, 0x65, 0x79, 0x00];
    assert_eq!(extract_page_text(buffer, 3), Ok(String::from("Hey")));
}

#[test]
fn bounded_text_trims_one_trailing_null_of_written_units() {
    let buffer: Vec<u16> = vec![0x48, 0x69, 0x00, 0x77, 0x77];
    assert_eq!(extract_bounded_text(buffer, 3), Ok(String::from("Hi")));
    let buffer2: Vec<u16> = vec![0x48, 0x69];
    assert_eq!(extract_bounded_text(buffer2, 2), Ok(String::from("Hi")));
    let buffer3: Vec<u16> = vec![0x48];
    assert_eq!(extract_bounded_text(buffer3, 0), Ok(String::new()));
}

#[test]
fn box_codes_zero_through_four_are_valid() {
    assert_eq!(box_kind_from_code(0), Some(PageBoxKind::Media));
    assert_eq!(box_kind_from_code(1), Some(PageBoxKind::Crop));
    assert_eq!(box_kind_from_code(2), Some(PageBoxKind::Bleed));
    assert_eq!(box_kind_from_code(3), Some(PageBoxKind::Trim));
    assert_eq!(box_kind_from_code(4), Some(PageBoxKind::Art));
    assert_eq!(box_kind_from_code(5), None);
    assert_eq!(box_kind_from_code(99), None);
    assert_eq!(box_kind_from_code(-1), None);
}

#[test]
fn pixel_buffer_is_four_bytes_per_pixel() {
    assert_eq!(pixel_buffer_len(10, 7), 280);
    assert_eq!(pixel_buffer_len(1, 1), 4);
}

#[test]
fn channel_swap_exchanges_first_and_third_byte_of_each_pixel() {
    let mut buf = vec![1u8, 2, 3, 4, 10, 20, 30, 40];
    swap_channels(&mut buf);
    assert_eq!(buf, vec![3, 2, 1, 4, 30, 20, 10, 40]);
}

#[test]
fn channel_swap_of_empty_buffer_is_empty() {
    let mut buf: Vec<u8> = Vec::new();
    swap_channels(&mut buf);
    assert!(buf.is_empty());
}

#[test]
fn save_call_uses_versioned_entry_point_exactly_when_asked() {
    assert_eq!(save_call_for(None), SaveCall::Plain);
    assert_eq!(save_call_for(Some(17)), SaveCall::WithVersion(17));
}

#[test]
fn absent_render_mode_capability_falls_back_to_fill() {
    assert_eq!(char_render_mode(false, 3), 0);
    assert_eq!(char_render_mode(true, 3), 3);
}

#[test]
fn annotation_without_rect_reads_all_zero_geometry() {
    let a = annotation_from_parts(2, 1, false, 7, 8, 9, 10, true, 255, 0, 0, 255);
    assert_eq!((a.left, a.top, a.right, a.bottom), (0, 0, 0, 0));
    assert_eq!((a.index, a.subtype), (2, 1));
    assert!(a.has_colour);
    assert_eq!((a.r, a.g, a.b, a.a), (255, 0, 0, 255));
}

#[test]
fn annotation_with_rect_keeps_geometry_bits() {
    let bits = 1065353216u32; // 1.0f32
    let a = annotation_from_parts(0, 4, true, bits, bits, bits, bits, false, 0, 0, 0, 0);
    assert_eq!(a.left, bits);
    assert!(!a.has_colour);
}

#[test]
fn annotation_scan_is_empty_for_non_positive_count() {
    assert_eq!(annotation_scan_len(-3), 0);
    assert_eq!(annotation_scan_len(0), 0);
    assert_eq!(annotation_scan_len(6), 6);
}

#[test]
fn pdf_signature_check_reads_the_first_four_bytes() {
    assert!(starts_with_pdf_signature(&b"%PDF-1.7\n".to_vec()));
    assert!(starts_with_pdf_signature(&b"%PDF".to_vec()));
    assert!(!starts_with_pdf_signature(&b"%PD".to_vec()));
    assert!(!starts_with_pdf_signature(&b"PDF-1.7".to_vec()));
    assert!(!starts_with_pdf_signature(&Vec::new()));
}

#[test]
fn interior_nul_makes_a_string_unsafe_for_c() {
    assert!(is_c_string_safe("Title"));
    assert!(is_c_string_safe(""));
    assert!(!is_c_string_safe("a\0b"));
}

#[test]
fn utf16_query_encoding_appends_surrogate_pairs() {
    assert_eq!(string_to_units("AB"), vec![0x41, 0x42]);
    assert_eq!(string_to_units("\u{1D11E}"), vec![0xD834, 0xDD1E]);
    assert_eq!(string_to_units(""), Vec::<u16>::new());
}

#[test]
fn utf16_units_decode_back_to_the_source_string() {
    let s = "page \u{00E9} \u{1D11E} end";
    let units = string_to_units(s);
    assert_eq!(units_to_string(&units), Some(String::from(s)));
}
