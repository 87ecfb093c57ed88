use pdfium_bridge::errors::box_type_error_message;
use pdfium_bridge::errors::close_error_message;
use pdfium_bridge::errors::i32_to_string;
use pdfium_bridge::errors::library_load_message;
use pdfium_bridge::errors::load_error_message;
use pdfium_bridge::errors::missing_symbol_message;
use pdfium_bridge::errors::page_load_error_message;
use pdfium_bridge::errors::resolve_error_message;
use pdfium_bridge::errors::u64_to_string;
use pdfium_bridge::handle::HandleError;
use pdfium_bridge::handle::ResourceKind;
use pdfium_bridge::ops::starts_with_pdf_signature;
use pdfium_bridge::sink::SaveSink;

#[test]
fn decimal_rendering_is_exact() {
    assert_eq!(u64_to_string(0), "0");
    assert_eq!(u64_to_string(7), "7");
    assert_eq!(u64_to_string(12345), "12345");
    assert_eq!(u64_to_string(1000), "1000");
}

#[test]
fn signed_decimal_rendering_is_exact() {
    assert_eq!(i32_to_string(-17), "-17");
    assert_eq!(i32_to_string(0), "0");
    assert_eq!(i32_to_string(42), "42");
}

#[test]
fn load_error_mentions_the_native_error_code() {
    assert_eq!(load_error_message(3), "Failed to load document, error code: 3");
    assert_eq!(load_error_message(140), "Failed to load document, error code: 140");
}

#[test]
fn missing_symbol_error_names_the_symbol() {
    assert_eq!(
        missing_symbol_message("FPDF_GetPageCount", "not found"),
        "Failed to load symbol FPDF_GetPageCount: not found"
    );
}

#[test]
fn library_and_page_load_messages() {
    assert_eq!(library_load_message("no such file"), "Failed to load library: no such file");
    assert_eq!(page_load_error_message(4), "Failed to load page 4");
    assert_eq!(page_load_error_message(-2), "Failed to load page -2");
}

#[test]
fn box_type_validation_message_names_the_code() {
    assert_eq!(box_type_error_message(99), "Invalid box type: 99");
}

#[test]
fn handle_error_messages_match_the_operation_context() {
    assert_eq!(resolve_error_message(ResourceKind::Document), "Invalid document handle");
    assert_eq!(resolve_error_message(ResourceKind::Page), "Invalid page handle");
    assert_eq!(resolve_error_message(ResourceKind::TextPage), "Invalid text page handle");
    assert_eq!(close_error_message(HandleError::NotFound, ResourceKind::Document), "Invalid handle");
    assert_eq!(
        close_error_message(HandleError::WrongKind, ResourceKind::Document),
        "Handle is not a document"
    );
    assert_eq!(
        close_error_message(HandleError::WrongKind, ResourceKind::Page),
        "Handle is not a page"
    );
    assert_eq!(
        close_error_message(HandleError::WrongKind, ResourceKind::TextPage),
        "Handle is not a text page"
    );
}

#[test]
fn sink_appends_chunks_in_call_order_with_no_gaps() {
    let mut sink = SaveSink::new();
    assert_eq!(sink.len(), 0);
    sink.accept(b"%PDF");
    sink.accept(b"");
    sink.accept(b"-1.7\nbody");
    assert_eq!(sink.len(), 13);
    let bytes = sink.into_bytes();
    assert_eq!(bytes, b"%PDF-1.7\nbody".to_vec());
}

#[test]
fn sink_never_called_yields_an_empty_sequence() {
    let sink = SaveSink::new();
    assert!(sink.into_bytes().is_empty());
}

#[test]
fn captured_save_output_carries_the_format_signature() {
    let mut sink = SaveSink::new();
    sink.accept(b"%PD");
    sink.accept(b"F-1.4\n%\xE2\xE3\xCF\xD3\n");
    let bytes = sink.into_bytes();
    assert!(!bytes.is_empty());
    assert!(starts_with_pdf_signature(&bytes));
}
