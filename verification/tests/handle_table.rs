use pdfium_bridge::handle::Entry;
use pdfium_bridge::handle::HandleError;
use pdfium_bridge::handle::HandleTable;
use pdfium_bridge::handle::ResourceKind;

#[test]
fn allocate_starts_at_one_and_is_monotonic() {
    let mut t = HandleTable::new();
    let h1 = t.allocate(Entry::Document { native_ref: 11, data: vec![1, 2, 3] });
    let h2 = t.allocate(Entry::Page { native_ref: 22 });
    let h3 = t.allocate(Entry::TextPage { native_ref: 33 });
    assert_eq!(h1, 1);
    assert_eq!(h2, 2);
    assert_eq!(h3, 3);
}

#[test]
fn resolve_reports_the_native_ref() {
    let mut t = HandleTable::new();
    let h = t.allocate(Entry::Page { native_ref: 77 });
    assert_eq!(t.resolve(h, ResourceKind::Page), Ok(77));
}

#[test]
fn resolve_zero_is_not_found() {
    let t = HandleTable::new();
    assert_eq!(t.resolve(0, ResourceKind::Document), Err(HandleError::NotFound));
}

#[test]
fn resolve_unissued_is_not_found() {
    let mut t = HandleTable::new();
    let _ = t.allocate(Entry::Page { native_ref: 1 });
    assert_eq!(t.resolve(999, ResourceKind::Page), Err(HandleError::NotFound));
}

#[test]
fn resolve_wrong_kind_is_distinguished() {
    let mut t = HandleTable::new();
    let h = t.allocate(Entry::Page { native_ref: 5 });
    assert_eq!(t.resolve(h, ResourceKind::Document), Err(HandleError::WrongKind));
    assert_eq!(t.resolve(h, ResourceKind::TextPage), Err(HandleError::WrongKind));
    assert_eq!(t.resolve(h, ResourceKind::Page), Ok(5));
}

#[test]
fn resolve_succeeds_until_remove_then_not_found() {
    let mut t = HandleTable::new();
    let h = t.allocate(Entry::Document { native_ref: 42, data: vec![9, 8] });
    assert_eq!(t.resolve(h, ResourceKind::Document), Ok(42));
    assert_eq!(t.resolve(h, ResourceKind::Document), Ok(42));

    let removed = t.remove(h, ResourceKind::Document);
    match removed {
        Ok(Entry::Document { native_ref, data }) => {
            assert_eq!(native_ref, 42);
            assert_eq!(data, vec![9, 8]);
        }
        _ => panic!("expected the document entry back"),
    }

    assert_eq!(t.resolve(h, ResourceKind::Document), Err(HandleError::NotFound));
    assert_eq!(t.resolve(h, ResourceKind::Page), Err(HandleError::NotFound));
    assert_eq!(t.remove(h, ResourceKind::Document), Err(HandleError::NotFound));
}

#[test]
fn remove_wrong_kind_leaves_entry_live() {
    let mut t = HandleTable::new();
    let h = t.allocate(Entry::TextPage { native_ref: 3 });
    assert_eq!(t.remove(h, ResourceKind::Page), Err(HandleError::WrongKind));
    assert_eq!(t.resolve(h, ResourceKind::TextPage), Ok(3));
}

#[test]
fn handles_are_never_reused_across_interleaved_closes() {
    let mut t = HandleTable::new();
    let h1 = t.allocate(Entry::Page { native_ref: 1 });
    let h2 = t.allocate(Entry::Page { native_ref: 2 });
    t.remove(h1, ResourceKind::Page).unwrap();
    let h3 = t.allocate(Entry::Page { native_ref: 3 });
    t.remove(h2, ResourceKind::Page).unwrap();
    let h4 = t.allocate(Entry::Page { native_ref: 4 });
    let mut handles = vec![h1, h2, h3, h4];
    handles.sort();
    handles.dedup();
    assert_eq!(handles.len(), 4, "allocating N resources yields N distinct handles");
    assert_eq!(h3, 3);
    assert_eq!(h4, 4);
}
