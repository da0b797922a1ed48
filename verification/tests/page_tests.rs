use openlibrary_api::page::SearchOffset;

#[test]
fn page_mode_lowers_to_computed_offset() {
    let s = SearchOffset::page(3, 20);
    assert_eq!(s.lower(), (40, 20));
}

#[test]
fn offset_mode_lowers_unchanged() {
    let s = SearchOffset::offset(40, 20);
    assert_eq!(s.lower(), (40, 20));
}

#[test]
fn first_page_starts_at_offset_zero() {
    let s = SearchOffset::page(1, 10);
    assert_eq!(s.lower(), (0, 10));
}
