use openlibrary_api::codec::{DocumentType, EbookAccess, Language};
use openlibrary_api::response::{
    DecodeError, Document, RawDocument, RawSearchResponse, SearchResponse,
};

fn raw_doc(key: &str, doc_type: &str, ebook_access: &str, languages: &[&str]) -> RawDocument {
    RawDocument {
        key: key.to_string(),
        doc_type: doc_type.to_string(),
        seed: vec![],
        title: "A Title".to_string(),
        title_suggest: "A Title".to_string(),
        title_sort: "a title".to_string(),
        edition_count: 2,
        edition_key: vec!["OL1M".to_string(), "OL2M".to_string()],
        publish_date: vec!["1999".to_string()],
        publish_year: vec![1999],
        first_publish_year: 1999,
        number_of_pages_median: 320,
        oclc: vec![],
        lcc: vec![],
        isbn: vec!["9780000000000".to_string()],
        last_modified_i: 0,
        ebook_count_i: 1,
        ebook_access: ebook_access.to_string(),
        has_fulltext: true,
        public_scan_b: false,
        cover_edition_key: "OL1M".to_string(),
        cover_i: 12345,
        first_sentence: vec![],
        publisher: vec!["A House".to_string()],
        language: languages.iter().map(|s| s.to_string()).collect(),
        author_key: vec!["OL1A".to_string()],
        author_name: vec!["An Author".to_string()],
        subject: vec![],
        id_goodreads: vec![],
        id_librarything: vec![],
        publisher_facet: vec![],
        subject_facet: vec![],
        lcc_sort: "".to_string(),
        author_facet: vec![],
        subject_key: vec![],
    }
}

fn raw_response(docs: Vec<RawDocument>) -> RawSearchResponse {
    RawSearchResponse {
        num_found: docs.len(),
        start: 0,
        num_found_exact: true,
        docs,
        q: "title:alpha".to_string(),
        offset: None,
    }
}

#[test]
fn two_documents_decode_with_their_enumerated_fields() {
    let raw = raw_response(vec![
        raw_doc("/works/OL1W", "work", "no_ebook", &["en"]),
        raw_doc("/works/OL2W", "work", "print_disabled", &["es", "ja"]),
    ]);
    let resp: SearchResponse = SearchResponse::decode(raw).unwrap();
    assert_eq!(resp.docs.len(), 2);
    assert_eq!(resp.num_found, 2);
    assert_eq!(resp.start, 0);
    assert!(resp.num_found_exact);
    assert_eq!(resp.q, "title:alpha");
    assert_eq!(resp.offset, None);

    let first = &resp.docs[0];
    assert_eq!(first.key, "/works/OL1W");
    assert_eq!(first.doc_type, DocumentType::Work);
    assert_eq!(first.ebook_access, EbookAccess::NoEbook);
    assert_eq!(first.language, vec![Language::English]);
    assert_eq!(first.title, "A Title");
    assert_eq!(first.edition_count, 2);

    let second = &resp.docs[1];
    assert_eq!(second.key, "/works/OL2W");
    assert_eq!(second.ebook_access, EbookAccess::PrintDisabled);
    assert_eq!(second.language, vec![Language::Spanish, Language::Japanese]);
}

#[test]
fn unrecognized_ebook_access_fails_the_record() {
    let raw = raw_doc("/works/OL1W", "work", "borrowable", &["en"]);
    assert_eq!(Document::decode(raw).unwrap_err(), DecodeError::UnrecognizedEbookAccess);
}

#[test]
fn unrecognized_ebook_access_in_one_record_fails_the_page() {
    let raw = raw_response(vec![
        raw_doc("/works/OL1W", "work", "no_ebook", &["en"]),
        raw_doc("/works/OL2W", "work", "borrowable", &["es"]),
    ]);
    assert_eq!(SearchResponse::decode(raw).unwrap_err(), DecodeError::UnrecognizedEbookAccess);
}

#[test]
fn unrecognized_document_type_fails_the_record() {
    let raw = raw_doc("/works/OL1W", "edition", "no_ebook", &["en"]);
    assert_eq!(Document::decode(raw).unwrap_err(), DecodeError::UnrecognizedDocumentType);
}

#[test]
fn unrecognized_language_fails_the_record() {
    let raw = raw_doc("/works/OL1W", "work", "no_ebook", &["en", "tlh"]);
    assert_eq!(Document::decode(raw).unwrap_err(), DecodeError::UnrecognizedLanguage);
}

#[test]
fn empty_language_sequence_is_fine() {
    let raw = raw_doc("/works/OL1W", "work", "no_ebook", &[]);
    let doc = Document::decode(raw).unwrap();
    assert!(doc.language.is_empty());
}

#[test]
fn empty_page_decodes() {
    let resp = SearchResponse::decode(raw_response(vec![])).unwrap();
    assert!(resp.docs.is_empty());
}
