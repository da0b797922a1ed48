use openlibrary_api::codec::{DocumentType, EbookAccess, InvalidValue, Language, SortOptions};

const ALL_SORTS: [SortOptions; 29] = [
    SortOptions::Editions,
    SortOptions::Old,
    SortOptions::New,
    SortOptions::Rating,
    SortOptions::RatingAscending,
    SortOptions::RatingDescending,
    SortOptions::ReadingLog,
    SortOptions::WantToRead,
    SortOptions::CurrentlyReading,
    SortOptions::AlreadyRead,
    SortOptions::Title,
    SortOptions::Scans,
    SortOptions::LccSort,
    SortOptions::LccSortAscending,
    SortOptions::LccSortDescending,
    SortOptions::DdcSort,
    SortOptions::DdcSortAscending,
    SortOptions::DdcSortDescending,
    SortOptions::EbookAccess,
    SortOptions::EbookAccessAscending,
    SortOptions::EbookAccessDescending,
    SortOptions::Key,
    SortOptions::KeyAscending,
    SortOptions::KeyDescending,
    SortOptions::Random,
    SortOptions::RandomAscending,
    SortOptions::RandomDescending,
    SortOptions::RandomHourly,
    SortOptions::RandomDaily,
];

const ALL_LANGUAGES: [Language; 3] = [Language::English, Language::Spanish, Language::Japanese];

const ALL_ACCESS: [EbookAccess; 2] = [EbookAccess::NoEbook, EbookAccess::PrintDisabled];

#[test]
fn sort_round_trip_every_variant() {
    for v in ALL_SORTS {
        assert_eq!(SortOptions::decode(v.encode()), Ok(v));
    }
}

#[test]
fn language_round_trip_every_variant() {
    for v in ALL_LANGUAGES {
        assert_eq!(Language::decode(v.encode()), Ok(v));
    }
}

#[test]
fn ebook_access_round_trip_every_variant() {
    for v in ALL_ACCESS {
        assert_eq!(EbookAccess::decode(v.encode()), Ok(v));
    }
}

#[test]
fn document_type_round_trip() {
    assert_eq!(DocumentType::Work.encode(), "work");
    assert_eq!(DocumentType::decode("work"), Ok(DocumentType::Work));
}

#[test]
fn canonical_wire_strings() {
    assert_eq!(SortOptions::Editions.encode(), "editions");
    assert_eq!(SortOptions::RatingAscending.encode(), "rating asc");
    assert_eq!(SortOptions::WantToRead.encode(), "want_to_read");
    assert_eq!(SortOptions::RandomHourly.encode(), "random.hourly");
    assert_eq!(Language::English.encode(), "en");
    assert_eq!(Language::Japanese.encode(), "ja");
    assert_eq!(EbookAccess::NoEbook.encode(), "no_ebook");
    assert_eq!(EbookAccess::PrintDisabled.encode(), "print_disabled");
}

#[test]
fn decode_rejects_unknown_strings() {
    assert_eq!(SortOptions::decode("bogus"), Err(InvalidValue));
    assert_eq!(SortOptions::decode(""), Err(InvalidValue));
    assert_eq!(Language::decode("fr"), Err(InvalidValue));
    assert_eq!(EbookAccess::decode("borrowable"), Err(InvalidValue));
    assert_eq!(DocumentType::decode("edition"), Err(InvalidValue));
}

#[test]
fn decode_is_exact_and_case_sensitive() {
    assert_eq!(Language::decode("EN"), Err(InvalidValue));
    assert_eq!(Language::decode("en "), Err(InvalidValue));
    assert_eq!(Language::decode(" en"), Err(InvalidValue));
    assert_eq!(SortOptions::decode("rating  asc"), Err(InvalidValue));
    assert_eq!(SortOptions::decode("Editions"), Err(InvalidValue));
}

#[test]
fn invalid_value_message() {
    assert_eq!(InvalidValue.message(), "Invalid Value");
}
