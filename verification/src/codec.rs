//! Symbol codecs: each closed enumeration that travels on the wire maps
//! one-to-one to a canonical string.  Every enumeration gets the same
//! shape of codec — a total, infallible `encode` and a partial `decode`
//! that fails with the uniform [`InvalidValue`] error on any string
//! outside the declared set (matching is exact and case-sensitive) — and
//! a proved round-trip law `from_wire(wire(v)) == Some(v)`.

use vstd::prelude::*;
use crate::text::str_eq;

verus! {

broadcast use vstd::string::group_string_axioms;

/// The uniform decode failure: the input string matched no declared
/// symbol.  It carries no further detail, so every enumeration shares the
/// same failure contract.
#[derive(Debug, Clone, Copy, PartialEq, Eq, Structural)]
pub struct InvalidValue;

impl InvalidValue {
    /// A short description of the failure.
    pub fn message(&self) -> (r: &'static str)
        ensures
            r@ == "Invalid Value"@,
    {
        "Invalid Value"
    }
}

/// The orderings a search may request.
#[derive(Debug, Clone, Copy, PartialEq, Eq, Structural)]
pub enum SortOptions {
    Editions,
    Old,
    New,
    Rating,
    RatingAscending,
    RatingDescending,
    ReadingLog,
    WantToRead,
    CurrentlyReading,
    AlreadyRead,
    Title,
    Scans,
    LccSort,
    LccSortAscending,
    LccSortDescending,
    DdcSort,
    DdcSortAscending,
    DdcSortDescending,
    EbookAccess,
    EbookAccessAscending,
    EbookAccessDescending,
    Key,
    KeyAscending,
    KeyDescending,
    Random,
    RandomAscending,
    RandomDescending,
    RandomHourly,
    RandomDaily,
}

impl SortOptions {
    /// The canonical wire string of each variant.
    pub open spec fn wire(self) -> Seq<char> {
        match self {
            SortOptions::Editions => "editions"@,
            SortOptions::Old => "old"@,
            SortOptions::New => "new"@,
            SortOptions::Rating => "rating"@,
            SortOptions::RatingAscending => "rating asc"@,
            SortOptions::RatingDescending => "rating desc"@,
            SortOptions::ReadingLog => "readinglog"@,
            SortOptions::WantToRead => "want_to_read"@,
            SortOptions::CurrentlyReading => "currently_reading"@,
            SortOptions::AlreadyRead => "already_read"@,
            SortOptions::Title => "title"@,
            SortOptions::Scans => "scans"@,
            SortOptions::LccSort => "lcc_sort"@,
            SortOptions::LccSortAscending => "lcc_sort asc"@,
            SortOptions::LccSortDescending => "lcc_sort desc"@,
            SortOptions::DdcSort => "ddc_sort"@,
            SortOptions::DdcSortAscending => "ddc_sort asc"@,
            SortOptions::DdcSortDescending => "ddc_sort desc"@,
            SortOptions::EbookAccess => "ebook_access"@,
            SortOptions::EbookAccessAscending => "ebook_access asc"@,
            SortOptions::EbookAccessDescending => "ebook_access desc"@,
            SortOptions::Key => "key"@,
            SortOptions::KeyAscending => "key asc"@,
            SortOptions::KeyDescending => "key desc"@,
            SortOptions::Random => "random"@,
            SortOptions::RandomAscending => "random asc"@,
            SortOptions::RandomDescending => "random desc"@,
            SortOptions::RandomHourly => "random.hourly"@,
            SortOptions::RandomDaily => "random.daily"@,
        }
    }

    /// The partial inverse of `wire`: the variant whose canonical string
    /// the input is, or nothing.
    pub open spec fn from_wire(s: Seq<char>) -> Option<SortOptions> {
        if s == "editions"@ {
            Some(SortOptions::Editions)
        } else if s == "old"@ {
            Some(SortOptions::Old)
        } else if s == "new"@ {
            Some(SortOptions::New)
        } else if s == "rating"@ {
            Some(SortOptions::Rating)
        } else if s == "rating asc"@ {
            Some(SortOptions::RatingAscending)
        } else if s == "rating desc"@ {
            Some(SortOptions::RatingDescending)
        } else if s == "readinglog"@ {
            Some(SortOptions::ReadingLog)
        } else if s == "want_to_read"@ {
            Some(SortOptions::WantToRead)
        } else if s == "currently_reading"@ {
            Some(SortOptions::CurrentlyReading)
        } else if s == "already_read"@ {
            Some(SortOptions::AlreadyRead)
        } else if s == "title"@ {
            Some(SortOptions::Title)
        } else if s == "scans"@ {
            Some(SortOptions::Scans)
        } else if s == "lcc_sort"@ {
            Some(SortOptions::LccSort)
        } else if s == "lcc_sort asc"@ {
            Some(SortOptions::LccSortAscending)
        } else if s == "lcc_sort desc"@ {
            Some(SortOptions::LccSortDescending)
        } else if s == "ddc_sort"@ {
            Some(SortOptions::DdcSort)
        } else if s == "ddc_sort asc"@ {
            Some(SortOptions::DdcSortAscending)
        } else if s == "ddc_sort desc"@ {
            Some(SortOptions::DdcSortDescending)
        } else if s == "ebook_access"@ {
            Some(SortOptions::EbookAccess)
        } else if s == "ebook_access asc"@ {
            Some(SortOptions::EbookAccessAscending)
        } else if s == "ebook_access desc"@ {
            Some(SortOptions::EbookAccessDescending)
        } else if s == "key"@ {
            Some(SortOptions::Key)
        } else if s == "key asc"@ {
            Some(SortOptions::KeyAscending)
        } else if s == "key desc"@ {
            Some(SortOptions::KeyDescending)
        } else if s == "random"@ {
            Some(SortOptions::Random)
        } else if s == "random asc"@ {
            Some(SortOptions::RandomAscending)
        } else if s == "random desc"@ {
            Some(SortOptions::RandomDescending)
        } else if s == "random.hourly"@ {
            Some(SortOptions::RandomHourly)
        } else if s == "random.daily"@ {
            Some(SortOptions::RandomDaily)
        } else {
            None
        }
    }

    /// Encodes a variant to its canonical wire string; total and
    /// infallible.
    pub fn encode(&self) -> (r: &'static str)
        ensures
            r@ == self.wire(),
    {
        match self {
            SortOptions::Editions => "editions",
            SortOptions::Old => "old",
            SortOptions::New => "new",
            SortOptions::Rating => "rating",
            SortOptions::RatingAscending => "rating asc",
            SortOptions::RatingDescending => "rating desc",
            SortOptions::ReadingLog => "readinglog",
            SortOptions::WantToRead => "want_to_read",
            SortOptions::CurrentlyReading => "currently_reading",
            SortOptions::AlreadyRead => "already_read",
            SortOptions::Title => "title",
            SortOptions::Scans => "scans",
            SortOptions::LccSort => "lcc_sort",
            SortOptions::LccSortAscending => "lcc_sort asc",
            SortOptions::LccSortDescending => "lcc_sort desc",
            SortOptions::DdcSort => "ddc_sort",
            SortOptions::DdcSortAscending => "ddc_sort asc",
            SortOptions::DdcSortDescending => "ddc_sort desc",
            SortOptions::EbookAccess => "ebook_access",
            SortOptions::EbookAccessAscending => "ebook_access asc",
            SortOptions::EbookAccessDescending => "ebook_access desc",
            SortOptions::Key => "key",
            SortOptions::KeyAscending => "key asc",
            SortOptions::KeyDescending => "key desc",
            SortOptions::Random => "random",
            SortOptions::RandomAscending => "random asc",
            SortOptions::RandomDescending => "random desc",
            SortOptions::RandomHourly => "random.hourly",
            SortOptions::RandomDaily => "random.daily",
        }
    }

    /// Decodes a wire string: `Ok` exactly on the declared canonical
    /// strings, `Err(InvalidValue)` on every other input.
    pub fn decode(s: &str) -> (r: Result<SortOptions, InvalidValue>)
        ensures
            (match Self::from_wire(s@) {
                Some(v) => r == Ok::<SortOptions, InvalidValue>(v),
                None => r == Err::<SortOptions, InvalidValue>(InvalidValue),
            }),
    {
        if str_eq(s, "editions") {
            Ok(SortOptions::Editions)
        } else if str_eq(s, "old") {
            Ok(SortOptions::Old)
        } else if str_eq(s, "new") {
            Ok(SortOptions::New)
        } else if str_eq(s, "rating") {
            Ok(SortOptions::Rating)
        } else if str_eq(s, "rating asc") {
            Ok(SortOptions::RatingAscending)
        } else if str_eq(s, "rating desc") {
            Ok(SortOptions::RatingDescending)
        } else if str_eq(s, "readinglog") {
            Ok(SortOptions::ReadingLog)
        } else if str_eq(s, "want_to_read") {
            Ok(SortOptions::WantToRead)
        } else if str_eq(s, "currently_reading") {
            Ok(SortOptions::CurrentlyReading)
        } else if str_eq(s, "already_read") {
            Ok(SortOptions::AlreadyRead)
        } else if str_eq(s, "title") {
            Ok(SortOptions::Title)
        } else if str_eq(s, "scans") {
            Ok(SortOptions::Scans)
        } else if str_eq(s, "lcc_sort") {
            Ok(SortOptions::LccSort)
        } else if str_eq(s, "lcc_sort asc") {
            Ok(SortOptions::LccSortAscending)
        } else if str_eq(s, "lcc_sort desc") {
            Ok(SortOptions::LccSortDescending)
        } else if str_eq(s, "ddc_sort") {
            Ok(SortOptions::DdcSort)
        } else if str_eq(s, "ddc_sort asc") {
            Ok(SortOptions::DdcSortAscending)
        } else if str_eq(s, "ddc_sort desc") {
            Ok(SortOptions::DdcSortDescending)
        } else if str_eq(s, "ebook_access") {
            Ok(SortOptions::EbookAccess)
        } else if str_eq(s, "ebook_access asc") {
            Ok(SortOptions::EbookAccessAscending)
        } else if str_eq(s, "ebook_access desc") {
            Ok(SortOptions::EbookAccessDescending)
        } else if str_eq(s, "key") {
            Ok(SortOptions::Key)
        } else if str_eq(s, "key asc") {
            Ok(SortOptions::KeyAscending)
        } else if str_eq(s, "key desc") {
            Ok(SortOptions::KeyDescending)
        } else if str_eq(s, "random") {
            Ok(SortOptions::Random)
        } else if str_eq(s, "random asc") {
            Ok(SortOptions::RandomAscending)
        } else if str_eq(s, "random desc") {
            Ok(SortOptions::RandomDescending)
        } else if str_eq(s, "random.hourly") {
            Ok(SortOptions::RandomHourly)
        } else if str_eq(s, "random.daily") {
            Ok(SortOptions::RandomDaily)
        } else {
            Err(InvalidValue)
        }
    }
}

/// Round trip for sort orderings: decoding the canonical string of any
/// variant yields that variant back.
pub proof fn lemma_sort_round_trip(v: SortOptions)
    ensures
        SortOptions::from_wire(v.wire()) == Some(v),
{
    reveal_strlit("editions");
    reveal_strlit("old");
    reveal_strlit("new");
    reveal_strlit("rating");
    reveal_strlit("rating asc");
    reveal_strlit("rating desc");
    reveal_strlit("readinglog");
    reveal_strlit("want_to_read");
    reveal_strlit("currently_reading");
    reveal_strlit("already_read");
    reveal_strlit("title");
    reveal_strlit("scans");
    reveal_strlit("lcc_sort");
    reveal_strlit("lcc_sort asc");
    reveal_strlit("lcc_sort desc");
    reveal_strlit("ddc_sort");
    reveal_strlit("ddc_sort asc");
    reveal_strlit("ddc_sort desc");
    reveal_strlit("ebook_access");
    reveal_strlit("ebook_access asc");
    reveal_strlit("ebook_access desc");
    reveal_strlit("key");
    reveal_strlit("key asc");
    reveal_strlit("key desc");
    reveal_strlit("random");
    reveal_strlit("random asc");
    reveal_strlit("random desc");
    reveal_strlit("random.hourly");
    reveal_strlit("random.daily");
    assert("editions"@.len() == 8);
    assert("editions"@[0] == 'e');
    assert("editions"@[1] == 'd');
    assert("editions"@[2] == 'i');
    assert("old"@.len() == 3);
    assert("old"@[0] == 'o');
    assert("old"@[1] == 'l');
    assert("old"@[2] == 'd');
    assert("new"@.len() == 3);
    assert("new"@[0] == 'n');
    assert("new"@[1] == 'e');
    assert("new"@[2] == 'w');
    assert("rating"@.len() == 6);
    assert("rating"@[0] == 'r');
    assert("rating"@[1] == 'a');
    assert("rating"@[2] == 't');
    assert("rating asc"@.len() == 10);
    assert("rating asc"@[0] == 'r');
    assert("rating asc"@[1] == 'a');
    assert("rating asc"@[2] == 't');
    assert("rating desc"@.len() == 11);
    assert("rating desc"@[0] == 'r');
    assert("rating desc"@[1] == 'a');
    assert("rating desc"@[2] == 't');
    assert("readinglog"@.len() == 10);
    assert("readinglog"@[0] == 'r');
    assert("readinglog"@[1] == 'e');
    assert("readinglog"@[2] == 'a');
    assert("want_to_read"@.len() == 12);
    assert("want_to_read"@[0] == 'w');
    assert("want_to_read"@[1] == 'a');
    assert("want_to_read"@[2] == 'n');
    assert("currently_reading"@.len() == 17);
    assert("currently_reading"@[0] == 'c');
    assert("currently_reading"@[1] == 'u');
    assert("currently_reading"@[2] == 'r');
    assert("already_read"@.len() == 12);
    assert("already_read"@[0] == 'a');
    assert("already_read"@[1] == 'l');
    assert("already_read"@[2] == 'r');
    assert("title"@.len() == 5);
    assert("title"@[0] == 't');
    assert("title"@[1] == 'i');
    assert("title"@[2] == 't');
    assert("scans"@.len() == 5);
    assert("scans"@[0] == 's');
    assert("scans"@[1] == 'c');
    assert("scans"@[2] == 'a');
    assert("lcc_sort"@.len() == 8);
    assert("lcc_sort"@[0] == 'l');
    assert("lcc_sort"@[1] == 'c');
    assert("lcc_sort"@[2] == 'c');
    assert("lcc_sort asc"@.len() == 12);
    assert("lcc_sort asc"@[0] == 'l');
    assert("lcc_sort asc"@[1] == 'c');
    assert("lcc_sort asc"@[2] == 'c');
    assert("lcc_sort desc"@.len() == 13);
    assert("lcc_sort desc"@[0] == 'l');
    assert("lcc_sort desc"@[1] == 'c');
    assert("lcc_sort desc"@[2] == 'c');
    assert("ddc_sort"@.len() == 8);
    assert("ddc_sort"@[0] == 'd');
    assert("ddc_sort"@[1] == 'd');
    assert("ddc_sort"@[2] == 'c');
    assert("ddc_sort asc"@.len() == 12);
    assert("ddc_sort asc"@[0] == 'd');
    assert("ddc_sort asc"@[1] == 'd');
    assert("ddc_sort asc"@[2] == 'c');
    assert("ddc_sort desc"@.len() == 13);
    assert("ddc_sort desc"@[0] == 'd');
    assert("ddc_sort desc"@[1] == 'd');
    assert("ddc_sort desc"@[2] == 'c');
    assert("ebook_access"@.len() == 12);
    assert("ebook_access"@[0] == 'e');
    assert("ebook_access"@[1] == 'b');
    assert("ebook_access"@[2] == 'o');
    assert("ebook_access asc"@.len() == 16);
    assert("ebook_access asc"@[0] == 'e');
    assert("ebook_access asc"@[1] == 'b');
    assert("ebook_access asc"@[2] == 'o');
    assert("ebook_access desc"@.len() == 17);
    assert("ebook_access desc"@[0] == 'e');
    assert("ebook_access desc"@[1] == 'b');
    assert("ebook_access desc"@[2] == 'o');
    assert("key"@.len() == 3);
    assert("key"@[0] == 'k');
    assert("key"@[1] == 'e');
    assert("key"@[2] == 'y');
    assert("key asc"@.len() == 7);
    assert("key asc"@[0] == 'k');
    assert("key asc"@[1] == 'e');
    assert("key asc"@[2] == 'y');
    assert("key desc"@.len() == 8);
    assert("key desc"@[0] == 'k');
    assert("key desc"@[1] == 'e');
    assert("key desc"@[2] == 'y');
    assert("random"@.len() == 6);
    assert("random"@[0] == 'r');
    assert("random"@[1] == 'a');
    assert("random"@[2] == 'n');
    assert("random asc"@.len() == 10);
    assert("random asc"@[0] == 'r');
    assert("random asc"@[1] == 'a');
    assert("random asc"@[2] == 'n');
    assert("random desc"@.len() == 11);
    assert("random desc"@[0] == 'r');
    assert("random desc"@[1] == 'a');
    assert("random desc"@[2] == 'n');
    assert("random.hourly"@.len() == 13);
    assert("random.hourly"@[0] == 'r');
    assert("random.hourly"@[1] == 'a');
    assert("random.hourly"@[2] == 'n');
    assert("random.daily"@.len() == 12);
    assert("random.daily"@[0] == 'r');
    assert("random.daily"@[1] == 'a');
    assert("random.daily"@[2] == 'n');
}

/// Decoding any string outside the declared set fails: a string that is
/// no variant's canonical wire string decodes to nothing.
pub proof fn lemma_sort_decode_failure(s: Seq<char>)
    requires
        forall|v: SortOptions| s != #[trigger] v.wire(),
    ensures
        SortOptions::from_wire(s) is None,
{
    assert(SortOptions::Editions.wire() == "editions"@);
    assert(SortOptions::Old.wire() == "old"@);
    assert(SortOptions::New.wire() == "new"@);
    assert(SortOptions::Rating.wire() == "rating"@);
    assert(SortOptions::RatingAscending.wire() == "rating asc"@);
    assert(SortOptions::RatingDescending.wire() == "rating desc"@);
    assert(SortOptions::ReadingLog.wire() == "readinglog"@);
    assert(SortOptions::WantToRead.wire() == "want_to_read"@);
    assert(SortOptions::CurrentlyReading.wire() == "currently_reading"@);
    assert(SortOptions::AlreadyRead.wire() == "already_read"@);
    assert(SortOptions::Title.wire() == "title"@);
    assert(SortOptions::Scans.wire() == "scans"@);
    assert(SortOptions::LccSort.wire() == "lcc_sort"@);
    assert(SortOptions::LccSortAscending.wire() == "lcc_sort asc"@);
    assert(SortOptions::LccSortDescending.wire() == "lcc_sort desc"@);
    assert(SortOptions::DdcSort.wire() == "ddc_sort"@);
    assert(SortOptions::DdcSortAscending.wire() == "ddc_sort asc"@);
    assert(SortOptions::DdcSortDescending.wire() == "ddc_sort desc"@);
    assert(SortOptions::EbookAccess.wire() == "ebook_access"@);
    assert(SortOptions::EbookAccessAscending.wire() == "ebook_access asc"@);
    assert(SortOptions::EbookAccessDescending.wire() == "ebook_access desc"@);
    assert(SortOptions::Key.wire() == "key"@);
    assert(SortOptions::KeyAscending.wire() == "key asc"@);
    assert(SortOptions::KeyDescending.wire() == "key desc"@);
    assert(SortOptions::Random.wire() == "random"@);
    assert(SortOptions::RandomAscending.wire() == "random asc"@);
    assert(SortOptions::RandomDescending.wire() == "random desc"@);
    assert(SortOptions::RandomHourly.wire() == "random.hourly"@);
    assert(SortOptions::RandomDaily.wire() == "random.daily"@);
}

/// The variant-to-string mapping of sort orderings is injective — with
/// the round trip, a bijection between the declared set and its canonical
/// strings.
pub proof fn lemma_sort_wire_injective(v1: SortOptions, v2: SortOptions)
    requires
        v1.wire() == v2.wire(),
    ensures
        v1 == v2,
{
    lemma_sort_round_trip(v1);
    lemma_sort_round_trip(v2);
}

/// The languages a search may ask for or a document may carry.
#[derive(Debug, Clone, Copy, PartialEq, Eq, Structural)]
pub enum Language {
    English,
    Spanish,
    Japanese,
}

impl Language {
    /// The canonical wire string of each variant.
    pub open spec fn wire(self) -> Seq<char> {
        match self {
            Language::English => "en"@,
            Language::Spanish => "es"@,
            Language::Japanese => "ja"@,
        }
    }

    /// The partial inverse of `wire`.
    pub open spec fn from_wire(s: Seq<char>) -> Option<Language> {
        if s == "en"@ {
            Some(Language::English)
        } else if s == "es"@ {
            Some(Language::Spanish)
        } else if s == "ja"@ {
            Some(Language::Japanese)
        } else {
            None
        }
    }

    /// Encodes a variant to its canonical wire string.
    pub fn encode(&self) -> (r: &'static str)
        ensures
            r@ == self.wire(),
    {
        match self {
            Language::English => "en",
            Language::Spanish => "es",
            Language::Japanese => "ja",
        }
    }

    /// Decodes a wire string: `Ok` exactly on the declared canonical
    /// strings, `Err(InvalidValue)` on every other input.
    pub fn decode(s: &str) -> (r: Result<Language, InvalidValue>)
        ensures
            (match Self::from_wire(s@) {
                Some(v) => r == Ok::<Language, InvalidValue>(v),
                None => r == Err::<Language, InvalidValue>(InvalidValue),
            }),
    {
        if str_eq(s, "en") {
            Ok(Language::English)
        } else if str_eq(s, "es") {
            Ok(Language::Spanish)
        } else if str_eq(s, "ja") {
            Ok(Language::Japanese)
        } else {
            Err(InvalidValue)
        }
    }
}

/// Round trip for languages.
pub proof fn lemma_language_round_trip(v: Language)
    ensures
        Language::from_wire(v.wire()) == Some(v),
{
    reveal_strlit("en");
    reveal_strlit("es");
    reveal_strlit("ja");
    assert("en"@.len() == 2);
    assert("es"@.len() == 2);
    assert("ja"@.len() == 2);
    assert("en"@[0] == 'e');
    assert("en"@[1] == 'n');
    assert("es"@[0] == 'e');
    assert("es"@[1] == 's');
    assert("ja"@[0] == 'j');
    assert("ja"@[1] == 'a');
}

/// Decoding any string outside the declared set fails: a string that is
/// no variant's canonical wire string decodes to nothing.
pub proof fn lemma_language_decode_failure(s: Seq<char>)
    requires
        forall|v: Language| s != #[trigger] v.wire(),
    ensures
        Language::from_wire(s) is None,
{
    assert(Language::English.wire() == "en"@);
    assert(Language::Spanish.wire() == "es"@);
    assert(Language::Japanese.wire() == "ja"@);
}

/// The variant-to-string mapping of languages is injective.
pub proof fn lemma_language_wire_injective(v1: Language, v2: Language)
    requires
        v1.wire() == v2.wire(),
    ensures
        v1 == v2,
{
    lemma_language_round_trip(v1);
    lemma_language_round_trip(v2);
}

/// How far a document's electronic text can be accessed.
#[derive(Debug, Clone, Copy, PartialEq, Eq, Structural)]
pub enum EbookAccess {
    NoEbook,
    PrintDisabled,
}

impl EbookAccess {
    /// The canonical wire string of each variant (the snake-case spelling
    /// of the variant name).
    pub open spec fn wire(self) -> Seq<char> {
        match self {
            EbookAccess::NoEbook => "no_ebook"@,
            EbookAccess::PrintDisabled => "print_disabled"@,
        }
    }

    /// The partial inverse of `wire`.
    pub open spec fn from_wire(s: Seq<char>) -> Option<EbookAccess> {
        if s == "no_ebook"@ {
            Some(EbookAccess::NoEbook)
        } else if s == "print_disabled"@ {
            Some(EbookAccess::PrintDisabled)
        } else {
            None
        }
    }

    /// Encodes a variant to its canonical wire string.
    pub fn encode(&self) -> (r: &'static str)
        ensures
            r@ == self.wire(),
    {
        match self {
            EbookAccess::NoEbook => "no_ebook",
            EbookAccess::PrintDisabled => "print_disabled",
        }
    }

    /// Decodes a wire string: `Ok` exactly on the declared canonical
    /// strings, `Err(InvalidValue)` on every other input.
    pub fn decode(s: &str) -> (r: Result<EbookAccess, InvalidValue>)
        ensures
            (match Self::from_wire(s@) {
                Some(v) => r == Ok::<EbookAccess, InvalidValue>(v),
                None => r == Err::<EbookAccess, InvalidValue>(InvalidValue),
            }),
    {
        if str_eq(s, "no_ebook") {
            Ok(EbookAccess::NoEbook)
        } else if str_eq(s, "print_disabled") {
            Ok(EbookAccess::PrintDisabled)
        } else {
            Err(InvalidValue)
        }
    }
}

/// Round trip for ebook-access classes.
pub proof fn lemma_ebook_access_round_trip(v: EbookAccess)
    ensures
        EbookAccess::from_wire(v.wire()) == Some(v),
{
    reveal_strlit("no_ebook");
    reveal_strlit("print_disabled");
    assert("no_ebook"@.len() == 8);
    assert("print_disabled"@.len() == 14);
}

/// Decoding any string outside the declared set fails: a string that is
/// no variant's canonical wire string decodes to nothing.
pub proof fn lemma_ebook_access_decode_failure(s: Seq<char>)
    requires
        forall|v: EbookAccess| s != #[trigger] v.wire(),
    ensures
        EbookAccess::from_wire(s) is None,
{
    assert(EbookAccess::NoEbook.wire() == "no_ebook"@);
    assert(EbookAccess::PrintDisabled.wire() == "print_disabled"@);
}

/// The variant-to-string mapping of ebook-access classes is injective.
pub proof fn lemma_ebook_access_wire_injective(v1: EbookAccess, v2: EbookAccess)
    requires
        v1.wire() == v2.wire(),
    ensures
        v1 == v2,
{
    lemma_ebook_access_round_trip(v1);
    lemma_ebook_access_round_trip(v2);
}

/// The kind of record a search result document is.
#[derive(Debug, Clone, Copy, PartialEq, Eq, Structural)]
pub enum DocumentType {
    Work,
}

impl DocumentType {
    /// The canonical wire string of each variant.
    pub open spec fn wire(self) -> Seq<char> {
        match self {
            DocumentType::Work => "work"@,
        }
    }

    /// The partial inverse of `wire`.
    pub open spec fn from_wire(s: Seq<char>) -> Option<DocumentType> {
        if s == "work"@ {
            Some(DocumentType::Work)
        } else {
            None
        }
    }

    /// Encodes a variant to its canonical wire string.
    pub fn encode(&self) -> (r: &'static str)
        ensures
            r@ == self.wire(),
    {
        match self {
            DocumentType::Work => "work",
        }
    }

    /// Decodes a wire string: `Ok` exactly on the declared canonical
    /// strings, `Err(InvalidValue)` on every other input.
    pub fn decode(s: &str) -> (r: Result<DocumentType, InvalidValue>)
        ensures
            (match Self::from_wire(s@) {
                Some(v) => r == Ok::<DocumentType, InvalidValue>(v),
                None => r == Err::<DocumentType, InvalidValue>(InvalidValue),
            }),
    {
        if str_eq(s, "work") {
            Ok(DocumentType::Work)
        } else {
            Err(InvalidValue)
        }
    }
}

/// Round trip for document types.
pub proof fn lemma_document_type_round_trip(v: DocumentType)
    ensures
        DocumentType::from_wire(v.wire()) == Some(v),
{
    reveal_strlit("work");
}

/// Decoding any string outside the declared set fails: a string that is
/// no variant's canonical wire string decodes to nothing.
pub proof fn lemma_document_type_decode_failure(s: Seq<char>)
    requires
        forall|v: DocumentType| s != #[trigger] v.wire(),
    ensures
        DocumentType::from_wire(s) is None,
{
    assert(DocumentType::Work.wire() == "work"@);
}

} // verus!
