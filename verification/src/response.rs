//! The response model: a decoded result page and its bibliographic
//! `Document` records.  A raw record carries every enumerated field as
//! the wire string it arrived with; decoding resolves those strings
//! through the symbol codecs and is strict — one unrecognized value for a
//! closed field fails the record, and a failed record fails the page.
//! All other fields pass through verbatim, in the order received.

use vstd::prelude::*;
use crate::codec::{DocumentType, EbookAccess, Language};
use crate::text::lemma_vec_deep_view;

verus! {

/// A decode failure, naming the closed field whose wire value was not
/// recognized.
#[derive(Debug, Clone, Copy, PartialEq, Eq, Structural)]
pub enum DecodeError {
    UnrecognizedDocumentType,
    UnrecognizedEbookAccess,
    UnrecognizedLanguage,
}

/// One bibliographic search-result record, fully decoded.  Sequence
/// fields may be empty and keep the order received; a decoded document is
/// an immutable snapshot.
#[derive(Debug)]
pub struct Document {
    pub key: String,
    pub doc_type: DocumentType,
    pub seed: Vec<String>,
    pub title: String,
    pub title_suggest: String,
    pub title_sort: String,
    pub edition_count: usize,
    pub edition_key: Vec<String>,
    pub publish_date: Vec<String>,
    pub publish_year: Vec<usize>,
    pub first_publish_year: usize,
    pub number_of_pages_median: usize,
    pub oclc: Vec<String>,
    pub lcc: Vec<String>,
    pub isbn: Vec<String>,
    pub last_modified_i: usize,
    pub ebook_count_i: usize,
    pub ebook_access: EbookAccess,
    pub has_fulltext: bool,
    pub public_scan_b: bool,
    pub cover_edition_key: String,
    pub cover_i: usize,
    pub first_sentence: Vec<String>,
    pub publisher: Vec<String>,
    pub language: Vec<Language>,
    pub author_key: Vec<String>,
    pub author_name: Vec<String>,
    pub subject: Vec<String>,
    pub id_goodreads: Vec<String>,
    pub id_librarything: Vec<String>,
    pub publisher_facet: Vec<String>,
    pub subject_facet: Vec<String>,
    pub lcc_sort: String,
    pub author_facet: Vec<String>,
    pub subject_key: Vec<String>,
}

/// A record as it arrives: the three closed fields (document type,
/// ebook access, languages) still carry their wire strings.
#[derive(Debug)]
pub struct RawDocument {
    pub key: String,
    pub doc_type: String,
    pub seed: Vec<String>,
    pub title: String,
    pub title_suggest: String,
    pub title_sort: String,
    pub edition_count: usize,
    pub edition_key: Vec<String>,
    pub publish_date: Vec<String>,
    pub publish_year: Vec<usize>,
    pub first_publish_year: usize,
    pub number_of_pages_median: usize,
    pub oclc: Vec<String>,
    pub lcc: Vec<String>,
    pub isbn: Vec<String>,
    pub last_modified_i: usize,
    pub ebook_count_i: usize,
    pub ebook_access: String,
    pub has_fulltext: bool,
    pub public_scan_b: bool,
    pub cover_edition_key: String,
    pub cover_i: usize,
    pub first_sentence: Vec<String>,
    pub publisher: Vec<String>,
    pub language: Vec<String>,
    pub author_key: Vec<String>,
    pub author_name: Vec<String>,
    pub subject: Vec<String>,
    pub id_goodreads: Vec<String>,
    pub id_librarything: Vec<String>,
    pub publisher_facet: Vec<String>,
    pub subject_facet: Vec<String>,
    pub lcc_sort: String,
    pub author_facet: Vec<String>,
    pub subject_key: Vec<String>,
}

/// Every language string of the sequence is a declared wire value.
pub open spec fn langs_ok(ls: Seq<Seq<char>>) -> bool {
    forall|i: int| 0 <= i < ls.len() ==> Language::from_wire(ls[i]) is Some
}

impl Document {
    /// Whether every closed field of the raw record carries a declared
    /// wire value — exactly when decoding the record succeeds.
    pub open spec fn raw_ok(raw: RawDocument) -> bool {
        &&& DocumentType::from_wire(raw.doc_type@) is Some
        &&& EbookAccess::from_wire(raw.ebook_access@) is Some
        &&& langs_ok(raw.language.deep_view())
    }

    /// The failure a bad raw record decodes to: the first closed field
    /// (in declaration order: type, ebook access, languages) whose wire
    /// value is not declared.
    pub open spec fn decode_err(raw: RawDocument) -> DecodeError {
        if DocumentType::from_wire(raw.doc_type@) is None {
            DecodeError::UnrecognizedDocumentType
        } else if EbookAccess::from_wire(raw.ebook_access@) is None {
            DecodeError::UnrecognizedEbookAccess
        } else {
            DecodeError::UnrecognizedLanguage
        }
    }

    /// The decoded record against its raw form: the closed fields are the
    /// decoded variants of the raw wire strings, every other field is
    /// carried over verbatim.
    pub open spec fn matches_raw(self, raw: RawDocument) -> bool {
        &&& Some(self.doc_type) == DocumentType::from_wire(raw.doc_type@)
        &&& Some(self.ebook_access) == EbookAccess::from_wire(raw.ebook_access@)
        &&& self.language@.len() == raw.language@.len()
        &&& forall|i: int|
            0 <= i < raw.language@.len() ==> Some(self.language@[i]) == Language::from_wire(
                raw.language.deep_view()[i],
            )
        &&& self.key == raw.key
        &&& self.seed == raw.seed
        &&& self.title == raw.title
        &&& self.title_suggest == raw.title_suggest
        &&& self.title_sort == raw.title_sort
        &&& self.edition_count == raw.edition_count
        &&& self.edition_key == raw.edition_key
        &&& self.publish_date == raw.publish_date
        &&& self.publish_year == raw.publish_year
        &&& self.first_publish_year == raw.first_publish_year
        &&& self.number_of_pages_median == raw.number_of_pages_median
        &&& self.oclc == raw.oclc
        &&& self.lcc == raw.lcc
        &&& self.isbn == raw.isbn
        &&& self.last_modified_i == raw.last_modified_i
        &&& self.ebook_count_i == raw.ebook_count_i
        &&& self.has_fulltext == raw.has_fulltext
        &&& self.public_scan_b == raw.public_scan_b
        &&& self.cover_edition_key == raw.cover_edition_key
        &&& self.cover_i == raw.cover_i
        &&& self.first_sentence == raw.first_sentence
        &&& self.publisher == raw.publisher
        &&& self.author_key == raw.author_key
        &&& self.author_name == raw.author_name
        &&& self.subject == raw.subject
        &&& self.id_goodreads == raw.id_goodreads
        &&& self.id_librarything == raw.id_librarything
        &&& self.publisher_facet == raw.publisher_facet
        &&& self.subject_facet == raw.subject_facet
        &&& self.lcc_sort == raw.lcc_sort
        &&& self.author_facet == raw.author_facet
        &&& self.subject_key == raw.subject_key
    }

    /// Strict decode of one raw record: succeeds exactly when every
    /// closed field carries a declared wire value, and then resolves
    /// those fields through the symbol codecs, carrying all others over
    /// verbatim.  Fails with the first unrecognized field, in declaration
    /// order.
    #[verifier::loop_isolation(false)]
    pub fn decode(raw: RawDocument) -> (r: Result<Document, DecodeError>)
        ensures
            r is Ok <==> Self::raw_ok(raw),
            (r matches Ok(d) ==> d.matches_raw(raw)),
            (r matches Err(e) ==> e == Self::decode_err(raw)),
    {
        let doc_type = match DocumentType::decode(raw.doc_type.as_str()) {
            Ok(v) => v,
            Err(_) => {
                return Err(DecodeError::UnrecognizedDocumentType);
            },
        };
        let ebook_access = match EbookAccess::decode(raw.ebook_access.as_str()) {
            Ok(v) => v,
            Err(_) => {
                return Err(DecodeError::UnrecognizedEbookAccess);
            },
        };
        let ghost lv = raw.language.deep_view();
        let mut language: Vec<Language> = Vec::new();
        let mut i: usize = 0;
        while i < raw.language.len()
            invariant
                lv == raw.language.deep_view(),
                lv.len() == raw.language@.len(),
                i <= raw.language@.len(),
                language@.len() == i,
                forall|j: int| 0 <= j < i ==> Language::from_wire(lv[j]) is Some,
                forall|j: int| 0 <= j < i ==> Some(language@[j]) == Language::from_wire(lv[j]),
            decreases raw.language@.len() - i,
        {
            let s = &raw.language[i];
            proof {
                lemma_vec_deep_view(raw.language);
                assert(lv[i as int] == raw.language@[i as int]@);
            }
            match Language::decode(s.as_str()) {
                Ok(v) => {
                    language.push(v);
                },
                Err(_) => {
                    return Err(DecodeError::UnrecognizedLanguage);
                },
            }
            i += 1;
        }
        Ok(
            Document {
                key: raw.key,
                doc_type,
                seed: raw.seed,
                title: raw.title,
                title_suggest: raw.title_suggest,
                title_sort: raw.title_sort,
                edition_count: raw.edition_count,
                edition_key: raw.edition_key,
                publish_date: raw.publish_date,
                publish_year: raw.publish_year,
                first_publish_year: raw.first_publish_year,
                number_of_pages_median: raw.number_of_pages_median,
                oclc: raw.oclc,
                lcc: raw.lcc,
                isbn: raw.isbn,
                last_modified_i: raw.last_modified_i,
                ebook_count_i: raw.ebook_count_i,
                ebook_access,
                has_fulltext: raw.has_fulltext,
                public_scan_b: raw.public_scan_b,
                cover_edition_key: raw.cover_edition_key,
                cover_i: raw.cover_i,
                first_sentence: raw.first_sentence,
                publisher: raw.publisher,
                language,
                author_key: raw.author_key,
                author_name: raw.author_name,
                subject: raw.subject,
                id_goodreads: raw.id_goodreads,
                id_librarything: raw.id_librarything,
                publisher_facet: raw.publisher_facet,
                subject_facet: raw.subject_facet,
                lcc_sort: raw.lcc_sort,
                author_facet: raw.author_facet,
                subject_key: raw.subject_key,
            },
        )
    }
}

/// A decoded result page.
#[derive(Debug)]
pub struct SearchResponse {
    pub num_found: usize,
    pub start: usize,
    pub num_found_exact: bool,
    pub docs: Vec<Document>,
    pub q: String,
    pub offset: Option<usize>,
}

/// A result page as it arrives, its records still raw.
#[derive(Debug)]
pub struct RawSearchResponse {
    pub num_found: usize,
    pub start: usize,
    pub num_found_exact: bool,
    pub docs: Vec<RawDocument>,
    pub q: String,
    pub offset: Option<usize>,
}

/// Every record of the sequence decodes.
pub open spec fn raw_docs_ok(docs: Seq<RawDocument>) -> bool {
    forall|i: int| 0 <= i < docs.len() ==> Document::raw_ok(docs[i])
}

impl SearchResponse {
    /// The decoded page against its raw form: metadata carried over
    /// verbatim, records decoded in order.
    pub open spec fn matches_raw(self, raw: RawSearchResponse) -> bool {
        &&& self.num_found == raw.num_found
        &&& self.start == raw.start
        &&& self.num_found_exact == raw.num_found_exact
        &&& self.q == raw.q
        &&& self.offset == raw.offset
        &&& self.docs@.len() == raw.docs@.len()
        &&& forall|i: int| 0 <= i < raw.docs@.len() ==> self.docs@[i].matches_raw(raw.docs@[i])
    }

    /// Strict decode of a result page: succeeds exactly when every record
    /// decodes, and fails with the failure of the first record that does
    /// not.
    #[verifier::loop_isolation(false)]
    pub fn decode(raw: RawSearchResponse) -> (r: Result<SearchResponse, DecodeError>)
        ensures
            r is Ok <==> raw_docs_ok(raw.docs@),
            (r matches Ok(resp) ==> resp.matches_raw(raw)),
            (r matches Err(e) ==> exists|i: int|
                0 <= i < raw.docs@.len() && !Document::raw_ok(raw.docs@[i]) && (forall|j: int|
                    0 <= j < i ==> Document::raw_ok(raw.docs@[j])) && e == Document::decode_err(
                    raw.docs@[i],
                )),
    {
        let ghost ds = raw.docs@;
        let mut rem = raw.docs;
        let mut docs: Vec<Document> = Vec::new();
        let ghost mut i: int = 0;
        while rem.len() > 0
            invariant
                0 <= i,
                i + rem@.len() == ds.len(),
                rem@ == ds.subrange(i, ds.len() as int),
                docs@.len() == i,
                forall|j: int| 0 <= j < i ==> Document::raw_ok(ds[j]),
                forall|j: int| 0 <= j < i ==> docs@[j].matches_raw(ds[j]),
            decreases rem@.len(),
        {
            let rd = rem.remove(0);
            proof {
                assert(rd == ds[i]);
            }
            match Document::decode(rd) {
                Ok(d) => {
                    docs.push(d);
                },
                Err(e) => {
                    proof {
                        let k = i;
                        assert(0 <= k < ds.len());
                        assert(!Document::raw_ok(ds[k]));
                        assert(forall|j: int| 0 <= j < k ==> Document::raw_ok(ds[j]));
                        assert(e == Document::decode_err(ds[k]));
                    }
                    return Err(e);
                },
            }
            proof {
                i = i + 1;
                assert(rem@ =~= ds.subrange(i, ds.len() as int));
            }
        }
        Ok(
            SearchResponse {
                num_found: raw.num_found,
                start: raw.start,
                num_found_exact: raw.num_found_exact,
                docs,
                q: raw.q,
                offset: raw.offset,
            },
        )
    }
}

} // verus!
