//! The search-query domain model and its deterministic lowering to wire
//! query parameters: an ordered list of key/value text pairs.
//!
//! The grammar of the produced `q` parameter: one clause per free-text
//! term, per field-scoped term (`field:term`), per non-empty year range
//! (`field:[start TO end]`, `*` for an open side) and one OR-group for
//! the requested languages, all joined with ` AND `.

use vstd::prelude::*;
use vstd::string::StringExecFns;
use crate::codec::{Language, SortOptions};
use crate::page::SearchOffset;
use crate::range::YearRange;
use crate::text::{dec_seq, join_with, lemma_vec_deep_view, spec_join, usize_to_string};

verus! {

/// Free-text and field-scoped search terms, language filters and year
/// ranges.  Entries of one scoped field are distinct ANDed clauses; the
/// model passes duplicate terms through unchanged.
pub struct SearchQuery {
    pub generic: Option<String>,
    pub title: Vec<String>,
    pub author: Vec<String>,
    pub place: Vec<String>,
    pub person: Vec<String>,
    pub publisher: Vec<String>,
    pub language: Vec<Language>,
    pub publish_year: YearRange,
    pub first_publish_year: YearRange,
}

/// A full search request: the query terms plus the requested projection,
/// ordering and pagination.
pub struct SearchRequest {
    pub query: SearchQuery,
    pub fields: Option<String>,
    pub sort: Option<SortOptions>,
    pub offset: Option<SearchOffset>,
}

/// No entry of a scoped-term sequence may be empty.
pub open spec fn terms_nonempty(terms: Seq<Seq<char>>) -> bool {
    forall|i: int| 0 <= i < terms.len() ==> terms[i].len() > 0
}

/// One `field:term` clause per scoped term, in order.
pub open spec fn field_clauses(prefix: Seq<char>, terms: Seq<Seq<char>>) -> Seq<Seq<char>> {
    terms.map_values(|t: Seq<char>| prefix + t)
}

/// The canonical wire strings of a language sequence, in order.
pub open spec fn lang_wires(langs: Seq<Language>) -> Seq<Seq<char>> {
    langs.map_values(|l: Language| l.wire())
}

/// The OR-group clause for the requested languages: a document matching
/// any requested language qualifies.  No clause when none is requested.
pub open spec fn language_clauses(langs: Seq<Language>) -> Seq<Seq<char>> {
    if langs.len() == 0 {
        Seq::empty()
    } else {
        seq!["language:("@ + spec_join(" OR "@, lang_wires(langs)) + ")"@]
    }
}

/// A range bound on the wire: the year in decimal, or `*` for an open
/// side.
pub open spec fn bound_text(b: Option<usize>) -> Seq<char> {
    match b {
        Some(y) => dec_seq(y as nat),
        None => "*"@,
    }
}

/// The inclusive bracket-range clause of a year range; an unconstrained
/// range contributes no clause.
pub open spec fn range_clauses(prefix: Seq<char>, r: YearRange) -> Seq<Seq<char>> {
    if r.is_constrained() {
        seq![prefix + "["@ + bound_text(r.start) + " TO "@ + bound_text(r.end) + "]"@]
    } else {
        Seq::empty()
    }
}

/// All clauses of the `q` parameter, in their fixed order: free text,
/// title, author, place, person, publisher, languages, publish-year
/// range, first-publish-year range.
pub open spec fn spec_clauses(q: SearchQuery) -> Seq<Seq<char>> {
    (match q.generic {
        Some(g) => seq![g@],
        None => Seq::empty(),
    }) + field_clauses("title:"@, q.title.deep_view()) + field_clauses(
        "author:"@,
        q.author.deep_view(),
    ) + field_clauses("place:"@, q.place.deep_view()) + field_clauses(
        "person:"@,
        q.person.deep_view(),
    ) + field_clauses("publisher:"@, q.publisher.deep_view()) + language_clauses(q.language@)
        + range_clauses("publish_year:"@, q.publish_year) + range_clauses(
        "first_publish_year:"@,
        q.first_publish_year,
    )
}

/// The `q` parameter: the clauses ANDed.
pub open spec fn spec_q_string(q: SearchQuery) -> Seq<char> {
    spec_join(" AND "@, spec_clauses(q))
}

/// The full ordered wire parameter list of a request: `q` when there is
/// any clause, `sort` when requested, `limit` and `offset` when
/// pagination is requested, and the verbatim `fields` projection.
pub open spec fn spec_params(r: SearchRequest) -> Seq<(Seq<char>, Seq<char>)> {
    (if spec_clauses(r.query).len() > 0 {
        seq![("q"@, spec_q_string(r.query))]
    } else {
        Seq::empty()
    }) + (match r.sort {
        Some(s) => seq![("sort"@, s.wire())],
        None => Seq::empty(),
    }) + (match r.offset {
        Some(o) => seq![
            ("limit"@, dec_seq(o.spec_limit() as nat)),
            ("offset"@, dec_seq(o.spec_offset() as nat)),
        ],
        None => Seq::empty(),
    }) + (match r.fields {
        Some(f) => seq![("fields"@, f@)],
        None => Seq::empty(),
    })
}

/// Appends one `field:term` clause per scoped term.
fn push_field_clauses(clauses: &mut Vec<String>, prefix: &str, terms: &Vec<String>)
    ensures
        final(clauses).deep_view() == old(clauses).deep_view() + field_clauses(
            prefix@,
            terms.deep_view(),
        ),
{
    let ghost base = old(clauses).deep_view();
    let ghost tv = terms.deep_view();
    let mut i: usize = 0;
    while i < terms.len()
        invariant
            tv == terms.deep_view(),
            tv.len() == terms.len(),
            i <= terms.len(),
            clauses.deep_view() == base + field_clauses(prefix@, tv.take(i as int)),
        decreases terms.len() - i,
    {
        let mut c = String::from_str(prefix);
        let t = &terms[i];
        c.append(t.as_str());
        let ghost prev = *clauses;
        clauses.push(c);
        proof {
            lemma_vec_deep_view(prev);
            lemma_vec_deep_view(*clauses);
            assert(terms.deep_view()[i as int] == terms@[i as int]@);
            assert(clauses.deep_view() =~= prev.deep_view().push(prefix@ + tv[i as int]));
            assert(field_clauses(prefix@, tv.take(i as int + 1)) =~= field_clauses(
                prefix@,
                tv.take(i as int),
            ).push(prefix@ + tv[i as int]));
            assert(clauses.deep_view() =~= base + field_clauses(prefix@, tv.take(i as int + 1)));
        }
        i += 1;
    }
    proof {
        assert(tv.take(terms.len() as int) =~= tv);
    }
}

/// Appends the language OR-group clause, when any language is requested.
fn push_language_clause(clauses: &mut Vec<String>, langs: &Vec<Language>)
    ensures
        final(clauses).deep_view() == old(clauses).deep_view() + language_clauses(langs@),
{
    let ghost base = old(clauses).deep_view();
    if langs.len() == 0 {
        proof {
            assert(clauses.deep_view() =~= base + language_clauses(langs@));
        }
        return ;
    }
    let mut parts: Vec<String> = Vec::new();
    let mut i: usize = 0;
    while i < langs.len()
        invariant
            i <= langs.len(),
            parts.deep_view() == lang_wires(langs@.take(i as int)),
        decreases langs.len() - i,
    {
        let l = langs[i];
        let p = String::from_str(l.encode());
        let ghost prev = parts;
        parts.push(p);
        proof {
            lemma_vec_deep_view(prev);
            lemma_vec_deep_view(parts);
            assert(parts.deep_view() =~= prev.deep_view().push(langs@[i as int].wire()));
            assert(lang_wires(langs@.take(i as int + 1)) =~= lang_wires(
                langs@.take(i as int),
            ).push(langs@[i as int].wire()));
            assert(parts.deep_view() =~= lang_wires(langs@.take(i as int + 1)));
        }
        i += 1;
    }
    proof {
        assert(langs@.take(langs.len() as int) =~= langs@);
    }
    let joined = join_with(" OR ", &parts);
    let mut c = String::from_str("language:(");
    c.append(joined.as_str());
    c.append(")");
    let ghost prev = *clauses;
    clauses.push(c);
    proof {
        lemma_vec_deep_view(prev);
        lemma_vec_deep_view(*clauses);
        assert(clauses.deep_view() =~= base + language_clauses(langs@));
    }
}

/// Appends the bracket-range clause of a year range, when it constrains
/// anything.
fn push_range_clause(clauses: &mut Vec<String>, prefix: &str, r: &YearRange)
    ensures
        final(clauses).deep_view() == old(clauses).deep_view() + range_clauses(prefix@, *r),
{
    let ghost base = old(clauses).deep_view();
    if r.start.is_none() && r.end.is_none() {
        proof {
            assert(clauses.deep_view() =~= base + range_clauses(prefix@, *r));
        }
        return ;
    }
    let mut c = String::from_str(prefix);
    c.append("[");
    match r.start {
        Some(y) => {
            let ys = usize_to_string(y);
            c.append(ys.as_str());
        },
        None => {
            c.append("*");
        },
    }
    c.append(" TO ");
    match r.end {
        Some(y) => {
            let ys = usize_to_string(y);
            c.append(ys.as_str());
        },
        None => {
            c.append("*");
        },
    }
    c.append("]");
    let ghost prev = *clauses;
    clauses.push(c);
    proof {
        lemma_vec_deep_view(prev);
        lemma_vec_deep_view(*clauses);
        assert(clauses.deep_view() =~= base + range_clauses(prefix@, *r));
    }
}

impl SearchQuery {
    /// The model's validity: no scoped term is empty, and both year
    /// ranges respect their ordering invariant.
    pub open spec fn wf(self) -> bool {
        &&& terms_nonempty(self.title.deep_view())
        &&& terms_nonempty(self.author.deep_view())
        &&& terms_nonempty(self.place.deep_view())
        &&& terms_nonempty(self.person.deep_view())
        &&& terms_nonempty(self.publisher.deep_view())
        &&& self.publish_year.wf()
        &&& self.first_publish_year.wf()
    }

    /// Checks the model's validity.
    pub fn validate(&self) -> (r: bool)
        ensures
            r == self.wf(),
    {
        terms_valid(&self.title) && terms_valid(&self.author) && terms_valid(&self.place)
            && terms_valid(&self.person) && terms_valid(&self.publisher)
            && self.publish_year.is_well_formed() && self.first_publish_year.is_well_formed()
    }
}

/// Checks that no term of the sequence is empty.
fn terms_valid(terms: &Vec<String>) -> (r: bool)
    ensures
        r == terms_nonempty(terms.deep_view()),
{
    let mut i: usize = 0;
    while i < terms.len()
        invariant
            i <= terms.len(),
            forall|j: int| 0 <= j < i ==> terms.deep_view()[j].len() > 0,
        decreases terms.len() - i,
    {
        let t = &terms[i];
        proof {
            assert(terms.deep_view()[i as int] == terms@[i as int]@);
        }
        if t.as_str().is_empty() {
            return false;
        }
        i += 1;
    }
    true
}

impl Default for SearchQuery {
    /// The empty query: no terms, no filters, unconstrained ranges.
    fn default() -> (r: SearchQuery)
        ensures
            r.generic is None,
            r.title@ == Seq::<String>::empty(),
            r.author@ == Seq::<String>::empty(),
            r.place@ == Seq::<String>::empty(),
            r.person@ == Seq::<String>::empty(),
            r.publisher@ == Seq::<String>::empty(),
            r.language@ == Seq::<Language>::empty(),
            !r.publish_year.is_constrained(),
            !r.first_publish_year.is_constrained(),
            r.wf(),
    {
        SearchQuery {
            generic: None,
            title: Vec::new(),
            author: Vec::new(),
            place: Vec::new(),
            person: Vec::new(),
            publisher: Vec::new(),
            language: Vec::new(),
            publish_year: YearRange { start: None, end: None },
            first_publish_year: YearRange { start: None, end: None },
        }
    }
}

impl SearchRequest {
    /// The request's validity: a valid query and, when pagination is
    /// requested, a valid selector.
    pub open spec fn wf(self) -> bool {
        &&& self.query.wf()
        &&& (self.offset matches Some(o) ==> o.wf())
    }

    /// Lowers the request to its ordered wire parameter list.  The
    /// transform is pure: the result is exactly `spec_params`, so two
    /// encodings of one request are identical.
    pub fn encode(&self) -> (r: Vec<(String, String)>)
        requires
            self.wf(),
        ensures
            r.deep_view() == spec_params(*self),
    {
        let mut clauses: Vec<String> = Vec::new();
        match &self.query.generic {
            Some(g) => {
                let gc = g.clone();
                let ghost prev = clauses;
                clauses.push(gc);
                proof {
                    lemma_vec_deep_view(prev);
                    lemma_vec_deep_view(clauses);
                    assert(clauses.deep_view() =~= seq![g@]);
                }
            },
            None => {},
        }
        push_field_clauses(&mut clauses, "title:", &self.query.title);
        push_field_clauses(&mut clauses, "author:", &self.query.author);
        push_field_clauses(&mut clauses, "place:", &self.query.place);
        push_field_clauses(&mut clauses, "person:", &self.query.person);
        push_field_clauses(&mut clauses, "publisher:", &self.query.publisher);
        push_language_clause(&mut clauses, &self.query.language);
        push_range_clause(&mut clauses, "publish_year:", &self.query.publish_year);
        push_range_clause(&mut clauses, "first_publish_year:", &self.query.first_publish_year);
        proof {
            lemma_vec_deep_view(clauses);
            assert(clauses.deep_view() =~= spec_clauses(self.query));
        }
        let mut params: Vec<(String, String)> = Vec::new();
        if clauses.len() > 0 {
            let q = join_with(" AND ", &clauses);
            params.push((String::from_str("q"), q));
        }
        match &self.sort {
            Some(s) => {
                params.push((String::from_str("sort"), String::from_str(s.encode())));
            },
            None => {},
        }
        match &self.offset {
            Some(o) => {
                let lowered = o.lower();
                params.push((String::from_str("limit"), usize_to_string(lowered.1)));
                params.push((String::from_str("offset"), usize_to_string(lowered.0)));
            },
            None => {},
        }
        match &self.fields {
            Some(f) => {
                let fc = f.clone();
                params.push((String::from_str("fields"), fc));
            },
            None => {},
        }
        proof {
            lemma_vec_deep_view(params);
            assert(params.deep_view() =~= spec_params(*self));
        }
        params
    }
}

impl Default for SearchRequest {
    /// The empty request: an empty query and nothing else requested.
    fn default() -> (r: SearchRequest)
        ensures
            r.query.wf(),
            r.fields is None,
            r.sort is None,
            r.offset is None,
            r.wf(),
    {
        let query = SearchQuery {
            generic: None,
            title: Vec::new(),
            author: Vec::new(),
            place: Vec::new(),
            person: Vec::new(),
            publisher: Vec::new(),
            language: Vec::new(),
            publish_year: YearRange { start: None, end: None },
            first_publish_year: YearRange { start: None, end: None },
        };
        SearchRequest { query, fields: None, sort: None, offset: None }
    }
}

/// Encoding is deterministic: the wire parameters are a function of the
/// request alone, so two encodings of one request agree.
pub proof fn lemma_encode_deterministic(
    r: SearchRequest,
    p1: Seq<(Seq<char>, Seq<char>)>,
    p2: Seq<(Seq<char>, Seq<char>)>,
)
    requires
        p1 == spec_params(r),
        p2 == spec_params(r),
    ensures
        p1 == p2,
{
}

} // verus!
