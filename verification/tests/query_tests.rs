use openlibrary_api::codec::{Language, SortOptions};
use openlibrary_api::page::SearchOffset;
use openlibrary_api::query::{SearchQuery, SearchRequest};
use openlibrary_api::range::YearRange;

fn request_of(query: SearchQuery) -> SearchRequest {
    SearchRequest { query, fields: None, sort: None, offset: None }
}

fn params_of(req: &SearchRequest) -> Vec<(String, String)> {
    req.encode()
}

#[test]
fn two_title_terms_encode_as_two_anded_clauses() {
    let mut q = SearchQuery::default();
    q.title = vec!["alpha".to_string(), "beta".to_string()];
    let params = params_of(&request_of(q));
    assert_eq!(params.len(), 1);
    assert_eq!(params[0].0, "q");
    assert_eq!(params[0].1, "title:alpha AND title:beta");
}

#[test]
fn encoding_is_deterministic() {
    let mut q = SearchQuery::default();
    q.generic = Some("wolves".to_string());
    q.title = vec!["alpha".to_string()];
    q.language = vec![Language::English, Language::Spanish];
    q.publish_year = YearRange::new(Some(1990), Some(2000)).unwrap();
    let req = SearchRequest {
        query: q,
        fields: Some("key,title".to_string()),
        sort: Some(SortOptions::New),
        offset: Some(SearchOffset::page(2, 10)),
    };
    let first = params_of(&req);
    let second = params_of(&req);
    assert_eq!(first, second);
}

#[test]
fn full_request_encodes_every_parameter_in_order() {
    let mut q = SearchQuery::default();
    q.generic = Some("wolves".to_string());
    q.title = vec!["alpha".to_string()];
    q.author = vec!["smith".to_string()];
    q.language = vec![Language::English, Language::Spanish];
    q.publish_year = YearRange::new(Some(1990), Some(2000)).unwrap();
    q.first_publish_year = YearRange::new(None, Some(1980)).unwrap();
    let req = SearchRequest {
        query: q,
        fields: Some("key,title".to_string()),
        sort: Some(SortOptions::New),
        offset: Some(SearchOffset::page(3, 20)),
    };
    let params = params_of(&req);
    let expected_q = "wolves AND title:alpha AND author:smith AND language:(en OR es) \
                      AND publish_year:[1990 TO 2000] AND first_publish_year:[* TO 1980]";
    assert_eq!(params.len(), 5);
    assert_eq!(params[0], ("q".to_string(), expected_q.to_string()));
    assert_eq!(params[1], ("sort".to_string(), "new".to_string()));
    assert_eq!(params[2], ("limit".to_string(), "20".to_string()));
    assert_eq!(params[3], ("offset".to_string(), "40".to_string()));
    assert_eq!(params[4], ("fields".to_string(), "key,title".to_string()));
}

#[test]
fn empty_request_encodes_to_no_parameters() {
    let req = SearchRequest::default();
    let params = params_of(&req);
    assert!(params.is_empty());
}

#[test]
fn offset_mode_passes_through() {
    let mut q = SearchQuery::default();
    q.person = vec!["ada".to_string()];
    let req = SearchRequest {
        query: q,
        fields: None,
        sort: None,
        offset: Some(SearchOffset::offset(40, 20)),
    };
    let params = params_of(&req);
    assert_eq!(params.len(), 3);
    assert_eq!(params[0], ("q".to_string(), "person:ada".to_string()));
    assert_eq!(params[1], ("limit".to_string(), "20".to_string()));
    assert_eq!(params[2], ("offset".to_string(), "40".to_string()));
}

#[test]
fn half_open_range_uses_star_on_the_open_side() {
    let mut q = SearchQuery::default();
    q.publish_year = YearRange::new(Some(1990), None).unwrap();
    let params = params_of(&request_of(q));
    assert_eq!(params.len(), 1);
    assert_eq!(params[0].1, "publish_year:[1990 TO *]");
}

#[test]
fn duplicate_terms_pass_through_unchanged() {
    let mut q = SearchQuery::default();
    q.place = vec!["york".to_string(), "york".to_string()];
    let params = params_of(&request_of(q));
    assert_eq!(params[0].1, "place:york AND place:york");
}

#[test]
fn validate_rejects_empty_terms() {
    let mut q = SearchQuery::default();
    q.title = vec!["alpha".to_string(), "".to_string()];
    assert!(!q.validate());
    let mut ok = SearchQuery::default();
    ok.title = vec!["alpha".to_string()];
    assert!(ok.validate());
}
