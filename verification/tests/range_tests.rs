use openlibrary_api::range::YearRange;

#[test]
fn start_after_end_fails_with_both_years() {
    let r = YearRange::new(Some(5), Some(3));
    match r {
        Err(e) => {
            assert_eq!(e.0, 5);
            assert_eq!(e.1, 3);
        },
        Ok(_) => panic!("range with start after end must be rejected"),
    }
}

#[test]
fn ordered_bounds_succeed() {
    let r = YearRange::new(Some(3), Some(5)).unwrap();
    assert_eq!(r.start, Some(3));
    assert_eq!(r.end, Some(5));
}

#[test]
fn unbounded_range_succeeds() {
    let r = YearRange::new(None, None).unwrap();
    assert_eq!(r.start, None);
    assert_eq!(r.end, None);
}

#[test]
fn equal_bounds_succeed() {
    let r = YearRange::new(Some(1999), Some(1999)).unwrap();
    assert_eq!(r.start, Some(1999));
    assert_eq!(r.end, Some(1999));
}

#[test]
fn half_open_ranges_succeed() {
    let lo = YearRange::new(Some(1990), None).unwrap();
    assert_eq!(lo.start, Some(1990));
    assert_eq!(lo.end, None);
    let hi = YearRange::new(None, Some(2000)).unwrap();
    assert_eq!(hi.start, None);
    assert_eq!(hi.end, Some(2000));
}

#[test]
fn error_message_carries_both_years() {
    let e = YearRange::new(Some(5), Some(3)).unwrap_err();
    assert_eq!(e.message(), "Start in year 5, after end year 3");
}

#[test]
fn default_is_unconstrained() {
    let r = YearRange::default();
    assert_eq!(r.start, None);
    assert_eq!(r.end, None);
}
