//! A validated inclusive year range: either bound may be absent, and when
//! both are present the start must not lie after the end.

use vstd::prelude::*;
use vstd::string::StringExecFns;
use crate::text::{dec_seq, usize_to_string};

verus! {

/// An inclusive range of publication years.  An absent bound means the
/// range is unbounded on that side; both bounds absent means "no
/// constraint".  `YearRange::new` is the only constructor that validates
/// the ordering invariant, and a constructed value is never mutated.
#[derive(Debug, Clone, Copy)]
pub struct YearRange {
    pub start: Option<usize>,
    pub end: Option<usize>,
}

/// The failure of `YearRange::new`: the start year (first field) lies
/// after the end year (second field).  Both offending values are carried
/// verbatim.
#[derive(Debug, Clone, Copy, PartialEq, Eq, Structural)]
pub struct StartsAfterEndError(pub usize, pub usize);

impl StartsAfterEndError {
    /// The failure described in words, with both years in decimal.
    pub fn message(&self) -> (r: String)
        ensures
            r@ == "Start in year "@ + dec_seq(self.0 as nat) + ", after end year "@ + dec_seq(
                self.1 as nat,
            ),
    {
        let mut s = String::from_str("Start in year ");
        let a = usize_to_string(self.0);
        s.append(a.as_str());
        s.append(", after end year ");
        let b = usize_to_string(self.1);
        s.append(b.as_str());
        s
    }
}

/// The ordering invariant of a year range: whenever both bounds are
/// present, the start does not exceed the end.
pub open spec fn year_order_ok(start: Option<usize>, end: Option<usize>) -> bool {
    !(start is Some && end is Some && end->0 < start->0)
}

impl YearRange {
    /// Whether this range constrains anything at all.
    pub open spec fn is_constrained(self) -> bool {
        self.start is Some || self.end is Some
    }

    /// The ordering invariant, on a constructed value.
    pub open spec fn wf(self) -> bool {
        year_order_ok(self.start, self.end)
    }

    /// Checks the ordering invariant on an already-built value.
    pub fn is_well_formed(&self) -> (r: bool)
        ensures
            r == self.wf(),
    {
        match (self.start, self.end) {
            (Some(s), Some(e)) => s <= e,
            _ => true,
        }
    }

    /// Validating constructor: fails exactly when both bounds are present
    /// and the end lies before the start, and the error then carries the
    /// two offending years.
    pub fn new(start: Option<usize>, end: Option<usize>) -> (r: Result<YearRange, StartsAfterEndError>)
        ensures
            year_order_ok(start, end) ==> r == Ok::<YearRange, StartsAfterEndError>(
                (YearRange { start, end }),
            ),
            !year_order_ok(start, end) ==> r == Err::<YearRange, StartsAfterEndError>(
                (StartsAfterEndError(start->0, end->0)),
            ),
    {
        match (start, end) {
            (Some(s), Some(e)) => {
                if e < s {
                    Err(StartsAfterEndError(s, e))
                } else {
                    Ok(YearRange { start, end })
                }
            },
            _ => Ok(YearRange { start, end }),
        }
    }
}

impl Default for YearRange {
    /// The unconstrained range: both bounds absent.
    fn default() -> (r: YearRange)
        ensures
            r.start is None,
            r.end is None,
    {
        YearRange { start: None, end: None }
    }
}

} // verus!
