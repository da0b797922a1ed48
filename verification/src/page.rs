//! The pagination selector: how the caller addresses a position in the
//! result list — either directly by offset, or by page number.  The
//! selector only records the caller's intent; converting a page number to
//! an offset belongs to the wire-encoding step and is stated here by
//! `spec_offset` and performed by `lower`.

use vstd::prelude::*;

verus! {

/// A choice of result addressing: exactly one of the two modes is active.
/// In both modes `limit` is a strictly positive count of results per
/// request; in page mode the first page is page 1.
#[derive(Debug, Clone, Copy)]
pub enum SearchOffset {
    Offset { offset: usize, limit: usize },
    Page { page: usize, limit: usize },
}

impl SearchOffset {
    /// The selector's invariant: a positive limit, a positive page number
    /// in page mode, and a page-mode offset that fits the machine word.
    pub open spec fn wf(self) -> bool {
        match self {
            SearchOffset::Offset { offset, limit } => limit >= 1,
            SearchOffset::Page { page, limit } => limit >= 1 && page >= 1 && (page - 1) * limit
                <= usize::MAX,
        }
    }

    /// The offset this selector denotes: the explicit offset, or the
    /// first result of the requested page.
    pub open spec fn spec_offset(self) -> int {
        match self {
            SearchOffset::Offset { offset, .. } => offset as int,
            SearchOffset::Page { page, limit } => (page - 1) * limit,
        }
    }

    /// The per-request result count this selector carries.
    pub open spec fn spec_limit(self) -> usize {
        match self {
            SearchOffset::Offset { limit, .. } => limit,
            SearchOffset::Page { limit, .. } => limit,
        }
    }

    /// Offset-mode constructor.
    pub fn offset(offset: usize, limit: usize) -> (r: SearchOffset)
        requires
            limit >= 1,
        ensures
            r == (SearchOffset::Offset { offset, limit }),
            r.wf(),
    {
        SearchOffset::Offset { offset, limit }
    }

    /// Page-mode constructor; the first page is page 1, and the page's
    /// first result must be addressable in a machine word.
    pub fn page(page: usize, limit: usize) -> (r: SearchOffset)
        requires
            limit >= 1,
            page >= 1,
            (page - 1) * limit <= usize::MAX,
        ensures
            r == (SearchOffset::Page { page, limit }),
            r.wf(),
    {
        SearchOffset::Page { page, limit }
    }

    /// Lowers the selector to the wire's `(offset, limit)` pair: an
    /// explicit offset passes through unchanged, a page number becomes
    /// `(page - 1) * limit`.
    pub fn lower(&self) -> (r: (usize, usize))
        requires
            self.wf(),
        ensures
            r.0 == self.spec_offset(),
            r.1 == self.spec_limit(),
    {
        match self {
            SearchOffset::Offset { offset, limit } => (*offset, *limit),
            SearchOffset::Page { page, limit } => ((*page - 1) * *limit, *limit),
        }
    }
}

} // verus!
