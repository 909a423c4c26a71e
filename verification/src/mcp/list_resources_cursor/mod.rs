//! Where a page of a listing starts, and how long it is.

pub mod token;

use vstd::prelude::*;

verus! {

/// A page of a listing: `per_page` entries from `offset` on.
#[derive(Clone, Copy, Debug, PartialEq, Eq, Structural)]
pub struct ListResourcesCursor {
    pub offset: usize,
    pub per_page: usize,
}

/// The page size used when a request names no cursor.
pub const DEFAULT_PER_PAGE: usize = 10;

impl ListResourcesCursor {
    /// The first page, of the default size.
    pub open spec fn spec_default() -> ListResourcesCursor {
        ListResourcesCursor { offset: 0, per_page: DEFAULT_PER_PAGE }
    }
}

impl Default for ListResourcesCursor {
    fn default() -> (r: ListResourcesCursor)
        ensures
            r == ListResourcesCursor::spec_default(),
    {
        ListResourcesCursor { offset: 0, per_page: DEFAULT_PER_PAGE }
    }
}

} // verus!
