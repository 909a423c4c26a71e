//! Which page of resources a `resources/list` request asks for, and where the
//! next page starts.

use vstd::prelude::*;

use crate::mcp::jsonrpc::id::Id;
use crate::mcp::jsonrpc::response::error::Error;
use crate::mcp::list_resources_cursor::ListResourcesCursor;

verus! {

/// Answers `resources/list` over a listing of `total` resources.
#[derive(Clone, Copy, Debug)]
pub struct ResourcesListHandler {
    pub total: usize,
}

/// The page to list, and the cursor of the page after it, if any.
#[derive(Clone, Copy, Debug, PartialEq, Eq, Structural)]
pub struct ResourcesListPlan {
    pub list_cursor: ListResourcesCursor,
    pub next_cursor: Option<ListResourcesCursor>,
}

/// The cursor a request uses: the one it names, else the default one.
pub open spec fn cursor_or_default(cursor: Option<ListResourcesCursor>) -> ListResourcesCursor {
    match cursor {
        Some(c) => c,
        None => ListResourcesCursor::spec_default(),
    }
}

/// The cursor of the page after `c` in a listing of `total` entries: it
/// starts where `c`'s page ends, and there is none when no entry is left.
pub open spec fn next_cursor_of(c: ListResourcesCursor, total: usize) -> Option<ListResourcesCursor> {
    if c.offset + c.per_page < total {
        Some(ListResourcesCursor { offset: (c.offset + c.per_page) as usize, per_page: c.per_page })
    } else {
        None
    }
}

impl ResourcesListHandler {
    /// The text of the error for a page size of 0.
    pub fn empty_page_message() -> (s: String)
        ensures
            s@ == "per_page must be greater than 0"@,
    {
        String::from_str("per_page must be greater than 0")
    }

    /// Plans the answer to the request `id` with `cursor`: a page size of 0 is
    /// refused with invalid params; otherwise the page to list and the cursor
    /// of the next one.
    pub fn plan(&self, id: Id, cursor: Option<ListResourcesCursor>) -> (r: Result<
        ResourcesListPlan,
        Error,
    >)
        ensures
            r is Err <==> cursor_or_default(cursor).per_page == 0,
            r matches Err(e) ==> (e matches Error::InvalidParams { id: i, message } && i == id
                && message@ == "per_page must be greater than 0"@),
            r matches Ok(p) ==> p == (ResourcesListPlan {
                list_cursor: cursor_or_default(cursor),
                next_cursor: next_cursor_of(cursor_or_default(cursor), self.total),
            }),
    {
        let list_cursor = match cursor {
            Some(c) => c,
            None => ListResourcesCursor::default(),
        };
        if list_cursor.per_page < 1 {
            return Err(Error::invalid_params(id, Self::empty_page_message()));
        }
        let next_offset = list_cursor.offset.saturating_add(list_cursor.per_page);
        let next_cursor = if next_offset < self.total {
            Some(ListResourcesCursor { offset: next_offset, per_page: list_cursor.per_page })
        } else {
            None
        };
        Ok(ResourcesListPlan { list_cursor, next_cursor })
    }
}

/// Following the next cursors walks forward through the listing: each next
/// page starts right where the previous one ends, inside the listing, and
/// keeps its size; there is a next page exactly while entries remain after
/// this one.
pub proof fn law_next_cursor_continues_listing(c: ListResourcesCursor, total: usize)
    requires
        c.per_page > 0,
    ensures
        next_cursor_of(c, total) is Some <==> c.offset + c.per_page < total,
        next_cursor_of(c, total) matches Some(n) ==> n.offset == c.offset + c.per_page
            && n.offset > c.offset && n.offset < total && n.per_page == c.per_page,
{
}

} // verus!
