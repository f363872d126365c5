//! Offset paging of query results.

use vstd::prelude::*;

verus! {

/// A window of rows: at most `limit` rows, after skipping `offset`.
#[derive(Clone, Copy, Debug, PartialEq, Eq, Structural)]
pub struct PagingContext {
    pub limit: u32,
    pub offset: u32,
}

/// One page of results, with the windows of the pages around it.
pub struct PagingResult<T> {
    pub items: Vec<T>,
    pub next: Option<PagingContext>,
    pub previous: Option<PagingContext>,
}

/// The window after `context`, given that its query returned `result_count`
/// rows: none when the page was not full (no rows are left), nor when the
/// next offset does not fit in a `u32`.
pub open spec fn next_window(context: PagingContext, result_count: nat) -> Option<PagingContext> {
    if result_count < context.limit || context.offset + context.limit > u32::MAX {
        None
    } else {
        Some(PagingContext { limit: context.limit, offset: (context.offset + context.limit) as u32 })
    }
}

/// The window before `context`: none on the first page, else `limit` rows
/// further back, but not before the first row.
pub open spec fn previous_window(context: PagingContext) -> Option<PagingContext> {
    if context.offset == 0 {
        None
    } else if context.offset >= context.limit {
        Some(PagingContext { limit: context.limit, offset: (context.offset - context.limit) as u32 })
    } else {
        Some(PagingContext { limit: context.limit, offset: 0 })
    }
}

impl PagingContext {
    /// The window of `limit` rows after `offset`.
    pub fn new(limit: u32, offset: u32) -> (context: Self)
        ensures
            context == (PagingContext { limit, offset }),
    {
        PagingContext { limit, offset }
    }

    /// The window after this one, given that its query returned
    /// `result_count` rows.
    pub fn next(&self, result_count: usize) -> (window: Option<PagingContext>)
        ensures
            window == next_window(*self, result_count as nat),
    {
        if result_count < self.limit as usize {
            return None;
        }
        match self.offset.checked_add(self.limit) {
            Some(offset) => Some(PagingContext { limit: self.limit, offset }),
            None => None,
        }
    }

    /// The window before this one.
    pub fn previous(&self) -> (window: Option<PagingContext>)
        ensures
            window == previous_window(*self),
    {
        if self.offset == 0 {
            None
        } else if self.offset >= self.limit {
            Some(PagingContext { limit: self.limit, offset: self.offset - self.limit })
        } else {
            Some(PagingContext { limit: self.limit, offset: 0 })
        }
    }

    /// The `LIMIT` and `OFFSET` parameters of the window's query.
    pub fn query_window(&self) -> (bounds: (i64, i64))
        ensures
            bounds.0 == self.limit,
            bounds.1 == self.offset,
    {
        (self.limit as i64, self.offset as i64)
    }
}

impl<T> PagingResult<T> {
    /// A page of `items` with the windows around it.
    pub fn new(
        items: Vec<T>,
        next: Option<PagingContext>,
        previous: Option<PagingContext>,
    ) -> (page: Self)
        ensures
            page.items == items,
            page.next == next,
            page.previous == previous,
    {
        PagingResult { items, next, previous }
    }

    /// The page that the query of `context` returned as `items`: those rows,
    /// the window after it as judged by how many rows came back, and the
    /// window before it.
    pub fn from_query(items: Vec<T>, context: &PagingContext) -> (page: Self)
        ensures
            page.items == items,
            page.next == next_window(*context, items@.len()),
            page.previous == previous_window(*context),
    {
        let result_count = items.len();
        let next = context.next(result_count);
        let previous = context.previous();
        PagingResult::new(items, next, previous)
    }
}

/// Paging forward then back returns to the same window (unless both
/// windows are the empty one at the start).
pub proof fn lemma_next_then_previous(context: PagingContext, result_count: nat)
    requires
        next_window(context, result_count) is Some,
        context.offset + context.limit > 0,
    ensures
        previous_window(next_window(context, result_count)->0) == Some(context),
{
}

/// There is a next window exactly when the page came back full and the next
/// offset fits; there is a previous one exactly when this is not the first.
pub proof fn lemma_windows_exist(context: PagingContext, result_count: nat)
    ensures
        next_window(context, result_count) is Some <==> result_count >= context.limit
            && context.offset + context.limit <= u32::MAX,
        previous_window(context) is Some <==> context.offset > 0,
        next_window(context, result_count) matches Some(next) ==> next.limit == context.limit
            && next.offset == context.offset + context.limit,
        previous_window(context) matches Some(previous) ==> previous.limit == context.limit
            && previous.offset <= context.offset,
{
}


/// The window before a later one starts `limit` rows further back, or at the
/// first row when fewer rows come before it; it keeps the limit.
pub proof fn lemma_previous_window_offset(context: PagingContext)
    requires
        context.offset > 0,
    ensures
        previous_window(context) is Some,
        previous_window(context)->0.limit == context.limit,
        previous_window(context)->0.offset as int == vstd::math::max(
            context.offset - context.limit,
            0,
        ),
        context.offset < context.limit ==> previous_window(context) == Some(
            PagingContext { limit: context.limit, offset: 0 },
        ),
{
}

} // verus!
