//! The one request made for a list feed.

use vstd::prelude::*;

verus! {

/// The largest page that the service hands out for a list feed.
pub const LIST_FEED_PAGE_LIMIT: u8 = 100;

/// The parameters of a list-feed request.
pub struct ListFeedQuery {
    /// Reference to the list record.
    pub list: String,
    /// Where to continue from; `None` for the first page.
    pub cursor: Option<String>,
    /// How many posts to ask for.
    pub limit: u8,
}

impl ListFeedQuery {
    /// The single request made per run: the first page, as large as allowed.
    pub fn single_page(list: String) -> (q: ListFeedQuery)
        ensures
            q.list == list,
            q.cursor is None,
            q.limit == LIST_FEED_PAGE_LIMIT,
    {
        ListFeedQuery { list, cursor: None, limit: LIST_FEED_PAGE_LIMIT }
    }
}

} // verus!
