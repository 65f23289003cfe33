use crate::builder::{ListOptionsBuilder, ListOptionsView};
use vstd::prelude::*;

verus! {

/// A key as one list page reports it.
#[derive(Debug, Clone)]
pub struct Key {
    /// The name of the key.
    pub name: String,
    /// When the pair expires, in seconds since the Unix epoch.
    pub expiration: Option<u64>,
    /// The metadata stored with the pair.
    pub metadata: Option<serde_json::Value>,
}

/// One page of a listing.
#[derive(Debug, Clone)]
pub struct ListResponse {
    /// The keys of this page, in the store's order.
    pub keys: Vec<Key>,
    /// Whether this page ends the listing.
    pub list_complete: bool,
    /// Where the next page starts, while the listing is not complete.
    pub cursor: Option<String>,
}

/// What a list page says about going on.
pub struct PageView {
    pub list_complete: bool,
    pub cursor: Option<Seq<char>>,
}

impl View for ListResponse {
    type V = PageView;

    open spec fn view(&self) -> PageView {
        PageView {
            list_complete: self.list_complete,
            cursor: match self.cursor {
                Some(c) => Some(c@),
                None => None,
            },
        }
    }
}

/// The cursor that continues the listing after `page`: none where the page
/// completes it, or where an incomplete page gives no cursor to go on with.
pub open spec fn continuation(page: PageView) -> Option<Seq<char>> {
    if page.list_complete {
        None
    } else {
        match page.cursor {
            Some(c) => if c.len() > 0 {
                Some(c)
            } else {
                None
            },
            None => None,
        }
    }
}

/// Whether `page` breaks the rule that an incomplete page names a non-empty
/// cursor to go on with.
pub open spec fn truncated(page: PageView) -> bool {
    !page.list_complete && continuation(page) is None
}

/// The request that follows `page`, which answered `request`: the same
/// limit and prefix, with the page's cursor as it was given.
pub open spec fn next_request(request: ListOptionsView, page: PageView) -> Option<ListOptionsView> {
    match continuation(page) {
        Some(c) => Some(ListOptionsView { cursor: Some(c), ..request }),
        None => None,
    }
}

impl ListResponse {
    /// Whether this page breaks the rule that an incomplete page names a
    /// non-empty cursor to go on with.
    pub fn is_truncated(&self) -> (r: bool)
        ensures
            r == truncated(self@),
    {
        if self.list_complete {
            false
        } else {
            match &self.cursor {
                Some(c) => c.as_str().is_empty(),
                None => true,
            }
        }
    }

    /// The request for the page after this one, which answered `request`;
    /// none where the listing ends here.
    pub fn next_request(&self, request: &ListOptionsBuilder) -> (r: Option<ListOptionsBuilder>)
        ensures
            match r {
                Some(n) => next_request(request@, self@) == Some(n@),
                None => next_request(request@, self@) is None,
            },
    {
        if self.list_complete {
            return None;
        }
        match &self.cursor {
            Some(c) => {
                if c.as_str().is_empty() {
                    None
                } else {
                    Some(request.with_cursor_of(c))
                }
            },
            None => None,
        }
    }
}

/// Whether `requests` and `pages` form one listing: page `i` answers request
/// `i`, and each request after the first is the one that the page before it
/// continues with.
pub open spec fn is_listing(requests: Seq<ListOptionsView>, pages: Seq<PageView>) -> bool {
    &&& requests.len() == pages.len()
    &&& forall|i: int|
        0 <= i < pages.len() - 1 ==> #[trigger] next_request(requests[i], pages[i]) == Some(
            requests[i + 1],
        )
}

/// Following cursors page by page keeps the first request's limit and
/// prefix, hands each page's cursor on as it was given, and goes past no
/// page that completes the listing: only the last page of a listing can say
/// `list_complete`. Where the listing stops, and its last page keeps the
/// rule that an incomplete page names a cursor, that last page says
/// `list_complete`.
pub proof fn lemma_listing_follows_cursors(
    requests: Seq<ListOptionsView>,
    pages: Seq<PageView>,
)
    requires
        is_listing(requests, pages),
    ensures
        forall|i: int|
            0 <= i < requests.len() ==> (#[trigger] requests[i]).limit == requests[0].limit
                && requests[i].prefix == requests[0].prefix,
        forall|i: int|
            0 <= i < pages.len() - 1 ==> !(#[trigger] pages[i]).list_complete && pages[i].cursor
                == requests[i + 1].cursor && requests[i + 1].cursor is Some,
        pages.len() > 0 && next_request(requests.last(), pages.last()) is None && !truncated(
            pages.last(),
        ) ==> pages.last().list_complete,
{
    assert forall|i: int| 0 <= i < requests.len() implies (#[trigger] requests[i]).limit
        == requests[0].limit && requests[i].prefix == requests[0].prefix by {
        lemma_listing_prefix_keeps(requests, pages, i);
    }
    assert forall|i: int| 0 <= i < pages.len() - 1 implies !(#[trigger] pages[i]).list_complete
        && pages[i].cursor == requests[i + 1].cursor && requests[i + 1].cursor is Some by {
        assert(next_request(requests[i], pages[i]) == Some(requests[i + 1]));
    }
}

proof fn lemma_listing_prefix_keeps(
    requests: Seq<ListOptionsView>,
    pages: Seq<PageView>,
    i: int,
)
    requires
        is_listing(requests, pages),
        0 <= i < requests.len(),
    ensures
        requests[i].limit == requests[0].limit,
        requests[i].prefix == requests[0].prefix,
    decreases i,
{
    if i > 0 {
        lemma_listing_prefix_keeps(requests, pages, i - 1);
        assert(next_request(requests[i - 1], pages[i - 1]) == Some(requests[i]));
    }
}

} // verus!
