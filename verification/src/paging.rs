//! Walking a paginated listing to its end.
//!
//! The catalog hands out a listing page by page. A page holds its items and,
//! unless it is the last, the address of the next page; whether that address
//! encodes an offset or a cursor is of no concern here. The walk itself
//! fetches nothing: it says which address is wanted next, takes what the
//! fetch brought, and ends with all items in the order the catalog gave them,
//! or with the failure of the fetch.

use vstd::prelude::*;
use crate::error::ClientError;

verus! {

/// One page of a listing.
#[derive(Clone, Debug, PartialEq, Eq)]
pub struct Page<T> {
    pub items: Vec<T>,
    pub next: Option<String>,
}

/// The view of [`Page`]: the same, with texts and lists as sequences.
pub struct PageView<T> {
    pub items: Seq<T>,
    pub next: Option<Seq<char>>,
}

impl<T> View for Page<T> {
    type V = PageView<T>;

    open spec fn view(&self) -> PageView<T> {
        PageView { items: self.items@, next: self.next.deep_view() }
    }
}

/// A walk that waits for the page at `url`, having collected `items`.
#[derive(Debug, PartialEq, Eq)]
pub struct PageWalker<T> {
    items: Vec<T>,
    url: String,
}

/// The view of [`PageWalker`]: the same, with texts and lists as sequences.
pub struct PageWalkerView<T> {
    pub items: Seq<T>,
    pub url: Seq<char>,
}

impl<T> View for PageWalker<T> {
    type V = PageWalkerView<T>;

    closed spec fn view(&self) -> PageWalkerView<T> {
        PageWalkerView { items: self.items@, url: self.url@ }
    }
}

/// Where a walk stands.
#[derive(Debug, PartialEq, Eq)]
pub enum Walk<T> {
    /// A further page is wanted.
    Pending(PageWalker<T>),
    /// The last page has arrived: these are all items.
    Done(Vec<T>),
    /// The fetch of the page at `url` failed: nothing of what was collected
    /// is returned.
    Failed { url: String, error: ClientError },
}

/// The view of [`Walk`]: the same, with texts and lists as sequences.
pub enum WalkView<T> {
    Pending(PageWalkerView<T>),
    Done(Seq<T>),
    Failed { url: Seq<char>, error: ClientError },
}

impl<T> View for Walk<T> {
    type V = WalkView<T>;

    open spec fn view(&self) -> WalkView<T> {
        match self {
            Walk::Pending(walker) => WalkView::Pending(walker@),
            Walk::Done(items) => WalkView::Done(items@),
            Walk::Failed { url, error } => WalkView::Failed { url: url@, error: *error },
        }
    }
}

/// The walk that has collected `items` and now receives `page`: it goes on to
/// the next page where the page names one, and is done where it names none.
pub open spec fn walk_on<T>(items: Seq<T>, page: PageView<T>) -> WalkView<T> {
    match page.next {
        Some(url) => WalkView::Pending(PageWalkerView { items: items + page.items, url }),
        None => WalkView::Done(items + page.items),
    }
}

/// The walk that starts from the first page of a listing.
pub open spec fn walk_start<T>(first: PageView<T>) -> WalkView<T> {
    walk_on(Seq::empty(), first)
}

/// The walk after the fetch that `walker` waited for has ended.
pub open spec fn walk_resume<T>(
    walker: PageWalkerView<T>,
    fetched: Result<PageView<T>, ClientError>,
) -> WalkView<T> {
    match fetched {
        Ok(page) => walk_on(walker.items, page),
        Err(error) => WalkView::Failed { url: walker.url, error },
    }
}

/// The view of what a fetch brought.
pub open spec fn fetched_view<T>(fetched: Result<Page<T>, ClientError>) -> Result<
    PageView<T>,
    ClientError,
> {
    match fetched {
        Ok(page) => Ok(page@),
        Err(error) => Err(error),
    }
}

impl<T> Walk<T> {
    /// Starts a walk from the first page of a listing.
    pub fn start(first: Page<T>) -> (walk: Walk<T>)
        ensures
            walk@ == walk_start(first@),
    {
        let ghost items = first.items@;
        match first.next {
            Some(url) => {
                assert(Seq::<T>::empty() + items =~= items);
                Walk::Pending(PageWalker { items: first.items, url })
            },
            None => {
                assert(Seq::<T>::empty() + items =~= items);
                Walk::Done(first.items)
            },
        }
    }
}

impl<T> PageWalker<T> {
    /// The address of the page that the walk waits for.
    pub fn url(&self) -> (url: &str)
        ensures
            url@ == self@.url,
    {
        self.url.as_str()
    }

    /// The number of items collected so far.
    pub fn collected(&self) -> (count: usize)
        ensures
            count == self@.items.len(),
    {
        self.items.len()
    }

    /// Takes what the fetch of the awaited page brought.
    ///
    /// A page is appended behind the items collected so far; a failure ends
    /// the walk and discards them.
    pub fn resume(self, fetched: Result<Page<T>, ClientError>) -> (walk: Walk<T>)
        ensures
            walk@ == walk_resume(self@, fetched_view(fetched)),
    {
        match fetched {
            Ok(page) => {
                let mut items = self.items;
                let mut more = page.items;
                items.append(&mut more);
                match page.next {
                    Some(url) => Walk::Pending(PageWalker { items, url }),
                    None => Walk::Done(items),
                }
            },
            Err(error) => Walk::Failed { url: self.url, error },
        }
    }
}

/// Whether the pages are a whole listing: every page but the last names a
/// next page, and the last names none.
pub open spec fn is_listing<T>(pages: Seq<PageView<T>>) -> bool {
    &&& pages.len() > 0
    &&& forall|i: int| 0 <= i < pages.len() - 1 ==> (#[trigger] pages[i]).next is Some
    &&& pages.last().next is None
}

/// The items of the pages, page after page, each page's items in their order.
pub open spec fn all_items<T>(pages: Seq<PageView<T>>) -> Seq<T>
    decreases pages.len(),
{
    if pages.len() == 0 {
        Seq::empty()
    } else {
        all_items(pages.drop_last()) + pages.last().items
    }
}

/// Where the walk stands that started from the first of `pages` and has
/// received the others, one after the other, as long as it was pending.
pub open spec fn walk_through<T>(pages: Seq<PageView<T>>) -> WalkView<T>
    recommends
        pages.len() > 0,
    decreases pages.len(),
{
    if pages.len() <= 1 {
        walk_start(pages[0])
    } else {
        match walk_through(pages.drop_last()) {
            WalkView::Pending(walker) => walk_resume(walker, Ok(pages.last())),
            ended => ended,
        }
    }
}

/// A walk through a whole listing collects every item, in the order of the
/// pages and of the items within each page, and it ends exactly at the page
/// that names no next page: before that page it waits for the address that
/// the page before named.
pub proof fn lemma_walk_collects_listing<T>(pages: Seq<PageView<T>>)
    requires
        is_listing(pages),
    ensures
        walk_through(pages) == WalkView::Done(all_items(pages)),
        forall|k: int|
            1 <= k < pages.len() ==> #[trigger] walk_through(pages.take(k)) == WalkView::Pending(
                PageWalkerView { items: all_items(pages.take(k)), url: pages[k - 1].next->0 },
            ),
{
    assert forall|k: int| 1 <= k < pages.len() implies #[trigger] walk_through(pages.take(k))
        == WalkView::Pending(
        PageWalkerView { items: all_items(pages.take(k)), url: pages[k - 1].next->0 },
    ) by {
        lemma_walk_pending(pages, k);
    }
    if pages.len() == 1 {
        reveal_with_fuel(all_items, 2);
        assert(pages.drop_last() =~= Seq::empty());
        assert(all_items(pages) =~= pages[0].items);
        assert(Seq::<T>::empty() + pages[0].items =~= pages[0].items);
    } else {
        lemma_walk_pending(pages, pages.len() - 1);
        assert(pages.take(pages.len() - 1) =~= pages.drop_last());
    }
}

proof fn lemma_walk_pending<T>(pages: Seq<PageView<T>>, k: int)
    requires
        1 <= k <= pages.len(),
        forall|i: int| 0 <= i < k ==> (#[trigger] pages[i]).next is Some,
    ensures
        walk_through(pages.take(k)) == WalkView::Pending(
            PageWalkerView { items: all_items(pages.take(k)), url: pages[k - 1].next->0 },
        ),
    decreases k,
{
    let prefix = pages.take(k);
    assert(prefix.last() == pages[k - 1]);
    if k == 1 {
        reveal_with_fuel(all_items, 2);
        assert(prefix.drop_last() =~= Seq::empty());
        assert(all_items(prefix) =~= pages[0].items);
        assert(Seq::<T>::empty() + pages[0].items =~= pages[0].items);
    } else {
        lemma_walk_pending(pages, k - 1);
        assert(prefix.drop_last() =~= pages.take(k - 1));
    }
}

} // verus!
