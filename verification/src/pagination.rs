//! Paged listings: the request for one page, a page of results, and the
//! cursor that walks the pages of a listing from the first to the last.

use vstd::prelude::*;

verus! {

/// The number of items asked for on each page.
pub const PAGE_SIZE: usize = 500;

/// A listing request for one page.
#[derive(Debug)]
pub struct PagedRequest<T> {
    current_page: usize,
    page_size: usize,
    req: T,
}

impl<T> PagedRequest<T> {
    pub closed spec fn page_spec(self) -> usize {
        self.current_page
    }

    pub closed spec fn page_size_spec(self) -> usize {
        self.page_size
    }

    pub closed spec fn request_spec(self) -> T {
        self.req
    }

    /// The first page of `req`, 500 items a page.
    pub fn new(req: T) -> (r: PagedRequest<T>)
        ensures
            r.page_spec() == 1,
            r.page_size_spec() == 500,
            r.request_spec() == req,
    {
        PagedRequest { current_page: 1, page_size: PAGE_SIZE, req }
    }

    /// The same request for page `current_page`.
    pub fn current_page(self, current_page: usize) -> (r: PagedRequest<T>)
        ensures
            r.page_spec() == current_page,
            r.page_size_spec() == self.page_size_spec(),
            r.request_spec() == self.request_spec(),
    {
        PagedRequest { current_page, ..self }
    }

    /// The page asked for.
    pub fn page(&self) -> (p: usize)
        ensures
            p == self.page_spec(),
    {
        self.current_page
    }

    /// The number of items a page holds.
    pub fn page_size(&self) -> (s: usize)
        ensures
            s == self.page_size_spec(),
    {
        self.page_size
    }

    /// The request that is paged.
    pub fn request(&self) -> (r: &T)
        ensures
            *r == self.request_spec(),
    {
        &self.req
    }
}

/// One page of a listing.
#[derive(Debug)]
pub struct PagedResponse<T> {
    pub current_page: usize,
    pub page_size: usize,
    pub total_num: usize,
    pub total_page: usize,
    pub items: Vec<T>,
}

/// The position of a walk over the pages of a listing: the page to fetch
/// next and the last page, as the latest page reported it (unbounded before
/// the first page).
pub struct PageCursorView {
    pub next: nat,
    pub last: nat,
}

/// Walks the pages of a listing: page 1 first, then each following page,
/// until the page after the last one that the listing reported.
#[derive(Debug)]
pub struct PageCursor {
    next: usize,
    last: usize,
}

impl View for PageCursor {
    type V = PageCursorView;

    closed spec fn view(&self) -> PageCursorView {
        PageCursorView { next: self.next as nat, last: self.last as nat }
    }
}

impl PageCursor {
    /// Before the first page: page 1 is next, and no total is known yet.
    pub fn start() -> (c: PageCursor)
        ensures
            c@ == (PageCursorView { next: 1, last: usize::MAX as nat }),
    {
        PageCursor { next: 1, last: usize::MAX }
    }

    /// The page to fetch next, or `None` once the walk is over.
    pub fn next_page(&self) -> (p: Option<usize>)
        ensures
            p == (if self@.next > self@.last { None } else { Some(self@.next as usize) }),
    {
        if self.next > self.last {
            None
        } else {
            Some(self.next)
        }
    }

    /// Takes the page just fetched: remembers the number of pages it
    /// reports, moves on to the following page, and hands out its items.
    pub fn advance<T>(&mut self, page: PagedResponse<T>) -> (items: Vec<T>)
        requires
            old(self)@.next <= old(self)@.last,
            old(self)@.next < usize::MAX,
        ensures
            final(self)@ == (PageCursorView { next: old(self)@.next + 1, last: page.total_page as nat }),
            items@ == page.items@,
    {
        self.next = self.next + 1;
        self.last = page.total_page;
        page.items
    }
}

} // verus!
