//! The pagination engine: a forward-only cursor over a remote listing that is
//! served one page at a time.
//!
//! The engine decides; the transport fetches. Each call of
//! [`ResourceIter::pull`] either hands out the next buffered record, asks the
//! caller to fetch a page (and to hand it back through
//! [`ResourceIter::accept_page`]), or reports the end of the listing.

use vstd::prelude::*;
use crate::error::Error;

verus! {

/// The text of an optional string.
pub open spec fn opt_text(o: Option<String>) -> Option<Seq<char>> {
    match o {
        Some(s) => Some(s@),
        None => None,
    }
}

/// One page of a listing, as the server sends it.
pub struct PaginatedApiResponse<T> {
    pub previous: Option<String>,
    pub next: Option<String>,
    pub results: Vec<T>,
}

/// What a page contributes to a listing: its records and the link onwards.
pub ghost struct PageModel<T> {
    pub results: Seq<T>,
    pub next: Option<Seq<char>>,
}

impl<T> View for PaginatedApiResponse<T> {
    type V = PageModel<T>;

    open spec fn view(&self) -> PageModel<T> {
        PageModel { results: self.results@, next: opt_text(self.next) }
    }
}

/// The state of a cursor: records of the current page not yet handed out,
/// and the page to fetch once they are gone (`None`: the listing is done).
pub ghost struct CursorModel<T> {
    pub buffer: Seq<T>,
    pub next: Option<Seq<char>>,
}

/// The outcome of one pull, over the model.
pub ghost enum PullModel<T> {
    Record(T),
    Fetch(Seq<char>),
    End,
}

/// What one pull does to a cursor, and what it yields.
///
/// A buffered record is handed out first. With the buffer empty, a pending
/// link is taken out of the cursor and handed to the caller to fetch; with no
/// link the listing has ended, and the cursor stays as it is.
pub open spec fn pull_spec<T>(s: CursorModel<T>) -> (CursorModel<T>, PullModel<T>) {
    if s.buffer.len() > 0 {
        (CursorModel { buffer: s.buffer.drop_first(), next: s.next }, PullModel::Record(s.buffer[0]))
    } else {
        match s.next {
            Some(u) => (CursorModel { buffer: Seq::empty(), next: None }, PullModel::Fetch(u)),
            None => (s, PullModel::End),
        }
    }
}

/// A fetched page replaces the buffer, and its link replaces the cursor's.
pub open spec fn accept_spec<T>(s: CursorModel<T>, page: PageModel<T>) -> CursorModel<T> {
    CursorModel { buffer: page.results, next: page.next }
}

/// A cursor that has not fetched anything yet and starts at `url`.
pub open spec fn start_spec<T>(url: Seq<char>) -> CursorModel<T> {
    CursorModel { buffer: Seq::empty(), next: Some(url) }
}

/// The records handed out when the cursor is pulled until it ends, each
/// requested page being answered by the next of `pages` (the listing stops
/// early if a page is requested and none is left).
pub open spec fn drain<T>(s: CursorModel<T>, pages: Seq<PageModel<T>>) -> Seq<T>
    decreases pages.len(), s.buffer.len(),
{
    let (s2, p) = pull_spec(s);
    match p {
        PullModel::Record(x) => seq![x] + drain(s2, pages),
        PullModel::End => Seq::empty(),
        PullModel::Fetch(_) => {
            if pages.len() == 0 {
                Seq::empty()
            } else {
                drain(accept_spec(s2, pages[0]), pages.drop_first())
            }
        },
    }
}

/// The links the cursor asks to fetch when pulled until it ends, answered as
/// in [`drain`].
pub open spec fn fetched<T>(s: CursorModel<T>, pages: Seq<PageModel<T>>) -> Seq<Seq<char>>
    decreases pages.len(), s.buffer.len(),
{
    let (s2, p) = pull_spec(s);
    match p {
        PullModel::Record(_) => fetched(s2, pages),
        PullModel::End => Seq::empty(),
        PullModel::Fetch(u) => {
            if pages.len() == 0 {
                seq![u]
            } else {
                seq![u] + fetched(accept_spec(s2, pages[0]), pages.drop_first())
            }
        },
    }
}

/// The records of `pages`, page after page.
pub open spec fn concat_results<T>(pages: Seq<PageModel<T>>) -> Seq<T>
    decreases pages.len(),
{
    if pages.len() == 0 {
        Seq::empty()
    } else {
        pages[0].results + concat_results(pages.drop_first())
    }
}

/// The links of `pages` that lead on, in order.
pub open spec fn concat_links<T>(pages: Seq<PageModel<T>>) -> Seq<Seq<char>>
    decreases pages.len(),
{
    if pages.len() == 0 {
        Seq::empty()
    } else {
        match pages[0].next {
            Some(u) => seq![u] + concat_links(pages.drop_first()),
            None => concat_links(pages.drop_first()),
        }
    }
}

/// `pages` is a whole listing: each page but the last links onwards, and the
/// last one does not.
pub open spec fn is_chain<T>(pages: Seq<PageModel<T>>) -> bool {
    &&& pages.len() > 0
    &&& forall|i: int| 0 <= i < pages.len() - 1 ==> (#[trigger] pages[i]).next is Some
    &&& pages.last().next is None
}

proof fn lemma_drain_from<T>(s: CursorModel<T>, pages: Seq<PageModel<T>>)
    requires
        s.next is Some ==> is_chain(pages),
    ensures
        s.next is None ==> drain(s, pages) == s.buffer && fetched(s, pages) == Seq::<Seq<char>>::empty(),
        s.next is Some ==> drain(s, pages) == s.buffer + concat_results(pages),
        s.next is Some ==> fetched(s, pages) == seq![s.next.unwrap()] + concat_links(pages),
    decreases pages.len(), s.buffer.len(),
{
    let (s2, p) = pull_spec(s);
    if s.buffer.len() > 0 {
        lemma_drain_from(s2, pages);
        assert(s.buffer =~= seq![s.buffer[0]] + s2.buffer);
        if s.next is Some {
            assert(s.buffer + concat_results(pages) =~= seq![s.buffer[0]] + (s2.buffer + concat_results(pages)));
        }
    } else if s.next is None {
        assert(s.buffer =~= Seq::<T>::empty());
    } else {
        let rest = pages.drop_first();
        let s3 = accept_spec(s2, pages[0]);
        if rest.len() > 0 {
            assert forall|i: int| 0 <= i < rest.len() - 1 implies (#[trigger] rest[i]).next is Some by {
                assert(rest[i] == pages[i + 1]);
            }
            assert(rest.last() == pages.last());
        } else {
            assert(pages.len() == 1);
            assert(pages[0] == pages.last());
        }
        lemma_drain_from(s3, rest);
        assert(s.buffer + concat_results(pages) =~= pages[0].results + concat_results(rest));
        if pages[0].next is Some {
            assert(concat_links(pages) == seq![pages[0].next.unwrap()] + concat_links(rest));
        } else {
            assert(concat_links(pages) == concat_links(rest));
            assert(rest.len() == 0) by {
                if rest.len() > 0 {
                    assert(pages[0].next is Some);
                }
            }
            assert(concat_links(rest) =~= Seq::<Seq<char>>::empty());
        }
    }
}

/// Pulling a fresh cursor until it ends hands out exactly the records of every
/// page of the listing, page after page and each page in its own order, and
/// fetches exactly the start link and then each page's onward link, once each.
pub proof fn lemma_listing_concatenates<T>(url: Seq<char>, pages: Seq<PageModel<T>>)
    requires
        is_chain(pages),
    ensures
        drain(start_spec::<T>(url), pages) == concat_results(pages),
        fetched(start_spec::<T>(url), pages) == seq![url] + concat_links(pages),
{
    lemma_drain_from(start_spec::<T>(url), pages);
    assert(Seq::<T>::empty() + concat_results(pages) =~= concat_results(pages));
}

/// Once a page without an onward link has been taken in, the cursor hands out
/// that page's records and then ends: it asks for no other page, and pulls
/// after the end yield nothing and leave the cursor as it is.
pub proof fn lemma_last_page_ends<T>(s: CursorModel<T>, page: PageModel<T>, more: Seq<PageModel<T>>)
    requires
        page.next is None,
    ensures
        drain(accept_spec(s, page), more) == page.results,
        fetched(accept_spec(s, page), more) == Seq::<Seq<char>>::empty(),
        pull_spec(CursorModel { buffer: Seq::<T>::empty(), next: None }) == (
            CursorModel { buffer: Seq::<T>::empty(), next: None }, PullModel::<T>::End),
{
    lemma_drain_from(accept_spec(s, page), more);
}

/// The outcome of one pull.
pub enum Pull<T> {
    /// The next record of the listing.
    Record(T),
    /// The buffer is used up: fetch the page at this link and hand it to
    /// [`ResourceIter::accept_page`], then pull again.
    Fetch(String),
    /// The listing has ended.
    End,
}

impl<T> View for Pull<T> {
    type V = PullModel<T>;

    open spec fn view(&self) -> PullModel<T> {
        match self {
            Pull::Record(x) => PullModel::Record(*x),
            Pull::Fetch(u) => PullModel::Fetch(u@),
            Pull::End => PullModel::End,
        }
    }
}

/// The first record of a listing, from the first pull that does not ask for
/// a page: the record, or [`Error::NotFound`] where the listing is empty.
/// A pull that asks for a page gives `None`: fetch it and pull again.
pub fn first_record<T>(p: Pull<T>) -> (r: Option<Result<T, Error>>)
    ensures
        match p@ {
            PullModel::Record(x) => r == Some(Ok::<T, Error>(x)),
            PullModel::End => r == Some(Err::<T, Error>(Error::NotFound)),
            PullModel::Fetch(_) => r is None,
        },
{
    match p {
        Pull::Record(x) => Some(Ok(x)),
        Pull::End => Some(Err(Error::NotFound)),
        Pull::Fetch(_) => None,
    }
}

/// A cursor over one listing of records of type `T`.
///
/// It never asks twice for a page it has taken in: a link leaves the cursor
/// when it is handed out to fetch.
pub struct ResourceIter<T> {
    buffer: Vec<T>,
    next: Option<String>,
}

impl<T> View for ResourceIter<T> {
    type V = CursorModel<T>;

    closed spec fn view(&self) -> CursorModel<T> {
        CursorModel { buffer: self.buffer@, next: opt_text(self.next) }
    }
}

impl<T> ResourceIter<T> {
    /// A cursor whose first page is at `url`.
    pub fn starting_at(url: String) -> (r: Self)
        ensures
            r@ == start_spec::<T>(url@),
    {
        ResourceIter { buffer: Vec::new(), next: Some(url) }
    }

    /// Points the cursor at another listing before it is used: the buffer is
    /// emptied and the next page to fetch is `url`.
    pub fn set_next(&mut self, url: String)
        ensures
            final(self)@ == start_spec::<T>(url@),
    {
        self.buffer = Vec::new();
        self.next = Some(url);
    }

    /// The link of the next page to fetch, if the listing goes on.
    pub fn next_link(&self) -> (r: Option<&String>)
        ensures
            match r {
                Some(u) => self@.next == Some(u@),
                None => self@.next is None,
            },
    {
        self.next.as_ref()
    }

    /// Advances the cursor by one step; see [`pull_spec`].
    pub fn pull(&mut self) -> (r: Pull<T>)
        ensures
            (final(self)@, r@) == pull_spec(old(self)@),
    {
        if self.buffer.len() > 0 {
            let x = self.buffer.remove(0);
            proof {
                assert(self.buffer@ =~= old(self)@.buffer.drop_first());
            }
            Pull::Record(x)
        } else {
            match self.next.take() {
                Some(u) => {
                    proof {
                        assert(self.buffer@ =~= Seq::<T>::empty());
                    }
                    Pull::Fetch(u)
                },
                None => Pull::End,
            }
        }
    }

    /// Takes in the page fetched at the link that [`Self::pull`] handed out.
    pub fn accept_page(&mut self, page: PaginatedApiResponse<T>)
        ensures
            final(self)@ == accept_spec(old(self)@, page@),
    {
        self.buffer = page.results;
        self.next = page.next;
    }
}

} // verus!
