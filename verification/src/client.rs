//! The requests of the cache and model services, and the pagination of list
//! results. Connections and authentication headers are held by the caller.
use vstd::prelude::*;
use std::collections::VecDeque;
use crate::error::Error;
use crate::genai::{expiration_field, CachedContent, FieldMask};
use crate::{full_model_name, full_model_name_spec};

verus! {

/// Page size sent with list requests: zero lets the server choose.
pub const DEFAULT_PAGE_SIZE: i32 = 0;

/// Request to create a cached content.
#[derive(Debug)]
pub struct CreateCachedContentRequest {
    /// The cached content to create.
    pub cached_content: Option<CachedContent>,
}

/// Request to read, or to delete, a resource by its name.
#[derive(Debug)]
pub struct NameRequest {
    /// The resource name.
    pub name: String,
}

/// Request to update a cached content.
#[derive(Debug)]
pub struct UpdateCachedContentRequest {
    /// The content to update, with its name.
    pub cached_content: Option<CachedContent>,
    /// The fields to update.
    pub update_mask: Option<FieldMask>,
}

/// Request for one page of a list.
#[derive(Debug)]
pub struct ListRequest {
    /// The maximum number of items to return; zero lets the server choose.
    pub page_size: i32,
    /// The token of the page; empty for the first.
    pub page_token: String,
    /// A filter on the items; empty for none.
    pub filter: String,
}

/// The message of the error that refuses to create a cached content that
/// already has a name.
pub open spec fn named_creation_message() -> Seq<char> {
    "CachedContent name must be empty for creation"@
}

/// The request that creates a cached content; the name is chosen by the
/// server.
///
/// # Errors
/// Returns [`Error::InvalidArgument`] if the content has a name.
pub fn create_cached_content_request(content: CachedContent) -> (r: Result<CreateCachedContentRequest, Error>)
    ensures
        content.name is None <==> r is Ok,
        r matches Ok(q) ==> q.cached_content matches Some(c) && c@ == content@,
        r matches Err(e) ==> (e matches Error::InvalidArgument(m) && m@ == named_creation_message()),
{
    if content.name.is_some() {
        return Err(Error::InvalidArgument("CachedContent name must be empty for creation".to_owned()));
    }
    Ok(CreateCachedContentRequest { cached_content: Some(content) })
}

/// The request that updates a cached content: the content, and the field
/// that its expiration names.
pub fn update_cached_content_request(cc: &CachedContent) -> (r: UpdateCachedContentRequest)
    ensures
        r.cached_content matches Some(c) && c@ == cc@,
        r.update_mask matches Some(m) && m.paths@.len() == 1 && m.paths@[0]@ == expiration_field(cc.expiration),
{
    UpdateCachedContentRequest { cached_content: Some(cc.clone()), update_mask: Some(cc.field_mask()) }
}

/// The request that reads or deletes a resource with the given name, as
/// given.
pub fn name_request(name: &str) -> (r: NameRequest)
    ensures
        r.name@ == name@,
{
    NameRequest { name: name.to_owned() }
}

/// The request that reads a model: its name is made a full resource name.
pub fn get_model_request(name: &str) -> (r: NameRequest)
    ensures
        r.name@ == full_model_name_spec(name@),
{
    NameRequest { name: full_model_name(name) }
}

/// The request for the page with the given token, with the server's page
/// size and no filter.
pub fn list_request(page_token: &str) -> (r: ListRequest)
    ensures
        r.page_size == DEFAULT_PAGE_SIZE,
        r.page_token@ == page_token@,
        r.filter@.len() == 0,
{
    ListRequest { page_size: DEFAULT_PAGE_SIZE, page_token: page_token.to_owned(), filter: String::new() }
}

/// Pages through the cached contents.
pub struct CachedContentPager;

/// Pages through the models.
pub struct ModelsListPager;

/// Pages through the tuned models.
pub struct TunedModelsListPager;

/// Buffers results from multiple pages and provides linear access. The
/// caller fetches a page when [`PageIterator::page_to_fetch`] names one and
/// hands it to [`PageIterator::add_page`]; [`PageIterator::next`] then gives
/// the items one by one.
pub struct PageIterator<C> {
    next_page_token: Option<String>,
    buffer: VecDeque<C>,
}

impl<C> PageIterator<C> {
    /// The token of the next page to fetch; `None` once the last page has
    /// been fetched.
    pub closed spec fn token_view(&self) -> Option<Seq<char>> {
        match self.next_page_token {
            Some(t) => Some(t@),
            None => None,
        }
    }

    /// The items fetched and not yet given out, in order.
    pub closed spec fn buffer_view(&self) -> Seq<C> {
        self.buffer@
    }

    /// The iterator's state by its views.
    pub open spec fn paging_view(&self) -> PagingV<C> {
        PagingV { token: self.token_view(), buffer: self.buffer_view() }
    }

    /// A new iterator: the first page (empty token) is still to fetch.
    pub fn new() -> (r: PageIterator<C>)
        ensures
            r.paging_view() == paging_start::<C>(),
            r.token_view() == Some(Seq::<char>::empty()),
            r.buffer_view().len() == 0,
    {
        PageIterator { next_page_token: Some(String::new()), buffer: VecDeque::new() }
    }

    /// The token of the page to fetch before the next item can be given:
    /// there is one when nothing is buffered and the last page has not been
    /// fetched yet.
    pub fn page_to_fetch(&self) -> (r: Option<&str>)
        ensures
            match r {
                Some(t) => page_wanted(self.paging_view()) == Some(t@),
                None => page_wanted(self.paging_view()) is None,
            },
            match r {
                Some(t) => self.buffer_view().len() == 0 && self.token_view() == Some(t@),
                None => self.buffer_view().len() > 0 || self.token_view() is None,
            },
    {
        if self.buffer.len() == 0 {
            match &self.next_page_token {
                Some(t) => Some(t.as_str()),
                None => None,
            }
        } else {
            None
        }
    }

    /// Takes a fetched page: its items are buffered after those still
    /// buffered, and its next-page token is kept; an empty token means that
    /// this was the last page.
    pub fn add_page(&mut self, items: Vec<C>, next_token: String)
        ensures
            final(self).paging_view() == with_page(old(self).paging_view(), items@, next_token@),
            final(self).buffer_view() == old(self).buffer_view() + items@,
            final(self).token_view() == if next_token@.len() == 0 {
                None
            } else {
                Some(next_token@)
            },
    {
        self.next_page_token = if next_token.as_str().is_empty() {
            None
        } else {
            Some(next_token)
        };
        let ghost start = self.buffer@;
        let ghost items_seq = items@;
        let ghost token = self.token_view();
        assert(token == if next_token@.len() == 0 { None } else { Some(next_token@) });
        for item in it: items
            invariant
                it.seq() == items_seq,
                self.token_view() == token,
                self.buffer@ == start + items_seq.take(it.index() as int),
        {
            let ghost k = it.index();
            assert(items_seq[k as int] == item);
            self.buffer.push_back(item);
            assert(items_seq.take(k + 1) =~= items_seq.take(k as int).push(item));
            assert(self.buffer@ =~= start + items_seq.take(k + 1));
        }
        assert(items_seq.take(items_seq.len() as int) =~= items_seq);
    }

    /// Returns the next content item: the first one buffered, which leaves
    /// the buffer; `None` when nothing is buffered.
    pub fn next(&mut self) -> (r: Option<C>)
        ensures
            (r, final(self).paging_view()) == take_item(old(self).paging_view()),
            final(self).token_view() == old(self).token_view(),
            old(self).buffer_view().len() == 0 ==> r is None && final(self).buffer_view().len() == 0,
            old(self).buffer_view().len() > 0 ==> r == Some(old(self).buffer_view()[0])
                && final(self).buffer_view() == old(self).buffer_view().drop_first(),
    {
        self.buffer.pop_front()
    }

    /// Whether all items have been given out: nothing is buffered and the
    /// last page has been fetched.
    pub fn is_done(&self) -> (r: bool)
        ensures
            r <==> self.buffer_view().len() == 0 && self.token_view() is None,
    {
        self.buffer.len() == 0 && self.next_page_token.is_none()
    }
}

/// Paging, by its views: the token of the next page to fetch (none once
/// the last page has been fetched) and the items buffered.
pub struct PagingV<C> {
    pub token: Option<Seq<char>>,
    pub buffer: Seq<C>,
}

/// Paging before anything is fetched (as [`PageIterator::new`] starts): the
/// first page is asked for with an empty token.
pub open spec fn paging_start<C>() -> PagingV<C> {
    PagingV { token: Some(Seq::empty()), buffer: Seq::empty() }
}

/// The token kept after fetching a page whose next-page token is `t`: none
/// when `t` is empty.
pub open spec fn kept_token(t: Seq<char>) -> Option<Seq<char>> {
    if t.len() == 0 {
        None
    } else {
        Some(t)
    }
}

/// The token of the page to fetch before the next item can be given
/// ([`PageIterator::page_to_fetch`]): there is one when nothing is buffered
/// and the last page has not been fetched yet.
pub open spec fn page_wanted<C>(st: PagingV<C>) -> Option<Seq<char>> {
    if st.buffer.len() == 0 {
        st.token
    } else {
        None
    }
}

/// Paging after a fetched page is added ([`PageIterator::add_page`]): its
/// items are buffered after those still buffered, its next-page token kept.
pub open spec fn with_page<C>(st: PagingV<C>, items: Seq<C>, next: Seq<char>) -> PagingV<C> {
    PagingV { token: kept_token(next), buffer: st.buffer + items }
}

/// An item taken ([`PageIterator::next`]): the first one buffered, which
/// leaves the buffer; none when nothing is buffered.
pub open spec fn take_item<C>(st: PagingV<C>) -> (Option<C>, PagingV<C>) {
    if st.buffer.len() > 0 {
        (Some(st.buffer[0]), PagingV { token: st.token, buffer: st.buffer.drop_first() })
    } else {
        (None, st)
    }
}

/// One request for an item against a listing (its pages, each with its
/// items and the token of the page after it), `fetched` pages having been
/// fetched: while a page is wanted, the next page of the listing is added;
/// then an item is taken. The answer, the paging after it, and the number of
/// pages fetched.
pub open spec fn request_item<C>(pages: Seq<(Seq<C>, Seq<char>)>, st: PagingV<C>, fetched: nat) -> (Option<C>, PagingV<C>, nat)
    decreases pages.len() - fetched,
{
    if page_wanted(st) is Some && fetched < pages.len() {
        let p = pages[fetched as int];
        request_item(pages, with_page(st, p.0, p.1), fetched + 1)
    } else {
        (take_item(st).0, take_item(st).1, fetched)
    }
}

/// The answer to request `j` (counting from 0) of a run of requests from
/// the start, the paging after it, and the number of pages fetched.
pub open spec fn run_requests<C>(pages: Seq<(Seq<C>, Seq<char>)>, j: nat) -> (Option<C>, PagingV<C>, nat)
    decreases j,
{
    if j == 0 {
        request_item(pages, paging_start(), 0)
    } else {
        let prev = run_requests(pages, (j - 1) as nat);
        request_item(pages, prev.1, prev.2)
    }
}

/// A listing as a service returns it: at least one page, every page but
/// the last pointing to a next one, the last to none.
pub open spec fn listing_wf<C>(pages: Seq<(Seq<C>, Seq<char>)>) -> bool {
    &&& pages.len() >= 1
    &&& forall|i: int| 0 <= i < pages.len() - 1 ==> (#[trigger] pages[i]).1.len() > 0
    &&& pages.last().1.len() == 0
}

/// The items of the pages, page after page.
pub open spec fn all_items<C>(pages: Seq<(Seq<C>, Seq<char>)>) -> Seq<C>
    decreases pages.len(),
{
    if pages.len() == 0 {
        seq![]
    } else {
        pages[0].0 + all_items(pages.drop_first())
    }
}

/// The token that page `f` of a listing is fetched with: empty for the
/// first, else the next-page token of the page before.
pub open spec fn token_of_page<C>(pages: Seq<(Seq<C>, Seq<char>)>, f: nat) -> Seq<char> {
    if f == 0 {
        Seq::empty()
    } else {
        pages[f - 1].1
    }
}

/// The items still to come: those buffered, then those of the pages not
/// fetched yet.
pub open spec fn items_to_come<C>(pages: Seq<(Seq<C>, Seq<char>)>, st: PagingV<C>, fetched: nat) -> Seq<C> {
    st.buffer + all_items(pages.skip(fetched as int))
}

/// What every state of a run keeps: a page is still to fetch exactly when
/// some page is left, and it is asked for with the token of that page.
pub open spec fn paging_inv<C>(pages: Seq<(Seq<C>, Seq<char>)>, st: PagingV<C>, fetched: nat) -> bool {
    &&& fetched <= pages.len()
    &&& (st.token is None <==> fetched == pages.len())
    &&& st.token is Some ==> st.token == Some(token_of_page(pages, fetched))
}

/// One request gives the first item still to come, if any, and leaves the
/// others to come.
proof fn lemma_request_item<C>(pages: Seq<(Seq<C>, Seq<char>)>, st: PagingV<C>, f: nat)
    requires
        listing_wf(pages),
        paging_inv(pages, st, f),
    ensures
        ({
            let (x, st2, f2) = request_item(pages, st, f);
            &&& paging_inv(pages, st2, f2)
            &&& items_to_come(pages, st, f).len() > 0 ==> x == Some(items_to_come(pages, st, f)[0])
                && items_to_come(pages, st2, f2) == items_to_come(pages, st, f).drop_first()
            &&& items_to_come(pages, st, f).len() == 0 ==> x is None && items_to_come(pages, st2, f2).len() == 0
        }),
    decreases pages.len() - f,
{
    let come = items_to_come(pages, st, f);
    if page_wanted(st) is Some && f < pages.len() {
        let p = pages[f as int];
        let st2 = with_page(st, p.0, p.1);
        assert(pages.skip(f as int).drop_first() =~= pages.skip(f + 1 as int));
        assert(pages.skip(f as int)[0] == p);
        assert(items_to_come(pages, st2, f + 1) =~= come);
        if f < pages.len() - 1 {
            assert(pages[f as int].1.len() > 0);
        }
        lemma_request_item(pages, st2, f + 1);
    } else if st.buffer.len() > 0 {
        let st2 = take_item(st).1;
        assert(items_to_come(pages, st2, f) =~= come.drop_first());
    } else {
        assert(pages.skip(f as int) =~= Seq::<(Seq<C>, Seq<char>)>::empty());
        assert(come =~= Seq::<C>::empty());
    }
}

/// Paging through a listing gives every item of every page once, page
/// after page and in order, and then nothing: request `j` (each request
/// fetching pages while one is wanted, then taking an item) answers the
/// `j`-th item, or `None` once all items have been given. Every state of
/// the run asks for a page only while one is left, and with that page's
/// token: fetching stops only after a page whose next-page token is empty.
pub proof fn paging_gives_every_item_once<C>(pages: Seq<(Seq<C>, Seq<char>)>, j: nat)
    requires
        listing_wf(pages),
    ensures
        run_requests(pages, j).0 == if j < all_items(pages).len() {
            Some(all_items(pages)[j as int])
        } else {
            None::<C>
        },
        paging_inv(pages, run_requests(pages, j).1, run_requests(pages, j).2),
        items_to_come(pages, run_requests(pages, j).1, run_requests(pages, j).2) == if j < all_items(pages).len() {
            all_items(pages).skip(j + 1 as int)
        } else {
            Seq::<C>::empty()
        },
    decreases j,
{
    let all = all_items(pages);
    let st0 = paging_start::<C>();
    assert(pages.skip(0) =~= pages);
    assert(items_to_come(pages, st0, 0) =~= all);
    if j == 0 {
        lemma_request_item(pages, st0, 0);
        if all.len() > 0 {
            assert(all.drop_first() =~= all.skip(1));
        }
    } else {
        paging_gives_every_item_once(pages, (j - 1) as nat);
        let prev = run_requests(pages, (j - 1) as nat);
        lemma_request_item(pages, prev.1, prev.2);
        if j < all.len() {
            assert(all.skip(j as int).drop_first() =~= all.skip(j + 1 as int));
            assert(all.skip(j as int)[0] == all[j as int]);
        }
    }
}

} // verus!
