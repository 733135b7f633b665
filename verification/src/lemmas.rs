use vstd::prelude::*;
use crate::api::PageView;
use crate::reader::{concat, total, ReaderView};

verus! {

/// The items at hand that iteration has not handed out yet.
pub open spec fn remaining<T>(s: ReaderView<T>) -> Seq<T> {
    s.items.subrange(s.cursor as int, s.items.len() as int)
}

/// Every page of `pages` is asked for and holds items: the page before it
/// names a next page (`linked` says so of the page before the first), and
/// no page of `pages` is empty.
pub open spec fn chained<T>(linked: bool, pages: Seq<PageView<T>>) -> bool
    decreases pages.len(),
{
    pages.len() > 0 ==> linked && pages[0].items.len() > 0 && chained(
        pages[0].next_link is Some,
        pages.drop_first(),
    )
}

/// Pages that arrive one after the other add up: the items at hand are those
/// that were at hand before, followed by the pages' items in page order, and
/// as many were added as the pages hold together. The cursor stays, the
/// first page decides whether iteration is silent, and the last page gives
/// the continuation cursor.
pub proof fn lemma_fetch_all<T>(s: ReaderView<T>, pages: Seq<PageView<T>>)
    ensures
        s.fetch_all(pages).items == s.items + concat(pages),
        s.fetch_all(pages).items.len() == s.items.len() + total(pages),
        concat(pages).len() == total(pages),
        s.fetch_all(pages).cursor == s.cursor,
        s.fetch_all(pages).ended == s.ended,
        s.fetch_all(pages).fetched == (s.fetched || pages.len() > 0),
        s.fetch_all(pages).first_empty == if s.fetched || pages.len() == 0 {
            s.first_empty
        } else {
            pages[0].items.len() == 0
        },
        s.fetch_all(pages).next_link == if pages.len() == 0 {
            s.next_link
        } else {
            pages.last().next_link
        },
        s.wf() ==> s.fetch_all(pages).wf(),
    decreases pages.len(),
{
    if pages.len() == 0 {
        assert(s.items + concat(pages) =~= s.items);
    } else {
        let t = s.fetch(pages[0]);
        let rest = pages.drop_first();
        lemma_fetch_all(t, rest);
        assert(t.items + concat(rest) =~= s.items + concat(pages));
        if rest.len() > 0 {
            assert(rest.last() == pages.last());
        }
    }
}

/// What iteration hands out, step by step. Where an item is at hand, it is
/// handed out first and the cursor moves on. Where a page is asked for and
/// the page that answers holds items, the page is taken, its first item is
/// handed out first and the cursor moves on. In every other state nothing is
/// handed out.
pub proof fn lemma_yielded_step<T>(s: ReaderView<T>, pages: Seq<PageView<T>>)
    requires
        s.wf(),
    ensures
        s.yields() ==> s.yielded(pages) == seq![s.items[s.cursor as int]] + s.advance().yielded(
            pages,
        ),
        s.wants_page() && pages.len() > 0 && pages[0].items.len() > 0 ==> s.yielded(pages)
            == seq![pages[0].items[0]] + s.fetch(pages[0]).advance().yielded(pages.drop_first()),
        s.wants_page() && pages.len() > 0 && pages[0].items.len() == 0 ==> s.yielded(pages)
            == Seq::<T>::empty(),
        s.wants_page() && pages.len() == 0 ==> s.yielded(pages) == Seq::<T>::empty(),
        s.at_end() ==> s.yielded(pages) == Seq::<T>::empty(),
{
    if s.wants_page() && pages.len() > 0 && pages[0].items.len() > 0 {
        let t = s.fetch(pages[0]);
        reveal_with_fuel(ReaderView::yielded, 2);
        assert(t.yields());
        assert(t.items[t.cursor as int] == pages[0].items[0]);
    }
}

/// Where iteration is not silent and every page that answers it is asked for
/// and holds items, iteration hands out the items that remain at hand and
/// then the items of the pages, page after page, each page in its own order.
pub proof fn lemma_yielded_chain<T>(s: ReaderView<T>, pages: Seq<PageView<T>>)
    requires
        s.wf(),
        !s.silent(),
        chained(s.next_link is Some, pages),
    ensures
        s.yielded(pages) == remaining(s) + concat(pages),
    decreases pages.len(), s.items.len() - s.cursor,
{
    if s.yields() {
        let t = s.advance();
        lemma_yielded_chain(t, pages);
        assert(seq![s.items[s.cursor as int]] + remaining(t) =~= remaining(s));
        assert(seq![s.items[s.cursor as int]] + (remaining(t) + concat(pages)) =~= remaining(s)
            + concat(pages));
    } else if pages.len() > 0 {
        let t = s.fetch(pages[0]);
        let rest = pages.drop_first();
        lemma_yielded_chain(t, rest);
        assert(remaining(t) =~= pages[0].items);
        assert(remaining(s) =~= Seq::<T>::empty());
        assert(remaining(t) + concat(rest) =~= remaining(s) + concat(pages));
    } else {
        assert(remaining(s) + concat(pages) =~= Seq::<T>::empty());
    }
}

/// After any number of pages has arrived at a new reader, the items at hand
/// are the pages' items, page after page, each page in its own order, and
/// there are as many of them as the pages hold together.
pub proof fn lemma_accumulation<T>(pages: Seq<PageView<T>>)
    ensures
        ReaderView::<T>::fresh().fetch_all(pages).items == concat(pages),
        ReaderView::<T>::fresh().fetch_all(pages).items.len() == total(pages),
        ReaderView::<T>::fresh().fetch_all(pages).wf(),
{
    let s = ReaderView::<T>::fresh();
    lemma_fetch_all(s, pages);
    assert(s.items + concat(pages) =~= concat(pages));
}

/// After any number of pages has arrived at a new reader, the first of them
/// with items, iteration that is given no further page hands out exactly the
/// items at hand: page after page, each page in its own order.
pub proof fn lemma_accumulated_order<T>(pages: Seq<PageView<T>>)
    requires
        pages.len() > 0 ==> pages[0].items.len() > 0,
    ensures
        ReaderView::<T>::fresh().fetch_all(pages).yielded(Seq::empty()) == concat(pages),
{
    let s = ReaderView::<T>::fresh();
    let t = s.fetch_all(pages);
    lemma_accumulation(pages);
    lemma_fetch_all(s, pages);
    if pages.len() > 0 {
        lemma_yielded_chain(t, Seq::<PageView<T>>::empty());
        assert(remaining(t) =~= t.items);
        assert(t.items + concat(Seq::<PageView<T>>::empty()) =~= t.items);
    }
}

/// Iteration that starts on a first page with items and is answered by pages
/// that are each asked for and hold items hands out the items of all of
/// them, page after page, each page in its own order: the very items that are
/// at hand once all the pages have arrived.
pub proof fn lemma_iteration_order<T>(first: PageView<T>, rest: Seq<PageView<T>>)
    requires
        first.items.len() > 0,
        chained(first.next_link is Some, rest),
    ensures
        ReaderView::<T>::fresh().fetch(first).yielded(rest) == first.items + concat(rest),
        ReaderView::<T>::fresh().fetch(first).yielded(rest) == ReaderView::<T>::fresh().fetch(
            first,
        ).fetch_all(rest).items,
{
    let s = ReaderView::<T>::fresh().fetch(first);
    lemma_yielded_chain(s, rest);
    lemma_fetch_all(s, rest);
    assert(remaining(s) =~= first.items);
    assert(s.items =~= first.items);
}

/// Once a page without a continuation cursor has arrived, there is no next
/// link, iteration asks for no page, and it hands out what remains at hand
/// and nothing more, whatever pages are held ready for it.
pub proof fn lemma_last_page_ends<T>(
    s: ReaderView<T>,
    page: PageView<T>,
    pages: Seq<PageView<T>>,
)
    requires
        s.wf(),
        page.next_link is None,
    ensures
        !s.fetch(page).has_next_link(),
        !s.fetch(page).wants_page(),
        s.fetch(page).yielded(pages) == if s.fetch(page).silent() {
            Seq::<T>::empty()
        } else {
            remaining(s.fetch(page))
        },
{
    lemma_unlinked(s.fetch(page), pages);
}

/// In a state without a continuation cursor iteration hands out what remains
/// at hand, unless it is silent, and asks for nothing.
pub proof fn lemma_unlinked<T>(s: ReaderView<T>, pages: Seq<PageView<T>>)
    requires
        s.wf(),
        s.next_link is None,
    ensures
        s.yielded(pages) == if s.silent() {
            Seq::<T>::empty()
        } else {
            remaining(s)
        },
    decreases s.items.len() - s.cursor,
{
    if s.yields() {
        let t = s.advance();
        lemma_unlinked(t, pages);
        assert(seq![s.items[s.cursor as int]] + remaining(t) =~= remaining(s));
    } else if !s.silent() {
        assert(remaining(s) =~= Seq::<T>::empty());
    }
}

/// After a first page without items iteration is over and stays so: it hands
/// out nothing and asks for no page, whatever the page's continuation cursor
/// says, whatever pages arrive later, and whatever pages are held ready.
pub proof fn lemma_empty_first_page<T>(
    first: PageView<T>,
    later: Seq<PageView<T>>,
    pages: Seq<PageView<T>>,
)
    requires
        first.items.len() == 0,
    ensures
        ReaderView::<T>::fresh().fetch(first).fetch_all(later).at_end(),
        ReaderView::<T>::fresh().fetch(first).fetch_all(later).yielded(pages) == Seq::<T>::empty(),
{
    lemma_fetch_all(ReaderView::<T>::fresh().fetch(first), later);
}

/// Every step of the reader keeps the cursor within the items at hand.
pub proof fn lemma_steps_keep_wf<T>(s: ReaderView<T>, page: PageView<T>)
    requires
        s.wf(),
    ensures
        s.fetch(page).wf(),
        s.end().wf(),
        s.yields() ==> s.advance().wf(),
{
}

} // verus!
