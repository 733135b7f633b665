use vstd::prelude::*;
use crate::api::{Collection, OData, PageView};
use crate::error::Error;

verus! {

/// A reader's state as its contracts see it.
pub struct ReaderView<T> {
    /// A page has arrived.
    pub fetched: bool,
    /// The continuation cursor of the page that arrived last.
    pub next_link: Option<Seq<char>>,
    /// The first page that arrived held no items.
    pub first_empty: bool,
    /// Iteration asked for a page and got none, or one without items.
    pub ended: bool,
    /// The items of all pages that arrived, in the order of arrival.
    pub items: Seq<T>,
    /// How many of `items` iteration has handed out.
    pub cursor: nat,
}

impl<T> ReaderView<T> {
    /// The state before any page has arrived.
    pub open spec fn fresh() -> Self {
        ReaderView {
            fetched: false,
            next_link: None,
            first_empty: false,
            ended: false,
            items: Seq::empty(),
            cursor: 0,
        }
    }

    /// The cursor lies within the accumulated items.
    pub open spec fn wf(self) -> bool {
        self.cursor <= self.items.len()
    }

    /// A page has arrived, and it named a next page.
    pub open spec fn has_next_link(self) -> bool {
        self.fetched && self.next_link is Some
    }

    /// The state after `page` has arrived.
    pub open spec fn fetch(self, page: PageView<T>) -> Self {
        ReaderView {
            fetched: true,
            next_link: page.next_link,
            first_empty: if self.fetched {
                self.first_empty
            } else {
                page.items.len() == 0
            },
            ended: self.ended,
            items: self.items + page.items,
            cursor: self.cursor,
        }
    }

    /// The state after every page of `pages` has arrived, in order.
    pub open spec fn fetch_all(self, pages: Seq<PageView<T>>) -> Self
        decreases pages.len(),
    {
        if pages.len() == 0 {
            self
        } else {
            self.fetch(pages[0]).fetch_all(pages.drop_first())
        }
    }

    /// Iteration hands out nothing in this state, whatever has accumulated.
    pub open spec fn silent(self) -> bool {
        !self.fetched || self.first_empty || self.ended
    }

    /// The next step of iteration hands out an item.
    pub open spec fn yields(self) -> bool {
        !self.silent() && self.cursor < self.items.len()
    }

    /// The next step of iteration asks for the page that the cursor names.
    pub open spec fn wants_page(self) -> bool {
        !self.silent() && self.cursor >= self.items.len() && self.next_link is Some
    }

    /// Iteration is over in this state.
    pub open spec fn at_end(self) -> bool {
        !self.yields() && !self.wants_page()
    }

    /// The state after one item was handed out.
    pub open spec fn advance(self) -> Self {
        ReaderView { cursor: self.cursor + 1, ..self }
    }

    /// The state after iteration was cut short.
    pub open spec fn end(self) -> Self {
        ReaderView { ended: true, ..self }
    }

    /// The items that iteration hands out from this state on, where `pages`
    /// are the answers to its requests for pages, in order, none of them a
    /// failure.
    pub open spec fn yielded(self, pages: Seq<PageView<T>>) -> Seq<T>
        decreases pages.len(), self.items.len() - self.cursor,
    {
        if self.yields() {
            seq![self.items[self.cursor as int]] + self.advance().yielded(pages)
        } else if self.wants_page() && pages.len() > 0 && pages[0].items.len() > 0 {
            self.fetch(pages[0]).yielded(pages.drop_first())
        } else {
            Seq::empty()
        }
    }
}

/// The items of `pages`, page after page, within a page in its own order.
pub open spec fn concat<T>(pages: Seq<PageView<T>>) -> Seq<T>
    decreases pages.len(),
{
    if pages.len() == 0 {
        Seq::empty()
    } else {
        pages[0].items + concat(pages.drop_first())
    }
}

/// The number of items of `pages` together.
pub open spec fn total<T>(pages: Seq<PageView<T>>) -> nat
    decreases pages.len(),
{
    if pages.len() == 0 {
        0
    } else {
        pages[0].items.len() + total(pages.drop_first())
    }
}

/// One step of iteration.
#[derive(Debug, Clone)]
pub enum Step<T> {
    /// The next item of the collection.
    Item(T),
    /// The items at hand are used up. The page at this address holds the
    /// next ones: retrieve it and hand the outcome to `resume`.
    Fetch(String),
    /// The collection holds no further item.
    End,
}

/// Reads a collection that the service hands out page by page, as one
/// sequence of items.
///
/// The reader retrieves nothing itself. It says which page it needs, takes
/// the outcome of retrieving that page, keeps the items of all pages in the
/// order of arrival, and hands them out one by one, each once.
pub struct CollectionReader<T> {
    /// The metadata of the page that arrived last.
    odata: Option<OData>,
    /// The first page that arrived held no items.
    first_empty: bool,
    /// Iteration asked for a page and got none, or one without items.
    ended: bool,
    /// The items of all pages that arrived so far.
    items: Vec<T>,
    /// The index in `items` of the item to hand out next.
    iter_index: usize,
}

impl<T> View for CollectionReader<T> {
    type V = ReaderView<T>;

    closed spec fn view(&self) -> ReaderView<T> {
        ReaderView {
            fetched: self.odata is Some,
            next_link: match self.odata {
                Some(o) => o.link(),
                None => None,
            },
            first_empty: self.first_empty,
            ended: self.ended,
            items: self.items@,
            cursor: self.iter_index as nat,
        }
    }
}

impl<T> CollectionReader<T> {
    /// The cursor never passes the items at hand.
    #[verifier::type_invariant]
    spec fn inv(&self) -> bool {
        self.iter_index <= self.items.len()
    }

    /// A reader to which no page has arrived.
    pub fn new() -> (r: Self)
        ensures
            r@ == ReaderView::<T>::fresh(),
            r@.wf(),
    {
        CollectionReader {
            odata: None,
            first_empty: false,
            ended: false,
            items: Vec::new(),
            iter_index: 0,
        }
    }

    /// Takes the outcome of retrieving a page. A page that arrived becomes
    /// the current one, its items are added behind those at hand, and their
    /// number is returned. A failure is returned as it came, and leaves the
    /// reader as it was.
    pub fn fetch(&mut self, reply: Result<Collection<T>, Error>) -> (res: Result<usize, Error>)
        ensures
            reply matches Ok(page) ==> res == Ok::<usize, Error>(page.value.len()) && final(self)@
                == old(self)@.fetch(page@),
            reply matches Err(e) ==> res == Err::<usize, Error>(e) && *final(self) == *old(self),
            final(self)@.wf(),
    {
        proof {
            use_type_invariant(&*self);
        }
        match reply {
            Ok(page) => Ok(self.fetch_inner(page)),
            Err(e) => Err(e),
        }
    }

    /// Makes `page` the current page and adds its items behind those at
    /// hand. Returns their number.
    fn fetch_inner(&mut self, page: Collection<T>) -> (count: usize)
        ensures
            count == page.value.len(),
            final(self)@ == old(self)@.fetch(page@),
            final(self)@.wf(),
    {
        proof {
            use_type_invariant(&*self);
        }
        let Collection { value, odata } = page;
        let mut value = value;
        let count: usize = value.len();
        // The state is taken out and put back as a whole: the cursor then
        // lies within the items at every point in between.
        let mut held = CollectionReader::new();
        core::mem::swap(self, &mut held);
        let CollectionReader { odata: last, first_empty, ended, items, iter_index } = held;
        let mut items = items;
        items.append(&mut value);
        *self = CollectionReader {
            odata: Some(odata),
            first_empty: if last.is_none() {
                count == 0
            } else {
                first_empty
            },
            ended,
            items,
            iter_index,
        };
        count
    }

    /// Takes the outcome of retrieving the page that `next_link` names.
    /// Where there is no such page (nothing has arrived yet, or the current
    /// page is the last), nothing was to be retrieved: `reply` is left aside,
    /// the reader stays as it was and the result is `Ok(0)`. Otherwise as
    /// `fetch`.
    pub fn fetch_next(&mut self, reply: Result<Collection<T>, Error>) -> (res: Result<usize, Error>)
        ensures
            !old(self)@.has_next_link() ==> res == Ok::<usize, Error>(0) && *final(self) == *old(
                self,
            ),
            old(self)@.has_next_link() ==> (reply matches Ok(page) ==> res == Ok::<usize, Error>(
                page.value.len(),
            ) && final(self)@ == old(self)@.fetch(page@)),
            old(self)@.has_next_link() ==> (reply matches Err(e) ==> res == Err::<usize, Error>(e)
                && *final(self) == *old(self)),
            final(self)@.wf(),
    {
        proof {
            use_type_invariant(&*self);
        }
        if self.has_next_link() {
            self.fetch(reply)
        } else {
            Ok(0)
        }
    }

    /// Does the current page name a next one?
    pub fn has_next_link(&self) -> (b: bool)
        ensures
            b == self@.has_next_link(),
    {
        match &self.odata {
            Some(o) => o.next_link.is_some(),
            None => false,
        }
    }

    /// The address of the next page, as the current page gave it, unchanged.
    pub fn next_link(&self) -> (link: Option<String>)
        ensures
            self@.has_next_link() ==> (link matches Some(url) && Some(url@) == self@.next_link),
            !self@.has_next_link() ==> link is None,
    {
        match &self.odata {
            Some(o) => match &o.next_link {
                Some(url) => Some(url.clone()),
                None => None,
            },
            None => None,
        }
    }

    /// The items of all pages that arrived so far, in the order of arrival.
    pub fn items(&self) -> (items: &Vec<T>)
        ensures
            items@ == self@.items,
            self@.wf(),
    {
        proof {
            use_type_invariant(self);
        }
        &self.items
    }

    /// How many items iteration has handed out.
    pub fn position(&self) -> (n: usize)
        ensures
            n == self@.cursor,
            self@.wf(),
    {
        proof {
            use_type_invariant(self);
        }
        self.iter_index
    }
}

impl<T: Clone> CollectionReader<T> {
    /// One step of iteration, as far as it goes without a retrieval.
    ///
    /// Before any page has arrived, after a first page without items, and
    /// once iteration was cut short, the step is `End`. Otherwise the item
    /// under the cursor is handed out and the cursor moves on; with no item
    /// left, the step asks for the next page where the current page names
    /// one, and is `End` where it names none.
    pub fn next(&mut self) -> (step: Step<T>)
        ensures
            final(self)@.wf(),
            old(self)@.yields() ==> final(self)@ == old(self)@.advance() && (step matches Step::Item(
                x,
            ) && cloned(old(self)@.items[old(self)@.cursor as int], x)),
            old(self)@.wants_page() ==> *final(self) == *old(self) && (step matches Step::Fetch(
                url,
            ) && Some(url@) == old(self)@.next_link),
            old(self)@.at_end() ==> *final(self) == *old(self) && step is End,
    {
        proof {
            use_type_invariant(&*self);
        }
        if self.odata.is_none() || self.first_empty || self.ended {
            return Step::End;
        }
        if self.iter_index < self.items.len() {
            let item = self.items[self.iter_index].clone();
            self.iter_index = self.iter_index + 1;
            return Step::Item(item);
        }
        match self.next_link() {
            Some(url) => Step::Fetch(url),
            None => Step::End,
        }
    }

    /// The rest of the step that asked for a page, given the outcome of
    /// retrieving it.
    ///
    /// A page with items is taken as by `fetch`, and its first item is handed
    /// out. A page without items is taken too, and ends iteration: the
    /// result is `Ok(None)`. A failure ends iteration as well, and is returned
    /// as it came. In a state in which `next` asks for no page, `reply` is
    /// left aside, the reader stays as it was and the result is `Ok(None)`.
    pub fn resume(&mut self, reply: Result<Collection<T>, Error>) -> (res: Result<Option<T>, Error>)
        ensures
            final(self)@.wf(),
            !old(self)@.wants_page() ==> res == Ok::<Option<T>, Error>(None) && *final(self)
                == *old(self),
            old(self)@.wants_page() ==> (reply matches Err(e) ==> res == Err::<Option<T>, Error>(e)
                && final(self)@ == old(self)@.end()),
            old(self)@.wants_page() ==> (reply matches Ok(page) ==> (page.value.len() == 0 ==> res
                == Ok::<Option<T>, Error>(None) && final(self)@ == old(self)@.fetch(page@).end())),
            old(self)@.wants_page() ==> (reply matches Ok(page) ==> (page.value.len() > 0
                ==> final(self)@ == old(self)@.fetch(page@).advance() && (res matches Ok(Some(x))
                && cloned(page.value@[0], x)))),
    {
        proof {
            use_type_invariant(&*self);
        }
        let asked = !(self.odata.is_none() || self.first_empty || self.ended) && self.iter_index
            >= self.items.len() && self.has_next_link();
        if !asked {
            return Ok(None);
        }
        match reply {
            Err(e) => {
                self.ended = true;
                Err(e)
            },
            Ok(page) => {
                let count = self.fetch_inner(page);
                if self.iter_index < self.items.len() {
                    let item = self.items[self.iter_index].clone();
                    self.iter_index = self.iter_index + 1;
                    Ok(Some(item))
                } else {
                    self.ended = true;
                    Ok(None)
                }
            },
        }
    }
}

} // verus!
