//! One fetched batch of list results, plus navigation to its neighbours.
//!
//! A `Page` is built once from a response body and the response's `Link`
//! header and never mutated.  Fetching the adjacent batch is the caller's
//! job: `next_url` says whether a request is owed at all, and the
//! flattening `ItemsIter` asks for each follow-up fetch explicitly, so
//! everything the engine decides is verified while the transport stays
//! outside.

use vstd::prelude::*;

use crate::link::LinkRels;
use crate::link::parse_link_header;
use crate::link::spec_empty_rels;
use crate::link::spec_parse_link;

verus! {

/// Spec-level picture of a page.
pub struct PageV<T> {
    pub items: Seq<T>,
    pub next: Option<Seq<char>>,
    pub prev: Option<Seq<char>>,
}

/// One fetched batch of entities plus the URLs of the adjacent batches.
#[derive(Debug)]
pub struct Page<T> {
    items: Vec<T>,
    next: Option<String>,
    prev: Option<String>,
}

impl<T> View for Page<T> {
    type V = PageV<T>;

    closed spec fn view(&self) -> PageV<T> {
        PageV { items: self.items@, next: self.next.deep_view(), prev: self.prev.deep_view() }
    }
}

/// What a page built from a response holds: the decoded items, and the
/// relations of the `Link` header — an absent header yields none.
pub open spec fn spec_page_new<T>(items: Seq<T>, link_header: Option<Seq<char>>) -> PageV<T> {
    let rels = match link_header {
        Some(h) => spec_parse_link(h),
        None => spec_empty_rels(),
    };
    PageV { items, next: rels.next, prev: rels.prev }
}

impl<T> Page<T> {
    /// Build a page from the decoded body items and the response's
    /// `Link` header, when the response carried one.
    pub fn new(items: Vec<T>, link_header: Option<&str>) -> (r: Page<T>)
        ensures
            r@ == spec_page_new(items@, link_header.deep_view()),
    {
        match link_header {
            Some(h) => {
                let rels: LinkRels = parse_link_header(h);
                Page { items, next: rels.next, prev: rels.prev }
            },
            None => Page { items, next: None, prev: None },
        }
    }

    /// The current batch, in server order.
    pub fn items(&self) -> (r: &Vec<T>)
        ensures
            r@ == self@.items,
    {
        &self.items
    }

    /// URL of the following batch.  `None` means the sequence is
    /// terminal there: no request is owed or useful.
    pub fn next_url(&self) -> (r: Option<&String>)
        ensures
            r.deep_view() == self@.next,
    {
        self.next.as_ref()
    }

    /// URL of the preceding batch, with the same meaning as `next_url`.
    pub fn prev_url(&self) -> (r: Option<&String>)
        ensures
            r.deep_view() == self@.prev,
    {
        self.prev.as_ref()
    }

    /// Start the flattening forward-only iteration at this page.
    pub fn into_items_iter(self) -> (r: ItemsIter<T>)
        ensures
            r@.queued == self@.items,
            r@.next == self@.next,
            !r@.finished,
    {
        ItemsIter { queued: self.items, next: self.next, finished: false }
    }
}

/// A page constructed from a response without a `Link` header is
/// terminal in both directions: there is no next and no previous URL,
/// so no follow-up request is ever made for it.
pub proof fn lemma_page_without_header_is_terminal<T>(items: Seq<T>)
    ensures
        spec_page_new(items, None::<Seq<char>>).next is None,
        spec_page_new(items, None::<Seq<char>>).prev is None,
{
}

/// Spec-level picture of the flattening iterator.
pub struct ItemsIterV<T> {
    pub queued: Seq<T>,
    pub next: Option<Seq<char>>,
    pub finished: bool,
}

/// The flattening iterator over a chain of pages: it yields the items of
/// the current batch in order, then asks for the next batch to be
/// fetched, and ends for good once a page offers no next URL or a fetch
/// has failed.  Fetch failure ends the sequence silently by design;
/// callers that need the error must drive `Page::next_url` themselves.
#[derive(Debug)]
pub struct ItemsIter<T> {
    queued: Vec<T>,
    next: Option<String>,
    finished: bool,
}

impl<T> View for ItemsIter<T> {
    type V = ItemsIterV<T>;

    closed spec fn view(&self) -> ItemsIterV<T> {
        ItemsIterV {
            queued: self.queued@,
            next: self.next.deep_view(),
            finished: self.finished,
        }
    }
}

/// One step of the flattening iteration.
#[derive(Debug)]
pub enum IterStep<T> {
    /// The next item of the current batch.
    Item(T),
    /// The iteration needs the page at this URL; fetch it and hand the
    /// outcome to `advance`, then step again.
    Fetch(String),
    /// The sequence is over for good.
    End,
}

impl<T> ItemsIter<T> {
    /// Advance by one: an item while the batch lasts, then either a
    /// fetch request or the end of the sequence.
    pub fn step(&mut self) -> (r: IterStep<T>)
        ensures
            old(self)@.queued.len() > 0 ==> (r matches IterStep::Item(x)
                && x == old(self)@.queued[0]
                && final(self)@.queued == old(self)@.queued.drop_first()
                && final(self)@.next == old(self)@.next
                && final(self)@.finished == old(self)@.finished),
            (old(self)@.queued.len() == 0 && !old(self)@.finished && old(self)@.next is Some)
                ==> (r matches IterStep::Fetch(f) && Some(f@) == old(self)@.next && final(self)@
                == old(self)@),
            old(self)@.queued.len() == 0 && (old(self)@.finished || old(self)@.next is None)
                ==> (r is End && final(self)@ == old(self)@),
    {
        if self.queued.len() > 0 {
            let x = self.queued.remove(0);
            proof {
                assert(self.queued@ =~= old(self).queued@.drop_first());
            }
            IterStep::Item(x)
        } else if !self.finished {
            match &self.next {
                Some(u) => IterStep::Fetch(u.clone()),
                None => IterStep::End,
            }
        } else {
            IterStep::End
        }
    }

    /// Feed the outcome of the fetch that `step` requested: the fetched
    /// page, or `None` when the fetch failed — the iteration then ends
    /// silently, as the flattening contract promises.
    pub fn advance(&mut self, fetched: Option<Page<T>>)
        ensures
            match fetched {
                Some(p) => final(self)@.queued == p@.items
                    && final(self)@.next == p@.next
                    && final(self)@.finished == old(self)@.finished,
                None => final(self)@.queued == old(self)@.queued
                    && final(self)@.next == old(self)@.next
                    && final(self)@.finished,
            },
    {
        match fetched {
            Some(p) => {
                self.queued = p.items;
                self.next = p.next;
            },
            None => {
                self.finished = true;
            },
        }
    }
}

} // verus!
