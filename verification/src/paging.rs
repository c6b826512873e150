//! The paginated-fetch protocol.
//!
//! Every listing endpoint of the vocabulary service answers one page at a
//! time together with [`Meta`]; a caller walks pages starting at 1 and
//! stops once the answered page reports itself as the last one. The
//! [`Paginator`] below is that protocol's state: the driver performing the
//! HTTP calls asks it which page to fetch next and feeds each answer back,
//! while the accumulation and the termination decision stay here, under
//! contract. A single fetch failure aborts the whole walk; no partial
//! result ever leaves the driver.

use vstd::prelude::*;

verus! {

/// Pagination metadata carried by every paginated response.
#[derive(Debug, Clone, Copy, PartialEq, Eq, Structural)]
pub struct Meta {
    pub total: u32,
    pub current_page: u32,
    pub last_page: u32,
    pub page_size: u32,
}

/// State of one pagination walk: the items accumulated so far in arrival
/// order, how many pages were fetched, and whether the last page has been
/// seen.
pub struct Paginator<T> {
    items: Vec<T>,
    fetched: u32,
    done: bool,
}

/// One step of the pagination protocol on its mathematical model
/// `(items, fetches, done)`: append the page's items, count the fetch,
/// and stop exactly when the page reports itself as the last one.
pub open spec fn page_step<T>(st: (Seq<T>, nat, bool), page: (Seq<T>, Meta)) -> (Seq<T>, nat, bool) {
    (st.0 + page.0, (st.1 + 1) as nat, page.1.current_page == page.1.last_page)
}

/// The model state after feeding `pages`, in order, to a fresh walk.
pub open spec fn page_run<T>(pages: Seq<(Seq<T>, Meta)>) -> (Seq<T>, nat, bool)
    decreases pages.len(),
{
    if pages.len() == 0 {
        (Seq::empty(), 0nat, false)
    } else {
        page_step(page_run(pages.drop_last()), pages.last())
    }
}

impl<T> Paginator<T> {
    pub closed spec fn spec_items(&self) -> Seq<T> {
        self.items@
    }

    pub closed spec fn spec_fetched(&self) -> u32 {
        self.fetched
    }

    pub closed spec fn spec_done(&self) -> bool {
        self.done
    }

    /// A fresh walk: nothing accumulated, nothing fetched, not done.
    pub fn new() -> (p: Paginator<T>)
        ensures
            p.spec_items() == Seq::<T>::empty(),
            p.spec_fetched() == 0,
            !p.spec_done(),
    {
        Paginator { items: Vec::new(), fetched: 0, done: false }
    }

    /// The number of the page to fetch next, or `None` once the walk is
    /// complete (or the page counter cannot grow any further).
    pub fn next_request(&self) -> (r: Option<u32>)
        ensures
            r == if self.spec_done() || self.spec_fetched() == u32::MAX {
                None::<u32>
            } else {
                Some((self.spec_fetched() + 1) as u32)
            },
    {
        if self.done || self.fetched == u32::MAX {
            None
        } else {
            Some(self.fetched + 1)
        }
    }

    /// Record one fetched page: its items extend the accumulation in
    /// arrival order and the walk completes exactly when the page's meta
    /// reports the current page as the last one.
    pub fn record_page(&mut self, data: Vec<T>, meta: Meta)
        requires
            !old(self).spec_done(),
            old(self).spec_fetched() < u32::MAX,
        ensures
            final(self).spec_items() == old(self).spec_items() + data@,
            final(self).spec_fetched() == old(self).spec_fetched() + 1,
            final(self).spec_done() == (meta.current_page == meta.last_page),
            (final(self).spec_items(), final(self).spec_fetched() as nat, final(self).spec_done())
                == page_step(
                (old(self).spec_items(), old(self).spec_fetched() as nat, old(self).spec_done()),
                (data@, meta),
            ),
    {
        let mut data = data;
        self.items.append(&mut data);
        self.fetched = self.fetched + 1;
        self.done = meta.current_page == meta.last_page;
    }

    /// Whether the last page has been seen.
    pub fn is_done(&self) -> (r: bool)
        ensures
            r == self.spec_done(),
    {
        self.done
    }

    /// How many pages were fetched so far.
    pub fn pages_fetched(&self) -> (r: u32)
        ensures
            r == self.spec_fetched(),
    {
        self.fetched
    }

    /// Hand out everything accumulated, once the walk is complete.
    pub fn into_items(self) -> (r: Vec<T>)
        requires
            self.spec_done(),
        ensures
            r@ == self.spec_items(),
    {
        self.items
    }
}

/// A run over any sequence of pages accumulates exactly the concatenation
/// of the pages' items and counts one fetch per page.
pub proof fn lemma_page_run_accumulates<T>(pages: Seq<(Seq<T>, Meta)>)
    ensures
        page_run(pages).0 == pages.map_values(|p: (Seq<T>, Meta)| p.0).flatten(),
        page_run(pages).1 == pages.len(),
    decreases pages.len(),
{
    let f = |p: (Seq<T>, Meta)| p.0;
    let mapped = pages.map_values(f);
    if pages.len() == 0 {
        assert(mapped.len() == 0);
        assert(page_run(pages).0 =~= mapped.flatten());
    } else {
        lemma_page_run_accumulates(pages.drop_last());
        assert(pages.drop_last().map_values(f) =~= mapped.drop_last());
        assert(mapped.last() == pages.last().0);
        mapped.lemma_flatten_and_flatten_alt_are_equivalent();
        mapped.drop_last().lemma_flatten_and_flatten_alt_are_equivalent();
        assert(mapped.flatten_alt() == mapped.drop_last().flatten_alt() + mapped.last());
    }
}

/// The pagination invariant: over pages numbered 1..=k that all report
/// `last_page == k`, a run accumulates the concatenation of all k pages'
/// items in order, makes exactly k fetches, completes at the k-th page
/// and at no earlier one.
pub proof fn lemma_pagination_collects_all<T>(pages: Seq<(Seq<T>, Meta)>)
    requires
        pages.len() >= 1,
        forall|i: int| 0 <= i < pages.len() ==> (#[trigger] pages[i]).1.current_page as int == i + 1,
        forall|i: int| 0 <= i < pages.len() ==> (#[trigger] pages[i]).1.last_page as int == pages.len() as int,
    ensures
        page_run(pages).0 == pages.map_values(|p: (Seq<T>, Meta)| p.0).flatten(),
        page_run(pages).1 == pages.len(),
        page_run(pages).2,
        forall|k: int| 0 <= k < pages.len() ==> !page_run(#[trigger] pages.take(k)).2,
{
    lemma_page_run_accumulates(pages);
    assert(pages.last() == pages[pages.len() - 1]);
    assert(page_run(pages).2);
    assert forall|k: int| 0 <= k < pages.len() implies !page_run(#[trigger] pages.take(k)).2 by {
        if k > 0 {
            let taken = pages.take(k);
            assert(taken.last() == pages[k - 1]);
            assert(pages[k - 1].1.current_page as int == k);
            assert(pages[k - 1].1.last_page as int == pages.len() as int);
            assert(!page_run(taken).2);
        }
    }
}

} // verus!
