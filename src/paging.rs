//! Walking a paginated listing: which page to ask for next, when to stop, and
//! what the walk gathered.
use vstd::prelude::*;
use crate::text::{decimal, u64_text};

verus! {

/// The number of items asked for on each page.
pub const PAGE_SIZE: u64 = 100;

/// Where a page walk stands.
pub enum WalkState {
    /// More pages are to be fetched.
    Running,
    /// The last page has been read.
    Done,
    /// A page could not be fetched or decoded; the walk stopped there.
    Failed(String),
}

/// A walk over the pages of one listing. The caller fetches each URL that
/// `next_url` gives and hands back either the decoded page or the failure.
pub struct PageWalk<T> {
    /// The listing's URL without paging parameters.
    pub template: String,
    /// Whether `template` already carries a query string.
    pub has_query: bool,
    /// Items asked for per page.
    pub per_page: u64,
    /// The number of pages asked for so far.
    pub page: u64,
    /// The items of the pages read so far, in order.
    pub items: Vec<T>,
    pub state: WalkState,
}

/// `{template}{? or &}per_page={per_page}&page={page}`.
pub open spec fn page_url(template: Seq<char>, has_query: bool, per_page: nat, page: nat) -> Seq<char> {
    template + (if has_query { "&"@ } else { "?"@ }) + "per_page="@ + decimal(per_page) + "&page="@
        + decimal(page)
}

/// The stopping rule: the walk ends after a page that holds no more items
/// than were asked for.
pub open spec fn is_last_page(len: nat, per_page: nat) -> bool {
    len <= per_page
}

impl<T> PageWalk<T> {
    /// A walk over `template`, asking for `PAGE_SIZE` items per page, before
    /// any page has been fetched.
    pub fn new(template: String, has_query: bool) -> (r: PageWalk<T>)
        ensures
            r.template == template,
            r.has_query == has_query,
            r.per_page == PAGE_SIZE,
            r.page == 0,
            r.items@.len() == 0,
            r.state is Running,
    {
        PageWalk { template, has_query, per_page: PAGE_SIZE, page: 0, items: Vec::new(), state: WalkState::Running }
    }

    /// Whether more pages are to be fetched.
    pub fn is_running(&self) -> (r: bool)
        ensures
            r == (self.state is Running),
    {
        match self.state {
            WalkState::Running => true,
            _ => false,
        }
    }

    /// Moves to the next page and returns its URL.
    pub fn next_url(&mut self) -> (r: String)
        requires
            old(self).state is Running,
            old(self).page < u64::MAX,
        ensures
            final(self).page == old(self).page + 1,
            final(self).template == old(self).template,
            final(self).has_query == old(self).has_query,
            final(self).per_page == old(self).per_page,
            final(self).items == old(self).items,
            final(self).state == old(self).state,
            r@ == page_url(old(self).template@, old(self).has_query, old(self).per_page as nat, final(self).page as nat),
    {
        self.page = self.page + 1;
        let mut r = self.template.clone();
        if self.has_query {
            r.append("&");
        } else {
            r.append("?");
        }
        r.append("per_page=");
        let n = u64_text(self.per_page);
        r.append(n.as_str());
        r.append("&page=");
        let p = u64_text(self.page);
        r.append(p.as_str());
        proof {
            assert(r@ =~= page_url(self.template@, self.has_query, self.per_page as nat, self.page as nat));
        }
        r
    }

    /// Takes in the decoded items of the current page. The walk ends when the
    /// page holds no more than `per_page` items.
    pub fn accept_page(&mut self, page_items: Vec<T>)
        requires
            old(self).state is Running,
        ensures
            final(self).items@ == old(self).items@ + page_items@,
            is_last_page(page_items@.len(), old(self).per_page as nat) ==> final(self).state is Done,
            !is_last_page(page_items@.len(), old(self).per_page as nat) ==> final(self).state is Running,
            final(self).page == old(self).page,
            final(self).template == old(self).template,
            final(self).has_query == old(self).has_query,
            final(self).per_page == old(self).per_page,
    {
        let len = page_items.len();
        let mut page_items = page_items;
        self.items.append(&mut page_items);
        if len as u64 <= self.per_page {
            self.state = WalkState::Done;
        }
    }

    /// Records that the current page could not be fetched or decoded; the
    /// walk stops.
    pub fn fail(&mut self, message: String)
        requires
            old(self).state is Running,
        ensures
            final(self).state == WalkState::Failed(message),
            final(self).items == old(self).items,
            final(self).page == old(self).page,
            final(self).template == old(self).template,
            final(self).has_query == old(self).has_query,
            final(self).per_page == old(self).per_page,
    {
        self.state = WalkState::Failed(message);
    }

    /// What a finished walk gathered: every item read, or the failure that
    /// stopped it, in which case the items read before are dropped.
    pub fn finish(self) -> (r: Result<Vec<T>, String>)
        requires
            !(self.state is Running),
        ensures
            self.state is Done ==> r == Ok::<Vec<T>, String>(self.items),
            self.state is Failed ==> r == Err::<Vec<T>, String>(self.state->Failed_0),
    {
        match self.state {
            WalkState::Failed(m) => Err(m),
            _ => Ok(self.items),
        }
    }
}

} // verus!
