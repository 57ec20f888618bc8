//! The paginated version-listing protocol. The upstream endpoint hands
//! out at most [`PAGE_SIZE`] records per request and gives no explicit
//! "no more pages" signal, so termination is a heuristic: a full page is
//! taken to mean more data may exist, and a failed paginated request is
//! swallowed and treated as the end of the data. The host performs the
//! requests; this state machine makes every decision of the loop.

use vstd::prelude::*;

use crate::adoptium_api::{ReleaseVersion, ReleaseVersions};

verus! {

/// The most records one upstream page can carry.
pub const PAGE_SIZE: usize = 20;

/// What one paginated request came back as: a decoded page, or an
/// exhausted/failed request, which the protocol treats as the end of
/// the data rather than as an error.
pub enum PageOutcome {
    Page(ReleaseVersions),
    Exhausted,
}

/// The state of one version-listing collection run.
pub struct Pagination {
    /// Records accumulated so far, in upstream order.
    pub collected: Vec<ReleaseVersion>,
    /// The 0-based `page` parameter the next request would carry.
    pub next_page: u64,
    /// Whether the last page was full, so another request is due.
    pub more: bool,
}

impl Pagination {
    /// Internal bound tying the page counter to the records that the
    /// full pages before it must have contributed; it keeps the
    /// counter from ever overflowing.
    pub open spec fn wf(&self) -> bool {
        self.more ==> self.next_page as nat * (PAGE_SIZE as nat) <= self.collected@.len()
            + PAGE_SIZE
    }

    /// Starts a collection run from the unparameterized first request's
    /// records: they are kept whole, and a further request is due
    /// exactly when the first page was full.
    pub fn start(first: ReleaseVersions) -> (r: Pagination)
        ensures
            r.wf(),
            r.collected@ == first.versions@,
            r.more == (first.versions@.len() >= PAGE_SIZE),
            r.next_page == 1u64,
    {
        let more = first.versions.len() >= PAGE_SIZE;
        Pagination { collected: first.versions, next_page: 1, more }
    }

    /// Whether the loop should issue another paginated request.
    pub fn wants_more(&self) -> (r: bool)
        ensures
            r == self.more,
    {
        self.more
    }

    /// The 0-based page number the next request must carry.
    pub fn next_page_number(&self) -> (r: u64)
        ensures
            r == self.next_page,
    {
        self.next_page
    }

    /// Feeds the outcome of one paginated request in. A decoded page is
    /// appended whole and the full-page heuristic decides whether to go
    /// on; an exhausted or failed request ends the run with the records
    /// collected so far, and is not an error.
    pub fn step(&mut self, outcome: PageOutcome)
        requires
            old(self).wf(),
            old(self).more,
        ensures
            final(self).wf(),
            match outcome {
                PageOutcome::Page(page) => {
                    &&& final(self).collected@ == old(self).collected@ + page.versions@
                    &&& final(self).more == (page.versions@.len() >= PAGE_SIZE)
                    &&& final(self).next_page == old(self).next_page + 1
                },
                PageOutcome::Exhausted => {
                    &&& final(self).collected@ == old(self).collected@
                    &&& !final(self).more
                    &&& final(self).next_page == old(self).next_page
                },
            },
    {
        match outcome {
            PageOutcome::Page(mut page) => {
                let full = page.versions.len() >= PAGE_SIZE;
                self.collected.append(&mut page.versions);
                let total = self.collected.len();
                proof {
                    assert(old(self).collected@.len() <= total as nat);
                    assert(old(self).next_page as nat * (PAGE_SIZE as nat) <= total as nat
                        + PAGE_SIZE);
                }
                self.next_page = self.next_page + 1;
                self.more = full;
            },
            PageOutcome::Exhausted => {
                self.more = false;
            },
        }
    }

    /// Hands the accumulated records out, in upstream order.
    pub fn finish(self) -> (r: ReleaseVersions)
        ensures
            r.versions@ == self.collected@,
    {
        ReleaseVersions { versions: self.collected }
    }
}

} // verus!
