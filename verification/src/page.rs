//! Pagination values exchanged with the listing collaborator.

use vstd::prelude::*;

verus! {

/// A one-based page request.
#[derive(Debug, Clone, Copy)]
pub struct Page {
    /// One-based page number.
    pub page: u32,
    /// Records per page.
    pub size: u32,
}

impl Page {
    /// How many records precede the requested page.
    pub fn offset(&self) -> (r: i64)
        requires
            (self.page as int - 1) * (self.size as int) <= i64::MAX,
        ensures
            r == (self.page as int - 1) * (self.size as int),
    {
        proof {
            let p = self.page as int;
            let s = self.size as int;
            assert((p - 1) * s >= -s) by (nonlinear_arith)
                requires
                    p >= 0,
                    s >= 0,
            ;
        }
        (self.page as i64 - 1) * self.size as i64
    }

    /// How many records the requested page holds at most.
    pub fn limit(&self) -> (r: i64)
        ensures
            r == self.size as int,
    {
        self.size as i64
    }
}

/// One page of records together with the total count.
#[derive(Debug)]
pub struct PageResult<T> {
    /// One-based page number of this page.
    pub page: u32,
    /// Requested records per page.
    pub size: u32,
    /// Total records matching the query, across all pages.
    pub total: u64,
    /// The records of this page.
    pub records: Vec<T>,
}

impl<T> PageResult<T> {
    /// Package the records of one page.
    pub fn new(page: &Page, total: u64, records: Vec<T>) -> (r: PageResult<T>)
        ensures
            r.page == page.page,
            r.size == page.size,
            r.total == total,
            r.records@ == records@,
    {
        PageResult { page: page.page, size: page.size, total, records }
    }

    /// An empty result for a page request.
    pub fn empty(page: &Page) -> (r: PageResult<T>)
        ensures
            r.page == page.page,
            r.size == page.size,
            r.total == 0,
            r.records@.len() == 0,
    {
        PageResult { page: page.page, size: page.size, total: 0, records: Vec::new() }
    }
}

} // verus!
