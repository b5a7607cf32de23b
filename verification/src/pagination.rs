//! Page/size selection for list queries. The sentinel value `-1` in both
//! fields marks an unlimited (no paging) request; `get_safety` clamps both
//! fields up to at least 1 before they are used in a query.

use vstd::prelude::*;

verus! {

#[derive(Clone, Copy, Debug)]
pub struct Pagination {
    page: i64,
    size: i64,
}

impl Pagination {
    pub closed spec fn spec_page(&self) -> i64 {
        self.page
    }

    pub closed spec fn spec_size(&self) -> i64 {
        self.size
    }

    pub fn new(page: i64, size: i64) -> (r: Self)
        ensures
            r.spec_page() == page,
            r.spec_size() == size,
    {
        Self { page, size }
    }

    pub fn unlimited() -> (r: Self)
        ensures
            r.spec_page() == -1,
            r.spec_size() == -1,
    {
        Self { page: -1, size: -1 }
    }

    pub fn is_unlimited(&self) -> (r: bool)
        ensures
            r == (self.spec_page() == -1 && self.spec_size() == -1),
    {
        self.page == -1 && self.size == -1
    }

    /// Get safety page and size. (page, size)
    pub fn get_safety(&self) -> (r: (i64, i64))
        ensures
            r.0 == if self.spec_page() >= 1 { self.spec_page() } else { 1i64 },
            r.1 == if self.spec_size() >= 1 { self.spec_size() } else { 1i64 },
    {
        let page: i64 = if self.page >= 1 { self.page } else { 1 };
        let size: i64 = if self.size >= 1 { self.size } else { 1 };
        (page, size)
    }
}

} // verus!
