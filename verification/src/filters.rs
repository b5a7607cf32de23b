//! Query filters for list endpoints.

use vstd::prelude::*;

verus! {

/// Filter for the auto-pay listing: restrict to records created by one
/// user, or leave unset to list all.
#[derive(Debug, Default, Clone, Copy)]
pub struct GetAutoPayListFilter {
    created_by: Option<i64>,
}

impl GetAutoPayListFilter {
    pub closed spec fn spec_created_by(&self) -> Option<i64> {
        self.created_by
    }

    pub fn new(created_by: Option<i64>) -> (r: Self)
        ensures
            r.spec_created_by() == created_by,
    {
        GetAutoPayListFilter { created_by }
    }

    pub fn created_by(&self) -> (r: Option<i64>)
        ensures
            r == self.spec_created_by(),
    {
        self.created_by
    }
}

} // verus!
