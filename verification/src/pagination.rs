//! Pagination parameters shared by the list endpoints.

use vstd::prelude::*;

verus! {

/// Default page number when the query string does not name one.
pub fn one() -> (r: i64)
    ensures
        r == 1,
{
    1
}

/// Default page size when the query string does not name one.
pub fn ten() -> (r: i64)
    ensures
        r == 10,
{
    10
}

/// Query parameters for paginated listings. Both fields are semantically
/// validated to the inclusive range 1 ..= 100 before a handler sees them.
#[derive(Debug, PartialEq)]
pub struct Paginate {
    /// The page number to return (1-indexed).
    pub page: i64,
    /// The number of items to return per page.
    pub size: i64,
}

impl Paginate {
    /// Both fields inside the range that semantic validation admits.
    pub open spec fn in_range(&self) -> bool {
        1 <= self.page <= 100 && 1 <= self.size <= 100
    }

    /// Number of rows the listing query skips.
    pub fn offset(&self) -> (r: i64)
        requires
            self.in_range(),
        ensures
            r == (self.page - 1) * self.size,
    {
        proof {
            assert(0 <= (self.page - 1) * self.size <= 99 * 100) by (nonlinear_arith)
                requires
                    1 <= self.page <= 100 && 1 <= self.size <= 100,
            ;
        }
        (self.page - 1) * self.size
    }

    /// Number of rows the listing query returns at most.
    pub fn limit(&self) -> (r: i64)
        requires
            self.in_range(),
        ensures
            r == self.size,
    {
        self.size
    }
}

/// A path parameter naming one resource by id.
#[derive(Debug, PartialEq)]
pub struct IdInput {
    pub id: u128,
}

} // verus!
