//! Sort order for list endpoints.

use vstd::prelude::*;

verus! {

/// The order in which results are returned by a list endpoint.
#[derive(Clone, Copy, Debug, PartialEq, Eq, Structural)]
pub enum SortOrder {
    /// Oldest first.
    Asc,
    /// Newest first.
    Desc,
}

/// The wire form of a sort order, as it appears in a query string.
pub open spec fn sort_order_chars(o: SortOrder) -> Seq<char> {
    match o {
        SortOrder::Asc => "ASC"@,
        SortOrder::Desc => "DESC"@,
    }
}

impl Default for SortOrder {
    fn default() -> (r: Self)
        ensures
            r == SortOrder::Asc,
    {
        SortOrder::Asc
    }
}

impl SortOrder {
    /// The wire form of this sort order.
    pub fn as_str(&self) -> (r: &'static str)
        ensures
            r@ == sort_order_chars(*self),
    {
        match self {
            SortOrder::Asc => "ASC",
            SortOrder::Desc => "DESC",
        }
    }
}

} // verus!
