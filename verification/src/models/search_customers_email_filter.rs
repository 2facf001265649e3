//! Model struct for the SearchCustomersEmailAddressFilter type.

use vstd::prelude::*;
use crate::models::search_customers_text_filter::SearchCustomersTextFilter;

verus! {

/// A filter to select customers by their email address. This filter is
/// case-insensitive on the server side.
///
/// There are two kinds of searches available for text attributes: exact and
/// fuzzy; the inner filter chooses between them.
#[derive(Clone, Debug, PartialEq)]
pub struct SearchCustomersEmailAddressFilter {
    /// The text filter applied to the email address attribute.
    pub email_address: Option<SearchCustomersTextFilter>,
}

impl Default for SearchCustomersEmailAddressFilter {
    fn default() -> (r: Self)
        ensures
            r.email_address is None,
    {
        SearchCustomersEmailAddressFilter { email_address: None }
    }
}

} // verus!
