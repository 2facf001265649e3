//! Model struct for the SearchCustomersTextFilter type.

use vstd::prelude::*;

verus! {

/// A filter to select customers by a text attribute, either exactly or
/// fuzzily.
#[derive(Clone, Debug, Hash, PartialEq)]
pub struct SearchCustomersTextFilter {
    /// The attribute must match the specified text exactly.
    pub exact: Option<String>,
    /// The attribute must match the specified text fuzzily.
    pub fuzzy: Option<String>,
}

impl Default for SearchCustomersTextFilter {
    fn default() -> (r: Self)
        ensures
            r.exact is None,
            r.fuzzy is None,
    {
        SearchCustomersTextFilter { exact: None, fuzzy: None }
    }
}

} // verus!
