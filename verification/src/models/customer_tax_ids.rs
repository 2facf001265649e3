//! Model struct for the CustomerTaxIds type.

use vstd::prelude::*;

verus! {

/// The tax ID associated with a customer profile. Available only for
/// customers of sellers in EU countries or the United Kingdom.
#[derive(Clone, Debug, Hash, PartialEq)]
pub struct CustomerTaxIds {
    /// The EU VAT identification number for the customer.
    pub eu_vat: Option<String>,
}

impl Default for CustomerTaxIds {
    fn default() -> (r: Self)
        ensures
            r.eu_vat is None,
    {
        CustomerTaxIds { eu_vat: None }
    }
}

} // verus!
