//! Model struct for the Address type.

use vstd::prelude::*;

verus! {

/// A postal address in a country.
#[derive(Clone, Debug, Hash, PartialEq)]
pub struct Address {
    /// The first line of the address. Fields that start with `address_line`
    /// provide the address's most specific details, like street number,
    /// street name, and building name. They do *not* provide less specific
    /// details like city, state/province, or country.
    pub address_line_1: Option<String>,
    /// The second line of the address, if any.
    pub address_line_2: Option<String>,
    /// The third line of the address, if any.
    pub address_line_3: Option<String>,
    /// The city or town of the address.
    pub locality: Option<String>,
    /// A civil region within the address's `locality`, if any.
    pub sublocality: Option<String>,
    /// A civil entity within the address's country. In the US, this is the
    /// state.
    pub administrative_district_level_1: Option<String>,
    /// The address's postal code.
    pub postal_code: Option<String>,
    /// The country associated with another entity, such as a business, in
    /// ISO 3166-1-alpha-2 format.
    pub country: Option<String>,
}

impl Default for Address {
    fn default() -> (r: Self)
        ensures
            r.address_line_1 is None,
            r.address_line_2 is None,
            r.address_line_3 is None,
            r.locality is None,
            r.sublocality is None,
            r.administrative_district_level_1 is None,
            r.postal_code is None,
            r.country is None,
    {
        Address {
            address_line_1: None,
            address_line_2: None,
            address_line_3: None,
            locality: None,
            sublocality: None,
            administrative_district_level_1: None,
            postal_code: None,
            country: None,
        }
    }
}

} // verus!
