//! Model struct for the Customer type.

use vstd::prelude::*;
use crate::models::address::Address;
use crate::models::card::Card;
use crate::models::customer_preferences::CustomerPreferences;
use crate::models::customer_tax_ids::CustomerTaxIds;

verus! {

/// A customer profile.
#[derive(Clone, Debug, Hash, PartialEq)]
pub struct Customer {
    /// A unique, server-assigned ID for the customer profile.
    pub id: Option<String>,
    /// The timestamp when the customer profile was created, in RFC 3339
    /// format.
    pub created_at: Option<String>,
    /// The timestamp when the customer profile was last updated, in RFC 3339
    /// format.
    pub updated_at: Option<String>,
    /// Payment details of the credit, debit, and gift cards stored on file
    /// for the customer profile. Deprecated in favour of the card-listing
    /// endpoints.
    pub cards: Option<Vec<Card>>,
    /// The given (i.e., first) name associated with the customer profile.
    pub given_name: Option<String>,
    /// The family (i.e., last) name associated with the customer profile.
    pub family_name: Option<String>,
    /// A nickname for the customer profile.
    pub nickname: Option<String>,
    /// A business name associated with the customer profile.
    pub company_name: Option<String>,
    /// The email address associated with the customer profile.
    pub email_address: Option<String>,
    /// The postal address associated with the customer profile.
    pub address: Option<Address>,
    /// The 11-digit phone number associated with the customer profile.
    pub phone_number: Option<String>,
    /// The birthday associated with the customer profile, in RFC 3339
    /// format. The year is optional; the timezone and time are not allowed.
    pub birthday: Option<String>,
    /// An optional second ID used to associate the customer profile with an
    /// entity in another system.
    pub reference_id: Option<String>,
    /// A custom note associated with the customer profile.
    pub note: Option<String>,
    /// Communication preferences for the customer profile.
    pub preferences: Option<CustomerPreferences>,
    /// The method used to create the customer profile.
    pub creation_source: Option<String>,
    /// The IDs of customer groups the customer belongs to.
    pub group_ids: Option<Vec<String>>,
    /// The IDs of segments the customer belongs to.
    pub segment_ids: Option<Vec<String>>,
    /// The server-assigned version number of the customer profile,
    /// incremented each time an update is committed.
    pub version: Option<i32>,
    /// The tax ID associated with the customer profile.
    pub tax_ids: Option<CustomerTaxIds>,
}

impl Default for Customer {
    fn default() -> (r: Self)
        ensures
            r.id is None,
            r.created_at is None,
            r.updated_at is None,
            r.cards is None,
            r.given_name is None,
            r.family_name is None,
            r.nickname is None,
            r.company_name is None,
            r.email_address is None,
            r.address is None,
            r.phone_number is None,
            r.birthday is None,
            r.reference_id is None,
            r.note is None,
            r.preferences is None,
            r.creation_source is None,
            r.group_ids is None,
            r.segment_ids is None,
            r.version is None,
            r.tax_ids is None,
    {
        Customer {
            id: None,
            created_at: None,
            updated_at: None,
            cards: None,
            given_name: None,
            family_name: None,
            nickname: None,
            company_name: None,
            email_address: None,
            address: None,
            phone_number: None,
            birthday: None,
            reference_id: None,
            note: None,
            preferences: None,
            creation_source: None,
            group_ids: None,
            segment_ids: None,
            version: None,
            tax_ids: None,
        }
    }
}

} // verus!
