//! Model struct for the Card type.

use vstd::prelude::*;
use crate::models::address::Address;

verus! {

/// Payment details of a card stored on file for a customer profile.
#[derive(Clone, Debug, Hash, PartialEq)]
pub struct Card {
    /// The unique, server-assigned ID of the card.
    pub id: Option<String>,
    /// The billing address for this card.
    pub billing_address: Option<Address>,
    /// The name of the cardholder.
    pub cardholder_name: Option<String>,
    /// The ID of the customer created using the Customers API to be
    /// associated with the card.
    pub customer_id: Option<String>,
    /// Indicates whether or not a card can be used for payments.
    pub enabled: Option<bool>,
    /// The expiration month of the associated card as an integer between
    /// 1 and 12.
    pub exp_month: Option<i64>,
    /// The four-digit year of the card's expiration date.
    pub exp_year: Option<i64>,
    /// The last 4 digits of the card number.
    pub last_4: Option<String>,
    /// An optional user-defined reference ID that associates this card with
    /// another entity in an external system.
    pub reference_id: Option<String>,
    /// Current version number of the card. Increments with each card update.
    pub version: Option<i64>,
}

impl Default for Card {
    fn default() -> (r: Self)
        ensures
            r.id is None,
            r.billing_address is None,
            r.cardholder_name is None,
            r.customer_id is None,
            r.enabled is None,
            r.exp_month is None,
            r.exp_year is None,
            r.last_4 is None,
            r.reference_id is None,
            r.version is None,
    {
        Card {
            id: None,
            billing_address: None,
            cardholder_name: None,
            customer_id: None,
            enabled: None,
            exp_month: None,
            exp_year: None,
            last_4: None,
            reference_id: None,
            version: None,
        }
    }
}

} // verus!
