//! Model struct for the CustomerPreferences type.

use vstd::prelude::*;

verus! {

/// Communication preferences for a customer profile.
#[derive(Clone, Debug, Hash, PartialEq)]
pub struct CustomerPreferences {
    /// Whether the customer has unsubscribed from marketing campaign emails.
    pub email_unsubscribed: Option<bool>,
}

impl Default for CustomerPreferences {
    fn default() -> (r: Self)
        ensures
            r.email_unsubscribed is None,
    {
        CustomerPreferences { email_unsubscribed: None }
    }
}

} // verus!
