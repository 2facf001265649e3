//! Model structs for the API's request and response bodies, plus the
//! query-parameter record for the card-listing endpoint.

pub mod address;
pub mod batch_upsert_catalog_objects_request;
pub mod card;
pub mod catalog_object;
pub mod catalog_object_batch;
pub mod customer;
pub mod customer_preferences;
pub mod customer_tax_ids;
pub mod errors;
pub mod list_cards_parameters;
pub mod search_customers_email_filter;
pub mod search_customers_text_filter;
pub mod sort_order;
