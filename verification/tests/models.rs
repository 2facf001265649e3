use square_api_client::models::address::Address;
use square_api_client::models::batch_upsert_catalog_objects_request::BatchUpsertCatalogObjectsRequest;
use square_api_client::models::customer::Customer;
use square_api_client::models::search_customers_email_filter::SearchCustomersEmailAddressFilter;
use square_api_client::models::search_customers_text_filter::SearchCustomersTextFilter;

#[test]
fn default_address_is_entirely_unset() {
    let a = Address::default();
    assert_eq!(a.address_line_1, None);
    assert_eq!(a.address_line_2, None);
    assert_eq!(a.address_line_3, None);
    assert_eq!(a.locality, None);
    assert_eq!(a.sublocality, None);
    assert_eq!(a.administrative_district_level_1, None);
    assert_eq!(a.postal_code, None);
    assert_eq!(a.country, None);
}

#[test]
fn default_customer_is_entirely_unset() {
    let c = Customer::default();
    assert_eq!(c.id, None);
    assert_eq!(c.email_address, None);
    assert!(c.cards.is_none());
    assert!(c.address.is_none());
    assert!(c.preferences.is_none());
    assert!(c.tax_ids.is_none());
    assert_eq!(c.version, None);
}

#[test]
fn default_batch_upsert_request_is_empty() {
    let r = BatchUpsertCatalogObjectsRequest::default();
    assert_eq!(r.idempotency_key, None);
    assert!(r.batches.is_empty());
}

#[test]
fn email_filter_carries_the_text_filter() {
    let f = SearchCustomersEmailAddressFilter {
        email_address: Some(SearchCustomersTextFilter {
            exact: Some(String::from("a@example.com")),
            fuzzy: None,
        }),
    };
    let inner = f.email_address.unwrap();
    assert_eq!(inner.exact.as_deref(), Some("a@example.com"));
    assert_eq!(inner.fuzzy, None);
}
