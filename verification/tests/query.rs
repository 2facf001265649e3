use square_api_client::models::list_cards_parameters::ListCardsParameters;
use square_api_client::models::sort_order::SortOrder;

#[test]
fn empty_record_formats_to_the_empty_string() {
    let p = ListCardsParameters::default();
    assert_eq!(p.to_query_string(), "");
}

#[test]
fn only_include_disabled_formats_to_a_single_flag() {
    let p = ListCardsParameters { include_disabled: true, ..ListCardsParameters::default() };
    assert_eq!(p.to_query_string(), "?include_disabled=true");
}

#[test]
fn default_sort_order_is_omitted() {
    let p = ListCardsParameters {
        cursor: String::from("abc"),
        sort_order: SortOrder::Asc,
        ..ListCardsParameters::default()
    };
    assert_eq!(p.to_query_string(), "?cursor=abc");
}

#[test]
fn all_non_default_fields_appear_in_fixed_order() {
    let p = ListCardsParameters {
        cursor: String::from("c1"),
        customer_id: String::from("cu22"),
        include_disabled: true,
        reference_id: String::from("r33"),
        sort_order: SortOrder::Desc,
    };
    assert_eq!(
        p.to_query_string(),
        "?cursor=c1&customer_id=cu22&include_disabled=true&reference_id=r33&sort_order=DESC"
    );
}

#[test]
fn descending_sort_alone_is_emitted() {
    let p = ListCardsParameters { sort_order: SortOrder::Desc, ..ListCardsParameters::default() };
    assert_eq!(p.to_query_string(), "?sort_order=DESC");
}

#[test]
fn values_are_not_url_encoded() {
    let p = ListCardsParameters {
        cursor: String::from("a b&c=d"),
        ..ListCardsParameters::default()
    };
    assert_eq!(p.to_query_string(), "?cursor=a b&c=d");
}

#[test]
fn sort_order_wire_forms() {
    assert_eq!(SortOrder::Asc.as_str(), "ASC");
    assert_eq!(SortOrder::Desc.as_str(), "DESC");
    assert_eq!(SortOrder::default(), SortOrder::Asc);
}
