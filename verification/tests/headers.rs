use square_api_client::http::headers::Headers;
use square_api_client::models::errors::ApiError;

#[test]
fn default_has_five_baseline_entries() {
    let h = Headers::default();
    assert_eq!(h.len(), 5);
    assert_eq!(h.get("Content-Type"), Some(&String::from("application/json")));
    assert_eq!(h.get("Square-Version"), Some(&String::from("2022-02-16")));
    assert_eq!(h.get("accept"), Some(&String::from("application/json")));
    assert!(h.get("user-agent").is_some());
    assert_eq!(h.get("Authorization"), Some(&String::from("Bearer ")));
}

#[test]
fn missing_credential_gives_bare_bearer_value() {
    assert_eq!(Headers::default_authorization(None), "Bearer ");
    let h = Headers::default();
    assert_eq!(h.get("Authorization"), Some(&String::from("Bearer ")));
}

#[test]
fn configured_credential_lands_in_authorization() {
    assert_eq!(Headers::default_authorization(Some("abc123")), "Bearer abc123");
    let h = Headers::with_config("my-agent/1.0", Some("tok"));
    assert_eq!(h.get("Authorization"), Some(&String::from("Bearer tok")));
    assert_eq!(h.get("user-agent"), Some(&String::from("my-agent/1.0")));
    assert_eq!(h.len(), 5);
}

#[test]
fn has_user_agent_checks_the_exact_key() {
    let h = Headers::default();
    assert!(h.has_user_agent());

    let mut empty = Headers::new();
    assert!(!empty.has_user_agent());
    empty.insert("User-Agent", "cased differently");
    assert!(!empty.has_user_agent());
    empty.insert("user-agent", "exact key");
    assert!(empty.has_user_agent());
}

#[test]
fn insert_returns_the_previous_value() {
    let mut h = Headers::new();
    assert_eq!(h.insert("x-flavour", "vanilla"), None);
    assert_eq!(h.insert("x-flavour", "pistachio"), Some(String::from("vanilla")));
    assert_eq!(h.get("x-flavour"), Some(&String::from("pistachio")));
    assert_eq!(h.len(), 1);
}

#[test]
fn set_user_agent_overwrites_the_default() {
    let mut h = Headers::default();
    let prev = h.set_user_agent("custom-agent/2.0");
    assert!(prev.is_some());
    assert_eq!(h.get("user-agent"), Some(&String::from("custom-agent/2.0")));
    assert_eq!(h.len(), 5);
}

#[test]
fn transport_form_keeps_every_valid_entry() {
    let mut h = Headers::new();
    h.insert("x-custom", "one");
    h.insert("x-other", "two words");
    let m = h.to_transport_form().expect("all entries are valid");
    assert_eq!(m.len(), 2);
    assert_eq!(m.get("x-custom").unwrap(), "one");
    assert_eq!(m.get("x-other").unwrap(), "two words");
}

#[test]
fn transport_form_lowercases_names() {
    let mut h = Headers::new();
    h.insert("X-Custom", "one");
    let m = h.to_transport_form().expect("a cased name is still valid");
    let names: Vec<&str> = m.keys().map(|k| k.as_str()).collect();
    assert_eq!(names, vec!["x-custom"]);
    assert_eq!(m.get("x-custom").unwrap(), "one");
}

#[test]
fn transport_form_of_default_headers_succeeds() {
    let h = Headers::default();
    let m = h.to_transport_form().expect("the baseline entries are valid");
    assert_eq!(m.len(), 5);
    assert_eq!(m.get("content-type").unwrap(), "application/json");
    assert_eq!(m.get("square-version").unwrap(), "2022-02-16");
    assert_eq!(m.get("accept").unwrap(), "application/json");
    assert_eq!(m.get("authorization").unwrap(), "Bearer ");
    assert!(m.get("user-agent").is_some());
}

#[test]
fn transport_form_reports_an_illegal_value_with_its_key() {
    let mut h = Headers::new();
    h.insert("x-fine", "ok");
    h.insert("x-bad", "control\u{0001}character");
    match h.to_transport_form() {
        Err(ApiError::InvalidHeaderValue { name, value }) => {
            assert_eq!(name, "x-bad");
            assert_eq!(value, "control\u{0001}character");
        }
        other => panic!("expected an invalid-value error, got {:?}", other),
    }
}

#[test]
fn transport_form_reports_an_illegal_name() {
    let mut h = Headers::new();
    h.insert("bad name", "value");
    let err = h.to_transport_form().expect_err("a name with a space is illegal");
    assert_eq!(err.header_name(), "bad name");
    match err {
        ApiError::InvalidHeaderName { name } => assert_eq!(name, "bad name"),
        other => panic!("expected an invalid-name error, got {:?}", other),
    }
}

#[test]
fn transport_form_rejects_an_empty_name() {
    let mut h = Headers::new();
    h.insert("", "value");
    match h.to_transport_form() {
        Err(ApiError::InvalidHeaderName { name }) => assert_eq!(name, ""),
        other => panic!("expected an invalid-name error, got {:?}", other),
    }
}

#[test]
fn transport_form_accepts_tab_and_high_characters_in_values() {
    let mut h = Headers::new();
    h.insert("x-note", "caf\u{00e9}\tau lait");
    let m = h.to_transport_form().expect("tab and non-ASCII bytes are legal");
    assert_eq!(
        m.get("x-note").unwrap().as_bytes(),
        "caf\u{00e9}\tau lait".as_bytes()
    );
}
