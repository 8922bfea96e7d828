use api_gateway::config::{
    listen_port, parse_port, python_service_base_url, resolve_top_k, upstream_url,
    API_KEY_HEADER, DEFAULT_PORT, DEFAULT_TOP_K, MAX_TOP_K, PORT_VARIABLE, PYTHON_ADD_DOC_ENDPOINT,
    PYTHON_ASK_ENDPOINT, PYTHON_DEFAULT_URL, PYTHON_URL_VARIABLE,
};

#[test]
fn constants_have_their_values() {
    assert_eq!(DEFAULT_TOP_K, 4);
    assert_eq!(MAX_TOP_K, 20);
    assert_eq!(API_KEY_HEADER, "X-API-KEY");
    assert_eq!(PYTHON_DEFAULT_URL, "http://127.0.0.1:8001");
    assert_eq!(PYTHON_ASK_ENDPOINT, "/ask");
    assert_eq!(PYTHON_ADD_DOC_ENDPOINT, "/add_doc");
    assert_eq!(PYTHON_URL_VARIABLE, "PYTHON_AI_URL");
    assert_eq!(PORT_VARIABLE, "RUST_API_PORT");
    assert_eq!(DEFAULT_PORT, 8000);
}

#[test]
fn top_k_zero_becomes_one() {
    assert_eq!(resolve_top_k(Some(0)), 1);
}

#[test]
fn top_k_255_is_clamped_to_20() {
    assert_eq!(resolve_top_k(Some(255)), 20);
}

#[test]
fn top_k_absent_is_4() {
    assert_eq!(resolve_top_k(None), 4);
}

#[test]
fn top_k_10_passes_through() {
    assert_eq!(resolve_top_k(Some(10)), 10);
}

#[test]
fn top_k_at_the_bounds() {
    assert_eq!(resolve_top_k(Some(1)), 1);
    assert_eq!(resolve_top_k(Some(20)), 20);
    assert_eq!(resolve_top_k(Some(21)), 20);
}

#[test]
fn top_k_is_always_in_range() {
    for k in 0u8..=255 {
        let resolved = resolve_top_k(Some(k));
        assert!(1 <= resolved && resolved <= 20);
        if 1 <= k && k <= 20 {
            assert_eq!(resolved, k);
        }
    }
}

#[test]
fn base_url_defaults() {
    assert_eq!(python_service_base_url(None), "http://127.0.0.1:8001");
}

#[test]
fn base_url_is_overridden() {
    assert_eq!(python_service_base_url(Some("http://ai:9000".to_string())), "http://ai:9000");
    assert_eq!(python_service_base_url(Some(String::new())), "");
}

#[test]
fn url_joins_base_and_endpoint() {
    assert_eq!(upstream_url("http://127.0.0.1:8001", "/ask"), "http://127.0.0.1:8001/ask");
    assert_eq!(upstream_url("http://127.0.0.1:8001", "/add_doc"), "http://127.0.0.1:8001/add_doc");
}

#[test]
fn url_drops_trailing_slashes_of_base() {
    assert_eq!(upstream_url("http://ai:9000/", "/ask"), "http://ai:9000/ask");
    assert_eq!(upstream_url("http://ai:9000///", "/ask"), "http://ai:9000/ask");
    assert_eq!(upstream_url("http://ai:9000/v1/", "/ask"), "http://ai:9000/v1/ask");
}

#[test]
fn url_of_degenerate_bases() {
    assert_eq!(upstream_url("", "/ask"), "/ask");
    assert_eq!(upstream_url("///", "/ask"), "/ask");
    assert_eq!(upstream_url("http://h\u{e9}/", ""), "http://h\u{e9}");
}

#[test]
fn port_is_parsed() {
    assert_eq!(parse_port("8000"), Some(8000));
    assert_eq!(parse_port("0"), Some(0));
    assert_eq!(parse_port("65535"), Some(65535));
    assert_eq!(parse_port("+8080"), Some(8080));
    assert_eq!(parse_port("0080"), Some(80));
}

#[test]
fn port_is_refused() {
    assert_eq!(parse_port(""), None);
    assert_eq!(parse_port("+"), None);
    assert_eq!(parse_port("-1"), None);
    assert_eq!(parse_port("65536"), None);
    assert_eq!(parse_port("99999999999"), None);
    assert_eq!(parse_port(" 80"), None);
    assert_eq!(parse_port("80 "), None);
    assert_eq!(parse_port("8o"), None);
    assert_eq!(parse_port("++80"), None);
    assert_eq!(parse_port("8_000"), None);
    assert_eq!(parse_port("\u{661}"), None);
}

#[test]
fn port_agrees_with_the_standard_parser() {
    for text in ["1", "65535", "65536", "655350", "+0", "+", "", "12a", "0000000001", "\u{663}"] {
        assert_eq!(parse_port(text), text.parse::<u16>().ok());
    }
}

#[test]
fn listen_port_falls_back_to_default() {
    assert_eq!(listen_port(None), 8000);
    assert_eq!(listen_port(Some("not a port")), 8000);
    assert_eq!(listen_port(Some("70000")), 8000);
    assert_eq!(listen_port(Some("9090")), 9090);
}
