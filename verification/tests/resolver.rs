use wot_discovery::{resolve, u16_to_dec, Announcement, Error, ResolvedTarget};

fn announcement(addresses: Vec<&str>, properties: Vec<(&str, &str)>) -> Announcement {
    Announcement {
        addresses: addresses.into_iter().map(str::to_owned).collect(),
        port: 8080,
        hostname: "test.local.".to_owned(),
        properties: properties
            .into_iter()
            .map(|(k, v)| (k.to_owned(), v.to_owned()))
            .collect(),
    }
}

#[test]
fn empty_address_list_is_no_address() {
    let a = announcement(vec![], vec![]);
    let r = resolve(&a);
    assert!(matches!(r, Err(Error::NoAddress)));
}

#[test]
fn first_address_wins() {
    let a = announcement(vec!["192.168.0.9", "10.0.0.1"], vec![]);
    let t = resolve(&a).unwrap();
    assert_eq!(t.host, "192.168.0.9");
    assert_eq!(t.port, 8080);
}

#[test]
fn scheme_key_beats_legacy_tls() {
    let a = announcement(vec!["127.0.0.1"], vec![("scheme", "https"), ("tls", "0")]);
    let t = resolve(&a).unwrap();
    assert_eq!(t.scheme, "https");
}

#[test]
fn scheme_key_is_used_verbatim() {
    let a = announcement(vec!["127.0.0.1"], vec![("scheme", "coap")]);
    let t = resolve(&a).unwrap();
    assert_eq!(t.scheme, "coap");
}

#[test]
fn tls_one_resolves_to_https() {
    let a = announcement(vec!["127.0.0.1"], vec![("tls", "1")]);
    let t = resolve(&a).unwrap();
    assert_eq!(t.scheme, "https");
}

#[test]
fn tls_zero_resolves_to_http() {
    let a = announcement(vec!["127.0.0.1"], vec![("tls", "0")]);
    let t = resolve(&a).unwrap();
    assert_eq!(t.scheme, "http");
}

#[test]
fn malformed_tls_resolves_to_http() {
    let a = announcement(vec!["127.0.0.1"], vec![("tls", "yes")]);
    let t = resolve(&a).unwrap();
    assert_eq!(t.scheme, "http");
}

#[test]
fn absent_scheme_and_tls_resolve_to_http() {
    let a = announcement(vec!["127.0.0.1"], vec![]);
    let t = resolve(&a).unwrap();
    assert_eq!(t.scheme, "http");
}

#[test]
fn absent_td_uses_well_known_path() {
    let a = announcement(vec!["127.0.0.1"], vec![]);
    let t = resolve(&a).unwrap();
    assert_eq!(t.path, "/.well-known/wot");
}

#[test]
fn td_property_overrides_path() {
    let a = announcement(vec!["127.0.0.1"], vec![("td", "/things/lamp")]);
    let t = resolve(&a).unwrap();
    assert_eq!(t.path, "/things/lamp");
}

#[test]
fn url_has_scheme_host_port_path() {
    let t = ResolvedTarget {
        host: "127.0.0.1".to_owned(),
        port: 8080,
        path: "/.well-known/wot".to_owned(),
        scheme: "http".to_owned(),
    };
    assert_eq!(t.url(), "http://127.0.0.1:8080/.well-known/wot");
}

#[test]
fn port_renders_in_decimal() {
    assert_eq!(u16_to_dec(0), "0");
    assert_eq!(u16_to_dec(7), "7");
    assert_eq!(u16_to_dec(10), "10");
    assert_eq!(u16_to_dec(8080), "8080");
    assert_eq!(u16_to_dec(65535), "65535");
}

#[test]
fn property_lookup_is_first_match() {
    let a = announcement(vec!["127.0.0.1"], vec![("td", "/first"), ("td", "/second")]);
    let t = resolve(&a).unwrap();
    assert_eq!(t.path, "/first");
}

#[test]
fn property_keys_ignore_ascii_case() {
    let a = announcement(vec!["127.0.0.1"], vec![("TLS", "1")]);
    let t = resolve(&a).unwrap();
    assert_eq!(t.scheme, "https");

    let a = announcement(vec!["127.0.0.1"], vec![("TD", "/things/lamp")]);
    let t = resolve(&a).unwrap();
    assert_eq!(t.path, "/things/lamp");

    let a = announcement(vec!["127.0.0.1"], vec![("Scheme", "coaps")]);
    let t = resolve(&a).unwrap();
    assert_eq!(t.scheme, "coaps");
}

#[test]
fn property_values_keep_their_case() {
    // Only keys are case-insensitive: a tls value other than exactly "1"
    // falls back to http.
    let a = announcement(vec!["127.0.0.1"], vec![("tls", "TRUE")]);
    let t = resolve(&a).unwrap();
    assert_eq!(t.scheme, "http");
}

#[test]
fn lookup_value_misses_cleanly() {
    let pairs = vec![("scheme".to_owned(), "https".to_owned())];
    assert_eq!(wot_discovery::lookup_value(&pairs, "td"), None);
    assert_eq!(
        wot_discovery::lookup_value(&pairs, "scheme"),
        Some("https".to_owned())
    );
    assert_eq!(
        wot_discovery::lookup_value(&pairs, "SCHEME"),
        Some("https".to_owned())
    );
}
