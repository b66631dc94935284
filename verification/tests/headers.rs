use identity_kerberos::headers::{find_negotiate, lookup_header, strip_negotiate_prefix};

fn headers(pairs: &[(&str, &str)]) -> Vec<(String, String)> {
    pairs
        .iter()
        .map(|(n, v)| (n.to_string(), v.to_string()))
        .collect()
}

#[test]
fn first_header_of_a_name_wins() {
    let h = headers(&[("Host", "gw"), ("AUTHORIZATION", "one"), ("authorization", "two")]);
    assert_eq!(lookup_header(&h, "authorization"), Some("one"));
    assert_eq!(lookup_header(&h, "Authorization"), Some("one"));
    assert_eq!(lookup_header(&h, "hosT"), Some("gw"));
    assert_eq!(lookup_header(&h, "host "), None);
    assert_eq!(lookup_header(&[], "authorization"), None);
}

#[test]
fn case_folds_ascii_only() {
    let h = headers(&[("K", "kelvin"), ("É", "capital")]);
    assert_eq!(lookup_header(&h, "\u{212A}"), None);
    assert_eq!(lookup_header(&h, "k"), Some("kelvin"));
    assert_eq!(lookup_header(&h, "é"), None);
}

#[test]
fn scheme_is_stripped_in_any_case() {
    assert_eq!(strip_negotiate_prefix("Negotiate abc"), Some("abc"));
    assert_eq!(strip_negotiate_prefix("nEGOTIATE abc"), Some("abc"));
    assert_eq!(strip_negotiate_prefix("Negotiate  abc"), Some(" abc"));
    assert_eq!(strip_negotiate_prefix("Negotiate "), Some(""));
    assert_eq!(strip_negotiate_prefix("Negotiate é"), Some("é"));
    assert_eq!(strip_negotiate_prefix("Negotiate"), None);
    assert_eq!(strip_negotiate_prefix("Negotiate\tabc"), None);
    assert_eq!(strip_negotiate_prefix("Negotiated abc"), None);
    assert_eq!(strip_negotiate_prefix("Negotiaté abc"), None);
    assert_eq!(strip_negotiate_prefix("Basic abc"), None);
    assert_eq!(strip_negotiate_prefix(""), None);
}

#[test]
fn token_text_is_found() {
    let h = headers(&[("Authorization", "Negotiate YWJj")]);
    assert_eq!(find_negotiate(&h), Some("YWJj"));
    let h = headers(&[("Authorization", "Negotiate ")]);
    assert_eq!(find_negotiate(&h), None);
    let h = headers(&[("Authorization", "Basic x"), ("Authorization", "Negotiate YWJj")]);
    assert_eq!(find_negotiate(&h), None);
}
