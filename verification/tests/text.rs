use identity_kerberos::attributes::Attributes;
use identity_kerberos::text::{
    chars_of, decimal, eq_ignore_ascii_case, eq_text, hex, is_blank, to_ascii_lower,
};

#[test]
fn blankness_is_that_of_trimming() {
    for n in 0..=0x10FFFFu32 {
        if let Some(c) = char::from_u32(n) {
            let s = c.to_string();
            assert_eq!(is_blank(&s), s.trim().is_empty(), "{n:x}");
        }
    }
    for s in ["", "  ", "\t\r\n", " a ", "a", "\u{3000} \u{A0}"] {
        assert_eq!(is_blank(s), s.trim().is_empty());
    }
}

#[test]
fn lower_case_is_ascii() {
    for n in 0..=0x2FFu32 {
        if let Some(c) = char::from_u32(n) {
            assert_eq!(to_ascii_lower(c), c.to_ascii_lowercase());
        }
    }
}

#[test]
fn comparisons_agree_with_str() {
    let samples = ["", "a", "A", "ab", "aB", "AB", "é", "É", "k", "\u{212A}"];
    for a in samples {
        for b in samples {
            assert_eq!(eq_text(a, b), a == b);
            assert_eq!(eq_ignore_ascii_case(a, b), a.eq_ignore_ascii_case(b));
        }
    }
    assert_eq!(chars_of("aé"), vec!['a', 'é']);
}

#[test]
fn numerals_agree_with_format() {
    for n in [0usize, 7, 9, 10, 26, 99, 100, 12345, usize::MAX] {
        assert_eq!(decimal(n), format!("{n}"));
    }
    for n in [0u32, 1, 15, 16, 0xd0000, 0xdeadbeef, u32::MAX] {
        assert_eq!(hex(n, 8), format!("{n:08x}"));
    }
    assert_eq!(hex(0xabc, 2), "bc");
    assert_eq!(hex(0xabc, 0), "");
    let wide = hex(0xabc, 2_000_000);
    assert_eq!(wide.len(), 2_000_000);
    assert!(wide.ends_with("0abc") && wide.starts_with("0000"));
}

#[test]
fn attributes_stay_in_order() {
    let mut attributes = Attributes::new();
    for (k, v) in [("realm", "1"), ("a", "2"), ("principal", "3"), ("ab", "4"), ("a", "5")] {
        attributes.insert(k.to_owned(), v.to_owned());
    }
    let listed: Vec<(&str, &str)> = attributes
        .entries()
        .iter()
        .map(|(k, v)| (k.as_str(), v.as_str()))
        .collect();
    assert_eq!(
        listed,
        vec![("a", "5"), ("ab", "4"), ("principal", "3"), ("realm", "1")]
    );
    assert_eq!(attributes.get("ab"), Some("4"));
    assert_eq!(attributes.get("b"), None);
}

#[test]
fn attributes_are_ordered_as_a_tree_map() {
    let keys = ["é", "z", "", "aa", "a", "Z", "\u{10000}", "\u{FFFF}"];
    let mut attributes = Attributes::new();
    let mut map = std::collections::BTreeMap::new();
    for k in keys {
        attributes.insert(k.to_owned(), k.to_owned());
        map.insert(k.to_owned(), k.to_owned());
    }
    let expected: Vec<(String, String)> = map.into_iter().collect();
    assert_eq!(attributes.entries(), &expected);
}
