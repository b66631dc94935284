use base64::engine::general_purpose::STANDARD as BASE64_STANDARD;
use base64::Engine;
use identity_kerberos::token::decode_token;

#[test]
fn token_is_decoded() {
    assert_eq!(decode_token("aGVsbG8="), Some(b"hello".to_vec()));
    assert_eq!(decode_token("YWJj"), Some(b"abc".to_vec()));
    assert_eq!(decode_token(""), Some(vec![]));
    for bad in ["aGVsbG8", "aGVsbG8==", "a", "aGVs bG8=", "aGVsbG9=", "====", "é==="] {
        assert_eq!(decode_token(bad), None);
    }
}

#[test]
fn encoded_token_decodes() {
    let bytes: Vec<u8> = (0..=255u8).rev().collect();
    for len in 0..=bytes.len() {
        let text = BASE64_STANDARD.encode(&bytes[..len]);
        assert_eq!(text.len(), (len + 2) / 3 * 4);
        assert_eq!(decode_token(&text), Some(bytes[..len].to_vec()));
    }
}

#[test]
fn every_symbol_stands_for_its_number() {
    let symbols = "ABCDEFGHIJKLMNOPQRSTUVWXYZabcdefghijklmnopqrstuvwxyz0123456789+/";
    for (n, symbol) in symbols.chars().enumerate() {
        let text = format!("AAA{symbol}");
        assert_eq!(decode_token(&text), Some(vec![0, 0, n as u8]));
    }
}

#[test]
fn token_has_one_text() {
    // The last symbol before the padding holds no bits beyond the bytes.
    assert_eq!(decode_token("/w=="), Some(vec![0xff]));
    assert_eq!(decode_token("//8="), Some(vec![0xff, 0xff]));
    for bad in ["/x==", "//9=", "/w=", "/w", "/w==/w==", "//8=AAAA", "=AAA", "AA=A", "AA-_"] {
        assert_eq!(decode_token(bad), None);
    }
}
