use scout_sdk::urlencode;

#[test]
fn urlencode_passes_unreserved_through() {
    assert_eq!(urlencode("abc-XYZ_0.9~"), "abc-XYZ_0.9~");
}

#[test]
fn urlencode_escapes_reserved_bytes() {
    assert_eq!(urlencode("a b/c"), "a%20b%2Fc");
    assert_eq!(urlencode("é"), "%C3%A9");
}

#[test]
fn urlencode_escapes_percent_and_empty() {
    assert_eq!(urlencode("100%"), "100%25");
    assert_eq!(urlencode(""), "");
    assert_eq!(urlencode("?#&="), "%3F%23%26%3D");
}

#[test]
fn urlencode_decodes_back() {
    for s in ["a b/c?d#e", "é✓", "100%", "plain-ID_1.2~"] {
        let enc = urlencode(s);
        let b = enc.as_bytes();
        let mut out = Vec::new();
        let mut i = 0;
        while i < b.len() {
            if b[i] == b'%' {
                let h = std::str::from_utf8(&b[i + 1..i + 3]).unwrap();
                assert!(h.chars().all(|c| c.is_ascii_digit() || ('A'..='F').contains(&c)));
                out.push(u8::from_str_radix(h, 16).unwrap());
                i += 3;
            } else {
                out.push(b[i]);
                i += 1;
            }
        }
        assert_eq!(out, s.as_bytes());
    }
}
