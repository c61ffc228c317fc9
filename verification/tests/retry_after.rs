use scout_sdk::retry_after_value;

#[test]
fn retry_after_numbers_are_kept_as_written() {
    assert_eq!(retry_after_value("3", 0).as_deref(), Some("3"));
    assert_eq!(retry_after_value("  2.5\t", 0).as_deref(), Some("2.5"));
    assert_eq!(retry_after_value("soon", 0), None);
    assert_eq!(retry_after_value("", 0), None);
}

#[test]
fn retry_after_number_syntax_agrees_with_f64_parsing() {
    let cases = [
        "0", "10", "1.5", ".5", "5.", "+5", "-5", "1e3", "1E-3", "2.5e+2", "inf", "-Infinity",
        "NaN", "nan", ".", "", "+", "e5", "1e", "1e+", "1.2.3", "1_000", "infinit", "0x10", "1 2",
        "١٢",
    ];
    for c in cases {
        let ours = retry_after_value(c, 0);
        let std_ok = c.trim().parse::<f64>().is_ok();
        assert_eq!(ours.is_some(), std_ok, "{c:?}");
        if std_ok {
            assert_eq!(ours.as_deref(), Some(c.trim()));
        }
    }
}

#[test]
fn retry_after_dates_become_seconds_from_now() {
    let date = "Wed, 21 Oct 2026 07:28:00 GMT";
    let at = 1_792_567_680u64;
    assert_eq!(retry_after_value(date, at - 120).as_deref(), Some("120"));
    assert_eq!(retry_after_value(date, at).as_deref(), Some("0"));
    assert_eq!(retry_after_value(date, at + 5).as_deref(), Some("0"));
    assert_eq!(
        retry_after_value(" Sun, 06 Nov 1994 08:49:37 GMT ", 784_111_777 - 7).as_deref(),
        Some("7")
    );
    assert_eq!(
        retry_after_value("Thu, 29 Feb 2024 00:00:00 GMT", 1_709_164_800 - 1).as_deref(),
        Some("1")
    );
    assert_eq!(
        retry_after_value("Fri, 31 Dec 9999 23:59:59 GMT", 0).as_deref(),
        Some("253402300799")
    );
    assert_eq!(retry_after_value("Sat, 01 Jan 1960 00:00:00 GMT", 0).as_deref(), Some("0"));
}

#[test]
fn retry_after_rejects_malformed_dates() {
    assert_eq!(retry_after_value("Thu, 30 Feb 2024 00:00:00 GMT", 0), None);
    assert_eq!(retry_after_value("Thu, 29 Feb 2023 00:00:00 GMT", 0), None);
    assert_eq!(retry_after_value("Wed, 21 Oct 2026 24:00:00 GMT", 0), None);
    assert_eq!(retry_after_value("Wed, 21 Oct 2026 07:28:00 UTC", 0), None);
    assert_eq!(retry_after_value("Xyz, 21 Oct 2026 07:28:00 GMT", 0), None);
    assert_eq!(retry_after_value("Wed, 21 Okt 2026 07:28:00 GMT", 0), None);
    assert_eq!(retry_after_value("Wednesday, 21-Oct-26 07:28:00 GMT", 0), None);
}
