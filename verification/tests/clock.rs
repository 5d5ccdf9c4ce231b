use rad_preview::clock::{dur_to_hms, to_decimal};

#[test]
fn decimal_digits() {
    assert_eq!(to_decimal(0), "0");
    assert_eq!(to_decimal(7), "7");
    assert_eq!(to_decimal(10), "10");
    assert_eq!(to_decimal(105), "105");
    assert_eq!(to_decimal(12345), "12345");
    assert_eq!(to_decimal(u64::MAX), "18446744073709551615");
}

#[test]
fn clock_zero() {
    assert_eq!(dur_to_hms(0), "00:00:00");
}

#[test]
fn clock_parts_carry() {
    assert_eq!(dur_to_hms(59), "00:00:59");
    assert_eq!(dur_to_hms(60), "00:01:00");
    assert_eq!(dur_to_hms(3599), "00:59:59");
    assert_eq!(dur_to_hms(3600), "01:00:00");
    assert_eq!(dur_to_hms(3661), "01:01:01");
    assert_eq!(dur_to_hms(86399), "23:59:59");
}

#[test]
fn clock_hours_keep_growing() {
    // Hours are not wrapped at a day; they just grow wider.
    assert_eq!(dur_to_hms(86400), "24:00:00");
    assert_eq!(dur_to_hms(360000), "100:00:00");
    assert_eq!(dur_to_hms(360000 * 100 + 754), "10000:12:34");
}

#[test]
fn clock_matches_padded_rendering() {
    let samples: [u64; 8] = [0, 1, 61, 3725, 45296, 99999, 123456789, u64::MAX];
    for s in samples {
        let expected = format!("{:0>2}:{:0>2}:{:0>2}", s / 60 / 60, (s / 60) % 60, s % 60);
        assert_eq!(dur_to_hms(s), expected, "seconds {}", s);
    }
}
