use speechlab::timefmt::utc_timestamp;

#[test]
fn epoch_and_day_end() {
    assert_eq!(utc_timestamp(0), "1970-01-01T00:00:00Z");
    assert_eq!(utc_timestamp(86399), "1970-01-01T23:59:59Z");
}

#[test]
fn leap_days_and_year_ends() {
    assert_eq!(utc_timestamp(951782400), "2000-02-29T00:00:00Z");
    assert_eq!(utc_timestamp(1709251199), "2024-02-29T23:59:59Z");
    assert_eq!(utc_timestamp(1735689599), "2024-12-31T23:59:59Z");
    assert_eq!(utc_timestamp(4102444800), "2100-01-01T00:00:00Z");
    assert_eq!(utc_timestamp(253402300799), "9999-12-31T23:59:59Z");
}
