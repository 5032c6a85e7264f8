use braiinspool_bot::util::{
    clamp_second, format_date, format_number, format_sats, format_th, push_decimal, push_grouped,
    rendered_or_empty, FIRST_SECOND, LAST_SECOND,
};

fn format_gh_to_th(amount: f64) -> String {
    format_th((amount / 1000.0) as usize as u64)
}

fn format_btc_to_sats(amount: f64) -> String {
    format_sats((amount * 100_000_000.0) as u64)
}

#[test]
fn test_format_date() {
    assert_eq!(format_date(1646649012, "%Y-%m-%d"), "2022-03-07".to_string());
}

#[test]
fn format_num() {
    assert_eq!(format_number(180000), "180,000".to_string());
}

#[test]
fn test_format_gh_to_th() {
    assert_eq!(format_gh_to_th(1000.0), "1 Th/s".to_string());
    assert_eq!(format_gh_to_th(1000000.0), "1,000 Th/s".to_string());
    assert_eq!(format_gh_to_th(5820970883.3011), "5,820,970 Th/s".to_string());
}

#[test]
fn format_satoshi() {
    assert_eq!(format_sats(100), "100 SAT".to_string());
    assert_eq!(format_sats(1000), "1,000 SAT".to_string());
    assert_eq!(format_sats(10000), "10,000 SAT".to_string());
    assert_eq!(format_sats(100000), "100,000 SAT".to_string());
    assert_eq!(format_sats(1000000), "1,000,000 SAT".to_string());
    assert_eq!(format_sats(1000000000), "1,000,000,000 SAT".to_string());
}

#[test]
fn format_btc_to_satoshi() {
    assert_eq!(format_btc_to_sats(0.00000001), "1 SAT".to_string());
    assert_eq!(format_btc_to_sats(0.00001), "1,000 SAT".to_string());
    assert_eq!(format_btc_to_sats(0.0001), "10,000 SAT".to_string());
    assert_eq!(format_btc_to_sats(0.001), "100,000 SAT".to_string());
    assert_eq!(format_btc_to_sats(0.01), "1,000,000 SAT".to_string());
    assert_eq!(format_btc_to_sats(1.0), "100,000,000 SAT".to_string());
    assert_eq!(format_btc_to_sats(10.0), "1,000,000,000 SAT".to_string());
}

#[test]
fn format_number_below_a_thousand_is_plain() {
    assert_eq!(format_number(0), "0");
    assert_eq!(format_number(7), "7");
    assert_eq!(format_number(42), "42");
    assert_eq!(format_number(999), "999");
}

#[test]
fn format_number_groups_from_the_right() {
    assert_eq!(format_number(1000), "1,000");
    assert_eq!(format_number(1001), "1,001");
    assert_eq!(format_number(10_020), "10,020");
    assert_eq!(format_number(1_000_000), "1,000,000");
    assert_eq!(format_number(1_234_567), "1,234,567");
    assert_eq!(format_number(4_294_967_295), "4,294,967,295");
}

#[test]
fn format_sats_of_the_largest_amount() {
    assert_eq!(format_sats(u64::MAX), "18,446,744,073,709,551,615 SAT");
    assert_eq!(format_sats(0), "0 SAT");
}

#[test]
fn format_th_appends_the_unit() {
    assert_eq!(format_th(0), "0 Th/s");
    assert_eq!(format_th(999), "999 Th/s");
    assert_eq!(format_th(5_820_970), "5,820,970 Th/s");
}

#[test]
fn grouped_number_reads_back() {
    let numbers: [usize; 12] = [
        0, 1, 9, 10, 999, 1000, 1001, 12_345, 100_000, 999_999, 1_000_000, 4_294_967_295,
    ];
    for n in numbers {
        let grouped = format_number(n);
        let plain: String = grouped.chars().filter(|c| *c != ',').collect();
        assert_eq!(plain.parse::<usize>().unwrap(), n);
        assert_eq!(plain, n.to_string());
    }
}

#[test]
fn push_decimal_appends_plain_digits() {
    let mut text = String::from("n=");
    push_decimal(&mut text, 1_234_567);
    assert_eq!(text, "n=1234567");
    push_decimal(&mut text, 0);
    assert_eq!(text, "n=12345670");
}

#[test]
fn push_grouped_appends_to_what_is_there() {
    let mut text = String::from("n=");
    push_grouped(&mut text, 1_000_000);
    assert_eq!(text, "n=1,000,000");
}

#[test]
fn format_date_with_time_of_day() {
    assert_eq!(format_date(1646649012, "%Y-%m-%d %H:%M:%S"), "2022-03-07 10:30:12");
    assert_eq!(format_date(0, "%Y-%m-%d %H:%M:%S"), "1970-01-01 00:00:00");
    assert_eq!(format_date(-1, "%Y-%m-%d %H:%M:%S"), "1969-12-31 23:59:59");
}

#[test]
fn format_date_is_not_the_pattern() {
    assert_ne!(format_date(1646649012, "%Y-%m-%d"), "%Y-%m-%d");
    assert_eq!(format_date(1646649012, "day"), "day");
}

#[test]
fn format_date_of_a_bad_pattern_is_empty() {
    assert_eq!(format_date(1646649012, "%"), "");
    assert_eq!(format_date(1646649012, "%Y-%Q"), "");
}

#[test]
fn format_date_clamps_to_the_calendar() {
    assert!(chrono::DateTime::from_timestamp(LAST_SECOND, 0).is_some());
    assert!(chrono::DateTime::from_timestamp(LAST_SECOND + 1, 0).is_none());
    assert!(chrono::DateTime::from_timestamp(FIRST_SECOND, 0).is_some());
    assert!(chrono::DateTime::from_timestamp(FIRST_SECOND - 1, 0).is_none());
    assert_eq!(format_date(LAST_SECOND, "%Y-%m-%d %H:%M:%S"), "+262142-12-31 23:59:59");
    assert_eq!(format_date(i64::MAX, "%Y-%m-%d %H:%M:%S"), "+262142-12-31 23:59:59");
    assert_eq!(format_date(FIRST_SECOND, "%Y-%m-%d %H:%M:%S"), "-262143-01-01 00:00:00");
    assert_eq!(format_date(i64::MIN, "%Y-%m-%d %H:%M:%S"), "-262143-01-01 00:00:00");
}

#[test]
fn clamp_second_keeps_what_the_calendar_holds() {
    assert_eq!(clamp_second(0), 0);
    assert_eq!(clamp_second(1646649012), 1646649012);
    assert_eq!(clamp_second(-1), -1);
    assert_eq!(clamp_second(LAST_SECOND), LAST_SECOND);
    assert_eq!(clamp_second(LAST_SECOND + 1), LAST_SECOND);
    assert_eq!(clamp_second(i64::MAX), LAST_SECOND);
    assert_eq!(clamp_second(FIRST_SECOND), FIRST_SECOND);
    assert_eq!(clamp_second(FIRST_SECOND - 1), FIRST_SECOND);
    assert_eq!(clamp_second(i64::MIN), FIRST_SECOND);
}

#[test]
fn rendering_that_is_missing_is_empty() {
    assert_eq!(rendered_or_empty(None), "");
    assert_eq!(rendered_or_empty(Some("2022-03-07".to_string())), "2022-03-07");
    assert_eq!(rendered_or_empty(Some(String::new())), "");
}
