use service_demo::decimal::parse_u64;
use service_demo::price_info::{decode_rate, DecodedBody, PriceInfo, Symbol};

fn body(rate: &str, timestamp: u64) -> DecodedBody {
    DecodedBody { rate_usd: rate.to_string(), timestamp }
}

#[test]
fn parse_u64_reads_plain_and_signed_digits() {
    assert_eq!(parse_u64("0"), Some(0));
    assert_eq!(parse_u64("42"), Some(42));
    assert_eq!(parse_u64("+42"), Some(42));
    assert_eq!(parse_u64("18446744073709551615"), Some(u64::MAX));
}

#[test]
fn parse_u64_rejects_malformed() {
    assert_eq!(parse_u64(""), None);
    assert_eq!(parse_u64("+"), None);
    assert_eq!(parse_u64("-1"), None);
    assert_eq!(parse_u64("12a"), None);
    assert_eq!(parse_u64(" 1"), None);
    assert_eq!(parse_u64("18446744073709551616"), None);
}

#[test]
fn single_sample_body_decodes_at_four_places() {
    let info = body("30000.1234", 1700000000000).to_price_info();
    assert_eq!(
        info,
        PriceInfo::new(1700000000, Symbol::BTC, Symbol::USD, Some(300001234), 4)
    );
}

#[test]
fn timestamp_is_floored_to_seconds() {
    let info = body("1.0000", 1700000001999).to_price_info();
    assert_eq!(info.timestamp, 1700000001);
}

#[test]
fn short_fraction_is_padded() {
    assert_eq!(decode_rate("1.5"), Some(15000));
    assert_eq!(decode_rate("1.05"), Some(10500));
    assert_eq!(decode_rate("2.125"), Some(21250));
    assert_eq!(decode_rate("0.0001"), Some(1));
}

#[test]
fn long_fraction_is_truncated() {
    assert_eq!(decode_rate("1.23456789"), Some(12345));
    assert_eq!(decode_rate("1.2345xyz"), Some(12345));
}

#[test]
fn whole_and_fraction_round_trip() {
    assert_eq!(decode_rate("123.4567"), Some(123 * 10000 + 4567));
    assert_eq!(decode_rate("7.89"), Some(7 * 10000 + 8900));
}

#[test]
fn missing_point_gives_unusable_reading() {
    let info = body("30000", 1700000000000).to_price_info();
    assert_eq!(info.rate, None);
    assert_eq!(info.decimal, 0);
    assert_eq!(info.base, Symbol::BTC);
    assert_eq!(info.quote, Symbol::USD);
}

#[test]
fn malformed_parts_give_unusable_reading() {
    assert_eq!(decode_rate("abc.1234"), None);
    assert_eq!(decode_rate("1."), None);
    assert_eq!(decode_rate(".5"), None);
    assert_eq!(decode_rate("1.2a"), None);
    assert_eq!(decode_rate("1.+5"), None);
    assert_eq!(body("x.y", 5000).to_price_info().decimal, 0);
}

#[test]
fn only_the_first_point_counts() {
    assert_eq!(decode_rate("1.2.3"), None);
    assert_eq!(decode_rate("1.23.4"), None);
}

#[test]
fn overflowing_rate_is_unusable() {
    assert_eq!(decode_rate("1844674407370955.1615"), Some(18446744073709551615));
    assert_eq!(decode_rate("1844674407370955.1616"), None);
    assert_eq!(decode_rate("18446744073709551615.0"), None);
}
