use tempo_ingest::auth::parse;
use tempo_ingest::auth::AuthMessage;

fn msg(domain: &str, identity: &str, nonce: u64, timestamp: u64) -> AuthMessage {
    AuthMessage {
        domain: domain.to_string(),
        public_identity: identity.to_string(),
        nonce,
        timestamp,
    }
}

#[test]
fn format_exact_value() {
    let m = msg("relay.example", "abc123", 42, 1700000000);
    assert_eq!(m.format(), "relay.example|abc123|42|1700000000");
}

#[test]
fn format_zero_fields() {
    let m = msg("d", "p", 0, 0);
    assert_eq!(m.format(), "d|p|0|0");
}

#[test]
fn format_has_exactly_three_separators() {
    let m = msg("relay.example", "abc123", 7, 99);
    let s = m.format();
    assert_eq!(s.chars().filter(|c| *c == '|').count(), 3);
}

#[test]
fn round_trip_format_parse() {
    let m = msg("relay.example", "abc123", 42, 1700000000);
    let s = m.format();
    let back = parse(&s).expect("formatted message must parse");
    assert_eq!(back.domain, "relay.example");
    assert_eq!(back.public_identity, "abc123");
    assert_eq!(back.nonce, 42);
    assert_eq!(back.timestamp, 1700000000);
}

#[test]
fn round_trip_empty_fields_and_max() {
    let m = msg("", "", u64::MAX, 0);
    let s = m.format();
    assert_eq!(s, format!("||{}|0", u64::MAX));
    let back = parse(&s).expect("formatted message must parse");
    assert_eq!(back.domain, "");
    assert_eq!(back.public_identity, "");
    assert_eq!(back.nonce, u64::MAX);
    assert_eq!(back.timestamp, 0);
}

#[test]
fn parse_rejects_wrong_field_count() {
    assert!(parse("a|b|1").is_none());
    assert!(parse("a|b|1|2|3").is_none());
    assert!(parse("").is_none());
    assert!(parse("abc").is_none());
}

#[test]
fn parse_rejects_non_numeric_fields() {
    assert!(parse("a|b|x|2").is_none());
    assert!(parse("a|b|1|y").is_none());
    assert!(parse("a|b||2").is_none());
    assert!(parse("a|b|1|").is_none());
}

#[test]
fn parse_rejects_overflow() {
    // one more than u64::MAX
    assert!(parse("a|b|18446744073709551616|2").is_none());
    // exactly u64::MAX is accepted
    let m = parse("a|b|18446744073709551615|2").expect("max value fits");
    assert_eq!(m.nonce, u64::MAX);
}

#[test]
fn parse_accepts_leading_zeros() {
    let m = parse("a|b|007|010").expect("digit fields parse");
    assert_eq!(m.nonce, 7);
    assert_eq!(m.timestamp, 10);
}
