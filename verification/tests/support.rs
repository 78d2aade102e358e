use aegis_orchestrator_core::domain::shared_kernel::{TenantId, Uuid};
use aegis_orchestrator_core::support::clock::{Span, Timestamp};
use aegis_orchestrator_core::support::failure::Failure;
use aegis_orchestrator_core::support::json::{object_of, Json};
use aegis_orchestrator_core::support::sorting::{comes_before, take_page};
use aegis_orchestrator_core::support::text::{
    decimal, parse_number, same_in_any_case, signed_decimal, starts_with, trim, utf8_bytes,
};
use aegis_orchestrator_core::support::text_map::TextMap;
use serde_json::Value;

#[test]
fn numbers_are_written_in_decimal() {
    assert_eq!(decimal(0), "0");
    assert_eq!(decimal(120), "120");
    assert_eq!(decimal(u64::MAX), u64::MAX.to_string());
    assert_eq!(signed_decimal(-7), "-7");
    assert_eq!(signed_decimal(i64::MIN), i64::MIN.to_string());
}

#[test]
fn numbers_are_read_as_written() {
    assert_eq!(parse_number("42"), Some(42));
    assert_eq!(parse_number("+007"), Some(7));
    assert_eq!(parse_number("18446744073709551615"), Some(u64::MAX));
    assert_eq!(parse_number("18446744073709551616"), None);
    assert_eq!(parse_number("99999999999999999999"), None);
    for bad in ["", "+", "-1", "++1", "1 ", "0x1", "\u{663}"] {
        assert_eq!(parse_number(bad), bad.parse::<u64>().ok(), "{bad:?}");
        assert_eq!(parse_number(bad), None);
    }
    for n in [0, 9, 10, 12345, u64::MAX] {
        assert_eq!(parse_number(&decimal(n)), Some(n));
    }
}

#[test]
fn text_is_trimmed_and_folded() {
    assert_eq!(trim(" \t a b \u{a0}\n"), "a b");
    assert_eq!(trim("   "), "");
    assert!(same_in_any_case("PrO", "pro"));
    assert!(!same_in_any_case("\u{c9}", "\u{e9}"));
    assert!(starts_with("zaru-free", "zaru-"));
    assert!(!starts_with("zaru", "zaru-"));
    assert_eq!(utf8_bytes("a\u{e9}\u{1f980}"), "a\u{e9}\u{1f980}".as_bytes().to_vec());
}

#[test]
fn identifiers_are_read_and_written() {
    let text = "550e8400-e29b-41d4-a716-446655440000";
    let id = Uuid::parse_str(text).unwrap();
    assert_eq!(id.bits, 0x550e8400_e29b_41d4_a716_446655440000);
    assert_eq!(id.to_string(), text);
    assert!(Uuid::parse_str("nope").is_err());
    let a = Uuid::new_v4();
    assert_ne!(a, Uuid::new_v4());
    assert_eq!(&a.to_string()[14..15], "4");
    assert_eq!(Uuid::nil().bits, 0);
}

#[test]
fn tenants_have_a_slug() {
    assert_eq!(TenantId::system().as_str(), "aegis-system");
    assert!(TenantId::from_string("a").unwrap().same(&TenantId::new("a".to_string()).unwrap()));
    assert_eq!(
        TenantId::new(String::new()).unwrap_err().to_string(),
        "tenant id must not be empty"
    );
}

#[test]
fn failures_are_chains() {
    let failure = Failure::msg("inner").context("outer");
    assert_eq!(failure.to_string(), "outer");
    assert_eq!(failure.copy().messages, vec!["outer".to_string(), "inner".to_string()]);
    assert_eq!(Failure { messages: vec![] }.to_string(), "");
}

#[test]
fn times_are_read_and_ordered() {
    let early = Timestamp::from_rfc3339("2026-02-19T12:00:00Z").unwrap();
    let late = Timestamp::from_rfc3339("2026-02-19T12:00:00.5+00:00").unwrap();
    assert_eq!(early.seconds, 1_771_502_400);
    assert_eq!(late.nanos, 500_000_000);
    assert!(early.before(&late) && !late.before(&early) && !early.before(&early));
    assert!(Timestamp::from_rfc3339("19 February").is_err());
    let now = Timestamp::now();
    assert!(early.before(&now));
    assert!(now.seconds >= 0 && now.nanos < 1_000_000_000);
}

#[test]
fn text_maps_keep_one_value_per_key() {
    let mut map: TextMap<Json> = TextMap::new();
    map.insert("a".to_string(), Json { value: Value::from(1) });
    map.insert("b".to_string(), Json { value: Value::from(2) });
    map.insert("a".to_string(), Json { value: Value::from(3) });
    assert_eq!(map.keys(), vec!["a".to_string(), "b".to_string()]);
    assert_eq!(map.get("a").unwrap().value, Value::from(3));
    assert!(map.contains_key("b") && !map.contains_key("c"));
    let copy = map.duplicate();
    assert_eq!(
        object_of(&copy),
        serde_json::from_str::<Value>(r#"{"a": 3, "b": 2}"#).unwrap()
    );
}

#[test]
fn pages_join_to_the_whole() {
    let one = |offset, limit| {
        take_page(
            vec![
                Json { value: Value::from(1) },
                Json { value: Value::from(2) },
                Json { value: Value::from(3) },
            ],
            offset,
            limit,
        )
        .iter()
        .map(|j| j.value.clone())
        .collect::<Vec<_>>()
    };
    assert_eq!(one(0, 2).len() + one(2, 2).len(), 3);
    assert_eq!(one(1, 1), vec![Value::from(2)]);
    assert!(one(5, 2).is_empty());
    assert!(comes_before("1.0.0", "1.1.0") && comes_before("a", "ab"));
    assert!(!comes_before("b", "a") && !comes_before("a", "a"));
}

#[test]
fn white_space_is_what_unicode_says() {
    let white = [
        0x9, 0xa, 0xb, 0xc, 0xd, 0x20, 0x85, 0xa0, 0x1680, 0x2000, 0x2001, 0x2002, 0x2003, 0x2004,
        0x2005, 0x2006, 0x2007, 0x2008, 0x2009, 0x200a, 0x2028, 0x2029, 0x202f, 0x205f, 0x3000,
    ];
    for n in 0..=0x10ffffu32 {
        if let Some(c) = char::from_u32(n) {
            assert_eq!(c.is_whitespace(), white.contains(&n), "{n:x}");
            assert_eq!(trim(&c.to_string()).is_empty(), c.is_whitespace(), "{n:x}");
        }
    }
}

#[test]
fn copies_of_maps_hold_the_same() {
    let mut map: TextMap<String> = TextMap::new();
    map.insert("a".to_string(), "1".to_string());
    let copy = map.clone();
    map.insert("a".to_string(), "2".to_string());
    assert_eq!(copy.get("a").map(|v| v.as_str()), Some("1"));
    assert_eq!(map.get("a").map(|v| v.as_str()), Some("2"));
    assert!(format!("{copy:?}").contains('1'));
}

#[test]
fn spans_are_read_and_written() {
    let span = Span::new(1, 500_000_000).unwrap();
    assert_eq!((span.as_secs(), span.subsec_nanos()), (1, 500_000_000));
    assert_eq!(span.to_string(), "1.5s");
    assert_eq!(Span::from_secs(0).to_string(), "0ns");
    assert_eq!(Span::new(0, 7_000_000).unwrap().to_string(), "7ms");
    assert_eq!(Span::new(u64::MAX, 999_999_999).unwrap().as_secs(), u64::MAX);
    assert!(Span::new(0, 1_000_000_000).is_none());
}
