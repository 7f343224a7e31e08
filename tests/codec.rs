use rust_jsr_registry::codec::{decode_url, TimeInfo, VersionDateTimeMap};
use rust_jsr_registry::error::DecodeError;
use rust_jsr_registry::json::{parse_uint, upsert_entry, Json};
use rust_jsr_registry::{rfc3339, url_codec};
use rust_jsr_registry::text::decimal_text;
use rust_jsr_registry::time::Timestamp;
use rust_jsr_registry::version::{SemVer, VersionRange};

fn json(text: &str) -> Json {
    Json::parse(text).expect("test JSON")
}

const JAN_2023: i64 = 1_672_531_200;
const JUN_2023: i64 = 1_685_577_600;

#[test]
fn time_info_drops_malformed_sibling_keys() {
    let j = json(r#"{"created":"2023-01-01T00:00:00Z","modified":"2023-06-01T00:00:00Z","1.0.0":"2023-01-01T00:00:00Z","not-a-version":"garbage"}"#);
    let t = TimeInfo::from_json(&j).unwrap();
    assert_eq!(t.created, Timestamp { secs: JAN_2023, nanos: 0 });
    assert_eq!(t.modified, Timestamp { secs: JUN_2023, nanos: 0 });
    let v = t.versions.inner();
    assert_eq!(v.len(), 1);
    assert_eq!(v[0].0, SemVer::new(1, 0, 0));
    assert_eq!(v[0].1, Timestamp { secs: JAN_2023, nanos: 0 });
}

#[test]
fn time_info_drops_version_with_bad_timestamp_and_non_string_value() {
    let j = json(r#"{"created":"2023-01-01T00:00:00Z","modified":"2023-06-01T00:00:00Z","1.0.0":"yesterday","2.0.0":7,"3.0.0":"2023-06-01T02:00:00+02:00"}"#);
    let t = TimeInfo::from_json(&j).unwrap();
    let v = t.versions.inner_ref();
    assert_eq!(v.len(), 1);
    assert_eq!(v[0].0, SemVer::new(3, 0, 0));
    assert_eq!(v[0].1, Timestamp { secs: JUN_2023, nanos: 0 });
}

#[test]
fn time_info_requires_created() {
    let j = json(r#"{"modified":"2023-06-01T00:00:00Z"}"#);
    assert!(matches!(TimeInfo::from_json(&j), Err(DecodeError::Mismatch(_))));
}

#[test]
fn time_info_rejects_bad_modified() {
    let j = json(r#"{"created":"2023-01-01T00:00:00Z","modified":"June"}"#);
    assert!(matches!(TimeInfo::from_json(&j), Err(DecodeError::Mismatch(_))));
}

#[test]
fn time_info_encodes_flat() {
    let j = json(r#"{"created":"2023-01-01T00:00:00Z","modified":"2023-06-01T00:00:00Z","1.0.0":"2023-01-01T00:00:00Z"}"#);
    let t = TimeInfo::from_json(&j).unwrap();
    match t.to_json().unwrap() {
        Json::Object(members) => {
            let keys: Vec<&str> = members.iter().map(|m| m.0.as_str()).collect();
            assert_eq!(keys, vec!["created", "modified", "1.0.0"]);
            match &members[0].1 {
                Json::Str(s) => assert_eq!(s, "2023-01-01T00:00:00+00:00"),
                other => panic!("unexpected {:?}", other),
            }
        },
        other => panic!("unexpected {:?}", other),
    }
}

#[test]
fn version_map_skips_bad_entries() {
    let j = json(r#"{"1.2.3":"2023-01-01T00:00:00Z","nope":"2023-01-01T00:00:00Z","2.0.0":"later"}"#);
    let m = VersionDateTimeMap::from_json(&j).unwrap();
    let v = m.inner();
    assert_eq!(v.len(), 1);
    assert_eq!(v[0].0, SemVer::new(1, 2, 3));
}

#[test]
fn version_map_must_be_object() {
    assert!(VersionDateTimeMap::from_json(&json("[1]")).is_err());
    assert_eq!(VersionDateTimeMap::new().inner().len(), 0);
}

#[test]
fn version_map_encodes_version_and_rfc3339() {
    let j = json(r#"{"1.2.3-beta.1+build.5":"2023-06-01T00:00:00.5Z"}"#);
    let m = VersionDateTimeMap::from_json(&j).unwrap();
    match m.to_json().unwrap() {
        Json::Object(members) => {
            assert_eq!(members[0].0, "1.2.3-beta.1+build.5");
            match &members[0].1 {
                Json::Str(s) => assert_eq!(s, "2023-06-01T00:00:00.500+00:00"),
                other => panic!("unexpected {:?}", other),
            }
        },
        other => panic!("unexpected {:?}", other),
    }
}

#[test]
fn semver_parse_and_text() {
    let v = SemVer::parse("1.2.3-beta.1+build.5").unwrap();
    assert_eq!(v.major, 1);
    assert_eq!(v.minor, 2);
    assert_eq!(v.patch, 3);
    assert_eq!(v.pre, "beta.1");
    assert_eq!(v.build, "build.5");
    assert_eq!(v.to_text(), "1.2.3-beta.1+build.5");
    assert_eq!(SemVer::new(10, 0, 7).to_text(), "10.0.7");
    assert!(SemVer::parse("").is_none());
    assert!(SemVer::parse("1.2").is_none());
    assert!(SemVer::parse("01.2.3").is_none());
}

#[test]
fn version_range_is_canonical() {
    assert_eq!(VersionRange::parse("^1.2").unwrap().text, "^1.2");
    assert_eq!(VersionRange::parse(">=1.0.0,<2").unwrap().text, ">=1.0.0, <2");
    assert!(VersionRange::parse("not a range").is_none());
}

#[test]
fn rfc3339_parse_applies_offset() {
    assert_eq!(Timestamp::parse_rfc3339("2023-01-01T02:00:00+02:00"), Some(Timestamp { secs: JAN_2023, nanos: 0 }));
    assert_eq!(Timestamp::parse_rfc3339("2023-01-01"), None);
}

#[test]
fn rfc3339_render_in_utc() {
    let t = Timestamp { secs: JAN_2023, nanos: 0 };
    assert_eq!(t.to_rfc3339().unwrap(), "2023-01-01T00:00:00+00:00");
    assert_eq!(Timestamp { secs: i64::MAX, nanos: 0 }.to_rfc3339(), None);
}

#[test]
fn fixed_pattern_dialect() {
    let t = Timestamp::parse_fixed_utc("2023-01-01T00:00:00.123456Z").unwrap();
    assert_eq!(t, Timestamp { secs: JAN_2023, nanos: 123_456_000 });
    assert_eq!(t.to_fixed_utc().unwrap(), "2023-01-01T00:00:00.123456Z");
    assert_eq!(Timestamp::parse_fixed_utc("2023-01-01T00:00:00.123456+01:00"), None);
}

#[test]
fn fixed_pattern_whole_second_has_six_zero_digits() {
    let t = Timestamp { secs: JAN_2023, nanos: 0 };
    assert_eq!(t.to_fixed_utc().unwrap(), "2023-01-01T00:00:00.000000Z");
    assert_eq!(rfc3339::serialize(&t).unwrap(), "2023-01-01T00:00:00.000000Z");
    assert_eq!(rfc3339::deserialize("2023-01-01T00:00:00.000000Z"), Some(t));
}

#[test]
fn fixed_pattern_rejects_missing_or_short_fraction() {
    assert_eq!(Timestamp::parse_fixed_utc("2023-01-01T00:00:00Z"), None);
    assert_eq!(rfc3339::deserialize("2023-01-01T00:00:00Z"), None);
    assert_eq!(rfc3339::deserialize("2023-01-01T00:00:00.123Z"), None);
}

#[test]
fn upsert_replaces_entry_with_same_key() {
    let mut m: Vec<(String, String)> = Vec::new();
    upsert_entry(&mut m, "a".to_string(), "1".to_string());
    upsert_entry(&mut m, "b".to_string(), "2".to_string());
    upsert_entry(&mut m, "a".to_string(), "3".to_string());
    assert_eq!(m, vec![("a".to_string(), "3".to_string()), ("b".to_string(), "2".to_string())]);
}

#[test]
fn url_field_codec() {
    assert_eq!(url_codec::deserialize("https://Example.com/a").unwrap(), "https://example.com/a");
    assert_eq!(url_codec::deserialize("example.com"), None);
    assert_eq!(url_codec::serialize("https://example.com/a"), "https://example.com/a");
}

#[test]
fn json_equality_and_clone() {
    let a = json(r#"{"a":[1,{"b":"c"}],"d":null}"#);
    let b = json(r#"{"d":null,"a":[1,{"b":"c"}]}"#);
    let c = json(r#"{"a":[1,{"b":"x"}],"d":null}"#);
    assert!(a == b);
    assert!(a != c);
    assert!(a.clone() == a);
}

#[test]
fn url_is_checked_and_canonical() {
    assert_eq!(decode_url("HTTPS://Example.com").unwrap(), "https://example.com/");
    assert_eq!(decode_url("not a url"), None);
    assert_eq!(decode_url("/relative/path"), None);
}

#[test]
fn json_parse_keeps_numbers_as_text() {
    match json(r#"{"n": 42, "s": "x", "b": true, "z": null, "a": [1.5]}"#) {
        Json::Object(members) => {
            assert_eq!(members.len(), 5);
            let n = members.iter().find(|m| m.0 == "n").unwrap();
            assert!(matches!(&n.1, Json::Number(t) if t == "42"));
        },
        other => panic!("unexpected {:?}", other),
    }
    assert!(Json::parse("{not json").is_none());
}

#[test]
fn uint_parsing_bounds() {
    assert_eq!(parse_uint("0", 10), Some(0));
    assert_eq!(parse_uint("10", 10), Some(10));
    assert_eq!(parse_uint("11", 10), None);
    assert_eq!(parse_uint("18446744073709551615", u64::MAX), Some(u64::MAX));
    assert_eq!(parse_uint("18446744073709551616", u64::MAX), None);
    assert_eq!(parse_uint("", 10), None);
    assert_eq!(parse_uint("1.5", 10), None);
    assert_eq!(parse_uint("-1", 10), None);
}

#[test]
fn decimal_text_values() {
    assert_eq!(decimal_text(0), "0");
    assert_eq!(decimal_text(500), "500");
    assert_eq!(decimal_text(u64::MAX), "18446744073709551615");
}

#[test]
fn deep_clone_copies_tree() {
    let j = json(r#"{"a":[1,{"b":"c"}],"d":null}"#);
    let c = j.deep_clone();
    assert_eq!(format!("{:?}", c), format!("{:?}", j));
}
