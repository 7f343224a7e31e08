use rust_jsr_registry::error::NpmCompParseError;
use rust_jsr_registry::fetcher::FetcherBuilder;
use rust_jsr_registry::meta::MetaBuilder;
use rust_jsr_registry::naming::{decode_name, encode_name, split_on_sep};

#[test]
fn encode_builds_flat_identifier() {
    assert_eq!(encode_name("jsr", "dunno", "object"), "@jsr/dunno__object");
}

#[test]
fn name_round_trip_on_concrete_values() {
    let encoded = encode_name("jsr", "dunno", "object");
    let (scope, name) = decode_name("jsr", &encoded).unwrap();
    assert_eq!(scope, "dunno");
    assert_eq!(name, "object");
}

#[test]
fn round_trip_with_other_provider_and_single_underscores() {
    let encoded = encode_name("corp", "my_scope", "_pkg_");
    let (scope, name) = decode_name("corp", &encoded).unwrap();
    assert_eq!(scope, "my_scope");
    assert_eq!(name, "_pkg_");
}

#[test]
fn decode_prefix_mismatch() {
    match decode_name("jsr", "@other/dunno__object") {
        Err(NpmCompParseError::PrefixMismatch(p)) => assert_eq!(p, "jsr"),
        other => panic!("unexpected {:?}", other),
    }
}

#[test]
fn decode_without_double_underscore_is_format_error() {
    assert!(matches!(decode_name("jsr", "@jsr/dunno_object"), Err(NpmCompParseError::FormatError)));
}

#[test]
fn decode_empty_scope_is_format_error() {
    assert!(matches!(decode_name("jsr", "@jsr/__object"), Err(NpmCompParseError::FormatError)));
}

#[test]
fn decode_empty_name_is_format_error() {
    assert!(matches!(decode_name("jsr", "@jsr/dunno__"), Err(NpmCompParseError::FormatError)));
}

#[test]
fn decode_three_parts_is_format_error() {
    assert!(matches!(decode_name("jsr", "@jsr/a__b__c"), Err(NpmCompParseError::FormatError)));
}

#[test]
fn decode_triple_underscore_splits_at_first_pair() {
    let (scope, name) = decode_name("jsr", "@jsr/a___b").unwrap();
    assert_eq!(scope, "a");
    assert_eq!(name, "_b");
}

#[test]
fn decode_input_shorter_than_prefix() {
    assert!(matches!(decode_name("jsr", "@js"), Err(NpmCompParseError::PrefixMismatch(_))));
}

#[test]
fn split_matches_str_split() {
    for s in ["", "a", "a__b", "__", "a____b", "a___b", "x__y__z", "_"] {
        let expected: Vec<String> = s.split("__").map(|p| p.to_string()).collect();
        assert_eq!(split_on_sep(s), expected, "input {:?}", s);
    }
}

#[test]
fn builder_reads_npm_comp_name() {
    let fb = FetcherBuilder::new();
    let b = MetaBuilder::try_from_npm_comp_name(&fb, "@jsr/dunno__object").unwrap();
    assert_eq!(b, MetaBuilder::new().set_scope("dunno").set_name("object"));
    assert_eq!(b.to_npm_comp_name(&fb), "@jsr/dunno__object");
}

#[test]
fn builder_uses_configured_provider_scope() {
    let fb = FetcherBuilder::new().set_provider_scope("corp");
    assert!(matches!(
        MetaBuilder::try_from_npm_comp_name(&fb, "@jsr/dunno__object"),
        Err(NpmCompParseError::PrefixMismatch(_))
    ));
    let b = MetaBuilder::from_npm_comp_name(&fb, "@corp/dunno__object");
    assert_eq!(b.scope, "dunno");
    assert_eq!(b.name, "object");
}

#[test]
fn parse_error_messages() {
    assert_eq!(NpmCompParseError::PrefixMismatch("jsr".to_string()).message(), "Input does not start with @jsr/");
    assert_eq!(NpmCompParseError::FormatError.message(), "Input does not have the correct format (scope__name)");
}
