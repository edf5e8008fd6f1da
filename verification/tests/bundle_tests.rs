use langcore::bundle::MessageBundle;
use langcore::loader::{resource_dir, resource_file_name};
use langcore::locale::LocaleKey;
use langcore::resource::parse;

#[test]
fn parse_accepts_well_formed_text() {
    assert!(parse(String::from("hello = Hi")).is_ok());
}

#[test]
fn parse_reports_positions_for_malformed_text() {
    let positions = parse(String::from("=== broken ===")).unwrap_err();
    assert!(!positions.is_empty());
}

#[test]
fn duplicate_key_across_resources_keeps_first_definition() {
    let locale = LocaleKey::new(String::from("en-US"));
    let mut bundle = MessageBundle::new(&locale);
    let first = parse(String::from("dup = First\nonly_first = A")).unwrap();
    let second = parse(String::from("dup = Second\nonly_second = B")).unwrap();
    assert!(bundle.incorporate(first).is_ok());
    let dups = bundle.incorporate(second).unwrap_err();
    assert_eq!(dups, vec![String::from("dup")]);
    let message = bundle.lookup("dup").expect("dup stays registered");
    assert!(message.has_value);
    let (text, issues) = bundle.resolve("dup", None).expect("dup stays renderable");
    assert_eq!(text, "First");
    assert!(issues.is_empty());
    assert_eq!(bundle.resolve("only_first", None).unwrap().0, "A");
    assert_eq!(bundle.resolve("only_second", None).unwrap().0, "B");
}

#[test]
fn lookup_is_a_pure_read() {
    let locale = LocaleKey::new(String::from("en-US"));
    let mut bundle = MessageBundle::new(&locale);
    let set = parse(String::from("hello = Hi")).unwrap();
    assert!(bundle.incorporate(set).is_ok());
    assert!(bundle.lookup("absent").is_none());
    assert!(bundle.lookup("hello").is_some());
    assert!(bundle.lookup("hello").is_some());
}

#[test]
fn resource_path_pieces() {
    let locale = LocaleKey::new(String::from("en-US"));
    assert_eq!(resource_file_name("lang", &locale), "lang_en-US.ftl");
    assert_eq!(resource_dir(), "resources");
}
