use langcore::args::{ArgValue, FormatArgs};
use langcore::diag::Diagnostic;
use langcore::handler::{LanguageHandler, LoadOutcome};
use langcore::locale::LocaleKey;

fn handler_from(text: &str) -> (LanguageHandler, Vec<Diagnostic>) {
    LanguageHandler::new(
        LocaleKey::new(String::from("en-US")),
        LoadOutcome::Loaded { path: String::from("resources/lang_en-US.ftl"), text: String::from(text) },
    )
}

#[test]
fn missing_file_falls_back_to_key() {
    let (handler, diags) = LanguageHandler::new(
        LocaleKey::new(String::from("en-US")),
        LoadOutcome::Unreadable { path: String::from("resources/lang_en-US.ftl") },
    );
    assert_eq!(diags.len(), 1);
    assert!(matches!(&diags[0], Diagnostic::FileUnreadable { path } if path == "resources/lang_en-US.ftl"));
    assert_eq!(handler.format("game_title", None), "game_title");
    assert_eq!(handler.format("anything_else", None), "anything_else");
}

#[test]
fn unresolvable_base_directory_falls_back_to_key() {
    let (handler, diags) =
        LanguageHandler::new(LocaleKey::new(String::from("en-US")), LoadOutcome::NoBaseDir);
    assert_eq!(diags.len(), 1);
    assert!(matches!(&diags[0], Diagnostic::WorkingDirectoryUnavailable));
    assert_eq!(handler.format("game_title", None), "game_title");
}

#[test]
fn simple_message_resolves() {
    let (handler, diags) = handler_from("game_title = Hello World");
    assert_eq!(diags.len(), 0);
    assert_eq!(handler.format("game_title", None), "Hello World");
}

#[test]
fn argument_substitution() {
    let (handler, diags) = handler_from("greeting = Hello, { $name }!");
    assert_eq!(diags.len(), 0);
    let mut args = FormatArgs::new();
    args.set(String::from("name"), ArgValue::Text(String::from("Ada")));
    let (text, query_diags) = handler.format_report("greeting", Some(&args));
    assert_eq!(text, "Hello, Ada!");
    assert_eq!(query_diags.len(), 0);
}

#[test]
fn missing_argument_degrades_without_panicking() {
    let (handler, _) = handler_from("greeting = Hello, { $name }!");
    let (text, query_diags) = handler.format_report("greeting", None);
    assert!(!text.is_empty());
    assert_eq!(query_diags.len(), 1);
    match &query_diags[0] {
        Diagnostic::FormattingIssues { key, locale, issues } => {
            assert_eq!(key, "greeting");
            assert_eq!(locale, "en-US");
            assert!(!issues.is_empty());
        }
        other => panic!("expected FormattingIssues, got {:?}", other),
    }
}

#[test]
fn unknown_key_falls_back_with_one_diagnostic() {
    let (handler, _) = handler_from("game_title = Hello World");
    let (text, query_diags) = handler.format_report("nonexistent_key", None);
    assert_eq!(text, "nonexistent_key");
    assert_eq!(query_diags.len(), 1);
    match &query_diags[0] {
        Diagnostic::MessageNotFound { key, locale } => {
            assert_eq!(key, "nonexistent_key");
            assert_eq!(locale, "en-US");
        }
        other => panic!("expected MessageNotFound, got {:?}", other),
    }
}

#[test]
fn message_without_value_pattern_falls_back() {
    let (handler, diags) = handler_from("labels =\n    .first = One");
    assert_eq!(diags.len(), 0);
    let (text, query_diags) = handler.format_report("labels", None);
    assert_eq!(text, "labels");
    assert_eq!(query_diags.len(), 1);
    assert!(matches!(&query_diags[0],
        Diagnostic::PatternMissing { key, locale } if key == "labels" && locale == "en-US"));
}

#[test]
fn malformed_resource_is_rejected_whole() {
    let (handler, diags) = handler_from("good_key = Hi\n### ###\n=== broken ===");
    assert_eq!(diags.len(), 1);
    match &diags[0] {
        Diagnostic::SyntaxFailure { path, positions } => {
            assert_eq!(path, "resources/lang_en-US.ftl");
            assert!(!positions.is_empty());
        }
        other => panic!("expected SyntaxFailure, got {:?}", other),
    }
    assert_eq!(handler.format("good_key", None), "good_key");
}

#[test]
fn duplicate_key_within_one_resource_keeps_first() {
    let (handler, diags) = handler_from("dup = One\ndup = Two");
    assert_eq!(diags.len(), 1);
    assert!(matches!(&diags[0], Diagnostic::DuplicateKeyWarning { key } if key == "dup"));
    assert_eq!(handler.format("dup", None), "One");
}

#[test]
fn number_argument_uses_plain_decimal_form() {
    let (handler, _) = handler_from("count_msg = You have { $n } things");
    let mut args = FormatArgs::new();
    args.set(String::from("n"), ArgValue::Number(42));
    assert_eq!(handler.format("count_msg", Some(&args)), "You have 42 things");
}

#[test]
fn later_binding_replaces_earlier_one() {
    let (handler, _) = handler_from("greeting = Hello, { $name }!");
    let mut args = FormatArgs::new();
    args.set(String::from("name"), ArgValue::Text(String::from("First")));
    args.set(String::from("name"), ArgValue::Text(String::from("Second")));
    assert_eq!(handler.format("greeting", Some(&args)), "Hello, Second!");
}

#[test]
fn empty_arguments_match_absent_arguments() {
    let (handler, _) = handler_from("game_title = Hello World");
    let args = FormatArgs::new();
    assert_eq!(handler.format("game_title", Some(&args)), "Hello World");
    assert_eq!(handler.format("game_title", None), "Hello World");
}

#[test]
fn term_is_not_a_message_but_feeds_references() {
    let (handler, diags) = handler_from("-brand = Firefox\nabout_msg = About { -brand }");
    assert_eq!(diags.len(), 0);
    assert_eq!(handler.format("about_msg", None), "About Firefox");
    let (text, query_diags) = handler.format_report("brand", None);
    assert_eq!(text, "brand");
    assert!(matches!(&query_diags[0], Diagnostic::MessageNotFound { key, .. } if key == "brand"));
}
