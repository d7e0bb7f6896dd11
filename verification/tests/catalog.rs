use axum_l10n::fluent::resolve_locale;
use axum_l10n::LocaleTag;
use axum_l10n::LocalizerError;
use axum_l10n::MessageAttribute;
use axum_l10n::MessageKey;

#[test]
fn resolve_prefers_exact_full_match() {
    let registry = vec![
        LocaleTag::parse("en-US").unwrap(),
        LocaleTag::parse("en-GB").unwrap(),
        LocaleTag::parse("ja").unwrap(),
    ];

    let hit = resolve_locale(&LocaleTag::parse("en-GB").unwrap(), &registry);

    assert_eq!(hit, Some(1));
}

#[test]
fn resolve_falls_back_to_language_match() {
    let registry = vec![
        LocaleTag::parse("en-US").unwrap(),
        LocaleTag::parse("ja").unwrap(),
    ];

    let hit = resolve_locale(&LocaleTag::parse("en-AU").unwrap(), &registry);
    assert_eq!(hit, Some(0));

    let hit = resolve_locale(&LocaleTag::parse("ja-JP").unwrap(), &registry);
    assert_eq!(hit, Some(1));
}

#[test]
fn resolve_misses_unknown_language() {
    let registry = vec![
        LocaleTag::parse("en-US").unwrap(),
        LocaleTag::parse("ja").unwrap(),
    ];

    let hit = resolve_locale(&LocaleTag::parse("de").unwrap(), &registry);

    assert_eq!(hit, None);
}

#[test]
fn localizer_error_carries_cause() {
    let err = LocalizerError::new(String::from("failed to read from path"));

    assert_eq!(err.cause, "failed to read from path");
    assert_eq!(err.message(), "Localizer error: failed to read from path");
}

#[test]
fn message_key_for_plain_text() {
    let key = String::from("test-key-a");

    assert_eq!(key.key(), "test-key-a");
    assert!(key.attribute().is_none());
}

#[test]
fn message_key_with_attribute() {
    let key = MessageAttribute {
        key: "attribute-test",
        attribute: "attribute_a",
    };

    assert_eq!(key.key(), "attribute-test");
    assert_eq!(key.attribute(), Some("attribute_a"));
}

#[test]
fn extractor_error_has_message() {
    let err = axum_l10n::LanguageIdentifierExtractorError {};

    assert_eq!(
        err.message(),
        "Failed to extract language identifier from request."
    );
}
