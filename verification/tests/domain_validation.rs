use zero2prod::domain::{
    parse_new_subscriber, SubscriberEmail, SubscriberName, ValidationError,
};

#[test]
fn a_256_character_name_is_valid() {
    let name = "a".repeat(256);
    assert!(SubscriberName::parse(name).is_ok());
}

#[test]
fn a_name_longer_than_256_characters_is_rejected() {
    let name = "a".repeat(257);
    assert_eq!(
        SubscriberName::parse(name).err(),
        Some(ValidationError::InvalidName)
    );
}

#[test]
fn whitespace_only_names_are_rejected() {
    for raw in [" ", "   ", "\t", "\n\r "] {
        assert!(SubscriberName::parse(raw.to_string()).is_err());
    }
}

#[test]
fn unicode_whitespace_only_names_are_rejected() {
    // No-break space, ogham space mark, em space, ideographic space.
    for raw in ["\u{00A0}", "\u{1680}", "\u{2003}\u{2003}", "\u{3000}"] {
        assert!(SubscriberName::parse(raw.to_string()).is_err());
    }
}

#[test]
fn name_length_is_counted_in_grapheme_clusters() {
    // 256 clusters of "a" + combining acute accent: 512 chars, but only
    // 256 grapheme units, so the name is within the bound.
    let name = "a\u{0301}".repeat(256);
    assert!(SubscriberName::parse(name).is_ok());

    let too_long = "a\u{0301}".repeat(257);
    assert!(SubscriberName::parse(too_long).is_err());
}

#[test]
fn empty_name_is_rejected() {
    assert!(SubscriberName::parse(String::new()).is_err());
}

#[test]
fn names_containing_a_forbidden_character_are_rejected() {
    for c in ['/', '(', ')', '"', '<', '>', '\\', '{', '}'] {
        let raw = format!("name{}", c);
        assert!(SubscriberName::parse(raw).is_err());
    }
}

#[test]
fn a_valid_name_is_kept_unchanged() {
    let parsed = SubscriberName::parse("Ursula Le Guin".to_string()).unwrap();
    assert_eq!(parsed.as_str(), "Ursula Le Guin");
}

#[test]
fn empty_email_is_rejected() {
    assert_eq!(
        SubscriberEmail::parse(String::new()).err(),
        Some(ValidationError::InvalidEmail)
    );
}

#[test]
fn email_missing_at_symbol_is_rejected() {
    assert!(SubscriberEmail::parse("not-an-email".to_string()).is_err());
    assert!(SubscriberEmail::parse("ursuladomain.com".to_string()).is_err());
}

#[test]
fn email_missing_subject_is_rejected() {
    assert!(SubscriberEmail::parse("@domain.com".to_string()).is_err());
}

#[test]
fn email_with_two_at_symbols_is_rejected() {
    assert!(SubscriberEmail::parse("a@b@domain.com".to_string()).is_err());
}

#[test]
fn email_without_a_dotted_domain_is_rejected() {
    assert!(SubscriberEmail::parse("ursula@domain".to_string()).is_err());
}

#[test]
fn email_containing_whitespace_is_rejected() {
    assert!(SubscriberEmail::parse("ursula le guin@domain.com".to_string()).is_err());
}

#[test]
fn a_valid_email_is_kept_unchanged() {
    let parsed = SubscriberEmail::parse("ursula_le_guin@gmail.com".to_string()).unwrap();
    assert_eq!(parsed.as_str(), "ursula_le_guin@gmail.com");
}

#[test]
fn pair_validation_short_circuits_on_the_name() {
    let r = parse_new_subscriber(String::new(), "also-not-an-email".to_string());
    assert_eq!(r.err(), Some(ValidationError::InvalidName));

    let r = parse_new_subscriber("Ursula".to_string(), "not-an-email".to_string());
    assert_eq!(r.err(), Some(ValidationError::InvalidEmail));

    let r = parse_new_subscriber("Ursula".to_string(), "ursula@le.guin".to_string());
    let ns = r.unwrap();
    assert_eq!(ns.name.as_str(), "Ursula");
    assert_eq!(ns.email.as_str(), "ursula@le.guin");
}
