use zero2prod::domain::{NewSubscriber, SubscriberEmail, SubscriberName};

#[test]
fn subscriber_email_empty_string_is_rejected() {
    let name = "".to_string();
    assert!(SubscriberEmail::parse(name).is_err());
}

#[test]
fn email_missing_symbol_is_rejected() {
    let name = "bla.com".to_string();
    assert!(SubscriberEmail::parse(name).is_err());
}

#[test]
fn emai_missin_sibject_is_rejected() {
    let name = "@bla.com".to_string();
    assert!(SubscriberEmail::parse(name).is_err());
}

#[test]
fn valid_emails_are_parsed_successfully() {
    for email in ["ursula_le_guin@gmail.com", "le@mail.fr", "bla@email.com", "a.b+c@example.org"] {
        let parsed = SubscriberEmail::parse(email.to_string());
        assert!(parsed.is_ok(), "{email}");
        assert_eq!(parsed.unwrap().as_str(), email);
    }
}

#[test]
fn invalid_emails_are_rejected() {
    for email in ["not-an-email", "a@", "two@@signs.com", "spaces in@mail.fr", "@"] {
        assert!(SubscriberEmail::parse(email.to_string()).is_err(), "{email}");
    }
}

#[test]
fn rejected_email_reports_the_address() {
    let err = SubscriberEmail::parse("bla.com".to_string()).err().unwrap();
    assert_eq!(err, "bla.com is not a valid email");
}

#[test]
fn a_256_grapheme_long_is_valid() {
    let name = "a".repeat(256);
    assert!(SubscriberName::parse(&name).is_ok());
}

#[test]
fn a_258_graphem_long_is_not_valid() {
    let name = "a".repeat(257);
    assert!(SubscriberName::parse(&name).is_err());
}

#[test]
fn graphemes_not_bytes_are_counted() {
    // "ë" written as 'e' and a combining diaeresis: two chars, one grapheme.
    let name = "e\u{308}".repeat(256);
    assert_eq!(name.chars().count(), 512);
    assert!(SubscriberName::parse(&name).is_ok());
    let longer = "e\u{308}".repeat(257);
    assert!(SubscriberName::parse(&longer).is_err());
}

#[test]
fn white_space_are_rejected() {
    let name = " ".to_string();
    assert!(SubscriberName::parse(&name).is_err());
}

#[test]
fn unicode_white_space_only_is_rejected() {
    let name = "\t\u{a0}\u{3000}\n".to_string();
    assert!(SubscriberName::parse(&name).is_err());
}

#[test]
fn subscriber_name_empty_string_is_rejected() {
    let name = "".to_string();
    assert!(SubscriberName::parse(&name).is_err());
}

#[test]
fn invalid_char_are_rejected() {
    for name in ["<", "'", "\"", "/"] {
        let name = name.to_string();
        assert!(SubscriberName::parse(&name).is_err());
    }
}

#[test]
fn every_forbidden_char_is_rejected_inside_a_name() {
    for c in ['<', '>', '[', ']', '(', ')', '"', '\'', '/', '\\'] {
        let name = format!("Ursula {c} Guin");
        assert!(SubscriberName::parse(&name).is_err(), "{name}");
    }
}

#[test]
fn un_nom_valide_est_parse_crrectement() {
    let name = "Ursula le Guin".to_string();
    assert!(SubscriberName::parse(&name).is_ok());
}

#[test]
fn parsed_name_keeps_its_text() {
    let name = SubscriberName::parse("  le guin ").ok().unwrap();
    assert_eq!(name.as_str(), "  le guin ");
}

#[test]
fn new_subscriber_needs_both_fields_valid() {
    assert!(NewSubscriber::parse("le guin", "le@mail.fr".to_string()).is_ok());
    assert!(NewSubscriber::parse("", "le@mail.fr".to_string()).is_err());
    assert!(NewSubscriber::parse("le guin", "".to_string()).is_err());
    assert!(NewSubscriber::parse("ursulat", "not-an-email".to_string()).is_err());
}

#[test]
fn acceptance_follows_the_grapheme_count() {
    assert!(SubscriberName::accepts("Ursula le Guin", 14));
    assert!(SubscriberName::accepts("Ursula le Guin", 256));
    assert!(!SubscriberName::accepts("Ursula le Guin", 257));
    assert!(!SubscriberName::accepts("   ", 3));
    assert!(!SubscriberName::accepts("", 0));
    assert!(!SubscriberName::accepts("a\\b", 3));
}
