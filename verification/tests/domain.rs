use fake::faker::internet::en::SafeEmail;
use fake::Fake;
use zero2prod::domain::subscriber_email::check_email_shape;
use zero2prod::domain::subscriber_name::{
    contains_forbidden_character, is_blank_str, is_forbidden_char, is_whitespace_char,
    MAX_NAME_GRAPHEMES,
};
use zero2prod::domain::{NewSubscriber, SubscriberEmail, SubscriberName};
use zero2prod::route::subscriptions::FormData;

#[test]
fn a_256_grapheme_long_name_is_valid() {
    let name = "\u{451}".repeat(256);
    assert!(SubscriberName::parse(name).is_ok());
}

#[test]
fn a_name_longer_than_256_graphemes_is_rejected() {
    let name = "a".repeat(257);
    assert!(SubscriberName::parse(name).is_err());
}

#[test]
fn whitespace_only_names_are_rejected() {
    let name = " ".to_string();
    assert!(SubscriberName::parse(name).is_err());
}

#[test]
fn empty_string_is_rejected() {
    let name = "".to_string();
    assert!(SubscriberName::parse(name).is_err());
}

#[test]
fn names_containing_an_invalid_character_are_rejected() {
    for name in &['/', '(', ')', '"', '<', '>', '\\', '{', '}'] {
        let name = name.to_string();
        assert!(SubscriberName::parse(name).is_err());
    }
}

#[test]
fn a_valid_name_is_parsed_successfully() {
    let name = "Ursula Le Guin".to_string();
    assert!(SubscriberName::parse(name).is_ok());
}

#[test]
fn empty_email_is_rejected() {
    let email = "".to_string();
    assert!(SubscriberEmail::parse(email).is_err());
}

#[test]
fn email_missing_at_symbol_is_rejected() {
    let email = "ursuladomain.com".to_string();
    assert!(SubscriberEmail::parse(email).is_err());
}

#[test]
fn email_missing_subject_is_rejected() {
    let email = "@domain.com".to_string();
    assert!(SubscriberEmail::parse(email).is_err());
}

#[test]
fn valid_emails_are_parsed_successfully() {
    for _ in 0..200 {
        let email: String = SafeEmail().fake();
        assert!(SubscriberEmail::parse(email.clone()).is_ok(), "{email}");
    }
}

#[test]
fn the_limit_counts_grapheme_clusters_not_characters() {
    assert_eq!(MAX_NAME_GRAPHEMES, 256);
    // `e` with a combining acute accent: two characters, one cluster.
    let accented = "e\u{301}";
    assert!(SubscriberName::parse(accented.repeat(256)).is_ok());
    assert!(SubscriberName::parse(accented.repeat(257)).is_err());
    // Two characters that do not combine: two clusters.
    let pair = "\u{d1}\u{2018}";
    assert!(SubscriberName::parse(pair.repeat(128)).is_ok());
    assert!(SubscriberName::parse(pair.repeat(256)).is_err());
}

#[test]
fn the_rules_for_names_go_by_the_given_count() {
    assert!(SubscriberName::satisfies_rules("Ursula Le Guin", 14));
    assert!(SubscriberName::satisfies_rules("Ursula Le Guin", 256));
    assert!(!SubscriberName::satisfies_rules("Ursula Le Guin", 257));
    assert!(!SubscriberName::satisfies_rules("   ", 3));
    assert!(!SubscriberName::satisfies_rules("", 0));
    assert!(!SubscriberName::satisfies_rules("Ursula {Le} Guin", 16));
}

#[test]
fn a_parsed_name_is_the_submitted_string_untrimmed() {
    let name = SubscriberName::parse("  Ursula Le Guin \n".to_string()).unwrap();
    assert_eq!(name.as_ref(), "  Ursula Le Guin \n");
    assert_eq!(name.clone().as_ref(), "  Ursula Le Guin \n");
}

#[test]
fn a_rejected_name_is_named_in_the_reason() {
    assert_eq!(
        SubscriberName::parse("Ursula/Le Guin".to_string()).unwrap_err(),
        "Ursula/Le Guin is not a valid subscriber name."
    );
    assert_eq!(
        SubscriberName::parse("".to_string()).unwrap_err(),
        " is not a valid subscriber name."
    );
}

#[test]
fn a_forbidden_character_anywhere_rejects_the_name() {
    for forbidden in ['/', '(', ')', '"', '<', '>', '\\', '{', '}'] {
        assert!(is_forbidden_char(forbidden));
        assert!(contains_forbidden_character(&format!("Ursula{forbidden}")));
        assert!(SubscriberName::parse(format!("Ursula {forbidden} Le Guin")).is_err());
        assert!(SubscriberName::parse(format!("{forbidden}Ursula")).is_err());
    }
    for allowed in ['a', 'Z', '0', ' ', '-', '\'', '.', '[', ']', '|', '\u{451}'] {
        assert!(!is_forbidden_char(allowed));
    }
    assert!(!contains_forbidden_character("Ursula K. Le Guin"));
    assert!(!contains_forbidden_character(""));
}

#[test]
fn whitespace_is_what_the_standard_library_takes_for_it() {
    for code in 0..=0x10FFFFu32 {
        if let Some(c) = char::from_u32(code) {
            assert_eq!(is_whitespace_char(c), c.is_whitespace(), "U+{code:04X}");
        }
    }
}

#[test]
fn blank_is_what_trims_to_nothing() {
    for s in ["", " ", "\t", "\n \r\n", "\u{a0}\u{3000}\u{2003}", "   \u{85}"] {
        assert!(is_blank_str(s));
        assert!(s.trim().is_empty());
        assert!(SubscriberName::parse(s.to_string()).is_err());
    }
    for s in ["a", " a ", "\t.\n", "\u{200b}"] {
        assert!(!is_blank_str(s));
        assert!(!s.trim().is_empty());
    }
}

#[test]
fn a_parsed_email_is_the_submitted_string() {
    let email = SubscriberEmail::parse("ursula_le_guin@gmail.com".to_string()).unwrap();
    assert_eq!(email.as_ref(), "ursula_le_guin@gmail.com");
    assert_eq!(email.to_string(), "ursula_le_guin@gmail.com");
    assert_eq!(email.clone().as_ref(), "ursula_le_guin@gmail.com");
    let other = SubscriberEmail::parse("ursula@example.com".to_string()).unwrap();
    assert!(email.same_address(&email.clone()));
    assert!(!email.same_address(&other));
}

#[test]
fn a_rejected_email_is_named_in_the_reason() {
    assert_eq!(
        SubscriberEmail::parse("ursuladomain.com".to_string()).unwrap_err(),
        "ursuladomain.com is not a valid subscriber email."
    );
}

#[test]
fn an_email_needs_one_at_sign_a_local_part_and_a_dotted_domain() {
    for valid in ["a@b.c", "ursula@example.com", "first.last@sub.example.org", "x@127.0.0.1"] {
        assert!(check_email_shape(valid), "{valid}");
        assert!(SubscriberEmail::parse(valid.to_string()).is_ok(), "{valid}");
    }
    for invalid in [
        "",
        "@",
        ".",
        "ursula",
        "ursula.example.com",
        "@example.com",
        "ursula@",
        "ursula@localhost",
        "ursula.le.guin@localhost",
        "ursula@@example.com",
        "ursula@example@example.com",
    ] {
        assert!(!check_email_shape(invalid), "{invalid}");
        assert!(SubscriberEmail::parse(invalid.to_string()).is_err(), "{invalid}");
    }
}

#[test]
fn the_grammar_decides_among_addresses_of_the_right_shape() {
    // These have the outline of an address, and the grammar turns them down.
    for invalid in ["a b@example.com", "ursula@exa mple.com", "ursula@.com", "ursula@-example.com"]
    {
        assert!(check_email_shape(invalid), "{invalid}");
        assert!(SubscriberEmail::parse(invalid.to_string()).is_err(), "{invalid}");
    }
    assert!(SubscriberEmail::satisfies_rules("ursula@example.com", true));
    assert!(!SubscriberEmail::satisfies_rules("ursula@example.com", false));
    assert!(!SubscriberEmail::satisfies_rules("ursula@localhost", true));
}

#[test]
fn a_form_becomes_a_subscriber_when_both_fields_are_valid() {
    let form = FormData {
        email: "ursula_le_guin@gmail.com".to_string(),
        name: "Ursula Le Guin".to_string(),
    };
    let subscriber = NewSubscriber::try_from(form).unwrap();
    assert_eq!(subscriber.name.as_ref(), "Ursula Le Guin");
    assert_eq!(subscriber.email.as_ref(), "ursula_le_guin@gmail.com");
    let copy = subscriber.clone();
    assert_eq!(copy.name.as_ref(), "Ursula Le Guin");
    assert_eq!(copy.email.as_ref(), "ursula_le_guin@gmail.com");
}

#[test]
fn a_form_is_rejected_for_its_name_first() {
    let both_wrong = FormData { email: "nothing".to_string(), name: "(".to_string() };
    assert_eq!(
        NewSubscriber::try_from(both_wrong).unwrap_err(),
        "( is not a valid subscriber name."
    );
    let email_wrong = FormData { email: "nothing".to_string(), name: "Ursula".to_string() };
    assert_eq!(
        NewSubscriber::try_from(email_wrong).unwrap_err(),
        "nothing is not a valid subscriber email."
    );
    let converted: Result<NewSubscriber, String> =
        FormData { email: "a@b.c".to_string(), name: " ".to_string() }.try_into();
    assert_eq!(converted.unwrap_err(), "  is not a valid subscriber name.");
}
