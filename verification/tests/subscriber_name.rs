use zero2prod::domain::subscriber_name::{
    is_forbidden, is_valid_name, is_whitespace, SubscriberName,
};

#[test]
fn a_256_grapheme_long_name_is_valid() {
    let name = "a".repeat(256);
    assert!(SubscriberName::parse(name).is_ok());
}

#[test]
fn a_name_longer_than_256_graphemes_is_rejected() {
    let name = "a".repeat(257);
    assert!(SubscriberName::parse(name).is_err());
}

#[test]
fn whitespace_only_names_are_rejected() {
    let name = " ".to_string();
    assert!(SubscriberName::parse(name).is_err());
}

#[test]
fn empty_string_is_rejected() {
    let name = "".to_string();
    assert!(SubscriberName::parse(name).is_err());
}

#[test]
fn names_containing_an_invalid_character_are_rejected() {
    for name in &['/', '(', ')', '"', '<', '>', '\\', '{', '}'] {
        assert!(SubscriberName::parse(name.to_string()).is_err());
    }
}

#[test]
fn a_valid_name_is_parsed_successfully() {
    let name = "Ursula Le Guin".to_string();
    assert!(SubscriberName::parse(name).is_ok());
}

#[test]
fn a_parsed_name_keeps_its_text() {
    let name = SubscriberName::parse("Ursula Le Guin".to_string()).unwrap();
    assert_eq!(name.as_ref(), "Ursula Le Guin");
    assert_eq!(name.clone().as_ref(), "Ursula Le Guin");
}

#[test]
fn a_rejected_name_comes_back_in_the_message() {
    let message = SubscriberName::parse("a/b".to_string()).unwrap_err();
    assert_eq!(message, "a/b, is not a valid subscriber name.");
    let message = SubscriberName::parse("".to_string()).unwrap_err();
    assert_eq!(message, ", is not a valid subscriber name.");
}

#[test]
fn length_is_counted_in_graphemes_not_in_characters() {
    // 256 clusters of two characters each: 512 characters.
    let name = "a\u{310}".repeat(256);
    assert_eq!(name.chars().count(), 512);
    assert!(SubscriberName::parse(name).is_ok());
    let name = "a\u{310}".repeat(257);
    assert!(SubscriberName::parse(name).is_err());
}

#[test]
fn names_of_other_white_space_are_rejected() {
    for blank in ["\t", "\n", " \r\n ", "\u{a0}", "\u{2003}\u{3000}", "\u{85}\u{1680}\u{2028}"] {
        assert!(SubscriberName::parse(blank.to_string()).is_err());
    }
}

#[test]
fn a_name_with_white_space_around_it_is_valid() {
    let name = SubscriberName::parse("  le guin \n".to_string()).unwrap();
    assert_eq!(name.as_ref(), "  le guin \n");
}

#[test]
fn a_forbidden_character_inside_a_name_is_rejected() {
    for name in ["le/guin", "le (guin)", "\"ursula\"", "<b>", "a\\b", "{x}"] {
        assert!(SubscriberName::parse(name.to_string()).is_err());
    }
}

#[test]
fn white_space_is_what_unicode_says() {
    for code in 0..=0x10FFFFu32 {
        if let Some(c) = char::from_u32(code) {
            assert_eq!(is_whitespace(c), c.is_whitespace());
        }
    }
}

#[test]
fn the_forbidden_characters_are_nine() {
    let forbidden: Vec<char> = (0..=0x10FFFFu32)
        .filter_map(char::from_u32)
        .filter(|c| is_forbidden(*c))
        .collect();
    assert_eq!(forbidden, vec!['"', '(', ')', '/', '<', '>', '\\', '{', '}']);
}

#[test]
fn the_rule_for_names_on_a_given_count() {
    assert!(is_valid_name("le guin", 7));
    assert!(is_valid_name("le guin", 256));
    assert!(!is_valid_name("le guin", 257));
    assert!(!is_valid_name("   ", 3));
    assert!(!is_valid_name("", 0));
    assert!(!is_valid_name("le{guin", 7));
}
