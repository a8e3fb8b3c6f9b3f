use zero2prod::token::{
    is_alphanumeric, is_well_formed_token, issue_token, ConfirmationToken, TOKEN_LENGTH,
};

#[test]
fn an_issued_token_has_25_letters_and_digits() {
    for _ in 0..200 {
        let token = issue_token();
        assert_eq!(token.as_str().len(), 25);
        assert_eq!(token.as_str().chars().count(), TOKEN_LENGTH);
        assert!(token.as_str().chars().all(|c| c.is_ascii_alphanumeric()));
        assert!(is_well_formed_token(token.as_str()));
    }
}

#[test]
fn issued_tokens_differ() {
    let mut seen = std::collections::HashSet::new();
    for _ in 0..1000 {
        assert!(seen.insert(issue_token().as_str().to_string()));
    }
}

#[test]
fn issued_tokens_use_letters_of_both_cases_and_digits() {
    let mut all = String::new();
    for _ in 0..200 {
        all.push_str(issue_token().as_str());
    }
    assert!(all.chars().any(|c| c.is_ascii_lowercase()));
    assert!(all.chars().any(|c| c.is_ascii_uppercase()));
    assert!(all.chars().any(|c| c.is_ascii_digit()));
}

#[test]
fn a_text_of_the_right_shape_is_a_token() {
    let text = "abcdefghijABCDEFGHIJ01234";
    let token = ConfirmationToken::parse(text.to_string()).unwrap();
    assert_eq!(token.as_str(), text);
    assert_eq!(token.clone().as_str(), text);
    assert!(token.matches(&text.to_string()));
    assert!(!token.matches(&"abcdefghijABCDEFGHIJ01235".to_string()));
}

#[test]
fn a_text_of_another_shape_is_no_token() {
    assert!(ConfirmationToken::parse("".to_string()).is_none());
    assert!(ConfirmationToken::parse("garbage".to_string()).is_none());
    assert!(ConfirmationToken::parse("a".repeat(24)).is_none());
    assert!(ConfirmationToken::parse("a".repeat(26)).is_none());
    assert!(ConfirmationToken::parse("a".repeat(100)).is_none());
    assert!(ConfirmationToken::parse("abcdefghijABCDEFGHIJ0123-".to_string()).is_none());
    assert!(ConfirmationToken::parse("abcdefghijABCDEFGHIJ0123\u{e9}".to_string()).is_none());
    assert!(ConfirmationToken::parse("a".repeat(25)).is_some());
}

#[test]
fn letters_and_digits_are_the_ascii_ones() {
    for code in 0..=0x10FFFFu32 {
        if let Some(c) = char::from_u32(code) {
            assert_eq!(is_alphanumeric(c), c.is_ascii_alphanumeric());
        }
    }
}
