use acquisim::domain::card_number::{CardNumber, CardNumberError};

#[test]
fn test_correct_card_number() {
    let card = CardNumber::parse("1234123412341234");
    assert!(card.is_ok())
}

#[test]
fn test_card_contains_non_numeric_symbols() {
    let card = CardNumber::parse("123412341234123f");
    assert!(card.is_err())
}

#[test]
fn test_card_has_bad_length() {
    let card = CardNumber::parse("1234123412341");
    assert!(card.is_err())
}

#[test]
fn generation_success() {
    for _ in 0..100 {
        let card = CardNumber::generate();
        assert!(CardNumber::parse(card.as_str()).is_ok())
    }
}

#[test]
fn parse_keeps_the_digits() {
    let card = CardNumber::parse("0000111122223333").unwrap();
    assert_eq!(card.as_str(), "0000111122223333");
    assert_eq!(card, CardNumber::parse("0000111122223333").unwrap());
    assert_ne!(card, CardNumber::parse("0000111122223334").unwrap());
}

#[test]
fn parse_names_the_fault() {
    assert_eq!(CardNumber::parse("123412341234123f").unwrap_err(), CardNumberError::NotNumeric);
    assert_eq!(CardNumber::parse("1234123412341").unwrap_err(), CardNumberError::BadLength);
    assert_eq!(CardNumber::parse("").unwrap_err(), CardNumberError::BadLength);
    assert_eq!(CardNumber::parse("12341234123412345").unwrap_err(), CardNumberError::BadLength);
    // A fault in the characters is named before a fault in the length.
    assert_eq!(CardNumber::parse("12a").unwrap_err(), CardNumberError::NotNumeric);
    assert_eq!(CardNumber::parse("1234 1234 1234 1234").unwrap_err(), CardNumberError::NotNumeric);
}

#[test]
fn parse_refuses_digits_outside_ascii() {
    // Eight Arabic-Indic digits take sixteen bytes.
    let eight = "\u{0661}\u{0662}\u{0663}\u{0664}\u{0665}\u{0666}\u{0667}\u{0668}";
    assert_eq!(eight.len(), 16);
    assert_eq!(CardNumber::parse(eight).unwrap_err(), CardNumberError::NotNumeric);
    let sixteen = format!("{eight}{eight}");
    assert_eq!(CardNumber::parse(&sixteen).unwrap_err(), CardNumberError::NotNumeric);
}

#[test]
fn generated_cards_have_sixteen_digits_up_to_eight() {
    for _ in 0..200 {
        let card = CardNumber::generate();
        assert_eq!(card.as_str().len(), 16);
        assert!(card.as_str().bytes().all(|b| (b'0'..=b'8').contains(&b)));
    }
}

#[test]
fn generated_cards_differ() {
    let a = CardNumber::generate();
    let mut differs = false;
    for _ in 0..20 {
        if CardNumber::generate() != a {
            differs = true;
        }
    }
    assert!(differs);
}
