use credit_card::{apply, AsText, CreditCard, Error, InvalidCard, Reason};

fn message_of(text: &str) -> String {
    match apply(&text, ()) {
        Ok(()) => panic!("{text:?} was accepted"),
        Err(error) => error.message().to_string(),
    }
}

#[test]
fn visa_test_number_passes() {
    assert_eq!(apply(&"4111111111111111", ()), Ok(()));
}

#[test]
fn owned_text_passes_like_borrowed_text() {
    let owned = String::from("4111111111111111");
    assert_eq!(apply(&owned, ()), Ok(()));
    assert_eq!(apply(&owned.as_str(), ()), Ok(()));
}

#[test]
fn numbers_of_several_networks_pass() {
    for number in [
        "4539571147647251",
        "343380440754432",
        "5555555555554444",
        "378282246310005",
        "6011111111111117",
        "3530111333300000",
        "30569309025904",
    ] {
        assert_eq!(apply(&number, ()), Ok(()), "{number}");
    }
}

#[test]
fn letters_among_digits_are_an_invalid_format() {
    assert_eq!(
        message_of("4111-abcd-1111-1111"),
        "not a valid credit card number: invalid format"
    );
}

#[test]
fn separators_are_an_invalid_format() {
    assert_eq!(
        message_of("4111 1111 1111 1111"),
        "not a valid credit card number: invalid format"
    );
    assert_eq!(
        message_of("4111-1111-1111-1111"),
        "not a valid credit card number: invalid format"
    );
}

#[test]
fn empty_text_is_an_invalid_format() {
    assert_eq!(message_of(""), "not a valid credit card number: invalid format");
}

#[test]
fn trailing_newline_is_an_invalid_format() {
    assert_eq!(
        message_of("4111111111111111\n"),
        "not a valid credit card number: invalid format"
    );
}

#[test]
fn digits_of_other_scripts_are_an_invalid_format() {
    assert_eq!(
        message_of("４１１１１１１１１１１１１１１１"),
        "not a valid credit card number: invalid format"
    );
}

#[test]
fn words_are_an_invalid_format() {
    assert_eq!(
        message_of("zduhefljsdfKJKJZHUI"),
        "not a valid credit card number: invalid format"
    );
}

#[test]
fn short_visa_number_is_an_invalid_length() {
    assert_eq!(message_of("411111"), "not a valid credit card number: invalid length");
}

#[test]
fn long_visa_number_is_an_invalid_length() {
    assert_eq!(
        message_of("41111111111111111111"),
        "not a valid credit card number: invalid length"
    );
}

#[test]
fn network_is_looked_up_before_length() {
    assert_eq!(message_of("123456"), "not a valid credit card number: unknown type");
}

#[test]
fn wrong_last_digit_is_an_invalid_luhn() {
    assert_eq!(
        message_of("4111111111111112"),
        "not a valid credit card number: invalid luhn"
    );
}

#[test]
fn mastercard_with_wrong_digit_is_an_invalid_luhn() {
    assert_eq!(
        message_of("5236313877109141"),
        "not a valid credit card number: invalid luhn"
    );
}

#[test]
fn prefix_of_no_network_is_an_unknown_type() {
    assert_eq!(
        message_of("1234567812345670"),
        "not a valid credit card number: unknown type"
    );
    assert_eq!(
        message_of("9999999999999995"),
        "not a valid credit card number: unknown type"
    );
}

#[test]
fn applying_twice_gives_the_same_report() {
    for text in [
        "4111111111111111",
        "4111-abcd-1111-1111",
        "411111",
        "4111111111111112",
        "1234567812345670",
        "",
    ] {
        let first: Result<(), Error> = apply(&text, ());
        let second: Result<(), Error> = apply(&text, ());
        assert_eq!(first, second, "{text:?}");
    }
}

#[test]
fn value_is_left_as_it_was() {
    let text = String::from("4111111111111112");
    let _ = apply(&text, ());
    assert_eq!(text, "4111111111111112");
}

#[test]
fn report_passes_where_validation_passes() {
    for text in [
        "4111111111111111",
        "378282246310005",
        "4111-abcd-1111-1111",
        "411111",
        "4111111111111112",
        "1234567812345670",
        "",
    ] {
        let outcome = text.validate_credit_card();
        let report = apply(&text, ());
        assert_eq!(outcome.is_ok(), report.is_ok(), "{text:?}");
    }
}

#[test]
fn validation_of_text_names_the_reason() {
    assert_eq!("4111111111111111".validate_credit_card(), Ok(()));
    assert_eq!(
        "4111-abcd-1111-1111".validate_credit_card(),
        Err(InvalidCard(Reason::InvalidFormat))
    );
    assert_eq!("411111".validate_credit_card(), Err(InvalidCard(Reason::InvalidLength)));
    assert_eq!(
        "4111111111111112".validate_credit_card(),
        Err(InvalidCard(Reason::InvalidLuhn))
    );
    assert_eq!(
        "1234567812345670".validate_credit_card(),
        Err(InvalidCard(Reason::UnknownType))
    );
    assert_eq!(
        String::from("4111111111111112").validate_credit_card(),
        Err(InvalidCard(Reason::InvalidLuhn))
    );
}

#[test]
fn text_is_read_unchanged() {
    assert_eq!("4111 1111".as_text(), "4111 1111");
    assert_eq!(String::from("4111 1111").as_text(), "4111 1111");
    assert_eq!("".as_text(), "");
}
