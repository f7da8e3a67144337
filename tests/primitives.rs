use aas::json::{DecodeError, Json};
use aas::primitives::{
    Identifier, IdentifierError, Label, LabelError, MessageTopic, MessageTopicError,
    deserialize_identifier,
};
use aas::text::validate_text;

#[test]
fn test_try_from_max_length() {
    let test_value = std::iter::repeat('0').take(2048).collect::<String>();
    let id = Identifier::try_from(test_value.to_string());

    assert!(id.is_ok());
    let id = id.unwrap();
    assert_eq!(id.as_ref(), test_value);
}

#[test]
fn test_try_from_happy() {
    for value in ["https://cust/123456", "0173-1#02-BAA120#008"] {
        let id = Identifier::try_from(value.to_string());

        assert!(id.is_ok());
        let id = id.unwrap();
        assert_eq!(id.as_ref(), value);
    }
}

#[test]
fn test_try_from_too_short() {
    let id = Identifier::try_from("".to_string());

    assert_eq!(id, Err(IdentifierError::TooShort));
}

#[test]
fn test_try_from_too_long() {
    let test_value = std::iter::repeat("t").take(2049).collect::<String>();
    let id = Identifier::try_from(test_value);

    assert_eq!(id, Err(IdentifierError::TooLong));
}

#[test]
fn test_try_from_invalid() {
    let test_value = std::iter::repeat('\0').take(2048).collect::<String>();
    let id = Identifier::try_from(test_value);

    assert_eq!(id, Err(IdentifierError::InvalidCharacter));
}

#[test]
fn label_bounds() {
    assert_eq!(Label::try_from(String::new()), Err(LabelError::TooShort));
    let max = "x".repeat(64);
    assert_eq!(Label::try_from(max.clone()).unwrap().into_string(), max);
    assert_eq!(Label::try_from("x".repeat(65)), Err(LabelError::TooLong));
}

#[test]
fn message_topic_bounds() {
    assert_eq!(MessageTopic::try_from(String::new()), Err(MessageTopicError::TooShort));
    let max = "\u{1F600}".repeat(255);
    assert_eq!(MessageTopic::try_from(max.clone()).unwrap().into_string(), max);
    assert_eq!(MessageTopic::try_from("\u{1F600}".repeat(256)), Err(MessageTopicError::TooLong));
}

#[test]
fn control_character_is_refused() {
    assert_eq!(Identifier::try_from("abc\0def".to_string()), Err(IdentifierError::InvalidCharacter));
    assert_eq!(Label::try_from("\u{1}".to_string()), Err(LabelError::InvalidCharacter));
    assert_eq!(
        MessageTopic::try_from("topic\u{7}x".to_string()),
        Err(MessageTopicError::InvalidCharacter)
    );
}

#[test]
fn text_character_set() {
    assert!(validate_text("tab\tline\nreturn\r visible ~\u{7F}"));
    assert!(validate_text("\u{E000}\u{FFFD}\u{10000}\u{10FFFF}"));
    assert!(!validate_text("\u{8}"));
    assert!(!validate_text("\u{80}"));
    assert!(!validate_text("\u{FFFE}"));
    assert!(validate_text(""));
}

#[test]
fn identifier_json_round_trip() {
    let id = Identifier::try_from("urn:example:1".to_string()).unwrap();
    let j = id.to_json();
    assert_eq!(j, Json::Str("urn:example:1".to_string()));
    assert_eq!(Identifier::from_json(&j), Ok(Identifier::try_from("urn:example:1".to_string()).unwrap()));
    let label = Label::try_from("Speed".to_string()).unwrap();
    assert_eq!(Label::from_json(&label.to_json()).unwrap().into_string(), "Speed");
}

#[test]
fn identifier_json_errors() {
    assert_eq!(Identifier::from_json(&Json::Str(String::new())), Err(DecodeError::InvalidText));
    assert_eq!(Identifier::from_json(&Json::Bool(true)), Err(DecodeError::UnexpectedKind));
    assert_eq!(deserialize_identifier(&Json::Str("a".to_string())), Ok("a".to_string()));
}
