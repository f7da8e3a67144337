use aas::json::{DecodeError, Json};
use aas::lang_string::{LangString, LangStringParseRDFError, deserialize_normalized_lang_tag};

fn obj(fields: Vec<(&str, Json)>) -> Json {
    Json::Object(fields.into_iter().map(|(k, v)| (k.to_string(), v)).collect())
}

fn s(x: &str) -> Json {
    Json::Str(x.to_string())
}

#[test]
fn test_turtle_syntax() {
    let expected = LangString::try_new("EN", "Sample text".to_string()).unwrap();

    let turtle_parsed = LangString::from_str(r#""Sample text"@EN"#).ok().unwrap();

    assert_eq!(turtle_parsed, expected);
}

#[test]
fn turtle_syntax_empty_text() {
    let expected = LangString::try_new("EN", "".to_string()).unwrap();

    let turtle_parsed = LangString::from_str(r#"""@EN"#).ok().unwrap();

    assert_eq!(turtle_parsed, expected);
}

#[test]
#[should_panic]
fn turtle_syntax_no_text_no_quotes() {
    LangString::from_str(r#"@EN"#).unwrap();
}

#[test]
fn test_deserialize() {
    let json = obj(vec![("language", s("EN")), ("text", s("Sample test text"))]);

    let expected = LangString::try_new("EN", "Sample test text".to_string()).unwrap();

    let deserialized = LangString::from_json(&json).expect("Should deserialize");

    assert_eq!(expected, deserialized);
}

#[test]
fn speed_in_english() {
    let parsed = LangString::from_str(r#""Speed"@EN"#).unwrap();
    assert_eq!(parsed.language, "en");
    assert_eq!(parsed.text, "Speed");
    assert_eq!(parsed, LangString::try_new("en", "Speed".to_string()).unwrap());
}

#[test]
fn tag_is_normalized() {
    assert_eq!(deserialize_normalized_lang_tag("en-us"), Some("en-US".to_string()));
    assert_eq!(deserialize_normalized_lang_tag("EN"), Some("en".to_string()));
    assert_eq!(deserialize_normalized_lang_tag("not a tag"), None);
}

#[test]
fn turtle_syntax_errors() {
    assert!(matches!(LangString::from_str("\"a\"@en@de"), Err(LangStringParseRDFError::IncorrectFormat)));
    assert!(matches!(LangString::from_str("a\"@en"), Err(LangStringParseRDFError::IncorrectFormat)));
    assert!(matches!(LangString::from_str("\"x"), Err(LangStringParseRDFError::IncorrectFormat)));
    assert!(matches!(LangString::from_str("\"a\u{0}b\"@en"), Err(LangStringParseRDFError::NonValidCharacters)));
    assert!(matches!(LangString::from_str("\"ab\"@$$"), Err(LangStringParseRDFError::ParseError(_))));
}

#[test]
fn lang_string_json_errors() {
    assert_eq!(LangString::from_json(&obj(vec![("text", s("x"))])), Err(DecodeError::MissingField));
    assert_eq!(
        LangString::from_json(&obj(vec![("language", s("$$")), ("text", s("x"))])),
        Err(DecodeError::InvalidLexical)
    );
    assert_eq!(
        LangString::from_json(&obj(vec![("language", s("de")), ("text", s("\u{0}"))])),
        Err(DecodeError::InvalidText)
    );
}

#[test]
fn lang_string_json_round_trip() {
    let x = LangString::try_new("de", "Hallo".to_string()).unwrap();
    let j = x.to_json();
    assert_eq!(j, obj(vec![("language", s("de")), ("text", s("Hallo"))]));
    assert_eq!(LangString::from_json(&j), Ok(x));
    assert_eq!(LangString::default(), LangString::try_new("en", String::new()).unwrap());
}
