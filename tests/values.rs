use aas::data_xsd::{DataTypeXSDef, DataXsd};
use aas::json::{DecodeError, Json};

fn fields(v: Vec<(&str, Json)>) -> Vec<(String, Json)> {
    v.into_iter().map(|(k, j)| (k.to_string(), j)).collect()
}

fn s(x: &str) -> Json {
    Json::Str(x.to_string())
}

fn round_trip(v: DataXsd) -> DataXsd {
    DataXsd::decode_fields(&v.encode_fields()).unwrap()
}

#[test]
fn boolean_with_and_without_value() {
    let with = fields(vec![("valueType", s("xs:boolean")), ("value", Json::Bool(true))]);
    assert_eq!(DataXsd::decode_fields(&with), Ok(DataXsd::Boolean(Some(true))));
    let without = fields(vec![("valueType", s("xs:boolean"))]);
    assert_eq!(DataXsd::decode_fields(&without), Ok(DataXsd::Boolean(None)));
    let null = fields(vec![("valueType", s("xs:boolean")), ("value", Json::Null)]);
    assert_eq!(DataXsd::decode_fields(&null), Ok(DataXsd::Boolean(None)));
}

#[test]
fn value_round_trips() {
    let values = vec![
        DataXsd::Int(Some(-5)),
        DataXsd::Int(None),
        DataXsd::Long(Some(i64::MIN)),
        DataXsd::UnsignedLong(Some(u64::MAX)),
        DataXsd::Byte(Some(-128)),
        DataXsd::Short(Some(65535)),
        DataXsd::String(Some("text".to_string())),
        DataXsd::String(None),
        DataXsd::Boolean(Some(false)),
        DataXsd::Decimal(Some("12.50".to_string())),
        DataXsd::Integer(Some("123456789012345678901234567890".to_string())),
        DataXsd::Float(Some("1.5".to_string())),
        DataXsd::Double(None),
        DataXsd::Date(Some("2024-02-29".to_string())),
        DataXsd::Time(Some("12:30:00".to_string())),
        DataXsd::DateTime(Some("2024-01-01T00:00:00Z".to_string())),
        DataXsd::AnyURI(Some("https://example.com/a".to_string())),
        DataXsd::Base64Binary(Some(vec![0, 1, 255])),
        DataXsd::HexBinary(Some(vec![])),
        DataXsd::GYear(Some("2024".to_string())),
    ];
    for v in values {
        assert_eq!(round_trip(v.clone()), v);
    }
}

#[test]
fn encoding_writes_type_then_value() {
    assert_eq!(
        DataXsd::Int(Some(123)).encode_fields(),
        fields(vec![("valueType", s("xs:int")), ("value", Json::Int(123))])
    );
    assert_eq!(DataXsd::String(None).encode_fields(), fields(vec![("valueType", s("xs:string"))]));
    assert_eq!(
        DataXsd::HexBinary(Some(vec![7, 0xAB])).encode_fields(),
        fields(vec![("valueType", s("xs:hexBinary")), ("value", s("07ab"))])
    );
    assert_eq!(
        DataXsd::Base64Binary(Some(b"Plant1".to_vec())).encode_fields(),
        fields(vec![("valueType", s("xs:base64Binary")), ("value", s("UGxhbnQx"))])
    );
}

#[test]
fn fixed_width_overflow_is_refused() {
    let big = fields(vec![("valueType", s("xs:byte")), ("value", Json::Int(128))]);
    assert_eq!(DataXsd::decode_fields(&big), Err(DecodeError::OutOfRange));
    let neg = fields(vec![("valueType", s("xs:unsignedInt")), ("value", Json::Int(-1))]);
    assert_eq!(DataXsd::decode_fields(&neg), Err(DecodeError::OutOfRange));
    let bytes = fields(vec![("valueType", s("xs:base64Binary")), ("value", s("not base64!"))]);
    assert_eq!(DataXsd::decode_fields(&bytes), Err(DecodeError::InvalidLexical));
    let hex = fields(vec![("valueType", s("xs:hexBinary")), ("value", s("0g"))]);
    assert_eq!(DataXsd::decode_fields(&hex), Err(DecodeError::InvalidLexical));
    let odd = fields(vec![("valueType", s("xs:hexBinary")), ("value", s("abc"))]);
    assert_eq!(DataXsd::decode_fields(&odd), Err(DecodeError::InvalidLexical));
    let upper = fields(vec![("valueType", s("xs:hexBinary")), ("value", s("0A1b"))]);
    assert_eq!(DataXsd::decode_fields(&upper), Ok(DataXsd::HexBinary(Some(vec![10, 27]))));
    let kind = fields(vec![("valueType", s("xs:base64Binary")), ("value", Json::Array(vec![Json::Int(1)]))]);
    assert_eq!(DataXsd::decode_fields(&kind), Err(DecodeError::UnexpectedKind));
}

#[test]
fn discriminator_errors() {
    assert_eq!(DataXsd::decode_fields(&fields(vec![("value", Json::Int(1))])), Err(DecodeError::MissingField));
    assert_eq!(
        DataXsd::decode_fields(&fields(vec![("valueType", s("xs:nothing"))])),
        Err(DecodeError::UnknownDiscriminator)
    );
    assert_eq!(
        DataXsd::decode_fields(&fields(vec![("valueType", Json::Int(1))])),
        Err(DecodeError::UnexpectedKind)
    );
    assert_eq!(
        DataXsd::decode_fields(&fields(vec![("valueType", s("xs:int")), ("value", s("1"))])),
        Err(DecodeError::UnexpectedKind)
    );
}

#[test]
fn lexical_checks() {
    let dec = |j: Json| DataXsd::decode_fields(&fields(vec![("valueType", s("xs:decimal")), ("value", j)]));
    assert_eq!(dec(Json::Int(-42)), Ok(DataXsd::Decimal(Some("-42".to_string()))));
    assert_eq!(dec(s("1.25")), Ok(DataXsd::Decimal(Some("1.25".to_string()))));
    assert_eq!(dec(s("one")), Err(DecodeError::InvalidLexical));
    let float = DataXsd::decode_fields(&fields(vec![("valueType", s("xs:double")), ("value", Json::Int(7))]));
    assert_eq!(float, Ok(DataXsd::Double(Some("7".to_string()))));
    let time = |t: &str| DataXsd::decode_fields(&fields(vec![("valueType", s("xs:time")), ("value", s(t))]));
    assert!(time("23:59:59").is_ok());
    assert_eq!(time("25:00:00"), Err(DecodeError::InvalidLexical));
    let date = |t: &str| DataXsd::decode_fields(&fields(vec![("valueType", s("xs:date")), ("value", s(t))]));
    assert!(date("2023-12-31").is_ok());
    assert_eq!(date("2023-02-30"), Err(DecodeError::InvalidLexical));
    let dt = |t: &str| DataXsd::decode_fields(&fields(vec![("valueType", s("xs:dateTime")), ("value", s(t))]));
    assert!(dt("2023-12-31T10:00:00+02:00").is_ok());
    assert_eq!(dt("yesterday"), Err(DecodeError::InvalidLexical));
    let uri = |t: &str| DataXsd::decode_fields(&fields(vec![("valueType", s("xs:anyURI")), ("value", s(t))]));
    assert!(uri("urn:isbn:123").is_ok());
    assert_eq!(uri("not an iri"), Err(DecodeError::InvalidLexical));
}

#[test]
fn value_type_names() {
    assert_eq!(DataTypeXSDef::from_name("xs:gMonthDay"), Some(DataTypeXSDef::GMonthDay));
    assert_eq!(DataTypeXSDef::GMonthDay.name(), "xs:gMonthDay");
    assert_eq!(DataTypeXSDef::from_name("xs:Int"), None);
    assert_eq!(DataXsd::default(), DataXsd::String(None));
}

#[test]
fn integer_kinds_check_form_and_sign() {
    let v = |t: &str, j: Json| DataXsd::decode_fields(&fields(vec![("valueType", s(t)), ("value", j)]));
    assert_eq!(v("xs:integer", s("1.5")), Err(DecodeError::InvalidLexical));
    assert_eq!(v("xs:integer", s("+12")), Ok(DataXsd::Integer(Some("+12".to_string()))));
    assert_eq!(v("xs:negativeInteger", s("5")), Err(DecodeError::InvalidLexical));
    assert_eq!(v("xs:negativeInteger", s("-5")), Ok(DataXsd::NegativeInteger(Some("-5".to_string()))));
    assert_eq!(v("xs:negativeInteger", s("-0")), Err(DecodeError::InvalidLexical));
    assert_eq!(v("xs:nonPositiveInteger", Json::Int(-3)), Ok(DataXsd::NonPositiveInteger(Some("-3".to_string()))));
    assert_eq!(v("xs:nonPositiveInteger", s("0")), Ok(DataXsd::NonPositiveInteger(Some("0".to_string()))));
    assert_eq!(v("xs:nonNegativeInteger", s("-1")), Err(DecodeError::InvalidLexical));
    assert_eq!(v("xs:positiveInteger", s("0")), Err(DecodeError::InvalidLexical));
    assert_eq!(v("xs:positiveInteger", Json::Int(7)), Ok(DataXsd::PositiveInteger(Some("7".to_string()))));
    assert_eq!(v("xs:decimal", s("1.5")), Ok(DataXsd::Decimal(Some("1.5".to_string()))));
}
