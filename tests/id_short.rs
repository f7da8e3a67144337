use aas::id_short::{Base64String, IDShort};
use aas::json::{DecodeError, Json};

#[test]
fn serialize_base64() {
    let string = IDShort::Base64(Base64String("Plant1".into()));

    let json = string.to_json();

    assert_eq!(Json::Str("UGxhbnQx".to_string()), json)
}

#[test]
fn serialize_raw() {
    let string = IDShort::Raw("Plant1".into());

    let json = string.to_json();

    assert_eq!(Json::Str("Plant1".to_string()), json)
}

#[test]
fn deserialize_raw() {
    let json = Json::Str("Plant1".to_string());
    let id: IDShort = IDShort::from_json(&json).unwrap();

    assert_eq!(IDShort::Raw("Plant1".into()), id)
}

#[test]
fn deserialize_base64() {
    let json = Json::Str("UGxhbnQx".to_string());
    let id: IDShort = IDShort::from_json(&json).unwrap();

    assert_eq!(IDShort::Base64(Base64String("Plant1".into())), id)
}

#[test]
fn id_to_string_raw() {
    let expected = "Plant1";
    let actual = IDShort::Raw("Plant1".into());

    assert_eq!(expected, actual.to_string())
}

#[test]
fn id_to_string_base64() {
    let expected = "Plant1";
    let actual = IDShort::Base64(Base64String("Plant1".into()));

    assert_eq!(expected, actual.to_string())
}

#[test]
fn id_short_of_a_number_is_refused() {
    assert_eq!(IDShort::from_json(&Json::Int(3)), Err(DecodeError::UnexpectedKind));
}
