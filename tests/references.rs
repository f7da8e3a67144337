use aas::json::{DecodeError, Json};
use aas::key::Key;
use aas::reference::{
    Reference, ReferenceInner, deserialize_external_reference, deserialize_model_reference,
};

fn obj(fields: Vec<(&str, Json)>) -> Json {
    Json::Object(fields.into_iter().map(|(k, v)| (k.to_string(), v)).collect())
}

fn s(x: &str) -> Json {
    Json::Str(x.to_string())
}

#[test]
fn serialize() {
    let json = obj(vec![("type", s("Submodel")), ("value", s("https://example.com/idta/Submodel/Test"))]);

    let expected = Key::Submodel("https://example.com/idta/Submodel/Test".to_string());

    let actual: Key = Key::from_json(&json).expect("Not serializing");

    assert_eq!(actual, expected);
}

fn reference_json(kind: &str) -> Json {
    obj(vec![
        ("type", s(kind)),
        ("keys", Json::Array(vec![obj(vec![("type", s("GlobalReference")), ("value", s("urn:x"))])])),
    ])
}

#[test]
fn model_reference_filter() {
    assert_eq!(
        deserialize_model_reference(&reference_json("ExternalReference")),
        Err(DecodeError::ReferenceKindMismatch)
    );
    let ok = deserialize_model_reference(&reference_json("ModelReference")).unwrap();
    assert_eq!(
        ok,
        Reference::ModelReference(ReferenceInner::new(Key::GlobalReference("urn:x".to_string())))
    );
}

#[test]
fn external_reference_filter() {
    assert_eq!(
        deserialize_external_reference(&reference_json("ModelReference")),
        Err(DecodeError::ReferenceKindMismatch)
    );
    assert!(deserialize_external_reference(&reference_json("ExternalReference")).is_ok());
    assert_eq!(deserialize_external_reference(&reference_json("Other")), Err(DecodeError::UnknownDiscriminator));
}

#[test]
fn reference_round_trip_keeps_key_order() {
    let keys = vec![
        Key::Submodel("urn:sm".to_string()),
        Key::SubmodelElementCollection("outer".to_string()),
        Key::Property("inner".to_string()),
    ];
    let mut inner = ReferenceInner::from_vec(keys);
    inner.referred_semantic_id = Some(Box::new(Reference::ExternalReference(ReferenceInner::new(
        Key::GlobalReference("urn:sem".to_string()),
    ))));
    let r = Reference::ModelReference(inner);
    let back = Reference::from_json(&r.to_json()).unwrap();
    assert_eq!(back, r);
}

#[test]
fn key_errors() {
    assert_eq!(Key::from_json(&obj(vec![("value", s("x"))])), Err(DecodeError::MissingField));
    assert_eq!(
        Key::from_json(&obj(vec![("type", s("Nothing")), ("value", s("x"))])),
        Err(DecodeError::UnknownDiscriminator)
    );
    assert_eq!(Key::from_json(&obj(vec![("type", s("Blob"))])), Err(DecodeError::MissingField));
    assert_eq!(Key::from_json(&Json::Null), Err(DecodeError::UnexpectedKind));
    let bad_key = obj(vec![("type", s("ModelReference")), ("keys", Json::Array(vec![Json::Int(1)]))]);
    assert_eq!(Reference::from_json(&bad_key), Err(DecodeError::UnexpectedKind));
    assert_eq!(Reference::from_json(&obj(vec![("type", s("ModelReference"))])), Err(DecodeError::MissingField));
}
