use aas::attributes::{Extension, HasExtensions, HasSemantics, Qualifier, QualifierInner, Referable};
use aas::codec::JsonCodec;
use aas::data_xsd::DataXsd;
use aas::elements::{Blob, Property, PropertyMeta};
use aas::id_short::IDShort;
use aas::json::{DecodeError, Json};
use aas::metamodel::ToJsonMetamodel;
use aas::core_model::{Version, VersionError};
use aas::model::{SubmodelElement, ordering_default};

fn obj(fields: Vec<(&str, Json)>) -> Json {
    Json::Object(fields.into_iter().map(|(k, v)| (k.to_string(), v)).collect())
}

fn s(x: &str) -> Json {
    Json::Str(x.to_string())
}

fn member<'a>(j: &'a Json, name: &str) -> Option<&'a Json> {
    match j {
        Json::Object(fs) => fs.iter().find(|(k, _)| k == name).map(|(_, v)| v),
        _ => None,
    }
}

#[test]
fn test_serialize() {
    let extension = Extension {
        name: "".to_string(),
        semantic_id: None,
        supplemental_semantic_ids: None,
        value: DataXsd::Int(Some(123)),
        refers_to: None,
    };

    let expected = obj(vec![("name", s("")), ("valueType", s("xs:int")), ("value", Json::Int(123))]);

    let actual = extension.encode();
    assert_eq!(expected, actual);
}

#[test]
fn test_deserialize_no_data() {
    let expected = Extension {
        name: "".to_string(),
        semantic_id: None,
        supplemental_semantic_ids: None,
        value: DataXsd::String(None),
        refers_to: None,
    };

    let json = obj(vec![("name", s("")), ("valueType", s("xs:string"))]);

    let actual = Extension::decode(&json).expect("Should deserialize");
    assert_eq!(expected, actual);
}

#[test]
fn test_unknown_deserialize() {
    let expected = Qualifier::Unknown(QualifierInner {
        semantics: Default::default(),
        ty: "Test".to_string(),
        value: DataXsd::Boolean(Some(true)),
        value_id: None,
    });

    let json = obj(vec![
        ("kind", s("Test")),
        ("type", s("Test")),
        ("valueType", s("xs:boolean")),
        ("value", Json::Bool(true)),
    ]);

    let actual: Qualifier = Qualifier::decode(&json).unwrap();

    assert_eq!(expected, actual);
}

#[test]
fn test_concept_qualifier_deserialize() {
    let expected = Qualifier::ConceptQualifier(QualifierInner {
        semantics: Default::default(),
        ty: "Test".to_string(),
        value: DataXsd::Boolean(Some(true)),
        value_id: None,
    });

    let json = obj(vec![
        ("kind", s("ConceptQualifier")),
        ("type", s("Test")),
        ("valueType", s("xs:boolean")),
        ("value", Json::Bool(true)),
    ]);

    let actual: Qualifier = Qualifier::decode(&json).unwrap();

    assert_eq!(expected, actual);
}

#[test]
fn serialize_blob() {
    let expect = SubmodelElement::Blob(Blob::default());

    let json = obj(vec![("modelType", s("Blob")), ("value", Json::Null), ("contentType", s(""))]);

    let blob: Blob = Blob::decode(&json).unwrap();

    assert_eq!(expect, SubmodelElement::Blob(blob));
}

#[test]
fn blob_it_serializes() {
    let blob = Blob::new(String::from(""));

    let json = blob.encode();

    println!("{:?}", json);
    assert_eq!(json, obj(vec![("modelType", s("Blob")), ("contentType", s(""))]));
}

fn sample_property() -> Property {
    let mut referable = Referable::default();
    referable.id_short = Some(IDShort::Raw("Speed".to_string()));
    Property {
        referable,
        semantics: HasSemantics::default(),
        qualifiable: Default::default(),
        embedded_data_specifications: Default::default(),
        value: DataXsd::Double(Some("12.5".to_string())),
    }
}

#[test]
fn property_metamodel_has_no_value() {
    let p = sample_property();
    let full = p.encode();
    let meta = p.to_json_metamodel().unwrap();
    assert_eq!(member(&full, "value"), Some(&Json::Number("12.5".to_string())));
    assert_eq!(member(&full, "valueType"), Some(&s("xs:double")));
    assert_eq!(member(&meta, "value"), None);
    assert_eq!(member(&meta, "valueType"), None);
    assert_eq!(member(&meta, "idShort"), member(&full, "idShort"));
    assert_eq!(member(&meta, "modelType"), Some(&s("Property")));
    assert_eq!(meta, PropertyMeta::from(p).encode());
}

#[test]
fn property_round_trip() {
    let p = sample_property();
    assert_eq!(Property::decode(&p.encode()), Ok(p));
}

#[test]
fn property_decode_errors() {
    assert_eq!(Property::decode(&obj(vec![("valueType", s("xs:int"))])), Err(DecodeError::MissingField));
    assert_eq!(
        Property::decode(&obj(vec![("modelType", s("Blob")), ("valueType", s("xs:int"))])),
        Err(DecodeError::UnknownDiscriminator)
    );
    assert_eq!(Property::decode(&obj(vec![("modelType", s("Property"))])), Err(DecodeError::MissingField));
}

#[test]
fn extension_defaults() {
    let e = Extension::new("x".to_string());
    assert_eq!(e.value, DataXsd::String(None));
    assert_eq!(e.encode(), obj(vec![("name", s("x")), ("valueType", s("xs:string"))]));
}

#[test]
fn versions() {
    assert_eq!(Version::new(None, Some("1".to_string())), Err(VersionError::RevisionNotApplicable));
    let v = Version::new(Some("2".to_string()), Some("1".to_string())).unwrap();
    assert_eq!(v.version(), &Some("2".to_string()));
    assert_eq!(v.revision(), &Some("1".to_string()));
    assert!(Version::new(None, None).is_ok());
    assert!(ordering_default());
}

#[test]
fn extension_constraints() {
    assert!(HasExtensions { extension: None }.is_valid());
    assert!(!HasExtensions { extension: Some(vec![]) }.is_valid());
    let two = vec![Extension::new("a".to_string()), Extension::new("b".to_string())];
    assert!(HasExtensions { extension: Some(two) }.is_valid());
    let dup = vec![Extension::new("a".to_string()), Extension::new("a".to_string())];
    assert!(!HasExtensions { extension: Some(dup) }.is_valid());
}
