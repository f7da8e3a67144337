use aas::annotated::AnnotatedRelationshipElement;
use aas::attributes::Referable;
use aas::codec::JsonCodec;
use aas::data_xsd::{DataTypeXSDef, DataXsd};
use aas::elements::{Property, SubmodelElementFields};
use aas::id_short::IDShort;
use aas::json::{DecodeError, Json};
use aas::metamodel::ToJsonMetamodel;
use aas::model::{
    DataElement, Entity, EntityInner, Operation, Range, RangeInner, SubmodelElement,
    SubmodelElementCollection, SubmodelElementList,
};

fn obj(fields: Vec<(&str, Json)>) -> Json {
    Json::Object(fields.into_iter().map(|(k, v)| (k.to_string(), v)).collect())
}

fn s(x: &str) -> Json {
    Json::Str(x.to_string())
}

fn member<'a>(j: &'a Json, name: &str) -> Option<&'a Json> {
    match j {
        Json::Object(fs) => fs.iter().find(|(k, _)| k == name).map(|(_, v)| v),
        _ => None,
    }
}

fn property(id: &str, v: i32) -> SubmodelElement {
    let mut referable = Referable::default();
    referable.id_short = Some(IDShort::Raw(id.to_string()));
    SubmodelElement::Property(Property {
        referable,
        semantics: Default::default(),
        qualifiable: Default::default(),
        embedded_data_specifications: Default::default(),
        value: DataXsd::Int(Some(v)),
    })
}

fn collection(v: Vec<SubmodelElement>) -> SubmodelElement {
    SubmodelElement::SubmodelElementCollection(SubmodelElementCollection { value: Some(v) })
}

#[test]
fn collection_with_property_and_nested_collection_round_trips() {
    let inner = collection(vec![property("b", 2), property("c", 3)]);
    let outer = collection(vec![property("a", 1), inner]);
    let j = outer.to_json();
    let back = SubmodelElement::from_json(&j).unwrap();
    assert_eq!(back, outer);
    match back {
        SubmodelElement::SubmodelElementCollection(c) => {
            let v = c.value.unwrap();
            assert_eq!(v.len(), 2);
            assert!(matches!(v[0], SubmodelElement::Property(_)));
            assert!(matches!(v[1], SubmodelElement::SubmodelElementCollection(_)));
        }
        _ => panic!("not a collection"),
    }
}

#[test]
fn test_range_to_json() {
    let expected = obj(vec![
        ("valueType", s("xs:int")),
        ("modelType", s("Range")),
        ("min", Json::Int(1)),
        ("max", Json::Int(10)),
    ]);
    let actual = Range::Int(RangeInner { min: Some(1), max: Some(10) });
    let actual = actual.encode();
    assert_eq!(expected, actual);
}

#[test]
fn range_round_trip_and_metamodel() {
    let r = Range::Decimal(RangeInner { min: Some("0.5".to_string()), max: None });
    assert_eq!(Range::decode(&r.encode()), Ok(r.clone()));
    assert_eq!(r.to_json_metamodel(), Ok(obj(vec![("modelType", s("Range")), ("valueType", s("xs:decimal"))])));
    let bad = obj(vec![("valueType", s("xs:byte")), ("modelType", s("Range")), ("min", Json::Int(1000))]);
    assert_eq!(Range::decode(&bad), Err(DecodeError::OutOfRange));
}

#[test]
fn operation_entity_and_list_round_trip() {
    let mut op = Operation::default();
    op.input_variable = Some(Box::new(property("in", 1)));
    op.inoutput_variable = Some(Box::new(collection(vec![])));
    let op = SubmodelElement::Operation(op);
    assert_eq!(SubmodelElement::from_json(&op.to_json()), Ok(op));

    let entity = SubmodelElement::Entity(Entity::SelfManagedEntity(EntityInner {
        statement: Some(vec![property("s", 5)]),
        global_asset_id: None,
        specific_asset_id: None,
    }));
    let j = entity.to_json();
    assert_eq!(member(&j, "entityType"), Some(&s("SelfManagedEntity")));
    assert_eq!(SubmodelElement::from_json(&j), Ok(entity));

    let list = SubmodelElement::SubmodelElementList(SubmodelElementList {
        is_order_relevant: false,
        value: Some(vec![property("x", 1), property("y", 2)]),
        semantic_id_list_element: None,
        type_value_list_element: Box::new(property("t", 0)),
        value_type_list_element: DataTypeXSDef::Int,
    });
    let j = list.to_json();
    assert_eq!(member(&j, "valueTypeListElement"), Some(&s("xs:int")));
    assert_eq!(SubmodelElement::from_json(&j), Ok(list));
    let meta = match SubmodelElement::from_json(&j).unwrap() {
        SubmodelElement::SubmodelElementList(l) => l.to_json_metamodel().unwrap(),
        _ => panic!("not a list"),
    };
    assert_eq!(member(&meta, "value"), None);
    assert_eq!(member(&meta, "orderRelevant"), Some(&Json::Bool(false)));
}

#[test]
fn list_order_defaults_to_relevant() {
    let j = obj(vec![
        ("modelType", s("SubmodelElementList")),
        ("typeValueListElement", obj(vec![("modelType", s("Capability"))])),
        ("valueTypeListElement", s("xs:string")),
    ]);
    match SubmodelElement::from_json(&j).unwrap() {
        SubmodelElement::SubmodelElementList(l) => assert!(l.is_order_relevant),
        _ => panic!("not a list"),
    }
    let missing = obj(vec![("modelType", s("SubmodelElementList")), ("valueTypeListElement", s("xs:string"))]);
    assert_eq!(SubmodelElement::from_json(&missing), Err(DecodeError::MissingField));
}

#[test]
fn data_elements_and_annotations() {
    let d = SubmodelElement::DataElement(DataElement::Range(Range::Boolean(RangeInner { min: Some(false), max: Some(true) })));
    assert_eq!(SubmodelElement::from_json(&d.to_json()), Ok(d));
    let a = SubmodelElement::AnnotatedRelationshipElement(AnnotatedRelationshipElement {
        submodel_element_fields: SubmodelElementFields::default(),
        first: None,
        second: None,
        annotations: Some(vec![DataElement::Property(match property("p", 9) {
            SubmodelElement::Property(p) => p,
            _ => unreachable!(),
        })]),
    });
    let j = a.to_json();
    let meta = a.to_json_metamodel().unwrap();
    assert_eq!(member(&meta, "modelType"), Some(&s("AnnotatedRelationshipElement")));
    assert_eq!(member(&meta, "annotations"), None);
    assert!(d_meta_ok());
    assert_eq!(SubmodelElement::from_json(&j), Ok(a));
}

#[test]
fn unknown_kinds_are_refused() {
    assert_eq!(
        SubmodelElement::from_json(&obj(vec![("modelType", s("Widget"))])),
        Err(DecodeError::UnknownDiscriminator)
    );
    assert_eq!(SubmodelElement::from_json(&obj(vec![])), Err(DecodeError::MissingField));
    let bad_child = obj(vec![
        ("modelType", s("SubmodelElementCollection")),
        ("value", Json::Array(vec![obj(vec![("modelType", s("Property"))])])),
    ]);
    assert_eq!(SubmodelElement::from_json(&bad_child), Err(DecodeError::MissingField));
}

#[test]
fn metamodel_views() {
    let c = collection(vec![property("a", 1)]);
    assert_eq!(c.to_json_metamodel(), Ok(obj(vec![("modelType", s("SubmodelElementCollection"))])));
    let e = SubmodelElement::Entity(Entity::CoManagedEntity(EntityInner {
        statement: None,
        global_asset_id: None,
        specific_asset_id: None,
    }));
    assert_eq!(e.to_json_metamodel(), Ok(obj(vec![("modelType", s("Entity")), ("entityType", s("CoManagedEntity"))])));
}

#[test]
fn list_element_conformance() {
    let mut list = SubmodelElementList {
        is_order_relevant: true,
        value: Some(vec![property("x", 1)]),
        semantic_id_list_element: None,
        type_value_list_element: Box::new(property("t", 0)),
        value_type_list_element: DataTypeXSDef::Int,
    };
    assert!(list.elements_conform());
    list.value = Some(vec![property("x", 1), collection(vec![])]);
    assert!(!list.elements_conform());
}

fn d_meta_ok() -> bool {
    let d = DataElement::Range(Range::Boolean(RangeInner { min: Some(false), max: None }));
    d.to_json_metamodel() == Ok(obj(vec![("modelType", s("Range")), ("valueType", s("xs:boolean"))]))
}

#[test]
fn relationship_has_a_metamodel_view() {
    use_relationship();
}

fn use_relationship() {
    let r = SubmodelElement::RelationshipElement(aas::elements::RelationshipElement {
        submodel_element_fields: SubmodelElementFields::default(),
        first: None,
        second: None,
    });
    let meta = r.to_json_metamodel().unwrap();
    assert_eq!(member(&meta, "modelType"), Some(&s("RelationshipElement")));
    assert_eq!(member(&meta, "first"), None);
}

#[test]
fn property_view_ignores_value() {
    let a = property("p", 1);
    let b = property("p", 2);
    assert_eq!(a.to_json_metamodel(), b.to_json_metamodel());
    let m = a.to_json_metamodel().unwrap();
    assert_eq!(member(&m, "modelType"), Some(&s("Property")));
    assert_eq!(member(&m, "value"), None);
    assert_eq!(member(&m, "idShort"), Some(&s("p")));
}

#[test]
fn blob_new_has_no_attributes() {
    let b = aas::elements::Blob::new("text/plain".to_string());
    assert_eq!(b, aas::elements::Blob { content_type: "text/plain".to_string(), ..Default::default() });
}
