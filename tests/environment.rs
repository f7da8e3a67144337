use aas::attributes::{HasSemantics, ModellingKind, Qualifiable, Referable};
use aas::codec::JsonCodec;
use aas::core_model::{
    AssetAdministrationShell, AssetInformation, AssetInformationInner, Environment, Identifiable,
    Submodel, Version, AdministrativeInformation,
};
use aas::attributes::HasDataSpecification;
use aas::json::{DecodeError, Json};
use aas::metamodel::ToJsonMetamodel;
use aas::model::{ModellingKindError, SubmodelElement, SubmodelElementCollection};
use aas::primitives::Identifier;

fn obj(fields: Vec<(&str, Json)>) -> Json {
    Json::Object(fields.into_iter().map(|(k, v)| (k.to_string(), v)).collect())
}

fn s(x: &str) -> Json {
    Json::Str(x.to_string())
}

fn member<'a>(j: &'a Json, name: &str) -> Option<&'a Json> {
    match j {
        Json::Object(fs) => fs.iter().find(|(k, _)| k == name).map(|(_, v)| v),
        _ => None,
    }
}

fn identifiable(id: &str) -> Identifiable {
    Identifiable {
        id: Identifier::try_from(id.to_string()).unwrap(),
        administrative_information: Some(AdministrativeInformation {
            version: Version::new(Some("1".to_string()), Some("0".to_string())).unwrap(),
            creator: None,
            template_id: None,
            data_specification: HasDataSpecification::default(),
        }),
        referable: Referable::default(),
    }
}

fn submodel() -> Submodel {
    Submodel {
        identifiable: identifiable("urn:sm:1"),
        kind: Some(ModellingKind::Instance),
        semantics: HasSemantics::default(),
        qualifier: Qualifiable::default(),
        data_specification: HasDataSpecification::default(),
        submodel_elements: Some(vec![SubmodelElement::SubmodelElementCollection(
            SubmodelElementCollection { value: Some(vec![]) },
        )]),
    }
}

fn shell() -> AssetAdministrationShell {
    AssetAdministrationShell {
        asset_information: AssetInformation::Instance(AssetInformationInner {
            global_asset_id: Some(Identifier::try_from("urn:asset:1".to_string()).unwrap()),
            specific_asset_ids: None,
            asset_type: None,
            default_thumbnail: None,
        }),
        identifiable: identifiable("urn:aas:1"),
        data_specification: HasDataSpecification::default(),
        derived_from: None,
        submodels: None,
    }
}

#[test]
fn environment_round_trip() {
    let env = Environment {
        asset_administration_shells: Some(vec![shell()]),
        submodels: Some(vec![submodel()]),
        concept_descriptions: None,
    };
    let j = env.encode();
    assert_eq!(Environment::decode(&j), Ok(env));
}

#[test]
fn submodel_metamodel_has_no_elements() {
    let sm = submodel();
    let meta = sm.to_json_metamodel().unwrap();
    assert_eq!(member(&meta, "submodelElements"), None);
    assert_eq!(member(&meta, "modelKind"), Some(&s("Submodel")));
    assert_eq!(member(&meta, "kind"), Some(&s("Instance")));
    assert!(member(&sm.encode(), "submodelElements").is_some());
}

#[test]
fn shell_metamodel_has_no_asset_information() {
    let meta = shell().to_json_metamodel().unwrap();
    assert_eq!(member(&meta, "assetInformation"), None);
    assert_eq!(member(&meta, "id"), Some(&s("urn:aas:1")));
}

#[test]
fn asset_kind_is_required() {
    let j = obj(vec![("globalAssetId", s("urn:x"))]);
    assert_eq!(AssetInformation::decode(&j), Err(DecodeError::MissingField));
    let j = obj(vec![("assetKind", s("Type"))]);
    assert!(matches!(AssetInformation::decode(&j), Ok(AssetInformation::Type(_))));
}

#[test]
fn revision_without_version_is_refused() {
    let j = obj(vec![("revision", s("2"))]);
    assert_eq!(AdministrativeInformation::decode(&j), Err(DecodeError::RevisionWithoutVersion));
}

#[test]
fn modelling_kind_from_str() {
    assert_eq!(ModellingKind::from_str("Instance"), Ok(ModellingKind::Instance));
    assert_eq!(ModellingKind::from_str("Template"), Ok(ModellingKind::Template));
    assert_eq!(ModellingKind::from_str("instance"), Err(ModellingKindError::UnknownValue));
}
