use vstd::prelude::*;
use crate::json::{
    Json,
    DecodeError,
    lookup,
    member,
    index_of,
    find_member,
    get_member,
    field,
    lemma_lookup_index,
    lemma_lookup_concat,
};
use crate::codec::{
    JsonCodec,
    names_within,
    opt_encoded,
    opt_rel,
    opt_error,
    opt_wf,
    opt_equiv,
    req_encoded,
    req_rel,
    req_error,
    push_opt,
    push_req,
    decode_opt,
    decode_req,
    lemma_opt_round_trip,
    lemma_req_round_trip,
    lemma_opt_unique,
    lemma_req_unique,
    lemma_lookup_push,
    lemma_names_within_push,
    lemma_names_within_concat,
    lemma_lookup_outside,
};
use crate::data_xsd::DataTypeXSDef;
use crate::primitives::Identifier;
use crate::reference::Reference;
use crate::elements::{
    Blob,
    Capability,
    File,
    MultiLanguageProperty,
    Property,
    ReferenceElement,
    RelationshipElement,
    BasicEventElement,
    SpecificAssetId,
    SubmodelElementFields,
    submodel_element_fields_name,
    submodel_element_fields_lookups,
    submodel_element_fields_rel,
    submodel_element_fields_error,
    submodel_element_fields_wf,
    submodel_element_fields_equiv,
    lemma_submodel_element_fields_round_trip,
    lemma_submodel_element_fields_unique,
};
use crate::annotated::{
    AnnotatedRelationshipElement,
    data_element_kind_name,
    data_element_lookups,
    data_element_rel,
    data_element_error,
    data_element_wf,
    lemma_data_element_members_round_trip,
    lemma_data_element_members_unique,
};
use crate::model::{
    Range,
    SubmodelElement,
    SubmodelElementCollection,
    SubmodelElementList,
    Operation,
    Entity,
    EntityInner,
    DataElement,
    element_model_type,
    ordering_default,
};
use crate::text::str_eq;

verus! {

broadcast use vstd::string::group_string_axioms;

/// A name of the members of a collection.
pub open spec fn collection_name(n: Seq<char>) -> bool {
    n == "modelType"@ || n == "value"@
}

/// A name of the members of a data element written as a submodel element.
pub open spec fn data_element_member_name(n: Seq<char>) -> bool {
    n == "modelType"@ || data_element_kind_name(n)
}

/// A name of the members of an entity.
pub open spec fn entity_member_name(n: Seq<char>) -> bool {
    n == "modelType"@ || n == "entityType"@ || n == "statement"@ || n == "globalAssetId"@ || n == "specificAssetId"@
}

/// A name of the members of an operation.
pub open spec fn operation_member_name(n: Seq<char>) -> bool {
    n == "modelType"@ || submodel_element_fields_name(n) || n == "inputVariable"@ || n == "outputVariable"@ || n == "inoutputVariable"@
}

/// A name of the members of a list.
pub open spec fn list_member_name(n: Seq<char>) -> bool {
    n == "modelType"@ || n == "orderRelevant"@ || n == "value"@ || n == "semanticIdListElement"@ || n == "typeValueListElement"@ || n == "valueTypeListElement"@
}

/// The wire name of the kind of an entity.
pub open spec fn entity_kind_name(e: Entity) -> Seq<char> {
    match e {
        Entity::CoManagedEntity(_) => "CoManagedEntity"@,
        Entity::SelfManagedEntity(_) => "SelfManagedEntity"@,
    }
}

/// Whether `s` names a kind of entity.
pub open spec fn is_entity_kind_name(s: Seq<char>) -> bool {
    s == "CoManagedEntity"@ || s == "SelfManagedEntity"@
}

/// Whether encoding and decoding of the element is covered by the laws
/// below: every kind is, and this holds of all elements.
pub open spec fn element_wf(e: SubmodelElement) -> bool
    decreases e,
{
    match e {
        SubmodelElement::RelationshipElement(x) => x.wf(),
        SubmodelElement::AnnotatedRelationshipElement(x) => x.wf(),
        SubmodelElement::BasicEventElement(x) => x.wf(),
        SubmodelElement::Blob(x) => x.wf(),
        SubmodelElement::Capability(x) => x.wf(),
        SubmodelElement::File(x) => x.wf(),
        SubmodelElement::MultiLanguageProperty(x) => x.wf(),
        SubmodelElement::Property(x) => x.wf(),
        SubmodelElement::Range(x) => x.wf(),
        SubmodelElement::ReferenceElement(x) => x.wf(),
        SubmodelElement::DataElement(x) => data_element_wf(x),
        SubmodelElement::Entity(en) => match en {
            Entity::CoManagedEntity(i) => (match i.statement {
                None => true,
                Some(v) => elements_wf(v@),
            }) && opt_wf(i.global_asset_id) && opt_wf(i.specific_asset_id),
            Entity::SelfManagedEntity(i) => (match i.statement {
                None => true,
                Some(v) => elements_wf(v@),
            }) && opt_wf(i.global_asset_id) && opt_wf(i.specific_asset_id),
        },
        SubmodelElement::Operation(op) => submodel_element_fields_wf(SubmodelElementFields { referable: op.referable, semantics: op.semantics, qualifiable: op.qualifiable, embedded_data_specifications: op.embedded_data_specifications })
            && match op.input_variable {
            None => true,
            Some(b) => element_wf(*b),
        }
            && match op.output_variable {
            None => true,
            Some(b) => element_wf(*b),
        }
            && match op.inoutput_variable {
            None => true,
            Some(b) => element_wf(*b),
        }
,
        SubmodelElement::SubmodelElementCollection(c) => match c.value {
            None => true,
            Some(v) => elements_wf(v@),
        },
        SubmodelElement::SubmodelElementList(l) => (match l.value {
            None => true,
            Some(v) => elements_wf(v@),
        }) && opt_wf(l.semantic_id_list_element) && element_wf(*l.type_value_list_element),
    }
}

/// Every element of `v` is well-formed.
pub open spec fn elements_wf(v: Seq<SubmodelElement>) -> bool
    decreases v,
{
    if v.len() == 0 {
        true
    } else {
        elements_wf(v.subrange(0, v.len() - 1)) && element_wf(v[v.len() - 1])
    }
}

/// `j` is what encoding writes for the element `e`.
pub open spec fn element_encoded(e: SubmodelElement, j: Json) -> bool
    decreases e,
{
    match e {
        SubmodelElement::RelationshipElement(x) => x.encoded(j),
        SubmodelElement::AnnotatedRelationshipElement(x) => x.encoded(j),
        SubmodelElement::BasicEventElement(x) => x.encoded(j),
        SubmodelElement::Blob(x) => x.encoded(j),
        SubmodelElement::Capability(x) => x.encoded(j),
        SubmodelElement::File(x) => x.encoded(j),
        SubmodelElement::MultiLanguageProperty(x) => x.encoded(j),
        SubmodelElement::Property(x) => x.encoded(j),
        SubmodelElement::Range(x) => x.encoded(j),
        SubmodelElement::ReferenceElement(x) => x.encoded(j),
        SubmodelElement::DataElement(x) => j matches Json::Object(fs) && names_within(fs@, |n: Seq<char>| data_element_member_name(n)) && (lookup(fs@, "modelType"@) matches Some(Json::Str(t)) && t@ == "DataElement"@) && data_element_lookups(x, fs@),
        SubmodelElement::Entity(en) => match en {
            Entity::CoManagedEntity(i) => j matches Json::Object(fs) && names_within(fs@, |n: Seq<char>| entity_member_name(n)) && (lookup(fs@, "modelType"@) matches Some(Json::Str(t)) && t@ == "Entity"@) && (lookup(fs@, "entityType"@) matches Some(Json::Str(t)) && t@ == "CoManagedEntity"@) && (match i.statement {
                None => lookup(fs@, "statement"@) is None,
                Some(v) => lookup(fs@, "statement"@) matches Some(Json::Array(a)) && elements_encoded(v@, a@),
            }) && opt_encoded(i.global_asset_id, lookup(fs@, "globalAssetId"@)) && opt_encoded(i.specific_asset_id, lookup(fs@, "specificAssetId"@)),
            Entity::SelfManagedEntity(i) => j matches Json::Object(fs) && names_within(fs@, |n: Seq<char>| entity_member_name(n)) && (lookup(fs@, "modelType"@) matches Some(Json::Str(t)) && t@ == "Entity"@) && (lookup(fs@, "entityType"@) matches Some(Json::Str(t)) && t@ == "SelfManagedEntity"@) && (match i.statement {
                None => lookup(fs@, "statement"@) is None,
                Some(v) => lookup(fs@, "statement"@) matches Some(Json::Array(a)) && elements_encoded(v@, a@),
            }) && opt_encoded(i.global_asset_id, lookup(fs@, "globalAssetId"@)) && opt_encoded(i.specific_asset_id, lookup(fs@, "specificAssetId"@)),
        },
        SubmodelElement::Operation(op) => j matches Json::Object(fs) && names_within(fs@, |n: Seq<char>| operation_member_name(n)) && (lookup(fs@, "modelType"@) matches Some(Json::Str(t)) && t@ == "Operation"@) && submodel_element_fields_lookups(SubmodelElementFields { referable: op.referable, semantics: op.semantics, qualifiable: op.qualifiable, embedded_data_specifications: op.embedded_data_specifications }, fs@) && (match op.input_variable {
                None => lookup(fs@, "inputVariable"@) is None,
                Some(b) => lookup(fs@, "inputVariable"@) matches Some(sj) && element_encoded(*b, sj),
            }) && (match op.output_variable {
                None => lookup(fs@, "outputVariable"@) is None,
                Some(b) => lookup(fs@, "outputVariable"@) matches Some(sj) && element_encoded(*b, sj),
            }) && (match op.inoutput_variable {
                None => lookup(fs@, "inoutputVariable"@) is None,
                Some(b) => lookup(fs@, "inoutputVariable"@) matches Some(sj) && element_encoded(*b, sj),
            }),
        SubmodelElement::SubmodelElementCollection(c) => j matches Json::Object(fs) && names_within(fs@, |n: Seq<char>| collection_name(n)) && (lookup(fs@, "modelType"@) matches Some(Json::Str(t)) && t@ == "SubmodelElementCollection"@) && match c.value {
            None => lookup(fs@, "value"@) is None,
            Some(v) => lookup(fs@, "value"@) matches Some(Json::Array(a)) && elements_encoded(v@, a@),
        },
        SubmodelElement::SubmodelElementList(l) => j matches Json::Object(fs) && names_within(fs@, |n: Seq<char>| list_member_name(n)) && (lookup(fs@, "modelType"@) matches Some(Json::Str(t)) && t@ == "SubmodelElementList"@) && (lookup(fs@, "orderRelevant"@) == Some(Json::Bool(l.is_order_relevant))) && (match l.value {
            None => lookup(fs@, "value"@) is None,
            Some(v) => lookup(fs@, "value"@) matches Some(Json::Array(a)) && elements_encoded(v@, a@),
        }) && opt_encoded(l.semantic_id_list_element, lookup(fs@, "semanticIdListElement"@)) && (lookup(fs@, "typeValueListElement"@) matches Some(tj) && element_encoded(*l.type_value_list_element, tj)) && req_encoded(l.value_type_list_element, lookup(fs@, "valueTypeListElement"@)),
    }
}

/// `a` encodes the elements `v`, in order.
pub open spec fn elements_encoded(v: Seq<SubmodelElement>, a: Seq<Json>) -> bool
    decreases v,
{
    if v.len() == 0 {
        a.len() == 0
    } else {
        a.len() == v.len() && elements_encoded(v.subrange(0, v.len() - 1), a.subrange(0, a.len() - 1))
            && element_encoded(v[v.len() - 1], a[a.len() - 1])
    }
}

/// `j` decodes to the element `e`.
pub open spec fn element_rel(e: SubmodelElement, j: Json) -> bool
    decreases e,
{
    match e {
        SubmodelElement::RelationshipElement(x) => x.rel(j),
        SubmodelElement::AnnotatedRelationshipElement(x) => x.rel(j),
        SubmodelElement::BasicEventElement(x) => x.rel(j),
        SubmodelElement::Blob(x) => x.rel(j),
        SubmodelElement::Capability(x) => x.rel(j),
        SubmodelElement::File(x) => x.rel(j),
        SubmodelElement::MultiLanguageProperty(x) => x.rel(j),
        SubmodelElement::Property(x) => x.rel(j),
        SubmodelElement::Range(x) => x.rel(j),
        SubmodelElement::ReferenceElement(x) => x.rel(j),
        SubmodelElement::DataElement(x) => j matches Json::Object(fs) && (member(fs@, "modelType"@) matches Some(Json::Str(t)) && t@ == "DataElement"@) && data_element_rel(x, fs@),
        SubmodelElement::Entity(en) => match en {
            Entity::CoManagedEntity(i) => j matches Json::Object(fs) && (member(fs@, "modelType"@) matches Some(Json::Str(t)) && t@ == "Entity"@) && (member(fs@, "entityType"@) matches Some(Json::Str(t)) && t@ == "CoManagedEntity"@) && (match i.statement {
                None => member(fs@, "statement"@) is None,
                Some(v) => member(fs@, "statement"@) matches Some(Json::Array(a)) && elements_rel(v@, a@),
            }) && opt_rel(i.global_asset_id, member(fs@, "globalAssetId"@)) && opt_rel(i.specific_asset_id, member(fs@, "specificAssetId"@)),
            Entity::SelfManagedEntity(i) => j matches Json::Object(fs) && (member(fs@, "modelType"@) matches Some(Json::Str(t)) && t@ == "Entity"@) && (member(fs@, "entityType"@) matches Some(Json::Str(t)) && t@ == "SelfManagedEntity"@) && (match i.statement {
                None => member(fs@, "statement"@) is None,
                Some(v) => member(fs@, "statement"@) matches Some(Json::Array(a)) && elements_rel(v@, a@),
            }) && opt_rel(i.global_asset_id, member(fs@, "globalAssetId"@)) && opt_rel(i.specific_asset_id, member(fs@, "specificAssetId"@)),
        },
        SubmodelElement::Operation(op) => j matches Json::Object(fs) && (member(fs@, "modelType"@) matches Some(Json::Str(t)) && t@ == "Operation"@) && submodel_element_fields_rel(SubmodelElementFields { referable: op.referable, semantics: op.semantics, qualifiable: op.qualifiable, embedded_data_specifications: op.embedded_data_specifications }, fs@) && (match op.input_variable {
                None => member(fs@, "inputVariable"@) is None,
                Some(b) => member(fs@, "inputVariable"@) matches Some(sj) && element_rel(*b, sj),
            }) && (match op.output_variable {
                None => member(fs@, "outputVariable"@) is None,
                Some(b) => member(fs@, "outputVariable"@) matches Some(sj) && element_rel(*b, sj),
            }) && (match op.inoutput_variable {
                None => member(fs@, "inoutputVariable"@) is None,
                Some(b) => member(fs@, "inoutputVariable"@) matches Some(sj) && element_rel(*b, sj),
            }),
        SubmodelElement::SubmodelElementCollection(c) => j matches Json::Object(fs) && (member(fs@, "modelType"@) matches Some(Json::Str(t)) && t@ == "SubmodelElementCollection"@) && match c.value {
            None => member(fs@, "value"@) is None,
            Some(v) => member(fs@, "value"@) matches Some(Json::Array(a)) && elements_rel(v@, a@),
        },
        SubmodelElement::SubmodelElementList(l) => j matches Json::Object(fs) && (member(fs@, "modelType"@) matches Some(Json::Str(t)) && t@ == "SubmodelElementList"@) && (match member(fs@, "orderRelevant"@) {
                None => l.is_order_relevant,
                Some(Json::Bool(b)) => l.is_order_relevant == b,
                _ => false,
            }) && (match l.value {
            None => member(fs@, "value"@) is None,
            Some(v) => member(fs@, "value"@) matches Some(Json::Array(a)) && elements_rel(v@, a@),
        }) && opt_rel(l.semantic_id_list_element, member(fs@, "semanticIdListElement"@)) && (member(fs@, "typeValueListElement"@) matches Some(tj) && element_rel(*l.type_value_list_element, tj)) && req_rel(l.value_type_list_element, member(fs@, "valueTypeListElement"@)),
    }
}

/// `a` decodes to the elements `v`, in order.
pub open spec fn elements_rel(v: Seq<SubmodelElement>, a: Seq<Json>) -> bool
    decreases v,
{
    if v.len() == 0 {
        a.len() == 0
    } else {
        a.len() == v.len() && elements_rel(v.subrange(0, v.len() - 1), a.subrange(0, a.len() - 1))
            && element_rel(v[v.len() - 1], a[a.len() - 1])
    }
}

/// The error, if any, of decoding `j` as a submodel element.
pub open spec fn element_error(j: Json) -> Option<DecodeError>
    decreases j,
{
    match j {
        Json::Object(fs) => match member(fs@, "modelType"@) {
            None => Some(DecodeError::MissingField),
            Some(Json::Str(t)) => 
                if t@ == "RelationshipElement"@ {
                    RelationshipElement::decode_error(j)
                } else 
                if t@ == "AnnotatedRelationshipElement"@ {
                    AnnotatedRelationshipElement::decode_error(j)
                } else 
                if t@ == "BasicEventElement"@ {
                    BasicEventElement::decode_error(j)
                } else 
                if t@ == "Blob"@ {
                    Blob::decode_error(j)
                } else 
                if t@ == "Capability"@ {
                    Capability::decode_error(j)
                } else 
                if t@ == "File"@ {
                    File::decode_error(j)
                } else 
                if t@ == "MultiLanguageProperty"@ {
                    MultiLanguageProperty::decode_error(j)
                } else 
                if t@ == "Property"@ {
                    Property::decode_error(j)
                } else 
                if t@ == "Range"@ {
                    Range::decode_error(j)
                } else 
                if t@ == "ReferenceElement"@ {
                    ReferenceElement::decode_error(j)
                } else 
                if t@ == "DataElement"@ {
                    data_element_error(fs@)
                } else if t@ == "Entity"@ {
                    match member(fs@, "entityType"@) {
                        None => Some(DecodeError::MissingField),
                        Some(Json::Str(k)) => if !is_entity_kind_name(k@) {
                            Some(DecodeError::UnknownDiscriminator)
                        } else {
                            match {
                        let i = index_of(fs@, "statement"@);
                        if 0 <= i < fs@.len() {
                            match fs@[i].1 {
                                Json::Null => None,
                                Json::Array(a) => elements_error(a@),
                                _ => Some(DecodeError::UnexpectedKind),
                            }
                        } else {
                            None
                        }
                    } {
                        Some(e) => Some(e),
                        None => match opt_error::<Identifier>(member(fs@, "globalAssetId"@)) {
                        Some(e) => Some(e),
                        None => opt_error::<Vec<SpecificAssetId>>(member(fs@, "specificAssetId"@)),
                    },
                    }
                        },
                        Some(_) => Some(DecodeError::UnexpectedKind),
                    }
                } else if t@ == "Operation"@ {
                    match submodel_element_fields_error(fs@) {
                        Some(e) => Some(e),
                        None => match {
                        let i = index_of(fs@, "inputVariable"@);
                        if 0 <= i < fs@.len() && fs@[i].1 != Json::Null {
                            element_error(fs@[i].1)
                        } else {
                            None
                        }
                    } {
                        Some(e) => Some(e),
                        None => match {
                        let i = index_of(fs@, "outputVariable"@);
                        if 0 <= i < fs@.len() && fs@[i].1 != Json::Null {
                            element_error(fs@[i].1)
                        } else {
                            None
                        }
                    } {
                        Some(e) => Some(e),
                        None => {
                        let i = index_of(fs@, "inoutputVariable"@);
                        if 0 <= i < fs@.len() && fs@[i].1 != Json::Null {
                            element_error(fs@[i].1)
                        } else {
                            None
                        }
                    },
                    },
                    },
                    }
                } else if t@ == "SubmodelElementCollection"@ {
                        let i = index_of(fs@, "value"@);
                        if 0 <= i < fs@.len() {
                            match fs@[i].1 {
                                Json::Null => None,
                                Json::Array(a) => elements_error(a@),
                                _ => Some(DecodeError::UnexpectedKind),
                            }
                        } else {
                            None
                        }
                    } else if t@ == "SubmodelElementList"@ {
                    match match member(fs@, "orderRelevant"@) {
                        None => None,
                        Some(Json::Bool(_)) => None,
                        Some(_) => Some(DecodeError::UnexpectedKind),
                    } {
                        Some(e) => Some(e),
                        None => match {
                        let i = index_of(fs@, "value"@);
                        if 0 <= i < fs@.len() {
                            match fs@[i].1 {
                                Json::Null => None,
                                Json::Array(a) => elements_error(a@),
                                _ => Some(DecodeError::UnexpectedKind),
                            }
                        } else {
                            None
                        }
                    } {
                        Some(e) => Some(e),
                        None => match opt_error::<Reference>(member(fs@, "semanticIdListElement"@)) {
                        Some(e) => Some(e),
                        None => match {
                        let i = index_of(fs@, "typeValueListElement"@);
                        if 0 <= i < fs@.len() && fs@[i].1 != Json::Null {
                            element_error(fs@[i].1)
                        } else {
                            Some(DecodeError::MissingField)
                        }
                    } {
                        Some(e) => Some(e),
                        None => req_error::<DataTypeXSDef>(member(fs@, "valueTypeListElement"@)),
                    },
                    },
                    },
                    }
                } else {
                    Some(DecodeError::UnknownDiscriminator)
                },
            Some(_) => Some(DecodeError::UnexpectedKind),
        },
        _ => Some(DecodeError::UnexpectedKind),
    }
}

/// The error of the first element of `a` that does not decode.
pub open spec fn elements_error(a: Seq<Json>) -> Option<DecodeError>
    decreases a,
{
    if a.len() == 0 {
        None
    } else {
        match elements_error(a.subrange(0, a.len() - 1)) {
            Some(e) => Some(e),
            None => element_error(a[a.len() - 1]),
        }
    }
}

/// The object `{"modelType": <kind>}` as its member list.
fn model_type_member(name: &str) -> (r: Vec<(String, Json)>)
    ensures
        r@.len() == 1,
        r@[0].0@ == "modelType"@,
        r@[0].1 matches Json::Str(t) && t@ == name@,
{
    let mut fs: Vec<(String, Json)> = Vec::new();
    fs.push(field("modelType", Json::Str(name.to_string())));
    fs
}

impl SubmodelElement {
    /// Writes the element as a JSON tree, tagged by its `modelType`.
    #[verifier::rlimit(100)]
    #[verifier::spinoff_prover]
    pub fn to_json(&self) -> (r: Json)
        ensures
            element_encoded(*self, r),
        decreases self,
    {
        proof {
            reveal_strlit("RelationshipElement");
            reveal_strlit("AnnotatedRelationshipElement");
            reveal_strlit("BasicEventElement");
            reveal_strlit("Blob");
            reveal_strlit("Capability");
            reveal_strlit("File");
            reveal_strlit("MultiLanguageProperty");
            reveal_strlit("Property");
            reveal_strlit("Range");
            reveal_strlit("ReferenceElement");
            reveal_strlit("DataElement");
            reveal_strlit("Entity");
            reveal_strlit("Operation");
            reveal_strlit("SubmodelElementCollection");
            reveal_strlit("SubmodelElementList");
            reveal_strlit("modelType");
            reveal_strlit("entityType");
            reveal_strlit("statement");
            reveal_strlit("globalAssetId");
            reveal_strlit("specificAssetId");
            reveal_strlit("idShort");
            reveal_strlit("displayName");
            reveal_strlit("description");
            reveal_strlit("category");
            reveal_strlit("extensions");
            reveal_strlit("semanticId");
            reveal_strlit("supplementalSemanticIds");
            reveal_strlit("qualifiers");
            reveal_strlit("embeddedDataSpecifications");
            reveal_strlit("inputVariable");
            reveal_strlit("outputVariable");
            reveal_strlit("inoutputVariable");
            reveal_strlit("orderRelevant");
            reveal_strlit("value");
            reveal_strlit("semanticIdListElement");
            reveal_strlit("typeValueListElement");
            reveal_strlit("valueTypeListElement");
            reveal_strlit("CoManagedEntity");
            reveal_strlit("SelfManagedEntity");
            assert("AnnotatedRelationshipElement"@.len() == 28 && "RelationshipElement"@.len() == 19);
            assert("BasicEventElement"@.len() == 17 && "RelationshipElement"@.len() == 19);
            assert("BasicEventElement"@.len() == 17 && "AnnotatedRelationshipElement"@.len() == 28);
            assert("Blob"@.len() == 4 && "RelationshipElement"@.len() == 19);
            assert("Blob"@.len() == 4 && "AnnotatedRelationshipElement"@.len() == 28);
            assert("Blob"@.len() == 4 && "BasicEventElement"@.len() == 17);
            assert("Capability"@.len() == 10 && "RelationshipElement"@.len() == 19);
            assert("Capability"@.len() == 10 && "AnnotatedRelationshipElement"@.len() == 28);
            assert("Capability"@.len() == 10 && "BasicEventElement"@.len() == 17);
            assert("Capability"@.len() == 10 && "Blob"@.len() == 4);
            assert("File"@.len() == 4 && "RelationshipElement"@.len() == 19);
            assert("File"@.len() == 4 && "AnnotatedRelationshipElement"@.len() == 28);
            assert("File"@.len() == 4 && "BasicEventElement"@.len() == 17);
            assert("File"@[0] != "Blob"@[0]);
            assert("File"@.len() == 4 && "Capability"@.len() == 10);
            assert("MultiLanguageProperty"@.len() == 21 && "RelationshipElement"@.len() == 19);
            assert("MultiLanguageProperty"@.len() == 21 && "AnnotatedRelationshipElement"@.len() == 28);
            assert("MultiLanguageProperty"@.len() == 21 && "BasicEventElement"@.len() == 17);
            assert("MultiLanguageProperty"@.len() == 21 && "Blob"@.len() == 4);
            assert("MultiLanguageProperty"@.len() == 21 && "Capability"@.len() == 10);
            assert("MultiLanguageProperty"@.len() == 21 && "File"@.len() == 4);
            assert("Property"@.len() == 8 && "RelationshipElement"@.len() == 19);
            assert("Property"@.len() == 8 && "AnnotatedRelationshipElement"@.len() == 28);
            assert("Property"@.len() == 8 && "BasicEventElement"@.len() == 17);
            assert("Property"@.len() == 8 && "Blob"@.len() == 4);
            assert("Property"@.len() == 8 && "Capability"@.len() == 10);
            assert("Property"@.len() == 8 && "File"@.len() == 4);
            assert("Property"@.len() == 8 && "MultiLanguageProperty"@.len() == 21);
            assert("Range"@.len() == 5 && "RelationshipElement"@.len() == 19);
            assert("Range"@.len() == 5 && "AnnotatedRelationshipElement"@.len() == 28);
            assert("Range"@.len() == 5 && "BasicEventElement"@.len() == 17);
            assert("Range"@.len() == 5 && "Blob"@.len() == 4);
            assert("Range"@.len() == 5 && "Capability"@.len() == 10);
            assert("Range"@.len() == 5 && "File"@.len() == 4);
            assert("Range"@.len() == 5 && "MultiLanguageProperty"@.len() == 21);
            assert("Range"@.len() == 5 && "Property"@.len() == 8);
            assert("ReferenceElement"@.len() == 16 && "RelationshipElement"@.len() == 19);
            assert("ReferenceElement"@.len() == 16 && "AnnotatedRelationshipElement"@.len() == 28);
            assert("ReferenceElement"@.len() == 16 && "BasicEventElement"@.len() == 17);
            assert("ReferenceElement"@.len() == 16 && "Blob"@.len() == 4);
            assert("ReferenceElement"@.len() == 16 && "Capability"@.len() == 10);
            assert("ReferenceElement"@.len() == 16 && "File"@.len() == 4);
            assert("ReferenceElement"@.len() == 16 && "MultiLanguageProperty"@.len() == 21);
            assert("ReferenceElement"@.len() == 16 && "Property"@.len() == 8);
            assert("ReferenceElement"@.len() == 16 && "Range"@.len() == 5);
            assert("DataElement"@.len() == 11 && "RelationshipElement"@.len() == 19);
            assert("DataElement"@.len() == 11 && "AnnotatedRelationshipElement"@.len() == 28);
            assert("DataElement"@.len() == 11 && "BasicEventElement"@.len() == 17);
            assert("DataElement"@.len() == 11 && "Blob"@.len() == 4);
            assert("DataElement"@.len() == 11 && "Capability"@.len() == 10);
            assert("DataElement"@.len() == 11 && "File"@.len() == 4);
            assert("DataElement"@.len() == 11 && "MultiLanguageProperty"@.len() == 21);
            assert("DataElement"@.len() == 11 && "Property"@.len() == 8);
            assert("DataElement"@.len() == 11 && "Range"@.len() == 5);
            assert("DataElement"@.len() == 11 && "ReferenceElement"@.len() == 16);
            assert("Entity"@.len() == 6 && "RelationshipElement"@.len() == 19);
            assert("Entity"@.len() == 6 && "AnnotatedRelationshipElement"@.len() == 28);
            assert("Entity"@.len() == 6 && "BasicEventElement"@.len() == 17);
            assert("Entity"@.len() == 6 && "Blob"@.len() == 4);
            assert("Entity"@.len() == 6 && "Capability"@.len() == 10);
            assert("Entity"@.len() == 6 && "File"@.len() == 4);
            assert("Entity"@.len() == 6 && "MultiLanguageProperty"@.len() == 21);
            assert("Entity"@.len() == 6 && "Property"@.len() == 8);
            assert("Entity"@.len() == 6 && "Range"@.len() == 5);
            assert("Entity"@.len() == 6 && "ReferenceElement"@.len() == 16);
            assert("Entity"@.len() == 6 && "DataElement"@.len() == 11);
            assert("Operation"@.len() == 9 && "RelationshipElement"@.len() == 19);
            assert("Operation"@.len() == 9 && "AnnotatedRelationshipElement"@.len() == 28);
            assert("Operation"@.len() == 9 && "BasicEventElement"@.len() == 17);
            assert("Operation"@.len() == 9 && "Blob"@.len() == 4);
            assert("Operation"@.len() == 9 && "Capability"@.len() == 10);
            assert("Operation"@.len() == 9 && "File"@.len() == 4);
            assert("Operation"@.len() == 9 && "MultiLanguageProperty"@.len() == 21);
            assert("Operation"@.len() == 9 && "Property"@.len() == 8);
            assert("Operation"@.len() == 9 && "Range"@.len() == 5);
            assert("Operation"@.len() == 9 && "ReferenceElement"@.len() == 16);
            assert("Operation"@.len() == 9 && "DataElement"@.len() == 11);
            assert("Operation"@.len() == 9 && "Entity"@.len() == 6);
            assert("SubmodelElementCollection"@.len() == 25 && "RelationshipElement"@.len() == 19);
            assert("SubmodelElementCollection"@.len() == 25 && "AnnotatedRelationshipElement"@.len() == 28);
            assert("SubmodelElementCollection"@.len() == 25 && "BasicEventElement"@.len() == 17);
            assert("SubmodelElementCollection"@.len() == 25 && "Blob"@.len() == 4);
            assert("SubmodelElementCollection"@.len() == 25 && "Capability"@.len() == 10);
            assert("SubmodelElementCollection"@.len() == 25 && "File"@.len() == 4);
            assert("SubmodelElementCollection"@.len() == 25 && "MultiLanguageProperty"@.len() == 21);
            assert("SubmodelElementCollection"@.len() == 25 && "Property"@.len() == 8);
            assert("SubmodelElementCollection"@.len() == 25 && "Range"@.len() == 5);
            assert("SubmodelElementCollection"@.len() == 25 && "ReferenceElement"@.len() == 16);
            assert("SubmodelElementCollection"@.len() == 25 && "DataElement"@.len() == 11);
            assert("SubmodelElementCollection"@.len() == 25 && "Entity"@.len() == 6);
            assert("SubmodelElementCollection"@.len() == 25 && "Operation"@.len() == 9);
            assert("SubmodelElementList"@[0] != "RelationshipElement"@[0]);
            assert("SubmodelElementList"@.len() == 19 && "AnnotatedRelationshipElement"@.len() == 28);
            assert("SubmodelElementList"@.len() == 19 && "BasicEventElement"@.len() == 17);
            assert("SubmodelElementList"@.len() == 19 && "Blob"@.len() == 4);
            assert("SubmodelElementList"@.len() == 19 && "Capability"@.len() == 10);
            assert("SubmodelElementList"@.len() == 19 && "File"@.len() == 4);
            assert("SubmodelElementList"@.len() == 19 && "MultiLanguageProperty"@.len() == 21);
            assert("SubmodelElementList"@.len() == 19 && "Property"@.len() == 8);
            assert("SubmodelElementList"@.len() == 19 && "Range"@.len() == 5);
            assert("SubmodelElementList"@.len() == 19 && "ReferenceElement"@.len() == 16);
            assert("SubmodelElementList"@.len() == 19 && "DataElement"@.len() == 11);
            assert("SubmodelElementList"@.len() == 19 && "Entity"@.len() == 6);
            assert("SubmodelElementList"@.len() == 19 && "Operation"@.len() == 9);
            assert("SubmodelElementList"@.len() == 19 && "SubmodelElementCollection"@.len() == 25);
            assert("modelType"@.len() == 9 && "RelationshipElement"@.len() == 19);
            assert("modelType"@.len() == 9 && "AnnotatedRelationshipElement"@.len() == 28);
            assert("modelType"@.len() == 9 && "BasicEventElement"@.len() == 17);
            assert("modelType"@.len() == 9 && "Blob"@.len() == 4);
            assert("modelType"@.len() == 9 && "Capability"@.len() == 10);
            assert("modelType"@.len() == 9 && "File"@.len() == 4);
            assert("modelType"@.len() == 9 && "MultiLanguageProperty"@.len() == 21);
            assert("modelType"@.len() == 9 && "Property"@.len() == 8);
            assert("modelType"@.len() == 9 && "Range"@.len() == 5);
            assert("modelType"@.len() == 9 && "ReferenceElement"@.len() == 16);
            assert("modelType"@.len() == 9 && "DataElement"@.len() == 11);
            assert("modelType"@.len() == 9 && "Entity"@.len() == 6);
            assert("modelType"@[0] != "Operation"@[0]);
            assert("modelType"@.len() == 9 && "SubmodelElementCollection"@.len() == 25);
            assert("modelType"@.len() == 9 && "SubmodelElementList"@.len() == 19);
            assert("entityType"@.len() == 10 && "RelationshipElement"@.len() == 19);
            assert("entityType"@.len() == 10 && "AnnotatedRelationshipElement"@.len() == 28);
            assert("entityType"@.len() == 10 && "BasicEventElement"@.len() == 17);
            assert("entityType"@.len() == 10 && "Blob"@.len() == 4);
            assert("entityType"@[0] != "Capability"@[0]);
            assert("entityType"@.len() == 10 && "File"@.len() == 4);
            assert("entityType"@.len() == 10 && "MultiLanguageProperty"@.len() == 21);
            assert("entityType"@.len() == 10 && "Property"@.len() == 8);
            assert("entityType"@.len() == 10 && "Range"@.len() == 5);
            assert("entityType"@.len() == 10 && "ReferenceElement"@.len() == 16);
            assert("entityType"@.len() == 10 && "DataElement"@.len() == 11);
            assert("entityType"@.len() == 10 && "Entity"@.len() == 6);
            assert("entityType"@.len() == 10 && "Operation"@.len() == 9);
            assert("entityType"@.len() == 10 && "SubmodelElementCollection"@.len() == 25);
            assert("entityType"@.len() == 10 && "SubmodelElementList"@.len() == 19);
            assert("entityType"@.len() == 10 && "modelType"@.len() == 9);
            assert("statement"@.len() == 9 && "RelationshipElement"@.len() == 19);
            assert("statement"@.len() == 9 && "AnnotatedRelationshipElement"@.len() == 28);
            assert("statement"@.len() == 9 && "BasicEventElement"@.len() == 17);
            assert("statement"@.len() == 9 && "Blob"@.len() == 4);
            assert("statement"@.len() == 9 && "Capability"@.len() == 10);
            assert("statement"@.len() == 9 && "File"@.len() == 4);
            assert("statement"@.len() == 9 && "MultiLanguageProperty"@.len() == 21);
            assert("statement"@.len() == 9 && "Property"@.len() == 8);
            assert("statement"@.len() == 9 && "Range"@.len() == 5);
            assert("statement"@.len() == 9 && "ReferenceElement"@.len() == 16);
            assert("statement"@.len() == 9 && "DataElement"@.len() == 11);
            assert("statement"@.len() == 9 && "Entity"@.len() == 6);
            assert("statement"@[0] != "Operation"@[0]);
            assert("statement"@.len() == 9 && "SubmodelElementCollection"@.len() == 25);
            assert("statement"@.len() == 9 && "SubmodelElementList"@.len() == 19);
            assert("statement"@[0] != "modelType"@[0]);
            assert("statement"@.len() == 9 && "entityType"@.len() == 10);
            assert("globalAssetId"@.len() == 13 && "RelationshipElement"@.len() == 19);
            assert("globalAssetId"@.len() == 13 && "AnnotatedRelationshipElement"@.len() == 28);
            assert("globalAssetId"@.len() == 13 && "BasicEventElement"@.len() == 17);
            assert("globalAssetId"@.len() == 13 && "Blob"@.len() == 4);
            assert("globalAssetId"@.len() == 13 && "Capability"@.len() == 10);
            assert("globalAssetId"@.len() == 13 && "File"@.len() == 4);
            assert("globalAssetId"@.len() == 13 && "MultiLanguageProperty"@.len() == 21);
            assert("globalAssetId"@.len() == 13 && "Property"@.len() == 8);
            assert("globalAssetId"@.len() == 13 && "Range"@.len() == 5);
            assert("globalAssetId"@.len() == 13 && "ReferenceElement"@.len() == 16);
            assert("globalAssetId"@.len() == 13 && "DataElement"@.len() == 11);
            assert("globalAssetId"@.len() == 13 && "Entity"@.len() == 6);
            assert("globalAssetId"@.len() == 13 && "Operation"@.len() == 9);
            assert("globalAssetId"@.len() == 13 && "SubmodelElementCollection"@.len() == 25);
            assert("globalAssetId"@.len() == 13 && "SubmodelElementList"@.len() == 19);
            assert("globalAssetId"@.len() == 13 && "modelType"@.len() == 9);
            assert("globalAssetId"@.len() == 13 && "entityType"@.len() == 10);
            assert("globalAssetId"@.len() == 13 && "statement"@.len() == 9);
            assert("specificAssetId"@.len() == 15 && "RelationshipElement"@.len() == 19);
            assert("specificAssetId"@.len() == 15 && "AnnotatedRelationshipElement"@.len() == 28);
            assert("specificAssetId"@.len() == 15 && "BasicEventElement"@.len() == 17);
            assert("specificAssetId"@.len() == 15 && "Blob"@.len() == 4);
            assert("specificAssetId"@.len() == 15 && "Capability"@.len() == 10);
            assert("specificAssetId"@.len() == 15 && "File"@.len() == 4);
            assert("specificAssetId"@.len() == 15 && "MultiLanguageProperty"@.len() == 21);
            assert("specificAssetId"@.len() == 15 && "Property"@.len() == 8);
            assert("specificAssetId"@.len() == 15 && "Range"@.len() == 5);
            assert("specificAssetId"@.len() == 15 && "ReferenceElement"@.len() == 16);
            assert("specificAssetId"@.len() == 15 && "DataElement"@.len() == 11);
            assert("specificAssetId"@.len() == 15 && "Entity"@.len() == 6);
            assert("specificAssetId"@.len() == 15 && "Operation"@.len() == 9);
            assert("specificAssetId"@.len() == 15 && "SubmodelElementCollection"@.len() == 25);
            assert("specificAssetId"@.len() == 15 && "SubmodelElementList"@.len() == 19);
            assert("specificAssetId"@.len() == 15 && "modelType"@.len() == 9);
            assert("specificAssetId"@.len() == 15 && "entityType"@.len() == 10);
            assert("specificAssetId"@.len() == 15 && "statement"@.len() == 9);
            assert("specificAssetId"@.len() == 15 && "globalAssetId"@.len() == 13);
            assert("idShort"@.len() == 7 && "RelationshipElement"@.len() == 19);
            assert("idShort"@.len() == 7 && "AnnotatedRelationshipElement"@.len() == 28);
            assert("idShort"@.len() == 7 && "BasicEventElement"@.len() == 17);
            assert("idShort"@.len() == 7 && "Blob"@.len() == 4);
            assert("idShort"@.len() == 7 && "Capability"@.len() == 10);
            assert("idShort"@.len() == 7 && "File"@.len() == 4);
            assert("idShort"@.len() == 7 && "MultiLanguageProperty"@.len() == 21);
            assert("idShort"@.len() == 7 && "Property"@.len() == 8);
            assert("idShort"@.len() == 7 && "Range"@.len() == 5);
            assert("idShort"@.len() == 7 && "ReferenceElement"@.len() == 16);
            assert("idShort"@.len() == 7 && "DataElement"@.len() == 11);
            assert("idShort"@.len() == 7 && "Entity"@.len() == 6);
            assert("idShort"@.len() == 7 && "Operation"@.len() == 9);
            assert("idShort"@.len() == 7 && "SubmodelElementCollection"@.len() == 25);
            assert("idShort"@.len() == 7 && "SubmodelElementList"@.len() == 19);
            assert("idShort"@.len() == 7 && "modelType"@.len() == 9);
            assert("idShort"@.len() == 7 && "entityType"@.len() == 10);
            assert("idShort"@.len() == 7 && "statement"@.len() == 9);
            assert("idShort"@.len() == 7 && "globalAssetId"@.len() == 13);
            assert("idShort"@.len() == 7 && "specificAssetId"@.len() == 15);
            assert("displayName"@.len() == 11 && "RelationshipElement"@.len() == 19);
            assert("displayName"@.len() == 11 && "AnnotatedRelationshipElement"@.len() == 28);
            assert("displayName"@.len() == 11 && "BasicEventElement"@.len() == 17);
            assert("displayName"@.len() == 11 && "Blob"@.len() == 4);
            assert("displayName"@.len() == 11 && "Capability"@.len() == 10);
            assert("displayName"@.len() == 11 && "File"@.len() == 4);
            assert("displayName"@.len() == 11 && "MultiLanguageProperty"@.len() == 21);
            assert("displayName"@.len() == 11 && "Property"@.len() == 8);
            assert("displayName"@.len() == 11 && "Range"@.len() == 5);
            assert("displayName"@.len() == 11 && "ReferenceElement"@.len() == 16);
            assert("displayName"@[0] != "DataElement"@[0]);
            assert("displayName"@.len() == 11 && "Entity"@.len() == 6);
            assert("displayName"@.len() == 11 && "Operation"@.len() == 9);
            assert("displayName"@.len() == 11 && "SubmodelElementCollection"@.len() == 25);
            assert("displayName"@.len() == 11 && "SubmodelElementList"@.len() == 19);
            assert("displayName"@.len() == 11 && "modelType"@.len() == 9);
            assert("displayName"@.len() == 11 && "entityType"@.len() == 10);
            assert("displayName"@.len() == 11 && "statement"@.len() == 9);
            assert("displayName"@.len() == 11 && "globalAssetId"@.len() == 13);
            assert("displayName"@.len() == 11 && "specificAssetId"@.len() == 15);
            assert("displayName"@.len() == 11 && "idShort"@.len() == 7);
            assert("description"@.len() == 11 && "RelationshipElement"@.len() == 19);
            assert("description"@.len() == 11 && "AnnotatedRelationshipElement"@.len() == 28);
            assert("description"@.len() == 11 && "BasicEventElement"@.len() == 17);
            assert("description"@.len() == 11 && "Blob"@.len() == 4);
            assert("description"@.len() == 11 && "Capability"@.len() == 10);
            assert("description"@.len() == 11 && "File"@.len() == 4);
            assert("description"@.len() == 11 && "MultiLanguageProperty"@.len() == 21);
            assert("description"@.len() == 11 && "Property"@.len() == 8);
            assert("description"@.len() == 11 && "Range"@.len() == 5);
            assert("description"@.len() == 11 && "ReferenceElement"@.len() == 16);
            assert("description"@[0] != "DataElement"@[0]);
            assert("description"@.len() == 11 && "Entity"@.len() == 6);
            assert("description"@.len() == 11 && "Operation"@.len() == 9);
            assert("description"@.len() == 11 && "SubmodelElementCollection"@.len() == 25);
            assert("description"@.len() == 11 && "SubmodelElementList"@.len() == 19);
            assert("description"@.len() == 11 && "modelType"@.len() == 9);
            assert("description"@.len() == 11 && "entityType"@.len() == 10);
            assert("description"@.len() == 11 && "statement"@.len() == 9);
            assert("description"@.len() == 11 && "globalAssetId"@.len() == 13);
            assert("description"@.len() == 11 && "specificAssetId"@.len() == 15);
            assert("description"@.len() == 11 && "idShort"@.len() == 7);
            assert("description"@[1] != "displayName"@[1]);
            assert("category"@.len() == 8 && "RelationshipElement"@.len() == 19);
            assert("category"@.len() == 8 && "AnnotatedRelationshipElement"@.len() == 28);
            assert("category"@.len() == 8 && "BasicEventElement"@.len() == 17);
            assert("category"@.len() == 8 && "Blob"@.len() == 4);
            assert("category"@.len() == 8 && "Capability"@.len() == 10);
            assert("category"@.len() == 8 && "File"@.len() == 4);
            assert("category"@.len() == 8 && "MultiLanguageProperty"@.len() == 21);
            assert("category"@[0] != "Property"@[0]);
            assert("category"@.len() == 8 && "Range"@.len() == 5);
            assert("category"@.len() == 8 && "ReferenceElement"@.len() == 16);
            assert("category"@.len() == 8 && "DataElement"@.len() == 11);
            assert("category"@.len() == 8 && "Entity"@.len() == 6);
            assert("category"@.len() == 8 && "Operation"@.len() == 9);
            assert("category"@.len() == 8 && "SubmodelElementCollection"@.len() == 25);
            assert("category"@.len() == 8 && "SubmodelElementList"@.len() == 19);
            assert("category"@.len() == 8 && "modelType"@.len() == 9);
            assert("category"@.len() == 8 && "entityType"@.len() == 10);
            assert("category"@.len() == 8 && "statement"@.len() == 9);
            assert("category"@.len() == 8 && "globalAssetId"@.len() == 13);
            assert("category"@.len() == 8 && "specificAssetId"@.len() == 15);
            assert("category"@.len() == 8 && "idShort"@.len() == 7);
            assert("category"@.len() == 8 && "displayName"@.len() == 11);
            assert("category"@.len() == 8 && "description"@.len() == 11);
            assert("extensions"@.len() == 10 && "RelationshipElement"@.len() == 19);
            assert("extensions"@.len() == 10 && "AnnotatedRelationshipElement"@.len() == 28);
            assert("extensions"@.len() == 10 && "BasicEventElement"@.len() == 17);
            assert("extensions"@.len() == 10 && "Blob"@.len() == 4);
            assert("extensions"@[0] != "Capability"@[0]);
            assert("extensions"@.len() == 10 && "File"@.len() == 4);
            assert("extensions"@.len() == 10 && "MultiLanguageProperty"@.len() == 21);
            assert("extensions"@.len() == 10 && "Property"@.len() == 8);
            assert("extensions"@.len() == 10 && "Range"@.len() == 5);
            assert("extensions"@.len() == 10 && "ReferenceElement"@.len() == 16);
            assert("extensions"@.len() == 10 && "DataElement"@.len() == 11);
            assert("extensions"@.len() == 10 && "Entity"@.len() == 6);
            assert("extensions"@.len() == 10 && "Operation"@.len() == 9);
            assert("extensions"@.len() == 10 && "SubmodelElementCollection"@.len() == 25);
            assert("extensions"@.len() == 10 && "SubmodelElementList"@.len() == 19);
            assert("extensions"@.len() == 10 && "modelType"@.len() == 9);
            assert("extensions"@[1] != "entityType"@[1]);
            assert("extensions"@.len() == 10 && "statement"@.len() == 9);
            assert("extensions"@.len() == 10 && "globalAssetId"@.len() == 13);
            assert("extensions"@.len() == 10 && "specificAssetId"@.len() == 15);
            assert("extensions"@.len() == 10 && "idShort"@.len() == 7);
            assert("extensions"@.len() == 10 && "displayName"@.len() == 11);
            assert("extensions"@.len() == 10 && "description"@.len() == 11);
            assert("extensions"@.len() == 10 && "category"@.len() == 8);
            assert("semanticId"@.len() == 10 && "RelationshipElement"@.len() == 19);
            assert("semanticId"@.len() == 10 && "AnnotatedRelationshipElement"@.len() == 28);
            assert("semanticId"@.len() == 10 && "BasicEventElement"@.len() == 17);
            assert("semanticId"@.len() == 10 && "Blob"@.len() == 4);
            assert("semanticId"@[0] != "Capability"@[0]);
            assert("semanticId"@.len() == 10 && "File"@.len() == 4);
            assert("semanticId"@.len() == 10 && "MultiLanguageProperty"@.len() == 21);
            assert("semanticId"@.len() == 10 && "Property"@.len() == 8);
            assert("semanticId"@.len() == 10 && "Range"@.len() == 5);
            assert("semanticId"@.len() == 10 && "ReferenceElement"@.len() == 16);
            assert("semanticId"@.len() == 10 && "DataElement"@.len() == 11);
            assert("semanticId"@.len() == 10 && "Entity"@.len() == 6);
            assert("semanticId"@.len() == 10 && "Operation"@.len() == 9);
            assert("semanticId"@.len() == 10 && "SubmodelElementCollection"@.len() == 25);
            assert("semanticId"@.len() == 10 && "SubmodelElementList"@.len() == 19);
            assert("semanticId"@.len() == 10 && "modelType"@.len() == 9);
            assert("semanticId"@[0] != "entityType"@[0]);
            assert("semanticId"@.len() == 10 && "statement"@.len() == 9);
            assert("semanticId"@.len() == 10 && "globalAssetId"@.len() == 13);
            assert("semanticId"@.len() == 10 && "specificAssetId"@.len() == 15);
            assert("semanticId"@.len() == 10 && "idShort"@.len() == 7);
            assert("semanticId"@.len() == 10 && "displayName"@.len() == 11);
            assert("semanticId"@.len() == 10 && "description"@.len() == 11);
            assert("semanticId"@.len() == 10 && "category"@.len() == 8);
            assert("semanticId"@[0] != "extensions"@[0]);
            assert("supplementalSemanticIds"@.len() == 23 && "RelationshipElement"@.len() == 19);
            assert("supplementalSemanticIds"@.len() == 23 && "AnnotatedRelationshipElement"@.len() == 28);
            assert("supplementalSemanticIds"@.len() == 23 && "BasicEventElement"@.len() == 17);
            assert("supplementalSemanticIds"@.len() == 23 && "Blob"@.len() == 4);
            assert("supplementalSemanticIds"@.len() == 23 && "Capability"@.len() == 10);
            assert("supplementalSemanticIds"@.len() == 23 && "File"@.len() == 4);
            assert("supplementalSemanticIds"@.len() == 23 && "MultiLanguageProperty"@.len() == 21);
            assert("supplementalSemanticIds"@.len() == 23 && "Property"@.len() == 8);
            assert("supplementalSemanticIds"@.len() == 23 && "Range"@.len() == 5);
            assert("supplementalSemanticIds"@.len() == 23 && "ReferenceElement"@.len() == 16);
            assert("supplementalSemanticIds"@.len() == 23 && "DataElement"@.len() == 11);
            assert("supplementalSemanticIds"@.len() == 23 && "Entity"@.len() == 6);
            assert("supplementalSemanticIds"@.len() == 23 && "Operation"@.len() == 9);
            assert("supplementalSemanticIds"@.len() == 23 && "SubmodelElementCollection"@.len() == 25);
            assert("supplementalSemanticIds"@.len() == 23 && "SubmodelElementList"@.len() == 19);
            assert("supplementalSemanticIds"@.len() == 23 && "modelType"@.len() == 9);
            assert("supplementalSemanticIds"@.len() == 23 && "entityType"@.len() == 10);
            assert("supplementalSemanticIds"@.len() == 23 && "statement"@.len() == 9);
            assert("supplementalSemanticIds"@.len() == 23 && "globalAssetId"@.len() == 13);
            assert("supplementalSemanticIds"@.len() == 23 && "specificAssetId"@.len() == 15);
            assert("supplementalSemanticIds"@.len() == 23 && "idShort"@.len() == 7);
            assert("supplementalSemanticIds"@.len() == 23 && "displayName"@.len() == 11);
            assert("supplementalSemanticIds"@.len() == 23 && "description"@.len() == 11);
            assert("supplementalSemanticIds"@.len() == 23 && "category"@.len() == 8);
            assert("supplementalSemanticIds"@.len() == 23 && "extensions"@.len() == 10);
            assert("supplementalSemanticIds"@.len() == 23 && "semanticId"@.len() == 10);
            assert("qualifiers"@.len() == 10 && "RelationshipElement"@.len() == 19);
            assert("qualifiers"@.len() == 10 && "AnnotatedRelationshipElement"@.len() == 28);
            assert("qualifiers"@.len() == 10 && "BasicEventElement"@.len() == 17);
            assert("qualifiers"@.len() == 10 && "Blob"@.len() == 4);
            assert("qualifiers"@[0] != "Capability"@[0]);
            assert("qualifiers"@.len() == 10 && "File"@.len() == 4);
            assert("qualifiers"@.len() == 10 && "MultiLanguageProperty"@.len() == 21);
            assert("qualifiers"@.len() == 10 && "Property"@.len() == 8);
            assert("qualifiers"@.len() == 10 && "Range"@.len() == 5);
            assert("qualifiers"@.len() == 10 && "ReferenceElement"@.len() == 16);
            assert("qualifiers"@.len() == 10 && "DataElement"@.len() == 11);
            assert("qualifiers"@.len() == 10 && "Entity"@.len() == 6);
            assert("qualifiers"@.len() == 10 && "Operation"@.len() == 9);
            assert("qualifiers"@.len() == 10 && "SubmodelElementCollection"@.len() == 25);
            assert("qualifiers"@.len() == 10 && "SubmodelElementList"@.len() == 19);
            assert("qualifiers"@.len() == 10 && "modelType"@.len() == 9);
            assert("qualifiers"@[0] != "entityType"@[0]);
            assert("qualifiers"@.len() == 10 && "statement"@.len() == 9);
            assert("qualifiers"@.len() == 10 && "globalAssetId"@.len() == 13);
            assert("qualifiers"@.len() == 10 && "specificAssetId"@.len() == 15);
            assert("qualifiers"@.len() == 10 && "idShort"@.len() == 7);
            assert("qualifiers"@.len() == 10 && "displayName"@.len() == 11);
            assert("qualifiers"@.len() == 10 && "description"@.len() == 11);
            assert("qualifiers"@.len() == 10 && "category"@.len() == 8);
            assert("qualifiers"@[0] != "extensions"@[0]);
            assert("qualifiers"@[0] != "semanticId"@[0]);
            assert("qualifiers"@.len() == 10 && "supplementalSemanticIds"@.len() == 23);
            assert("embeddedDataSpecifications"@.len() == 26 && "RelationshipElement"@.len() == 19);
            assert("embeddedDataSpecifications"@.len() == 26 && "AnnotatedRelationshipElement"@.len() == 28);
            assert("embeddedDataSpecifications"@.len() == 26 && "BasicEventElement"@.len() == 17);
            assert("embeddedDataSpecifications"@.len() == 26 && "Blob"@.len() == 4);
            assert("embeddedDataSpecifications"@.len() == 26 && "Capability"@.len() == 10);
            assert("embeddedDataSpecifications"@.len() == 26 && "File"@.len() == 4);
            assert("embeddedDataSpecifications"@.len() == 26 && "MultiLanguageProperty"@.len() == 21);
            assert("embeddedDataSpecifications"@.len() == 26 && "Property"@.len() == 8);
            assert("embeddedDataSpecifications"@.len() == 26 && "Range"@.len() == 5);
            assert("embeddedDataSpecifications"@.len() == 26 && "ReferenceElement"@.len() == 16);
            assert("embeddedDataSpecifications"@.len() == 26 && "DataElement"@.len() == 11);
            assert("embeddedDataSpecifications"@.len() == 26 && "Entity"@.len() == 6);
            assert("embeddedDataSpecifications"@.len() == 26 && "Operation"@.len() == 9);
            assert("embeddedDataSpecifications"@.len() == 26 && "SubmodelElementCollection"@.len() == 25);
            assert("embeddedDataSpecifications"@.len() == 26 && "SubmodelElementList"@.len() == 19);
            assert("embeddedDataSpecifications"@.len() == 26 && "modelType"@.len() == 9);
            assert("embeddedDataSpecifications"@.len() == 26 && "entityType"@.len() == 10);
            assert("embeddedDataSpecifications"@.len() == 26 && "statement"@.len() == 9);
            assert("embeddedDataSpecifications"@.len() == 26 && "globalAssetId"@.len() == 13);
            assert("embeddedDataSpecifications"@.len() == 26 && "specificAssetId"@.len() == 15);
            assert("embeddedDataSpecifications"@.len() == 26 && "idShort"@.len() == 7);
            assert("embeddedDataSpecifications"@.len() == 26 && "displayName"@.len() == 11);
            assert("embeddedDataSpecifications"@.len() == 26 && "description"@.len() == 11);
            assert("embeddedDataSpecifications"@.len() == 26 && "category"@.len() == 8);
            assert("embeddedDataSpecifications"@.len() == 26 && "extensions"@.len() == 10);
            assert("embeddedDataSpecifications"@.len() == 26 && "semanticId"@.len() == 10);
            assert("embeddedDataSpecifications"@.len() == 26 && "supplementalSemanticIds"@.len() == 23);
            assert("embeddedDataSpecifications"@.len() == 26 && "qualifiers"@.len() == 10);
            assert("inputVariable"@.len() == 13 && "RelationshipElement"@.len() == 19);
            assert("inputVariable"@.len() == 13 && "AnnotatedRelationshipElement"@.len() == 28);
            assert("inputVariable"@.len() == 13 && "BasicEventElement"@.len() == 17);
            assert("inputVariable"@.len() == 13 && "Blob"@.len() == 4);
            assert("inputVariable"@.len() == 13 && "Capability"@.len() == 10);
            assert("inputVariable"@.len() == 13 && "File"@.len() == 4);
            assert("inputVariable"@.len() == 13 && "MultiLanguageProperty"@.len() == 21);
            assert("inputVariable"@.len() == 13 && "Property"@.len() == 8);
            assert("inputVariable"@.len() == 13 && "Range"@.len() == 5);
            assert("inputVariable"@.len() == 13 && "ReferenceElement"@.len() == 16);
            assert("inputVariable"@.len() == 13 && "DataElement"@.len() == 11);
            assert("inputVariable"@.len() == 13 && "Entity"@.len() == 6);
            assert("inputVariable"@.len() == 13 && "Operation"@.len() == 9);
            assert("inputVariable"@.len() == 13 && "SubmodelElementCollection"@.len() == 25);
            assert("inputVariable"@.len() == 13 && "SubmodelElementList"@.len() == 19);
            assert("inputVariable"@.len() == 13 && "modelType"@.len() == 9);
            assert("inputVariable"@.len() == 13 && "entityType"@.len() == 10);
            assert("inputVariable"@.len() == 13 && "statement"@.len() == 9);
            assert("inputVariable"@[0] != "globalAssetId"@[0]);
            assert("inputVariable"@.len() == 13 && "specificAssetId"@.len() == 15);
            assert("inputVariable"@.len() == 13 && "idShort"@.len() == 7);
            assert("inputVariable"@.len() == 13 && "displayName"@.len() == 11);
            assert("inputVariable"@.len() == 13 && "description"@.len() == 11);
            assert("inputVariable"@.len() == 13 && "category"@.len() == 8);
            assert("inputVariable"@.len() == 13 && "extensions"@.len() == 10);
            assert("inputVariable"@.len() == 13 && "semanticId"@.len() == 10);
            assert("inputVariable"@.len() == 13 && "supplementalSemanticIds"@.len() == 23);
            assert("inputVariable"@.len() == 13 && "qualifiers"@.len() == 10);
            assert("inputVariable"@.len() == 13 && "embeddedDataSpecifications"@.len() == 26);
            assert("outputVariable"@.len() == 14 && "RelationshipElement"@.len() == 19);
            assert("outputVariable"@.len() == 14 && "AnnotatedRelationshipElement"@.len() == 28);
            assert("outputVariable"@.len() == 14 && "BasicEventElement"@.len() == 17);
            assert("outputVariable"@.len() == 14 && "Blob"@.len() == 4);
            assert("outputVariable"@.len() == 14 && "Capability"@.len() == 10);
            assert("outputVariable"@.len() == 14 && "File"@.len() == 4);
            assert("outputVariable"@.len() == 14 && "MultiLanguageProperty"@.len() == 21);
            assert("outputVariable"@.len() == 14 && "Property"@.len() == 8);
            assert("outputVariable"@.len() == 14 && "Range"@.len() == 5);
            assert("outputVariable"@.len() == 14 && "ReferenceElement"@.len() == 16);
            assert("outputVariable"@.len() == 14 && "DataElement"@.len() == 11);
            assert("outputVariable"@.len() == 14 && "Entity"@.len() == 6);
            assert("outputVariable"@.len() == 14 && "Operation"@.len() == 9);
            assert("outputVariable"@.len() == 14 && "SubmodelElementCollection"@.len() == 25);
            assert("outputVariable"@.len() == 14 && "SubmodelElementList"@.len() == 19);
            assert("outputVariable"@.len() == 14 && "modelType"@.len() == 9);
            assert("outputVariable"@.len() == 14 && "entityType"@.len() == 10);
            assert("outputVariable"@.len() == 14 && "statement"@.len() == 9);
            assert("outputVariable"@.len() == 14 && "globalAssetId"@.len() == 13);
            assert("outputVariable"@.len() == 14 && "specificAssetId"@.len() == 15);
            assert("outputVariable"@.len() == 14 && "idShort"@.len() == 7);
            assert("outputVariable"@.len() == 14 && "displayName"@.len() == 11);
            assert("outputVariable"@.len() == 14 && "description"@.len() == 11);
            assert("outputVariable"@.len() == 14 && "category"@.len() == 8);
            assert("outputVariable"@.len() == 14 && "extensions"@.len() == 10);
            assert("outputVariable"@.len() == 14 && "semanticId"@.len() == 10);
            assert("outputVariable"@.len() == 14 && "supplementalSemanticIds"@.len() == 23);
            assert("outputVariable"@.len() == 14 && "qualifiers"@.len() == 10);
            assert("outputVariable"@.len() == 14 && "embeddedDataSpecifications"@.len() == 26);
            assert("outputVariable"@.len() == 14 && "inputVariable"@.len() == 13);
            assert("inoutputVariable"@.len() == 16 && "RelationshipElement"@.len() == 19);
            assert("inoutputVariable"@.len() == 16 && "AnnotatedRelationshipElement"@.len() == 28);
            assert("inoutputVariable"@.len() == 16 && "BasicEventElement"@.len() == 17);
            assert("inoutputVariable"@.len() == 16 && "Blob"@.len() == 4);
            assert("inoutputVariable"@.len() == 16 && "Capability"@.len() == 10);
            assert("inoutputVariable"@.len() == 16 && "File"@.len() == 4);
            assert("inoutputVariable"@.len() == 16 && "MultiLanguageProperty"@.len() == 21);
            assert("inoutputVariable"@.len() == 16 && "Property"@.len() == 8);
            assert("inoutputVariable"@.len() == 16 && "Range"@.len() == 5);
            assert("inoutputVariable"@[0] != "ReferenceElement"@[0]);
            assert("inoutputVariable"@.len() == 16 && "DataElement"@.len() == 11);
            assert("inoutputVariable"@.len() == 16 && "Entity"@.len() == 6);
            assert("inoutputVariable"@.len() == 16 && "Operation"@.len() == 9);
            assert("inoutputVariable"@.len() == 16 && "SubmodelElementCollection"@.len() == 25);
            assert("inoutputVariable"@.len() == 16 && "SubmodelElementList"@.len() == 19);
            assert("inoutputVariable"@.len() == 16 && "modelType"@.len() == 9);
            assert("inoutputVariable"@.len() == 16 && "entityType"@.len() == 10);
            assert("inoutputVariable"@.len() == 16 && "statement"@.len() == 9);
            assert("inoutputVariable"@.len() == 16 && "globalAssetId"@.len() == 13);
            assert("inoutputVariable"@.len() == 16 && "specificAssetId"@.len() == 15);
            assert("inoutputVariable"@.len() == 16 && "idShort"@.len() == 7);
            assert("inoutputVariable"@.len() == 16 && "displayName"@.len() == 11);
            assert("inoutputVariable"@.len() == 16 && "description"@.len() == 11);
            assert("inoutputVariable"@.len() == 16 && "category"@.len() == 8);
            assert("inoutputVariable"@.len() == 16 && "extensions"@.len() == 10);
            assert("inoutputVariable"@.len() == 16 && "semanticId"@.len() == 10);
            assert("inoutputVariable"@.len() == 16 && "supplementalSemanticIds"@.len() == 23);
            assert("inoutputVariable"@.len() == 16 && "qualifiers"@.len() == 10);
            assert("inoutputVariable"@.len() == 16 && "embeddedDataSpecifications"@.len() == 26);
            assert("inoutputVariable"@.len() == 16 && "inputVariable"@.len() == 13);
            assert("inoutputVariable"@.len() == 16 && "outputVariable"@.len() == 14);
            assert("orderRelevant"@.len() == 13 && "RelationshipElement"@.len() == 19);
            assert("orderRelevant"@.len() == 13 && "AnnotatedRelationshipElement"@.len() == 28);
            assert("orderRelevant"@.len() == 13 && "BasicEventElement"@.len() == 17);
            assert("orderRelevant"@.len() == 13 && "Blob"@.len() == 4);
            assert("orderRelevant"@.len() == 13 && "Capability"@.len() == 10);
            assert("orderRelevant"@.len() == 13 && "File"@.len() == 4);
            assert("orderRelevant"@.len() == 13 && "MultiLanguageProperty"@.len() == 21);
            assert("orderRelevant"@.len() == 13 && "Property"@.len() == 8);
            assert("orderRelevant"@.len() == 13 && "Range"@.len() == 5);
            assert("orderRelevant"@.len() == 13 && "ReferenceElement"@.len() == 16);
            assert("orderRelevant"@.len() == 13 && "DataElement"@.len() == 11);
            assert("orderRelevant"@.len() == 13 && "Entity"@.len() == 6);
            assert("orderRelevant"@.len() == 13 && "Operation"@.len() == 9);
            assert("orderRelevant"@.len() == 13 && "SubmodelElementCollection"@.len() == 25);
            assert("orderRelevant"@.len() == 13 && "SubmodelElementList"@.len() == 19);
            assert("orderRelevant"@.len() == 13 && "modelType"@.len() == 9);
            assert("orderRelevant"@.len() == 13 && "entityType"@.len() == 10);
            assert("orderRelevant"@.len() == 13 && "statement"@.len() == 9);
            assert("orderRelevant"@[0] != "globalAssetId"@[0]);
            assert("orderRelevant"@.len() == 13 && "specificAssetId"@.len() == 15);
            assert("orderRelevant"@.len() == 13 && "idShort"@.len() == 7);
            assert("orderRelevant"@.len() == 13 && "displayName"@.len() == 11);
            assert("orderRelevant"@.len() == 13 && "description"@.len() == 11);
            assert("orderRelevant"@.len() == 13 && "category"@.len() == 8);
            assert("orderRelevant"@.len() == 13 && "extensions"@.len() == 10);
            assert("orderRelevant"@.len() == 13 && "semanticId"@.len() == 10);
            assert("orderRelevant"@.len() == 13 && "supplementalSemanticIds"@.len() == 23);
            assert("orderRelevant"@.len() == 13 && "qualifiers"@.len() == 10);
            assert("orderRelevant"@.len() == 13 && "embeddedDataSpecifications"@.len() == 26);
            assert("orderRelevant"@[0] != "inputVariable"@[0]);
            assert("orderRelevant"@.len() == 13 && "outputVariable"@.len() == 14);
            assert("orderRelevant"@.len() == 13 && "inoutputVariable"@.len() == 16);
            assert("value"@.len() == 5 && "RelationshipElement"@.len() == 19);
            assert("value"@.len() == 5 && "AnnotatedRelationshipElement"@.len() == 28);
            assert("value"@.len() == 5 && "BasicEventElement"@.len() == 17);
            assert("value"@.len() == 5 && "Blob"@.len() == 4);
            assert("value"@.len() == 5 && "Capability"@.len() == 10);
            assert("value"@.len() == 5 && "File"@.len() == 4);
            assert("value"@.len() == 5 && "MultiLanguageProperty"@.len() == 21);
            assert("value"@.len() == 5 && "Property"@.len() == 8);
            assert("value"@[0] != "Range"@[0]);
            assert("value"@.len() == 5 && "ReferenceElement"@.len() == 16);
            assert("value"@.len() == 5 && "DataElement"@.len() == 11);
            assert("value"@.len() == 5 && "Entity"@.len() == 6);
            assert("value"@.len() == 5 && "Operation"@.len() == 9);
            assert("value"@.len() == 5 && "SubmodelElementCollection"@.len() == 25);
            assert("value"@.len() == 5 && "SubmodelElementList"@.len() == 19);
            assert("value"@.len() == 5 && "modelType"@.len() == 9);
            assert("value"@.len() == 5 && "entityType"@.len() == 10);
            assert("value"@.len() == 5 && "statement"@.len() == 9);
            assert("value"@.len() == 5 && "globalAssetId"@.len() == 13);
            assert("value"@.len() == 5 && "specificAssetId"@.len() == 15);
            assert("value"@.len() == 5 && "idShort"@.len() == 7);
            assert("value"@.len() == 5 && "displayName"@.len() == 11);
            assert("value"@.len() == 5 && "description"@.len() == 11);
            assert("value"@.len() == 5 && "category"@.len() == 8);
            assert("value"@.len() == 5 && "extensions"@.len() == 10);
            assert("value"@.len() == 5 && "semanticId"@.len() == 10);
            assert("value"@.len() == 5 && "supplementalSemanticIds"@.len() == 23);
            assert("value"@.len() == 5 && "qualifiers"@.len() == 10);
            assert("value"@.len() == 5 && "embeddedDataSpecifications"@.len() == 26);
            assert("value"@.len() == 5 && "inputVariable"@.len() == 13);
            assert("value"@.len() == 5 && "outputVariable"@.len() == 14);
            assert("value"@.len() == 5 && "inoutputVariable"@.len() == 16);
            assert("value"@.len() == 5 && "orderRelevant"@.len() == 13);
            assert("semanticIdListElement"@.len() == 21 && "RelationshipElement"@.len() == 19);
            assert("semanticIdListElement"@.len() == 21 && "AnnotatedRelationshipElement"@.len() == 28);
            assert("semanticIdListElement"@.len() == 21 && "BasicEventElement"@.len() == 17);
            assert("semanticIdListElement"@.len() == 21 && "Blob"@.len() == 4);
            assert("semanticIdListElement"@.len() == 21 && "Capability"@.len() == 10);
            assert("semanticIdListElement"@.len() == 21 && "File"@.len() == 4);
            assert("semanticIdListElement"@[0] != "MultiLanguageProperty"@[0]);
            assert("semanticIdListElement"@.len() == 21 && "Property"@.len() == 8);
            assert("semanticIdListElement"@.len() == 21 && "Range"@.len() == 5);
            assert("semanticIdListElement"@.len() == 21 && "ReferenceElement"@.len() == 16);
            assert("semanticIdListElement"@.len() == 21 && "DataElement"@.len() == 11);
            assert("semanticIdListElement"@.len() == 21 && "Entity"@.len() == 6);
            assert("semanticIdListElement"@.len() == 21 && "Operation"@.len() == 9);
            assert("semanticIdListElement"@.len() == 21 && "SubmodelElementCollection"@.len() == 25);
            assert("semanticIdListElement"@.len() == 21 && "SubmodelElementList"@.len() == 19);
            assert("semanticIdListElement"@.len() == 21 && "modelType"@.len() == 9);
            assert("semanticIdListElement"@.len() == 21 && "entityType"@.len() == 10);
            assert("semanticIdListElement"@.len() == 21 && "statement"@.len() == 9);
            assert("semanticIdListElement"@.len() == 21 && "globalAssetId"@.len() == 13);
            assert("semanticIdListElement"@.len() == 21 && "specificAssetId"@.len() == 15);
            assert("semanticIdListElement"@.len() == 21 && "idShort"@.len() == 7);
            assert("semanticIdListElement"@.len() == 21 && "displayName"@.len() == 11);
            assert("semanticIdListElement"@.len() == 21 && "description"@.len() == 11);
            assert("semanticIdListElement"@.len() == 21 && "category"@.len() == 8);
            assert("semanticIdListElement"@.len() == 21 && "extensions"@.len() == 10);
            assert("semanticIdListElement"@.len() == 21 && "semanticId"@.len() == 10);
            assert("semanticIdListElement"@.len() == 21 && "supplementalSemanticIds"@.len() == 23);
            assert("semanticIdListElement"@.len() == 21 && "qualifiers"@.len() == 10);
            assert("semanticIdListElement"@.len() == 21 && "embeddedDataSpecifications"@.len() == 26);
            assert("semanticIdListElement"@.len() == 21 && "inputVariable"@.len() == 13);
            assert("semanticIdListElement"@.len() == 21 && "outputVariable"@.len() == 14);
            assert("semanticIdListElement"@.len() == 21 && "inoutputVariable"@.len() == 16);
            assert("semanticIdListElement"@.len() == 21 && "orderRelevant"@.len() == 13);
            assert("semanticIdListElement"@.len() == 21 && "value"@.len() == 5);
            assert("typeValueListElement"@.len() == 20 && "RelationshipElement"@.len() == 19);
            assert("typeValueListElement"@.len() == 20 && "AnnotatedRelationshipElement"@.len() == 28);
            assert("typeValueListElement"@.len() == 20 && "BasicEventElement"@.len() == 17);
            assert("typeValueListElement"@.len() == 20 && "Blob"@.len() == 4);
            assert("typeValueListElement"@.len() == 20 && "Capability"@.len() == 10);
            assert("typeValueListElement"@.len() == 20 && "File"@.len() == 4);
            assert("typeValueListElement"@.len() == 20 && "MultiLanguageProperty"@.len() == 21);
            assert("typeValueListElement"@.len() == 20 && "Property"@.len() == 8);
            assert("typeValueListElement"@.len() == 20 && "Range"@.len() == 5);
            assert("typeValueListElement"@.len() == 20 && "ReferenceElement"@.len() == 16);
            assert("typeValueListElement"@.len() == 20 && "DataElement"@.len() == 11);
            assert("typeValueListElement"@.len() == 20 && "Entity"@.len() == 6);
            assert("typeValueListElement"@.len() == 20 && "Operation"@.len() == 9);
            assert("typeValueListElement"@.len() == 20 && "SubmodelElementCollection"@.len() == 25);
            assert("typeValueListElement"@.len() == 20 && "SubmodelElementList"@.len() == 19);
            assert("typeValueListElement"@.len() == 20 && "modelType"@.len() == 9);
            assert("typeValueListElement"@.len() == 20 && "entityType"@.len() == 10);
            assert("typeValueListElement"@.len() == 20 && "statement"@.len() == 9);
            assert("typeValueListElement"@.len() == 20 && "globalAssetId"@.len() == 13);
            assert("typeValueListElement"@.len() == 20 && "specificAssetId"@.len() == 15);
            assert("typeValueListElement"@.len() == 20 && "idShort"@.len() == 7);
            assert("typeValueListElement"@.len() == 20 && "displayName"@.len() == 11);
            assert("typeValueListElement"@.len() == 20 && "description"@.len() == 11);
            assert("typeValueListElement"@.len() == 20 && "category"@.len() == 8);
            assert("typeValueListElement"@.len() == 20 && "extensions"@.len() == 10);
            assert("typeValueListElement"@.len() == 20 && "semanticId"@.len() == 10);
            assert("typeValueListElement"@.len() == 20 && "supplementalSemanticIds"@.len() == 23);
            assert("typeValueListElement"@.len() == 20 && "qualifiers"@.len() == 10);
            assert("typeValueListElement"@.len() == 20 && "embeddedDataSpecifications"@.len() == 26);
            assert("typeValueListElement"@.len() == 20 && "inputVariable"@.len() == 13);
            assert("typeValueListElement"@.len() == 20 && "outputVariable"@.len() == 14);
            assert("typeValueListElement"@.len() == 20 && "inoutputVariable"@.len() == 16);
            assert("typeValueListElement"@.len() == 20 && "orderRelevant"@.len() == 13);
            assert("typeValueListElement"@.len() == 20 && "value"@.len() == 5);
            assert("typeValueListElement"@.len() == 20 && "semanticIdListElement"@.len() == 21);
            assert("valueTypeListElement"@.len() == 20 && "RelationshipElement"@.len() == 19);
            assert("valueTypeListElement"@.len() == 20 && "AnnotatedRelationshipElement"@.len() == 28);
            assert("valueTypeListElement"@.len() == 20 && "BasicEventElement"@.len() == 17);
            assert("valueTypeListElement"@.len() == 20 && "Blob"@.len() == 4);
            assert("valueTypeListElement"@.len() == 20 && "Capability"@.len() == 10);
            assert("valueTypeListElement"@.len() == 20 && "File"@.len() == 4);
            assert("valueTypeListElement"@.len() == 20 && "MultiLanguageProperty"@.len() == 21);
            assert("valueTypeListElement"@.len() == 20 && "Property"@.len() == 8);
            assert("valueTypeListElement"@.len() == 20 && "Range"@.len() == 5);
            assert("valueTypeListElement"@.len() == 20 && "ReferenceElement"@.len() == 16);
            assert("valueTypeListElement"@.len() == 20 && "DataElement"@.len() == 11);
            assert("valueTypeListElement"@.len() == 20 && "Entity"@.len() == 6);
            assert("valueTypeListElement"@.len() == 20 && "Operation"@.len() == 9);
            assert("valueTypeListElement"@.len() == 20 && "SubmodelElementCollection"@.len() == 25);
            assert("valueTypeListElement"@.len() == 20 && "SubmodelElementList"@.len() == 19);
            assert("valueTypeListElement"@.len() == 20 && "modelType"@.len() == 9);
            assert("valueTypeListElement"@.len() == 20 && "entityType"@.len() == 10);
            assert("valueTypeListElement"@.len() == 20 && "statement"@.len() == 9);
            assert("valueTypeListElement"@.len() == 20 && "globalAssetId"@.len() == 13);
            assert("valueTypeListElement"@.len() == 20 && "specificAssetId"@.len() == 15);
            assert("valueTypeListElement"@.len() == 20 && "idShort"@.len() == 7);
            assert("valueTypeListElement"@.len() == 20 && "displayName"@.len() == 11);
            assert("valueTypeListElement"@.len() == 20 && "description"@.len() == 11);
            assert("valueTypeListElement"@.len() == 20 && "category"@.len() == 8);
            assert("valueTypeListElement"@.len() == 20 && "extensions"@.len() == 10);
            assert("valueTypeListElement"@.len() == 20 && "semanticId"@.len() == 10);
            assert("valueTypeListElement"@.len() == 20 && "supplementalSemanticIds"@.len() == 23);
            assert("valueTypeListElement"@.len() == 20 && "qualifiers"@.len() == 10);
            assert("valueTypeListElement"@.len() == 20 && "embeddedDataSpecifications"@.len() == 26);
            assert("valueTypeListElement"@.len() == 20 && "inputVariable"@.len() == 13);
            assert("valueTypeListElement"@.len() == 20 && "outputVariable"@.len() == 14);
            assert("valueTypeListElement"@.len() == 20 && "inoutputVariable"@.len() == 16);
            assert("valueTypeListElement"@.len() == 20 && "orderRelevant"@.len() == 13);
            assert("valueTypeListElement"@.len() == 20 && "value"@.len() == 5);
            assert("valueTypeListElement"@.len() == 20 && "semanticIdListElement"@.len() == 21);
            assert("valueTypeListElement"@[0] != "typeValueListElement"@[0]);
            assert("CoManagedEntity"@.len() == 15 && "RelationshipElement"@.len() == 19);
            assert("CoManagedEntity"@.len() == 15 && "AnnotatedRelationshipElement"@.len() == 28);
            assert("CoManagedEntity"@.len() == 15 && "BasicEventElement"@.len() == 17);
            assert("CoManagedEntity"@.len() == 15 && "Blob"@.len() == 4);
            assert("CoManagedEntity"@.len() == 15 && "Capability"@.len() == 10);
            assert("CoManagedEntity"@.len() == 15 && "File"@.len() == 4);
            assert("CoManagedEntity"@.len() == 15 && "MultiLanguageProperty"@.len() == 21);
            assert("CoManagedEntity"@.len() == 15 && "Property"@.len() == 8);
            assert("CoManagedEntity"@.len() == 15 && "Range"@.len() == 5);
            assert("CoManagedEntity"@.len() == 15 && "ReferenceElement"@.len() == 16);
            assert("CoManagedEntity"@.len() == 15 && "DataElement"@.len() == 11);
            assert("CoManagedEntity"@.len() == 15 && "Entity"@.len() == 6);
            assert("CoManagedEntity"@.len() == 15 && "Operation"@.len() == 9);
            assert("CoManagedEntity"@.len() == 15 && "SubmodelElementCollection"@.len() == 25);
            assert("CoManagedEntity"@.len() == 15 && "SubmodelElementList"@.len() == 19);
            assert("CoManagedEntity"@.len() == 15 && "modelType"@.len() == 9);
            assert("CoManagedEntity"@.len() == 15 && "entityType"@.len() == 10);
            assert("CoManagedEntity"@.len() == 15 && "statement"@.len() == 9);
            assert("CoManagedEntity"@.len() == 15 && "globalAssetId"@.len() == 13);
            assert("CoManagedEntity"@[0] != "specificAssetId"@[0]);
            assert("CoManagedEntity"@.len() == 15 && "idShort"@.len() == 7);
            assert("CoManagedEntity"@.len() == 15 && "displayName"@.len() == 11);
            assert("CoManagedEntity"@.len() == 15 && "description"@.len() == 11);
            assert("CoManagedEntity"@.len() == 15 && "category"@.len() == 8);
            assert("CoManagedEntity"@.len() == 15 && "extensions"@.len() == 10);
            assert("CoManagedEntity"@.len() == 15 && "semanticId"@.len() == 10);
            assert("CoManagedEntity"@.len() == 15 && "supplementalSemanticIds"@.len() == 23);
            assert("CoManagedEntity"@.len() == 15 && "qualifiers"@.len() == 10);
            assert("CoManagedEntity"@.len() == 15 && "embeddedDataSpecifications"@.len() == 26);
            assert("CoManagedEntity"@.len() == 15 && "inputVariable"@.len() == 13);
            assert("CoManagedEntity"@.len() == 15 && "outputVariable"@.len() == 14);
            assert("CoManagedEntity"@.len() == 15 && "inoutputVariable"@.len() == 16);
            assert("CoManagedEntity"@.len() == 15 && "orderRelevant"@.len() == 13);
            assert("CoManagedEntity"@.len() == 15 && "value"@.len() == 5);
            assert("CoManagedEntity"@.len() == 15 && "semanticIdListElement"@.len() == 21);
            assert("CoManagedEntity"@.len() == 15 && "typeValueListElement"@.len() == 20);
            assert("CoManagedEntity"@.len() == 15 && "valueTypeListElement"@.len() == 20);
            assert("SelfManagedEntity"@.len() == 17 && "RelationshipElement"@.len() == 19);
            assert("SelfManagedEntity"@.len() == 17 && "AnnotatedRelationshipElement"@.len() == 28);
            assert("SelfManagedEntity"@[0] != "BasicEventElement"@[0]);
            assert("SelfManagedEntity"@.len() == 17 && "Blob"@.len() == 4);
            assert("SelfManagedEntity"@.len() == 17 && "Capability"@.len() == 10);
            assert("SelfManagedEntity"@.len() == 17 && "File"@.len() == 4);
            assert("SelfManagedEntity"@.len() == 17 && "MultiLanguageProperty"@.len() == 21);
            assert("SelfManagedEntity"@.len() == 17 && "Property"@.len() == 8);
            assert("SelfManagedEntity"@.len() == 17 && "Range"@.len() == 5);
            assert("SelfManagedEntity"@.len() == 17 && "ReferenceElement"@.len() == 16);
            assert("SelfManagedEntity"@.len() == 17 && "DataElement"@.len() == 11);
            assert("SelfManagedEntity"@.len() == 17 && "Entity"@.len() == 6);
            assert("SelfManagedEntity"@.len() == 17 && "Operation"@.len() == 9);
            assert("SelfManagedEntity"@.len() == 17 && "SubmodelElementCollection"@.len() == 25);
            assert("SelfManagedEntity"@.len() == 17 && "SubmodelElementList"@.len() == 19);
            assert("SelfManagedEntity"@.len() == 17 && "modelType"@.len() == 9);
            assert("SelfManagedEntity"@.len() == 17 && "entityType"@.len() == 10);
            assert("SelfManagedEntity"@.len() == 17 && "statement"@.len() == 9);
            assert("SelfManagedEntity"@.len() == 17 && "globalAssetId"@.len() == 13);
            assert("SelfManagedEntity"@.len() == 17 && "specificAssetId"@.len() == 15);
            assert("SelfManagedEntity"@.len() == 17 && "idShort"@.len() == 7);
            assert("SelfManagedEntity"@.len() == 17 && "displayName"@.len() == 11);
            assert("SelfManagedEntity"@.len() == 17 && "description"@.len() == 11);
            assert("SelfManagedEntity"@.len() == 17 && "category"@.len() == 8);
            assert("SelfManagedEntity"@.len() == 17 && "extensions"@.len() == 10);
            assert("SelfManagedEntity"@.len() == 17 && "semanticId"@.len() == 10);
            assert("SelfManagedEntity"@.len() == 17 && "supplementalSemanticIds"@.len() == 23);
            assert("SelfManagedEntity"@.len() == 17 && "qualifiers"@.len() == 10);
            assert("SelfManagedEntity"@.len() == 17 && "embeddedDataSpecifications"@.len() == 26);
            assert("SelfManagedEntity"@.len() == 17 && "inputVariable"@.len() == 13);
            assert("SelfManagedEntity"@.len() == 17 && "outputVariable"@.len() == 14);
            assert("SelfManagedEntity"@.len() == 17 && "inoutputVariable"@.len() == 16);
            assert("SelfManagedEntity"@.len() == 17 && "orderRelevant"@.len() == 13);
            assert("SelfManagedEntity"@.len() == 17 && "value"@.len() == 5);
            assert("SelfManagedEntity"@.len() == 17 && "semanticIdListElement"@.len() == 21);
            assert("SelfManagedEntity"@.len() == 17 && "typeValueListElement"@.len() == 20);
            assert("SelfManagedEntity"@.len() == 17 && "valueTypeListElement"@.len() == 20);
            assert("SelfManagedEntity"@.len() == 17 && "CoManagedEntity"@.len() == 15);
        }
        match self {
            SubmodelElement::RelationshipElement(x) => x.encode(),
            SubmodelElement::AnnotatedRelationshipElement(x) => x.encode(),
            SubmodelElement::BasicEventElement(x) => x.encode(),
            SubmodelElement::Blob(x) => x.encode(),
            SubmodelElement::Capability(x) => x.encode(),
            SubmodelElement::File(x) => x.encode(),
            SubmodelElement::MultiLanguageProperty(x) => x.encode(),
            SubmodelElement::Property(x) => x.encode(),
            SubmodelElement::Range(x) => x.encode(),
            SubmodelElement::ReferenceElement(x) => x.encode(),
            SubmodelElement::DataElement(x) => {
                let mut fs = model_type_member("DataElement");
                let ghost p0 = fs@;
                let mut part = x.encode_members();
                let ghost sp = part@;
                fs.append(&mut part);
                proof {
                    assert(p0 == Seq::<(String, Json)>::empty().push(p0[0]));
                    lemma_names_within_push(Seq::<(String, Json)>::empty(), p0[0], |n: Seq<char>| n == "modelType"@);
                    lemma_names_within_concat(p0, sp, |n: Seq<char>| n == "modelType"@, |n: Seq<char>| data_element_kind_name(n), |n: Seq<char>| data_element_member_name(n));
                    lemma_lookup_push(Seq::<(String, Json)>::empty(), p0[0], "modelType"@);
                    lemma_lookup_concat(p0, sp, "modelType"@);
                    lemma_lookup_push(Seq::<(String, Json)>::empty(), p0[0], "Blob"@);
                    lemma_lookup_concat(p0, sp, "Blob"@);
                    lemma_lookup_push(Seq::<(String, Json)>::empty(), p0[0], "File"@);
                    lemma_lookup_concat(p0, sp, "File"@);
                    lemma_lookup_push(Seq::<(String, Json)>::empty(), p0[0], "MultiLanguageProperty"@);
                    lemma_lookup_concat(p0, sp, "MultiLanguageProperty"@);
                    lemma_lookup_push(Seq::<(String, Json)>::empty(), p0[0], "Property"@);
                    lemma_lookup_concat(p0, sp, "Property"@);
                    lemma_lookup_push(Seq::<(String, Json)>::empty(), p0[0], "Range"@);
                    lemma_lookup_concat(p0, sp, "Range"@);
                    lemma_lookup_push(Seq::<(String, Json)>::empty(), p0[0], "ReferenceElement"@);
                    lemma_lookup_concat(p0, sp, "ReferenceElement"@);
                    lemma_lookup_outside(sp, |n: Seq<char>| data_element_kind_name(n), "modelType"@);
                }
                Json::Object(fs)
            },
            SubmodelElement::Entity(en) => {
                let (kind, i): (&str, &EntityInner) = match en {
                    Entity::CoManagedEntity(i) => ("CoManagedEntity", i),
                    Entity::SelfManagedEntity(i) => ("SelfManagedEntity", i),
                };
                let mut fs: Vec<(String, Json)> = Vec::new();
                let ghost prev = fs@;
                fs.push(field("modelType", Json::Str("Entity".to_string())));
                proof {
                    if true {
                        assert(fs@ == prev.push(fs@.last()));
                        lemma_names_within_push(prev, fs@.last(), |n: Seq<char>| entity_member_name(n));
                        lemma_lookup_push(prev, fs@.last(), "modelType"@);
                        lemma_lookup_push(prev, fs@.last(), "entityType"@);
                        lemma_lookup_push(prev, fs@.last(), "statement"@);
                        lemma_lookup_push(prev, fs@.last(), "globalAssetId"@);
                        lemma_lookup_push(prev, fs@.last(), "specificAssetId"@);
                    }
                }
                let ghost prev = fs@;
                fs.push(field("entityType", Json::Str(kind.to_string())));
                proof {
                    if true {
                        assert(fs@ == prev.push(fs@.last()));
                        lemma_names_within_push(prev, fs@.last(), |n: Seq<char>| entity_member_name(n));
                        lemma_lookup_push(prev, fs@.last(), "modelType"@);
                        lemma_lookup_push(prev, fs@.last(), "entityType"@);
                        lemma_lookup_push(prev, fs@.last(), "statement"@);
                        lemma_lookup_push(prev, fs@.last(), "globalAssetId"@);
                        lemma_lookup_push(prev, fs@.last(), "specificAssetId"@);
                    }
                }
                let ghost prev = fs@;
                match &i.statement {
                    Some(v) => {
                        let a = elements_to_json(v);
                        fs.push(field("statement", Json::Array(a)));
                    },
                    None => {},
                }
                proof {
                    if i.statement is Some {
                        assert(fs@ == prev.push(fs@.last()));
                        lemma_names_within_push(prev, fs@.last(), |n: Seq<char>| entity_member_name(n));
                        lemma_lookup_push(prev, fs@.last(), "modelType"@);
                        lemma_lookup_push(prev, fs@.last(), "entityType"@);
                        lemma_lookup_push(prev, fs@.last(), "statement"@);
                        lemma_lookup_push(prev, fs@.last(), "globalAssetId"@);
                        lemma_lookup_push(prev, fs@.last(), "specificAssetId"@);
                    }
                }
                let ghost prev = fs@;
                push_opt(&mut fs, "globalAssetId", &i.global_asset_id);
                proof {
                    if i.global_asset_id is Some {
                        assert(fs@ == prev.push(fs@.last()));
                        lemma_names_within_push(prev, fs@.last(), |n: Seq<char>| entity_member_name(n));
                        lemma_lookup_push(prev, fs@.last(), "modelType"@);
                        lemma_lookup_push(prev, fs@.last(), "entityType"@);
                        lemma_lookup_push(prev, fs@.last(), "statement"@);
                        lemma_lookup_push(prev, fs@.last(), "globalAssetId"@);
                        lemma_lookup_push(prev, fs@.last(), "specificAssetId"@);
                    }
                }
                let ghost prev = fs@;
                push_opt(&mut fs, "specificAssetId", &i.specific_asset_id);
                proof {
                    if i.specific_asset_id is Some {
                        assert(fs@ == prev.push(fs@.last()));
                        lemma_names_within_push(prev, fs@.last(), |n: Seq<char>| entity_member_name(n));
                        lemma_lookup_push(prev, fs@.last(), "modelType"@);
                        lemma_lookup_push(prev, fs@.last(), "entityType"@);
                        lemma_lookup_push(prev, fs@.last(), "statement"@);
                        lemma_lookup_push(prev, fs@.last(), "globalAssetId"@);
                        lemma_lookup_push(prev, fs@.last(), "specificAssetId"@);
                    }
                }
                Json::Object(fs)
            },
            SubmodelElement::Operation(op) => op.to_json(),
            SubmodelElement::SubmodelElementCollection(c) => {
                let mut fs: Vec<(String, Json)> = Vec::new();
                let ghost prev = fs@;
                fs.push(field("modelType", Json::Str("SubmodelElementCollection".to_string())));
                proof {
                    if true {
                        assert(fs@ == prev.push(fs@.last()));
                        lemma_names_within_push(prev, fs@.last(), |n: Seq<char>| collection_name(n));
                        lemma_lookup_push(prev, fs@.last(), "modelType"@);
                        lemma_lookup_push(prev, fs@.last(), "value"@);
                    }
                }
                let ghost prev = fs@;
                match &c.value {
                    Some(v) => {
                        let a = elements_to_json(v);
                        fs.push(field("value", Json::Array(a)));
                    },
                    None => {},
                }
                proof {
                    if c.value is Some {
                        assert(fs@ == prev.push(fs@.last()));
                        lemma_names_within_push(prev, fs@.last(), |n: Seq<char>| collection_name(n));
                        lemma_lookup_push(prev, fs@.last(), "modelType"@);
                        lemma_lookup_push(prev, fs@.last(), "value"@);
                    }
                }
                Json::Object(fs)
            },
            SubmodelElement::SubmodelElementList(l) => l.to_json(),
        }
    }
}

impl Operation {
    /// Writes the element as a JSON tree, tagged by its `modelType`.
    #[verifier::rlimit(100)]
    #[verifier::spinoff_prover]
    pub fn to_json(&self) -> (r: Json)
        ensures
            element_encoded(SubmodelElement::Operation(*self), r),
        decreases self,
    {
        let op = self;
        proof {
            reveal_strlit("RelationshipElement");
            reveal_strlit("AnnotatedRelationshipElement");
            reveal_strlit("BasicEventElement");
            reveal_strlit("Blob");
            reveal_strlit("Capability");
            reveal_strlit("File");
            reveal_strlit("MultiLanguageProperty");
            reveal_strlit("Property");
            reveal_strlit("Range");
            reveal_strlit("ReferenceElement");
            reveal_strlit("DataElement");
            reveal_strlit("Entity");
            reveal_strlit("Operation");
            reveal_strlit("SubmodelElementCollection");
            reveal_strlit("SubmodelElementList");
            reveal_strlit("modelType");
            reveal_strlit("entityType");
            reveal_strlit("statement");
            reveal_strlit("globalAssetId");
            reveal_strlit("specificAssetId");
            reveal_strlit("idShort");
            reveal_strlit("displayName");
            reveal_strlit("description");
            reveal_strlit("category");
            reveal_strlit("extensions");
            reveal_strlit("semanticId");
            reveal_strlit("supplementalSemanticIds");
            reveal_strlit("qualifiers");
            reveal_strlit("embeddedDataSpecifications");
            reveal_strlit("inputVariable");
            reveal_strlit("outputVariable");
            reveal_strlit("inoutputVariable");
            reveal_strlit("orderRelevant");
            reveal_strlit("value");
            reveal_strlit("semanticIdListElement");
            reveal_strlit("typeValueListElement");
            reveal_strlit("valueTypeListElement");
            reveal_strlit("CoManagedEntity");
            reveal_strlit("SelfManagedEntity");
            assert("AnnotatedRelationshipElement"@.len() == 28 && "RelationshipElement"@.len() == 19);
            assert("BasicEventElement"@.len() == 17 && "RelationshipElement"@.len() == 19);
            assert("BasicEventElement"@.len() == 17 && "AnnotatedRelationshipElement"@.len() == 28);
            assert("Blob"@.len() == 4 && "RelationshipElement"@.len() == 19);
            assert("Blob"@.len() == 4 && "AnnotatedRelationshipElement"@.len() == 28);
            assert("Blob"@.len() == 4 && "BasicEventElement"@.len() == 17);
            assert("Capability"@.len() == 10 && "RelationshipElement"@.len() == 19);
            assert("Capability"@.len() == 10 && "AnnotatedRelationshipElement"@.len() == 28);
            assert("Capability"@.len() == 10 && "BasicEventElement"@.len() == 17);
            assert("Capability"@.len() == 10 && "Blob"@.len() == 4);
            assert("File"@.len() == 4 && "RelationshipElement"@.len() == 19);
            assert("File"@.len() == 4 && "AnnotatedRelationshipElement"@.len() == 28);
            assert("File"@.len() == 4 && "BasicEventElement"@.len() == 17);
            assert("File"@[0] != "Blob"@[0]);
            assert("File"@.len() == 4 && "Capability"@.len() == 10);
            assert("MultiLanguageProperty"@.len() == 21 && "RelationshipElement"@.len() == 19);
            assert("MultiLanguageProperty"@.len() == 21 && "AnnotatedRelationshipElement"@.len() == 28);
            assert("MultiLanguageProperty"@.len() == 21 && "BasicEventElement"@.len() == 17);
            assert("MultiLanguageProperty"@.len() == 21 && "Blob"@.len() == 4);
            assert("MultiLanguageProperty"@.len() == 21 && "Capability"@.len() == 10);
            assert("MultiLanguageProperty"@.len() == 21 && "File"@.len() == 4);
            assert("Property"@.len() == 8 && "RelationshipElement"@.len() == 19);
            assert("Property"@.len() == 8 && "AnnotatedRelationshipElement"@.len() == 28);
            assert("Property"@.len() == 8 && "BasicEventElement"@.len() == 17);
            assert("Property"@.len() == 8 && "Blob"@.len() == 4);
            assert("Property"@.len() == 8 && "Capability"@.len() == 10);
            assert("Property"@.len() == 8 && "File"@.len() == 4);
            assert("Property"@.len() == 8 && "MultiLanguageProperty"@.len() == 21);
            assert("Range"@.len() == 5 && "RelationshipElement"@.len() == 19);
            assert("Range"@.len() == 5 && "AnnotatedRelationshipElement"@.len() == 28);
            assert("Range"@.len() == 5 && "BasicEventElement"@.len() == 17);
            assert("Range"@.len() == 5 && "Blob"@.len() == 4);
            assert("Range"@.len() == 5 && "Capability"@.len() == 10);
            assert("Range"@.len() == 5 && "File"@.len() == 4);
            assert("Range"@.len() == 5 && "MultiLanguageProperty"@.len() == 21);
            assert("Range"@.len() == 5 && "Property"@.len() == 8);
            assert("ReferenceElement"@.len() == 16 && "RelationshipElement"@.len() == 19);
            assert("ReferenceElement"@.len() == 16 && "AnnotatedRelationshipElement"@.len() == 28);
            assert("ReferenceElement"@.len() == 16 && "BasicEventElement"@.len() == 17);
            assert("ReferenceElement"@.len() == 16 && "Blob"@.len() == 4);
            assert("ReferenceElement"@.len() == 16 && "Capability"@.len() == 10);
            assert("ReferenceElement"@.len() == 16 && "File"@.len() == 4);
            assert("ReferenceElement"@.len() == 16 && "MultiLanguageProperty"@.len() == 21);
            assert("ReferenceElement"@.len() == 16 && "Property"@.len() == 8);
            assert("ReferenceElement"@.len() == 16 && "Range"@.len() == 5);
            assert("DataElement"@.len() == 11 && "RelationshipElement"@.len() == 19);
            assert("DataElement"@.len() == 11 && "AnnotatedRelationshipElement"@.len() == 28);
            assert("DataElement"@.len() == 11 && "BasicEventElement"@.len() == 17);
            assert("DataElement"@.len() == 11 && "Blob"@.len() == 4);
            assert("DataElement"@.len() == 11 && "Capability"@.len() == 10);
            assert("DataElement"@.len() == 11 && "File"@.len() == 4);
            assert("DataElement"@.len() == 11 && "MultiLanguageProperty"@.len() == 21);
            assert("DataElement"@.len() == 11 && "Property"@.len() == 8);
            assert("DataElement"@.len() == 11 && "Range"@.len() == 5);
            assert("DataElement"@.len() == 11 && "ReferenceElement"@.len() == 16);
            assert("Entity"@.len() == 6 && "RelationshipElement"@.len() == 19);
            assert("Entity"@.len() == 6 && "AnnotatedRelationshipElement"@.len() == 28);
            assert("Entity"@.len() == 6 && "BasicEventElement"@.len() == 17);
            assert("Entity"@.len() == 6 && "Blob"@.len() == 4);
            assert("Entity"@.len() == 6 && "Capability"@.len() == 10);
            assert("Entity"@.len() == 6 && "File"@.len() == 4);
            assert("Entity"@.len() == 6 && "MultiLanguageProperty"@.len() == 21);
            assert("Entity"@.len() == 6 && "Property"@.len() == 8);
            assert("Entity"@.len() == 6 && "Range"@.len() == 5);
            assert("Entity"@.len() == 6 && "ReferenceElement"@.len() == 16);
            assert("Entity"@.len() == 6 && "DataElement"@.len() == 11);
            assert("Operation"@.len() == 9 && "RelationshipElement"@.len() == 19);
            assert("Operation"@.len() == 9 && "AnnotatedRelationshipElement"@.len() == 28);
            assert("Operation"@.len() == 9 && "BasicEventElement"@.len() == 17);
            assert("Operation"@.len() == 9 && "Blob"@.len() == 4);
            assert("Operation"@.len() == 9 && "Capability"@.len() == 10);
            assert("Operation"@.len() == 9 && "File"@.len() == 4);
            assert("Operation"@.len() == 9 && "MultiLanguageProperty"@.len() == 21);
            assert("Operation"@.len() == 9 && "Property"@.len() == 8);
            assert("Operation"@.len() == 9 && "Range"@.len() == 5);
            assert("Operation"@.len() == 9 && "ReferenceElement"@.len() == 16);
            assert("Operation"@.len() == 9 && "DataElement"@.len() == 11);
            assert("Operation"@.len() == 9 && "Entity"@.len() == 6);
            assert("SubmodelElementCollection"@.len() == 25 && "RelationshipElement"@.len() == 19);
            assert("SubmodelElementCollection"@.len() == 25 && "AnnotatedRelationshipElement"@.len() == 28);
            assert("SubmodelElementCollection"@.len() == 25 && "BasicEventElement"@.len() == 17);
            assert("SubmodelElementCollection"@.len() == 25 && "Blob"@.len() == 4);
            assert("SubmodelElementCollection"@.len() == 25 && "Capability"@.len() == 10);
            assert("SubmodelElementCollection"@.len() == 25 && "File"@.len() == 4);
            assert("SubmodelElementCollection"@.len() == 25 && "MultiLanguageProperty"@.len() == 21);
            assert("SubmodelElementCollection"@.len() == 25 && "Property"@.len() == 8);
            assert("SubmodelElementCollection"@.len() == 25 && "Range"@.len() == 5);
            assert("SubmodelElementCollection"@.len() == 25 && "ReferenceElement"@.len() == 16);
            assert("SubmodelElementCollection"@.len() == 25 && "DataElement"@.len() == 11);
            assert("SubmodelElementCollection"@.len() == 25 && "Entity"@.len() == 6);
            assert("SubmodelElementCollection"@.len() == 25 && "Operation"@.len() == 9);
            assert("SubmodelElementList"@[0] != "RelationshipElement"@[0]);
            assert("SubmodelElementList"@.len() == 19 && "AnnotatedRelationshipElement"@.len() == 28);
            assert("SubmodelElementList"@.len() == 19 && "BasicEventElement"@.len() == 17);
            assert("SubmodelElementList"@.len() == 19 && "Blob"@.len() == 4);
            assert("SubmodelElementList"@.len() == 19 && "Capability"@.len() == 10);
            assert("SubmodelElementList"@.len() == 19 && "File"@.len() == 4);
            assert("SubmodelElementList"@.len() == 19 && "MultiLanguageProperty"@.len() == 21);
            assert("SubmodelElementList"@.len() == 19 && "Property"@.len() == 8);
            assert("SubmodelElementList"@.len() == 19 && "Range"@.len() == 5);
            assert("SubmodelElementList"@.len() == 19 && "ReferenceElement"@.len() == 16);
            assert("SubmodelElementList"@.len() == 19 && "DataElement"@.len() == 11);
            assert("SubmodelElementList"@.len() == 19 && "Entity"@.len() == 6);
            assert("SubmodelElementList"@.len() == 19 && "Operation"@.len() == 9);
            assert("SubmodelElementList"@.len() == 19 && "SubmodelElementCollection"@.len() == 25);
            assert("modelType"@.len() == 9 && "RelationshipElement"@.len() == 19);
            assert("modelType"@.len() == 9 && "AnnotatedRelationshipElement"@.len() == 28);
            assert("modelType"@.len() == 9 && "BasicEventElement"@.len() == 17);
            assert("modelType"@.len() == 9 && "Blob"@.len() == 4);
            assert("modelType"@.len() == 9 && "Capability"@.len() == 10);
            assert("modelType"@.len() == 9 && "File"@.len() == 4);
            assert("modelType"@.len() == 9 && "MultiLanguageProperty"@.len() == 21);
            assert("modelType"@.len() == 9 && "Property"@.len() == 8);
            assert("modelType"@.len() == 9 && "Range"@.len() == 5);
            assert("modelType"@.len() == 9 && "ReferenceElement"@.len() == 16);
            assert("modelType"@.len() == 9 && "DataElement"@.len() == 11);
            assert("modelType"@.len() == 9 && "Entity"@.len() == 6);
            assert("modelType"@[0] != "Operation"@[0]);
            assert("modelType"@.len() == 9 && "SubmodelElementCollection"@.len() == 25);
            assert("modelType"@.len() == 9 && "SubmodelElementList"@.len() == 19);
            assert("entityType"@.len() == 10 && "RelationshipElement"@.len() == 19);
            assert("entityType"@.len() == 10 && "AnnotatedRelationshipElement"@.len() == 28);
            assert("entityType"@.len() == 10 && "BasicEventElement"@.len() == 17);
            assert("entityType"@.len() == 10 && "Blob"@.len() == 4);
            assert("entityType"@[0] != "Capability"@[0]);
            assert("entityType"@.len() == 10 && "File"@.len() == 4);
            assert("entityType"@.len() == 10 && "MultiLanguageProperty"@.len() == 21);
            assert("entityType"@.len() == 10 && "Property"@.len() == 8);
            assert("entityType"@.len() == 10 && "Range"@.len() == 5);
            assert("entityType"@.len() == 10 && "ReferenceElement"@.len() == 16);
            assert("entityType"@.len() == 10 && "DataElement"@.len() == 11);
            assert("entityType"@.len() == 10 && "Entity"@.len() == 6);
            assert("entityType"@.len() == 10 && "Operation"@.len() == 9);
            assert("entityType"@.len() == 10 && "SubmodelElementCollection"@.len() == 25);
            assert("entityType"@.len() == 10 && "SubmodelElementList"@.len() == 19);
            assert("entityType"@.len() == 10 && "modelType"@.len() == 9);
            assert("statement"@.len() == 9 && "RelationshipElement"@.len() == 19);
            assert("statement"@.len() == 9 && "AnnotatedRelationshipElement"@.len() == 28);
            assert("statement"@.len() == 9 && "BasicEventElement"@.len() == 17);
            assert("statement"@.len() == 9 && "Blob"@.len() == 4);
            assert("statement"@.len() == 9 && "Capability"@.len() == 10);
            assert("statement"@.len() == 9 && "File"@.len() == 4);
            assert("statement"@.len() == 9 && "MultiLanguageProperty"@.len() == 21);
            assert("statement"@.len() == 9 && "Property"@.len() == 8);
            assert("statement"@.len() == 9 && "Range"@.len() == 5);
            assert("statement"@.len() == 9 && "ReferenceElement"@.len() == 16);
            assert("statement"@.len() == 9 && "DataElement"@.len() == 11);
            assert("statement"@.len() == 9 && "Entity"@.len() == 6);
            assert("statement"@[0] != "Operation"@[0]);
            assert("statement"@.len() == 9 && "SubmodelElementCollection"@.len() == 25);
            assert("statement"@.len() == 9 && "SubmodelElementList"@.len() == 19);
            assert("statement"@[0] != "modelType"@[0]);
            assert("statement"@.len() == 9 && "entityType"@.len() == 10);
            assert("globalAssetId"@.len() == 13 && "RelationshipElement"@.len() == 19);
            assert("globalAssetId"@.len() == 13 && "AnnotatedRelationshipElement"@.len() == 28);
            assert("globalAssetId"@.len() == 13 && "BasicEventElement"@.len() == 17);
            assert("globalAssetId"@.len() == 13 && "Blob"@.len() == 4);
            assert("globalAssetId"@.len() == 13 && "Capability"@.len() == 10);
            assert("globalAssetId"@.len() == 13 && "File"@.len() == 4);
            assert("globalAssetId"@.len() == 13 && "MultiLanguageProperty"@.len() == 21);
            assert("globalAssetId"@.len() == 13 && "Property"@.len() == 8);
            assert("globalAssetId"@.len() == 13 && "Range"@.len() == 5);
            assert("globalAssetId"@.len() == 13 && "ReferenceElement"@.len() == 16);
            assert("globalAssetId"@.len() == 13 && "DataElement"@.len() == 11);
            assert("globalAssetId"@.len() == 13 && "Entity"@.len() == 6);
            assert("globalAssetId"@.len() == 13 && "Operation"@.len() == 9);
            assert("globalAssetId"@.len() == 13 && "SubmodelElementCollection"@.len() == 25);
            assert("globalAssetId"@.len() == 13 && "SubmodelElementList"@.len() == 19);
            assert("globalAssetId"@.len() == 13 && "modelType"@.len() == 9);
            assert("globalAssetId"@.len() == 13 && "entityType"@.len() == 10);
            assert("globalAssetId"@.len() == 13 && "statement"@.len() == 9);
            assert("specificAssetId"@.len() == 15 && "RelationshipElement"@.len() == 19);
            assert("specificAssetId"@.len() == 15 && "AnnotatedRelationshipElement"@.len() == 28);
            assert("specificAssetId"@.len() == 15 && "BasicEventElement"@.len() == 17);
            assert("specificAssetId"@.len() == 15 && "Blob"@.len() == 4);
            assert("specificAssetId"@.len() == 15 && "Capability"@.len() == 10);
            assert("specificAssetId"@.len() == 15 && "File"@.len() == 4);
            assert("specificAssetId"@.len() == 15 && "MultiLanguageProperty"@.len() == 21);
            assert("specificAssetId"@.len() == 15 && "Property"@.len() == 8);
            assert("specificAssetId"@.len() == 15 && "Range"@.len() == 5);
            assert("specificAssetId"@.len() == 15 && "ReferenceElement"@.len() == 16);
            assert("specificAssetId"@.len() == 15 && "DataElement"@.len() == 11);
            assert("specificAssetId"@.len() == 15 && "Entity"@.len() == 6);
            assert("specificAssetId"@.len() == 15 && "Operation"@.len() == 9);
            assert("specificAssetId"@.len() == 15 && "SubmodelElementCollection"@.len() == 25);
            assert("specificAssetId"@.len() == 15 && "SubmodelElementList"@.len() == 19);
            assert("specificAssetId"@.len() == 15 && "modelType"@.len() == 9);
            assert("specificAssetId"@.len() == 15 && "entityType"@.len() == 10);
            assert("specificAssetId"@.len() == 15 && "statement"@.len() == 9);
            assert("specificAssetId"@.len() == 15 && "globalAssetId"@.len() == 13);
            assert("idShort"@.len() == 7 && "RelationshipElement"@.len() == 19);
            assert("idShort"@.len() == 7 && "AnnotatedRelationshipElement"@.len() == 28);
            assert("idShort"@.len() == 7 && "BasicEventElement"@.len() == 17);
            assert("idShort"@.len() == 7 && "Blob"@.len() == 4);
            assert("idShort"@.len() == 7 && "Capability"@.len() == 10);
            assert("idShort"@.len() == 7 && "File"@.len() == 4);
            assert("idShort"@.len() == 7 && "MultiLanguageProperty"@.len() == 21);
            assert("idShort"@.len() == 7 && "Property"@.len() == 8);
            assert("idShort"@.len() == 7 && "Range"@.len() == 5);
            assert("idShort"@.len() == 7 && "ReferenceElement"@.len() == 16);
            assert("idShort"@.len() == 7 && "DataElement"@.len() == 11);
            assert("idShort"@.len() == 7 && "Entity"@.len() == 6);
            assert("idShort"@.len() == 7 && "Operation"@.len() == 9);
            assert("idShort"@.len() == 7 && "SubmodelElementCollection"@.len() == 25);
            assert("idShort"@.len() == 7 && "SubmodelElementList"@.len() == 19);
            assert("idShort"@.len() == 7 && "modelType"@.len() == 9);
            assert("idShort"@.len() == 7 && "entityType"@.len() == 10);
            assert("idShort"@.len() == 7 && "statement"@.len() == 9);
            assert("idShort"@.len() == 7 && "globalAssetId"@.len() == 13);
            assert("idShort"@.len() == 7 && "specificAssetId"@.len() == 15);
            assert("displayName"@.len() == 11 && "RelationshipElement"@.len() == 19);
            assert("displayName"@.len() == 11 && "AnnotatedRelationshipElement"@.len() == 28);
            assert("displayName"@.len() == 11 && "BasicEventElement"@.len() == 17);
            assert("displayName"@.len() == 11 && "Blob"@.len() == 4);
            assert("displayName"@.len() == 11 && "Capability"@.len() == 10);
            assert("displayName"@.len() == 11 && "File"@.len() == 4);
            assert("displayName"@.len() == 11 && "MultiLanguageProperty"@.len() == 21);
            assert("displayName"@.len() == 11 && "Property"@.len() == 8);
            assert("displayName"@.len() == 11 && "Range"@.len() == 5);
            assert("displayName"@.len() == 11 && "ReferenceElement"@.len() == 16);
            assert("displayName"@[0] != "DataElement"@[0]);
            assert("displayName"@.len() == 11 && "Entity"@.len() == 6);
            assert("displayName"@.len() == 11 && "Operation"@.len() == 9);
            assert("displayName"@.len() == 11 && "SubmodelElementCollection"@.len() == 25);
            assert("displayName"@.len() == 11 && "SubmodelElementList"@.len() == 19);
            assert("displayName"@.len() == 11 && "modelType"@.len() == 9);
            assert("displayName"@.len() == 11 && "entityType"@.len() == 10);
            assert("displayName"@.len() == 11 && "statement"@.len() == 9);
            assert("displayName"@.len() == 11 && "globalAssetId"@.len() == 13);
            assert("displayName"@.len() == 11 && "specificAssetId"@.len() == 15);
            assert("displayName"@.len() == 11 && "idShort"@.len() == 7);
            assert("description"@.len() == 11 && "RelationshipElement"@.len() == 19);
            assert("description"@.len() == 11 && "AnnotatedRelationshipElement"@.len() == 28);
            assert("description"@.len() == 11 && "BasicEventElement"@.len() == 17);
            assert("description"@.len() == 11 && "Blob"@.len() == 4);
            assert("description"@.len() == 11 && "Capability"@.len() == 10);
            assert("description"@.len() == 11 && "File"@.len() == 4);
            assert("description"@.len() == 11 && "MultiLanguageProperty"@.len() == 21);
            assert("description"@.len() == 11 && "Property"@.len() == 8);
            assert("description"@.len() == 11 && "Range"@.len() == 5);
            assert("description"@.len() == 11 && "ReferenceElement"@.len() == 16);
            assert("description"@[0] != "DataElement"@[0]);
            assert("description"@.len() == 11 && "Entity"@.len() == 6);
            assert("description"@.len() == 11 && "Operation"@.len() == 9);
            assert("description"@.len() == 11 && "SubmodelElementCollection"@.len() == 25);
            assert("description"@.len() == 11 && "SubmodelElementList"@.len() == 19);
            assert("description"@.len() == 11 && "modelType"@.len() == 9);
            assert("description"@.len() == 11 && "entityType"@.len() == 10);
            assert("description"@.len() == 11 && "statement"@.len() == 9);
            assert("description"@.len() == 11 && "globalAssetId"@.len() == 13);
            assert("description"@.len() == 11 && "specificAssetId"@.len() == 15);
            assert("description"@.len() == 11 && "idShort"@.len() == 7);
            assert("description"@[1] != "displayName"@[1]);
            assert("category"@.len() == 8 && "RelationshipElement"@.len() == 19);
            assert("category"@.len() == 8 && "AnnotatedRelationshipElement"@.len() == 28);
            assert("category"@.len() == 8 && "BasicEventElement"@.len() == 17);
            assert("category"@.len() == 8 && "Blob"@.len() == 4);
            assert("category"@.len() == 8 && "Capability"@.len() == 10);
            assert("category"@.len() == 8 && "File"@.len() == 4);
            assert("category"@.len() == 8 && "MultiLanguageProperty"@.len() == 21);
            assert("category"@[0] != "Property"@[0]);
            assert("category"@.len() == 8 && "Range"@.len() == 5);
            assert("category"@.len() == 8 && "ReferenceElement"@.len() == 16);
            assert("category"@.len() == 8 && "DataElement"@.len() == 11);
            assert("category"@.len() == 8 && "Entity"@.len() == 6);
            assert("category"@.len() == 8 && "Operation"@.len() == 9);
            assert("category"@.len() == 8 && "SubmodelElementCollection"@.len() == 25);
            assert("category"@.len() == 8 && "SubmodelElementList"@.len() == 19);
            assert("category"@.len() == 8 && "modelType"@.len() == 9);
            assert("category"@.len() == 8 && "entityType"@.len() == 10);
            assert("category"@.len() == 8 && "statement"@.len() == 9);
            assert("category"@.len() == 8 && "globalAssetId"@.len() == 13);
            assert("category"@.len() == 8 && "specificAssetId"@.len() == 15);
            assert("category"@.len() == 8 && "idShort"@.len() == 7);
            assert("category"@.len() == 8 && "displayName"@.len() == 11);
            assert("category"@.len() == 8 && "description"@.len() == 11);
            assert("extensions"@.len() == 10 && "RelationshipElement"@.len() == 19);
            assert("extensions"@.len() == 10 && "AnnotatedRelationshipElement"@.len() == 28);
            assert("extensions"@.len() == 10 && "BasicEventElement"@.len() == 17);
            assert("extensions"@.len() == 10 && "Blob"@.len() == 4);
            assert("extensions"@[0] != "Capability"@[0]);
            assert("extensions"@.len() == 10 && "File"@.len() == 4);
            assert("extensions"@.len() == 10 && "MultiLanguageProperty"@.len() == 21);
            assert("extensions"@.len() == 10 && "Property"@.len() == 8);
            assert("extensions"@.len() == 10 && "Range"@.len() == 5);
            assert("extensions"@.len() == 10 && "ReferenceElement"@.len() == 16);
            assert("extensions"@.len() == 10 && "DataElement"@.len() == 11);
            assert("extensions"@.len() == 10 && "Entity"@.len() == 6);
            assert("extensions"@.len() == 10 && "Operation"@.len() == 9);
            assert("extensions"@.len() == 10 && "SubmodelElementCollection"@.len() == 25);
            assert("extensions"@.len() == 10 && "SubmodelElementList"@.len() == 19);
            assert("extensions"@.len() == 10 && "modelType"@.len() == 9);
            assert("extensions"@[1] != "entityType"@[1]);
            assert("extensions"@.len() == 10 && "statement"@.len() == 9);
            assert("extensions"@.len() == 10 && "globalAssetId"@.len() == 13);
            assert("extensions"@.len() == 10 && "specificAssetId"@.len() == 15);
            assert("extensions"@.len() == 10 && "idShort"@.len() == 7);
            assert("extensions"@.len() == 10 && "displayName"@.len() == 11);
            assert("extensions"@.len() == 10 && "description"@.len() == 11);
            assert("extensions"@.len() == 10 && "category"@.len() == 8);
            assert("semanticId"@.len() == 10 && "RelationshipElement"@.len() == 19);
            assert("semanticId"@.len() == 10 && "AnnotatedRelationshipElement"@.len() == 28);
            assert("semanticId"@.len() == 10 && "BasicEventElement"@.len() == 17);
            assert("semanticId"@.len() == 10 && "Blob"@.len() == 4);
            assert("semanticId"@[0] != "Capability"@[0]);
            assert("semanticId"@.len() == 10 && "File"@.len() == 4);
            assert("semanticId"@.len() == 10 && "MultiLanguageProperty"@.len() == 21);
            assert("semanticId"@.len() == 10 && "Property"@.len() == 8);
            assert("semanticId"@.len() == 10 && "Range"@.len() == 5);
            assert("semanticId"@.len() == 10 && "ReferenceElement"@.len() == 16);
            assert("semanticId"@.len() == 10 && "DataElement"@.len() == 11);
            assert("semanticId"@.len() == 10 && "Entity"@.len() == 6);
            assert("semanticId"@.len() == 10 && "Operation"@.len() == 9);
            assert("semanticId"@.len() == 10 && "SubmodelElementCollection"@.len() == 25);
            assert("semanticId"@.len() == 10 && "SubmodelElementList"@.len() == 19);
            assert("semanticId"@.len() == 10 && "modelType"@.len() == 9);
            assert("semanticId"@[0] != "entityType"@[0]);
            assert("semanticId"@.len() == 10 && "statement"@.len() == 9);
            assert("semanticId"@.len() == 10 && "globalAssetId"@.len() == 13);
            assert("semanticId"@.len() == 10 && "specificAssetId"@.len() == 15);
            assert("semanticId"@.len() == 10 && "idShort"@.len() == 7);
            assert("semanticId"@.len() == 10 && "displayName"@.len() == 11);
            assert("semanticId"@.len() == 10 && "description"@.len() == 11);
            assert("semanticId"@.len() == 10 && "category"@.len() == 8);
            assert("semanticId"@[0] != "extensions"@[0]);
            assert("supplementalSemanticIds"@.len() == 23 && "RelationshipElement"@.len() == 19);
            assert("supplementalSemanticIds"@.len() == 23 && "AnnotatedRelationshipElement"@.len() == 28);
            assert("supplementalSemanticIds"@.len() == 23 && "BasicEventElement"@.len() == 17);
            assert("supplementalSemanticIds"@.len() == 23 && "Blob"@.len() == 4);
            assert("supplementalSemanticIds"@.len() == 23 && "Capability"@.len() == 10);
            assert("supplementalSemanticIds"@.len() == 23 && "File"@.len() == 4);
            assert("supplementalSemanticIds"@.len() == 23 && "MultiLanguageProperty"@.len() == 21);
            assert("supplementalSemanticIds"@.len() == 23 && "Property"@.len() == 8);
            assert("supplementalSemanticIds"@.len() == 23 && "Range"@.len() == 5);
            assert("supplementalSemanticIds"@.len() == 23 && "ReferenceElement"@.len() == 16);
            assert("supplementalSemanticIds"@.len() == 23 && "DataElement"@.len() == 11);
            assert("supplementalSemanticIds"@.len() == 23 && "Entity"@.len() == 6);
            assert("supplementalSemanticIds"@.len() == 23 && "Operation"@.len() == 9);
            assert("supplementalSemanticIds"@.len() == 23 && "SubmodelElementCollection"@.len() == 25);
            assert("supplementalSemanticIds"@.len() == 23 && "SubmodelElementList"@.len() == 19);
            assert("supplementalSemanticIds"@.len() == 23 && "modelType"@.len() == 9);
            assert("supplementalSemanticIds"@.len() == 23 && "entityType"@.len() == 10);
            assert("supplementalSemanticIds"@.len() == 23 && "statement"@.len() == 9);
            assert("supplementalSemanticIds"@.len() == 23 && "globalAssetId"@.len() == 13);
            assert("supplementalSemanticIds"@.len() == 23 && "specificAssetId"@.len() == 15);
            assert("supplementalSemanticIds"@.len() == 23 && "idShort"@.len() == 7);
            assert("supplementalSemanticIds"@.len() == 23 && "displayName"@.len() == 11);
            assert("supplementalSemanticIds"@.len() == 23 && "description"@.len() == 11);
            assert("supplementalSemanticIds"@.len() == 23 && "category"@.len() == 8);
            assert("supplementalSemanticIds"@.len() == 23 && "extensions"@.len() == 10);
            assert("supplementalSemanticIds"@.len() == 23 && "semanticId"@.len() == 10);
            assert("qualifiers"@.len() == 10 && "RelationshipElement"@.len() == 19);
            assert("qualifiers"@.len() == 10 && "AnnotatedRelationshipElement"@.len() == 28);
            assert("qualifiers"@.len() == 10 && "BasicEventElement"@.len() == 17);
            assert("qualifiers"@.len() == 10 && "Blob"@.len() == 4);
            assert("qualifiers"@[0] != "Capability"@[0]);
            assert("qualifiers"@.len() == 10 && "File"@.len() == 4);
            assert("qualifiers"@.len() == 10 && "MultiLanguageProperty"@.len() == 21);
            assert("qualifiers"@.len() == 10 && "Property"@.len() == 8);
            assert("qualifiers"@.len() == 10 && "Range"@.len() == 5);
            assert("qualifiers"@.len() == 10 && "ReferenceElement"@.len() == 16);
            assert("qualifiers"@.len() == 10 && "DataElement"@.len() == 11);
            assert("qualifiers"@.len() == 10 && "Entity"@.len() == 6);
            assert("qualifiers"@.len() == 10 && "Operation"@.len() == 9);
            assert("qualifiers"@.len() == 10 && "SubmodelElementCollection"@.len() == 25);
            assert("qualifiers"@.len() == 10 && "SubmodelElementList"@.len() == 19);
            assert("qualifiers"@.len() == 10 && "modelType"@.len() == 9);
            assert("qualifiers"@[0] != "entityType"@[0]);
            assert("qualifiers"@.len() == 10 && "statement"@.len() == 9);
            assert("qualifiers"@.len() == 10 && "globalAssetId"@.len() == 13);
            assert("qualifiers"@.len() == 10 && "specificAssetId"@.len() == 15);
            assert("qualifiers"@.len() == 10 && "idShort"@.len() == 7);
            assert("qualifiers"@.len() == 10 && "displayName"@.len() == 11);
            assert("qualifiers"@.len() == 10 && "description"@.len() == 11);
            assert("qualifiers"@.len() == 10 && "category"@.len() == 8);
            assert("qualifiers"@[0] != "extensions"@[0]);
            assert("qualifiers"@[0] != "semanticId"@[0]);
            assert("qualifiers"@.len() == 10 && "supplementalSemanticIds"@.len() == 23);
            assert("embeddedDataSpecifications"@.len() == 26 && "RelationshipElement"@.len() == 19);
            assert("embeddedDataSpecifications"@.len() == 26 && "AnnotatedRelationshipElement"@.len() == 28);
            assert("embeddedDataSpecifications"@.len() == 26 && "BasicEventElement"@.len() == 17);
            assert("embeddedDataSpecifications"@.len() == 26 && "Blob"@.len() == 4);
            assert("embeddedDataSpecifications"@.len() == 26 && "Capability"@.len() == 10);
            assert("embeddedDataSpecifications"@.len() == 26 && "File"@.len() == 4);
            assert("embeddedDataSpecifications"@.len() == 26 && "MultiLanguageProperty"@.len() == 21);
            assert("embeddedDataSpecifications"@.len() == 26 && "Property"@.len() == 8);
            assert("embeddedDataSpecifications"@.len() == 26 && "Range"@.len() == 5);
            assert("embeddedDataSpecifications"@.len() == 26 && "ReferenceElement"@.len() == 16);
            assert("embeddedDataSpecifications"@.len() == 26 && "DataElement"@.len() == 11);
            assert("embeddedDataSpecifications"@.len() == 26 && "Entity"@.len() == 6);
            assert("embeddedDataSpecifications"@.len() == 26 && "Operation"@.len() == 9);
            assert("embeddedDataSpecifications"@.len() == 26 && "SubmodelElementCollection"@.len() == 25);
            assert("embeddedDataSpecifications"@.len() == 26 && "SubmodelElementList"@.len() == 19);
            assert("embeddedDataSpecifications"@.len() == 26 && "modelType"@.len() == 9);
            assert("embeddedDataSpecifications"@.len() == 26 && "entityType"@.len() == 10);
            assert("embeddedDataSpecifications"@.len() == 26 && "statement"@.len() == 9);
            assert("embeddedDataSpecifications"@.len() == 26 && "globalAssetId"@.len() == 13);
            assert("embeddedDataSpecifications"@.len() == 26 && "specificAssetId"@.len() == 15);
            assert("embeddedDataSpecifications"@.len() == 26 && "idShort"@.len() == 7);
            assert("embeddedDataSpecifications"@.len() == 26 && "displayName"@.len() == 11);
            assert("embeddedDataSpecifications"@.len() == 26 && "description"@.len() == 11);
            assert("embeddedDataSpecifications"@.len() == 26 && "category"@.len() == 8);
            assert("embeddedDataSpecifications"@.len() == 26 && "extensions"@.len() == 10);
            assert("embeddedDataSpecifications"@.len() == 26 && "semanticId"@.len() == 10);
            assert("embeddedDataSpecifications"@.len() == 26 && "supplementalSemanticIds"@.len() == 23);
            assert("embeddedDataSpecifications"@.len() == 26 && "qualifiers"@.len() == 10);
            assert("inputVariable"@.len() == 13 && "RelationshipElement"@.len() == 19);
            assert("inputVariable"@.len() == 13 && "AnnotatedRelationshipElement"@.len() == 28);
            assert("inputVariable"@.len() == 13 && "BasicEventElement"@.len() == 17);
            assert("inputVariable"@.len() == 13 && "Blob"@.len() == 4);
            assert("inputVariable"@.len() == 13 && "Capability"@.len() == 10);
            assert("inputVariable"@.len() == 13 && "File"@.len() == 4);
            assert("inputVariable"@.len() == 13 && "MultiLanguageProperty"@.len() == 21);
            assert("inputVariable"@.len() == 13 && "Property"@.len() == 8);
            assert("inputVariable"@.len() == 13 && "Range"@.len() == 5);
            assert("inputVariable"@.len() == 13 && "ReferenceElement"@.len() == 16);
            assert("inputVariable"@.len() == 13 && "DataElement"@.len() == 11);
            assert("inputVariable"@.len() == 13 && "Entity"@.len() == 6);
            assert("inputVariable"@.len() == 13 && "Operation"@.len() == 9);
            assert("inputVariable"@.len() == 13 && "SubmodelElementCollection"@.len() == 25);
            assert("inputVariable"@.len() == 13 && "SubmodelElementList"@.len() == 19);
            assert("inputVariable"@.len() == 13 && "modelType"@.len() == 9);
            assert("inputVariable"@.len() == 13 && "entityType"@.len() == 10);
            assert("inputVariable"@.len() == 13 && "statement"@.len() == 9);
            assert("inputVariable"@[0] != "globalAssetId"@[0]);
            assert("inputVariable"@.len() == 13 && "specificAssetId"@.len() == 15);
            assert("inputVariable"@.len() == 13 && "idShort"@.len() == 7);
            assert("inputVariable"@.len() == 13 && "displayName"@.len() == 11);
            assert("inputVariable"@.len() == 13 && "description"@.len() == 11);
            assert("inputVariable"@.len() == 13 && "category"@.len() == 8);
            assert("inputVariable"@.len() == 13 && "extensions"@.len() == 10);
            assert("inputVariable"@.len() == 13 && "semanticId"@.len() == 10);
            assert("inputVariable"@.len() == 13 && "supplementalSemanticIds"@.len() == 23);
            assert("inputVariable"@.len() == 13 && "qualifiers"@.len() == 10);
            assert("inputVariable"@.len() == 13 && "embeddedDataSpecifications"@.len() == 26);
            assert("outputVariable"@.len() == 14 && "RelationshipElement"@.len() == 19);
            assert("outputVariable"@.len() == 14 && "AnnotatedRelationshipElement"@.len() == 28);
            assert("outputVariable"@.len() == 14 && "BasicEventElement"@.len() == 17);
            assert("outputVariable"@.len() == 14 && "Blob"@.len() == 4);
            assert("outputVariable"@.len() == 14 && "Capability"@.len() == 10);
            assert("outputVariable"@.len() == 14 && "File"@.len() == 4);
            assert("outputVariable"@.len() == 14 && "MultiLanguageProperty"@.len() == 21);
            assert("outputVariable"@.len() == 14 && "Property"@.len() == 8);
            assert("outputVariable"@.len() == 14 && "Range"@.len() == 5);
            assert("outputVariable"@.len() == 14 && "ReferenceElement"@.len() == 16);
            assert("outputVariable"@.len() == 14 && "DataElement"@.len() == 11);
            assert("outputVariable"@.len() == 14 && "Entity"@.len() == 6);
            assert("outputVariable"@.len() == 14 && "Operation"@.len() == 9);
            assert("outputVariable"@.len() == 14 && "SubmodelElementCollection"@.len() == 25);
            assert("outputVariable"@.len() == 14 && "SubmodelElementList"@.len() == 19);
            assert("outputVariable"@.len() == 14 && "modelType"@.len() == 9);
            assert("outputVariable"@.len() == 14 && "entityType"@.len() == 10);
            assert("outputVariable"@.len() == 14 && "statement"@.len() == 9);
            assert("outputVariable"@.len() == 14 && "globalAssetId"@.len() == 13);
            assert("outputVariable"@.len() == 14 && "specificAssetId"@.len() == 15);
            assert("outputVariable"@.len() == 14 && "idShort"@.len() == 7);
            assert("outputVariable"@.len() == 14 && "displayName"@.len() == 11);
            assert("outputVariable"@.len() == 14 && "description"@.len() == 11);
            assert("outputVariable"@.len() == 14 && "category"@.len() == 8);
            assert("outputVariable"@.len() == 14 && "extensions"@.len() == 10);
            assert("outputVariable"@.len() == 14 && "semanticId"@.len() == 10);
            assert("outputVariable"@.len() == 14 && "supplementalSemanticIds"@.len() == 23);
            assert("outputVariable"@.len() == 14 && "qualifiers"@.len() == 10);
            assert("outputVariable"@.len() == 14 && "embeddedDataSpecifications"@.len() == 26);
            assert("outputVariable"@.len() == 14 && "inputVariable"@.len() == 13);
            assert("inoutputVariable"@.len() == 16 && "RelationshipElement"@.len() == 19);
            assert("inoutputVariable"@.len() == 16 && "AnnotatedRelationshipElement"@.len() == 28);
            assert("inoutputVariable"@.len() == 16 && "BasicEventElement"@.len() == 17);
            assert("inoutputVariable"@.len() == 16 && "Blob"@.len() == 4);
            assert("inoutputVariable"@.len() == 16 && "Capability"@.len() == 10);
            assert("inoutputVariable"@.len() == 16 && "File"@.len() == 4);
            assert("inoutputVariable"@.len() == 16 && "MultiLanguageProperty"@.len() == 21);
            assert("inoutputVariable"@.len() == 16 && "Property"@.len() == 8);
            assert("inoutputVariable"@.len() == 16 && "Range"@.len() == 5);
            assert("inoutputVariable"@[0] != "ReferenceElement"@[0]);
            assert("inoutputVariable"@.len() == 16 && "DataElement"@.len() == 11);
            assert("inoutputVariable"@.len() == 16 && "Entity"@.len() == 6);
            assert("inoutputVariable"@.len() == 16 && "Operation"@.len() == 9);
            assert("inoutputVariable"@.len() == 16 && "SubmodelElementCollection"@.len() == 25);
            assert("inoutputVariable"@.len() == 16 && "SubmodelElementList"@.len() == 19);
            assert("inoutputVariable"@.len() == 16 && "modelType"@.len() == 9);
            assert("inoutputVariable"@.len() == 16 && "entityType"@.len() == 10);
            assert("inoutputVariable"@.len() == 16 && "statement"@.len() == 9);
            assert("inoutputVariable"@.len() == 16 && "globalAssetId"@.len() == 13);
            assert("inoutputVariable"@.len() == 16 && "specificAssetId"@.len() == 15);
            assert("inoutputVariable"@.len() == 16 && "idShort"@.len() == 7);
            assert("inoutputVariable"@.len() == 16 && "displayName"@.len() == 11);
            assert("inoutputVariable"@.len() == 16 && "description"@.len() == 11);
            assert("inoutputVariable"@.len() == 16 && "category"@.len() == 8);
            assert("inoutputVariable"@.len() == 16 && "extensions"@.len() == 10);
            assert("inoutputVariable"@.len() == 16 && "semanticId"@.len() == 10);
            assert("inoutputVariable"@.len() == 16 && "supplementalSemanticIds"@.len() == 23);
            assert("inoutputVariable"@.len() == 16 && "qualifiers"@.len() == 10);
            assert("inoutputVariable"@.len() == 16 && "embeddedDataSpecifications"@.len() == 26);
            assert("inoutputVariable"@.len() == 16 && "inputVariable"@.len() == 13);
            assert("inoutputVariable"@.len() == 16 && "outputVariable"@.len() == 14);
            assert("orderRelevant"@.len() == 13 && "RelationshipElement"@.len() == 19);
            assert("orderRelevant"@.len() == 13 && "AnnotatedRelationshipElement"@.len() == 28);
            assert("orderRelevant"@.len() == 13 && "BasicEventElement"@.len() == 17);
            assert("orderRelevant"@.len() == 13 && "Blob"@.len() == 4);
            assert("orderRelevant"@.len() == 13 && "Capability"@.len() == 10);
            assert("orderRelevant"@.len() == 13 && "File"@.len() == 4);
            assert("orderRelevant"@.len() == 13 && "MultiLanguageProperty"@.len() == 21);
            assert("orderRelevant"@.len() == 13 && "Property"@.len() == 8);
            assert("orderRelevant"@.len() == 13 && "Range"@.len() == 5);
            assert("orderRelevant"@.len() == 13 && "ReferenceElement"@.len() == 16);
            assert("orderRelevant"@.len() == 13 && "DataElement"@.len() == 11);
            assert("orderRelevant"@.len() == 13 && "Entity"@.len() == 6);
            assert("orderRelevant"@.len() == 13 && "Operation"@.len() == 9);
            assert("orderRelevant"@.len() == 13 && "SubmodelElementCollection"@.len() == 25);
            assert("orderRelevant"@.len() == 13 && "SubmodelElementList"@.len() == 19);
            assert("orderRelevant"@.len() == 13 && "modelType"@.len() == 9);
            assert("orderRelevant"@.len() == 13 && "entityType"@.len() == 10);
            assert("orderRelevant"@.len() == 13 && "statement"@.len() == 9);
            assert("orderRelevant"@[0] != "globalAssetId"@[0]);
            assert("orderRelevant"@.len() == 13 && "specificAssetId"@.len() == 15);
            assert("orderRelevant"@.len() == 13 && "idShort"@.len() == 7);
            assert("orderRelevant"@.len() == 13 && "displayName"@.len() == 11);
            assert("orderRelevant"@.len() == 13 && "description"@.len() == 11);
            assert("orderRelevant"@.len() == 13 && "category"@.len() == 8);
            assert("orderRelevant"@.len() == 13 && "extensions"@.len() == 10);
            assert("orderRelevant"@.len() == 13 && "semanticId"@.len() == 10);
            assert("orderRelevant"@.len() == 13 && "supplementalSemanticIds"@.len() == 23);
            assert("orderRelevant"@.len() == 13 && "qualifiers"@.len() == 10);
            assert("orderRelevant"@.len() == 13 && "embeddedDataSpecifications"@.len() == 26);
            assert("orderRelevant"@[0] != "inputVariable"@[0]);
            assert("orderRelevant"@.len() == 13 && "outputVariable"@.len() == 14);
            assert("orderRelevant"@.len() == 13 && "inoutputVariable"@.len() == 16);
            assert("value"@.len() == 5 && "RelationshipElement"@.len() == 19);
            assert("value"@.len() == 5 && "AnnotatedRelationshipElement"@.len() == 28);
            assert("value"@.len() == 5 && "BasicEventElement"@.len() == 17);
            assert("value"@.len() == 5 && "Blob"@.len() == 4);
            assert("value"@.len() == 5 && "Capability"@.len() == 10);
            assert("value"@.len() == 5 && "File"@.len() == 4);
            assert("value"@.len() == 5 && "MultiLanguageProperty"@.len() == 21);
            assert("value"@.len() == 5 && "Property"@.len() == 8);
            assert("value"@[0] != "Range"@[0]);
            assert("value"@.len() == 5 && "ReferenceElement"@.len() == 16);
            assert("value"@.len() == 5 && "DataElement"@.len() == 11);
            assert("value"@.len() == 5 && "Entity"@.len() == 6);
            assert("value"@.len() == 5 && "Operation"@.len() == 9);
            assert("value"@.len() == 5 && "SubmodelElementCollection"@.len() == 25);
            assert("value"@.len() == 5 && "SubmodelElementList"@.len() == 19);
            assert("value"@.len() == 5 && "modelType"@.len() == 9);
            assert("value"@.len() == 5 && "entityType"@.len() == 10);
            assert("value"@.len() == 5 && "statement"@.len() == 9);
            assert("value"@.len() == 5 && "globalAssetId"@.len() == 13);
            assert("value"@.len() == 5 && "specificAssetId"@.len() == 15);
            assert("value"@.len() == 5 && "idShort"@.len() == 7);
            assert("value"@.len() == 5 && "displayName"@.len() == 11);
            assert("value"@.len() == 5 && "description"@.len() == 11);
            assert("value"@.len() == 5 && "category"@.len() == 8);
            assert("value"@.len() == 5 && "extensions"@.len() == 10);
            assert("value"@.len() == 5 && "semanticId"@.len() == 10);
            assert("value"@.len() == 5 && "supplementalSemanticIds"@.len() == 23);
            assert("value"@.len() == 5 && "qualifiers"@.len() == 10);
            assert("value"@.len() == 5 && "embeddedDataSpecifications"@.len() == 26);
            assert("value"@.len() == 5 && "inputVariable"@.len() == 13);
            assert("value"@.len() == 5 && "outputVariable"@.len() == 14);
            assert("value"@.len() == 5 && "inoutputVariable"@.len() == 16);
            assert("value"@.len() == 5 && "orderRelevant"@.len() == 13);
            assert("semanticIdListElement"@.len() == 21 && "RelationshipElement"@.len() == 19);
            assert("semanticIdListElement"@.len() == 21 && "AnnotatedRelationshipElement"@.len() == 28);
            assert("semanticIdListElement"@.len() == 21 && "BasicEventElement"@.len() == 17);
            assert("semanticIdListElement"@.len() == 21 && "Blob"@.len() == 4);
            assert("semanticIdListElement"@.len() == 21 && "Capability"@.len() == 10);
            assert("semanticIdListElement"@.len() == 21 && "File"@.len() == 4);
            assert("semanticIdListElement"@[0] != "MultiLanguageProperty"@[0]);
            assert("semanticIdListElement"@.len() == 21 && "Property"@.len() == 8);
            assert("semanticIdListElement"@.len() == 21 && "Range"@.len() == 5);
            assert("semanticIdListElement"@.len() == 21 && "ReferenceElement"@.len() == 16);
            assert("semanticIdListElement"@.len() == 21 && "DataElement"@.len() == 11);
            assert("semanticIdListElement"@.len() == 21 && "Entity"@.len() == 6);
            assert("semanticIdListElement"@.len() == 21 && "Operation"@.len() == 9);
            assert("semanticIdListElement"@.len() == 21 && "SubmodelElementCollection"@.len() == 25);
            assert("semanticIdListElement"@.len() == 21 && "SubmodelElementList"@.len() == 19);
            assert("semanticIdListElement"@.len() == 21 && "modelType"@.len() == 9);
            assert("semanticIdListElement"@.len() == 21 && "entityType"@.len() == 10);
            assert("semanticIdListElement"@.len() == 21 && "statement"@.len() == 9);
            assert("semanticIdListElement"@.len() == 21 && "globalAssetId"@.len() == 13);
            assert("semanticIdListElement"@.len() == 21 && "specificAssetId"@.len() == 15);
            assert("semanticIdListElement"@.len() == 21 && "idShort"@.len() == 7);
            assert("semanticIdListElement"@.len() == 21 && "displayName"@.len() == 11);
            assert("semanticIdListElement"@.len() == 21 && "description"@.len() == 11);
            assert("semanticIdListElement"@.len() == 21 && "category"@.len() == 8);
            assert("semanticIdListElement"@.len() == 21 && "extensions"@.len() == 10);
            assert("semanticIdListElement"@.len() == 21 && "semanticId"@.len() == 10);
            assert("semanticIdListElement"@.len() == 21 && "supplementalSemanticIds"@.len() == 23);
            assert("semanticIdListElement"@.len() == 21 && "qualifiers"@.len() == 10);
            assert("semanticIdListElement"@.len() == 21 && "embeddedDataSpecifications"@.len() == 26);
            assert("semanticIdListElement"@.len() == 21 && "inputVariable"@.len() == 13);
            assert("semanticIdListElement"@.len() == 21 && "outputVariable"@.len() == 14);
            assert("semanticIdListElement"@.len() == 21 && "inoutputVariable"@.len() == 16);
            assert("semanticIdListElement"@.len() == 21 && "orderRelevant"@.len() == 13);
            assert("semanticIdListElement"@.len() == 21 && "value"@.len() == 5);
            assert("typeValueListElement"@.len() == 20 && "RelationshipElement"@.len() == 19);
            assert("typeValueListElement"@.len() == 20 && "AnnotatedRelationshipElement"@.len() == 28);
            assert("typeValueListElement"@.len() == 20 && "BasicEventElement"@.len() == 17);
            assert("typeValueListElement"@.len() == 20 && "Blob"@.len() == 4);
            assert("typeValueListElement"@.len() == 20 && "Capability"@.len() == 10);
            assert("typeValueListElement"@.len() == 20 && "File"@.len() == 4);
            assert("typeValueListElement"@.len() == 20 && "MultiLanguageProperty"@.len() == 21);
            assert("typeValueListElement"@.len() == 20 && "Property"@.len() == 8);
            assert("typeValueListElement"@.len() == 20 && "Range"@.len() == 5);
            assert("typeValueListElement"@.len() == 20 && "ReferenceElement"@.len() == 16);
            assert("typeValueListElement"@.len() == 20 && "DataElement"@.len() == 11);
            assert("typeValueListElement"@.len() == 20 && "Entity"@.len() == 6);
            assert("typeValueListElement"@.len() == 20 && "Operation"@.len() == 9);
            assert("typeValueListElement"@.len() == 20 && "SubmodelElementCollection"@.len() == 25);
            assert("typeValueListElement"@.len() == 20 && "SubmodelElementList"@.len() == 19);
            assert("typeValueListElement"@.len() == 20 && "modelType"@.len() == 9);
            assert("typeValueListElement"@.len() == 20 && "entityType"@.len() == 10);
            assert("typeValueListElement"@.len() == 20 && "statement"@.len() == 9);
            assert("typeValueListElement"@.len() == 20 && "globalAssetId"@.len() == 13);
            assert("typeValueListElement"@.len() == 20 && "specificAssetId"@.len() == 15);
            assert("typeValueListElement"@.len() == 20 && "idShort"@.len() == 7);
            assert("typeValueListElement"@.len() == 20 && "displayName"@.len() == 11);
            assert("typeValueListElement"@.len() == 20 && "description"@.len() == 11);
            assert("typeValueListElement"@.len() == 20 && "category"@.len() == 8);
            assert("typeValueListElement"@.len() == 20 && "extensions"@.len() == 10);
            assert("typeValueListElement"@.len() == 20 && "semanticId"@.len() == 10);
            assert("typeValueListElement"@.len() == 20 && "supplementalSemanticIds"@.len() == 23);
            assert("typeValueListElement"@.len() == 20 && "qualifiers"@.len() == 10);
            assert("typeValueListElement"@.len() == 20 && "embeddedDataSpecifications"@.len() == 26);
            assert("typeValueListElement"@.len() == 20 && "inputVariable"@.len() == 13);
            assert("typeValueListElement"@.len() == 20 && "outputVariable"@.len() == 14);
            assert("typeValueListElement"@.len() == 20 && "inoutputVariable"@.len() == 16);
            assert("typeValueListElement"@.len() == 20 && "orderRelevant"@.len() == 13);
            assert("typeValueListElement"@.len() == 20 && "value"@.len() == 5);
            assert("typeValueListElement"@.len() == 20 && "semanticIdListElement"@.len() == 21);
            assert("valueTypeListElement"@.len() == 20 && "RelationshipElement"@.len() == 19);
            assert("valueTypeListElement"@.len() == 20 && "AnnotatedRelationshipElement"@.len() == 28);
            assert("valueTypeListElement"@.len() == 20 && "BasicEventElement"@.len() == 17);
            assert("valueTypeListElement"@.len() == 20 && "Blob"@.len() == 4);
            assert("valueTypeListElement"@.len() == 20 && "Capability"@.len() == 10);
            assert("valueTypeListElement"@.len() == 20 && "File"@.len() == 4);
            assert("valueTypeListElement"@.len() == 20 && "MultiLanguageProperty"@.len() == 21);
            assert("valueTypeListElement"@.len() == 20 && "Property"@.len() == 8);
            assert("valueTypeListElement"@.len() == 20 && "Range"@.len() == 5);
            assert("valueTypeListElement"@.len() == 20 && "ReferenceElement"@.len() == 16);
            assert("valueTypeListElement"@.len() == 20 && "DataElement"@.len() == 11);
            assert("valueTypeListElement"@.len() == 20 && "Entity"@.len() == 6);
            assert("valueTypeListElement"@.len() == 20 && "Operation"@.len() == 9);
            assert("valueTypeListElement"@.len() == 20 && "SubmodelElementCollection"@.len() == 25);
            assert("valueTypeListElement"@.len() == 20 && "SubmodelElementList"@.len() == 19);
            assert("valueTypeListElement"@.len() == 20 && "modelType"@.len() == 9);
            assert("valueTypeListElement"@.len() == 20 && "entityType"@.len() == 10);
            assert("valueTypeListElement"@.len() == 20 && "statement"@.len() == 9);
            assert("valueTypeListElement"@.len() == 20 && "globalAssetId"@.len() == 13);
            assert("valueTypeListElement"@.len() == 20 && "specificAssetId"@.len() == 15);
            assert("valueTypeListElement"@.len() == 20 && "idShort"@.len() == 7);
            assert("valueTypeListElement"@.len() == 20 && "displayName"@.len() == 11);
            assert("valueTypeListElement"@.len() == 20 && "description"@.len() == 11);
            assert("valueTypeListElement"@.len() == 20 && "category"@.len() == 8);
            assert("valueTypeListElement"@.len() == 20 && "extensions"@.len() == 10);
            assert("valueTypeListElement"@.len() == 20 && "semanticId"@.len() == 10);
            assert("valueTypeListElement"@.len() == 20 && "supplementalSemanticIds"@.len() == 23);
            assert("valueTypeListElement"@.len() == 20 && "qualifiers"@.len() == 10);
            assert("valueTypeListElement"@.len() == 20 && "embeddedDataSpecifications"@.len() == 26);
            assert("valueTypeListElement"@.len() == 20 && "inputVariable"@.len() == 13);
            assert("valueTypeListElement"@.len() == 20 && "outputVariable"@.len() == 14);
            assert("valueTypeListElement"@.len() == 20 && "inoutputVariable"@.len() == 16);
            assert("valueTypeListElement"@.len() == 20 && "orderRelevant"@.len() == 13);
            assert("valueTypeListElement"@.len() == 20 && "value"@.len() == 5);
            assert("valueTypeListElement"@.len() == 20 && "semanticIdListElement"@.len() == 21);
            assert("valueTypeListElement"@[0] != "typeValueListElement"@[0]);
            assert("CoManagedEntity"@.len() == 15 && "RelationshipElement"@.len() == 19);
            assert("CoManagedEntity"@.len() == 15 && "AnnotatedRelationshipElement"@.len() == 28);
            assert("CoManagedEntity"@.len() == 15 && "BasicEventElement"@.len() == 17);
            assert("CoManagedEntity"@.len() == 15 && "Blob"@.len() == 4);
            assert("CoManagedEntity"@.len() == 15 && "Capability"@.len() == 10);
            assert("CoManagedEntity"@.len() == 15 && "File"@.len() == 4);
            assert("CoManagedEntity"@.len() == 15 && "MultiLanguageProperty"@.len() == 21);
            assert("CoManagedEntity"@.len() == 15 && "Property"@.len() == 8);
            assert("CoManagedEntity"@.len() == 15 && "Range"@.len() == 5);
            assert("CoManagedEntity"@.len() == 15 && "ReferenceElement"@.len() == 16);
            assert("CoManagedEntity"@.len() == 15 && "DataElement"@.len() == 11);
            assert("CoManagedEntity"@.len() == 15 && "Entity"@.len() == 6);
            assert("CoManagedEntity"@.len() == 15 && "Operation"@.len() == 9);
            assert("CoManagedEntity"@.len() == 15 && "SubmodelElementCollection"@.len() == 25);
            assert("CoManagedEntity"@.len() == 15 && "SubmodelElementList"@.len() == 19);
            assert("CoManagedEntity"@.len() == 15 && "modelType"@.len() == 9);
            assert("CoManagedEntity"@.len() == 15 && "entityType"@.len() == 10);
            assert("CoManagedEntity"@.len() == 15 && "statement"@.len() == 9);
            assert("CoManagedEntity"@.len() == 15 && "globalAssetId"@.len() == 13);
            assert("CoManagedEntity"@[0] != "specificAssetId"@[0]);
            assert("CoManagedEntity"@.len() == 15 && "idShort"@.len() == 7);
            assert("CoManagedEntity"@.len() == 15 && "displayName"@.len() == 11);
            assert("CoManagedEntity"@.len() == 15 && "description"@.len() == 11);
            assert("CoManagedEntity"@.len() == 15 && "category"@.len() == 8);
            assert("CoManagedEntity"@.len() == 15 && "extensions"@.len() == 10);
            assert("CoManagedEntity"@.len() == 15 && "semanticId"@.len() == 10);
            assert("CoManagedEntity"@.len() == 15 && "supplementalSemanticIds"@.len() == 23);
            assert("CoManagedEntity"@.len() == 15 && "qualifiers"@.len() == 10);
            assert("CoManagedEntity"@.len() == 15 && "embeddedDataSpecifications"@.len() == 26);
            assert("CoManagedEntity"@.len() == 15 && "inputVariable"@.len() == 13);
            assert("CoManagedEntity"@.len() == 15 && "outputVariable"@.len() == 14);
            assert("CoManagedEntity"@.len() == 15 && "inoutputVariable"@.len() == 16);
            assert("CoManagedEntity"@.len() == 15 && "orderRelevant"@.len() == 13);
            assert("CoManagedEntity"@.len() == 15 && "value"@.len() == 5);
            assert("CoManagedEntity"@.len() == 15 && "semanticIdListElement"@.len() == 21);
            assert("CoManagedEntity"@.len() == 15 && "typeValueListElement"@.len() == 20);
            assert("CoManagedEntity"@.len() == 15 && "valueTypeListElement"@.len() == 20);
            assert("SelfManagedEntity"@.len() == 17 && "RelationshipElement"@.len() == 19);
            assert("SelfManagedEntity"@.len() == 17 && "AnnotatedRelationshipElement"@.len() == 28);
            assert("SelfManagedEntity"@[0] != "BasicEventElement"@[0]);
            assert("SelfManagedEntity"@.len() == 17 && "Blob"@.len() == 4);
            assert("SelfManagedEntity"@.len() == 17 && "Capability"@.len() == 10);
            assert("SelfManagedEntity"@.len() == 17 && "File"@.len() == 4);
            assert("SelfManagedEntity"@.len() == 17 && "MultiLanguageProperty"@.len() == 21);
            assert("SelfManagedEntity"@.len() == 17 && "Property"@.len() == 8);
            assert("SelfManagedEntity"@.len() == 17 && "Range"@.len() == 5);
            assert("SelfManagedEntity"@.len() == 17 && "ReferenceElement"@.len() == 16);
            assert("SelfManagedEntity"@.len() == 17 && "DataElement"@.len() == 11);
            assert("SelfManagedEntity"@.len() == 17 && "Entity"@.len() == 6);
            assert("SelfManagedEntity"@.len() == 17 && "Operation"@.len() == 9);
            assert("SelfManagedEntity"@.len() == 17 && "SubmodelElementCollection"@.len() == 25);
            assert("SelfManagedEntity"@.len() == 17 && "SubmodelElementList"@.len() == 19);
            assert("SelfManagedEntity"@.len() == 17 && "modelType"@.len() == 9);
            assert("SelfManagedEntity"@.len() == 17 && "entityType"@.len() == 10);
            assert("SelfManagedEntity"@.len() == 17 && "statement"@.len() == 9);
            assert("SelfManagedEntity"@.len() == 17 && "globalAssetId"@.len() == 13);
            assert("SelfManagedEntity"@.len() == 17 && "specificAssetId"@.len() == 15);
            assert("SelfManagedEntity"@.len() == 17 && "idShort"@.len() == 7);
            assert("SelfManagedEntity"@.len() == 17 && "displayName"@.len() == 11);
            assert("SelfManagedEntity"@.len() == 17 && "description"@.len() == 11);
            assert("SelfManagedEntity"@.len() == 17 && "category"@.len() == 8);
            assert("SelfManagedEntity"@.len() == 17 && "extensions"@.len() == 10);
            assert("SelfManagedEntity"@.len() == 17 && "semanticId"@.len() == 10);
            assert("SelfManagedEntity"@.len() == 17 && "supplementalSemanticIds"@.len() == 23);
            assert("SelfManagedEntity"@.len() == 17 && "qualifiers"@.len() == 10);
            assert("SelfManagedEntity"@.len() == 17 && "embeddedDataSpecifications"@.len() == 26);
            assert("SelfManagedEntity"@.len() == 17 && "inputVariable"@.len() == 13);
            assert("SelfManagedEntity"@.len() == 17 && "outputVariable"@.len() == 14);
            assert("SelfManagedEntity"@.len() == 17 && "inoutputVariable"@.len() == 16);
            assert("SelfManagedEntity"@.len() == 17 && "orderRelevant"@.len() == 13);
            assert("SelfManagedEntity"@.len() == 17 && "value"@.len() == 5);
            assert("SelfManagedEntity"@.len() == 17 && "semanticIdListElement"@.len() == 21);
            assert("SelfManagedEntity"@.len() == 17 && "typeValueListElement"@.len() == 20);
            assert("SelfManagedEntity"@.len() == 17 && "valueTypeListElement"@.len() == 20);
            assert("SelfManagedEntity"@.len() == 17 && "CoManagedEntity"@.len() == 15);
        }
                let mut fs = model_type_member("Operation");
                let ghost p0 = fs@;
                let mut part = op.encode_mixins();
                let ghost sp = part@;
                fs.append(&mut part);
                proof {
                    assert(p0 == Seq::<(String, Json)>::empty().push(p0[0]));
                    lemma_names_within_push(Seq::<(String, Json)>::empty(), p0[0], |n: Seq<char>| n == "modelType"@);
                    lemma_names_within_concat(p0, sp, |n: Seq<char>| n == "modelType"@, |n: Seq<char>| submodel_element_fields_name(n), |n: Seq<char>| operation_member_name(n));
                    lemma_lookup_push(Seq::<(String, Json)>::empty(), p0[0], "modelType"@);
                    lemma_lookup_concat(p0, sp, "modelType"@);
                    lemma_lookup_push(Seq::<(String, Json)>::empty(), p0[0], "idShort"@);
                    lemma_lookup_concat(p0, sp, "idShort"@);
                    lemma_lookup_push(Seq::<(String, Json)>::empty(), p0[0], "displayName"@);
                    lemma_lookup_concat(p0, sp, "displayName"@);
                    lemma_lookup_push(Seq::<(String, Json)>::empty(), p0[0], "description"@);
                    lemma_lookup_concat(p0, sp, "description"@);
                    lemma_lookup_push(Seq::<(String, Json)>::empty(), p0[0], "category"@);
                    lemma_lookup_concat(p0, sp, "category"@);
                    lemma_lookup_push(Seq::<(String, Json)>::empty(), p0[0], "extensions"@);
                    lemma_lookup_concat(p0, sp, "extensions"@);
                    lemma_lookup_push(Seq::<(String, Json)>::empty(), p0[0], "semanticId"@);
                    lemma_lookup_concat(p0, sp, "semanticId"@);
                    lemma_lookup_push(Seq::<(String, Json)>::empty(), p0[0], "supplementalSemanticIds"@);
                    lemma_lookup_concat(p0, sp, "supplementalSemanticIds"@);
                    lemma_lookup_push(Seq::<(String, Json)>::empty(), p0[0], "qualifiers"@);
                    lemma_lookup_concat(p0, sp, "qualifiers"@);
                    lemma_lookup_push(Seq::<(String, Json)>::empty(), p0[0], "embeddedDataSpecifications"@);
                    lemma_lookup_concat(p0, sp, "embeddedDataSpecifications"@);
                    lemma_lookup_push(Seq::<(String, Json)>::empty(), p0[0], "inputVariable"@);
                    lemma_lookup_concat(p0, sp, "inputVariable"@);
                    lemma_lookup_push(Seq::<(String, Json)>::empty(), p0[0], "outputVariable"@);
                    lemma_lookup_concat(p0, sp, "outputVariable"@);
                    lemma_lookup_push(Seq::<(String, Json)>::empty(), p0[0], "inoutputVariable"@);
                    lemma_lookup_concat(p0, sp, "inoutputVariable"@);
                    lemma_lookup_outside(sp, |n: Seq<char>| submodel_element_fields_name(n), "modelType"@);
                    lemma_lookup_outside(sp, |n: Seq<char>| submodel_element_fields_name(n), "inputVariable"@);
                    lemma_lookup_outside(sp, |n: Seq<char>| submodel_element_fields_name(n), "outputVariable"@);
                    lemma_lookup_outside(sp, |n: Seq<char>| submodel_element_fields_name(n), "inoutputVariable"@);
                }
                let ghost prev = fs@;
                match &op.input_variable {
                    Some(b) => {
                        let sj = b.to_json();
                        fs.push(field("inputVariable", sj));
                    },
                    None => {},
                }
                proof {
                    if op.input_variable is Some {
                        assert(fs@ == prev.push(fs@.last()));
                        lemma_names_within_push(prev, fs@.last(), |n: Seq<char>| operation_member_name(n));
                        lemma_lookup_push(prev, fs@.last(), "modelType"@);
                        lemma_lookup_push(prev, fs@.last(), "idShort"@);
                        lemma_lookup_push(prev, fs@.last(), "displayName"@);
                        lemma_lookup_push(prev, fs@.last(), "description"@);
                        lemma_lookup_push(prev, fs@.last(), "category"@);
                        lemma_lookup_push(prev, fs@.last(), "extensions"@);
                        lemma_lookup_push(prev, fs@.last(), "semanticId"@);
                        lemma_lookup_push(prev, fs@.last(), "supplementalSemanticIds"@);
                        lemma_lookup_push(prev, fs@.last(), "qualifiers"@);
                        lemma_lookup_push(prev, fs@.last(), "embeddedDataSpecifications"@);
                        lemma_lookup_push(prev, fs@.last(), "inputVariable"@);
                        lemma_lookup_push(prev, fs@.last(), "outputVariable"@);
                        lemma_lookup_push(prev, fs@.last(), "inoutputVariable"@);
                    }
                }
                let ghost prev = fs@;
                match &op.output_variable {
                    Some(b) => {
                        let sj = b.to_json();
                        fs.push(field("outputVariable", sj));
                    },
                    None => {},
                }
                proof {
                    if op.output_variable is Some {
                        assert(fs@ == prev.push(fs@.last()));
                        lemma_names_within_push(prev, fs@.last(), |n: Seq<char>| operation_member_name(n));
                        lemma_lookup_push(prev, fs@.last(), "modelType"@);
                        lemma_lookup_push(prev, fs@.last(), "idShort"@);
                        lemma_lookup_push(prev, fs@.last(), "displayName"@);
                        lemma_lookup_push(prev, fs@.last(), "description"@);
                        lemma_lookup_push(prev, fs@.last(), "category"@);
                        lemma_lookup_push(prev, fs@.last(), "extensions"@);
                        lemma_lookup_push(prev, fs@.last(), "semanticId"@);
                        lemma_lookup_push(prev, fs@.last(), "supplementalSemanticIds"@);
                        lemma_lookup_push(prev, fs@.last(), "qualifiers"@);
                        lemma_lookup_push(prev, fs@.last(), "embeddedDataSpecifications"@);
                        lemma_lookup_push(prev, fs@.last(), "inputVariable"@);
                        lemma_lookup_push(prev, fs@.last(), "outputVariable"@);
                        lemma_lookup_push(prev, fs@.last(), "inoutputVariable"@);
                    }
                }
                let ghost prev = fs@;
                match &op.inoutput_variable {
                    Some(b) => {
                        let sj = b.to_json();
                        fs.push(field("inoutputVariable", sj));
                    },
                    None => {},
                }
                proof {
                    if op.inoutput_variable is Some {
                        assert(fs@ == prev.push(fs@.last()));
                        lemma_names_within_push(prev, fs@.last(), |n: Seq<char>| operation_member_name(n));
                        lemma_lookup_push(prev, fs@.last(), "modelType"@);
                        lemma_lookup_push(prev, fs@.last(), "idShort"@);
                        lemma_lookup_push(prev, fs@.last(), "displayName"@);
                        lemma_lookup_push(prev, fs@.last(), "description"@);
                        lemma_lookup_push(prev, fs@.last(), "category"@);
                        lemma_lookup_push(prev, fs@.last(), "extensions"@);
                        lemma_lookup_push(prev, fs@.last(), "semanticId"@);
                        lemma_lookup_push(prev, fs@.last(), "supplementalSemanticIds"@);
                        lemma_lookup_push(prev, fs@.last(), "qualifiers"@);
                        lemma_lookup_push(prev, fs@.last(), "embeddedDataSpecifications"@);
                        lemma_lookup_push(prev, fs@.last(), "inputVariable"@);
                        lemma_lookup_push(prev, fs@.last(), "outputVariable"@);
                        lemma_lookup_push(prev, fs@.last(), "inoutputVariable"@);
                    }
                }
        Json::Object(fs)
    }
}

impl SubmodelElementList {
    /// Writes the element as a JSON tree, tagged by its `modelType`.
    #[verifier::rlimit(100)]
    #[verifier::spinoff_prover]
    pub fn to_json(&self) -> (r: Json)
        ensures
            element_encoded(SubmodelElement::SubmodelElementList(*self), r),
        decreases self,
    {
        let l = self;
        proof {
            reveal_strlit("RelationshipElement");
            reveal_strlit("AnnotatedRelationshipElement");
            reveal_strlit("BasicEventElement");
            reveal_strlit("Blob");
            reveal_strlit("Capability");
            reveal_strlit("File");
            reveal_strlit("MultiLanguageProperty");
            reveal_strlit("Property");
            reveal_strlit("Range");
            reveal_strlit("ReferenceElement");
            reveal_strlit("DataElement");
            reveal_strlit("Entity");
            reveal_strlit("Operation");
            reveal_strlit("SubmodelElementCollection");
            reveal_strlit("SubmodelElementList");
            reveal_strlit("modelType");
            reveal_strlit("entityType");
            reveal_strlit("statement");
            reveal_strlit("globalAssetId");
            reveal_strlit("specificAssetId");
            reveal_strlit("idShort");
            reveal_strlit("displayName");
            reveal_strlit("description");
            reveal_strlit("category");
            reveal_strlit("extensions");
            reveal_strlit("semanticId");
            reveal_strlit("supplementalSemanticIds");
            reveal_strlit("qualifiers");
            reveal_strlit("embeddedDataSpecifications");
            reveal_strlit("inputVariable");
            reveal_strlit("outputVariable");
            reveal_strlit("inoutputVariable");
            reveal_strlit("orderRelevant");
            reveal_strlit("value");
            reveal_strlit("semanticIdListElement");
            reveal_strlit("typeValueListElement");
            reveal_strlit("valueTypeListElement");
            reveal_strlit("CoManagedEntity");
            reveal_strlit("SelfManagedEntity");
            assert("AnnotatedRelationshipElement"@.len() == 28 && "RelationshipElement"@.len() == 19);
            assert("BasicEventElement"@.len() == 17 && "RelationshipElement"@.len() == 19);
            assert("BasicEventElement"@.len() == 17 && "AnnotatedRelationshipElement"@.len() == 28);
            assert("Blob"@.len() == 4 && "RelationshipElement"@.len() == 19);
            assert("Blob"@.len() == 4 && "AnnotatedRelationshipElement"@.len() == 28);
            assert("Blob"@.len() == 4 && "BasicEventElement"@.len() == 17);
            assert("Capability"@.len() == 10 && "RelationshipElement"@.len() == 19);
            assert("Capability"@.len() == 10 && "AnnotatedRelationshipElement"@.len() == 28);
            assert("Capability"@.len() == 10 && "BasicEventElement"@.len() == 17);
            assert("Capability"@.len() == 10 && "Blob"@.len() == 4);
            assert("File"@.len() == 4 && "RelationshipElement"@.len() == 19);
            assert("File"@.len() == 4 && "AnnotatedRelationshipElement"@.len() == 28);
            assert("File"@.len() == 4 && "BasicEventElement"@.len() == 17);
            assert("File"@[0] != "Blob"@[0]);
            assert("File"@.len() == 4 && "Capability"@.len() == 10);
            assert("MultiLanguageProperty"@.len() == 21 && "RelationshipElement"@.len() == 19);
            assert("MultiLanguageProperty"@.len() == 21 && "AnnotatedRelationshipElement"@.len() == 28);
            assert("MultiLanguageProperty"@.len() == 21 && "BasicEventElement"@.len() == 17);
            assert("MultiLanguageProperty"@.len() == 21 && "Blob"@.len() == 4);
            assert("MultiLanguageProperty"@.len() == 21 && "Capability"@.len() == 10);
            assert("MultiLanguageProperty"@.len() == 21 && "File"@.len() == 4);
            assert("Property"@.len() == 8 && "RelationshipElement"@.len() == 19);
            assert("Property"@.len() == 8 && "AnnotatedRelationshipElement"@.len() == 28);
            assert("Property"@.len() == 8 && "BasicEventElement"@.len() == 17);
            assert("Property"@.len() == 8 && "Blob"@.len() == 4);
            assert("Property"@.len() == 8 && "Capability"@.len() == 10);
            assert("Property"@.len() == 8 && "File"@.len() == 4);
            assert("Property"@.len() == 8 && "MultiLanguageProperty"@.len() == 21);
            assert("Range"@.len() == 5 && "RelationshipElement"@.len() == 19);
            assert("Range"@.len() == 5 && "AnnotatedRelationshipElement"@.len() == 28);
            assert("Range"@.len() == 5 && "BasicEventElement"@.len() == 17);
            assert("Range"@.len() == 5 && "Blob"@.len() == 4);
            assert("Range"@.len() == 5 && "Capability"@.len() == 10);
            assert("Range"@.len() == 5 && "File"@.len() == 4);
            assert("Range"@.len() == 5 && "MultiLanguageProperty"@.len() == 21);
            assert("Range"@.len() == 5 && "Property"@.len() == 8);
            assert("ReferenceElement"@.len() == 16 && "RelationshipElement"@.len() == 19);
            assert("ReferenceElement"@.len() == 16 && "AnnotatedRelationshipElement"@.len() == 28);
            assert("ReferenceElement"@.len() == 16 && "BasicEventElement"@.len() == 17);
            assert("ReferenceElement"@.len() == 16 && "Blob"@.len() == 4);
            assert("ReferenceElement"@.len() == 16 && "Capability"@.len() == 10);
            assert("ReferenceElement"@.len() == 16 && "File"@.len() == 4);
            assert("ReferenceElement"@.len() == 16 && "MultiLanguageProperty"@.len() == 21);
            assert("ReferenceElement"@.len() == 16 && "Property"@.len() == 8);
            assert("ReferenceElement"@.len() == 16 && "Range"@.len() == 5);
            assert("DataElement"@.len() == 11 && "RelationshipElement"@.len() == 19);
            assert("DataElement"@.len() == 11 && "AnnotatedRelationshipElement"@.len() == 28);
            assert("DataElement"@.len() == 11 && "BasicEventElement"@.len() == 17);
            assert("DataElement"@.len() == 11 && "Blob"@.len() == 4);
            assert("DataElement"@.len() == 11 && "Capability"@.len() == 10);
            assert("DataElement"@.len() == 11 && "File"@.len() == 4);
            assert("DataElement"@.len() == 11 && "MultiLanguageProperty"@.len() == 21);
            assert("DataElement"@.len() == 11 && "Property"@.len() == 8);
            assert("DataElement"@.len() == 11 && "Range"@.len() == 5);
            assert("DataElement"@.len() == 11 && "ReferenceElement"@.len() == 16);
            assert("Entity"@.len() == 6 && "RelationshipElement"@.len() == 19);
            assert("Entity"@.len() == 6 && "AnnotatedRelationshipElement"@.len() == 28);
            assert("Entity"@.len() == 6 && "BasicEventElement"@.len() == 17);
            assert("Entity"@.len() == 6 && "Blob"@.len() == 4);
            assert("Entity"@.len() == 6 && "Capability"@.len() == 10);
            assert("Entity"@.len() == 6 && "File"@.len() == 4);
            assert("Entity"@.len() == 6 && "MultiLanguageProperty"@.len() == 21);
            assert("Entity"@.len() == 6 && "Property"@.len() == 8);
            assert("Entity"@.len() == 6 && "Range"@.len() == 5);
            assert("Entity"@.len() == 6 && "ReferenceElement"@.len() == 16);
            assert("Entity"@.len() == 6 && "DataElement"@.len() == 11);
            assert("Operation"@.len() == 9 && "RelationshipElement"@.len() == 19);
            assert("Operation"@.len() == 9 && "AnnotatedRelationshipElement"@.len() == 28);
            assert("Operation"@.len() == 9 && "BasicEventElement"@.len() == 17);
            assert("Operation"@.len() == 9 && "Blob"@.len() == 4);
            assert("Operation"@.len() == 9 && "Capability"@.len() == 10);
            assert("Operation"@.len() == 9 && "File"@.len() == 4);
            assert("Operation"@.len() == 9 && "MultiLanguageProperty"@.len() == 21);
            assert("Operation"@.len() == 9 && "Property"@.len() == 8);
            assert("Operation"@.len() == 9 && "Range"@.len() == 5);
            assert("Operation"@.len() == 9 && "ReferenceElement"@.len() == 16);
            assert("Operation"@.len() == 9 && "DataElement"@.len() == 11);
            assert("Operation"@.len() == 9 && "Entity"@.len() == 6);
            assert("SubmodelElementCollection"@.len() == 25 && "RelationshipElement"@.len() == 19);
            assert("SubmodelElementCollection"@.len() == 25 && "AnnotatedRelationshipElement"@.len() == 28);
            assert("SubmodelElementCollection"@.len() == 25 && "BasicEventElement"@.len() == 17);
            assert("SubmodelElementCollection"@.len() == 25 && "Blob"@.len() == 4);
            assert("SubmodelElementCollection"@.len() == 25 && "Capability"@.len() == 10);
            assert("SubmodelElementCollection"@.len() == 25 && "File"@.len() == 4);
            assert("SubmodelElementCollection"@.len() == 25 && "MultiLanguageProperty"@.len() == 21);
            assert("SubmodelElementCollection"@.len() == 25 && "Property"@.len() == 8);
            assert("SubmodelElementCollection"@.len() == 25 && "Range"@.len() == 5);
            assert("SubmodelElementCollection"@.len() == 25 && "ReferenceElement"@.len() == 16);
            assert("SubmodelElementCollection"@.len() == 25 && "DataElement"@.len() == 11);
            assert("SubmodelElementCollection"@.len() == 25 && "Entity"@.len() == 6);
            assert("SubmodelElementCollection"@.len() == 25 && "Operation"@.len() == 9);
            assert("SubmodelElementList"@[0] != "RelationshipElement"@[0]);
            assert("SubmodelElementList"@.len() == 19 && "AnnotatedRelationshipElement"@.len() == 28);
            assert("SubmodelElementList"@.len() == 19 && "BasicEventElement"@.len() == 17);
            assert("SubmodelElementList"@.len() == 19 && "Blob"@.len() == 4);
            assert("SubmodelElementList"@.len() == 19 && "Capability"@.len() == 10);
            assert("SubmodelElementList"@.len() == 19 && "File"@.len() == 4);
            assert("SubmodelElementList"@.len() == 19 && "MultiLanguageProperty"@.len() == 21);
            assert("SubmodelElementList"@.len() == 19 && "Property"@.len() == 8);
            assert("SubmodelElementList"@.len() == 19 && "Range"@.len() == 5);
            assert("SubmodelElementList"@.len() == 19 && "ReferenceElement"@.len() == 16);
            assert("SubmodelElementList"@.len() == 19 && "DataElement"@.len() == 11);
            assert("SubmodelElementList"@.len() == 19 && "Entity"@.len() == 6);
            assert("SubmodelElementList"@.len() == 19 && "Operation"@.len() == 9);
            assert("SubmodelElementList"@.len() == 19 && "SubmodelElementCollection"@.len() == 25);
            assert("modelType"@.len() == 9 && "RelationshipElement"@.len() == 19);
            assert("modelType"@.len() == 9 && "AnnotatedRelationshipElement"@.len() == 28);
            assert("modelType"@.len() == 9 && "BasicEventElement"@.len() == 17);
            assert("modelType"@.len() == 9 && "Blob"@.len() == 4);
            assert("modelType"@.len() == 9 && "Capability"@.len() == 10);
            assert("modelType"@.len() == 9 && "File"@.len() == 4);
            assert("modelType"@.len() == 9 && "MultiLanguageProperty"@.len() == 21);
            assert("modelType"@.len() == 9 && "Property"@.len() == 8);
            assert("modelType"@.len() == 9 && "Range"@.len() == 5);
            assert("modelType"@.len() == 9 && "ReferenceElement"@.len() == 16);
            assert("modelType"@.len() == 9 && "DataElement"@.len() == 11);
            assert("modelType"@.len() == 9 && "Entity"@.len() == 6);
            assert("modelType"@[0] != "Operation"@[0]);
            assert("modelType"@.len() == 9 && "SubmodelElementCollection"@.len() == 25);
            assert("modelType"@.len() == 9 && "SubmodelElementList"@.len() == 19);
            assert("entityType"@.len() == 10 && "RelationshipElement"@.len() == 19);
            assert("entityType"@.len() == 10 && "AnnotatedRelationshipElement"@.len() == 28);
            assert("entityType"@.len() == 10 && "BasicEventElement"@.len() == 17);
            assert("entityType"@.len() == 10 && "Blob"@.len() == 4);
            assert("entityType"@[0] != "Capability"@[0]);
            assert("entityType"@.len() == 10 && "File"@.len() == 4);
            assert("entityType"@.len() == 10 && "MultiLanguageProperty"@.len() == 21);
            assert("entityType"@.len() == 10 && "Property"@.len() == 8);
            assert("entityType"@.len() == 10 && "Range"@.len() == 5);
            assert("entityType"@.len() == 10 && "ReferenceElement"@.len() == 16);
            assert("entityType"@.len() == 10 && "DataElement"@.len() == 11);
            assert("entityType"@.len() == 10 && "Entity"@.len() == 6);
            assert("entityType"@.len() == 10 && "Operation"@.len() == 9);
            assert("entityType"@.len() == 10 && "SubmodelElementCollection"@.len() == 25);
            assert("entityType"@.len() == 10 && "SubmodelElementList"@.len() == 19);
            assert("entityType"@.len() == 10 && "modelType"@.len() == 9);
            assert("statement"@.len() == 9 && "RelationshipElement"@.len() == 19);
            assert("statement"@.len() == 9 && "AnnotatedRelationshipElement"@.len() == 28);
            assert("statement"@.len() == 9 && "BasicEventElement"@.len() == 17);
            assert("statement"@.len() == 9 && "Blob"@.len() == 4);
            assert("statement"@.len() == 9 && "Capability"@.len() == 10);
            assert("statement"@.len() == 9 && "File"@.len() == 4);
            assert("statement"@.len() == 9 && "MultiLanguageProperty"@.len() == 21);
            assert("statement"@.len() == 9 && "Property"@.len() == 8);
            assert("statement"@.len() == 9 && "Range"@.len() == 5);
            assert("statement"@.len() == 9 && "ReferenceElement"@.len() == 16);
            assert("statement"@.len() == 9 && "DataElement"@.len() == 11);
            assert("statement"@.len() == 9 && "Entity"@.len() == 6);
            assert("statement"@[0] != "Operation"@[0]);
            assert("statement"@.len() == 9 && "SubmodelElementCollection"@.len() == 25);
            assert("statement"@.len() == 9 && "SubmodelElementList"@.len() == 19);
            assert("statement"@[0] != "modelType"@[0]);
            assert("statement"@.len() == 9 && "entityType"@.len() == 10);
            assert("globalAssetId"@.len() == 13 && "RelationshipElement"@.len() == 19);
            assert("globalAssetId"@.len() == 13 && "AnnotatedRelationshipElement"@.len() == 28);
            assert("globalAssetId"@.len() == 13 && "BasicEventElement"@.len() == 17);
            assert("globalAssetId"@.len() == 13 && "Blob"@.len() == 4);
            assert("globalAssetId"@.len() == 13 && "Capability"@.len() == 10);
            assert("globalAssetId"@.len() == 13 && "File"@.len() == 4);
            assert("globalAssetId"@.len() == 13 && "MultiLanguageProperty"@.len() == 21);
            assert("globalAssetId"@.len() == 13 && "Property"@.len() == 8);
            assert("globalAssetId"@.len() == 13 && "Range"@.len() == 5);
            assert("globalAssetId"@.len() == 13 && "ReferenceElement"@.len() == 16);
            assert("globalAssetId"@.len() == 13 && "DataElement"@.len() == 11);
            assert("globalAssetId"@.len() == 13 && "Entity"@.len() == 6);
            assert("globalAssetId"@.len() == 13 && "Operation"@.len() == 9);
            assert("globalAssetId"@.len() == 13 && "SubmodelElementCollection"@.len() == 25);
            assert("globalAssetId"@.len() == 13 && "SubmodelElementList"@.len() == 19);
            assert("globalAssetId"@.len() == 13 && "modelType"@.len() == 9);
            assert("globalAssetId"@.len() == 13 && "entityType"@.len() == 10);
            assert("globalAssetId"@.len() == 13 && "statement"@.len() == 9);
            assert("specificAssetId"@.len() == 15 && "RelationshipElement"@.len() == 19);
            assert("specificAssetId"@.len() == 15 && "AnnotatedRelationshipElement"@.len() == 28);
            assert("specificAssetId"@.len() == 15 && "BasicEventElement"@.len() == 17);
            assert("specificAssetId"@.len() == 15 && "Blob"@.len() == 4);
            assert("specificAssetId"@.len() == 15 && "Capability"@.len() == 10);
            assert("specificAssetId"@.len() == 15 && "File"@.len() == 4);
            assert("specificAssetId"@.len() == 15 && "MultiLanguageProperty"@.len() == 21);
            assert("specificAssetId"@.len() == 15 && "Property"@.len() == 8);
            assert("specificAssetId"@.len() == 15 && "Range"@.len() == 5);
            assert("specificAssetId"@.len() == 15 && "ReferenceElement"@.len() == 16);
            assert("specificAssetId"@.len() == 15 && "DataElement"@.len() == 11);
            assert("specificAssetId"@.len() == 15 && "Entity"@.len() == 6);
            assert("specificAssetId"@.len() == 15 && "Operation"@.len() == 9);
            assert("specificAssetId"@.len() == 15 && "SubmodelElementCollection"@.len() == 25);
            assert("specificAssetId"@.len() == 15 && "SubmodelElementList"@.len() == 19);
            assert("specificAssetId"@.len() == 15 && "modelType"@.len() == 9);
            assert("specificAssetId"@.len() == 15 && "entityType"@.len() == 10);
            assert("specificAssetId"@.len() == 15 && "statement"@.len() == 9);
            assert("specificAssetId"@.len() == 15 && "globalAssetId"@.len() == 13);
            assert("idShort"@.len() == 7 && "RelationshipElement"@.len() == 19);
            assert("idShort"@.len() == 7 && "AnnotatedRelationshipElement"@.len() == 28);
            assert("idShort"@.len() == 7 && "BasicEventElement"@.len() == 17);
            assert("idShort"@.len() == 7 && "Blob"@.len() == 4);
            assert("idShort"@.len() == 7 && "Capability"@.len() == 10);
            assert("idShort"@.len() == 7 && "File"@.len() == 4);
            assert("idShort"@.len() == 7 && "MultiLanguageProperty"@.len() == 21);
            assert("idShort"@.len() == 7 && "Property"@.len() == 8);
            assert("idShort"@.len() == 7 && "Range"@.len() == 5);
            assert("idShort"@.len() == 7 && "ReferenceElement"@.len() == 16);
            assert("idShort"@.len() == 7 && "DataElement"@.len() == 11);
            assert("idShort"@.len() == 7 && "Entity"@.len() == 6);
            assert("idShort"@.len() == 7 && "Operation"@.len() == 9);
            assert("idShort"@.len() == 7 && "SubmodelElementCollection"@.len() == 25);
            assert("idShort"@.len() == 7 && "SubmodelElementList"@.len() == 19);
            assert("idShort"@.len() == 7 && "modelType"@.len() == 9);
            assert("idShort"@.len() == 7 && "entityType"@.len() == 10);
            assert("idShort"@.len() == 7 && "statement"@.len() == 9);
            assert("idShort"@.len() == 7 && "globalAssetId"@.len() == 13);
            assert("idShort"@.len() == 7 && "specificAssetId"@.len() == 15);
            assert("displayName"@.len() == 11 && "RelationshipElement"@.len() == 19);
            assert("displayName"@.len() == 11 && "AnnotatedRelationshipElement"@.len() == 28);
            assert("displayName"@.len() == 11 && "BasicEventElement"@.len() == 17);
            assert("displayName"@.len() == 11 && "Blob"@.len() == 4);
            assert("displayName"@.len() == 11 && "Capability"@.len() == 10);
            assert("displayName"@.len() == 11 && "File"@.len() == 4);
            assert("displayName"@.len() == 11 && "MultiLanguageProperty"@.len() == 21);
            assert("displayName"@.len() == 11 && "Property"@.len() == 8);
            assert("displayName"@.len() == 11 && "Range"@.len() == 5);
            assert("displayName"@.len() == 11 && "ReferenceElement"@.len() == 16);
            assert("displayName"@[0] != "DataElement"@[0]);
            assert("displayName"@.len() == 11 && "Entity"@.len() == 6);
            assert("displayName"@.len() == 11 && "Operation"@.len() == 9);
            assert("displayName"@.len() == 11 && "SubmodelElementCollection"@.len() == 25);
            assert("displayName"@.len() == 11 && "SubmodelElementList"@.len() == 19);
            assert("displayName"@.len() == 11 && "modelType"@.len() == 9);
            assert("displayName"@.len() == 11 && "entityType"@.len() == 10);
            assert("displayName"@.len() == 11 && "statement"@.len() == 9);
            assert("displayName"@.len() == 11 && "globalAssetId"@.len() == 13);
            assert("displayName"@.len() == 11 && "specificAssetId"@.len() == 15);
            assert("displayName"@.len() == 11 && "idShort"@.len() == 7);
            assert("description"@.len() == 11 && "RelationshipElement"@.len() == 19);
            assert("description"@.len() == 11 && "AnnotatedRelationshipElement"@.len() == 28);
            assert("description"@.len() == 11 && "BasicEventElement"@.len() == 17);
            assert("description"@.len() == 11 && "Blob"@.len() == 4);
            assert("description"@.len() == 11 && "Capability"@.len() == 10);
            assert("description"@.len() == 11 && "File"@.len() == 4);
            assert("description"@.len() == 11 && "MultiLanguageProperty"@.len() == 21);
            assert("description"@.len() == 11 && "Property"@.len() == 8);
            assert("description"@.len() == 11 && "Range"@.len() == 5);
            assert("description"@.len() == 11 && "ReferenceElement"@.len() == 16);
            assert("description"@[0] != "DataElement"@[0]);
            assert("description"@.len() == 11 && "Entity"@.len() == 6);
            assert("description"@.len() == 11 && "Operation"@.len() == 9);
            assert("description"@.len() == 11 && "SubmodelElementCollection"@.len() == 25);
            assert("description"@.len() == 11 && "SubmodelElementList"@.len() == 19);
            assert("description"@.len() == 11 && "modelType"@.len() == 9);
            assert("description"@.len() == 11 && "entityType"@.len() == 10);
            assert("description"@.len() == 11 && "statement"@.len() == 9);
            assert("description"@.len() == 11 && "globalAssetId"@.len() == 13);
            assert("description"@.len() == 11 && "specificAssetId"@.len() == 15);
            assert("description"@.len() == 11 && "idShort"@.len() == 7);
            assert("description"@[1] != "displayName"@[1]);
            assert("category"@.len() == 8 && "RelationshipElement"@.len() == 19);
            assert("category"@.len() == 8 && "AnnotatedRelationshipElement"@.len() == 28);
            assert("category"@.len() == 8 && "BasicEventElement"@.len() == 17);
            assert("category"@.len() == 8 && "Blob"@.len() == 4);
            assert("category"@.len() == 8 && "Capability"@.len() == 10);
            assert("category"@.len() == 8 && "File"@.len() == 4);
            assert("category"@.len() == 8 && "MultiLanguageProperty"@.len() == 21);
            assert("category"@[0] != "Property"@[0]);
            assert("category"@.len() == 8 && "Range"@.len() == 5);
            assert("category"@.len() == 8 && "ReferenceElement"@.len() == 16);
            assert("category"@.len() == 8 && "DataElement"@.len() == 11);
            assert("category"@.len() == 8 && "Entity"@.len() == 6);
            assert("category"@.len() == 8 && "Operation"@.len() == 9);
            assert("category"@.len() == 8 && "SubmodelElementCollection"@.len() == 25);
            assert("category"@.len() == 8 && "SubmodelElementList"@.len() == 19);
            assert("category"@.len() == 8 && "modelType"@.len() == 9);
            assert("category"@.len() == 8 && "entityType"@.len() == 10);
            assert("category"@.len() == 8 && "statement"@.len() == 9);
            assert("category"@.len() == 8 && "globalAssetId"@.len() == 13);
            assert("category"@.len() == 8 && "specificAssetId"@.len() == 15);
            assert("category"@.len() == 8 && "idShort"@.len() == 7);
            assert("category"@.len() == 8 && "displayName"@.len() == 11);
            assert("category"@.len() == 8 && "description"@.len() == 11);
            assert("extensions"@.len() == 10 && "RelationshipElement"@.len() == 19);
            assert("extensions"@.len() == 10 && "AnnotatedRelationshipElement"@.len() == 28);
            assert("extensions"@.len() == 10 && "BasicEventElement"@.len() == 17);
            assert("extensions"@.len() == 10 && "Blob"@.len() == 4);
            assert("extensions"@[0] != "Capability"@[0]);
            assert("extensions"@.len() == 10 && "File"@.len() == 4);
            assert("extensions"@.len() == 10 && "MultiLanguageProperty"@.len() == 21);
            assert("extensions"@.len() == 10 && "Property"@.len() == 8);
            assert("extensions"@.len() == 10 && "Range"@.len() == 5);
            assert("extensions"@.len() == 10 && "ReferenceElement"@.len() == 16);
            assert("extensions"@.len() == 10 && "DataElement"@.len() == 11);
            assert("extensions"@.len() == 10 && "Entity"@.len() == 6);
            assert("extensions"@.len() == 10 && "Operation"@.len() == 9);
            assert("extensions"@.len() == 10 && "SubmodelElementCollection"@.len() == 25);
            assert("extensions"@.len() == 10 && "SubmodelElementList"@.len() == 19);
            assert("extensions"@.len() == 10 && "modelType"@.len() == 9);
            assert("extensions"@[1] != "entityType"@[1]);
            assert("extensions"@.len() == 10 && "statement"@.len() == 9);
            assert("extensions"@.len() == 10 && "globalAssetId"@.len() == 13);
            assert("extensions"@.len() == 10 && "specificAssetId"@.len() == 15);
            assert("extensions"@.len() == 10 && "idShort"@.len() == 7);
            assert("extensions"@.len() == 10 && "displayName"@.len() == 11);
            assert("extensions"@.len() == 10 && "description"@.len() == 11);
            assert("extensions"@.len() == 10 && "category"@.len() == 8);
            assert("semanticId"@.len() == 10 && "RelationshipElement"@.len() == 19);
            assert("semanticId"@.len() == 10 && "AnnotatedRelationshipElement"@.len() == 28);
            assert("semanticId"@.len() == 10 && "BasicEventElement"@.len() == 17);
            assert("semanticId"@.len() == 10 && "Blob"@.len() == 4);
            assert("semanticId"@[0] != "Capability"@[0]);
            assert("semanticId"@.len() == 10 && "File"@.len() == 4);
            assert("semanticId"@.len() == 10 && "MultiLanguageProperty"@.len() == 21);
            assert("semanticId"@.len() == 10 && "Property"@.len() == 8);
            assert("semanticId"@.len() == 10 && "Range"@.len() == 5);
            assert("semanticId"@.len() == 10 && "ReferenceElement"@.len() == 16);
            assert("semanticId"@.len() == 10 && "DataElement"@.len() == 11);
            assert("semanticId"@.len() == 10 && "Entity"@.len() == 6);
            assert("semanticId"@.len() == 10 && "Operation"@.len() == 9);
            assert("semanticId"@.len() == 10 && "SubmodelElementCollection"@.len() == 25);
            assert("semanticId"@.len() == 10 && "SubmodelElementList"@.len() == 19);
            assert("semanticId"@.len() == 10 && "modelType"@.len() == 9);
            assert("semanticId"@[0] != "entityType"@[0]);
            assert("semanticId"@.len() == 10 && "statement"@.len() == 9);
            assert("semanticId"@.len() == 10 && "globalAssetId"@.len() == 13);
            assert("semanticId"@.len() == 10 && "specificAssetId"@.len() == 15);
            assert("semanticId"@.len() == 10 && "idShort"@.len() == 7);
            assert("semanticId"@.len() == 10 && "displayName"@.len() == 11);
            assert("semanticId"@.len() == 10 && "description"@.len() == 11);
            assert("semanticId"@.len() == 10 && "category"@.len() == 8);
            assert("semanticId"@[0] != "extensions"@[0]);
            assert("supplementalSemanticIds"@.len() == 23 && "RelationshipElement"@.len() == 19);
            assert("supplementalSemanticIds"@.len() == 23 && "AnnotatedRelationshipElement"@.len() == 28);
            assert("supplementalSemanticIds"@.len() == 23 && "BasicEventElement"@.len() == 17);
            assert("supplementalSemanticIds"@.len() == 23 && "Blob"@.len() == 4);
            assert("supplementalSemanticIds"@.len() == 23 && "Capability"@.len() == 10);
            assert("supplementalSemanticIds"@.len() == 23 && "File"@.len() == 4);
            assert("supplementalSemanticIds"@.len() == 23 && "MultiLanguageProperty"@.len() == 21);
            assert("supplementalSemanticIds"@.len() == 23 && "Property"@.len() == 8);
            assert("supplementalSemanticIds"@.len() == 23 && "Range"@.len() == 5);
            assert("supplementalSemanticIds"@.len() == 23 && "ReferenceElement"@.len() == 16);
            assert("supplementalSemanticIds"@.len() == 23 && "DataElement"@.len() == 11);
            assert("supplementalSemanticIds"@.len() == 23 && "Entity"@.len() == 6);
            assert("supplementalSemanticIds"@.len() == 23 && "Operation"@.len() == 9);
            assert("supplementalSemanticIds"@.len() == 23 && "SubmodelElementCollection"@.len() == 25);
            assert("supplementalSemanticIds"@.len() == 23 && "SubmodelElementList"@.len() == 19);
            assert("supplementalSemanticIds"@.len() == 23 && "modelType"@.len() == 9);
            assert("supplementalSemanticIds"@.len() == 23 && "entityType"@.len() == 10);
            assert("supplementalSemanticIds"@.len() == 23 && "statement"@.len() == 9);
            assert("supplementalSemanticIds"@.len() == 23 && "globalAssetId"@.len() == 13);
            assert("supplementalSemanticIds"@.len() == 23 && "specificAssetId"@.len() == 15);
            assert("supplementalSemanticIds"@.len() == 23 && "idShort"@.len() == 7);
            assert("supplementalSemanticIds"@.len() == 23 && "displayName"@.len() == 11);
            assert("supplementalSemanticIds"@.len() == 23 && "description"@.len() == 11);
            assert("supplementalSemanticIds"@.len() == 23 && "category"@.len() == 8);
            assert("supplementalSemanticIds"@.len() == 23 && "extensions"@.len() == 10);
            assert("supplementalSemanticIds"@.len() == 23 && "semanticId"@.len() == 10);
            assert("qualifiers"@.len() == 10 && "RelationshipElement"@.len() == 19);
            assert("qualifiers"@.len() == 10 && "AnnotatedRelationshipElement"@.len() == 28);
            assert("qualifiers"@.len() == 10 && "BasicEventElement"@.len() == 17);
            assert("qualifiers"@.len() == 10 && "Blob"@.len() == 4);
            assert("qualifiers"@[0] != "Capability"@[0]);
            assert("qualifiers"@.len() == 10 && "File"@.len() == 4);
            assert("qualifiers"@.len() == 10 && "MultiLanguageProperty"@.len() == 21);
            assert("qualifiers"@.len() == 10 && "Property"@.len() == 8);
            assert("qualifiers"@.len() == 10 && "Range"@.len() == 5);
            assert("qualifiers"@.len() == 10 && "ReferenceElement"@.len() == 16);
            assert("qualifiers"@.len() == 10 && "DataElement"@.len() == 11);
            assert("qualifiers"@.len() == 10 && "Entity"@.len() == 6);
            assert("qualifiers"@.len() == 10 && "Operation"@.len() == 9);
            assert("qualifiers"@.len() == 10 && "SubmodelElementCollection"@.len() == 25);
            assert("qualifiers"@.len() == 10 && "SubmodelElementList"@.len() == 19);
            assert("qualifiers"@.len() == 10 && "modelType"@.len() == 9);
            assert("qualifiers"@[0] != "entityType"@[0]);
            assert("qualifiers"@.len() == 10 && "statement"@.len() == 9);
            assert("qualifiers"@.len() == 10 && "globalAssetId"@.len() == 13);
            assert("qualifiers"@.len() == 10 && "specificAssetId"@.len() == 15);
            assert("qualifiers"@.len() == 10 && "idShort"@.len() == 7);
            assert("qualifiers"@.len() == 10 && "displayName"@.len() == 11);
            assert("qualifiers"@.len() == 10 && "description"@.len() == 11);
            assert("qualifiers"@.len() == 10 && "category"@.len() == 8);
            assert("qualifiers"@[0] != "extensions"@[0]);
            assert("qualifiers"@[0] != "semanticId"@[0]);
            assert("qualifiers"@.len() == 10 && "supplementalSemanticIds"@.len() == 23);
            assert("embeddedDataSpecifications"@.len() == 26 && "RelationshipElement"@.len() == 19);
            assert("embeddedDataSpecifications"@.len() == 26 && "AnnotatedRelationshipElement"@.len() == 28);
            assert("embeddedDataSpecifications"@.len() == 26 && "BasicEventElement"@.len() == 17);
            assert("embeddedDataSpecifications"@.len() == 26 && "Blob"@.len() == 4);
            assert("embeddedDataSpecifications"@.len() == 26 && "Capability"@.len() == 10);
            assert("embeddedDataSpecifications"@.len() == 26 && "File"@.len() == 4);
            assert("embeddedDataSpecifications"@.len() == 26 && "MultiLanguageProperty"@.len() == 21);
            assert("embeddedDataSpecifications"@.len() == 26 && "Property"@.len() == 8);
            assert("embeddedDataSpecifications"@.len() == 26 && "Range"@.len() == 5);
            assert("embeddedDataSpecifications"@.len() == 26 && "ReferenceElement"@.len() == 16);
            assert("embeddedDataSpecifications"@.len() == 26 && "DataElement"@.len() == 11);
            assert("embeddedDataSpecifications"@.len() == 26 && "Entity"@.len() == 6);
            assert("embeddedDataSpecifications"@.len() == 26 && "Operation"@.len() == 9);
            assert("embeddedDataSpecifications"@.len() == 26 && "SubmodelElementCollection"@.len() == 25);
            assert("embeddedDataSpecifications"@.len() == 26 && "SubmodelElementList"@.len() == 19);
            assert("embeddedDataSpecifications"@.len() == 26 && "modelType"@.len() == 9);
            assert("embeddedDataSpecifications"@.len() == 26 && "entityType"@.len() == 10);
            assert("embeddedDataSpecifications"@.len() == 26 && "statement"@.len() == 9);
            assert("embeddedDataSpecifications"@.len() == 26 && "globalAssetId"@.len() == 13);
            assert("embeddedDataSpecifications"@.len() == 26 && "specificAssetId"@.len() == 15);
            assert("embeddedDataSpecifications"@.len() == 26 && "idShort"@.len() == 7);
            assert("embeddedDataSpecifications"@.len() == 26 && "displayName"@.len() == 11);
            assert("embeddedDataSpecifications"@.len() == 26 && "description"@.len() == 11);
            assert("embeddedDataSpecifications"@.len() == 26 && "category"@.len() == 8);
            assert("embeddedDataSpecifications"@.len() == 26 && "extensions"@.len() == 10);
            assert("embeddedDataSpecifications"@.len() == 26 && "semanticId"@.len() == 10);
            assert("embeddedDataSpecifications"@.len() == 26 && "supplementalSemanticIds"@.len() == 23);
            assert("embeddedDataSpecifications"@.len() == 26 && "qualifiers"@.len() == 10);
            assert("inputVariable"@.len() == 13 && "RelationshipElement"@.len() == 19);
            assert("inputVariable"@.len() == 13 && "AnnotatedRelationshipElement"@.len() == 28);
            assert("inputVariable"@.len() == 13 && "BasicEventElement"@.len() == 17);
            assert("inputVariable"@.len() == 13 && "Blob"@.len() == 4);
            assert("inputVariable"@.len() == 13 && "Capability"@.len() == 10);
            assert("inputVariable"@.len() == 13 && "File"@.len() == 4);
            assert("inputVariable"@.len() == 13 && "MultiLanguageProperty"@.len() == 21);
            assert("inputVariable"@.len() == 13 && "Property"@.len() == 8);
            assert("inputVariable"@.len() == 13 && "Range"@.len() == 5);
            assert("inputVariable"@.len() == 13 && "ReferenceElement"@.len() == 16);
            assert("inputVariable"@.len() == 13 && "DataElement"@.len() == 11);
            assert("inputVariable"@.len() == 13 && "Entity"@.len() == 6);
            assert("inputVariable"@.len() == 13 && "Operation"@.len() == 9);
            assert("inputVariable"@.len() == 13 && "SubmodelElementCollection"@.len() == 25);
            assert("inputVariable"@.len() == 13 && "SubmodelElementList"@.len() == 19);
            assert("inputVariable"@.len() == 13 && "modelType"@.len() == 9);
            assert("inputVariable"@.len() == 13 && "entityType"@.len() == 10);
            assert("inputVariable"@.len() == 13 && "statement"@.len() == 9);
            assert("inputVariable"@[0] != "globalAssetId"@[0]);
            assert("inputVariable"@.len() == 13 && "specificAssetId"@.len() == 15);
            assert("inputVariable"@.len() == 13 && "idShort"@.len() == 7);
            assert("inputVariable"@.len() == 13 && "displayName"@.len() == 11);
            assert("inputVariable"@.len() == 13 && "description"@.len() == 11);
            assert("inputVariable"@.len() == 13 && "category"@.len() == 8);
            assert("inputVariable"@.len() == 13 && "extensions"@.len() == 10);
            assert("inputVariable"@.len() == 13 && "semanticId"@.len() == 10);
            assert("inputVariable"@.len() == 13 && "supplementalSemanticIds"@.len() == 23);
            assert("inputVariable"@.len() == 13 && "qualifiers"@.len() == 10);
            assert("inputVariable"@.len() == 13 && "embeddedDataSpecifications"@.len() == 26);
            assert("outputVariable"@.len() == 14 && "RelationshipElement"@.len() == 19);
            assert("outputVariable"@.len() == 14 && "AnnotatedRelationshipElement"@.len() == 28);
            assert("outputVariable"@.len() == 14 && "BasicEventElement"@.len() == 17);
            assert("outputVariable"@.len() == 14 && "Blob"@.len() == 4);
            assert("outputVariable"@.len() == 14 && "Capability"@.len() == 10);
            assert("outputVariable"@.len() == 14 && "File"@.len() == 4);
            assert("outputVariable"@.len() == 14 && "MultiLanguageProperty"@.len() == 21);
            assert("outputVariable"@.len() == 14 && "Property"@.len() == 8);
            assert("outputVariable"@.len() == 14 && "Range"@.len() == 5);
            assert("outputVariable"@.len() == 14 && "ReferenceElement"@.len() == 16);
            assert("outputVariable"@.len() == 14 && "DataElement"@.len() == 11);
            assert("outputVariable"@.len() == 14 && "Entity"@.len() == 6);
            assert("outputVariable"@.len() == 14 && "Operation"@.len() == 9);
            assert("outputVariable"@.len() == 14 && "SubmodelElementCollection"@.len() == 25);
            assert("outputVariable"@.len() == 14 && "SubmodelElementList"@.len() == 19);
            assert("outputVariable"@.len() == 14 && "modelType"@.len() == 9);
            assert("outputVariable"@.len() == 14 && "entityType"@.len() == 10);
            assert("outputVariable"@.len() == 14 && "statement"@.len() == 9);
            assert("outputVariable"@.len() == 14 && "globalAssetId"@.len() == 13);
            assert("outputVariable"@.len() == 14 && "specificAssetId"@.len() == 15);
            assert("outputVariable"@.len() == 14 && "idShort"@.len() == 7);
            assert("outputVariable"@.len() == 14 && "displayName"@.len() == 11);
            assert("outputVariable"@.len() == 14 && "description"@.len() == 11);
            assert("outputVariable"@.len() == 14 && "category"@.len() == 8);
            assert("outputVariable"@.len() == 14 && "extensions"@.len() == 10);
            assert("outputVariable"@.len() == 14 && "semanticId"@.len() == 10);
            assert("outputVariable"@.len() == 14 && "supplementalSemanticIds"@.len() == 23);
            assert("outputVariable"@.len() == 14 && "qualifiers"@.len() == 10);
            assert("outputVariable"@.len() == 14 && "embeddedDataSpecifications"@.len() == 26);
            assert("outputVariable"@.len() == 14 && "inputVariable"@.len() == 13);
            assert("inoutputVariable"@.len() == 16 && "RelationshipElement"@.len() == 19);
            assert("inoutputVariable"@.len() == 16 && "AnnotatedRelationshipElement"@.len() == 28);
            assert("inoutputVariable"@.len() == 16 && "BasicEventElement"@.len() == 17);
            assert("inoutputVariable"@.len() == 16 && "Blob"@.len() == 4);
            assert("inoutputVariable"@.len() == 16 && "Capability"@.len() == 10);
            assert("inoutputVariable"@.len() == 16 && "File"@.len() == 4);
            assert("inoutputVariable"@.len() == 16 && "MultiLanguageProperty"@.len() == 21);
            assert("inoutputVariable"@.len() == 16 && "Property"@.len() == 8);
            assert("inoutputVariable"@.len() == 16 && "Range"@.len() == 5);
            assert("inoutputVariable"@[0] != "ReferenceElement"@[0]);
            assert("inoutputVariable"@.len() == 16 && "DataElement"@.len() == 11);
            assert("inoutputVariable"@.len() == 16 && "Entity"@.len() == 6);
            assert("inoutputVariable"@.len() == 16 && "Operation"@.len() == 9);
            assert("inoutputVariable"@.len() == 16 && "SubmodelElementCollection"@.len() == 25);
            assert("inoutputVariable"@.len() == 16 && "SubmodelElementList"@.len() == 19);
            assert("inoutputVariable"@.len() == 16 && "modelType"@.len() == 9);
            assert("inoutputVariable"@.len() == 16 && "entityType"@.len() == 10);
            assert("inoutputVariable"@.len() == 16 && "statement"@.len() == 9);
            assert("inoutputVariable"@.len() == 16 && "globalAssetId"@.len() == 13);
            assert("inoutputVariable"@.len() == 16 && "specificAssetId"@.len() == 15);
            assert("inoutputVariable"@.len() == 16 && "idShort"@.len() == 7);
            assert("inoutputVariable"@.len() == 16 && "displayName"@.len() == 11);
            assert("inoutputVariable"@.len() == 16 && "description"@.len() == 11);
            assert("inoutputVariable"@.len() == 16 && "category"@.len() == 8);
            assert("inoutputVariable"@.len() == 16 && "extensions"@.len() == 10);
            assert("inoutputVariable"@.len() == 16 && "semanticId"@.len() == 10);
            assert("inoutputVariable"@.len() == 16 && "supplementalSemanticIds"@.len() == 23);
            assert("inoutputVariable"@.len() == 16 && "qualifiers"@.len() == 10);
            assert("inoutputVariable"@.len() == 16 && "embeddedDataSpecifications"@.len() == 26);
            assert("inoutputVariable"@.len() == 16 && "inputVariable"@.len() == 13);
            assert("inoutputVariable"@.len() == 16 && "outputVariable"@.len() == 14);
            assert("orderRelevant"@.len() == 13 && "RelationshipElement"@.len() == 19);
            assert("orderRelevant"@.len() == 13 && "AnnotatedRelationshipElement"@.len() == 28);
            assert("orderRelevant"@.len() == 13 && "BasicEventElement"@.len() == 17);
            assert("orderRelevant"@.len() == 13 && "Blob"@.len() == 4);
            assert("orderRelevant"@.len() == 13 && "Capability"@.len() == 10);
            assert("orderRelevant"@.len() == 13 && "File"@.len() == 4);
            assert("orderRelevant"@.len() == 13 && "MultiLanguageProperty"@.len() == 21);
            assert("orderRelevant"@.len() == 13 && "Property"@.len() == 8);
            assert("orderRelevant"@.len() == 13 && "Range"@.len() == 5);
            assert("orderRelevant"@.len() == 13 && "ReferenceElement"@.len() == 16);
            assert("orderRelevant"@.len() == 13 && "DataElement"@.len() == 11);
            assert("orderRelevant"@.len() == 13 && "Entity"@.len() == 6);
            assert("orderRelevant"@.len() == 13 && "Operation"@.len() == 9);
            assert("orderRelevant"@.len() == 13 && "SubmodelElementCollection"@.len() == 25);
            assert("orderRelevant"@.len() == 13 && "SubmodelElementList"@.len() == 19);
            assert("orderRelevant"@.len() == 13 && "modelType"@.len() == 9);
            assert("orderRelevant"@.len() == 13 && "entityType"@.len() == 10);
            assert("orderRelevant"@.len() == 13 && "statement"@.len() == 9);
            assert("orderRelevant"@[0] != "globalAssetId"@[0]);
            assert("orderRelevant"@.len() == 13 && "specificAssetId"@.len() == 15);
            assert("orderRelevant"@.len() == 13 && "idShort"@.len() == 7);
            assert("orderRelevant"@.len() == 13 && "displayName"@.len() == 11);
            assert("orderRelevant"@.len() == 13 && "description"@.len() == 11);
            assert("orderRelevant"@.len() == 13 && "category"@.len() == 8);
            assert("orderRelevant"@.len() == 13 && "extensions"@.len() == 10);
            assert("orderRelevant"@.len() == 13 && "semanticId"@.len() == 10);
            assert("orderRelevant"@.len() == 13 && "supplementalSemanticIds"@.len() == 23);
            assert("orderRelevant"@.len() == 13 && "qualifiers"@.len() == 10);
            assert("orderRelevant"@.len() == 13 && "embeddedDataSpecifications"@.len() == 26);
            assert("orderRelevant"@[0] != "inputVariable"@[0]);
            assert("orderRelevant"@.len() == 13 && "outputVariable"@.len() == 14);
            assert("orderRelevant"@.len() == 13 && "inoutputVariable"@.len() == 16);
            assert("value"@.len() == 5 && "RelationshipElement"@.len() == 19);
            assert("value"@.len() == 5 && "AnnotatedRelationshipElement"@.len() == 28);
            assert("value"@.len() == 5 && "BasicEventElement"@.len() == 17);
            assert("value"@.len() == 5 && "Blob"@.len() == 4);
            assert("value"@.len() == 5 && "Capability"@.len() == 10);
            assert("value"@.len() == 5 && "File"@.len() == 4);
            assert("value"@.len() == 5 && "MultiLanguageProperty"@.len() == 21);
            assert("value"@.len() == 5 && "Property"@.len() == 8);
            assert("value"@[0] != "Range"@[0]);
            assert("value"@.len() == 5 && "ReferenceElement"@.len() == 16);
            assert("value"@.len() == 5 && "DataElement"@.len() == 11);
            assert("value"@.len() == 5 && "Entity"@.len() == 6);
            assert("value"@.len() == 5 && "Operation"@.len() == 9);
            assert("value"@.len() == 5 && "SubmodelElementCollection"@.len() == 25);
            assert("value"@.len() == 5 && "SubmodelElementList"@.len() == 19);
            assert("value"@.len() == 5 && "modelType"@.len() == 9);
            assert("value"@.len() == 5 && "entityType"@.len() == 10);
            assert("value"@.len() == 5 && "statement"@.len() == 9);
            assert("value"@.len() == 5 && "globalAssetId"@.len() == 13);
            assert("value"@.len() == 5 && "specificAssetId"@.len() == 15);
            assert("value"@.len() == 5 && "idShort"@.len() == 7);
            assert("value"@.len() == 5 && "displayName"@.len() == 11);
            assert("value"@.len() == 5 && "description"@.len() == 11);
            assert("value"@.len() == 5 && "category"@.len() == 8);
            assert("value"@.len() == 5 && "extensions"@.len() == 10);
            assert("value"@.len() == 5 && "semanticId"@.len() == 10);
            assert("value"@.len() == 5 && "supplementalSemanticIds"@.len() == 23);
            assert("value"@.len() == 5 && "qualifiers"@.len() == 10);
            assert("value"@.len() == 5 && "embeddedDataSpecifications"@.len() == 26);
            assert("value"@.len() == 5 && "inputVariable"@.len() == 13);
            assert("value"@.len() == 5 && "outputVariable"@.len() == 14);
            assert("value"@.len() == 5 && "inoutputVariable"@.len() == 16);
            assert("value"@.len() == 5 && "orderRelevant"@.len() == 13);
            assert("semanticIdListElement"@.len() == 21 && "RelationshipElement"@.len() == 19);
            assert("semanticIdListElement"@.len() == 21 && "AnnotatedRelationshipElement"@.len() == 28);
            assert("semanticIdListElement"@.len() == 21 && "BasicEventElement"@.len() == 17);
            assert("semanticIdListElement"@.len() == 21 && "Blob"@.len() == 4);
            assert("semanticIdListElement"@.len() == 21 && "Capability"@.len() == 10);
            assert("semanticIdListElement"@.len() == 21 && "File"@.len() == 4);
            assert("semanticIdListElement"@[0] != "MultiLanguageProperty"@[0]);
            assert("semanticIdListElement"@.len() == 21 && "Property"@.len() == 8);
            assert("semanticIdListElement"@.len() == 21 && "Range"@.len() == 5);
            assert("semanticIdListElement"@.len() == 21 && "ReferenceElement"@.len() == 16);
            assert("semanticIdListElement"@.len() == 21 && "DataElement"@.len() == 11);
            assert("semanticIdListElement"@.len() == 21 && "Entity"@.len() == 6);
            assert("semanticIdListElement"@.len() == 21 && "Operation"@.len() == 9);
            assert("semanticIdListElement"@.len() == 21 && "SubmodelElementCollection"@.len() == 25);
            assert("semanticIdListElement"@.len() == 21 && "SubmodelElementList"@.len() == 19);
            assert("semanticIdListElement"@.len() == 21 && "modelType"@.len() == 9);
            assert("semanticIdListElement"@.len() == 21 && "entityType"@.len() == 10);
            assert("semanticIdListElement"@.len() == 21 && "statement"@.len() == 9);
            assert("semanticIdListElement"@.len() == 21 && "globalAssetId"@.len() == 13);
            assert("semanticIdListElement"@.len() == 21 && "specificAssetId"@.len() == 15);
            assert("semanticIdListElement"@.len() == 21 && "idShort"@.len() == 7);
            assert("semanticIdListElement"@.len() == 21 && "displayName"@.len() == 11);
            assert("semanticIdListElement"@.len() == 21 && "description"@.len() == 11);
            assert("semanticIdListElement"@.len() == 21 && "category"@.len() == 8);
            assert("semanticIdListElement"@.len() == 21 && "extensions"@.len() == 10);
            assert("semanticIdListElement"@.len() == 21 && "semanticId"@.len() == 10);
            assert("semanticIdListElement"@.len() == 21 && "supplementalSemanticIds"@.len() == 23);
            assert("semanticIdListElement"@.len() == 21 && "qualifiers"@.len() == 10);
            assert("semanticIdListElement"@.len() == 21 && "embeddedDataSpecifications"@.len() == 26);
            assert("semanticIdListElement"@.len() == 21 && "inputVariable"@.len() == 13);
            assert("semanticIdListElement"@.len() == 21 && "outputVariable"@.len() == 14);
            assert("semanticIdListElement"@.len() == 21 && "inoutputVariable"@.len() == 16);
            assert("semanticIdListElement"@.len() == 21 && "orderRelevant"@.len() == 13);
            assert("semanticIdListElement"@.len() == 21 && "value"@.len() == 5);
            assert("typeValueListElement"@.len() == 20 && "RelationshipElement"@.len() == 19);
            assert("typeValueListElement"@.len() == 20 && "AnnotatedRelationshipElement"@.len() == 28);
            assert("typeValueListElement"@.len() == 20 && "BasicEventElement"@.len() == 17);
            assert("typeValueListElement"@.len() == 20 && "Blob"@.len() == 4);
            assert("typeValueListElement"@.len() == 20 && "Capability"@.len() == 10);
            assert("typeValueListElement"@.len() == 20 && "File"@.len() == 4);
            assert("typeValueListElement"@.len() == 20 && "MultiLanguageProperty"@.len() == 21);
            assert("typeValueListElement"@.len() == 20 && "Property"@.len() == 8);
            assert("typeValueListElement"@.len() == 20 && "Range"@.len() == 5);
            assert("typeValueListElement"@.len() == 20 && "ReferenceElement"@.len() == 16);
            assert("typeValueListElement"@.len() == 20 && "DataElement"@.len() == 11);
            assert("typeValueListElement"@.len() == 20 && "Entity"@.len() == 6);
            assert("typeValueListElement"@.len() == 20 && "Operation"@.len() == 9);
            assert("typeValueListElement"@.len() == 20 && "SubmodelElementCollection"@.len() == 25);
            assert("typeValueListElement"@.len() == 20 && "SubmodelElementList"@.len() == 19);
            assert("typeValueListElement"@.len() == 20 && "modelType"@.len() == 9);
            assert("typeValueListElement"@.len() == 20 && "entityType"@.len() == 10);
            assert("typeValueListElement"@.len() == 20 && "statement"@.len() == 9);
            assert("typeValueListElement"@.len() == 20 && "globalAssetId"@.len() == 13);
            assert("typeValueListElement"@.len() == 20 && "specificAssetId"@.len() == 15);
            assert("typeValueListElement"@.len() == 20 && "idShort"@.len() == 7);
            assert("typeValueListElement"@.len() == 20 && "displayName"@.len() == 11);
            assert("typeValueListElement"@.len() == 20 && "description"@.len() == 11);
            assert("typeValueListElement"@.len() == 20 && "category"@.len() == 8);
            assert("typeValueListElement"@.len() == 20 && "extensions"@.len() == 10);
            assert("typeValueListElement"@.len() == 20 && "semanticId"@.len() == 10);
            assert("typeValueListElement"@.len() == 20 && "supplementalSemanticIds"@.len() == 23);
            assert("typeValueListElement"@.len() == 20 && "qualifiers"@.len() == 10);
            assert("typeValueListElement"@.len() == 20 && "embeddedDataSpecifications"@.len() == 26);
            assert("typeValueListElement"@.len() == 20 && "inputVariable"@.len() == 13);
            assert("typeValueListElement"@.len() == 20 && "outputVariable"@.len() == 14);
            assert("typeValueListElement"@.len() == 20 && "inoutputVariable"@.len() == 16);
            assert("typeValueListElement"@.len() == 20 && "orderRelevant"@.len() == 13);
            assert("typeValueListElement"@.len() == 20 && "value"@.len() == 5);
            assert("typeValueListElement"@.len() == 20 && "semanticIdListElement"@.len() == 21);
            assert("valueTypeListElement"@.len() == 20 && "RelationshipElement"@.len() == 19);
            assert("valueTypeListElement"@.len() == 20 && "AnnotatedRelationshipElement"@.len() == 28);
            assert("valueTypeListElement"@.len() == 20 && "BasicEventElement"@.len() == 17);
            assert("valueTypeListElement"@.len() == 20 && "Blob"@.len() == 4);
            assert("valueTypeListElement"@.len() == 20 && "Capability"@.len() == 10);
            assert("valueTypeListElement"@.len() == 20 && "File"@.len() == 4);
            assert("valueTypeListElement"@.len() == 20 && "MultiLanguageProperty"@.len() == 21);
            assert("valueTypeListElement"@.len() == 20 && "Property"@.len() == 8);
            assert("valueTypeListElement"@.len() == 20 && "Range"@.len() == 5);
            assert("valueTypeListElement"@.len() == 20 && "ReferenceElement"@.len() == 16);
            assert("valueTypeListElement"@.len() == 20 && "DataElement"@.len() == 11);
            assert("valueTypeListElement"@.len() == 20 && "Entity"@.len() == 6);
            assert("valueTypeListElement"@.len() == 20 && "Operation"@.len() == 9);
            assert("valueTypeListElement"@.len() == 20 && "SubmodelElementCollection"@.len() == 25);
            assert("valueTypeListElement"@.len() == 20 && "SubmodelElementList"@.len() == 19);
            assert("valueTypeListElement"@.len() == 20 && "modelType"@.len() == 9);
            assert("valueTypeListElement"@.len() == 20 && "entityType"@.len() == 10);
            assert("valueTypeListElement"@.len() == 20 && "statement"@.len() == 9);
            assert("valueTypeListElement"@.len() == 20 && "globalAssetId"@.len() == 13);
            assert("valueTypeListElement"@.len() == 20 && "specificAssetId"@.len() == 15);
            assert("valueTypeListElement"@.len() == 20 && "idShort"@.len() == 7);
            assert("valueTypeListElement"@.len() == 20 && "displayName"@.len() == 11);
            assert("valueTypeListElement"@.len() == 20 && "description"@.len() == 11);
            assert("valueTypeListElement"@.len() == 20 && "category"@.len() == 8);
            assert("valueTypeListElement"@.len() == 20 && "extensions"@.len() == 10);
            assert("valueTypeListElement"@.len() == 20 && "semanticId"@.len() == 10);
            assert("valueTypeListElement"@.len() == 20 && "supplementalSemanticIds"@.len() == 23);
            assert("valueTypeListElement"@.len() == 20 && "qualifiers"@.len() == 10);
            assert("valueTypeListElement"@.len() == 20 && "embeddedDataSpecifications"@.len() == 26);
            assert("valueTypeListElement"@.len() == 20 && "inputVariable"@.len() == 13);
            assert("valueTypeListElement"@.len() == 20 && "outputVariable"@.len() == 14);
            assert("valueTypeListElement"@.len() == 20 && "inoutputVariable"@.len() == 16);
            assert("valueTypeListElement"@.len() == 20 && "orderRelevant"@.len() == 13);
            assert("valueTypeListElement"@.len() == 20 && "value"@.len() == 5);
            assert("valueTypeListElement"@.len() == 20 && "semanticIdListElement"@.len() == 21);
            assert("valueTypeListElement"@[0] != "typeValueListElement"@[0]);
            assert("CoManagedEntity"@.len() == 15 && "RelationshipElement"@.len() == 19);
            assert("CoManagedEntity"@.len() == 15 && "AnnotatedRelationshipElement"@.len() == 28);
            assert("CoManagedEntity"@.len() == 15 && "BasicEventElement"@.len() == 17);
            assert("CoManagedEntity"@.len() == 15 && "Blob"@.len() == 4);
            assert("CoManagedEntity"@.len() == 15 && "Capability"@.len() == 10);
            assert("CoManagedEntity"@.len() == 15 && "File"@.len() == 4);
            assert("CoManagedEntity"@.len() == 15 && "MultiLanguageProperty"@.len() == 21);
            assert("CoManagedEntity"@.len() == 15 && "Property"@.len() == 8);
            assert("CoManagedEntity"@.len() == 15 && "Range"@.len() == 5);
            assert("CoManagedEntity"@.len() == 15 && "ReferenceElement"@.len() == 16);
            assert("CoManagedEntity"@.len() == 15 && "DataElement"@.len() == 11);
            assert("CoManagedEntity"@.len() == 15 && "Entity"@.len() == 6);
            assert("CoManagedEntity"@.len() == 15 && "Operation"@.len() == 9);
            assert("CoManagedEntity"@.len() == 15 && "SubmodelElementCollection"@.len() == 25);
            assert("CoManagedEntity"@.len() == 15 && "SubmodelElementList"@.len() == 19);
            assert("CoManagedEntity"@.len() == 15 && "modelType"@.len() == 9);
            assert("CoManagedEntity"@.len() == 15 && "entityType"@.len() == 10);
            assert("CoManagedEntity"@.len() == 15 && "statement"@.len() == 9);
            assert("CoManagedEntity"@.len() == 15 && "globalAssetId"@.len() == 13);
            assert("CoManagedEntity"@[0] != "specificAssetId"@[0]);
            assert("CoManagedEntity"@.len() == 15 && "idShort"@.len() == 7);
            assert("CoManagedEntity"@.len() == 15 && "displayName"@.len() == 11);
            assert("CoManagedEntity"@.len() == 15 && "description"@.len() == 11);
            assert("CoManagedEntity"@.len() == 15 && "category"@.len() == 8);
            assert("CoManagedEntity"@.len() == 15 && "extensions"@.len() == 10);
            assert("CoManagedEntity"@.len() == 15 && "semanticId"@.len() == 10);
            assert("CoManagedEntity"@.len() == 15 && "supplementalSemanticIds"@.len() == 23);
            assert("CoManagedEntity"@.len() == 15 && "qualifiers"@.len() == 10);
            assert("CoManagedEntity"@.len() == 15 && "embeddedDataSpecifications"@.len() == 26);
            assert("CoManagedEntity"@.len() == 15 && "inputVariable"@.len() == 13);
            assert("CoManagedEntity"@.len() == 15 && "outputVariable"@.len() == 14);
            assert("CoManagedEntity"@.len() == 15 && "inoutputVariable"@.len() == 16);
            assert("CoManagedEntity"@.len() == 15 && "orderRelevant"@.len() == 13);
            assert("CoManagedEntity"@.len() == 15 && "value"@.len() == 5);
            assert("CoManagedEntity"@.len() == 15 && "semanticIdListElement"@.len() == 21);
            assert("CoManagedEntity"@.len() == 15 && "typeValueListElement"@.len() == 20);
            assert("CoManagedEntity"@.len() == 15 && "valueTypeListElement"@.len() == 20);
            assert("SelfManagedEntity"@.len() == 17 && "RelationshipElement"@.len() == 19);
            assert("SelfManagedEntity"@.len() == 17 && "AnnotatedRelationshipElement"@.len() == 28);
            assert("SelfManagedEntity"@[0] != "BasicEventElement"@[0]);
            assert("SelfManagedEntity"@.len() == 17 && "Blob"@.len() == 4);
            assert("SelfManagedEntity"@.len() == 17 && "Capability"@.len() == 10);
            assert("SelfManagedEntity"@.len() == 17 && "File"@.len() == 4);
            assert("SelfManagedEntity"@.len() == 17 && "MultiLanguageProperty"@.len() == 21);
            assert("SelfManagedEntity"@.len() == 17 && "Property"@.len() == 8);
            assert("SelfManagedEntity"@.len() == 17 && "Range"@.len() == 5);
            assert("SelfManagedEntity"@.len() == 17 && "ReferenceElement"@.len() == 16);
            assert("SelfManagedEntity"@.len() == 17 && "DataElement"@.len() == 11);
            assert("SelfManagedEntity"@.len() == 17 && "Entity"@.len() == 6);
            assert("SelfManagedEntity"@.len() == 17 && "Operation"@.len() == 9);
            assert("SelfManagedEntity"@.len() == 17 && "SubmodelElementCollection"@.len() == 25);
            assert("SelfManagedEntity"@.len() == 17 && "SubmodelElementList"@.len() == 19);
            assert("SelfManagedEntity"@.len() == 17 && "modelType"@.len() == 9);
            assert("SelfManagedEntity"@.len() == 17 && "entityType"@.len() == 10);
            assert("SelfManagedEntity"@.len() == 17 && "statement"@.len() == 9);
            assert("SelfManagedEntity"@.len() == 17 && "globalAssetId"@.len() == 13);
            assert("SelfManagedEntity"@.len() == 17 && "specificAssetId"@.len() == 15);
            assert("SelfManagedEntity"@.len() == 17 && "idShort"@.len() == 7);
            assert("SelfManagedEntity"@.len() == 17 && "displayName"@.len() == 11);
            assert("SelfManagedEntity"@.len() == 17 && "description"@.len() == 11);
            assert("SelfManagedEntity"@.len() == 17 && "category"@.len() == 8);
            assert("SelfManagedEntity"@.len() == 17 && "extensions"@.len() == 10);
            assert("SelfManagedEntity"@.len() == 17 && "semanticId"@.len() == 10);
            assert("SelfManagedEntity"@.len() == 17 && "supplementalSemanticIds"@.len() == 23);
            assert("SelfManagedEntity"@.len() == 17 && "qualifiers"@.len() == 10);
            assert("SelfManagedEntity"@.len() == 17 && "embeddedDataSpecifications"@.len() == 26);
            assert("SelfManagedEntity"@.len() == 17 && "inputVariable"@.len() == 13);
            assert("SelfManagedEntity"@.len() == 17 && "outputVariable"@.len() == 14);
            assert("SelfManagedEntity"@.len() == 17 && "inoutputVariable"@.len() == 16);
            assert("SelfManagedEntity"@.len() == 17 && "orderRelevant"@.len() == 13);
            assert("SelfManagedEntity"@.len() == 17 && "value"@.len() == 5);
            assert("SelfManagedEntity"@.len() == 17 && "semanticIdListElement"@.len() == 21);
            assert("SelfManagedEntity"@.len() == 17 && "typeValueListElement"@.len() == 20);
            assert("SelfManagedEntity"@.len() == 17 && "valueTypeListElement"@.len() == 20);
            assert("SelfManagedEntity"@.len() == 17 && "CoManagedEntity"@.len() == 15);
        }
                let mut fs: Vec<(String, Json)> = Vec::new();
                let ghost prev = fs@;
                fs.push(field("modelType", Json::Str("SubmodelElementList".to_string())));
                proof {
                    if true {
                        assert(fs@ == prev.push(fs@.last()));
                        lemma_names_within_push(prev, fs@.last(), |n: Seq<char>| list_member_name(n));
                        lemma_lookup_push(prev, fs@.last(), "modelType"@);
                        lemma_lookup_push(prev, fs@.last(), "orderRelevant"@);
                        lemma_lookup_push(prev, fs@.last(), "value"@);
                        lemma_lookup_push(prev, fs@.last(), "semanticIdListElement"@);
                        lemma_lookup_push(prev, fs@.last(), "typeValueListElement"@);
                        lemma_lookup_push(prev, fs@.last(), "valueTypeListElement"@);
                    }
                }
                let ghost prev = fs@;
                fs.push(field("orderRelevant", Json::Bool(l.is_order_relevant)));
                proof {
                    if true {
                        assert(fs@ == prev.push(fs@.last()));
                        lemma_names_within_push(prev, fs@.last(), |n: Seq<char>| list_member_name(n));
                        lemma_lookup_push(prev, fs@.last(), "modelType"@);
                        lemma_lookup_push(prev, fs@.last(), "orderRelevant"@);
                        lemma_lookup_push(prev, fs@.last(), "value"@);
                        lemma_lookup_push(prev, fs@.last(), "semanticIdListElement"@);
                        lemma_lookup_push(prev, fs@.last(), "typeValueListElement"@);
                        lemma_lookup_push(prev, fs@.last(), "valueTypeListElement"@);
                    }
                }
                let ghost prev = fs@;
                match &l.value {
                    Some(v) => {
                        let a = elements_to_json(v);
                        fs.push(field("value", Json::Array(a)));
                    },
                    None => {},
                }
                proof {
                    if l.value is Some {
                        assert(fs@ == prev.push(fs@.last()));
                        lemma_names_within_push(prev, fs@.last(), |n: Seq<char>| list_member_name(n));
                        lemma_lookup_push(prev, fs@.last(), "modelType"@);
                        lemma_lookup_push(prev, fs@.last(), "orderRelevant"@);
                        lemma_lookup_push(prev, fs@.last(), "value"@);
                        lemma_lookup_push(prev, fs@.last(), "semanticIdListElement"@);
                        lemma_lookup_push(prev, fs@.last(), "typeValueListElement"@);
                        lemma_lookup_push(prev, fs@.last(), "valueTypeListElement"@);
                    }
                }
                let ghost prev = fs@;
                push_opt(&mut fs, "semanticIdListElement", &l.semantic_id_list_element);
                proof {
                    if l.semantic_id_list_element is Some {
                        assert(fs@ == prev.push(fs@.last()));
                        lemma_names_within_push(prev, fs@.last(), |n: Seq<char>| list_member_name(n));
                        lemma_lookup_push(prev, fs@.last(), "modelType"@);
                        lemma_lookup_push(prev, fs@.last(), "orderRelevant"@);
                        lemma_lookup_push(prev, fs@.last(), "value"@);
                        lemma_lookup_push(prev, fs@.last(), "semanticIdListElement"@);
                        lemma_lookup_push(prev, fs@.last(), "typeValueListElement"@);
                        lemma_lookup_push(prev, fs@.last(), "valueTypeListElement"@);
                    }
                }
                let ghost prev = fs@;
                let tj = l.type_value_list_element.to_json();
                fs.push(field("typeValueListElement", tj));
                proof {
                    if true {
                        assert(fs@ == prev.push(fs@.last()));
                        lemma_names_within_push(prev, fs@.last(), |n: Seq<char>| list_member_name(n));
                        lemma_lookup_push(prev, fs@.last(), "modelType"@);
                        lemma_lookup_push(prev, fs@.last(), "orderRelevant"@);
                        lemma_lookup_push(prev, fs@.last(), "value"@);
                        lemma_lookup_push(prev, fs@.last(), "semanticIdListElement"@);
                        lemma_lookup_push(prev, fs@.last(), "typeValueListElement"@);
                        lemma_lookup_push(prev, fs@.last(), "valueTypeListElement"@);
                    }
                }
                let ghost prev = fs@;
                push_req(&mut fs, "valueTypeListElement", &l.value_type_list_element);
                proof {
                    if true {
                        assert(fs@ == prev.push(fs@.last()));
                        lemma_names_within_push(prev, fs@.last(), |n: Seq<char>| list_member_name(n));
                        lemma_lookup_push(prev, fs@.last(), "modelType"@);
                        lemma_lookup_push(prev, fs@.last(), "orderRelevant"@);
                        lemma_lookup_push(prev, fs@.last(), "value"@);
                        lemma_lookup_push(prev, fs@.last(), "semanticIdListElement"@);
                        lemma_lookup_push(prev, fs@.last(), "typeValueListElement"@);
                        lemma_lookup_push(prev, fs@.last(), "valueTypeListElement"@);
                    }
                }
        Json::Object(fs)
    }
}

impl SubmodelElement {

    /// Reads a submodel element, dispatching on its `modelType`.
    #[verifier::rlimit(100)]
    #[verifier::spinoff_prover]
    pub fn from_json(j: &Json) -> (r: Result<SubmodelElement, DecodeError>)
        ensures
            match element_error(*j) {
                Some(e) => r == Err::<SubmodelElement, DecodeError>(e),
                None => r matches Ok(x) && element_rel(x, *j),
            },
        decreases j,
    {
        let fs = match j {
            Json::Object(fs) => fs,
            _ => return Err(DecodeError::UnexpectedKind),
        };
        let t = match get_member(fs, "modelType") {
            None => return Err(DecodeError::MissingField),
            Some(Json::Str(t)) => t,
            Some(_) => return Err(DecodeError::UnexpectedKind),
        };
        if str_eq(t.as_str(), "RelationshipElement") {
            return match RelationshipElement::decode(j) {
                Ok(x) => Ok(SubmodelElement::RelationshipElement(x)),
                Err(e) => Err(e),
            };
        }
        if str_eq(t.as_str(), "AnnotatedRelationshipElement") {
            return match AnnotatedRelationshipElement::decode(j) {
                Ok(x) => Ok(SubmodelElement::AnnotatedRelationshipElement(x)),
                Err(e) => Err(e),
            };
        }
        if str_eq(t.as_str(), "BasicEventElement") {
            return match BasicEventElement::decode(j) {
                Ok(x) => Ok(SubmodelElement::BasicEventElement(x)),
                Err(e) => Err(e),
            };
        }
        if str_eq(t.as_str(), "Blob") {
            return match Blob::decode(j) {
                Ok(x) => Ok(SubmodelElement::Blob(x)),
                Err(e) => Err(e),
            };
        }
        if str_eq(t.as_str(), "Capability") {
            return match Capability::decode(j) {
                Ok(x) => Ok(SubmodelElement::Capability(x)),
                Err(e) => Err(e),
            };
        }
        if str_eq(t.as_str(), "File") {
            return match File::decode(j) {
                Ok(x) => Ok(SubmodelElement::File(x)),
                Err(e) => Err(e),
            };
        }
        if str_eq(t.as_str(), "MultiLanguageProperty") {
            return match MultiLanguageProperty::decode(j) {
                Ok(x) => Ok(SubmodelElement::MultiLanguageProperty(x)),
                Err(e) => Err(e),
            };
        }
        if str_eq(t.as_str(), "Property") {
            return match Property::decode(j) {
                Ok(x) => Ok(SubmodelElement::Property(x)),
                Err(e) => Err(e),
            };
        }
        if str_eq(t.as_str(), "Range") {
            return match Range::decode(j) {
                Ok(x) => Ok(SubmodelElement::Range(x)),
                Err(e) => Err(e),
            };
        }
        if str_eq(t.as_str(), "ReferenceElement") {
            return match ReferenceElement::decode(j) {
                Ok(x) => Ok(SubmodelElement::ReferenceElement(x)),
                Err(e) => Err(e),
            };
        }
        if str_eq(t.as_str(), "DataElement") {
            return match DataElement::decode_members(fs) {
                Ok(x) => Ok(SubmodelElement::DataElement(x)),
                Err(e) => Err(e),
            };
        }
        if str_eq(t.as_str(), "Entity") {
            let co = match get_member(fs, "entityType") {
                None => return Err(DecodeError::MissingField),
                Some(Json::Str(k)) => if str_eq(k.as_str(), "CoManagedEntity") {
                    true
                } else if str_eq(k.as_str(), "SelfManagedEntity") {
                    false
                } else {
                    return Err(DecodeError::UnknownDiscriminator);
                },
                Some(_) => return Err(DecodeError::UnexpectedKind),
            };
        let statement = match find_member(fs, "statement") {
            None => None,
            Some(i) => match &fs[i].1 {
                Json::Null => None,
                Json::Array(a) => match elements_from_json(a) {
                    Ok(v) => Some(v),
                    Err(e) => return Err(e),
                },
                _ => return Err(DecodeError::UnexpectedKind),
            },
        };
        let global_asset_id = match decode_opt::<Identifier>(fs, "globalAssetId") {
            Ok(v) => v,
            Err(e) => return Err(e),
        };
        let specific_asset_id = match decode_opt::<Vec<SpecificAssetId>>(fs, "specificAssetId") {
            Ok(v) => v,
            Err(e) => return Err(e),
        };
            let inner = EntityInner { statement, global_asset_id, specific_asset_id };
            return Ok(SubmodelElement::Entity(if co {
                Entity::CoManagedEntity(inner)
            } else {
                Entity::SelfManagedEntity(inner)
            }));
        }
        if str_eq(t.as_str(), "Operation") {
            let sef = match SubmodelElementFields::decode_members(fs) {
                Ok(v) => v,
                Err(e) => return Err(e),
            };
        let input_variable = match find_member(fs, "inputVariable") {
            None => None,
            Some(i) => match &fs[i].1 {
                Json::Null => None,
                sj => match SubmodelElement::from_json(sj) {
                    Ok(x) => Some(Box::new(x)),
                    Err(e) => return Err(e),
                },
            },
        };
        let output_variable = match find_member(fs, "outputVariable") {
            None => None,
            Some(i) => match &fs[i].1 {
                Json::Null => None,
                sj => match SubmodelElement::from_json(sj) {
                    Ok(x) => Some(Box::new(x)),
                    Err(e) => return Err(e),
                },
            },
        };
        let inoutput_variable = match find_member(fs, "inoutputVariable") {
            None => None,
            Some(i) => match &fs[i].1 {
                Json::Null => None,
                sj => match SubmodelElement::from_json(sj) {
                    Ok(x) => Some(Box::new(x)),
                    Err(e) => return Err(e),
                },
            },
        };
            return Ok(SubmodelElement::Operation(Operation {
                referable: sef.referable,
                semantics: sef.semantics,
                qualifiable: sef.qualifiable,
                embedded_data_specifications: sef.embedded_data_specifications,
                input_variable,
                output_variable,
                inoutput_variable,
            }));
        }
        if str_eq(t.as_str(), "SubmodelElementCollection") {
        let value = match find_member(fs, "value") {
            None => None,
            Some(i) => match &fs[i].1 {
                Json::Null => None,
                Json::Array(a) => match elements_from_json(a) {
                    Ok(v) => Some(v),
                    Err(e) => return Err(e),
                },
                _ => return Err(DecodeError::UnexpectedKind),
            },
        };
            return Ok(SubmodelElement::SubmodelElementCollection(SubmodelElementCollection { value }));
        }
        if str_eq(t.as_str(), "SubmodelElementList") {
            let is_order_relevant = match get_member(fs, "orderRelevant") {
                None => ordering_default(),
                Some(Json::Bool(b)) => *b,
                Some(_) => return Err(DecodeError::UnexpectedKind),
            };
        let value = match find_member(fs, "value") {
            None => None,
            Some(i) => match &fs[i].1 {
                Json::Null => None,
                Json::Array(a) => match elements_from_json(a) {
                    Ok(v) => Some(v),
                    Err(e) => return Err(e),
                },
                _ => return Err(DecodeError::UnexpectedKind),
            },
        };
        let semantic_id_list_element = match decode_opt::<Reference>(fs, "semanticIdListElement") {
            Ok(v) => v,
            Err(e) => return Err(e),
        };
        let type_value_list_element = match find_member(fs, "typeValueListElement") {
            None => return Err(DecodeError::MissingField),
            Some(i) => match &fs[i].1 {
                Json::Null => return Err(DecodeError::MissingField),
                sj => match SubmodelElement::from_json(sj) {
                    Ok(x) => Box::new(x),
                    Err(e) => return Err(e),
                },
            },
        };
        let value_type_list_element = match decode_req::<DataTypeXSDef>(fs, "valueTypeListElement") {
            Ok(v) => v,
            Err(e) => return Err(e),
        };
            return Ok(SubmodelElement::SubmodelElementList(SubmodelElementList {
                is_order_relevant,
                value,
                semantic_id_list_element,
                type_value_list_element,
                value_type_list_element,
            }));
        }
        Err(DecodeError::UnknownDiscriminator)
    }
}

/// Writes the elements as JSON trees, in order.
fn elements_to_json(v: &Vec<SubmodelElement>) -> (r: Vec<Json>)
    ensures
        elements_encoded(v@, r@),
    decreases v,
{
    let mut a: Vec<Json> = Vec::new();
    let mut i: usize = 0;
    while i < v.len()
        invariant
            i <= v@.len(),
            a@.len() == i,
            elements_encoded(v@.subrange(0, i as int), a@),
        decreases v@.len() - i,
    {
        let x = v[i].to_json();
        let ghost before = a@;
        a.push(x);
        proof {
            assert(v@.subrange(0, i + 1).subrange(0, i as int) =~= v@.subrange(0, i as int));
            assert(a@.subrange(0, i as int) =~= before);
        }
        i += 1;
    }
    assert(v@.subrange(0, v@.len() as int) =~= v@);
    a
}

/// A decoding error of a prefix of `a` is the error of `a`.
proof fn lemma_elements_error_prefix(a: Seq<Json>, m: int)
    requires
        0 <= m <= a.len(),
        elements_error(a.subrange(0, m)) is Some,
    ensures
        elements_error(a) == elements_error(a.subrange(0, m)),
    decreases a.len(),
{
    if m < a.len() {
        let p = a.subrange(0, a.len() - 1);
        assert(p.subrange(0, m) =~= a.subrange(0, m));
        lemma_elements_error_prefix(p, m);
    } else {
        assert(a.subrange(0, m) =~= a);
    }
}

/// Reads the elements of an array, in order.
fn elements_from_json(a: &Vec<Json>) -> (r: Result<Vec<SubmodelElement>, DecodeError>)
    ensures
        match elements_error(a@) {
            Some(e) => r == Err::<Vec<SubmodelElement>, DecodeError>(e),
            None => r matches Ok(v) && elements_rel(v@, a@),
        },
    decreases a,
{
    let mut v: Vec<SubmodelElement> = Vec::new();
    let mut i: usize = 0;
    while i < a.len()
        invariant
            i <= a@.len(),
            v@.len() == i,
            elements_error(a@.subrange(0, i as int)) is None,
            elements_rel(v@, a@.subrange(0, i as int)),
        decreases a@.len() - i,
    {
        let ghost pre = a@.subrange(0, i as int);
        assert(a@.subrange(0, i + 1).subrange(0, i as int) =~= pre);
        match SubmodelElement::from_json(&a[i]) {
            Ok(x) => {
                let ghost before = v@;
                v.push(x);
                proof {
                    assert(v@.subrange(0, i as int) =~= before);
                }
            },
            Err(e) => {
                proof {
                    lemma_elements_error_prefix(a@, i + 1);
                }
                return Err(e);
            },
        }
        i += 1;
    }
    assert(a@.subrange(0, a@.len() as int) =~= a@);
    Ok(v)
}

/// Elements of the same kind holding alike content; nested elements alike
/// and in the same order.
pub open spec fn element_equiv(a: SubmodelElement, b: SubmodelElement) -> bool
    decreases a,
{
    match a {
        SubmodelElement::RelationshipElement(x) => b matches SubmodelElement::RelationshipElement(y) && x.equiv(&y),
        SubmodelElement::AnnotatedRelationshipElement(x) => b matches SubmodelElement::AnnotatedRelationshipElement(y) && x.equiv(&y),
        SubmodelElement::BasicEventElement(x) => b matches SubmodelElement::BasicEventElement(y) && x.equiv(&y),
        SubmodelElement::Blob(x) => b matches SubmodelElement::Blob(y) && x.equiv(&y),
        SubmodelElement::Capability(x) => b matches SubmodelElement::Capability(y) && x.equiv(&y),
        SubmodelElement::File(x) => b matches SubmodelElement::File(y) && x.equiv(&y),
        SubmodelElement::MultiLanguageProperty(x) => b matches SubmodelElement::MultiLanguageProperty(y) && x.equiv(&y),
        SubmodelElement::Property(x) => b matches SubmodelElement::Property(y) && x.equiv(&y),
        SubmodelElement::Range(x) => b matches SubmodelElement::Range(y) && x.equiv(&y),
        SubmodelElement::ReferenceElement(x) => b matches SubmodelElement::ReferenceElement(y) && x.equiv(&y),
        SubmodelElement::DataElement(x) => b matches SubmodelElement::DataElement(y) && x.equiv(&y),
        SubmodelElement::Entity(en) => match en {
            Entity::CoManagedEntity(i) => b matches SubmodelElement::Entity(Entity::CoManagedEntity(k)) && (match i.statement {
                None => k.statement is None,
                Some(v) => k.statement matches Some(u) && elements_equiv(v@, u@),
            }) && opt_equiv(i.global_asset_id, k.global_asset_id) && opt_equiv(i.specific_asset_id, k.specific_asset_id),
            Entity::SelfManagedEntity(i) => b matches SubmodelElement::Entity(Entity::SelfManagedEntity(k)) && (match i.statement {
                None => k.statement is None,
                Some(v) => k.statement matches Some(u) && elements_equiv(v@, u@),
            }) && opt_equiv(i.global_asset_id, k.global_asset_id) && opt_equiv(i.specific_asset_id, k.specific_asset_id),
        },
        SubmodelElement::Operation(op) => b matches SubmodelElement::Operation(oq) && submodel_element_fields_equiv(SubmodelElementFields { referable: op.referable, semantics: op.semantics, qualifiable: op.qualifiable, embedded_data_specifications: op.embedded_data_specifications }, SubmodelElementFields { referable: oq.referable, semantics: oq.semantics, qualifiable: oq.qualifiable, embedded_data_specifications: oq.embedded_data_specifications })
            && match op.input_variable {
            None => oq.input_variable is None,
            Some(x) => oq.input_variable matches Some(y) && element_equiv(*x, *y),
        }
            && match op.output_variable {
            None => oq.output_variable is None,
            Some(x) => oq.output_variable matches Some(y) && element_equiv(*x, *y),
        }
            && match op.inoutput_variable {
            None => oq.inoutput_variable is None,
            Some(x) => oq.inoutput_variable matches Some(y) && element_equiv(*x, *y),
        }
,
        SubmodelElement::SubmodelElementCollection(c) => b matches SubmodelElement::SubmodelElementCollection(d)
            && match c.value {
            None => d.value is None,
            Some(v) => d.value matches Some(u) && elements_equiv(v@, u@),
        },
        SubmodelElement::SubmodelElementList(l) => b matches SubmodelElement::SubmodelElementList(m)
            && l.is_order_relevant == m.is_order_relevant && (match l.value {
            None => m.value is None,
            Some(v) => m.value matches Some(u) && elements_equiv(v@, u@),
        }) && opt_equiv(l.semantic_id_list_element, m.semantic_id_list_element) && element_equiv(
            *l.type_value_list_element,
            *m.type_value_list_element,
        ) && l.value_type_list_element == m.value_type_list_element,
    }
}

/// Sequences of alike elements, in the same order.
pub open spec fn elements_equiv(v: Seq<SubmodelElement>, w: Seq<SubmodelElement>) -> bool
    decreases v,
{
    if v.len() == 0 {
        w.len() == 0
    } else {
        w.len() == v.len() && elements_equiv(v.subrange(0, v.len() - 1), w.subrange(0, w.len() - 1))
            && element_equiv(v[v.len() - 1], w[w.len() - 1])
    }
}

/// What encoding writes for a well-formed element decodes to it.
#[verifier::rlimit(100)]
#[verifier::spinoff_prover]
pub proof fn lemma_element_round_trip(e: SubmodelElement, j: Json)
    requires
        element_wf(e),
        element_encoded(e, j),
    ensures
        element_error(j) is None,
        element_rel(e, j),
    decreases e,
{
    reveal_strlit("RelationshipElement");
    reveal_strlit("AnnotatedRelationshipElement");
    reveal_strlit("BasicEventElement");
    reveal_strlit("Blob");
    reveal_strlit("Capability");
    reveal_strlit("File");
    reveal_strlit("MultiLanguageProperty");
    reveal_strlit("Property");
    reveal_strlit("Range");
    reveal_strlit("ReferenceElement");
    reveal_strlit("DataElement");
    reveal_strlit("Entity");
    reveal_strlit("Operation");
    reveal_strlit("SubmodelElementCollection");
    reveal_strlit("SubmodelElementList");
    reveal_strlit("modelType");
    reveal_strlit("entityType");
    reveal_strlit("statement");
    reveal_strlit("globalAssetId");
    reveal_strlit("specificAssetId");
    reveal_strlit("idShort");
    reveal_strlit("displayName");
    reveal_strlit("description");
    reveal_strlit("category");
    reveal_strlit("extensions");
    reveal_strlit("semanticId");
    reveal_strlit("supplementalSemanticIds");
    reveal_strlit("qualifiers");
    reveal_strlit("embeddedDataSpecifications");
    reveal_strlit("inputVariable");
    reveal_strlit("outputVariable");
    reveal_strlit("inoutputVariable");
    reveal_strlit("orderRelevant");
    reveal_strlit("value");
    reveal_strlit("semanticIdListElement");
    reveal_strlit("typeValueListElement");
    reveal_strlit("valueTypeListElement");
    reveal_strlit("CoManagedEntity");
    reveal_strlit("SelfManagedEntity");
    assert("AnnotatedRelationshipElement"@.len() == 28 && "RelationshipElement"@.len() == 19);
    assert("BasicEventElement"@.len() == 17 && "RelationshipElement"@.len() == 19);
    assert("BasicEventElement"@.len() == 17 && "AnnotatedRelationshipElement"@.len() == 28);
    assert("Blob"@.len() == 4 && "RelationshipElement"@.len() == 19);
    assert("Blob"@.len() == 4 && "AnnotatedRelationshipElement"@.len() == 28);
    assert("Blob"@.len() == 4 && "BasicEventElement"@.len() == 17);
    assert("Capability"@.len() == 10 && "RelationshipElement"@.len() == 19);
    assert("Capability"@.len() == 10 && "AnnotatedRelationshipElement"@.len() == 28);
    assert("Capability"@.len() == 10 && "BasicEventElement"@.len() == 17);
    assert("Capability"@.len() == 10 && "Blob"@.len() == 4);
    assert("File"@.len() == 4 && "RelationshipElement"@.len() == 19);
    assert("File"@.len() == 4 && "AnnotatedRelationshipElement"@.len() == 28);
    assert("File"@.len() == 4 && "BasicEventElement"@.len() == 17);
    assert("File"@[0] != "Blob"@[0]);
    assert("File"@.len() == 4 && "Capability"@.len() == 10);
    assert("MultiLanguageProperty"@.len() == 21 && "RelationshipElement"@.len() == 19);
    assert("MultiLanguageProperty"@.len() == 21 && "AnnotatedRelationshipElement"@.len() == 28);
    assert("MultiLanguageProperty"@.len() == 21 && "BasicEventElement"@.len() == 17);
    assert("MultiLanguageProperty"@.len() == 21 && "Blob"@.len() == 4);
    assert("MultiLanguageProperty"@.len() == 21 && "Capability"@.len() == 10);
    assert("MultiLanguageProperty"@.len() == 21 && "File"@.len() == 4);
    assert("Property"@.len() == 8 && "RelationshipElement"@.len() == 19);
    assert("Property"@.len() == 8 && "AnnotatedRelationshipElement"@.len() == 28);
    assert("Property"@.len() == 8 && "BasicEventElement"@.len() == 17);
    assert("Property"@.len() == 8 && "Blob"@.len() == 4);
    assert("Property"@.len() == 8 && "Capability"@.len() == 10);
    assert("Property"@.len() == 8 && "File"@.len() == 4);
    assert("Property"@.len() == 8 && "MultiLanguageProperty"@.len() == 21);
    assert("Range"@.len() == 5 && "RelationshipElement"@.len() == 19);
    assert("Range"@.len() == 5 && "AnnotatedRelationshipElement"@.len() == 28);
    assert("Range"@.len() == 5 && "BasicEventElement"@.len() == 17);
    assert("Range"@.len() == 5 && "Blob"@.len() == 4);
    assert("Range"@.len() == 5 && "Capability"@.len() == 10);
    assert("Range"@.len() == 5 && "File"@.len() == 4);
    assert("Range"@.len() == 5 && "MultiLanguageProperty"@.len() == 21);
    assert("Range"@.len() == 5 && "Property"@.len() == 8);
    assert("ReferenceElement"@.len() == 16 && "RelationshipElement"@.len() == 19);
    assert("ReferenceElement"@.len() == 16 && "AnnotatedRelationshipElement"@.len() == 28);
    assert("ReferenceElement"@.len() == 16 && "BasicEventElement"@.len() == 17);
    assert("ReferenceElement"@.len() == 16 && "Blob"@.len() == 4);
    assert("ReferenceElement"@.len() == 16 && "Capability"@.len() == 10);
    assert("ReferenceElement"@.len() == 16 && "File"@.len() == 4);
    assert("ReferenceElement"@.len() == 16 && "MultiLanguageProperty"@.len() == 21);
    assert("ReferenceElement"@.len() == 16 && "Property"@.len() == 8);
    assert("ReferenceElement"@.len() == 16 && "Range"@.len() == 5);
    assert("DataElement"@.len() == 11 && "RelationshipElement"@.len() == 19);
    assert("DataElement"@.len() == 11 && "AnnotatedRelationshipElement"@.len() == 28);
    assert("DataElement"@.len() == 11 && "BasicEventElement"@.len() == 17);
    assert("DataElement"@.len() == 11 && "Blob"@.len() == 4);
    assert("DataElement"@.len() == 11 && "Capability"@.len() == 10);
    assert("DataElement"@.len() == 11 && "File"@.len() == 4);
    assert("DataElement"@.len() == 11 && "MultiLanguageProperty"@.len() == 21);
    assert("DataElement"@.len() == 11 && "Property"@.len() == 8);
    assert("DataElement"@.len() == 11 && "Range"@.len() == 5);
    assert("DataElement"@.len() == 11 && "ReferenceElement"@.len() == 16);
    assert("Entity"@.len() == 6 && "RelationshipElement"@.len() == 19);
    assert("Entity"@.len() == 6 && "AnnotatedRelationshipElement"@.len() == 28);
    assert("Entity"@.len() == 6 && "BasicEventElement"@.len() == 17);
    assert("Entity"@.len() == 6 && "Blob"@.len() == 4);
    assert("Entity"@.len() == 6 && "Capability"@.len() == 10);
    assert("Entity"@.len() == 6 && "File"@.len() == 4);
    assert("Entity"@.len() == 6 && "MultiLanguageProperty"@.len() == 21);
    assert("Entity"@.len() == 6 && "Property"@.len() == 8);
    assert("Entity"@.len() == 6 && "Range"@.len() == 5);
    assert("Entity"@.len() == 6 && "ReferenceElement"@.len() == 16);
    assert("Entity"@.len() == 6 && "DataElement"@.len() == 11);
    assert("Operation"@.len() == 9 && "RelationshipElement"@.len() == 19);
    assert("Operation"@.len() == 9 && "AnnotatedRelationshipElement"@.len() == 28);
    assert("Operation"@.len() == 9 && "BasicEventElement"@.len() == 17);
    assert("Operation"@.len() == 9 && "Blob"@.len() == 4);
    assert("Operation"@.len() == 9 && "Capability"@.len() == 10);
    assert("Operation"@.len() == 9 && "File"@.len() == 4);
    assert("Operation"@.len() == 9 && "MultiLanguageProperty"@.len() == 21);
    assert("Operation"@.len() == 9 && "Property"@.len() == 8);
    assert("Operation"@.len() == 9 && "Range"@.len() == 5);
    assert("Operation"@.len() == 9 && "ReferenceElement"@.len() == 16);
    assert("Operation"@.len() == 9 && "DataElement"@.len() == 11);
    assert("Operation"@.len() == 9 && "Entity"@.len() == 6);
    assert("SubmodelElementCollection"@.len() == 25 && "RelationshipElement"@.len() == 19);
    assert("SubmodelElementCollection"@.len() == 25 && "AnnotatedRelationshipElement"@.len() == 28);
    assert("SubmodelElementCollection"@.len() == 25 && "BasicEventElement"@.len() == 17);
    assert("SubmodelElementCollection"@.len() == 25 && "Blob"@.len() == 4);
    assert("SubmodelElementCollection"@.len() == 25 && "Capability"@.len() == 10);
    assert("SubmodelElementCollection"@.len() == 25 && "File"@.len() == 4);
    assert("SubmodelElementCollection"@.len() == 25 && "MultiLanguageProperty"@.len() == 21);
    assert("SubmodelElementCollection"@.len() == 25 && "Property"@.len() == 8);
    assert("SubmodelElementCollection"@.len() == 25 && "Range"@.len() == 5);
    assert("SubmodelElementCollection"@.len() == 25 && "ReferenceElement"@.len() == 16);
    assert("SubmodelElementCollection"@.len() == 25 && "DataElement"@.len() == 11);
    assert("SubmodelElementCollection"@.len() == 25 && "Entity"@.len() == 6);
    assert("SubmodelElementCollection"@.len() == 25 && "Operation"@.len() == 9);
    assert("SubmodelElementList"@[0] != "RelationshipElement"@[0]);
    assert("SubmodelElementList"@.len() == 19 && "AnnotatedRelationshipElement"@.len() == 28);
    assert("SubmodelElementList"@.len() == 19 && "BasicEventElement"@.len() == 17);
    assert("SubmodelElementList"@.len() == 19 && "Blob"@.len() == 4);
    assert("SubmodelElementList"@.len() == 19 && "Capability"@.len() == 10);
    assert("SubmodelElementList"@.len() == 19 && "File"@.len() == 4);
    assert("SubmodelElementList"@.len() == 19 && "MultiLanguageProperty"@.len() == 21);
    assert("SubmodelElementList"@.len() == 19 && "Property"@.len() == 8);
    assert("SubmodelElementList"@.len() == 19 && "Range"@.len() == 5);
    assert("SubmodelElementList"@.len() == 19 && "ReferenceElement"@.len() == 16);
    assert("SubmodelElementList"@.len() == 19 && "DataElement"@.len() == 11);
    assert("SubmodelElementList"@.len() == 19 && "Entity"@.len() == 6);
    assert("SubmodelElementList"@.len() == 19 && "Operation"@.len() == 9);
    assert("SubmodelElementList"@.len() == 19 && "SubmodelElementCollection"@.len() == 25);
    assert("modelType"@.len() == 9 && "RelationshipElement"@.len() == 19);
    assert("modelType"@.len() == 9 && "AnnotatedRelationshipElement"@.len() == 28);
    assert("modelType"@.len() == 9 && "BasicEventElement"@.len() == 17);
    assert("modelType"@.len() == 9 && "Blob"@.len() == 4);
    assert("modelType"@.len() == 9 && "Capability"@.len() == 10);
    assert("modelType"@.len() == 9 && "File"@.len() == 4);
    assert("modelType"@.len() == 9 && "MultiLanguageProperty"@.len() == 21);
    assert("modelType"@.len() == 9 && "Property"@.len() == 8);
    assert("modelType"@.len() == 9 && "Range"@.len() == 5);
    assert("modelType"@.len() == 9 && "ReferenceElement"@.len() == 16);
    assert("modelType"@.len() == 9 && "DataElement"@.len() == 11);
    assert("modelType"@.len() == 9 && "Entity"@.len() == 6);
    assert("modelType"@[0] != "Operation"@[0]);
    assert("modelType"@.len() == 9 && "SubmodelElementCollection"@.len() == 25);
    assert("modelType"@.len() == 9 && "SubmodelElementList"@.len() == 19);
    assert("entityType"@.len() == 10 && "RelationshipElement"@.len() == 19);
    assert("entityType"@.len() == 10 && "AnnotatedRelationshipElement"@.len() == 28);
    assert("entityType"@.len() == 10 && "BasicEventElement"@.len() == 17);
    assert("entityType"@.len() == 10 && "Blob"@.len() == 4);
    assert("entityType"@[0] != "Capability"@[0]);
    assert("entityType"@.len() == 10 && "File"@.len() == 4);
    assert("entityType"@.len() == 10 && "MultiLanguageProperty"@.len() == 21);
    assert("entityType"@.len() == 10 && "Property"@.len() == 8);
    assert("entityType"@.len() == 10 && "Range"@.len() == 5);
    assert("entityType"@.len() == 10 && "ReferenceElement"@.len() == 16);
    assert("entityType"@.len() == 10 && "DataElement"@.len() == 11);
    assert("entityType"@.len() == 10 && "Entity"@.len() == 6);
    assert("entityType"@.len() == 10 && "Operation"@.len() == 9);
    assert("entityType"@.len() == 10 && "SubmodelElementCollection"@.len() == 25);
    assert("entityType"@.len() == 10 && "SubmodelElementList"@.len() == 19);
    assert("entityType"@.len() == 10 && "modelType"@.len() == 9);
    assert("statement"@.len() == 9 && "RelationshipElement"@.len() == 19);
    assert("statement"@.len() == 9 && "AnnotatedRelationshipElement"@.len() == 28);
    assert("statement"@.len() == 9 && "BasicEventElement"@.len() == 17);
    assert("statement"@.len() == 9 && "Blob"@.len() == 4);
    assert("statement"@.len() == 9 && "Capability"@.len() == 10);
    assert("statement"@.len() == 9 && "File"@.len() == 4);
    assert("statement"@.len() == 9 && "MultiLanguageProperty"@.len() == 21);
    assert("statement"@.len() == 9 && "Property"@.len() == 8);
    assert("statement"@.len() == 9 && "Range"@.len() == 5);
    assert("statement"@.len() == 9 && "ReferenceElement"@.len() == 16);
    assert("statement"@.len() == 9 && "DataElement"@.len() == 11);
    assert("statement"@.len() == 9 && "Entity"@.len() == 6);
    assert("statement"@[0] != "Operation"@[0]);
    assert("statement"@.len() == 9 && "SubmodelElementCollection"@.len() == 25);
    assert("statement"@.len() == 9 && "SubmodelElementList"@.len() == 19);
    assert("statement"@[0] != "modelType"@[0]);
    assert("statement"@.len() == 9 && "entityType"@.len() == 10);
    assert("globalAssetId"@.len() == 13 && "RelationshipElement"@.len() == 19);
    assert("globalAssetId"@.len() == 13 && "AnnotatedRelationshipElement"@.len() == 28);
    assert("globalAssetId"@.len() == 13 && "BasicEventElement"@.len() == 17);
    assert("globalAssetId"@.len() == 13 && "Blob"@.len() == 4);
    assert("globalAssetId"@.len() == 13 && "Capability"@.len() == 10);
    assert("globalAssetId"@.len() == 13 && "File"@.len() == 4);
    assert("globalAssetId"@.len() == 13 && "MultiLanguageProperty"@.len() == 21);
    assert("globalAssetId"@.len() == 13 && "Property"@.len() == 8);
    assert("globalAssetId"@.len() == 13 && "Range"@.len() == 5);
    assert("globalAssetId"@.len() == 13 && "ReferenceElement"@.len() == 16);
    assert("globalAssetId"@.len() == 13 && "DataElement"@.len() == 11);
    assert("globalAssetId"@.len() == 13 && "Entity"@.len() == 6);
    assert("globalAssetId"@.len() == 13 && "Operation"@.len() == 9);
    assert("globalAssetId"@.len() == 13 && "SubmodelElementCollection"@.len() == 25);
    assert("globalAssetId"@.len() == 13 && "SubmodelElementList"@.len() == 19);
    assert("globalAssetId"@.len() == 13 && "modelType"@.len() == 9);
    assert("globalAssetId"@.len() == 13 && "entityType"@.len() == 10);
    assert("globalAssetId"@.len() == 13 && "statement"@.len() == 9);
    assert("specificAssetId"@.len() == 15 && "RelationshipElement"@.len() == 19);
    assert("specificAssetId"@.len() == 15 && "AnnotatedRelationshipElement"@.len() == 28);
    assert("specificAssetId"@.len() == 15 && "BasicEventElement"@.len() == 17);
    assert("specificAssetId"@.len() == 15 && "Blob"@.len() == 4);
    assert("specificAssetId"@.len() == 15 && "Capability"@.len() == 10);
    assert("specificAssetId"@.len() == 15 && "File"@.len() == 4);
    assert("specificAssetId"@.len() == 15 && "MultiLanguageProperty"@.len() == 21);
    assert("specificAssetId"@.len() == 15 && "Property"@.len() == 8);
    assert("specificAssetId"@.len() == 15 && "Range"@.len() == 5);
    assert("specificAssetId"@.len() == 15 && "ReferenceElement"@.len() == 16);
    assert("specificAssetId"@.len() == 15 && "DataElement"@.len() == 11);
    assert("specificAssetId"@.len() == 15 && "Entity"@.len() == 6);
    assert("specificAssetId"@.len() == 15 && "Operation"@.len() == 9);
    assert("specificAssetId"@.len() == 15 && "SubmodelElementCollection"@.len() == 25);
    assert("specificAssetId"@.len() == 15 && "SubmodelElementList"@.len() == 19);
    assert("specificAssetId"@.len() == 15 && "modelType"@.len() == 9);
    assert("specificAssetId"@.len() == 15 && "entityType"@.len() == 10);
    assert("specificAssetId"@.len() == 15 && "statement"@.len() == 9);
    assert("specificAssetId"@.len() == 15 && "globalAssetId"@.len() == 13);
    assert("idShort"@.len() == 7 && "RelationshipElement"@.len() == 19);
    assert("idShort"@.len() == 7 && "AnnotatedRelationshipElement"@.len() == 28);
    assert("idShort"@.len() == 7 && "BasicEventElement"@.len() == 17);
    assert("idShort"@.len() == 7 && "Blob"@.len() == 4);
    assert("idShort"@.len() == 7 && "Capability"@.len() == 10);
    assert("idShort"@.len() == 7 && "File"@.len() == 4);
    assert("idShort"@.len() == 7 && "MultiLanguageProperty"@.len() == 21);
    assert("idShort"@.len() == 7 && "Property"@.len() == 8);
    assert("idShort"@.len() == 7 && "Range"@.len() == 5);
    assert("idShort"@.len() == 7 && "ReferenceElement"@.len() == 16);
    assert("idShort"@.len() == 7 && "DataElement"@.len() == 11);
    assert("idShort"@.len() == 7 && "Entity"@.len() == 6);
    assert("idShort"@.len() == 7 && "Operation"@.len() == 9);
    assert("idShort"@.len() == 7 && "SubmodelElementCollection"@.len() == 25);
    assert("idShort"@.len() == 7 && "SubmodelElementList"@.len() == 19);
    assert("idShort"@.len() == 7 && "modelType"@.len() == 9);
    assert("idShort"@.len() == 7 && "entityType"@.len() == 10);
    assert("idShort"@.len() == 7 && "statement"@.len() == 9);
    assert("idShort"@.len() == 7 && "globalAssetId"@.len() == 13);
    assert("idShort"@.len() == 7 && "specificAssetId"@.len() == 15);
    assert("displayName"@.len() == 11 && "RelationshipElement"@.len() == 19);
    assert("displayName"@.len() == 11 && "AnnotatedRelationshipElement"@.len() == 28);
    assert("displayName"@.len() == 11 && "BasicEventElement"@.len() == 17);
    assert("displayName"@.len() == 11 && "Blob"@.len() == 4);
    assert("displayName"@.len() == 11 && "Capability"@.len() == 10);
    assert("displayName"@.len() == 11 && "File"@.len() == 4);
    assert("displayName"@.len() == 11 && "MultiLanguageProperty"@.len() == 21);
    assert("displayName"@.len() == 11 && "Property"@.len() == 8);
    assert("displayName"@.len() == 11 && "Range"@.len() == 5);
    assert("displayName"@.len() == 11 && "ReferenceElement"@.len() == 16);
    assert("displayName"@[0] != "DataElement"@[0]);
    assert("displayName"@.len() == 11 && "Entity"@.len() == 6);
    assert("displayName"@.len() == 11 && "Operation"@.len() == 9);
    assert("displayName"@.len() == 11 && "SubmodelElementCollection"@.len() == 25);
    assert("displayName"@.len() == 11 && "SubmodelElementList"@.len() == 19);
    assert("displayName"@.len() == 11 && "modelType"@.len() == 9);
    assert("displayName"@.len() == 11 && "entityType"@.len() == 10);
    assert("displayName"@.len() == 11 && "statement"@.len() == 9);
    assert("displayName"@.len() == 11 && "globalAssetId"@.len() == 13);
    assert("displayName"@.len() == 11 && "specificAssetId"@.len() == 15);
    assert("displayName"@.len() == 11 && "idShort"@.len() == 7);
    assert("description"@.len() == 11 && "RelationshipElement"@.len() == 19);
    assert("description"@.len() == 11 && "AnnotatedRelationshipElement"@.len() == 28);
    assert("description"@.len() == 11 && "BasicEventElement"@.len() == 17);
    assert("description"@.len() == 11 && "Blob"@.len() == 4);
    assert("description"@.len() == 11 && "Capability"@.len() == 10);
    assert("description"@.len() == 11 && "File"@.len() == 4);
    assert("description"@.len() == 11 && "MultiLanguageProperty"@.len() == 21);
    assert("description"@.len() == 11 && "Property"@.len() == 8);
    assert("description"@.len() == 11 && "Range"@.len() == 5);
    assert("description"@.len() == 11 && "ReferenceElement"@.len() == 16);
    assert("description"@[0] != "DataElement"@[0]);
    assert("description"@.len() == 11 && "Entity"@.len() == 6);
    assert("description"@.len() == 11 && "Operation"@.len() == 9);
    assert("description"@.len() == 11 && "SubmodelElementCollection"@.len() == 25);
    assert("description"@.len() == 11 && "SubmodelElementList"@.len() == 19);
    assert("description"@.len() == 11 && "modelType"@.len() == 9);
    assert("description"@.len() == 11 && "entityType"@.len() == 10);
    assert("description"@.len() == 11 && "statement"@.len() == 9);
    assert("description"@.len() == 11 && "globalAssetId"@.len() == 13);
    assert("description"@.len() == 11 && "specificAssetId"@.len() == 15);
    assert("description"@.len() == 11 && "idShort"@.len() == 7);
    assert("description"@[1] != "displayName"@[1]);
    assert("category"@.len() == 8 && "RelationshipElement"@.len() == 19);
    assert("category"@.len() == 8 && "AnnotatedRelationshipElement"@.len() == 28);
    assert("category"@.len() == 8 && "BasicEventElement"@.len() == 17);
    assert("category"@.len() == 8 && "Blob"@.len() == 4);
    assert("category"@.len() == 8 && "Capability"@.len() == 10);
    assert("category"@.len() == 8 && "File"@.len() == 4);
    assert("category"@.len() == 8 && "MultiLanguageProperty"@.len() == 21);
    assert("category"@[0] != "Property"@[0]);
    assert("category"@.len() == 8 && "Range"@.len() == 5);
    assert("category"@.len() == 8 && "ReferenceElement"@.len() == 16);
    assert("category"@.len() == 8 && "DataElement"@.len() == 11);
    assert("category"@.len() == 8 && "Entity"@.len() == 6);
    assert("category"@.len() == 8 && "Operation"@.len() == 9);
    assert("category"@.len() == 8 && "SubmodelElementCollection"@.len() == 25);
    assert("category"@.len() == 8 && "SubmodelElementList"@.len() == 19);
    assert("category"@.len() == 8 && "modelType"@.len() == 9);
    assert("category"@.len() == 8 && "entityType"@.len() == 10);
    assert("category"@.len() == 8 && "statement"@.len() == 9);
    assert("category"@.len() == 8 && "globalAssetId"@.len() == 13);
    assert("category"@.len() == 8 && "specificAssetId"@.len() == 15);
    assert("category"@.len() == 8 && "idShort"@.len() == 7);
    assert("category"@.len() == 8 && "displayName"@.len() == 11);
    assert("category"@.len() == 8 && "description"@.len() == 11);
    assert("extensions"@.len() == 10 && "RelationshipElement"@.len() == 19);
    assert("extensions"@.len() == 10 && "AnnotatedRelationshipElement"@.len() == 28);
    assert("extensions"@.len() == 10 && "BasicEventElement"@.len() == 17);
    assert("extensions"@.len() == 10 && "Blob"@.len() == 4);
    assert("extensions"@[0] != "Capability"@[0]);
    assert("extensions"@.len() == 10 && "File"@.len() == 4);
    assert("extensions"@.len() == 10 && "MultiLanguageProperty"@.len() == 21);
    assert("extensions"@.len() == 10 && "Property"@.len() == 8);
    assert("extensions"@.len() == 10 && "Range"@.len() == 5);
    assert("extensions"@.len() == 10 && "ReferenceElement"@.len() == 16);
    assert("extensions"@.len() == 10 && "DataElement"@.len() == 11);
    assert("extensions"@.len() == 10 && "Entity"@.len() == 6);
    assert("extensions"@.len() == 10 && "Operation"@.len() == 9);
    assert("extensions"@.len() == 10 && "SubmodelElementCollection"@.len() == 25);
    assert("extensions"@.len() == 10 && "SubmodelElementList"@.len() == 19);
    assert("extensions"@.len() == 10 && "modelType"@.len() == 9);
    assert("extensions"@[1] != "entityType"@[1]);
    assert("extensions"@.len() == 10 && "statement"@.len() == 9);
    assert("extensions"@.len() == 10 && "globalAssetId"@.len() == 13);
    assert("extensions"@.len() == 10 && "specificAssetId"@.len() == 15);
    assert("extensions"@.len() == 10 && "idShort"@.len() == 7);
    assert("extensions"@.len() == 10 && "displayName"@.len() == 11);
    assert("extensions"@.len() == 10 && "description"@.len() == 11);
    assert("extensions"@.len() == 10 && "category"@.len() == 8);
    assert("semanticId"@.len() == 10 && "RelationshipElement"@.len() == 19);
    assert("semanticId"@.len() == 10 && "AnnotatedRelationshipElement"@.len() == 28);
    assert("semanticId"@.len() == 10 && "BasicEventElement"@.len() == 17);
    assert("semanticId"@.len() == 10 && "Blob"@.len() == 4);
    assert("semanticId"@[0] != "Capability"@[0]);
    assert("semanticId"@.len() == 10 && "File"@.len() == 4);
    assert("semanticId"@.len() == 10 && "MultiLanguageProperty"@.len() == 21);
    assert("semanticId"@.len() == 10 && "Property"@.len() == 8);
    assert("semanticId"@.len() == 10 && "Range"@.len() == 5);
    assert("semanticId"@.len() == 10 && "ReferenceElement"@.len() == 16);
    assert("semanticId"@.len() == 10 && "DataElement"@.len() == 11);
    assert("semanticId"@.len() == 10 && "Entity"@.len() == 6);
    assert("semanticId"@.len() == 10 && "Operation"@.len() == 9);
    assert("semanticId"@.len() == 10 && "SubmodelElementCollection"@.len() == 25);
    assert("semanticId"@.len() == 10 && "SubmodelElementList"@.len() == 19);
    assert("semanticId"@.len() == 10 && "modelType"@.len() == 9);
    assert("semanticId"@[0] != "entityType"@[0]);
    assert("semanticId"@.len() == 10 && "statement"@.len() == 9);
    assert("semanticId"@.len() == 10 && "globalAssetId"@.len() == 13);
    assert("semanticId"@.len() == 10 && "specificAssetId"@.len() == 15);
    assert("semanticId"@.len() == 10 && "idShort"@.len() == 7);
    assert("semanticId"@.len() == 10 && "displayName"@.len() == 11);
    assert("semanticId"@.len() == 10 && "description"@.len() == 11);
    assert("semanticId"@.len() == 10 && "category"@.len() == 8);
    assert("semanticId"@[0] != "extensions"@[0]);
    assert("supplementalSemanticIds"@.len() == 23 && "RelationshipElement"@.len() == 19);
    assert("supplementalSemanticIds"@.len() == 23 && "AnnotatedRelationshipElement"@.len() == 28);
    assert("supplementalSemanticIds"@.len() == 23 && "BasicEventElement"@.len() == 17);
    assert("supplementalSemanticIds"@.len() == 23 && "Blob"@.len() == 4);
    assert("supplementalSemanticIds"@.len() == 23 && "Capability"@.len() == 10);
    assert("supplementalSemanticIds"@.len() == 23 && "File"@.len() == 4);
    assert("supplementalSemanticIds"@.len() == 23 && "MultiLanguageProperty"@.len() == 21);
    assert("supplementalSemanticIds"@.len() == 23 && "Property"@.len() == 8);
    assert("supplementalSemanticIds"@.len() == 23 && "Range"@.len() == 5);
    assert("supplementalSemanticIds"@.len() == 23 && "ReferenceElement"@.len() == 16);
    assert("supplementalSemanticIds"@.len() == 23 && "DataElement"@.len() == 11);
    assert("supplementalSemanticIds"@.len() == 23 && "Entity"@.len() == 6);
    assert("supplementalSemanticIds"@.len() == 23 && "Operation"@.len() == 9);
    assert("supplementalSemanticIds"@.len() == 23 && "SubmodelElementCollection"@.len() == 25);
    assert("supplementalSemanticIds"@.len() == 23 && "SubmodelElementList"@.len() == 19);
    assert("supplementalSemanticIds"@.len() == 23 && "modelType"@.len() == 9);
    assert("supplementalSemanticIds"@.len() == 23 && "entityType"@.len() == 10);
    assert("supplementalSemanticIds"@.len() == 23 && "statement"@.len() == 9);
    assert("supplementalSemanticIds"@.len() == 23 && "globalAssetId"@.len() == 13);
    assert("supplementalSemanticIds"@.len() == 23 && "specificAssetId"@.len() == 15);
    assert("supplementalSemanticIds"@.len() == 23 && "idShort"@.len() == 7);
    assert("supplementalSemanticIds"@.len() == 23 && "displayName"@.len() == 11);
    assert("supplementalSemanticIds"@.len() == 23 && "description"@.len() == 11);
    assert("supplementalSemanticIds"@.len() == 23 && "category"@.len() == 8);
    assert("supplementalSemanticIds"@.len() == 23 && "extensions"@.len() == 10);
    assert("supplementalSemanticIds"@.len() == 23 && "semanticId"@.len() == 10);
    assert("qualifiers"@.len() == 10 && "RelationshipElement"@.len() == 19);
    assert("qualifiers"@.len() == 10 && "AnnotatedRelationshipElement"@.len() == 28);
    assert("qualifiers"@.len() == 10 && "BasicEventElement"@.len() == 17);
    assert("qualifiers"@.len() == 10 && "Blob"@.len() == 4);
    assert("qualifiers"@[0] != "Capability"@[0]);
    assert("qualifiers"@.len() == 10 && "File"@.len() == 4);
    assert("qualifiers"@.len() == 10 && "MultiLanguageProperty"@.len() == 21);
    assert("qualifiers"@.len() == 10 && "Property"@.len() == 8);
    assert("qualifiers"@.len() == 10 && "Range"@.len() == 5);
    assert("qualifiers"@.len() == 10 && "ReferenceElement"@.len() == 16);
    assert("qualifiers"@.len() == 10 && "DataElement"@.len() == 11);
    assert("qualifiers"@.len() == 10 && "Entity"@.len() == 6);
    assert("qualifiers"@.len() == 10 && "Operation"@.len() == 9);
    assert("qualifiers"@.len() == 10 && "SubmodelElementCollection"@.len() == 25);
    assert("qualifiers"@.len() == 10 && "SubmodelElementList"@.len() == 19);
    assert("qualifiers"@.len() == 10 && "modelType"@.len() == 9);
    assert("qualifiers"@[0] != "entityType"@[0]);
    assert("qualifiers"@.len() == 10 && "statement"@.len() == 9);
    assert("qualifiers"@.len() == 10 && "globalAssetId"@.len() == 13);
    assert("qualifiers"@.len() == 10 && "specificAssetId"@.len() == 15);
    assert("qualifiers"@.len() == 10 && "idShort"@.len() == 7);
    assert("qualifiers"@.len() == 10 && "displayName"@.len() == 11);
    assert("qualifiers"@.len() == 10 && "description"@.len() == 11);
    assert("qualifiers"@.len() == 10 && "category"@.len() == 8);
    assert("qualifiers"@[0] != "extensions"@[0]);
    assert("qualifiers"@[0] != "semanticId"@[0]);
    assert("qualifiers"@.len() == 10 && "supplementalSemanticIds"@.len() == 23);
    assert("embeddedDataSpecifications"@.len() == 26 && "RelationshipElement"@.len() == 19);
    assert("embeddedDataSpecifications"@.len() == 26 && "AnnotatedRelationshipElement"@.len() == 28);
    assert("embeddedDataSpecifications"@.len() == 26 && "BasicEventElement"@.len() == 17);
    assert("embeddedDataSpecifications"@.len() == 26 && "Blob"@.len() == 4);
    assert("embeddedDataSpecifications"@.len() == 26 && "Capability"@.len() == 10);
    assert("embeddedDataSpecifications"@.len() == 26 && "File"@.len() == 4);
    assert("embeddedDataSpecifications"@.len() == 26 && "MultiLanguageProperty"@.len() == 21);
    assert("embeddedDataSpecifications"@.len() == 26 && "Property"@.len() == 8);
    assert("embeddedDataSpecifications"@.len() == 26 && "Range"@.len() == 5);
    assert("embeddedDataSpecifications"@.len() == 26 && "ReferenceElement"@.len() == 16);
    assert("embeddedDataSpecifications"@.len() == 26 && "DataElement"@.len() == 11);
    assert("embeddedDataSpecifications"@.len() == 26 && "Entity"@.len() == 6);
    assert("embeddedDataSpecifications"@.len() == 26 && "Operation"@.len() == 9);
    assert("embeddedDataSpecifications"@.len() == 26 && "SubmodelElementCollection"@.len() == 25);
    assert("embeddedDataSpecifications"@.len() == 26 && "SubmodelElementList"@.len() == 19);
    assert("embeddedDataSpecifications"@.len() == 26 && "modelType"@.len() == 9);
    assert("embeddedDataSpecifications"@.len() == 26 && "entityType"@.len() == 10);
    assert("embeddedDataSpecifications"@.len() == 26 && "statement"@.len() == 9);
    assert("embeddedDataSpecifications"@.len() == 26 && "globalAssetId"@.len() == 13);
    assert("embeddedDataSpecifications"@.len() == 26 && "specificAssetId"@.len() == 15);
    assert("embeddedDataSpecifications"@.len() == 26 && "idShort"@.len() == 7);
    assert("embeddedDataSpecifications"@.len() == 26 && "displayName"@.len() == 11);
    assert("embeddedDataSpecifications"@.len() == 26 && "description"@.len() == 11);
    assert("embeddedDataSpecifications"@.len() == 26 && "category"@.len() == 8);
    assert("embeddedDataSpecifications"@.len() == 26 && "extensions"@.len() == 10);
    assert("embeddedDataSpecifications"@.len() == 26 && "semanticId"@.len() == 10);
    assert("embeddedDataSpecifications"@.len() == 26 && "supplementalSemanticIds"@.len() == 23);
    assert("embeddedDataSpecifications"@.len() == 26 && "qualifiers"@.len() == 10);
    assert("inputVariable"@.len() == 13 && "RelationshipElement"@.len() == 19);
    assert("inputVariable"@.len() == 13 && "AnnotatedRelationshipElement"@.len() == 28);
    assert("inputVariable"@.len() == 13 && "BasicEventElement"@.len() == 17);
    assert("inputVariable"@.len() == 13 && "Blob"@.len() == 4);
    assert("inputVariable"@.len() == 13 && "Capability"@.len() == 10);
    assert("inputVariable"@.len() == 13 && "File"@.len() == 4);
    assert("inputVariable"@.len() == 13 && "MultiLanguageProperty"@.len() == 21);
    assert("inputVariable"@.len() == 13 && "Property"@.len() == 8);
    assert("inputVariable"@.len() == 13 && "Range"@.len() == 5);
    assert("inputVariable"@.len() == 13 && "ReferenceElement"@.len() == 16);
    assert("inputVariable"@.len() == 13 && "DataElement"@.len() == 11);
    assert("inputVariable"@.len() == 13 && "Entity"@.len() == 6);
    assert("inputVariable"@.len() == 13 && "Operation"@.len() == 9);
    assert("inputVariable"@.len() == 13 && "SubmodelElementCollection"@.len() == 25);
    assert("inputVariable"@.len() == 13 && "SubmodelElementList"@.len() == 19);
    assert("inputVariable"@.len() == 13 && "modelType"@.len() == 9);
    assert("inputVariable"@.len() == 13 && "entityType"@.len() == 10);
    assert("inputVariable"@.len() == 13 && "statement"@.len() == 9);
    assert("inputVariable"@[0] != "globalAssetId"@[0]);
    assert("inputVariable"@.len() == 13 && "specificAssetId"@.len() == 15);
    assert("inputVariable"@.len() == 13 && "idShort"@.len() == 7);
    assert("inputVariable"@.len() == 13 && "displayName"@.len() == 11);
    assert("inputVariable"@.len() == 13 && "description"@.len() == 11);
    assert("inputVariable"@.len() == 13 && "category"@.len() == 8);
    assert("inputVariable"@.len() == 13 && "extensions"@.len() == 10);
    assert("inputVariable"@.len() == 13 && "semanticId"@.len() == 10);
    assert("inputVariable"@.len() == 13 && "supplementalSemanticIds"@.len() == 23);
    assert("inputVariable"@.len() == 13 && "qualifiers"@.len() == 10);
    assert("inputVariable"@.len() == 13 && "embeddedDataSpecifications"@.len() == 26);
    assert("outputVariable"@.len() == 14 && "RelationshipElement"@.len() == 19);
    assert("outputVariable"@.len() == 14 && "AnnotatedRelationshipElement"@.len() == 28);
    assert("outputVariable"@.len() == 14 && "BasicEventElement"@.len() == 17);
    assert("outputVariable"@.len() == 14 && "Blob"@.len() == 4);
    assert("outputVariable"@.len() == 14 && "Capability"@.len() == 10);
    assert("outputVariable"@.len() == 14 && "File"@.len() == 4);
    assert("outputVariable"@.len() == 14 && "MultiLanguageProperty"@.len() == 21);
    assert("outputVariable"@.len() == 14 && "Property"@.len() == 8);
    assert("outputVariable"@.len() == 14 && "Range"@.len() == 5);
    assert("outputVariable"@.len() == 14 && "ReferenceElement"@.len() == 16);
    assert("outputVariable"@.len() == 14 && "DataElement"@.len() == 11);
    assert("outputVariable"@.len() == 14 && "Entity"@.len() == 6);
    assert("outputVariable"@.len() == 14 && "Operation"@.len() == 9);
    assert("outputVariable"@.len() == 14 && "SubmodelElementCollection"@.len() == 25);
    assert("outputVariable"@.len() == 14 && "SubmodelElementList"@.len() == 19);
    assert("outputVariable"@.len() == 14 && "modelType"@.len() == 9);
    assert("outputVariable"@.len() == 14 && "entityType"@.len() == 10);
    assert("outputVariable"@.len() == 14 && "statement"@.len() == 9);
    assert("outputVariable"@.len() == 14 && "globalAssetId"@.len() == 13);
    assert("outputVariable"@.len() == 14 && "specificAssetId"@.len() == 15);
    assert("outputVariable"@.len() == 14 && "idShort"@.len() == 7);
    assert("outputVariable"@.len() == 14 && "displayName"@.len() == 11);
    assert("outputVariable"@.len() == 14 && "description"@.len() == 11);
    assert("outputVariable"@.len() == 14 && "category"@.len() == 8);
    assert("outputVariable"@.len() == 14 && "extensions"@.len() == 10);
    assert("outputVariable"@.len() == 14 && "semanticId"@.len() == 10);
    assert("outputVariable"@.len() == 14 && "supplementalSemanticIds"@.len() == 23);
    assert("outputVariable"@.len() == 14 && "qualifiers"@.len() == 10);
    assert("outputVariable"@.len() == 14 && "embeddedDataSpecifications"@.len() == 26);
    assert("outputVariable"@.len() == 14 && "inputVariable"@.len() == 13);
    assert("inoutputVariable"@.len() == 16 && "RelationshipElement"@.len() == 19);
    assert("inoutputVariable"@.len() == 16 && "AnnotatedRelationshipElement"@.len() == 28);
    assert("inoutputVariable"@.len() == 16 && "BasicEventElement"@.len() == 17);
    assert("inoutputVariable"@.len() == 16 && "Blob"@.len() == 4);
    assert("inoutputVariable"@.len() == 16 && "Capability"@.len() == 10);
    assert("inoutputVariable"@.len() == 16 && "File"@.len() == 4);
    assert("inoutputVariable"@.len() == 16 && "MultiLanguageProperty"@.len() == 21);
    assert("inoutputVariable"@.len() == 16 && "Property"@.len() == 8);
    assert("inoutputVariable"@.len() == 16 && "Range"@.len() == 5);
    assert("inoutputVariable"@[0] != "ReferenceElement"@[0]);
    assert("inoutputVariable"@.len() == 16 && "DataElement"@.len() == 11);
    assert("inoutputVariable"@.len() == 16 && "Entity"@.len() == 6);
    assert("inoutputVariable"@.len() == 16 && "Operation"@.len() == 9);
    assert("inoutputVariable"@.len() == 16 && "SubmodelElementCollection"@.len() == 25);
    assert("inoutputVariable"@.len() == 16 && "SubmodelElementList"@.len() == 19);
    assert("inoutputVariable"@.len() == 16 && "modelType"@.len() == 9);
    assert("inoutputVariable"@.len() == 16 && "entityType"@.len() == 10);
    assert("inoutputVariable"@.len() == 16 && "statement"@.len() == 9);
    assert("inoutputVariable"@.len() == 16 && "globalAssetId"@.len() == 13);
    assert("inoutputVariable"@.len() == 16 && "specificAssetId"@.len() == 15);
    assert("inoutputVariable"@.len() == 16 && "idShort"@.len() == 7);
    assert("inoutputVariable"@.len() == 16 && "displayName"@.len() == 11);
    assert("inoutputVariable"@.len() == 16 && "description"@.len() == 11);
    assert("inoutputVariable"@.len() == 16 && "category"@.len() == 8);
    assert("inoutputVariable"@.len() == 16 && "extensions"@.len() == 10);
    assert("inoutputVariable"@.len() == 16 && "semanticId"@.len() == 10);
    assert("inoutputVariable"@.len() == 16 && "supplementalSemanticIds"@.len() == 23);
    assert("inoutputVariable"@.len() == 16 && "qualifiers"@.len() == 10);
    assert("inoutputVariable"@.len() == 16 && "embeddedDataSpecifications"@.len() == 26);
    assert("inoutputVariable"@.len() == 16 && "inputVariable"@.len() == 13);
    assert("inoutputVariable"@.len() == 16 && "outputVariable"@.len() == 14);
    assert("orderRelevant"@.len() == 13 && "RelationshipElement"@.len() == 19);
    assert("orderRelevant"@.len() == 13 && "AnnotatedRelationshipElement"@.len() == 28);
    assert("orderRelevant"@.len() == 13 && "BasicEventElement"@.len() == 17);
    assert("orderRelevant"@.len() == 13 && "Blob"@.len() == 4);
    assert("orderRelevant"@.len() == 13 && "Capability"@.len() == 10);
    assert("orderRelevant"@.len() == 13 && "File"@.len() == 4);
    assert("orderRelevant"@.len() == 13 && "MultiLanguageProperty"@.len() == 21);
    assert("orderRelevant"@.len() == 13 && "Property"@.len() == 8);
    assert("orderRelevant"@.len() == 13 && "Range"@.len() == 5);
    assert("orderRelevant"@.len() == 13 && "ReferenceElement"@.len() == 16);
    assert("orderRelevant"@.len() == 13 && "DataElement"@.len() == 11);
    assert("orderRelevant"@.len() == 13 && "Entity"@.len() == 6);
    assert("orderRelevant"@.len() == 13 && "Operation"@.len() == 9);
    assert("orderRelevant"@.len() == 13 && "SubmodelElementCollection"@.len() == 25);
    assert("orderRelevant"@.len() == 13 && "SubmodelElementList"@.len() == 19);
    assert("orderRelevant"@.len() == 13 && "modelType"@.len() == 9);
    assert("orderRelevant"@.len() == 13 && "entityType"@.len() == 10);
    assert("orderRelevant"@.len() == 13 && "statement"@.len() == 9);
    assert("orderRelevant"@[0] != "globalAssetId"@[0]);
    assert("orderRelevant"@.len() == 13 && "specificAssetId"@.len() == 15);
    assert("orderRelevant"@.len() == 13 && "idShort"@.len() == 7);
    assert("orderRelevant"@.len() == 13 && "displayName"@.len() == 11);
    assert("orderRelevant"@.len() == 13 && "description"@.len() == 11);
    assert("orderRelevant"@.len() == 13 && "category"@.len() == 8);
    assert("orderRelevant"@.len() == 13 && "extensions"@.len() == 10);
    assert("orderRelevant"@.len() == 13 && "semanticId"@.len() == 10);
    assert("orderRelevant"@.len() == 13 && "supplementalSemanticIds"@.len() == 23);
    assert("orderRelevant"@.len() == 13 && "qualifiers"@.len() == 10);
    assert("orderRelevant"@.len() == 13 && "embeddedDataSpecifications"@.len() == 26);
    assert("orderRelevant"@[0] != "inputVariable"@[0]);
    assert("orderRelevant"@.len() == 13 && "outputVariable"@.len() == 14);
    assert("orderRelevant"@.len() == 13 && "inoutputVariable"@.len() == 16);
    assert("value"@.len() == 5 && "RelationshipElement"@.len() == 19);
    assert("value"@.len() == 5 && "AnnotatedRelationshipElement"@.len() == 28);
    assert("value"@.len() == 5 && "BasicEventElement"@.len() == 17);
    assert("value"@.len() == 5 && "Blob"@.len() == 4);
    assert("value"@.len() == 5 && "Capability"@.len() == 10);
    assert("value"@.len() == 5 && "File"@.len() == 4);
    assert("value"@.len() == 5 && "MultiLanguageProperty"@.len() == 21);
    assert("value"@.len() == 5 && "Property"@.len() == 8);
    assert("value"@[0] != "Range"@[0]);
    assert("value"@.len() == 5 && "ReferenceElement"@.len() == 16);
    assert("value"@.len() == 5 && "DataElement"@.len() == 11);
    assert("value"@.len() == 5 && "Entity"@.len() == 6);
    assert("value"@.len() == 5 && "Operation"@.len() == 9);
    assert("value"@.len() == 5 && "SubmodelElementCollection"@.len() == 25);
    assert("value"@.len() == 5 && "SubmodelElementList"@.len() == 19);
    assert("value"@.len() == 5 && "modelType"@.len() == 9);
    assert("value"@.len() == 5 && "entityType"@.len() == 10);
    assert("value"@.len() == 5 && "statement"@.len() == 9);
    assert("value"@.len() == 5 && "globalAssetId"@.len() == 13);
    assert("value"@.len() == 5 && "specificAssetId"@.len() == 15);
    assert("value"@.len() == 5 && "idShort"@.len() == 7);
    assert("value"@.len() == 5 && "displayName"@.len() == 11);
    assert("value"@.len() == 5 && "description"@.len() == 11);
    assert("value"@.len() == 5 && "category"@.len() == 8);
    assert("value"@.len() == 5 && "extensions"@.len() == 10);
    assert("value"@.len() == 5 && "semanticId"@.len() == 10);
    assert("value"@.len() == 5 && "supplementalSemanticIds"@.len() == 23);
    assert("value"@.len() == 5 && "qualifiers"@.len() == 10);
    assert("value"@.len() == 5 && "embeddedDataSpecifications"@.len() == 26);
    assert("value"@.len() == 5 && "inputVariable"@.len() == 13);
    assert("value"@.len() == 5 && "outputVariable"@.len() == 14);
    assert("value"@.len() == 5 && "inoutputVariable"@.len() == 16);
    assert("value"@.len() == 5 && "orderRelevant"@.len() == 13);
    assert("semanticIdListElement"@.len() == 21 && "RelationshipElement"@.len() == 19);
    assert("semanticIdListElement"@.len() == 21 && "AnnotatedRelationshipElement"@.len() == 28);
    assert("semanticIdListElement"@.len() == 21 && "BasicEventElement"@.len() == 17);
    assert("semanticIdListElement"@.len() == 21 && "Blob"@.len() == 4);
    assert("semanticIdListElement"@.len() == 21 && "Capability"@.len() == 10);
    assert("semanticIdListElement"@.len() == 21 && "File"@.len() == 4);
    assert("semanticIdListElement"@[0] != "MultiLanguageProperty"@[0]);
    assert("semanticIdListElement"@.len() == 21 && "Property"@.len() == 8);
    assert("semanticIdListElement"@.len() == 21 && "Range"@.len() == 5);
    assert("semanticIdListElement"@.len() == 21 && "ReferenceElement"@.len() == 16);
    assert("semanticIdListElement"@.len() == 21 && "DataElement"@.len() == 11);
    assert("semanticIdListElement"@.len() == 21 && "Entity"@.len() == 6);
    assert("semanticIdListElement"@.len() == 21 && "Operation"@.len() == 9);
    assert("semanticIdListElement"@.len() == 21 && "SubmodelElementCollection"@.len() == 25);
    assert("semanticIdListElement"@.len() == 21 && "SubmodelElementList"@.len() == 19);
    assert("semanticIdListElement"@.len() == 21 && "modelType"@.len() == 9);
    assert("semanticIdListElement"@.len() == 21 && "entityType"@.len() == 10);
    assert("semanticIdListElement"@.len() == 21 && "statement"@.len() == 9);
    assert("semanticIdListElement"@.len() == 21 && "globalAssetId"@.len() == 13);
    assert("semanticIdListElement"@.len() == 21 && "specificAssetId"@.len() == 15);
    assert("semanticIdListElement"@.len() == 21 && "idShort"@.len() == 7);
    assert("semanticIdListElement"@.len() == 21 && "displayName"@.len() == 11);
    assert("semanticIdListElement"@.len() == 21 && "description"@.len() == 11);
    assert("semanticIdListElement"@.len() == 21 && "category"@.len() == 8);
    assert("semanticIdListElement"@.len() == 21 && "extensions"@.len() == 10);
    assert("semanticIdListElement"@.len() == 21 && "semanticId"@.len() == 10);
    assert("semanticIdListElement"@.len() == 21 && "supplementalSemanticIds"@.len() == 23);
    assert("semanticIdListElement"@.len() == 21 && "qualifiers"@.len() == 10);
    assert("semanticIdListElement"@.len() == 21 && "embeddedDataSpecifications"@.len() == 26);
    assert("semanticIdListElement"@.len() == 21 && "inputVariable"@.len() == 13);
    assert("semanticIdListElement"@.len() == 21 && "outputVariable"@.len() == 14);
    assert("semanticIdListElement"@.len() == 21 && "inoutputVariable"@.len() == 16);
    assert("semanticIdListElement"@.len() == 21 && "orderRelevant"@.len() == 13);
    assert("semanticIdListElement"@.len() == 21 && "value"@.len() == 5);
    assert("typeValueListElement"@.len() == 20 && "RelationshipElement"@.len() == 19);
    assert("typeValueListElement"@.len() == 20 && "AnnotatedRelationshipElement"@.len() == 28);
    assert("typeValueListElement"@.len() == 20 && "BasicEventElement"@.len() == 17);
    assert("typeValueListElement"@.len() == 20 && "Blob"@.len() == 4);
    assert("typeValueListElement"@.len() == 20 && "Capability"@.len() == 10);
    assert("typeValueListElement"@.len() == 20 && "File"@.len() == 4);
    assert("typeValueListElement"@.len() == 20 && "MultiLanguageProperty"@.len() == 21);
    assert("typeValueListElement"@.len() == 20 && "Property"@.len() == 8);
    assert("typeValueListElement"@.len() == 20 && "Range"@.len() == 5);
    assert("typeValueListElement"@.len() == 20 && "ReferenceElement"@.len() == 16);
    assert("typeValueListElement"@.len() == 20 && "DataElement"@.len() == 11);
    assert("typeValueListElement"@.len() == 20 && "Entity"@.len() == 6);
    assert("typeValueListElement"@.len() == 20 && "Operation"@.len() == 9);
    assert("typeValueListElement"@.len() == 20 && "SubmodelElementCollection"@.len() == 25);
    assert("typeValueListElement"@.len() == 20 && "SubmodelElementList"@.len() == 19);
    assert("typeValueListElement"@.len() == 20 && "modelType"@.len() == 9);
    assert("typeValueListElement"@.len() == 20 && "entityType"@.len() == 10);
    assert("typeValueListElement"@.len() == 20 && "statement"@.len() == 9);
    assert("typeValueListElement"@.len() == 20 && "globalAssetId"@.len() == 13);
    assert("typeValueListElement"@.len() == 20 && "specificAssetId"@.len() == 15);
    assert("typeValueListElement"@.len() == 20 && "idShort"@.len() == 7);
    assert("typeValueListElement"@.len() == 20 && "displayName"@.len() == 11);
    assert("typeValueListElement"@.len() == 20 && "description"@.len() == 11);
    assert("typeValueListElement"@.len() == 20 && "category"@.len() == 8);
    assert("typeValueListElement"@.len() == 20 && "extensions"@.len() == 10);
    assert("typeValueListElement"@.len() == 20 && "semanticId"@.len() == 10);
    assert("typeValueListElement"@.len() == 20 && "supplementalSemanticIds"@.len() == 23);
    assert("typeValueListElement"@.len() == 20 && "qualifiers"@.len() == 10);
    assert("typeValueListElement"@.len() == 20 && "embeddedDataSpecifications"@.len() == 26);
    assert("typeValueListElement"@.len() == 20 && "inputVariable"@.len() == 13);
    assert("typeValueListElement"@.len() == 20 && "outputVariable"@.len() == 14);
    assert("typeValueListElement"@.len() == 20 && "inoutputVariable"@.len() == 16);
    assert("typeValueListElement"@.len() == 20 && "orderRelevant"@.len() == 13);
    assert("typeValueListElement"@.len() == 20 && "value"@.len() == 5);
    assert("typeValueListElement"@.len() == 20 && "semanticIdListElement"@.len() == 21);
    assert("valueTypeListElement"@.len() == 20 && "RelationshipElement"@.len() == 19);
    assert("valueTypeListElement"@.len() == 20 && "AnnotatedRelationshipElement"@.len() == 28);
    assert("valueTypeListElement"@.len() == 20 && "BasicEventElement"@.len() == 17);
    assert("valueTypeListElement"@.len() == 20 && "Blob"@.len() == 4);
    assert("valueTypeListElement"@.len() == 20 && "Capability"@.len() == 10);
    assert("valueTypeListElement"@.len() == 20 && "File"@.len() == 4);
    assert("valueTypeListElement"@.len() == 20 && "MultiLanguageProperty"@.len() == 21);
    assert("valueTypeListElement"@.len() == 20 && "Property"@.len() == 8);
    assert("valueTypeListElement"@.len() == 20 && "Range"@.len() == 5);
    assert("valueTypeListElement"@.len() == 20 && "ReferenceElement"@.len() == 16);
    assert("valueTypeListElement"@.len() == 20 && "DataElement"@.len() == 11);
    assert("valueTypeListElement"@.len() == 20 && "Entity"@.len() == 6);
    assert("valueTypeListElement"@.len() == 20 && "Operation"@.len() == 9);
    assert("valueTypeListElement"@.len() == 20 && "SubmodelElementCollection"@.len() == 25);
    assert("valueTypeListElement"@.len() == 20 && "SubmodelElementList"@.len() == 19);
    assert("valueTypeListElement"@.len() == 20 && "modelType"@.len() == 9);
    assert("valueTypeListElement"@.len() == 20 && "entityType"@.len() == 10);
    assert("valueTypeListElement"@.len() == 20 && "statement"@.len() == 9);
    assert("valueTypeListElement"@.len() == 20 && "globalAssetId"@.len() == 13);
    assert("valueTypeListElement"@.len() == 20 && "specificAssetId"@.len() == 15);
    assert("valueTypeListElement"@.len() == 20 && "idShort"@.len() == 7);
    assert("valueTypeListElement"@.len() == 20 && "displayName"@.len() == 11);
    assert("valueTypeListElement"@.len() == 20 && "description"@.len() == 11);
    assert("valueTypeListElement"@.len() == 20 && "category"@.len() == 8);
    assert("valueTypeListElement"@.len() == 20 && "extensions"@.len() == 10);
    assert("valueTypeListElement"@.len() == 20 && "semanticId"@.len() == 10);
    assert("valueTypeListElement"@.len() == 20 && "supplementalSemanticIds"@.len() == 23);
    assert("valueTypeListElement"@.len() == 20 && "qualifiers"@.len() == 10);
    assert("valueTypeListElement"@.len() == 20 && "embeddedDataSpecifications"@.len() == 26);
    assert("valueTypeListElement"@.len() == 20 && "inputVariable"@.len() == 13);
    assert("valueTypeListElement"@.len() == 20 && "outputVariable"@.len() == 14);
    assert("valueTypeListElement"@.len() == 20 && "inoutputVariable"@.len() == 16);
    assert("valueTypeListElement"@.len() == 20 && "orderRelevant"@.len() == 13);
    assert("valueTypeListElement"@.len() == 20 && "value"@.len() == 5);
    assert("valueTypeListElement"@.len() == 20 && "semanticIdListElement"@.len() == 21);
    assert("valueTypeListElement"@[0] != "typeValueListElement"@[0]);
    assert("CoManagedEntity"@.len() == 15 && "RelationshipElement"@.len() == 19);
    assert("CoManagedEntity"@.len() == 15 && "AnnotatedRelationshipElement"@.len() == 28);
    assert("CoManagedEntity"@.len() == 15 && "BasicEventElement"@.len() == 17);
    assert("CoManagedEntity"@.len() == 15 && "Blob"@.len() == 4);
    assert("CoManagedEntity"@.len() == 15 && "Capability"@.len() == 10);
    assert("CoManagedEntity"@.len() == 15 && "File"@.len() == 4);
    assert("CoManagedEntity"@.len() == 15 && "MultiLanguageProperty"@.len() == 21);
    assert("CoManagedEntity"@.len() == 15 && "Property"@.len() == 8);
    assert("CoManagedEntity"@.len() == 15 && "Range"@.len() == 5);
    assert("CoManagedEntity"@.len() == 15 && "ReferenceElement"@.len() == 16);
    assert("CoManagedEntity"@.len() == 15 && "DataElement"@.len() == 11);
    assert("CoManagedEntity"@.len() == 15 && "Entity"@.len() == 6);
    assert("CoManagedEntity"@.len() == 15 && "Operation"@.len() == 9);
    assert("CoManagedEntity"@.len() == 15 && "SubmodelElementCollection"@.len() == 25);
    assert("CoManagedEntity"@.len() == 15 && "SubmodelElementList"@.len() == 19);
    assert("CoManagedEntity"@.len() == 15 && "modelType"@.len() == 9);
    assert("CoManagedEntity"@.len() == 15 && "entityType"@.len() == 10);
    assert("CoManagedEntity"@.len() == 15 && "statement"@.len() == 9);
    assert("CoManagedEntity"@.len() == 15 && "globalAssetId"@.len() == 13);
    assert("CoManagedEntity"@[0] != "specificAssetId"@[0]);
    assert("CoManagedEntity"@.len() == 15 && "idShort"@.len() == 7);
    assert("CoManagedEntity"@.len() == 15 && "displayName"@.len() == 11);
    assert("CoManagedEntity"@.len() == 15 && "description"@.len() == 11);
    assert("CoManagedEntity"@.len() == 15 && "category"@.len() == 8);
    assert("CoManagedEntity"@.len() == 15 && "extensions"@.len() == 10);
    assert("CoManagedEntity"@.len() == 15 && "semanticId"@.len() == 10);
    assert("CoManagedEntity"@.len() == 15 && "supplementalSemanticIds"@.len() == 23);
    assert("CoManagedEntity"@.len() == 15 && "qualifiers"@.len() == 10);
    assert("CoManagedEntity"@.len() == 15 && "embeddedDataSpecifications"@.len() == 26);
    assert("CoManagedEntity"@.len() == 15 && "inputVariable"@.len() == 13);
    assert("CoManagedEntity"@.len() == 15 && "outputVariable"@.len() == 14);
    assert("CoManagedEntity"@.len() == 15 && "inoutputVariable"@.len() == 16);
    assert("CoManagedEntity"@.len() == 15 && "orderRelevant"@.len() == 13);
    assert("CoManagedEntity"@.len() == 15 && "value"@.len() == 5);
    assert("CoManagedEntity"@.len() == 15 && "semanticIdListElement"@.len() == 21);
    assert("CoManagedEntity"@.len() == 15 && "typeValueListElement"@.len() == 20);
    assert("CoManagedEntity"@.len() == 15 && "valueTypeListElement"@.len() == 20);
    assert("SelfManagedEntity"@.len() == 17 && "RelationshipElement"@.len() == 19);
    assert("SelfManagedEntity"@.len() == 17 && "AnnotatedRelationshipElement"@.len() == 28);
    assert("SelfManagedEntity"@[0] != "BasicEventElement"@[0]);
    assert("SelfManagedEntity"@.len() == 17 && "Blob"@.len() == 4);
    assert("SelfManagedEntity"@.len() == 17 && "Capability"@.len() == 10);
    assert("SelfManagedEntity"@.len() == 17 && "File"@.len() == 4);
    assert("SelfManagedEntity"@.len() == 17 && "MultiLanguageProperty"@.len() == 21);
    assert("SelfManagedEntity"@.len() == 17 && "Property"@.len() == 8);
    assert("SelfManagedEntity"@.len() == 17 && "Range"@.len() == 5);
    assert("SelfManagedEntity"@.len() == 17 && "ReferenceElement"@.len() == 16);
    assert("SelfManagedEntity"@.len() == 17 && "DataElement"@.len() == 11);
    assert("SelfManagedEntity"@.len() == 17 && "Entity"@.len() == 6);
    assert("SelfManagedEntity"@.len() == 17 && "Operation"@.len() == 9);
    assert("SelfManagedEntity"@.len() == 17 && "SubmodelElementCollection"@.len() == 25);
    assert("SelfManagedEntity"@.len() == 17 && "SubmodelElementList"@.len() == 19);
    assert("SelfManagedEntity"@.len() == 17 && "modelType"@.len() == 9);
    assert("SelfManagedEntity"@.len() == 17 && "entityType"@.len() == 10);
    assert("SelfManagedEntity"@.len() == 17 && "statement"@.len() == 9);
    assert("SelfManagedEntity"@.len() == 17 && "globalAssetId"@.len() == 13);
    assert("SelfManagedEntity"@.len() == 17 && "specificAssetId"@.len() == 15);
    assert("SelfManagedEntity"@.len() == 17 && "idShort"@.len() == 7);
    assert("SelfManagedEntity"@.len() == 17 && "displayName"@.len() == 11);
    assert("SelfManagedEntity"@.len() == 17 && "description"@.len() == 11);
    assert("SelfManagedEntity"@.len() == 17 && "category"@.len() == 8);
    assert("SelfManagedEntity"@.len() == 17 && "extensions"@.len() == 10);
    assert("SelfManagedEntity"@.len() == 17 && "semanticId"@.len() == 10);
    assert("SelfManagedEntity"@.len() == 17 && "supplementalSemanticIds"@.len() == 23);
    assert("SelfManagedEntity"@.len() == 17 && "qualifiers"@.len() == 10);
    assert("SelfManagedEntity"@.len() == 17 && "embeddedDataSpecifications"@.len() == 26);
    assert("SelfManagedEntity"@.len() == 17 && "inputVariable"@.len() == 13);
    assert("SelfManagedEntity"@.len() == 17 && "outputVariable"@.len() == 14);
    assert("SelfManagedEntity"@.len() == 17 && "inoutputVariable"@.len() == 16);
    assert("SelfManagedEntity"@.len() == 17 && "orderRelevant"@.len() == 13);
    assert("SelfManagedEntity"@.len() == 17 && "value"@.len() == 5);
    assert("SelfManagedEntity"@.len() == 17 && "semanticIdListElement"@.len() == 21);
    assert("SelfManagedEntity"@.len() == 17 && "typeValueListElement"@.len() == 20);
    assert("SelfManagedEntity"@.len() == 17 && "valueTypeListElement"@.len() == 20);
    assert("SelfManagedEntity"@.len() == 17 && "CoManagedEntity"@.len() == 15);
    match e {
        SubmodelElement::RelationshipElement(x) => {
            x.lemma_round_trip(j);
        },
        SubmodelElement::AnnotatedRelationshipElement(x) => {
            x.lemma_round_trip(j);
        },
        SubmodelElement::BasicEventElement(x) => {
            x.lemma_round_trip(j);
        },
        SubmodelElement::Blob(x) => {
            x.lemma_round_trip(j);
        },
        SubmodelElement::Capability(x) => {
            x.lemma_round_trip(j);
        },
        SubmodelElement::File(x) => {
            x.lemma_round_trip(j);
        },
        SubmodelElement::MultiLanguageProperty(x) => {
            x.lemma_round_trip(j);
        },
        SubmodelElement::Property(x) => {
            x.lemma_round_trip(j);
        },
        SubmodelElement::Range(x) => {
            x.lemma_round_trip(j);
        },
        SubmodelElement::ReferenceElement(x) => {
            x.lemma_round_trip(j);
        },
        SubmodelElement::DataElement(x) => {
            lemma_data_element_members_round_trip(x, j->Object_0@);
        },
        SubmodelElement::Entity(en) => {
            let fs = j->Object_0@;
            lemma_lookup_index(fs, "statement"@);
            match en {
                Entity::CoManagedEntity(i) => {
                    match i.statement {
                        Some(v) => {
                            lemma_elements_round_trip(v@, lookup(fs, "statement"@)->Some_0->Array_0@);
                        },
                        None => {},
                    }
                    lemma_opt_round_trip(i.global_asset_id, lookup(fs, "globalAssetId"@));
                    lemma_opt_round_trip(i.specific_asset_id, lookup(fs, "specificAssetId"@));
                },
                Entity::SelfManagedEntity(i) => {
                    match i.statement {
                        Some(v) => {
                            lemma_elements_round_trip(v@, lookup(fs, "statement"@)->Some_0->Array_0@);
                        },
                        None => {},
                    }
                    lemma_opt_round_trip(i.global_asset_id, lookup(fs, "globalAssetId"@));
                    lemma_opt_round_trip(i.specific_asset_id, lookup(fs, "specificAssetId"@));
                },
            }
        },
        SubmodelElement::Operation(op) => {
            let fs = j->Object_0@;
            lemma_submodel_element_fields_round_trip(SubmodelElementFields { referable: op.referable, semantics: op.semantics, qualifiable: op.qualifiable, embedded_data_specifications: op.embedded_data_specifications }, fs);
            lemma_lookup_index(fs, "inputVariable"@);
            match op.input_variable {
                Some(b) => {
                    lemma_element_round_trip(*b, lookup(fs, "inputVariable"@)->Some_0);
                },
                None => {},
            }
            lemma_lookup_index(fs, "outputVariable"@);
            match op.output_variable {
                Some(b) => {
                    lemma_element_round_trip(*b, lookup(fs, "outputVariable"@)->Some_0);
                },
                None => {},
            }
            lemma_lookup_index(fs, "inoutputVariable"@);
            match op.inoutput_variable {
                Some(b) => {
                    lemma_element_round_trip(*b, lookup(fs, "inoutputVariable"@)->Some_0);
                },
                None => {},
            }
        },
        SubmodelElement::SubmodelElementCollection(c) => {
            let fs = j->Object_0@;
            lemma_lookup_index(fs, "value"@);
            match c.value {
                Some(v) => {
                    lemma_elements_round_trip(v@, lookup(fs, "value"@)->Some_0->Array_0@);
                },
                None => {},
            }
        },
        SubmodelElement::SubmodelElementList(l) => {
            let fs = j->Object_0@;
            lemma_lookup_index(fs, "value"@);
            lemma_lookup_index(fs, "typeValueListElement"@);
            match l.value {
                Some(v) => {
                    lemma_elements_round_trip(v@, lookup(fs, "value"@)->Some_0->Array_0@);
                },
                None => {},
            }
            lemma_opt_round_trip(l.semantic_id_list_element, lookup(fs, "semanticIdListElement"@));
            lemma_element_round_trip(*l.type_value_list_element, lookup(fs, "typeValueListElement"@)->Some_0);
            lemma_req_round_trip(l.value_type_list_element, lookup(fs, "valueTypeListElement"@));
        },
    }
}

/// What encoding writes for well-formed elements decodes to them, in order.
pub proof fn lemma_elements_round_trip(v: Seq<SubmodelElement>, a: Seq<Json>)
    requires
        elements_wf(v),
        elements_encoded(v, a),
    ensures
        elements_error(a) is None,
        elements_rel(v, a),
    decreases v,
{
    if v.len() > 0 {
        lemma_elements_round_trip(v.subrange(0, v.len() - 1), a.subrange(0, a.len() - 1));
        lemma_element_round_trip(v[v.len() - 1], a[a.len() - 1]);
    }
}

/// The elements that the same tree decodes to are alike.
#[verifier::rlimit(100)]
#[verifier::spinoff_prover]
pub proof fn lemma_element_unique(x: SubmodelElement, y: SubmodelElement, j: Json)
    requires
        element_rel(x, j),
        element_rel(y, j),
    ensures
        element_equiv(x, y),
    decreases x,
{
    reveal_strlit("RelationshipElement");
    reveal_strlit("AnnotatedRelationshipElement");
    reveal_strlit("BasicEventElement");
    reveal_strlit("Blob");
    reveal_strlit("Capability");
    reveal_strlit("File");
    reveal_strlit("MultiLanguageProperty");
    reveal_strlit("Property");
    reveal_strlit("Range");
    reveal_strlit("ReferenceElement");
    reveal_strlit("DataElement");
    reveal_strlit("Entity");
    reveal_strlit("Operation");
    reveal_strlit("SubmodelElementCollection");
    reveal_strlit("SubmodelElementList");
    reveal_strlit("modelType");
    reveal_strlit("entityType");
    reveal_strlit("statement");
    reveal_strlit("globalAssetId");
    reveal_strlit("specificAssetId");
    reveal_strlit("idShort");
    reveal_strlit("displayName");
    reveal_strlit("description");
    reveal_strlit("category");
    reveal_strlit("extensions");
    reveal_strlit("semanticId");
    reveal_strlit("supplementalSemanticIds");
    reveal_strlit("qualifiers");
    reveal_strlit("embeddedDataSpecifications");
    reveal_strlit("inputVariable");
    reveal_strlit("outputVariable");
    reveal_strlit("inoutputVariable");
    reveal_strlit("orderRelevant");
    reveal_strlit("value");
    reveal_strlit("semanticIdListElement");
    reveal_strlit("typeValueListElement");
    reveal_strlit("valueTypeListElement");
    reveal_strlit("CoManagedEntity");
    reveal_strlit("SelfManagedEntity");
    assert("AnnotatedRelationshipElement"@.len() == 28 && "RelationshipElement"@.len() == 19);
    assert("BasicEventElement"@.len() == 17 && "RelationshipElement"@.len() == 19);
    assert("BasicEventElement"@.len() == 17 && "AnnotatedRelationshipElement"@.len() == 28);
    assert("Blob"@.len() == 4 && "RelationshipElement"@.len() == 19);
    assert("Blob"@.len() == 4 && "AnnotatedRelationshipElement"@.len() == 28);
    assert("Blob"@.len() == 4 && "BasicEventElement"@.len() == 17);
    assert("Capability"@.len() == 10 && "RelationshipElement"@.len() == 19);
    assert("Capability"@.len() == 10 && "AnnotatedRelationshipElement"@.len() == 28);
    assert("Capability"@.len() == 10 && "BasicEventElement"@.len() == 17);
    assert("Capability"@.len() == 10 && "Blob"@.len() == 4);
    assert("File"@.len() == 4 && "RelationshipElement"@.len() == 19);
    assert("File"@.len() == 4 && "AnnotatedRelationshipElement"@.len() == 28);
    assert("File"@.len() == 4 && "BasicEventElement"@.len() == 17);
    assert("File"@[0] != "Blob"@[0]);
    assert("File"@.len() == 4 && "Capability"@.len() == 10);
    assert("MultiLanguageProperty"@.len() == 21 && "RelationshipElement"@.len() == 19);
    assert("MultiLanguageProperty"@.len() == 21 && "AnnotatedRelationshipElement"@.len() == 28);
    assert("MultiLanguageProperty"@.len() == 21 && "BasicEventElement"@.len() == 17);
    assert("MultiLanguageProperty"@.len() == 21 && "Blob"@.len() == 4);
    assert("MultiLanguageProperty"@.len() == 21 && "Capability"@.len() == 10);
    assert("MultiLanguageProperty"@.len() == 21 && "File"@.len() == 4);
    assert("Property"@.len() == 8 && "RelationshipElement"@.len() == 19);
    assert("Property"@.len() == 8 && "AnnotatedRelationshipElement"@.len() == 28);
    assert("Property"@.len() == 8 && "BasicEventElement"@.len() == 17);
    assert("Property"@.len() == 8 && "Blob"@.len() == 4);
    assert("Property"@.len() == 8 && "Capability"@.len() == 10);
    assert("Property"@.len() == 8 && "File"@.len() == 4);
    assert("Property"@.len() == 8 && "MultiLanguageProperty"@.len() == 21);
    assert("Range"@.len() == 5 && "RelationshipElement"@.len() == 19);
    assert("Range"@.len() == 5 && "AnnotatedRelationshipElement"@.len() == 28);
    assert("Range"@.len() == 5 && "BasicEventElement"@.len() == 17);
    assert("Range"@.len() == 5 && "Blob"@.len() == 4);
    assert("Range"@.len() == 5 && "Capability"@.len() == 10);
    assert("Range"@.len() == 5 && "File"@.len() == 4);
    assert("Range"@.len() == 5 && "MultiLanguageProperty"@.len() == 21);
    assert("Range"@.len() == 5 && "Property"@.len() == 8);
    assert("ReferenceElement"@.len() == 16 && "RelationshipElement"@.len() == 19);
    assert("ReferenceElement"@.len() == 16 && "AnnotatedRelationshipElement"@.len() == 28);
    assert("ReferenceElement"@.len() == 16 && "BasicEventElement"@.len() == 17);
    assert("ReferenceElement"@.len() == 16 && "Blob"@.len() == 4);
    assert("ReferenceElement"@.len() == 16 && "Capability"@.len() == 10);
    assert("ReferenceElement"@.len() == 16 && "File"@.len() == 4);
    assert("ReferenceElement"@.len() == 16 && "MultiLanguageProperty"@.len() == 21);
    assert("ReferenceElement"@.len() == 16 && "Property"@.len() == 8);
    assert("ReferenceElement"@.len() == 16 && "Range"@.len() == 5);
    assert("DataElement"@.len() == 11 && "RelationshipElement"@.len() == 19);
    assert("DataElement"@.len() == 11 && "AnnotatedRelationshipElement"@.len() == 28);
    assert("DataElement"@.len() == 11 && "BasicEventElement"@.len() == 17);
    assert("DataElement"@.len() == 11 && "Blob"@.len() == 4);
    assert("DataElement"@.len() == 11 && "Capability"@.len() == 10);
    assert("DataElement"@.len() == 11 && "File"@.len() == 4);
    assert("DataElement"@.len() == 11 && "MultiLanguageProperty"@.len() == 21);
    assert("DataElement"@.len() == 11 && "Property"@.len() == 8);
    assert("DataElement"@.len() == 11 && "Range"@.len() == 5);
    assert("DataElement"@.len() == 11 && "ReferenceElement"@.len() == 16);
    assert("Entity"@.len() == 6 && "RelationshipElement"@.len() == 19);
    assert("Entity"@.len() == 6 && "AnnotatedRelationshipElement"@.len() == 28);
    assert("Entity"@.len() == 6 && "BasicEventElement"@.len() == 17);
    assert("Entity"@.len() == 6 && "Blob"@.len() == 4);
    assert("Entity"@.len() == 6 && "Capability"@.len() == 10);
    assert("Entity"@.len() == 6 && "File"@.len() == 4);
    assert("Entity"@.len() == 6 && "MultiLanguageProperty"@.len() == 21);
    assert("Entity"@.len() == 6 && "Property"@.len() == 8);
    assert("Entity"@.len() == 6 && "Range"@.len() == 5);
    assert("Entity"@.len() == 6 && "ReferenceElement"@.len() == 16);
    assert("Entity"@.len() == 6 && "DataElement"@.len() == 11);
    assert("Operation"@.len() == 9 && "RelationshipElement"@.len() == 19);
    assert("Operation"@.len() == 9 && "AnnotatedRelationshipElement"@.len() == 28);
    assert("Operation"@.len() == 9 && "BasicEventElement"@.len() == 17);
    assert("Operation"@.len() == 9 && "Blob"@.len() == 4);
    assert("Operation"@.len() == 9 && "Capability"@.len() == 10);
    assert("Operation"@.len() == 9 && "File"@.len() == 4);
    assert("Operation"@.len() == 9 && "MultiLanguageProperty"@.len() == 21);
    assert("Operation"@.len() == 9 && "Property"@.len() == 8);
    assert("Operation"@.len() == 9 && "Range"@.len() == 5);
    assert("Operation"@.len() == 9 && "ReferenceElement"@.len() == 16);
    assert("Operation"@.len() == 9 && "DataElement"@.len() == 11);
    assert("Operation"@.len() == 9 && "Entity"@.len() == 6);
    assert("SubmodelElementCollection"@.len() == 25 && "RelationshipElement"@.len() == 19);
    assert("SubmodelElementCollection"@.len() == 25 && "AnnotatedRelationshipElement"@.len() == 28);
    assert("SubmodelElementCollection"@.len() == 25 && "BasicEventElement"@.len() == 17);
    assert("SubmodelElementCollection"@.len() == 25 && "Blob"@.len() == 4);
    assert("SubmodelElementCollection"@.len() == 25 && "Capability"@.len() == 10);
    assert("SubmodelElementCollection"@.len() == 25 && "File"@.len() == 4);
    assert("SubmodelElementCollection"@.len() == 25 && "MultiLanguageProperty"@.len() == 21);
    assert("SubmodelElementCollection"@.len() == 25 && "Property"@.len() == 8);
    assert("SubmodelElementCollection"@.len() == 25 && "Range"@.len() == 5);
    assert("SubmodelElementCollection"@.len() == 25 && "ReferenceElement"@.len() == 16);
    assert("SubmodelElementCollection"@.len() == 25 && "DataElement"@.len() == 11);
    assert("SubmodelElementCollection"@.len() == 25 && "Entity"@.len() == 6);
    assert("SubmodelElementCollection"@.len() == 25 && "Operation"@.len() == 9);
    assert("SubmodelElementList"@[0] != "RelationshipElement"@[0]);
    assert("SubmodelElementList"@.len() == 19 && "AnnotatedRelationshipElement"@.len() == 28);
    assert("SubmodelElementList"@.len() == 19 && "BasicEventElement"@.len() == 17);
    assert("SubmodelElementList"@.len() == 19 && "Blob"@.len() == 4);
    assert("SubmodelElementList"@.len() == 19 && "Capability"@.len() == 10);
    assert("SubmodelElementList"@.len() == 19 && "File"@.len() == 4);
    assert("SubmodelElementList"@.len() == 19 && "MultiLanguageProperty"@.len() == 21);
    assert("SubmodelElementList"@.len() == 19 && "Property"@.len() == 8);
    assert("SubmodelElementList"@.len() == 19 && "Range"@.len() == 5);
    assert("SubmodelElementList"@.len() == 19 && "ReferenceElement"@.len() == 16);
    assert("SubmodelElementList"@.len() == 19 && "DataElement"@.len() == 11);
    assert("SubmodelElementList"@.len() == 19 && "Entity"@.len() == 6);
    assert("SubmodelElementList"@.len() == 19 && "Operation"@.len() == 9);
    assert("SubmodelElementList"@.len() == 19 && "SubmodelElementCollection"@.len() == 25);
    assert("modelType"@.len() == 9 && "RelationshipElement"@.len() == 19);
    assert("modelType"@.len() == 9 && "AnnotatedRelationshipElement"@.len() == 28);
    assert("modelType"@.len() == 9 && "BasicEventElement"@.len() == 17);
    assert("modelType"@.len() == 9 && "Blob"@.len() == 4);
    assert("modelType"@.len() == 9 && "Capability"@.len() == 10);
    assert("modelType"@.len() == 9 && "File"@.len() == 4);
    assert("modelType"@.len() == 9 && "MultiLanguageProperty"@.len() == 21);
    assert("modelType"@.len() == 9 && "Property"@.len() == 8);
    assert("modelType"@.len() == 9 && "Range"@.len() == 5);
    assert("modelType"@.len() == 9 && "ReferenceElement"@.len() == 16);
    assert("modelType"@.len() == 9 && "DataElement"@.len() == 11);
    assert("modelType"@.len() == 9 && "Entity"@.len() == 6);
    assert("modelType"@[0] != "Operation"@[0]);
    assert("modelType"@.len() == 9 && "SubmodelElementCollection"@.len() == 25);
    assert("modelType"@.len() == 9 && "SubmodelElementList"@.len() == 19);
    assert("entityType"@.len() == 10 && "RelationshipElement"@.len() == 19);
    assert("entityType"@.len() == 10 && "AnnotatedRelationshipElement"@.len() == 28);
    assert("entityType"@.len() == 10 && "BasicEventElement"@.len() == 17);
    assert("entityType"@.len() == 10 && "Blob"@.len() == 4);
    assert("entityType"@[0] != "Capability"@[0]);
    assert("entityType"@.len() == 10 && "File"@.len() == 4);
    assert("entityType"@.len() == 10 && "MultiLanguageProperty"@.len() == 21);
    assert("entityType"@.len() == 10 && "Property"@.len() == 8);
    assert("entityType"@.len() == 10 && "Range"@.len() == 5);
    assert("entityType"@.len() == 10 && "ReferenceElement"@.len() == 16);
    assert("entityType"@.len() == 10 && "DataElement"@.len() == 11);
    assert("entityType"@.len() == 10 && "Entity"@.len() == 6);
    assert("entityType"@.len() == 10 && "Operation"@.len() == 9);
    assert("entityType"@.len() == 10 && "SubmodelElementCollection"@.len() == 25);
    assert("entityType"@.len() == 10 && "SubmodelElementList"@.len() == 19);
    assert("entityType"@.len() == 10 && "modelType"@.len() == 9);
    assert("statement"@.len() == 9 && "RelationshipElement"@.len() == 19);
    assert("statement"@.len() == 9 && "AnnotatedRelationshipElement"@.len() == 28);
    assert("statement"@.len() == 9 && "BasicEventElement"@.len() == 17);
    assert("statement"@.len() == 9 && "Blob"@.len() == 4);
    assert("statement"@.len() == 9 && "Capability"@.len() == 10);
    assert("statement"@.len() == 9 && "File"@.len() == 4);
    assert("statement"@.len() == 9 && "MultiLanguageProperty"@.len() == 21);
    assert("statement"@.len() == 9 && "Property"@.len() == 8);
    assert("statement"@.len() == 9 && "Range"@.len() == 5);
    assert("statement"@.len() == 9 && "ReferenceElement"@.len() == 16);
    assert("statement"@.len() == 9 && "DataElement"@.len() == 11);
    assert("statement"@.len() == 9 && "Entity"@.len() == 6);
    assert("statement"@[0] != "Operation"@[0]);
    assert("statement"@.len() == 9 && "SubmodelElementCollection"@.len() == 25);
    assert("statement"@.len() == 9 && "SubmodelElementList"@.len() == 19);
    assert("statement"@[0] != "modelType"@[0]);
    assert("statement"@.len() == 9 && "entityType"@.len() == 10);
    assert("globalAssetId"@.len() == 13 && "RelationshipElement"@.len() == 19);
    assert("globalAssetId"@.len() == 13 && "AnnotatedRelationshipElement"@.len() == 28);
    assert("globalAssetId"@.len() == 13 && "BasicEventElement"@.len() == 17);
    assert("globalAssetId"@.len() == 13 && "Blob"@.len() == 4);
    assert("globalAssetId"@.len() == 13 && "Capability"@.len() == 10);
    assert("globalAssetId"@.len() == 13 && "File"@.len() == 4);
    assert("globalAssetId"@.len() == 13 && "MultiLanguageProperty"@.len() == 21);
    assert("globalAssetId"@.len() == 13 && "Property"@.len() == 8);
    assert("globalAssetId"@.len() == 13 && "Range"@.len() == 5);
    assert("globalAssetId"@.len() == 13 && "ReferenceElement"@.len() == 16);
    assert("globalAssetId"@.len() == 13 && "DataElement"@.len() == 11);
    assert("globalAssetId"@.len() == 13 && "Entity"@.len() == 6);
    assert("globalAssetId"@.len() == 13 && "Operation"@.len() == 9);
    assert("globalAssetId"@.len() == 13 && "SubmodelElementCollection"@.len() == 25);
    assert("globalAssetId"@.len() == 13 && "SubmodelElementList"@.len() == 19);
    assert("globalAssetId"@.len() == 13 && "modelType"@.len() == 9);
    assert("globalAssetId"@.len() == 13 && "entityType"@.len() == 10);
    assert("globalAssetId"@.len() == 13 && "statement"@.len() == 9);
    assert("specificAssetId"@.len() == 15 && "RelationshipElement"@.len() == 19);
    assert("specificAssetId"@.len() == 15 && "AnnotatedRelationshipElement"@.len() == 28);
    assert("specificAssetId"@.len() == 15 && "BasicEventElement"@.len() == 17);
    assert("specificAssetId"@.len() == 15 && "Blob"@.len() == 4);
    assert("specificAssetId"@.len() == 15 && "Capability"@.len() == 10);
    assert("specificAssetId"@.len() == 15 && "File"@.len() == 4);
    assert("specificAssetId"@.len() == 15 && "MultiLanguageProperty"@.len() == 21);
    assert("specificAssetId"@.len() == 15 && "Property"@.len() == 8);
    assert("specificAssetId"@.len() == 15 && "Range"@.len() == 5);
    assert("specificAssetId"@.len() == 15 && "ReferenceElement"@.len() == 16);
    assert("specificAssetId"@.len() == 15 && "DataElement"@.len() == 11);
    assert("specificAssetId"@.len() == 15 && "Entity"@.len() == 6);
    assert("specificAssetId"@.len() == 15 && "Operation"@.len() == 9);
    assert("specificAssetId"@.len() == 15 && "SubmodelElementCollection"@.len() == 25);
    assert("specificAssetId"@.len() == 15 && "SubmodelElementList"@.len() == 19);
    assert("specificAssetId"@.len() == 15 && "modelType"@.len() == 9);
    assert("specificAssetId"@.len() == 15 && "entityType"@.len() == 10);
    assert("specificAssetId"@.len() == 15 && "statement"@.len() == 9);
    assert("specificAssetId"@.len() == 15 && "globalAssetId"@.len() == 13);
    assert("idShort"@.len() == 7 && "RelationshipElement"@.len() == 19);
    assert("idShort"@.len() == 7 && "AnnotatedRelationshipElement"@.len() == 28);
    assert("idShort"@.len() == 7 && "BasicEventElement"@.len() == 17);
    assert("idShort"@.len() == 7 && "Blob"@.len() == 4);
    assert("idShort"@.len() == 7 && "Capability"@.len() == 10);
    assert("idShort"@.len() == 7 && "File"@.len() == 4);
    assert("idShort"@.len() == 7 && "MultiLanguageProperty"@.len() == 21);
    assert("idShort"@.len() == 7 && "Property"@.len() == 8);
    assert("idShort"@.len() == 7 && "Range"@.len() == 5);
    assert("idShort"@.len() == 7 && "ReferenceElement"@.len() == 16);
    assert("idShort"@.len() == 7 && "DataElement"@.len() == 11);
    assert("idShort"@.len() == 7 && "Entity"@.len() == 6);
    assert("idShort"@.len() == 7 && "Operation"@.len() == 9);
    assert("idShort"@.len() == 7 && "SubmodelElementCollection"@.len() == 25);
    assert("idShort"@.len() == 7 && "SubmodelElementList"@.len() == 19);
    assert("idShort"@.len() == 7 && "modelType"@.len() == 9);
    assert("idShort"@.len() == 7 && "entityType"@.len() == 10);
    assert("idShort"@.len() == 7 && "statement"@.len() == 9);
    assert("idShort"@.len() == 7 && "globalAssetId"@.len() == 13);
    assert("idShort"@.len() == 7 && "specificAssetId"@.len() == 15);
    assert("displayName"@.len() == 11 && "RelationshipElement"@.len() == 19);
    assert("displayName"@.len() == 11 && "AnnotatedRelationshipElement"@.len() == 28);
    assert("displayName"@.len() == 11 && "BasicEventElement"@.len() == 17);
    assert("displayName"@.len() == 11 && "Blob"@.len() == 4);
    assert("displayName"@.len() == 11 && "Capability"@.len() == 10);
    assert("displayName"@.len() == 11 && "File"@.len() == 4);
    assert("displayName"@.len() == 11 && "MultiLanguageProperty"@.len() == 21);
    assert("displayName"@.len() == 11 && "Property"@.len() == 8);
    assert("displayName"@.len() == 11 && "Range"@.len() == 5);
    assert("displayName"@.len() == 11 && "ReferenceElement"@.len() == 16);
    assert("displayName"@[0] != "DataElement"@[0]);
    assert("displayName"@.len() == 11 && "Entity"@.len() == 6);
    assert("displayName"@.len() == 11 && "Operation"@.len() == 9);
    assert("displayName"@.len() == 11 && "SubmodelElementCollection"@.len() == 25);
    assert("displayName"@.len() == 11 && "SubmodelElementList"@.len() == 19);
    assert("displayName"@.len() == 11 && "modelType"@.len() == 9);
    assert("displayName"@.len() == 11 && "entityType"@.len() == 10);
    assert("displayName"@.len() == 11 && "statement"@.len() == 9);
    assert("displayName"@.len() == 11 && "globalAssetId"@.len() == 13);
    assert("displayName"@.len() == 11 && "specificAssetId"@.len() == 15);
    assert("displayName"@.len() == 11 && "idShort"@.len() == 7);
    assert("description"@.len() == 11 && "RelationshipElement"@.len() == 19);
    assert("description"@.len() == 11 && "AnnotatedRelationshipElement"@.len() == 28);
    assert("description"@.len() == 11 && "BasicEventElement"@.len() == 17);
    assert("description"@.len() == 11 && "Blob"@.len() == 4);
    assert("description"@.len() == 11 && "Capability"@.len() == 10);
    assert("description"@.len() == 11 && "File"@.len() == 4);
    assert("description"@.len() == 11 && "MultiLanguageProperty"@.len() == 21);
    assert("description"@.len() == 11 && "Property"@.len() == 8);
    assert("description"@.len() == 11 && "Range"@.len() == 5);
    assert("description"@.len() == 11 && "ReferenceElement"@.len() == 16);
    assert("description"@[0] != "DataElement"@[0]);
    assert("description"@.len() == 11 && "Entity"@.len() == 6);
    assert("description"@.len() == 11 && "Operation"@.len() == 9);
    assert("description"@.len() == 11 && "SubmodelElementCollection"@.len() == 25);
    assert("description"@.len() == 11 && "SubmodelElementList"@.len() == 19);
    assert("description"@.len() == 11 && "modelType"@.len() == 9);
    assert("description"@.len() == 11 && "entityType"@.len() == 10);
    assert("description"@.len() == 11 && "statement"@.len() == 9);
    assert("description"@.len() == 11 && "globalAssetId"@.len() == 13);
    assert("description"@.len() == 11 && "specificAssetId"@.len() == 15);
    assert("description"@.len() == 11 && "idShort"@.len() == 7);
    assert("description"@[1] != "displayName"@[1]);
    assert("category"@.len() == 8 && "RelationshipElement"@.len() == 19);
    assert("category"@.len() == 8 && "AnnotatedRelationshipElement"@.len() == 28);
    assert("category"@.len() == 8 && "BasicEventElement"@.len() == 17);
    assert("category"@.len() == 8 && "Blob"@.len() == 4);
    assert("category"@.len() == 8 && "Capability"@.len() == 10);
    assert("category"@.len() == 8 && "File"@.len() == 4);
    assert("category"@.len() == 8 && "MultiLanguageProperty"@.len() == 21);
    assert("category"@[0] != "Property"@[0]);
    assert("category"@.len() == 8 && "Range"@.len() == 5);
    assert("category"@.len() == 8 && "ReferenceElement"@.len() == 16);
    assert("category"@.len() == 8 && "DataElement"@.len() == 11);
    assert("category"@.len() == 8 && "Entity"@.len() == 6);
    assert("category"@.len() == 8 && "Operation"@.len() == 9);
    assert("category"@.len() == 8 && "SubmodelElementCollection"@.len() == 25);
    assert("category"@.len() == 8 && "SubmodelElementList"@.len() == 19);
    assert("category"@.len() == 8 && "modelType"@.len() == 9);
    assert("category"@.len() == 8 && "entityType"@.len() == 10);
    assert("category"@.len() == 8 && "statement"@.len() == 9);
    assert("category"@.len() == 8 && "globalAssetId"@.len() == 13);
    assert("category"@.len() == 8 && "specificAssetId"@.len() == 15);
    assert("category"@.len() == 8 && "idShort"@.len() == 7);
    assert("category"@.len() == 8 && "displayName"@.len() == 11);
    assert("category"@.len() == 8 && "description"@.len() == 11);
    assert("extensions"@.len() == 10 && "RelationshipElement"@.len() == 19);
    assert("extensions"@.len() == 10 && "AnnotatedRelationshipElement"@.len() == 28);
    assert("extensions"@.len() == 10 && "BasicEventElement"@.len() == 17);
    assert("extensions"@.len() == 10 && "Blob"@.len() == 4);
    assert("extensions"@[0] != "Capability"@[0]);
    assert("extensions"@.len() == 10 && "File"@.len() == 4);
    assert("extensions"@.len() == 10 && "MultiLanguageProperty"@.len() == 21);
    assert("extensions"@.len() == 10 && "Property"@.len() == 8);
    assert("extensions"@.len() == 10 && "Range"@.len() == 5);
    assert("extensions"@.len() == 10 && "ReferenceElement"@.len() == 16);
    assert("extensions"@.len() == 10 && "DataElement"@.len() == 11);
    assert("extensions"@.len() == 10 && "Entity"@.len() == 6);
    assert("extensions"@.len() == 10 && "Operation"@.len() == 9);
    assert("extensions"@.len() == 10 && "SubmodelElementCollection"@.len() == 25);
    assert("extensions"@.len() == 10 && "SubmodelElementList"@.len() == 19);
    assert("extensions"@.len() == 10 && "modelType"@.len() == 9);
    assert("extensions"@[1] != "entityType"@[1]);
    assert("extensions"@.len() == 10 && "statement"@.len() == 9);
    assert("extensions"@.len() == 10 && "globalAssetId"@.len() == 13);
    assert("extensions"@.len() == 10 && "specificAssetId"@.len() == 15);
    assert("extensions"@.len() == 10 && "idShort"@.len() == 7);
    assert("extensions"@.len() == 10 && "displayName"@.len() == 11);
    assert("extensions"@.len() == 10 && "description"@.len() == 11);
    assert("extensions"@.len() == 10 && "category"@.len() == 8);
    assert("semanticId"@.len() == 10 && "RelationshipElement"@.len() == 19);
    assert("semanticId"@.len() == 10 && "AnnotatedRelationshipElement"@.len() == 28);
    assert("semanticId"@.len() == 10 && "BasicEventElement"@.len() == 17);
    assert("semanticId"@.len() == 10 && "Blob"@.len() == 4);
    assert("semanticId"@[0] != "Capability"@[0]);
    assert("semanticId"@.len() == 10 && "File"@.len() == 4);
    assert("semanticId"@.len() == 10 && "MultiLanguageProperty"@.len() == 21);
    assert("semanticId"@.len() == 10 && "Property"@.len() == 8);
    assert("semanticId"@.len() == 10 && "Range"@.len() == 5);
    assert("semanticId"@.len() == 10 && "ReferenceElement"@.len() == 16);
    assert("semanticId"@.len() == 10 && "DataElement"@.len() == 11);
    assert("semanticId"@.len() == 10 && "Entity"@.len() == 6);
    assert("semanticId"@.len() == 10 && "Operation"@.len() == 9);
    assert("semanticId"@.len() == 10 && "SubmodelElementCollection"@.len() == 25);
    assert("semanticId"@.len() == 10 && "SubmodelElementList"@.len() == 19);
    assert("semanticId"@.len() == 10 && "modelType"@.len() == 9);
    assert("semanticId"@[0] != "entityType"@[0]);
    assert("semanticId"@.len() == 10 && "statement"@.len() == 9);
    assert("semanticId"@.len() == 10 && "globalAssetId"@.len() == 13);
    assert("semanticId"@.len() == 10 && "specificAssetId"@.len() == 15);
    assert("semanticId"@.len() == 10 && "idShort"@.len() == 7);
    assert("semanticId"@.len() == 10 && "displayName"@.len() == 11);
    assert("semanticId"@.len() == 10 && "description"@.len() == 11);
    assert("semanticId"@.len() == 10 && "category"@.len() == 8);
    assert("semanticId"@[0] != "extensions"@[0]);
    assert("supplementalSemanticIds"@.len() == 23 && "RelationshipElement"@.len() == 19);
    assert("supplementalSemanticIds"@.len() == 23 && "AnnotatedRelationshipElement"@.len() == 28);
    assert("supplementalSemanticIds"@.len() == 23 && "BasicEventElement"@.len() == 17);
    assert("supplementalSemanticIds"@.len() == 23 && "Blob"@.len() == 4);
    assert("supplementalSemanticIds"@.len() == 23 && "Capability"@.len() == 10);
    assert("supplementalSemanticIds"@.len() == 23 && "File"@.len() == 4);
    assert("supplementalSemanticIds"@.len() == 23 && "MultiLanguageProperty"@.len() == 21);
    assert("supplementalSemanticIds"@.len() == 23 && "Property"@.len() == 8);
    assert("supplementalSemanticIds"@.len() == 23 && "Range"@.len() == 5);
    assert("supplementalSemanticIds"@.len() == 23 && "ReferenceElement"@.len() == 16);
    assert("supplementalSemanticIds"@.len() == 23 && "DataElement"@.len() == 11);
    assert("supplementalSemanticIds"@.len() == 23 && "Entity"@.len() == 6);
    assert("supplementalSemanticIds"@.len() == 23 && "Operation"@.len() == 9);
    assert("supplementalSemanticIds"@.len() == 23 && "SubmodelElementCollection"@.len() == 25);
    assert("supplementalSemanticIds"@.len() == 23 && "SubmodelElementList"@.len() == 19);
    assert("supplementalSemanticIds"@.len() == 23 && "modelType"@.len() == 9);
    assert("supplementalSemanticIds"@.len() == 23 && "entityType"@.len() == 10);
    assert("supplementalSemanticIds"@.len() == 23 && "statement"@.len() == 9);
    assert("supplementalSemanticIds"@.len() == 23 && "globalAssetId"@.len() == 13);
    assert("supplementalSemanticIds"@.len() == 23 && "specificAssetId"@.len() == 15);
    assert("supplementalSemanticIds"@.len() == 23 && "idShort"@.len() == 7);
    assert("supplementalSemanticIds"@.len() == 23 && "displayName"@.len() == 11);
    assert("supplementalSemanticIds"@.len() == 23 && "description"@.len() == 11);
    assert("supplementalSemanticIds"@.len() == 23 && "category"@.len() == 8);
    assert("supplementalSemanticIds"@.len() == 23 && "extensions"@.len() == 10);
    assert("supplementalSemanticIds"@.len() == 23 && "semanticId"@.len() == 10);
    assert("qualifiers"@.len() == 10 && "RelationshipElement"@.len() == 19);
    assert("qualifiers"@.len() == 10 && "AnnotatedRelationshipElement"@.len() == 28);
    assert("qualifiers"@.len() == 10 && "BasicEventElement"@.len() == 17);
    assert("qualifiers"@.len() == 10 && "Blob"@.len() == 4);
    assert("qualifiers"@[0] != "Capability"@[0]);
    assert("qualifiers"@.len() == 10 && "File"@.len() == 4);
    assert("qualifiers"@.len() == 10 && "MultiLanguageProperty"@.len() == 21);
    assert("qualifiers"@.len() == 10 && "Property"@.len() == 8);
    assert("qualifiers"@.len() == 10 && "Range"@.len() == 5);
    assert("qualifiers"@.len() == 10 && "ReferenceElement"@.len() == 16);
    assert("qualifiers"@.len() == 10 && "DataElement"@.len() == 11);
    assert("qualifiers"@.len() == 10 && "Entity"@.len() == 6);
    assert("qualifiers"@.len() == 10 && "Operation"@.len() == 9);
    assert("qualifiers"@.len() == 10 && "SubmodelElementCollection"@.len() == 25);
    assert("qualifiers"@.len() == 10 && "SubmodelElementList"@.len() == 19);
    assert("qualifiers"@.len() == 10 && "modelType"@.len() == 9);
    assert("qualifiers"@[0] != "entityType"@[0]);
    assert("qualifiers"@.len() == 10 && "statement"@.len() == 9);
    assert("qualifiers"@.len() == 10 && "globalAssetId"@.len() == 13);
    assert("qualifiers"@.len() == 10 && "specificAssetId"@.len() == 15);
    assert("qualifiers"@.len() == 10 && "idShort"@.len() == 7);
    assert("qualifiers"@.len() == 10 && "displayName"@.len() == 11);
    assert("qualifiers"@.len() == 10 && "description"@.len() == 11);
    assert("qualifiers"@.len() == 10 && "category"@.len() == 8);
    assert("qualifiers"@[0] != "extensions"@[0]);
    assert("qualifiers"@[0] != "semanticId"@[0]);
    assert("qualifiers"@.len() == 10 && "supplementalSemanticIds"@.len() == 23);
    assert("embeddedDataSpecifications"@.len() == 26 && "RelationshipElement"@.len() == 19);
    assert("embeddedDataSpecifications"@.len() == 26 && "AnnotatedRelationshipElement"@.len() == 28);
    assert("embeddedDataSpecifications"@.len() == 26 && "BasicEventElement"@.len() == 17);
    assert("embeddedDataSpecifications"@.len() == 26 && "Blob"@.len() == 4);
    assert("embeddedDataSpecifications"@.len() == 26 && "Capability"@.len() == 10);
    assert("embeddedDataSpecifications"@.len() == 26 && "File"@.len() == 4);
    assert("embeddedDataSpecifications"@.len() == 26 && "MultiLanguageProperty"@.len() == 21);
    assert("embeddedDataSpecifications"@.len() == 26 && "Property"@.len() == 8);
    assert("embeddedDataSpecifications"@.len() == 26 && "Range"@.len() == 5);
    assert("embeddedDataSpecifications"@.len() == 26 && "ReferenceElement"@.len() == 16);
    assert("embeddedDataSpecifications"@.len() == 26 && "DataElement"@.len() == 11);
    assert("embeddedDataSpecifications"@.len() == 26 && "Entity"@.len() == 6);
    assert("embeddedDataSpecifications"@.len() == 26 && "Operation"@.len() == 9);
    assert("embeddedDataSpecifications"@.len() == 26 && "SubmodelElementCollection"@.len() == 25);
    assert("embeddedDataSpecifications"@.len() == 26 && "SubmodelElementList"@.len() == 19);
    assert("embeddedDataSpecifications"@.len() == 26 && "modelType"@.len() == 9);
    assert("embeddedDataSpecifications"@.len() == 26 && "entityType"@.len() == 10);
    assert("embeddedDataSpecifications"@.len() == 26 && "statement"@.len() == 9);
    assert("embeddedDataSpecifications"@.len() == 26 && "globalAssetId"@.len() == 13);
    assert("embeddedDataSpecifications"@.len() == 26 && "specificAssetId"@.len() == 15);
    assert("embeddedDataSpecifications"@.len() == 26 && "idShort"@.len() == 7);
    assert("embeddedDataSpecifications"@.len() == 26 && "displayName"@.len() == 11);
    assert("embeddedDataSpecifications"@.len() == 26 && "description"@.len() == 11);
    assert("embeddedDataSpecifications"@.len() == 26 && "category"@.len() == 8);
    assert("embeddedDataSpecifications"@.len() == 26 && "extensions"@.len() == 10);
    assert("embeddedDataSpecifications"@.len() == 26 && "semanticId"@.len() == 10);
    assert("embeddedDataSpecifications"@.len() == 26 && "supplementalSemanticIds"@.len() == 23);
    assert("embeddedDataSpecifications"@.len() == 26 && "qualifiers"@.len() == 10);
    assert("inputVariable"@.len() == 13 && "RelationshipElement"@.len() == 19);
    assert("inputVariable"@.len() == 13 && "AnnotatedRelationshipElement"@.len() == 28);
    assert("inputVariable"@.len() == 13 && "BasicEventElement"@.len() == 17);
    assert("inputVariable"@.len() == 13 && "Blob"@.len() == 4);
    assert("inputVariable"@.len() == 13 && "Capability"@.len() == 10);
    assert("inputVariable"@.len() == 13 && "File"@.len() == 4);
    assert("inputVariable"@.len() == 13 && "MultiLanguageProperty"@.len() == 21);
    assert("inputVariable"@.len() == 13 && "Property"@.len() == 8);
    assert("inputVariable"@.len() == 13 && "Range"@.len() == 5);
    assert("inputVariable"@.len() == 13 && "ReferenceElement"@.len() == 16);
    assert("inputVariable"@.len() == 13 && "DataElement"@.len() == 11);
    assert("inputVariable"@.len() == 13 && "Entity"@.len() == 6);
    assert("inputVariable"@.len() == 13 && "Operation"@.len() == 9);
    assert("inputVariable"@.len() == 13 && "SubmodelElementCollection"@.len() == 25);
    assert("inputVariable"@.len() == 13 && "SubmodelElementList"@.len() == 19);
    assert("inputVariable"@.len() == 13 && "modelType"@.len() == 9);
    assert("inputVariable"@.len() == 13 && "entityType"@.len() == 10);
    assert("inputVariable"@.len() == 13 && "statement"@.len() == 9);
    assert("inputVariable"@[0] != "globalAssetId"@[0]);
    assert("inputVariable"@.len() == 13 && "specificAssetId"@.len() == 15);
    assert("inputVariable"@.len() == 13 && "idShort"@.len() == 7);
    assert("inputVariable"@.len() == 13 && "displayName"@.len() == 11);
    assert("inputVariable"@.len() == 13 && "description"@.len() == 11);
    assert("inputVariable"@.len() == 13 && "category"@.len() == 8);
    assert("inputVariable"@.len() == 13 && "extensions"@.len() == 10);
    assert("inputVariable"@.len() == 13 && "semanticId"@.len() == 10);
    assert("inputVariable"@.len() == 13 && "supplementalSemanticIds"@.len() == 23);
    assert("inputVariable"@.len() == 13 && "qualifiers"@.len() == 10);
    assert("inputVariable"@.len() == 13 && "embeddedDataSpecifications"@.len() == 26);
    assert("outputVariable"@.len() == 14 && "RelationshipElement"@.len() == 19);
    assert("outputVariable"@.len() == 14 && "AnnotatedRelationshipElement"@.len() == 28);
    assert("outputVariable"@.len() == 14 && "BasicEventElement"@.len() == 17);
    assert("outputVariable"@.len() == 14 && "Blob"@.len() == 4);
    assert("outputVariable"@.len() == 14 && "Capability"@.len() == 10);
    assert("outputVariable"@.len() == 14 && "File"@.len() == 4);
    assert("outputVariable"@.len() == 14 && "MultiLanguageProperty"@.len() == 21);
    assert("outputVariable"@.len() == 14 && "Property"@.len() == 8);
    assert("outputVariable"@.len() == 14 && "Range"@.len() == 5);
    assert("outputVariable"@.len() == 14 && "ReferenceElement"@.len() == 16);
    assert("outputVariable"@.len() == 14 && "DataElement"@.len() == 11);
    assert("outputVariable"@.len() == 14 && "Entity"@.len() == 6);
    assert("outputVariable"@.len() == 14 && "Operation"@.len() == 9);
    assert("outputVariable"@.len() == 14 && "SubmodelElementCollection"@.len() == 25);
    assert("outputVariable"@.len() == 14 && "SubmodelElementList"@.len() == 19);
    assert("outputVariable"@.len() == 14 && "modelType"@.len() == 9);
    assert("outputVariable"@.len() == 14 && "entityType"@.len() == 10);
    assert("outputVariable"@.len() == 14 && "statement"@.len() == 9);
    assert("outputVariable"@.len() == 14 && "globalAssetId"@.len() == 13);
    assert("outputVariable"@.len() == 14 && "specificAssetId"@.len() == 15);
    assert("outputVariable"@.len() == 14 && "idShort"@.len() == 7);
    assert("outputVariable"@.len() == 14 && "displayName"@.len() == 11);
    assert("outputVariable"@.len() == 14 && "description"@.len() == 11);
    assert("outputVariable"@.len() == 14 && "category"@.len() == 8);
    assert("outputVariable"@.len() == 14 && "extensions"@.len() == 10);
    assert("outputVariable"@.len() == 14 && "semanticId"@.len() == 10);
    assert("outputVariable"@.len() == 14 && "supplementalSemanticIds"@.len() == 23);
    assert("outputVariable"@.len() == 14 && "qualifiers"@.len() == 10);
    assert("outputVariable"@.len() == 14 && "embeddedDataSpecifications"@.len() == 26);
    assert("outputVariable"@.len() == 14 && "inputVariable"@.len() == 13);
    assert("inoutputVariable"@.len() == 16 && "RelationshipElement"@.len() == 19);
    assert("inoutputVariable"@.len() == 16 && "AnnotatedRelationshipElement"@.len() == 28);
    assert("inoutputVariable"@.len() == 16 && "BasicEventElement"@.len() == 17);
    assert("inoutputVariable"@.len() == 16 && "Blob"@.len() == 4);
    assert("inoutputVariable"@.len() == 16 && "Capability"@.len() == 10);
    assert("inoutputVariable"@.len() == 16 && "File"@.len() == 4);
    assert("inoutputVariable"@.len() == 16 && "MultiLanguageProperty"@.len() == 21);
    assert("inoutputVariable"@.len() == 16 && "Property"@.len() == 8);
    assert("inoutputVariable"@.len() == 16 && "Range"@.len() == 5);
    assert("inoutputVariable"@[0] != "ReferenceElement"@[0]);
    assert("inoutputVariable"@.len() == 16 && "DataElement"@.len() == 11);
    assert("inoutputVariable"@.len() == 16 && "Entity"@.len() == 6);
    assert("inoutputVariable"@.len() == 16 && "Operation"@.len() == 9);
    assert("inoutputVariable"@.len() == 16 && "SubmodelElementCollection"@.len() == 25);
    assert("inoutputVariable"@.len() == 16 && "SubmodelElementList"@.len() == 19);
    assert("inoutputVariable"@.len() == 16 && "modelType"@.len() == 9);
    assert("inoutputVariable"@.len() == 16 && "entityType"@.len() == 10);
    assert("inoutputVariable"@.len() == 16 && "statement"@.len() == 9);
    assert("inoutputVariable"@.len() == 16 && "globalAssetId"@.len() == 13);
    assert("inoutputVariable"@.len() == 16 && "specificAssetId"@.len() == 15);
    assert("inoutputVariable"@.len() == 16 && "idShort"@.len() == 7);
    assert("inoutputVariable"@.len() == 16 && "displayName"@.len() == 11);
    assert("inoutputVariable"@.len() == 16 && "description"@.len() == 11);
    assert("inoutputVariable"@.len() == 16 && "category"@.len() == 8);
    assert("inoutputVariable"@.len() == 16 && "extensions"@.len() == 10);
    assert("inoutputVariable"@.len() == 16 && "semanticId"@.len() == 10);
    assert("inoutputVariable"@.len() == 16 && "supplementalSemanticIds"@.len() == 23);
    assert("inoutputVariable"@.len() == 16 && "qualifiers"@.len() == 10);
    assert("inoutputVariable"@.len() == 16 && "embeddedDataSpecifications"@.len() == 26);
    assert("inoutputVariable"@.len() == 16 && "inputVariable"@.len() == 13);
    assert("inoutputVariable"@.len() == 16 && "outputVariable"@.len() == 14);
    assert("orderRelevant"@.len() == 13 && "RelationshipElement"@.len() == 19);
    assert("orderRelevant"@.len() == 13 && "AnnotatedRelationshipElement"@.len() == 28);
    assert("orderRelevant"@.len() == 13 && "BasicEventElement"@.len() == 17);
    assert("orderRelevant"@.len() == 13 && "Blob"@.len() == 4);
    assert("orderRelevant"@.len() == 13 && "Capability"@.len() == 10);
    assert("orderRelevant"@.len() == 13 && "File"@.len() == 4);
    assert("orderRelevant"@.len() == 13 && "MultiLanguageProperty"@.len() == 21);
    assert("orderRelevant"@.len() == 13 && "Property"@.len() == 8);
    assert("orderRelevant"@.len() == 13 && "Range"@.len() == 5);
    assert("orderRelevant"@.len() == 13 && "ReferenceElement"@.len() == 16);
    assert("orderRelevant"@.len() == 13 && "DataElement"@.len() == 11);
    assert("orderRelevant"@.len() == 13 && "Entity"@.len() == 6);
    assert("orderRelevant"@.len() == 13 && "Operation"@.len() == 9);
    assert("orderRelevant"@.len() == 13 && "SubmodelElementCollection"@.len() == 25);
    assert("orderRelevant"@.len() == 13 && "SubmodelElementList"@.len() == 19);
    assert("orderRelevant"@.len() == 13 && "modelType"@.len() == 9);
    assert("orderRelevant"@.len() == 13 && "entityType"@.len() == 10);
    assert("orderRelevant"@.len() == 13 && "statement"@.len() == 9);
    assert("orderRelevant"@[0] != "globalAssetId"@[0]);
    assert("orderRelevant"@.len() == 13 && "specificAssetId"@.len() == 15);
    assert("orderRelevant"@.len() == 13 && "idShort"@.len() == 7);
    assert("orderRelevant"@.len() == 13 && "displayName"@.len() == 11);
    assert("orderRelevant"@.len() == 13 && "description"@.len() == 11);
    assert("orderRelevant"@.len() == 13 && "category"@.len() == 8);
    assert("orderRelevant"@.len() == 13 && "extensions"@.len() == 10);
    assert("orderRelevant"@.len() == 13 && "semanticId"@.len() == 10);
    assert("orderRelevant"@.len() == 13 && "supplementalSemanticIds"@.len() == 23);
    assert("orderRelevant"@.len() == 13 && "qualifiers"@.len() == 10);
    assert("orderRelevant"@.len() == 13 && "embeddedDataSpecifications"@.len() == 26);
    assert("orderRelevant"@[0] != "inputVariable"@[0]);
    assert("orderRelevant"@.len() == 13 && "outputVariable"@.len() == 14);
    assert("orderRelevant"@.len() == 13 && "inoutputVariable"@.len() == 16);
    assert("value"@.len() == 5 && "RelationshipElement"@.len() == 19);
    assert("value"@.len() == 5 && "AnnotatedRelationshipElement"@.len() == 28);
    assert("value"@.len() == 5 && "BasicEventElement"@.len() == 17);
    assert("value"@.len() == 5 && "Blob"@.len() == 4);
    assert("value"@.len() == 5 && "Capability"@.len() == 10);
    assert("value"@.len() == 5 && "File"@.len() == 4);
    assert("value"@.len() == 5 && "MultiLanguageProperty"@.len() == 21);
    assert("value"@.len() == 5 && "Property"@.len() == 8);
    assert("value"@[0] != "Range"@[0]);
    assert("value"@.len() == 5 && "ReferenceElement"@.len() == 16);
    assert("value"@.len() == 5 && "DataElement"@.len() == 11);
    assert("value"@.len() == 5 && "Entity"@.len() == 6);
    assert("value"@.len() == 5 && "Operation"@.len() == 9);
    assert("value"@.len() == 5 && "SubmodelElementCollection"@.len() == 25);
    assert("value"@.len() == 5 && "SubmodelElementList"@.len() == 19);
    assert("value"@.len() == 5 && "modelType"@.len() == 9);
    assert("value"@.len() == 5 && "entityType"@.len() == 10);
    assert("value"@.len() == 5 && "statement"@.len() == 9);
    assert("value"@.len() == 5 && "globalAssetId"@.len() == 13);
    assert("value"@.len() == 5 && "specificAssetId"@.len() == 15);
    assert("value"@.len() == 5 && "idShort"@.len() == 7);
    assert("value"@.len() == 5 && "displayName"@.len() == 11);
    assert("value"@.len() == 5 && "description"@.len() == 11);
    assert("value"@.len() == 5 && "category"@.len() == 8);
    assert("value"@.len() == 5 && "extensions"@.len() == 10);
    assert("value"@.len() == 5 && "semanticId"@.len() == 10);
    assert("value"@.len() == 5 && "supplementalSemanticIds"@.len() == 23);
    assert("value"@.len() == 5 && "qualifiers"@.len() == 10);
    assert("value"@.len() == 5 && "embeddedDataSpecifications"@.len() == 26);
    assert("value"@.len() == 5 && "inputVariable"@.len() == 13);
    assert("value"@.len() == 5 && "outputVariable"@.len() == 14);
    assert("value"@.len() == 5 && "inoutputVariable"@.len() == 16);
    assert("value"@.len() == 5 && "orderRelevant"@.len() == 13);
    assert("semanticIdListElement"@.len() == 21 && "RelationshipElement"@.len() == 19);
    assert("semanticIdListElement"@.len() == 21 && "AnnotatedRelationshipElement"@.len() == 28);
    assert("semanticIdListElement"@.len() == 21 && "BasicEventElement"@.len() == 17);
    assert("semanticIdListElement"@.len() == 21 && "Blob"@.len() == 4);
    assert("semanticIdListElement"@.len() == 21 && "Capability"@.len() == 10);
    assert("semanticIdListElement"@.len() == 21 && "File"@.len() == 4);
    assert("semanticIdListElement"@[0] != "MultiLanguageProperty"@[0]);
    assert("semanticIdListElement"@.len() == 21 && "Property"@.len() == 8);
    assert("semanticIdListElement"@.len() == 21 && "Range"@.len() == 5);
    assert("semanticIdListElement"@.len() == 21 && "ReferenceElement"@.len() == 16);
    assert("semanticIdListElement"@.len() == 21 && "DataElement"@.len() == 11);
    assert("semanticIdListElement"@.len() == 21 && "Entity"@.len() == 6);
    assert("semanticIdListElement"@.len() == 21 && "Operation"@.len() == 9);
    assert("semanticIdListElement"@.len() == 21 && "SubmodelElementCollection"@.len() == 25);
    assert("semanticIdListElement"@.len() == 21 && "SubmodelElementList"@.len() == 19);
    assert("semanticIdListElement"@.len() == 21 && "modelType"@.len() == 9);
    assert("semanticIdListElement"@.len() == 21 && "entityType"@.len() == 10);
    assert("semanticIdListElement"@.len() == 21 && "statement"@.len() == 9);
    assert("semanticIdListElement"@.len() == 21 && "globalAssetId"@.len() == 13);
    assert("semanticIdListElement"@.len() == 21 && "specificAssetId"@.len() == 15);
    assert("semanticIdListElement"@.len() == 21 && "idShort"@.len() == 7);
    assert("semanticIdListElement"@.len() == 21 && "displayName"@.len() == 11);
    assert("semanticIdListElement"@.len() == 21 && "description"@.len() == 11);
    assert("semanticIdListElement"@.len() == 21 && "category"@.len() == 8);
    assert("semanticIdListElement"@.len() == 21 && "extensions"@.len() == 10);
    assert("semanticIdListElement"@.len() == 21 && "semanticId"@.len() == 10);
    assert("semanticIdListElement"@.len() == 21 && "supplementalSemanticIds"@.len() == 23);
    assert("semanticIdListElement"@.len() == 21 && "qualifiers"@.len() == 10);
    assert("semanticIdListElement"@.len() == 21 && "embeddedDataSpecifications"@.len() == 26);
    assert("semanticIdListElement"@.len() == 21 && "inputVariable"@.len() == 13);
    assert("semanticIdListElement"@.len() == 21 && "outputVariable"@.len() == 14);
    assert("semanticIdListElement"@.len() == 21 && "inoutputVariable"@.len() == 16);
    assert("semanticIdListElement"@.len() == 21 && "orderRelevant"@.len() == 13);
    assert("semanticIdListElement"@.len() == 21 && "value"@.len() == 5);
    assert("typeValueListElement"@.len() == 20 && "RelationshipElement"@.len() == 19);
    assert("typeValueListElement"@.len() == 20 && "AnnotatedRelationshipElement"@.len() == 28);
    assert("typeValueListElement"@.len() == 20 && "BasicEventElement"@.len() == 17);
    assert("typeValueListElement"@.len() == 20 && "Blob"@.len() == 4);
    assert("typeValueListElement"@.len() == 20 && "Capability"@.len() == 10);
    assert("typeValueListElement"@.len() == 20 && "File"@.len() == 4);
    assert("typeValueListElement"@.len() == 20 && "MultiLanguageProperty"@.len() == 21);
    assert("typeValueListElement"@.len() == 20 && "Property"@.len() == 8);
    assert("typeValueListElement"@.len() == 20 && "Range"@.len() == 5);
    assert("typeValueListElement"@.len() == 20 && "ReferenceElement"@.len() == 16);
    assert("typeValueListElement"@.len() == 20 && "DataElement"@.len() == 11);
    assert("typeValueListElement"@.len() == 20 && "Entity"@.len() == 6);
    assert("typeValueListElement"@.len() == 20 && "Operation"@.len() == 9);
    assert("typeValueListElement"@.len() == 20 && "SubmodelElementCollection"@.len() == 25);
    assert("typeValueListElement"@.len() == 20 && "SubmodelElementList"@.len() == 19);
    assert("typeValueListElement"@.len() == 20 && "modelType"@.len() == 9);
    assert("typeValueListElement"@.len() == 20 && "entityType"@.len() == 10);
    assert("typeValueListElement"@.len() == 20 && "statement"@.len() == 9);
    assert("typeValueListElement"@.len() == 20 && "globalAssetId"@.len() == 13);
    assert("typeValueListElement"@.len() == 20 && "specificAssetId"@.len() == 15);
    assert("typeValueListElement"@.len() == 20 && "idShort"@.len() == 7);
    assert("typeValueListElement"@.len() == 20 && "displayName"@.len() == 11);
    assert("typeValueListElement"@.len() == 20 && "description"@.len() == 11);
    assert("typeValueListElement"@.len() == 20 && "category"@.len() == 8);
    assert("typeValueListElement"@.len() == 20 && "extensions"@.len() == 10);
    assert("typeValueListElement"@.len() == 20 && "semanticId"@.len() == 10);
    assert("typeValueListElement"@.len() == 20 && "supplementalSemanticIds"@.len() == 23);
    assert("typeValueListElement"@.len() == 20 && "qualifiers"@.len() == 10);
    assert("typeValueListElement"@.len() == 20 && "embeddedDataSpecifications"@.len() == 26);
    assert("typeValueListElement"@.len() == 20 && "inputVariable"@.len() == 13);
    assert("typeValueListElement"@.len() == 20 && "outputVariable"@.len() == 14);
    assert("typeValueListElement"@.len() == 20 && "inoutputVariable"@.len() == 16);
    assert("typeValueListElement"@.len() == 20 && "orderRelevant"@.len() == 13);
    assert("typeValueListElement"@.len() == 20 && "value"@.len() == 5);
    assert("typeValueListElement"@.len() == 20 && "semanticIdListElement"@.len() == 21);
    assert("valueTypeListElement"@.len() == 20 && "RelationshipElement"@.len() == 19);
    assert("valueTypeListElement"@.len() == 20 && "AnnotatedRelationshipElement"@.len() == 28);
    assert("valueTypeListElement"@.len() == 20 && "BasicEventElement"@.len() == 17);
    assert("valueTypeListElement"@.len() == 20 && "Blob"@.len() == 4);
    assert("valueTypeListElement"@.len() == 20 && "Capability"@.len() == 10);
    assert("valueTypeListElement"@.len() == 20 && "File"@.len() == 4);
    assert("valueTypeListElement"@.len() == 20 && "MultiLanguageProperty"@.len() == 21);
    assert("valueTypeListElement"@.len() == 20 && "Property"@.len() == 8);
    assert("valueTypeListElement"@.len() == 20 && "Range"@.len() == 5);
    assert("valueTypeListElement"@.len() == 20 && "ReferenceElement"@.len() == 16);
    assert("valueTypeListElement"@.len() == 20 && "DataElement"@.len() == 11);
    assert("valueTypeListElement"@.len() == 20 && "Entity"@.len() == 6);
    assert("valueTypeListElement"@.len() == 20 && "Operation"@.len() == 9);
    assert("valueTypeListElement"@.len() == 20 && "SubmodelElementCollection"@.len() == 25);
    assert("valueTypeListElement"@.len() == 20 && "SubmodelElementList"@.len() == 19);
    assert("valueTypeListElement"@.len() == 20 && "modelType"@.len() == 9);
    assert("valueTypeListElement"@.len() == 20 && "entityType"@.len() == 10);
    assert("valueTypeListElement"@.len() == 20 && "statement"@.len() == 9);
    assert("valueTypeListElement"@.len() == 20 && "globalAssetId"@.len() == 13);
    assert("valueTypeListElement"@.len() == 20 && "specificAssetId"@.len() == 15);
    assert("valueTypeListElement"@.len() == 20 && "idShort"@.len() == 7);
    assert("valueTypeListElement"@.len() == 20 && "displayName"@.len() == 11);
    assert("valueTypeListElement"@.len() == 20 && "description"@.len() == 11);
    assert("valueTypeListElement"@.len() == 20 && "category"@.len() == 8);
    assert("valueTypeListElement"@.len() == 20 && "extensions"@.len() == 10);
    assert("valueTypeListElement"@.len() == 20 && "semanticId"@.len() == 10);
    assert("valueTypeListElement"@.len() == 20 && "supplementalSemanticIds"@.len() == 23);
    assert("valueTypeListElement"@.len() == 20 && "qualifiers"@.len() == 10);
    assert("valueTypeListElement"@.len() == 20 && "embeddedDataSpecifications"@.len() == 26);
    assert("valueTypeListElement"@.len() == 20 && "inputVariable"@.len() == 13);
    assert("valueTypeListElement"@.len() == 20 && "outputVariable"@.len() == 14);
    assert("valueTypeListElement"@.len() == 20 && "inoutputVariable"@.len() == 16);
    assert("valueTypeListElement"@.len() == 20 && "orderRelevant"@.len() == 13);
    assert("valueTypeListElement"@.len() == 20 && "value"@.len() == 5);
    assert("valueTypeListElement"@.len() == 20 && "semanticIdListElement"@.len() == 21);
    assert("valueTypeListElement"@[0] != "typeValueListElement"@[0]);
    assert("CoManagedEntity"@.len() == 15 && "RelationshipElement"@.len() == 19);
    assert("CoManagedEntity"@.len() == 15 && "AnnotatedRelationshipElement"@.len() == 28);
    assert("CoManagedEntity"@.len() == 15 && "BasicEventElement"@.len() == 17);
    assert("CoManagedEntity"@.len() == 15 && "Blob"@.len() == 4);
    assert("CoManagedEntity"@.len() == 15 && "Capability"@.len() == 10);
    assert("CoManagedEntity"@.len() == 15 && "File"@.len() == 4);
    assert("CoManagedEntity"@.len() == 15 && "MultiLanguageProperty"@.len() == 21);
    assert("CoManagedEntity"@.len() == 15 && "Property"@.len() == 8);
    assert("CoManagedEntity"@.len() == 15 && "Range"@.len() == 5);
    assert("CoManagedEntity"@.len() == 15 && "ReferenceElement"@.len() == 16);
    assert("CoManagedEntity"@.len() == 15 && "DataElement"@.len() == 11);
    assert("CoManagedEntity"@.len() == 15 && "Entity"@.len() == 6);
    assert("CoManagedEntity"@.len() == 15 && "Operation"@.len() == 9);
    assert("CoManagedEntity"@.len() == 15 && "SubmodelElementCollection"@.len() == 25);
    assert("CoManagedEntity"@.len() == 15 && "SubmodelElementList"@.len() == 19);
    assert("CoManagedEntity"@.len() == 15 && "modelType"@.len() == 9);
    assert("CoManagedEntity"@.len() == 15 && "entityType"@.len() == 10);
    assert("CoManagedEntity"@.len() == 15 && "statement"@.len() == 9);
    assert("CoManagedEntity"@.len() == 15 && "globalAssetId"@.len() == 13);
    assert("CoManagedEntity"@[0] != "specificAssetId"@[0]);
    assert("CoManagedEntity"@.len() == 15 && "idShort"@.len() == 7);
    assert("CoManagedEntity"@.len() == 15 && "displayName"@.len() == 11);
    assert("CoManagedEntity"@.len() == 15 && "description"@.len() == 11);
    assert("CoManagedEntity"@.len() == 15 && "category"@.len() == 8);
    assert("CoManagedEntity"@.len() == 15 && "extensions"@.len() == 10);
    assert("CoManagedEntity"@.len() == 15 && "semanticId"@.len() == 10);
    assert("CoManagedEntity"@.len() == 15 && "supplementalSemanticIds"@.len() == 23);
    assert("CoManagedEntity"@.len() == 15 && "qualifiers"@.len() == 10);
    assert("CoManagedEntity"@.len() == 15 && "embeddedDataSpecifications"@.len() == 26);
    assert("CoManagedEntity"@.len() == 15 && "inputVariable"@.len() == 13);
    assert("CoManagedEntity"@.len() == 15 && "outputVariable"@.len() == 14);
    assert("CoManagedEntity"@.len() == 15 && "inoutputVariable"@.len() == 16);
    assert("CoManagedEntity"@.len() == 15 && "orderRelevant"@.len() == 13);
    assert("CoManagedEntity"@.len() == 15 && "value"@.len() == 5);
    assert("CoManagedEntity"@.len() == 15 && "semanticIdListElement"@.len() == 21);
    assert("CoManagedEntity"@.len() == 15 && "typeValueListElement"@.len() == 20);
    assert("CoManagedEntity"@.len() == 15 && "valueTypeListElement"@.len() == 20);
    assert("SelfManagedEntity"@.len() == 17 && "RelationshipElement"@.len() == 19);
    assert("SelfManagedEntity"@.len() == 17 && "AnnotatedRelationshipElement"@.len() == 28);
    assert("SelfManagedEntity"@[0] != "BasicEventElement"@[0]);
    assert("SelfManagedEntity"@.len() == 17 && "Blob"@.len() == 4);
    assert("SelfManagedEntity"@.len() == 17 && "Capability"@.len() == 10);
    assert("SelfManagedEntity"@.len() == 17 && "File"@.len() == 4);
    assert("SelfManagedEntity"@.len() == 17 && "MultiLanguageProperty"@.len() == 21);
    assert("SelfManagedEntity"@.len() == 17 && "Property"@.len() == 8);
    assert("SelfManagedEntity"@.len() == 17 && "Range"@.len() == 5);
    assert("SelfManagedEntity"@.len() == 17 && "ReferenceElement"@.len() == 16);
    assert("SelfManagedEntity"@.len() == 17 && "DataElement"@.len() == 11);
    assert("SelfManagedEntity"@.len() == 17 && "Entity"@.len() == 6);
    assert("SelfManagedEntity"@.len() == 17 && "Operation"@.len() == 9);
    assert("SelfManagedEntity"@.len() == 17 && "SubmodelElementCollection"@.len() == 25);
    assert("SelfManagedEntity"@.len() == 17 && "SubmodelElementList"@.len() == 19);
    assert("SelfManagedEntity"@.len() == 17 && "modelType"@.len() == 9);
    assert("SelfManagedEntity"@.len() == 17 && "entityType"@.len() == 10);
    assert("SelfManagedEntity"@.len() == 17 && "statement"@.len() == 9);
    assert("SelfManagedEntity"@.len() == 17 && "globalAssetId"@.len() == 13);
    assert("SelfManagedEntity"@.len() == 17 && "specificAssetId"@.len() == 15);
    assert("SelfManagedEntity"@.len() == 17 && "idShort"@.len() == 7);
    assert("SelfManagedEntity"@.len() == 17 && "displayName"@.len() == 11);
    assert("SelfManagedEntity"@.len() == 17 && "description"@.len() == 11);
    assert("SelfManagedEntity"@.len() == 17 && "category"@.len() == 8);
    assert("SelfManagedEntity"@.len() == 17 && "extensions"@.len() == 10);
    assert("SelfManagedEntity"@.len() == 17 && "semanticId"@.len() == 10);
    assert("SelfManagedEntity"@.len() == 17 && "supplementalSemanticIds"@.len() == 23);
    assert("SelfManagedEntity"@.len() == 17 && "qualifiers"@.len() == 10);
    assert("SelfManagedEntity"@.len() == 17 && "embeddedDataSpecifications"@.len() == 26);
    assert("SelfManagedEntity"@.len() == 17 && "inputVariable"@.len() == 13);
    assert("SelfManagedEntity"@.len() == 17 && "outputVariable"@.len() == 14);
    assert("SelfManagedEntity"@.len() == 17 && "inoutputVariable"@.len() == 16);
    assert("SelfManagedEntity"@.len() == 17 && "orderRelevant"@.len() == 13);
    assert("SelfManagedEntity"@.len() == 17 && "value"@.len() == 5);
    assert("SelfManagedEntity"@.len() == 17 && "semanticIdListElement"@.len() == 21);
    assert("SelfManagedEntity"@.len() == 17 && "typeValueListElement"@.len() == 20);
    assert("SelfManagedEntity"@.len() == 17 && "valueTypeListElement"@.len() == 20);
    assert("SelfManagedEntity"@.len() == 17 && "CoManagedEntity"@.len() == 15);
    let fs = j->Object_0@;
    match (x, y) {
        (SubmodelElement::RelationshipElement(a), SubmodelElement::RelationshipElement(b)) => {
            a.lemma_unique(&b, j);
        },
        (SubmodelElement::AnnotatedRelationshipElement(a), SubmodelElement::AnnotatedRelationshipElement(b)) => {
            a.lemma_unique(&b, j);
        },
        (SubmodelElement::BasicEventElement(a), SubmodelElement::BasicEventElement(b)) => {
            a.lemma_unique(&b, j);
        },
        (SubmodelElement::Blob(a), SubmodelElement::Blob(b)) => {
            a.lemma_unique(&b, j);
        },
        (SubmodelElement::Capability(a), SubmodelElement::Capability(b)) => {
            a.lemma_unique(&b, j);
        },
        (SubmodelElement::File(a), SubmodelElement::File(b)) => {
            a.lemma_unique(&b, j);
        },
        (SubmodelElement::MultiLanguageProperty(a), SubmodelElement::MultiLanguageProperty(b)) => {
            a.lemma_unique(&b, j);
        },
        (SubmodelElement::Property(a), SubmodelElement::Property(b)) => {
            a.lemma_unique(&b, j);
        },
        (SubmodelElement::Range(a), SubmodelElement::Range(b)) => {
            a.lemma_unique(&b, j);
        },
        (SubmodelElement::ReferenceElement(a), SubmodelElement::ReferenceElement(b)) => {
            a.lemma_unique(&b, j);
        },
        (SubmodelElement::DataElement(a), SubmodelElement::DataElement(b)) => {
            lemma_data_element_members_unique(a, b, fs);
        },
        (SubmodelElement::Entity(Entity::CoManagedEntity(i)), SubmodelElement::Entity(Entity::CoManagedEntity(k))) => {
            match (i.statement, k.statement) {
                (Some(v), Some(u)) => {
                    lemma_elements_unique(v@, u@, member(fs, "statement"@)->Some_0->Array_0@);
                },
                _ => {},
            }
            lemma_opt_unique(i.global_asset_id, k.global_asset_id, member(fs, "globalAssetId"@));
            lemma_opt_unique(i.specific_asset_id, k.specific_asset_id, member(fs, "specificAssetId"@));
        },
        (SubmodelElement::Entity(Entity::SelfManagedEntity(i)), SubmodelElement::Entity(Entity::SelfManagedEntity(k))) => {
            match (i.statement, k.statement) {
                (Some(v), Some(u)) => {
                    lemma_elements_unique(v@, u@, member(fs, "statement"@)->Some_0->Array_0@);
                },
                _ => {},
            }
            lemma_opt_unique(i.global_asset_id, k.global_asset_id, member(fs, "globalAssetId"@));
            lemma_opt_unique(i.specific_asset_id, k.specific_asset_id, member(fs, "specificAssetId"@));
        },
        (SubmodelElement::Operation(a), SubmodelElement::Operation(b)) => {
            lemma_submodel_element_fields_unique(SubmodelElementFields { referable: a.referable, semantics: a.semantics, qualifiable: a.qualifiable, embedded_data_specifications: a.embedded_data_specifications }, SubmodelElementFields { referable: b.referable, semantics: b.semantics, qualifiable: b.qualifiable, embedded_data_specifications: b.embedded_data_specifications }, fs);
            match (a.input_variable, b.input_variable) {
                (Some(p), Some(q)) => {
                    lemma_element_unique(*p, *q, member(fs, "inputVariable"@)->Some_0);
                },
                _ => {},
            }
            match (a.output_variable, b.output_variable) {
                (Some(p), Some(q)) => {
                    lemma_element_unique(*p, *q, member(fs, "outputVariable"@)->Some_0);
                },
                _ => {},
            }
            match (a.inoutput_variable, b.inoutput_variable) {
                (Some(p), Some(q)) => {
                    lemma_element_unique(*p, *q, member(fs, "inoutputVariable"@)->Some_0);
                },
                _ => {},
            }
        },
        (SubmodelElement::SubmodelElementCollection(c), SubmodelElement::SubmodelElementCollection(d)) => {
            match (c.value, d.value) {
                (Some(v), Some(u)) => {
                    lemma_elements_unique(v@, u@, member(fs, "value"@)->Some_0->Array_0@);
                },
                _ => {},
            }
        },
        (SubmodelElement::SubmodelElementList(l), SubmodelElement::SubmodelElementList(m)) => {
            match (l.value, m.value) {
                (Some(v), Some(u)) => {
                    lemma_elements_unique(v@, u@, member(fs, "value"@)->Some_0->Array_0@);
                },
                _ => {},
            }
            lemma_opt_unique(l.semantic_id_list_element, m.semantic_id_list_element, member(fs, "semanticIdListElement"@));
            lemma_element_unique(*l.type_value_list_element, *m.type_value_list_element, member(fs, "typeValueListElement"@)->Some_0);
            lemma_req_unique(l.value_type_list_element, m.value_type_list_element, member(fs, "valueTypeListElement"@));
        },
        _ => {},
    }
}

/// The sequences of elements that the same array decodes to are alike.
pub proof fn lemma_elements_unique(v: Seq<SubmodelElement>, w: Seq<SubmodelElement>, a: Seq<Json>)
    requires
        elements_rel(v, a),
        elements_rel(w, a),
    ensures
        elements_equiv(v, w),
    decreases v,
{
    if v.len() > 0 {
        lemma_elements_unique(v.subrange(0, v.len() - 1), w.subrange(0, w.len() - 1), a.subrange(0, a.len() - 1));
        lemma_element_unique(v[v.len() - 1], w[w.len() - 1], a[a.len() - 1]);
    }
}

/// Encoding a submodel element and decoding the result gives back an alike
/// element: a collection keeps the kinds, content and order of its
/// elements and the nesting of the collections inside it. `j` is what
/// `to_json` writes for `e`; every `y` that `from_json` may give for `j`
/// satisfies `element_rel(y, j)`.
pub proof fn lemma_element_round_trip_alike(e: SubmodelElement, j: Json, y: SubmodelElement)
    requires
        element_wf(e),
        element_encoded(e, j),
        element_rel(y, j),
    ensures
        element_error(j) is None,
        element_equiv(y, e),
{
    lemma_element_round_trip(e, j);
    lemma_element_unique(y, e, j);
}

/// Every element of `v` has the `modelType` of `t`.
pub open spec fn all_of_type(v: Seq<SubmodelElement>, t: SubmodelElement) -> bool {
    forall|i: int| 0 <= i < v.len() ==> element_model_type(#[trigger] v[i]) == element_model_type(t)
}

impl SubmodelElementList {
    /// Whether every element of the list has the declared element type.
    pub fn elements_conform(&self) -> (r: bool)
        ensures
            r == match self.value {
                None => true,
                Some(v) => all_of_type(v@, *self.type_value_list_element),
            },
    {
        match &self.value {
            None => true,
            Some(v) => {
                let want = self.type_value_list_element.model_type();
                let mut i: usize = 0;
                while i < v.len()
                    invariant
                        self.value == Some(*v),
                        i <= v@.len(),
                        want@ == element_model_type(*self.type_value_list_element),
                        forall|p: int| 0 <= p < i ==> element_model_type(#[trigger] v@[p]) == want@,
                    decreases v@.len() - i,
                {
                    if !str_eq(v[i].model_type(), want) {
                        assert(element_model_type(v@[i as int]) != element_model_type(*self.type_value_list_element));
                        return false;
                    }
                    i += 1;
                }
                true
            },
        }
    }
}

impl JsonCodec for SubmodelElement {
    open spec fn wf(&self) -> bool {
        element_wf(*self)
    }

    open spec fn encoded(&self, j: Json) -> bool {
        element_encoded(*self, j)
    }

    open spec fn rel(&self, j: Json) -> bool {
        element_rel(*self, j)
    }

    open spec fn decode_error(j: Json) -> Option<DecodeError> {
        element_error(j)
    }

    open spec fn equiv(&self, o: &Self) -> bool {
        element_equiv(*self, *o)
    }

    fn encode(&self) -> (r: Json) {
        self.to_json()
    }

    fn decode(j: &Json) -> (r: Result<Self, DecodeError>) {
        SubmodelElement::from_json(j)
    }

    proof fn lemma_round_trip(&self, j: Json) {
        lemma_element_round_trip(*self, j);
    }

    proof fn lemma_unique(&self, o: &Self, j: Json) {
        lemma_element_unique(*self, *o, j);
    }
}

} // verus!
