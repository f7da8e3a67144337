use vstd::prelude::*;
use crate::json::{
    Json,
    DecodeError,
    member,
    get_member,
    field,
    lemma_lookup_skip,
    lemma_lookup_first,
};
use crate::text::str_eq;
use crate::codec::JsonCodec;

verus! {

broadcast use vstd::string::group_string_axioms;

/// One step of a reference: the kind of the element it names, and the
/// value that names it.
///
/// `GlobalReference` names an element outside the model by a globally
/// unique identifier; `FragmentReference` names a fragment inside the
/// element named by the keys before it; the other kinds name elements of
/// the model.
#[derive(Clone, Debug, PartialEq)]
pub enum Key {
    AnnotatedRelationshipElement(String),
    AssetAdministrationShell(String),
    BasicEventElement(String),
    Blob(String),
    Capability(String),
    ConceptDescription(String),
    DataElement(String),
    Entity(String),
    EventElement(String),
    File(String),
    FragmentReference(String),
    GlobalReference(String),
    Identifiable(String),
    MultiLanguageProperty(String),
    Operation(String),
    Property(String),
    Range(String),
    Referable(String),
    ReferenceElement(String),
    RelationshipElement(String),
    Submodel(String),
    SubmodelElement(String),
    SubmodelElementCollection(String),
    SubmodelElementList(String),
}

/// The wire name of the kind of a key.
pub open spec fn key_kind_name(k: Key) -> Seq<char> {
    match k {
        Key::AnnotatedRelationshipElement(_) => "AnnotatedRelationshipElement"@,
        Key::AssetAdministrationShell(_) => "AssetAdministrationShell"@,
        Key::BasicEventElement(_) => "BasicEventElement"@,
        Key::Blob(_) => "Blob"@,
        Key::Capability(_) => "Capability"@,
        Key::ConceptDescription(_) => "ConceptDescription"@,
        Key::DataElement(_) => "DataElement"@,
        Key::Entity(_) => "Entity"@,
        Key::EventElement(_) => "EventElement"@,
        Key::File(_) => "File"@,
        Key::FragmentReference(_) => "FragmentReference"@,
        Key::GlobalReference(_) => "GlobalReference"@,
        Key::Identifiable(_) => "Identifiable"@,
        Key::MultiLanguageProperty(_) => "MultiLanguageProperty"@,
        Key::Operation(_) => "Operation"@,
        Key::Property(_) => "Property"@,
        Key::Range(_) => "Range"@,
        Key::Referable(_) => "Referable"@,
        Key::ReferenceElement(_) => "ReferenceElement"@,
        Key::RelationshipElement(_) => "RelationshipElement"@,
        Key::Submodel(_) => "Submodel"@,
        Key::SubmodelElement(_) => "SubmodelElement"@,
        Key::SubmodelElementCollection(_) => "SubmodelElementCollection"@,
        Key::SubmodelElementList(_) => "SubmodelElementList"@,
    }
}

/// The index of the kind that a wire name denotes, if any.
pub open spec fn key_kind_index(s: Seq<char>) -> Option<int> {
    if s == "AnnotatedRelationshipElement"@ {
        Some(0)
    }
    else if s == "AssetAdministrationShell"@ {
        Some(1)
    }
    else if s == "BasicEventElement"@ {
        Some(2)
    }
    else if s == "Blob"@ {
        Some(3)
    }
    else if s == "Capability"@ {
        Some(4)
    }
    else if s == "ConceptDescription"@ {
        Some(5)
    }
    else if s == "DataElement"@ {
        Some(6)
    }
    else if s == "Entity"@ {
        Some(7)
    }
    else if s == "EventElement"@ {
        Some(8)
    }
    else if s == "File"@ {
        Some(9)
    }
    else if s == "FragmentReference"@ {
        Some(10)
    }
    else if s == "GlobalReference"@ {
        Some(11)
    }
    else if s == "Identifiable"@ {
        Some(12)
    }
    else if s == "MultiLanguageProperty"@ {
        Some(13)
    }
    else if s == "Operation"@ {
        Some(14)
    }
    else if s == "Property"@ {
        Some(15)
    }
    else if s == "Range"@ {
        Some(16)
    }
    else if s == "Referable"@ {
        Some(17)
    }
    else if s == "ReferenceElement"@ {
        Some(18)
    }
    else if s == "RelationshipElement"@ {
        Some(19)
    }
    else if s == "Submodel"@ {
        Some(20)
    }
    else if s == "SubmodelElement"@ {
        Some(21)
    }
    else if s == "SubmodelElementCollection"@ {
        Some(22)
    }
    else if s == "SubmodelElementList"@ {
        Some(23)
    }
 else {
        None
    }
}

/// The index of the kind of a key.
pub open spec fn key_index(k: Key) -> int {
    match k {
        Key::AnnotatedRelationshipElement(_) => 0,
        Key::AssetAdministrationShell(_) => 1,
        Key::BasicEventElement(_) => 2,
        Key::Blob(_) => 3,
        Key::Capability(_) => 4,
        Key::ConceptDescription(_) => 5,
        Key::DataElement(_) => 6,
        Key::Entity(_) => 7,
        Key::EventElement(_) => 8,
        Key::File(_) => 9,
        Key::FragmentReference(_) => 10,
        Key::GlobalReference(_) => 11,
        Key::Identifiable(_) => 12,
        Key::MultiLanguageProperty(_) => 13,
        Key::Operation(_) => 14,
        Key::Property(_) => 15,
        Key::Range(_) => 16,
        Key::Referable(_) => 17,
        Key::ReferenceElement(_) => 18,
        Key::RelationshipElement(_) => 19,
        Key::Submodel(_) => 20,
        Key::SubmodelElement(_) => 21,
        Key::SubmodelElementCollection(_) => 22,
        Key::SubmodelElementList(_) => 23,
    }
}

/// The value of a key.
pub open spec fn key_value(k: Key) -> String {
    match k {
        Key::AnnotatedRelationshipElement(v) => v,
        Key::AssetAdministrationShell(v) => v,
        Key::BasicEventElement(v) => v,
        Key::Blob(v) => v,
        Key::Capability(v) => v,
        Key::ConceptDescription(v) => v,
        Key::DataElement(v) => v,
        Key::Entity(v) => v,
        Key::EventElement(v) => v,
        Key::File(v) => v,
        Key::FragmentReference(v) => v,
        Key::GlobalReference(v) => v,
        Key::Identifiable(v) => v,
        Key::MultiLanguageProperty(v) => v,
        Key::Operation(v) => v,
        Key::Property(v) => v,
        Key::Range(v) => v,
        Key::Referable(v) => v,
        Key::ReferenceElement(v) => v,
        Key::RelationshipElement(v) => v,
        Key::Submodel(v) => v,
        Key::SubmodelElement(v) => v,
        Key::SubmodelElementCollection(v) => v,
        Key::SubmodelElementList(v) => v,
    }
}

/// Each kind is found again from its wire name.
pub proof fn lemma_key_kind_inverse(k: Key)
    ensures
        key_kind_index(key_kind_name(k)) == Some(key_index(k)),
{
    match k {
        Key::AnnotatedRelationshipElement(_) => {
            reveal_strlit("AnnotatedRelationshipElement");
            assert("AnnotatedRelationshipElement"@.len() == 28);
        },
        Key::AssetAdministrationShell(_) => {
            reveal_strlit("AssetAdministrationShell");
            assert("AssetAdministrationShell"@.len() == 24);
            reveal_strlit("AnnotatedRelationshipElement");
            assert("AnnotatedRelationshipElement"@.len() == 28);
        },
        Key::BasicEventElement(_) => {
            reveal_strlit("BasicEventElement");
            assert("BasicEventElement"@.len() == 17);
            reveal_strlit("AnnotatedRelationshipElement");
            assert("AnnotatedRelationshipElement"@.len() == 28);
            reveal_strlit("AssetAdministrationShell");
            assert("AssetAdministrationShell"@.len() == 24);
        },
        Key::Blob(_) => {
            reveal_strlit("Blob");
            assert("Blob"@.len() == 4);
            reveal_strlit("AnnotatedRelationshipElement");
            assert("AnnotatedRelationshipElement"@.len() == 28);
            reveal_strlit("AssetAdministrationShell");
            assert("AssetAdministrationShell"@.len() == 24);
            reveal_strlit("BasicEventElement");
            assert("BasicEventElement"@.len() == 17);
        },
        Key::Capability(_) => {
            reveal_strlit("Capability");
            assert("Capability"@.len() == 10);
            reveal_strlit("AnnotatedRelationshipElement");
            assert("AnnotatedRelationshipElement"@.len() == 28);
            reveal_strlit("AssetAdministrationShell");
            assert("AssetAdministrationShell"@.len() == 24);
            reveal_strlit("BasicEventElement");
            assert("BasicEventElement"@.len() == 17);
            reveal_strlit("Blob");
            assert("Blob"@.len() == 4);
        },
        Key::ConceptDescription(_) => {
            reveal_strlit("ConceptDescription");
            assert("ConceptDescription"@.len() == 18);
            reveal_strlit("AnnotatedRelationshipElement");
            assert("AnnotatedRelationshipElement"@.len() == 28);
            reveal_strlit("AssetAdministrationShell");
            assert("AssetAdministrationShell"@.len() == 24);
            reveal_strlit("BasicEventElement");
            assert("BasicEventElement"@.len() == 17);
            reveal_strlit("Blob");
            assert("Blob"@.len() == 4);
            reveal_strlit("Capability");
            assert("Capability"@.len() == 10);
        },
        Key::DataElement(_) => {
            reveal_strlit("DataElement");
            assert("DataElement"@.len() == 11);
            reveal_strlit("AnnotatedRelationshipElement");
            assert("AnnotatedRelationshipElement"@.len() == 28);
            reveal_strlit("AssetAdministrationShell");
            assert("AssetAdministrationShell"@.len() == 24);
            reveal_strlit("BasicEventElement");
            assert("BasicEventElement"@.len() == 17);
            reveal_strlit("Blob");
            assert("Blob"@.len() == 4);
            reveal_strlit("Capability");
            assert("Capability"@.len() == 10);
            reveal_strlit("ConceptDescription");
            assert("ConceptDescription"@.len() == 18);
        },
        Key::Entity(_) => {
            reveal_strlit("Entity");
            assert("Entity"@.len() == 6);
            reveal_strlit("AnnotatedRelationshipElement");
            assert("AnnotatedRelationshipElement"@.len() == 28);
            reveal_strlit("AssetAdministrationShell");
            assert("AssetAdministrationShell"@.len() == 24);
            reveal_strlit("BasicEventElement");
            assert("BasicEventElement"@.len() == 17);
            reveal_strlit("Blob");
            assert("Blob"@.len() == 4);
            reveal_strlit("Capability");
            assert("Capability"@.len() == 10);
            reveal_strlit("ConceptDescription");
            assert("ConceptDescription"@.len() == 18);
            reveal_strlit("DataElement");
            assert("DataElement"@.len() == 11);
        },
        Key::EventElement(_) => {
            reveal_strlit("EventElement");
            assert("EventElement"@.len() == 12);
            reveal_strlit("AnnotatedRelationshipElement");
            assert("AnnotatedRelationshipElement"@.len() == 28);
            reveal_strlit("AssetAdministrationShell");
            assert("AssetAdministrationShell"@.len() == 24);
            reveal_strlit("BasicEventElement");
            assert("BasicEventElement"@.len() == 17);
            reveal_strlit("Blob");
            assert("Blob"@.len() == 4);
            reveal_strlit("Capability");
            assert("Capability"@.len() == 10);
            reveal_strlit("ConceptDescription");
            assert("ConceptDescription"@.len() == 18);
            reveal_strlit("DataElement");
            assert("DataElement"@.len() == 11);
            reveal_strlit("Entity");
            assert("Entity"@.len() == 6);
        },
        Key::File(_) => {
            reveal_strlit("File");
            assert("File"@.len() == 4);
            reveal_strlit("AnnotatedRelationshipElement");
            assert("AnnotatedRelationshipElement"@.len() == 28);
            reveal_strlit("AssetAdministrationShell");
            assert("AssetAdministrationShell"@.len() == 24);
            reveal_strlit("BasicEventElement");
            assert("BasicEventElement"@.len() == 17);
            reveal_strlit("Blob");
            assert("File"@[0] != "Blob"@[0]);
            reveal_strlit("Capability");
            assert("Capability"@.len() == 10);
            reveal_strlit("ConceptDescription");
            assert("ConceptDescription"@.len() == 18);
            reveal_strlit("DataElement");
            assert("DataElement"@.len() == 11);
            reveal_strlit("Entity");
            assert("Entity"@.len() == 6);
            reveal_strlit("EventElement");
            assert("EventElement"@.len() == 12);
        },
        Key::FragmentReference(_) => {
            reveal_strlit("FragmentReference");
            assert("FragmentReference"@.len() == 17);
            reveal_strlit("AnnotatedRelationshipElement");
            assert("AnnotatedRelationshipElement"@.len() == 28);
            reveal_strlit("AssetAdministrationShell");
            assert("AssetAdministrationShell"@.len() == 24);
            reveal_strlit("BasicEventElement");
            assert("FragmentReference"@[0] != "BasicEventElement"@[0]);
            reveal_strlit("Blob");
            assert("Blob"@.len() == 4);
            reveal_strlit("Capability");
            assert("Capability"@.len() == 10);
            reveal_strlit("ConceptDescription");
            assert("ConceptDescription"@.len() == 18);
            reveal_strlit("DataElement");
            assert("DataElement"@.len() == 11);
            reveal_strlit("Entity");
            assert("Entity"@.len() == 6);
            reveal_strlit("EventElement");
            assert("EventElement"@.len() == 12);
            reveal_strlit("File");
            assert("File"@.len() == 4);
        },
        Key::GlobalReference(_) => {
            reveal_strlit("GlobalReference");
            assert("GlobalReference"@.len() == 15);
            reveal_strlit("AnnotatedRelationshipElement");
            assert("AnnotatedRelationshipElement"@.len() == 28);
            reveal_strlit("AssetAdministrationShell");
            assert("AssetAdministrationShell"@.len() == 24);
            reveal_strlit("BasicEventElement");
            assert("BasicEventElement"@.len() == 17);
            reveal_strlit("Blob");
            assert("Blob"@.len() == 4);
            reveal_strlit("Capability");
            assert("Capability"@.len() == 10);
            reveal_strlit("ConceptDescription");
            assert("ConceptDescription"@.len() == 18);
            reveal_strlit("DataElement");
            assert("DataElement"@.len() == 11);
            reveal_strlit("Entity");
            assert("Entity"@.len() == 6);
            reveal_strlit("EventElement");
            assert("EventElement"@.len() == 12);
            reveal_strlit("File");
            assert("File"@.len() == 4);
            reveal_strlit("FragmentReference");
            assert("FragmentReference"@.len() == 17);
        },
        Key::Identifiable(_) => {
            reveal_strlit("Identifiable");
            assert("Identifiable"@.len() == 12);
            reveal_strlit("AnnotatedRelationshipElement");
            assert("AnnotatedRelationshipElement"@.len() == 28);
            reveal_strlit("AssetAdministrationShell");
            assert("AssetAdministrationShell"@.len() == 24);
            reveal_strlit("BasicEventElement");
            assert("BasicEventElement"@.len() == 17);
            reveal_strlit("Blob");
            assert("Blob"@.len() == 4);
            reveal_strlit("Capability");
            assert("Capability"@.len() == 10);
            reveal_strlit("ConceptDescription");
            assert("ConceptDescription"@.len() == 18);
            reveal_strlit("DataElement");
            assert("DataElement"@.len() == 11);
            reveal_strlit("Entity");
            assert("Entity"@.len() == 6);
            reveal_strlit("EventElement");
            assert("Identifiable"@[0] != "EventElement"@[0]);
            reveal_strlit("File");
            assert("File"@.len() == 4);
            reveal_strlit("FragmentReference");
            assert("FragmentReference"@.len() == 17);
            reveal_strlit("GlobalReference");
            assert("GlobalReference"@.len() == 15);
        },
        Key::MultiLanguageProperty(_) => {
            reveal_strlit("MultiLanguageProperty");
            assert("MultiLanguageProperty"@.len() == 21);
            reveal_strlit("AnnotatedRelationshipElement");
            assert("AnnotatedRelationshipElement"@.len() == 28);
            reveal_strlit("AssetAdministrationShell");
            assert("AssetAdministrationShell"@.len() == 24);
            reveal_strlit("BasicEventElement");
            assert("BasicEventElement"@.len() == 17);
            reveal_strlit("Blob");
            assert("Blob"@.len() == 4);
            reveal_strlit("Capability");
            assert("Capability"@.len() == 10);
            reveal_strlit("ConceptDescription");
            assert("ConceptDescription"@.len() == 18);
            reveal_strlit("DataElement");
            assert("DataElement"@.len() == 11);
            reveal_strlit("Entity");
            assert("Entity"@.len() == 6);
            reveal_strlit("EventElement");
            assert("EventElement"@.len() == 12);
            reveal_strlit("File");
            assert("File"@.len() == 4);
            reveal_strlit("FragmentReference");
            assert("FragmentReference"@.len() == 17);
            reveal_strlit("GlobalReference");
            assert("GlobalReference"@.len() == 15);
            reveal_strlit("Identifiable");
            assert("Identifiable"@.len() == 12);
        },
        Key::Operation(_) => {
            reveal_strlit("Operation");
            assert("Operation"@.len() == 9);
            reveal_strlit("AnnotatedRelationshipElement");
            assert("AnnotatedRelationshipElement"@.len() == 28);
            reveal_strlit("AssetAdministrationShell");
            assert("AssetAdministrationShell"@.len() == 24);
            reveal_strlit("BasicEventElement");
            assert("BasicEventElement"@.len() == 17);
            reveal_strlit("Blob");
            assert("Blob"@.len() == 4);
            reveal_strlit("Capability");
            assert("Capability"@.len() == 10);
            reveal_strlit("ConceptDescription");
            assert("ConceptDescription"@.len() == 18);
            reveal_strlit("DataElement");
            assert("DataElement"@.len() == 11);
            reveal_strlit("Entity");
            assert("Entity"@.len() == 6);
            reveal_strlit("EventElement");
            assert("EventElement"@.len() == 12);
            reveal_strlit("File");
            assert("File"@.len() == 4);
            reveal_strlit("FragmentReference");
            assert("FragmentReference"@.len() == 17);
            reveal_strlit("GlobalReference");
            assert("GlobalReference"@.len() == 15);
            reveal_strlit("Identifiable");
            assert("Identifiable"@.len() == 12);
            reveal_strlit("MultiLanguageProperty");
            assert("MultiLanguageProperty"@.len() == 21);
        },
        Key::Property(_) => {
            reveal_strlit("Property");
            assert("Property"@.len() == 8);
            reveal_strlit("AnnotatedRelationshipElement");
            assert("AnnotatedRelationshipElement"@.len() == 28);
            reveal_strlit("AssetAdministrationShell");
            assert("AssetAdministrationShell"@.len() == 24);
            reveal_strlit("BasicEventElement");
            assert("BasicEventElement"@.len() == 17);
            reveal_strlit("Blob");
            assert("Blob"@.len() == 4);
            reveal_strlit("Capability");
            assert("Capability"@.len() == 10);
            reveal_strlit("ConceptDescription");
            assert("ConceptDescription"@.len() == 18);
            reveal_strlit("DataElement");
            assert("DataElement"@.len() == 11);
            reveal_strlit("Entity");
            assert("Entity"@.len() == 6);
            reveal_strlit("EventElement");
            assert("EventElement"@.len() == 12);
            reveal_strlit("File");
            assert("File"@.len() == 4);
            reveal_strlit("FragmentReference");
            assert("FragmentReference"@.len() == 17);
            reveal_strlit("GlobalReference");
            assert("GlobalReference"@.len() == 15);
            reveal_strlit("Identifiable");
            assert("Identifiable"@.len() == 12);
            reveal_strlit("MultiLanguageProperty");
            assert("MultiLanguageProperty"@.len() == 21);
            reveal_strlit("Operation");
            assert("Operation"@.len() == 9);
        },
        Key::Range(_) => {
            reveal_strlit("Range");
            assert("Range"@.len() == 5);
            reveal_strlit("AnnotatedRelationshipElement");
            assert("AnnotatedRelationshipElement"@.len() == 28);
            reveal_strlit("AssetAdministrationShell");
            assert("AssetAdministrationShell"@.len() == 24);
            reveal_strlit("BasicEventElement");
            assert("BasicEventElement"@.len() == 17);
            reveal_strlit("Blob");
            assert("Blob"@.len() == 4);
            reveal_strlit("Capability");
            assert("Capability"@.len() == 10);
            reveal_strlit("ConceptDescription");
            assert("ConceptDescription"@.len() == 18);
            reveal_strlit("DataElement");
            assert("DataElement"@.len() == 11);
            reveal_strlit("Entity");
            assert("Entity"@.len() == 6);
            reveal_strlit("EventElement");
            assert("EventElement"@.len() == 12);
            reveal_strlit("File");
            assert("File"@.len() == 4);
            reveal_strlit("FragmentReference");
            assert("FragmentReference"@.len() == 17);
            reveal_strlit("GlobalReference");
            assert("GlobalReference"@.len() == 15);
            reveal_strlit("Identifiable");
            assert("Identifiable"@.len() == 12);
            reveal_strlit("MultiLanguageProperty");
            assert("MultiLanguageProperty"@.len() == 21);
            reveal_strlit("Operation");
            assert("Operation"@.len() == 9);
            reveal_strlit("Property");
            assert("Property"@.len() == 8);
        },
        Key::Referable(_) => {
            reveal_strlit("Referable");
            assert("Referable"@.len() == 9);
            reveal_strlit("AnnotatedRelationshipElement");
            assert("AnnotatedRelationshipElement"@.len() == 28);
            reveal_strlit("AssetAdministrationShell");
            assert("AssetAdministrationShell"@.len() == 24);
            reveal_strlit("BasicEventElement");
            assert("BasicEventElement"@.len() == 17);
            reveal_strlit("Blob");
            assert("Blob"@.len() == 4);
            reveal_strlit("Capability");
            assert("Capability"@.len() == 10);
            reveal_strlit("ConceptDescription");
            assert("ConceptDescription"@.len() == 18);
            reveal_strlit("DataElement");
            assert("DataElement"@.len() == 11);
            reveal_strlit("Entity");
            assert("Entity"@.len() == 6);
            reveal_strlit("EventElement");
            assert("EventElement"@.len() == 12);
            reveal_strlit("File");
            assert("File"@.len() == 4);
            reveal_strlit("FragmentReference");
            assert("FragmentReference"@.len() == 17);
            reveal_strlit("GlobalReference");
            assert("GlobalReference"@.len() == 15);
            reveal_strlit("Identifiable");
            assert("Identifiable"@.len() == 12);
            reveal_strlit("MultiLanguageProperty");
            assert("MultiLanguageProperty"@.len() == 21);
            reveal_strlit("Operation");
            assert("Referable"@[0] != "Operation"@[0]);
            reveal_strlit("Property");
            assert("Property"@.len() == 8);
            reveal_strlit("Range");
            assert("Range"@.len() == 5);
        },
        Key::ReferenceElement(_) => {
            reveal_strlit("ReferenceElement");
            assert("ReferenceElement"@.len() == 16);
            reveal_strlit("AnnotatedRelationshipElement");
            assert("AnnotatedRelationshipElement"@.len() == 28);
            reveal_strlit("AssetAdministrationShell");
            assert("AssetAdministrationShell"@.len() == 24);
            reveal_strlit("BasicEventElement");
            assert("BasicEventElement"@.len() == 17);
            reveal_strlit("Blob");
            assert("Blob"@.len() == 4);
            reveal_strlit("Capability");
            assert("Capability"@.len() == 10);
            reveal_strlit("ConceptDescription");
            assert("ConceptDescription"@.len() == 18);
            reveal_strlit("DataElement");
            assert("DataElement"@.len() == 11);
            reveal_strlit("Entity");
            assert("Entity"@.len() == 6);
            reveal_strlit("EventElement");
            assert("EventElement"@.len() == 12);
            reveal_strlit("File");
            assert("File"@.len() == 4);
            reveal_strlit("FragmentReference");
            assert("FragmentReference"@.len() == 17);
            reveal_strlit("GlobalReference");
            assert("GlobalReference"@.len() == 15);
            reveal_strlit("Identifiable");
            assert("Identifiable"@.len() == 12);
            reveal_strlit("MultiLanguageProperty");
            assert("MultiLanguageProperty"@.len() == 21);
            reveal_strlit("Operation");
            assert("Operation"@.len() == 9);
            reveal_strlit("Property");
            assert("Property"@.len() == 8);
            reveal_strlit("Range");
            assert("Range"@.len() == 5);
            reveal_strlit("Referable");
            assert("Referable"@.len() == 9);
        },
        Key::RelationshipElement(_) => {
            reveal_strlit("RelationshipElement");
            assert("RelationshipElement"@.len() == 19);
            reveal_strlit("AnnotatedRelationshipElement");
            assert("AnnotatedRelationshipElement"@.len() == 28);
            reveal_strlit("AssetAdministrationShell");
            assert("AssetAdministrationShell"@.len() == 24);
            reveal_strlit("BasicEventElement");
            assert("BasicEventElement"@.len() == 17);
            reveal_strlit("Blob");
            assert("Blob"@.len() == 4);
            reveal_strlit("Capability");
            assert("Capability"@.len() == 10);
            reveal_strlit("ConceptDescription");
            assert("ConceptDescription"@.len() == 18);
            reveal_strlit("DataElement");
            assert("DataElement"@.len() == 11);
            reveal_strlit("Entity");
            assert("Entity"@.len() == 6);
            reveal_strlit("EventElement");
            assert("EventElement"@.len() == 12);
            reveal_strlit("File");
            assert("File"@.len() == 4);
            reveal_strlit("FragmentReference");
            assert("FragmentReference"@.len() == 17);
            reveal_strlit("GlobalReference");
            assert("GlobalReference"@.len() == 15);
            reveal_strlit("Identifiable");
            assert("Identifiable"@.len() == 12);
            reveal_strlit("MultiLanguageProperty");
            assert("MultiLanguageProperty"@.len() == 21);
            reveal_strlit("Operation");
            assert("Operation"@.len() == 9);
            reveal_strlit("Property");
            assert("Property"@.len() == 8);
            reveal_strlit("Range");
            assert("Range"@.len() == 5);
            reveal_strlit("Referable");
            assert("Referable"@.len() == 9);
            reveal_strlit("ReferenceElement");
            assert("ReferenceElement"@.len() == 16);
        },
        Key::Submodel(_) => {
            reveal_strlit("Submodel");
            assert("Submodel"@.len() == 8);
            reveal_strlit("AnnotatedRelationshipElement");
            assert("AnnotatedRelationshipElement"@.len() == 28);
            reveal_strlit("AssetAdministrationShell");
            assert("AssetAdministrationShell"@.len() == 24);
            reveal_strlit("BasicEventElement");
            assert("BasicEventElement"@.len() == 17);
            reveal_strlit("Blob");
            assert("Blob"@.len() == 4);
            reveal_strlit("Capability");
            assert("Capability"@.len() == 10);
            reveal_strlit("ConceptDescription");
            assert("ConceptDescription"@.len() == 18);
            reveal_strlit("DataElement");
            assert("DataElement"@.len() == 11);
            reveal_strlit("Entity");
            assert("Entity"@.len() == 6);
            reveal_strlit("EventElement");
            assert("EventElement"@.len() == 12);
            reveal_strlit("File");
            assert("File"@.len() == 4);
            reveal_strlit("FragmentReference");
            assert("FragmentReference"@.len() == 17);
            reveal_strlit("GlobalReference");
            assert("GlobalReference"@.len() == 15);
            reveal_strlit("Identifiable");
            assert("Identifiable"@.len() == 12);
            reveal_strlit("MultiLanguageProperty");
            assert("MultiLanguageProperty"@.len() == 21);
            reveal_strlit("Operation");
            assert("Operation"@.len() == 9);
            reveal_strlit("Property");
            assert("Submodel"@[0] != "Property"@[0]);
            reveal_strlit("Range");
            assert("Range"@.len() == 5);
            reveal_strlit("Referable");
            assert("Referable"@.len() == 9);
            reveal_strlit("ReferenceElement");
            assert("ReferenceElement"@.len() == 16);
            reveal_strlit("RelationshipElement");
            assert("RelationshipElement"@.len() == 19);
        },
        Key::SubmodelElement(_) => {
            reveal_strlit("SubmodelElement");
            assert("SubmodelElement"@.len() == 15);
            reveal_strlit("AnnotatedRelationshipElement");
            assert("AnnotatedRelationshipElement"@.len() == 28);
            reveal_strlit("AssetAdministrationShell");
            assert("AssetAdministrationShell"@.len() == 24);
            reveal_strlit("BasicEventElement");
            assert("BasicEventElement"@.len() == 17);
            reveal_strlit("Blob");
            assert("Blob"@.len() == 4);
            reveal_strlit("Capability");
            assert("Capability"@.len() == 10);
            reveal_strlit("ConceptDescription");
            assert("ConceptDescription"@.len() == 18);
            reveal_strlit("DataElement");
            assert("DataElement"@.len() == 11);
            reveal_strlit("Entity");
            assert("Entity"@.len() == 6);
            reveal_strlit("EventElement");
            assert("EventElement"@.len() == 12);
            reveal_strlit("File");
            assert("File"@.len() == 4);
            reveal_strlit("FragmentReference");
            assert("FragmentReference"@.len() == 17);
            reveal_strlit("GlobalReference");
            assert("SubmodelElement"@[0] != "GlobalReference"@[0]);
            reveal_strlit("Identifiable");
            assert("Identifiable"@.len() == 12);
            reveal_strlit("MultiLanguageProperty");
            assert("MultiLanguageProperty"@.len() == 21);
            reveal_strlit("Operation");
            assert("Operation"@.len() == 9);
            reveal_strlit("Property");
            assert("Property"@.len() == 8);
            reveal_strlit("Range");
            assert("Range"@.len() == 5);
            reveal_strlit("Referable");
            assert("Referable"@.len() == 9);
            reveal_strlit("ReferenceElement");
            assert("ReferenceElement"@.len() == 16);
            reveal_strlit("RelationshipElement");
            assert("RelationshipElement"@.len() == 19);
            reveal_strlit("Submodel");
            assert("Submodel"@.len() == 8);
        },
        Key::SubmodelElementCollection(_) => {
            reveal_strlit("SubmodelElementCollection");
            assert("SubmodelElementCollection"@.len() == 25);
            reveal_strlit("AnnotatedRelationshipElement");
            assert("AnnotatedRelationshipElement"@.len() == 28);
            reveal_strlit("AssetAdministrationShell");
            assert("AssetAdministrationShell"@.len() == 24);
            reveal_strlit("BasicEventElement");
            assert("BasicEventElement"@.len() == 17);
            reveal_strlit("Blob");
            assert("Blob"@.len() == 4);
            reveal_strlit("Capability");
            assert("Capability"@.len() == 10);
            reveal_strlit("ConceptDescription");
            assert("ConceptDescription"@.len() == 18);
            reveal_strlit("DataElement");
            assert("DataElement"@.len() == 11);
            reveal_strlit("Entity");
            assert("Entity"@.len() == 6);
            reveal_strlit("EventElement");
            assert("EventElement"@.len() == 12);
            reveal_strlit("File");
            assert("File"@.len() == 4);
            reveal_strlit("FragmentReference");
            assert("FragmentReference"@.len() == 17);
            reveal_strlit("GlobalReference");
            assert("GlobalReference"@.len() == 15);
            reveal_strlit("Identifiable");
            assert("Identifiable"@.len() == 12);
            reveal_strlit("MultiLanguageProperty");
            assert("MultiLanguageProperty"@.len() == 21);
            reveal_strlit("Operation");
            assert("Operation"@.len() == 9);
            reveal_strlit("Property");
            assert("Property"@.len() == 8);
            reveal_strlit("Range");
            assert("Range"@.len() == 5);
            reveal_strlit("Referable");
            assert("Referable"@.len() == 9);
            reveal_strlit("ReferenceElement");
            assert("ReferenceElement"@.len() == 16);
            reveal_strlit("RelationshipElement");
            assert("RelationshipElement"@.len() == 19);
            reveal_strlit("Submodel");
            assert("Submodel"@.len() == 8);
            reveal_strlit("SubmodelElement");
            assert("SubmodelElement"@.len() == 15);
        },
        Key::SubmodelElementList(_) => {
            reveal_strlit("SubmodelElementList");
            assert("SubmodelElementList"@.len() == 19);
            reveal_strlit("AnnotatedRelationshipElement");
            assert("AnnotatedRelationshipElement"@.len() == 28);
            reveal_strlit("AssetAdministrationShell");
            assert("AssetAdministrationShell"@.len() == 24);
            reveal_strlit("BasicEventElement");
            assert("BasicEventElement"@.len() == 17);
            reveal_strlit("Blob");
            assert("Blob"@.len() == 4);
            reveal_strlit("Capability");
            assert("Capability"@.len() == 10);
            reveal_strlit("ConceptDescription");
            assert("ConceptDescription"@.len() == 18);
            reveal_strlit("DataElement");
            assert("DataElement"@.len() == 11);
            reveal_strlit("Entity");
            assert("Entity"@.len() == 6);
            reveal_strlit("EventElement");
            assert("EventElement"@.len() == 12);
            reveal_strlit("File");
            assert("File"@.len() == 4);
            reveal_strlit("FragmentReference");
            assert("FragmentReference"@.len() == 17);
            reveal_strlit("GlobalReference");
            assert("GlobalReference"@.len() == 15);
            reveal_strlit("Identifiable");
            assert("Identifiable"@.len() == 12);
            reveal_strlit("MultiLanguageProperty");
            assert("MultiLanguageProperty"@.len() == 21);
            reveal_strlit("Operation");
            assert("Operation"@.len() == 9);
            reveal_strlit("Property");
            assert("Property"@.len() == 8);
            reveal_strlit("Range");
            assert("Range"@.len() == 5);
            reveal_strlit("Referable");
            assert("Referable"@.len() == 9);
            reveal_strlit("ReferenceElement");
            assert("ReferenceElement"@.len() == 16);
            reveal_strlit("RelationshipElement");
            assert("SubmodelElementList"@[0] != "RelationshipElement"@[0]);
            reveal_strlit("Submodel");
            assert("Submodel"@.len() == 8);
            reveal_strlit("SubmodelElement");
            assert("SubmodelElement"@.len() == 15);
            reveal_strlit("SubmodelElementCollection");
            assert("SubmodelElementCollection"@.len() == 25);
        },
    }
}

/// Keys of the same kind and value text are alike.
pub open spec fn key_equiv(a: Key, b: Key) -> bool {
    key_index(a) == key_index(b) && key_value(a)@ == key_value(b)@
}

/// `j` is what encoding writes for the key `k`.
pub open spec fn key_encoded(k: Key, j: Json) -> bool {
    j matches Json::Object(fs) && fs@.len() == 2 && fs@[0].0@ == "type"@ && (fs@[0].1 matches Json::Str(
        t,
    ) && t@ == key_kind_name(k)) && fs@[1].0@ == "value"@ && (fs@[1].1 matches Json::Str(v) && v@
        == key_value(k)@)
}

/// `j` decodes to the key `k`.
pub open spec fn key_rel(k: Key, j: Json) -> bool {
    j matches Json::Object(fs) && (member(fs@, "type"@) matches Some(Json::Str(t)) && t@
        == key_kind_name(k)) && (member(fs@, "value"@) matches Some(Json::Str(v)) && v@ == key_value(
        k,
    )@)
}

/// The error, if any, of decoding `j` as a key.
pub open spec fn key_error(j: Json) -> Option<DecodeError> {
    match j {
        Json::Object(fs) => match member(fs@, "type"@) {
            None => Some(DecodeError::MissingField),
            Some(Json::Str(t)) => if key_kind_index(t@) is None {
                Some(DecodeError::UnknownDiscriminator)
            } else {
                match member(fs@, "value"@) {
                    None => Some(DecodeError::MissingField),
                    Some(Json::Str(_)) => None,
                    Some(_) => Some(DecodeError::UnexpectedKind),
                }
            },
            Some(_) => Some(DecodeError::UnexpectedKind),
        },
        _ => Some(DecodeError::UnexpectedKind),
    }
}

impl Key {
    /// The wire name of the kind of the key.
    pub fn kind_name(&self) -> (r: &'static str)
        ensures
            r@ == key_kind_name(*self),
    {
        match self {
            Key::AnnotatedRelationshipElement(_) => "AnnotatedRelationshipElement",
            Key::AssetAdministrationShell(_) => "AssetAdministrationShell",
            Key::BasicEventElement(_) => "BasicEventElement",
            Key::Blob(_) => "Blob",
            Key::Capability(_) => "Capability",
            Key::ConceptDescription(_) => "ConceptDescription",
            Key::DataElement(_) => "DataElement",
            Key::Entity(_) => "Entity",
            Key::EventElement(_) => "EventElement",
            Key::File(_) => "File",
            Key::FragmentReference(_) => "FragmentReference",
            Key::GlobalReference(_) => "GlobalReference",
            Key::Identifiable(_) => "Identifiable",
            Key::MultiLanguageProperty(_) => "MultiLanguageProperty",
            Key::Operation(_) => "Operation",
            Key::Property(_) => "Property",
            Key::Range(_) => "Range",
            Key::Referable(_) => "Referable",
            Key::ReferenceElement(_) => "ReferenceElement",
            Key::RelationshipElement(_) => "RelationshipElement",
            Key::Submodel(_) => "Submodel",
            Key::SubmodelElement(_) => "SubmodelElement",
            Key::SubmodelElementCollection(_) => "SubmodelElementCollection",
            Key::SubmodelElementList(_) => "SubmodelElementList",
        }
    }

    /// The value of the key.
    pub fn value(&self) -> (r: &String)
        ensures
            *r == key_value(*self),
    {
        match self {
            Key::AnnotatedRelationshipElement(v) => v,
            Key::AssetAdministrationShell(v) => v,
            Key::BasicEventElement(v) => v,
            Key::Blob(v) => v,
            Key::Capability(v) => v,
            Key::ConceptDescription(v) => v,
            Key::DataElement(v) => v,
            Key::Entity(v) => v,
            Key::EventElement(v) => v,
            Key::File(v) => v,
            Key::FragmentReference(v) => v,
            Key::GlobalReference(v) => v,
            Key::Identifiable(v) => v,
            Key::MultiLanguageProperty(v) => v,
            Key::Operation(v) => v,
            Key::Property(v) => v,
            Key::Range(v) => v,
            Key::Referable(v) => v,
            Key::ReferenceElement(v) => v,
            Key::RelationshipElement(v) => v,
            Key::Submodel(v) => v,
            Key::SubmodelElement(v) => v,
            Key::SubmodelElementCollection(v) => v,
            Key::SubmodelElementList(v) => v,
        }
    }

    /// The key of the kind named `kind` with the value `value`, if `kind`
    /// names a kind.
    pub fn from_parts(kind: &str, value: String) -> (r: Option<Key>)
        ensures
            match key_kind_index(kind@) {
                None => r is None,
                Some(i) => r matches Some(k) && key_index(k) == i && key_value(k) == value
                    && key_kind_name(k) == kind@,
            },
    {
        if str_eq(kind, "AnnotatedRelationshipElement") {
            Some(Key::AnnotatedRelationshipElement(value))
        }
        else if str_eq(kind, "AssetAdministrationShell") {
            Some(Key::AssetAdministrationShell(value))
        }
        else if str_eq(kind, "BasicEventElement") {
            Some(Key::BasicEventElement(value))
        }
        else if str_eq(kind, "Blob") {
            Some(Key::Blob(value))
        }
        else if str_eq(kind, "Capability") {
            Some(Key::Capability(value))
        }
        else if str_eq(kind, "ConceptDescription") {
            Some(Key::ConceptDescription(value))
        }
        else if str_eq(kind, "DataElement") {
            Some(Key::DataElement(value))
        }
        else if str_eq(kind, "Entity") {
            Some(Key::Entity(value))
        }
        else if str_eq(kind, "EventElement") {
            Some(Key::EventElement(value))
        }
        else if str_eq(kind, "File") {
            Some(Key::File(value))
        }
        else if str_eq(kind, "FragmentReference") {
            Some(Key::FragmentReference(value))
        }
        else if str_eq(kind, "GlobalReference") {
            Some(Key::GlobalReference(value))
        }
        else if str_eq(kind, "Identifiable") {
            Some(Key::Identifiable(value))
        }
        else if str_eq(kind, "MultiLanguageProperty") {
            Some(Key::MultiLanguageProperty(value))
        }
        else if str_eq(kind, "Operation") {
            Some(Key::Operation(value))
        }
        else if str_eq(kind, "Property") {
            Some(Key::Property(value))
        }
        else if str_eq(kind, "Range") {
            Some(Key::Range(value))
        }
        else if str_eq(kind, "Referable") {
            Some(Key::Referable(value))
        }
        else if str_eq(kind, "ReferenceElement") {
            Some(Key::ReferenceElement(value))
        }
        else if str_eq(kind, "RelationshipElement") {
            Some(Key::RelationshipElement(value))
        }
        else if str_eq(kind, "Submodel") {
            Some(Key::Submodel(value))
        }
        else if str_eq(kind, "SubmodelElement") {
            Some(Key::SubmodelElement(value))
        }
        else if str_eq(kind, "SubmodelElementCollection") {
            Some(Key::SubmodelElementCollection(value))
        }
        else if str_eq(kind, "SubmodelElementList") {
            Some(Key::SubmodelElementList(value))
        }
 else {
            None
        }
    }

    /// A copy of the key.
    pub fn clone_key(&self) -> (r: Key)
        ensures
            key_equiv(r, *self),
            key_kind_name(r) == key_kind_name(*self),
    {
        match self {
            Key::AnnotatedRelationshipElement(v) => Key::AnnotatedRelationshipElement(v.clone()),
            Key::AssetAdministrationShell(v) => Key::AssetAdministrationShell(v.clone()),
            Key::BasicEventElement(v) => Key::BasicEventElement(v.clone()),
            Key::Blob(v) => Key::Blob(v.clone()),
            Key::Capability(v) => Key::Capability(v.clone()),
            Key::ConceptDescription(v) => Key::ConceptDescription(v.clone()),
            Key::DataElement(v) => Key::DataElement(v.clone()),
            Key::Entity(v) => Key::Entity(v.clone()),
            Key::EventElement(v) => Key::EventElement(v.clone()),
            Key::File(v) => Key::File(v.clone()),
            Key::FragmentReference(v) => Key::FragmentReference(v.clone()),
            Key::GlobalReference(v) => Key::GlobalReference(v.clone()),
            Key::Identifiable(v) => Key::Identifiable(v.clone()),
            Key::MultiLanguageProperty(v) => Key::MultiLanguageProperty(v.clone()),
            Key::Operation(v) => Key::Operation(v.clone()),
            Key::Property(v) => Key::Property(v.clone()),
            Key::Range(v) => Key::Range(v.clone()),
            Key::Referable(v) => Key::Referable(v.clone()),
            Key::ReferenceElement(v) => Key::ReferenceElement(v.clone()),
            Key::RelationshipElement(v) => Key::RelationshipElement(v.clone()),
            Key::Submodel(v) => Key::Submodel(v.clone()),
            Key::SubmodelElement(v) => Key::SubmodelElement(v.clone()),
            Key::SubmodelElementCollection(v) => Key::SubmodelElementCollection(v.clone()),
            Key::SubmodelElementList(v) => Key::SubmodelElementList(v.clone()),
        }
    }

    /// The object `{"type": <kind>, "value": <value>}`.
    pub fn to_json(&self) -> (r: Json)
        ensures
            key_encoded(*self, r),
    {
        let mut fs: Vec<(String, Json)> = Vec::new();
        fs.push(field("type", Json::Str(self.kind_name().to_string())));
        fs.push(field("value", Json::Str(self.value().clone())));
        Json::Object(fs)
    }

    /// Decodes a key from `{"type": <kind>, "value": <value>}`.
    pub fn from_json(j: &Json) -> (r: Result<Key, DecodeError>)
        ensures
            match key_error(*j) {
                Some(e) => r == Err::<Key, DecodeError>(e),
                None => r matches Ok(k) && key_rel(k, *j),
            },
    {
        let fs = match j {
            Json::Object(fs) => fs,
            _ => return Err(DecodeError::UnexpectedKind),
        };
        let t = match get_member(fs, "type") {
            None => return Err(DecodeError::MissingField),
            Some(Json::Str(t)) => t,
            Some(_) => return Err(DecodeError::UnexpectedKind),
        };
        if Key::from_parts(t.as_str(), String::new()).is_none() {
            return Err(DecodeError::UnknownDiscriminator);
        }
        let v = match get_member(fs, "value") {
            None => return Err(DecodeError::MissingField),
            Some(Json::Str(v)) => v.clone(),
            Some(_) => return Err(DecodeError::UnexpectedKind),
        };
        match Key::from_parts(t.as_str(), v) {
            Some(k) => Ok(k),
            None => Err(DecodeError::UnknownDiscriminator),
        }
    }
}

/// What encoding writes for a key decodes to that key.
pub proof fn lemma_key_encoded_rel(k: Key, j: Json)
    requires
        key_encoded(k, j),
    ensures
        key_error(j) is None,
        key_rel(k, j),
{
    reveal_strlit("type");
    reveal_strlit("value");
    assert("type"@.len() == 4);
    assert("value"@.len() == 5);
    lemma_key_kind_inverse(k);
    let fs = j->Object_0@;
    assert(fs =~= seq![fs[0]] + fs.drop_first());
    lemma_lookup_first(fs.drop_first(), fs[0]);
    lemma_lookup_skip(fs.drop_first(), fs[0], "value"@);
    assert(fs.drop_first() =~= seq![fs[1]] + fs.drop_first().drop_first());
    lemma_lookup_first(fs.drop_first().drop_first(), fs[1]);
}

impl JsonCodec for Key {
    open spec fn wf(&self) -> bool {
        true
    }

    open spec fn encoded(&self, j: Json) -> bool {
        key_encoded(*self, j)
    }

    open spec fn rel(&self, j: Json) -> bool {
        key_rel(*self, j)
    }

    open spec fn decode_error(j: Json) -> Option<DecodeError> {
        key_error(j)
    }

    open spec fn equiv(&self, o: &Self) -> bool {
        key_equiv(*self, *o)
    }

    fn encode(&self) -> (r: Json) {
        self.to_json()
    }

    fn decode(j: &Json) -> (r: Result<Self, DecodeError>) {
        Key::from_json(j)
    }

    proof fn lemma_round_trip(&self, j: Json) {
        lemma_key_encoded_rel(*self, j);
    }

    proof fn lemma_unique(&self, o: &Self, j: Json) {
        lemma_key_rel_unique(*self, *o, j);
    }
}

/// Keys that the same object decodes to are alike.
pub proof fn lemma_key_rel_unique(a: Key, b: Key, j: Json)
    requires
        key_rel(a, j),
        key_rel(b, j),
    ensures
        key_equiv(a, b),
{
    lemma_key_kind_inverse(a);
    lemma_key_kind_inverse(b);
}

} // verus!
