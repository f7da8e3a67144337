use vstd::prelude::*;
use crate::codec::JsonCodec;
use crate::json::{Json, field};
use crate::elements::{
    Blob, Capability, File, MultiLanguageProperty, Property, ReferenceElement, RelationshipElement,
    BasicEventElement, BasicEventElementMeta, PropertyMeta, BlobMeta, FileMeta, MultiLanguagePropertyMeta,
    RelationshipElementMeta, AnnotatedRelationshipElementMeta, property_meta_encoded, blob_meta_encoded,
    file_meta_encoded, multi_language_property_meta_encoded, relationship_element_meta_encoded,
    annotated_relationship_element_meta_encoded, basic_event_element_meta_encoded,
};
use crate::annotated::AnnotatedRelationshipElement;
use crate::model::{
    Entity, Range, SubmodelElementCollection, DataElement, Operation, SubmodelElementList, SubmodelElement,
    range_value_type,
};
use crate::tree::element_encoded;
use crate::data_xsd::xsd_name;

verus! {

broadcast use vstd::string::group_string_axioms;

/// Errors of writing a view of an element.
#[derive(Debug, PartialEq, Eq, Clone, Copy, Structural)]
pub enum MetamodelError {
    /// The element has no metamodel view.
    MetamodelNotSupported,
    /// The element has no value-only view.
    ValueFormatNotSupported,
}

/// Writing the value-only view of an element.
pub trait ToJsonValue {
    fn to_json_value(&self) -> Result<Json, MetamodelError>;
}

/// Writing the metamodel view of an element: its type and attributes
/// without the values it holds. Writing it never fails.
pub trait ToJsonMetamodel {
    /// `j` is the metamodel view of `self`.
    spec fn metamodel_encoded(&self, j: Json) -> bool;

    /// Writes the metamodel view.
    fn to_json_metamodel(&self) -> (r: Result<Json, MetamodelError>)
        ensures
            r matches Ok(j) && self.metamodel_encoded(j),
    ;
}

impl ToJsonMetamodel for Property {
    /// The attributes of the property, without the value and its type.
    open spec fn metamodel_encoded(&self, j: Json) -> bool {
        j matches Json::Object(fs) && property_meta_encoded(PropertyMeta { referable: self.referable, semantics: self.semantics, qualifiable: self.qualifiable, embedded_data_specifications: self.embedded_data_specifications }, fs@)
    }

    fn to_json_metamodel(&self) -> (r: Result<Json, MetamodelError>) {
        Ok(Json::Object(self.metamodel_members()))
    }
}

impl ToJsonMetamodel for Blob {
    /// The attributes of the blob, without its value and content type.
    open spec fn metamodel_encoded(&self, j: Json) -> bool {
        j matches Json::Object(fs) && blob_meta_encoded(BlobMeta { referable: self.referable, semantics: self.semantics, qualifiable: self.qualifiable, embedded_data_specifications: self.embedded_data_specifications }, fs@)
    }

    fn to_json_metamodel(&self) -> (r: Result<Json, MetamodelError>) {
        Ok(Json::Object(self.metamodel_members()))
    }
}

impl ToJsonMetamodel for File {
    /// The attributes of the file element, without its path and content type.
    open spec fn metamodel_encoded(&self, j: Json) -> bool {
        j matches Json::Object(fs) && file_meta_encoded(FileMeta { referable: self.referable, semantics: self.semantics, qualifiable: self.qualifiable, embedded_data_specifications: self.embedded_data_specifications }, fs@)
    }

    fn to_json_metamodel(&self) -> (r: Result<Json, MetamodelError>) {
        Ok(Json::Object(self.metamodel_members()))
    }
}

impl ToJsonMetamodel for MultiLanguageProperty {
    /// The attributes of the property, without its texts and value id.
    open spec fn metamodel_encoded(&self, j: Json) -> bool {
        j matches Json::Object(fs) && multi_language_property_meta_encoded(MultiLanguagePropertyMeta { referable: self.referable, semantics: self.semantics, qualifiable: self.qualifiable, embedded_data_specifications: self.embedded_data_specifications }, fs@)
    }

    fn to_json_metamodel(&self) -> (r: Result<Json, MetamodelError>) {
        Ok(Json::Object(self.metamodel_members()))
    }
}

impl ToJsonMetamodel for RelationshipElement {
    /// The attributes of the relationship, without the related elements.
    open spec fn metamodel_encoded(&self, j: Json) -> bool {
        j matches Json::Object(fs) && relationship_element_meta_encoded(RelationshipElementMeta { submodel_element_fields: self.submodel_element_fields }, fs@)
    }

    fn to_json_metamodel(&self) -> (r: Result<Json, MetamodelError>) {
        Ok(Json::Object(self.metamodel_members()))
    }
}

impl ToJsonMetamodel for AnnotatedRelationshipElement {
    /// The attributes of the relationship, without the related elements and annotations.
    open spec fn metamodel_encoded(&self, j: Json) -> bool {
        j matches Json::Object(fs) && annotated_relationship_element_meta_encoded(AnnotatedRelationshipElementMeta { submodel_element_fields: self.submodel_element_fields }, fs@)
    }

    fn to_json_metamodel(&self) -> (r: Result<Json, MetamodelError>) {
        Ok(Json::Object(self.metamodel_members()))
    }
}

impl ToJsonMetamodel for BasicEventElement {
    /// The event element without the observed element.
    open spec fn metamodel_encoded(&self, j: Json) -> bool {
        j matches Json::Object(fs) && basic_event_element_meta_encoded(BasicEventElementMeta { submodel_element_fields: self.submodel_element_fields, direction: self.direction, state: self.state, message_topic: self.message_topic, message_broker: self.message_broker, last_update: self.last_update, min_interval: self.min_interval, max_interval: self.max_interval }, fs@)
    }

    fn to_json_metamodel(&self) -> (r: Result<Json, MetamodelError>) {
        Ok(Json::Object(self.metamodel_members()))
    }
}

impl ToJsonMetamodel for Capability {
    /// A capability holds no value: its view is its encoding.
    open spec fn metamodel_encoded(&self, j: Json) -> bool {
        self.encoded(j)
    }

    fn to_json_metamodel(&self) -> (r: Result<Json, MetamodelError>) {
        Ok(self.encode())
    }
}

impl ToJsonMetamodel for Operation {
    /// An operation holds no value of its own: its view is its encoding.
    open spec fn metamodel_encoded(&self, j: Json) -> bool {
        element_encoded(SubmodelElement::Operation(*self), j)
    }

    fn to_json_metamodel(&self) -> (r: Result<Json, MetamodelError>) {
        Ok(self.to_json())
    }
}

/// `j` is an object whose members are, in order, `modelType` with `name`
/// and the members of `rest`.
pub open spec fn tagged_object(j: Json, name: Seq<char>, rest: Seq<(Seq<char>, Seq<char>)>) -> bool {
    j matches Json::Object(fs) && fs@.len() == rest.len() + 1 && fs@[0].0@ == "modelType"@ && (
    fs@[0].1 matches Json::Str(t) && t@ == name) && forall|i: int|
        0 <= i < rest.len() ==> fs@[i + 1].0@ == (#[trigger] rest[i]).0 && (fs@[i + 1].1 matches Json::Str(
            t,
        ) && t@ == rest[i].1)
}

/// The object `{"modelType": <name>}`, followed by the string member `k` with
/// `v` when `k` is given.
fn tagged(name: &str, extra: Option<(&str, &str)>) -> (r: Json)
    ensures
        tagged_object(
            r,
            name@,
            match extra {
                None => Seq::<(Seq<char>, Seq<char>)>::empty(),
                Some(kv) => seq![(kv.0@, kv.1@)],
            },
        ),
{
    let mut fs: Vec<(String, Json)> = Vec::new();
    fs.push(field("modelType", Json::Str(name.to_string())));
    match extra {
        Some((k, v)) => fs.push(field(k, Json::Str(v.to_string()))),
        None => {},
    }
    Json::Object(fs)
}

impl ToJsonMetamodel for ReferenceElement {
    /// `{"modelType": "ReferenceElement"}`: the element without its reference.
    open spec fn metamodel_encoded(&self, j: Json) -> bool {
        tagged_object(j, "ReferenceElement"@, Seq::empty())
    }

    fn to_json_metamodel(&self) -> (r: Result<Json, MetamodelError>) {
        Ok(tagged("ReferenceElement", None))
    }
}

impl ToJsonMetamodel for SubmodelElementCollection {
    /// `{"modelType": "SubmodelElementCollection"}`: the collection without its elements.
    open spec fn metamodel_encoded(&self, j: Json) -> bool {
        tagged_object(j, "SubmodelElementCollection"@, Seq::empty())
    }

    fn to_json_metamodel(&self) -> (r: Result<Json, MetamodelError>) {
        Ok(tagged("SubmodelElementCollection", None))
    }
}

/// The wire name of the kind of an entity.
pub open spec fn entity_kind(e: Entity) -> Seq<char> {
    match e {
        Entity::CoManagedEntity(_) => "CoManagedEntity"@,
        Entity::SelfManagedEntity(_) => "SelfManagedEntity"@,
    }
}

impl ToJsonMetamodel for Entity {
    /// `{"modelType": "Entity", "entityType": <kind>}`: the entity without its statements and asset ids.
    open spec fn metamodel_encoded(&self, j: Json) -> bool {
        tagged_object(j, "Entity"@, seq![("entityType"@, entity_kind(*self))])
    }

    fn to_json_metamodel(&self) -> (r: Result<Json, MetamodelError>) {
        let kind = match self {
            Entity::CoManagedEntity(_) => "CoManagedEntity",
            Entity::SelfManagedEntity(_) => "SelfManagedEntity",
        };
        Ok(tagged("Entity", Some(("entityType", kind))))
    }
}

impl ToJsonMetamodel for Range {
    /// `{"modelType": "Range", "valueType": <type>}`: the range without its bounds.
    open spec fn metamodel_encoded(&self, j: Json) -> bool {
        tagged_object(j, "Range"@, seq![("valueType"@, xsd_name(range_value_type(*self)))])
    }

    fn to_json_metamodel(&self) -> (r: Result<Json, MetamodelError>) {
        Ok(tagged("Range", Some(("valueType", self.value_type().name()))))
    }
}

/// The members of `fs` other than those named `k`, in their order.
pub open spec fn drop_named(fs: Seq<(String, Json)>, k: Seq<char>) -> Seq<(String, Json)>
    decreases fs.len(),
{
    if fs.len() == 0 {
        fs
    } else {
        let p = drop_named(fs.drop_last(), k);
        if fs.last().0@ == k {
            p
        } else {
            p.push(fs.last())
        }
    }
}

/// The members of `fs` other than those named `name`, in their order.
fn without_member(fs: Vec<(String, Json)>, name: &str) -> (r: Vec<(String, Json)>)
    ensures
        r@ == drop_named(fs@, name@),
{
    let ghost orig = fs@;
    let mut out: Vec<(String, Json)> = Vec::new();
    let mut rest = fs;
    let n = rest.len();
    let mut i: usize = 0;
    assert(orig.subrange(0, 0) =~= Seq::<(String, Json)>::empty());
    assert(orig.subrange(0, n as int) =~= orig);
    while i < n
        invariant
            n == orig.len(),
            i <= n,
            rest@ == orig.subrange(i as int, n as int),
            out@ == drop_named(orig.subrange(0, i as int), name@),
        decreases n - i,
    {
        let f = rest.remove(0);
        proof {
            assert(f == orig[i as int]);
            assert(rest@ =~= orig.subrange(i + 1, n as int));
            assert(orig.subrange(0, i + 1).drop_last() =~= orig.subrange(0, i as int));
            assert(orig.subrange(0, i + 1).last() == orig[i as int]);
        }
        if !crate::text::str_eq(f.0.as_str(), name) {
            out.push(f);
        }
        i += 1;
    }
    assert(orig.subrange(0, n as int) =~= orig);
    out
}

/// `j` is the encoding of the list with the member `value` left out.
pub open spec fn list_meta_encoded(l: SubmodelElementList, j: Json) -> bool {
    j matches Json::Object(fs) && exists|full: Vec<(String, Json)>|
        #[trigger] element_encoded(SubmodelElement::SubmodelElementList(l), Json::Object(full)) && fs@
            == drop_named(full@, "value"@)
}

impl ToJsonMetamodel for SubmodelElementList {
    /// The members of the list's encoding, in order, without `value`.
    open spec fn metamodel_encoded(&self, j: Json) -> bool {
        list_meta_encoded(*self, j)
    }

    fn to_json_metamodel(&self) -> (r: Result<Json, MetamodelError>) {
        match self.to_json() {
            Json::Object(fs) => {
                let ghost full = fs;
                let kept = without_member(fs, "value");
                assert(element_encoded(SubmodelElement::SubmodelElementList(*self), Json::Object(full)));
                Ok(Json::Object(kept))
            },
            other => {
                assert(false);
                Ok(other)
            },
        }
    }
}

impl ToJsonMetamodel for DataElement {
    /// The view of the data element it holds.
    open spec fn metamodel_encoded(&self, j: Json) -> bool {
        match *self {
            DataElement::Blob(e) => e.metamodel_encoded(j),
            DataElement::File(e) => e.metamodel_encoded(j),
            DataElement::MultiLanguageProperty(e) => e.metamodel_encoded(j),
            DataElement::Property(e) => e.metamodel_encoded(j),
            DataElement::Range(e) => e.metamodel_encoded(j),
            DataElement::ReferenceElement(e) => e.metamodel_encoded(j),
        }
    }

    fn to_json_metamodel(&self) -> (r: Result<Json, MetamodelError>) {
        match self {
            DataElement::Blob(e) => e.to_json_metamodel(),
            DataElement::File(e) => e.to_json_metamodel(),
            DataElement::MultiLanguageProperty(e) => e.to_json_metamodel(),
            DataElement::Property(e) => e.to_json_metamodel(),
            DataElement::Range(e) => e.to_json_metamodel(),
            DataElement::ReferenceElement(e) => e.to_json_metamodel(),
        }
    }
}

impl ToJsonMetamodel for SubmodelElement {
    /// The view of the element of each kind.
    open spec fn metamodel_encoded(&self, j: Json) -> bool {
        match *self {
            SubmodelElement::RelationshipElement(e) => e.metamodel_encoded(j),
            SubmodelElement::AnnotatedRelationshipElement(e) => e.metamodel_encoded(j),
            SubmodelElement::BasicEventElement(e) => e.metamodel_encoded(j),
            SubmodelElement::Blob(e) => e.metamodel_encoded(j),
            SubmodelElement::Capability(e) => e.metamodel_encoded(j),
            SubmodelElement::DataElement(e) => e.metamodel_encoded(j),
            SubmodelElement::Entity(e) => e.metamodel_encoded(j),
            SubmodelElement::File(e) => e.metamodel_encoded(j),
            SubmodelElement::MultiLanguageProperty(e) => e.metamodel_encoded(j),
            SubmodelElement::Operation(e) => e.metamodel_encoded(j),
            SubmodelElement::Property(e) => e.metamodel_encoded(j),
            SubmodelElement::Range(e) => e.metamodel_encoded(j),
            SubmodelElement::ReferenceElement(e) => e.metamodel_encoded(j),
            SubmodelElement::SubmodelElementCollection(e) => e.metamodel_encoded(j),
            SubmodelElement::SubmodelElementList(e) => e.metamodel_encoded(j),
        }
    }

    fn to_json_metamodel(&self) -> (r: Result<Json, MetamodelError>) {
        match self {
            SubmodelElement::RelationshipElement(e) => e.to_json_metamodel(),
            SubmodelElement::AnnotatedRelationshipElement(e) => e.to_json_metamodel(),
            SubmodelElement::BasicEventElement(e) => e.to_json_metamodel(),
            SubmodelElement::Blob(e) => e.to_json_metamodel(),
            SubmodelElement::Capability(e) => e.to_json_metamodel(),
            SubmodelElement::DataElement(e) => e.to_json_metamodel(),
            SubmodelElement::Entity(e) => e.to_json_metamodel(),
            SubmodelElement::File(e) => e.to_json_metamodel(),
            SubmodelElement::MultiLanguageProperty(e) => e.to_json_metamodel(),
            SubmodelElement::Operation(e) => e.to_json_metamodel(),
            SubmodelElement::Property(e) => e.to_json_metamodel(),
            SubmodelElement::Range(e) => e.to_json_metamodel(),
            SubmodelElement::ReferenceElement(e) => e.to_json_metamodel(),
            SubmodelElement::SubmodelElementCollection(e) => e.to_json_metamodel(),
            SubmodelElement::SubmodelElementList(e) => e.to_json_metamodel(),
        }
    }
}

/// The metamodel view of a property does not depend on its value: two
/// properties with the same attributes have the same views.
pub proof fn lemma_property_view_ignores_value(p: Property, q: Property, j: Json)
    requires
        p.referable == q.referable,
        p.semantics == q.semantics,
        p.qualifiable == q.qualifiable,
        p.embedded_data_specifications == q.embedded_data_specifications,
    ensures
        p.metamodel_encoded(j) == q.metamodel_encoded(j),
{
}

} // verus!