use vstd::prelude::*;
use crate::json::{Json, DecodeError, lookup, member, get_member, field};
use crate::codec::{
    JsonCodec,
    names_within,
    opt_encoded,
    opt_rel,
    opt_error,
    opt_wf,
    opt_equiv,
    push_opt,
    decode_opt,
    lemma_opt_round_trip,
    lemma_opt_unique,
    lemma_lookup_push,
    lemma_names_within_push,
    lemma_names_within_weaken,
    lemma_names_within_empty,
    lemma_names_within_concat,
    lemma_lookup_outside,
};
use crate::json::lemma_lookup_concat;
use crate::reference::Reference;
use crate::elements::{
    Blob,
    File,
    MultiLanguageProperty,
    Property,
    ReferenceElement,
    SubmodelElementFields,
    AnnotatedRelationshipElementMeta,
    submodel_element_fields_name,
    submodel_element_fields_lookups,
    submodel_element_fields_rel,
    submodel_element_fields_error,
    submodel_element_fields_wf,
    submodel_element_fields_equiv,
    lemma_submodel_element_fields_round_trip,
    lemma_submodel_element_fields_unique,
};
use crate::model::{Range, DataElement};
use crate::text::str_eq;

verus! {

broadcast use vstd::string::group_string_axioms;

/// The member name of the kind of a data element.
pub open spec fn data_element_name(x: DataElement) -> Seq<char> {
    match x {
        DataElement::Blob(_) => "Blob"@,
        DataElement::File(_) => "File"@,
        DataElement::MultiLanguageProperty(_) => "MultiLanguageProperty"@,
        DataElement::Property(_) => "Property"@,
        DataElement::Range(_) => "Range"@,
        DataElement::ReferenceElement(_) => "ReferenceElement"@,
    }
}

/// A name of the kinds of data element.
pub open spec fn data_element_kind_name(n: Seq<char>) -> bool {
    n == "Blob"@ || n == "File"@ || n == "MultiLanguageProperty"@ || n == "Property"@ || n == "Range"@ || n == "ReferenceElement"@
}

/// Looking up the kinds in `fs` finds what encoding writes for `x`: the one
/// member named by its kind, holding its content.
pub open spec fn data_element_lookups(x: DataElement, fs: Seq<(String, Json)>) -> bool {
    match x {
        DataElement::Blob(e) => (lookup(fs, "Blob"@) matches Some(j) && e.encoded(j)) && lookup(fs, "File"@) is None && lookup(fs, "MultiLanguageProperty"@) is None && lookup(fs, "Property"@) is None && lookup(fs, "Range"@) is None && lookup(fs, "ReferenceElement"@) is None,
        DataElement::File(e) => (lookup(fs, "File"@) matches Some(j) && e.encoded(j)) && lookup(fs, "Blob"@) is None && lookup(fs, "MultiLanguageProperty"@) is None && lookup(fs, "Property"@) is None && lookup(fs, "Range"@) is None && lookup(fs, "ReferenceElement"@) is None,
        DataElement::MultiLanguageProperty(e) => (lookup(fs, "MultiLanguageProperty"@) matches Some(j) && e.encoded(j)) && lookup(fs, "Blob"@) is None && lookup(fs, "File"@) is None && lookup(fs, "Property"@) is None && lookup(fs, "Range"@) is None && lookup(fs, "ReferenceElement"@) is None,
        DataElement::Property(e) => (lookup(fs, "Property"@) matches Some(j) && e.encoded(j)) && lookup(fs, "Blob"@) is None && lookup(fs, "File"@) is None && lookup(fs, "MultiLanguageProperty"@) is None && lookup(fs, "Range"@) is None && lookup(fs, "ReferenceElement"@) is None,
        DataElement::Range(e) => (lookup(fs, "Range"@) matches Some(j) && e.encoded(j)) && lookup(fs, "Blob"@) is None && lookup(fs, "File"@) is None && lookup(fs, "MultiLanguageProperty"@) is None && lookup(fs, "Property"@) is None && lookup(fs, "ReferenceElement"@) is None,
        DataElement::ReferenceElement(e) => (lookup(fs, "ReferenceElement"@) matches Some(j) && e.encoded(j)) && lookup(fs, "Blob"@) is None && lookup(fs, "File"@) is None && lookup(fs, "MultiLanguageProperty"@) is None && lookup(fs, "Property"@) is None && lookup(fs, "Range"@) is None,
    }
}

/// The members of `fs` decode to `x`: the first kind present names it.
pub open spec fn data_element_rel(x: DataElement, fs: Seq<(String, Json)>) -> bool {
    match x {
        DataElement::Blob(e) => (member(fs, "Blob"@) matches Some(j) && e.rel(j)),
        DataElement::File(e) => member(fs, "Blob"@) is None && (member(fs, "File"@) matches Some(j) && e.rel(j)),
        DataElement::MultiLanguageProperty(e) => member(fs, "Blob"@) is None && member(fs, "File"@) is None && (member(fs, "MultiLanguageProperty"@) matches Some(j) && e.rel(j)),
        DataElement::Property(e) => member(fs, "Blob"@) is None && member(fs, "File"@) is None && member(fs, "MultiLanguageProperty"@) is None && (member(fs, "Property"@) matches Some(j) && e.rel(j)),
        DataElement::Range(e) => member(fs, "Blob"@) is None && member(fs, "File"@) is None && member(fs, "MultiLanguageProperty"@) is None && member(fs, "Property"@) is None && (member(fs, "Range"@) matches Some(j) && e.rel(j)),
        DataElement::ReferenceElement(e) => member(fs, "Blob"@) is None && member(fs, "File"@) is None && member(fs, "MultiLanguageProperty"@) is None && member(fs, "Property"@) is None && member(fs, "Range"@) is None && (member(fs, "ReferenceElement"@) matches Some(j) && e.rel(j)),
    }
}

/// The error, if any, of decoding a data element from the members `fs`.
pub open spec fn data_element_error(fs: Seq<(String, Json)>) -> Option<DecodeError> {
    if member(fs, "Blob"@) is Some {
        Blob::decode_error(member(fs, "Blob"@)->Some_0)
    }
    else if member(fs, "File"@) is Some {
        File::decode_error(member(fs, "File"@)->Some_0)
    }
    else if member(fs, "MultiLanguageProperty"@) is Some {
        MultiLanguageProperty::decode_error(member(fs, "MultiLanguageProperty"@)->Some_0)
    }
    else if member(fs, "Property"@) is Some {
        Property::decode_error(member(fs, "Property"@)->Some_0)
    }
    else if member(fs, "Range"@) is Some {
        Range::decode_error(member(fs, "Range"@)->Some_0)
    }
    else if member(fs, "ReferenceElement"@) is Some {
        ReferenceElement::decode_error(member(fs, "ReferenceElement"@)->Some_0)
    }
 else {
        Some(DecodeError::MissingField)
    }
}

impl DataElement {
    /// Writes the one member named by the kind, holding the content.
    pub fn encode_members(&self) -> (r: Vec<(String, Json)>)
        ensures
            names_within(r@, |n: Seq<char>| data_element_kind_name(n)),
            data_element_lookups(*self, r@),
    {
        proof {
            reveal_strlit("Blob");
            reveal_strlit("File");
            reveal_strlit("MultiLanguageProperty");
            reveal_strlit("Property");
            reveal_strlit("Range");
            reveal_strlit("ReferenceElement");
            assert("Blob"@[0] != "File"@[0]);
            assert("Blob"@.len() == 4 && "MultiLanguageProperty"@.len() == 21);
            assert("Blob"@.len() == 4 && "Property"@.len() == 8);
            assert("Blob"@.len() == 4 && "Range"@.len() == 5);
            assert("Blob"@.len() == 4 && "ReferenceElement"@.len() == 16);
            assert("File"@[0] != "Blob"@[0]);
            assert("File"@.len() == 4 && "MultiLanguageProperty"@.len() == 21);
            assert("File"@.len() == 4 && "Property"@.len() == 8);
            assert("File"@.len() == 4 && "Range"@.len() == 5);
            assert("File"@.len() == 4 && "ReferenceElement"@.len() == 16);
            assert("MultiLanguageProperty"@.len() == 21 && "Blob"@.len() == 4);
            assert("MultiLanguageProperty"@.len() == 21 && "File"@.len() == 4);
            assert("MultiLanguageProperty"@.len() == 21 && "Property"@.len() == 8);
            assert("MultiLanguageProperty"@.len() == 21 && "Range"@.len() == 5);
            assert("MultiLanguageProperty"@.len() == 21 && "ReferenceElement"@.len() == 16);
            assert("Property"@.len() == 8 && "Blob"@.len() == 4);
            assert("Property"@.len() == 8 && "File"@.len() == 4);
            assert("Property"@.len() == 8 && "MultiLanguageProperty"@.len() == 21);
            assert("Property"@.len() == 8 && "Range"@.len() == 5);
            assert("Property"@.len() == 8 && "ReferenceElement"@.len() == 16);
            assert("Range"@.len() == 5 && "Blob"@.len() == 4);
            assert("Range"@.len() == 5 && "File"@.len() == 4);
            assert("Range"@.len() == 5 && "MultiLanguageProperty"@.len() == 21);
            assert("Range"@.len() == 5 && "Property"@.len() == 8);
            assert("Range"@.len() == 5 && "ReferenceElement"@.len() == 16);
            assert("ReferenceElement"@.len() == 16 && "Blob"@.len() == 4);
            assert("ReferenceElement"@.len() == 16 && "File"@.len() == 4);
            assert("ReferenceElement"@.len() == 16 && "MultiLanguageProperty"@.len() == 21);
            assert("ReferenceElement"@.len() == 16 && "Property"@.len() == 8);
            assert("ReferenceElement"@.len() == 16 && "Range"@.len() == 5);
        }
        let (name, j): (&str, Json) = match self {
            DataElement::Blob(e) => ("Blob", e.encode()),
            DataElement::File(e) => ("File", e.encode()),
            DataElement::MultiLanguageProperty(e) => ("MultiLanguageProperty", e.encode()),
            DataElement::Property(e) => ("Property", e.encode()),
            DataElement::Range(e) => ("Range", e.encode()),
            DataElement::ReferenceElement(e) => ("ReferenceElement", e.encode()),
        };
        let mut fs: Vec<(String, Json)> = Vec::new();
        fs.push(field(name, j));
        proof {
            assert(fs@ == Seq::<(String, Json)>::empty().push(fs@[0]));
            lemma_lookup_push(Seq::<(String, Json)>::empty(), fs@[0], "Blob"@);
            lemma_lookup_push(Seq::<(String, Json)>::empty(), fs@[0], "File"@);
            lemma_lookup_push(Seq::<(String, Json)>::empty(), fs@[0], "MultiLanguageProperty"@);
            lemma_lookup_push(Seq::<(String, Json)>::empty(), fs@[0], "Property"@);
            lemma_lookup_push(Seq::<(String, Json)>::empty(), fs@[0], "Range"@);
            lemma_lookup_push(Seq::<(String, Json)>::empty(), fs@[0], "ReferenceElement"@);
            lemma_names_within_push(Seq::<(String, Json)>::empty(), fs@[0], |n: Seq<char>| data_element_kind_name(n));
        }
        fs
    }

    /// Reads a data element: the first kind present among the members names it.
    pub fn decode_members(fs: &Vec<(String, Json)>) -> (r: Result<DataElement, DecodeError>)
        ensures
            match data_element_error(fs@) {
                Some(e) => r == Err::<DataElement, DecodeError>(e),
                None => r matches Ok(x) && data_element_rel(x, fs@),
            },
    {
        match get_member(fs, "Blob") {
            Some(j) => {
                return match Blob::decode(j) {
                    Ok(e) => Ok(DataElement::Blob(e)),
                    Err(e) => Err(e),
                };
            },
            None => {},
        }
        match get_member(fs, "File") {
            Some(j) => {
                return match File::decode(j) {
                    Ok(e) => Ok(DataElement::File(e)),
                    Err(e) => Err(e),
                };
            },
            None => {},
        }
        match get_member(fs, "MultiLanguageProperty") {
            Some(j) => {
                return match MultiLanguageProperty::decode(j) {
                    Ok(e) => Ok(DataElement::MultiLanguageProperty(e)),
                    Err(e) => Err(e),
                };
            },
            None => {},
        }
        match get_member(fs, "Property") {
            Some(j) => {
                return match Property::decode(j) {
                    Ok(e) => Ok(DataElement::Property(e)),
                    Err(e) => Err(e),
                };
            },
            None => {},
        }
        match get_member(fs, "Range") {
            Some(j) => {
                return match Range::decode(j) {
                    Ok(e) => Ok(DataElement::Range(e)),
                    Err(e) => Err(e),
                };
            },
            None => {},
        }
        match get_member(fs, "ReferenceElement") {
            Some(j) => {
                return match ReferenceElement::decode(j) {
                    Ok(e) => Ok(DataElement::ReferenceElement(e)),
                    Err(e) => Err(e),
                };
            },
            None => {},
        }
        Err(DecodeError::MissingField)
    }
}

/// The content of a data element is well-formed.
pub open spec fn data_element_wf(x: DataElement) -> bool {
    match x {
        DataElement::Blob(e) => e.wf(),
        DataElement::File(e) => e.wf(),
        DataElement::MultiLanguageProperty(e) => e.wf(),
        DataElement::Property(e) => e.wf(),
        DataElement::Range(e) => e.wf(),
        DataElement::ReferenceElement(e) => e.wf(),
    }
}

/// Members found as encoding writes them decode to the data element,
/// whatever other members stand beside them.
pub proof fn lemma_data_element_members_round_trip(x: DataElement, fs: Seq<(String, Json)>)
    requires
        data_element_wf(x),
        data_element_lookups(x, fs),
    ensures
        data_element_error(fs) is None,
        data_element_rel(x, fs),
{
    match x {
        DataElement::Blob(e) => e.lemma_round_trip(lookup(fs, "Blob"@)->Some_0),
        DataElement::File(e) => e.lemma_round_trip(lookup(fs, "File"@)->Some_0),
        DataElement::MultiLanguageProperty(e) => e.lemma_round_trip(lookup(fs, "MultiLanguageProperty"@)->Some_0),
        DataElement::Property(e) => e.lemma_round_trip(lookup(fs, "Property"@)->Some_0),
        DataElement::Range(e) => e.lemma_round_trip(lookup(fs, "Range"@)->Some_0),
        DataElement::ReferenceElement(e) => e.lemma_round_trip(lookup(fs, "ReferenceElement"@)->Some_0),
    }
}

/// The data elements that the same members decode to are alike.
pub proof fn lemma_data_element_members_unique(x: DataElement, y: DataElement, fs: Seq<(String, Json)>)
    requires
        data_element_rel(x, fs),
        data_element_rel(y, fs),
    ensures
        x.equiv(&y),
{
    match (x, y) {
        (DataElement::Blob(a), DataElement::Blob(b)) => a.lemma_unique(&b, member(fs, "Blob"@)->Some_0),
        (DataElement::File(a), DataElement::File(b)) => a.lemma_unique(&b, member(fs, "File"@)->Some_0),
        (DataElement::MultiLanguageProperty(a), DataElement::MultiLanguageProperty(b)) => a.lemma_unique(&b, member(fs, "MultiLanguageProperty"@)->Some_0),
        (DataElement::Property(a), DataElement::Property(b)) => a.lemma_unique(&b, member(fs, "Property"@)->Some_0),
        (DataElement::Range(a), DataElement::Range(b)) => a.lemma_unique(&b, member(fs, "Range"@)->Some_0),
        (DataElement::ReferenceElement(a), DataElement::ReferenceElement(b)) => a.lemma_unique(&b, member(fs, "ReferenceElement"@)->Some_0),
        _ => {},
    }
}

impl JsonCodec for DataElement {
    open spec fn wf(&self) -> bool {
        data_element_wf(*self)
    }

    open spec fn encoded(&self, j: Json) -> bool {
        j matches Json::Object(fs) && names_within(fs@, |n: Seq<char>| data_element_kind_name(n))
            && data_element_lookups(*self, fs@)
    }

    open spec fn rel(&self, j: Json) -> bool {
        j matches Json::Object(fs) && data_element_rel(*self, fs@)
    }

    open spec fn decode_error(j: Json) -> Option<DecodeError> {
        match j {
            Json::Object(fs) => data_element_error(fs@),
            _ => Some(DecodeError::UnexpectedKind),
        }
    }

    open spec fn equiv(&self, o: &Self) -> bool {
        match (*self, *o) {
            (DataElement::Blob(a), DataElement::Blob(b)) => a.equiv(&b),
            (DataElement::File(a), DataElement::File(b)) => a.equiv(&b),
            (DataElement::MultiLanguageProperty(a), DataElement::MultiLanguageProperty(b)) => a.equiv(&b),
            (DataElement::Property(a), DataElement::Property(b)) => a.equiv(&b),
            (DataElement::Range(a), DataElement::Range(b)) => a.equiv(&b),
            (DataElement::ReferenceElement(a), DataElement::ReferenceElement(b)) => a.equiv(&b),
            _ => false,
        }
    }

    fn encode(&self) -> (r: Json) {
        Json::Object(self.encode_members())
    }

    fn decode(j: &Json) -> (r: Result<Self, DecodeError>) {
        match j {
            Json::Object(fs) => DataElement::decode_members(fs),
            _ => Err(DecodeError::UnexpectedKind),
        }
    }

    proof fn lemma_round_trip(&self, j: Json) {
        lemma_data_element_members_round_trip(*self, j->Object_0@);
    }

    proof fn lemma_unique(&self, o: &Self, j: Json) {
        lemma_data_element_members_unique(*self, *o, j->Object_0@);
    }
}

/// An element relating two other elements, with annotations.
#[derive(Clone, Debug, PartialEq)]
pub struct AnnotatedRelationshipElement {
    pub submodel_element_fields: SubmodelElementFields,
    pub first: Option<Reference>,
    pub second: Option<Reference>,
    pub annotations: Option<Vec<DataElement>>,
}

/// A name of the members of `AnnotatedRelationshipElement`.
pub open spec fn annotated_relationship_element_name(n: Seq<char>) -> bool {
    n == "modelType"@ || submodel_element_fields_name(n) || n == "first"@ || n == "second"@ || n == "annotations"@
}

/// Looking up the members of `AnnotatedRelationshipElement` in `fs` finds what encoding writes for `x`.
pub open spec fn annotated_relationship_element_lookups(x: AnnotatedRelationshipElement, fs: Seq<(String, Json)>) -> bool {
    &&& lookup(fs, "modelType"@) matches Some(Json::Str(t)) && t@ == "AnnotatedRelationshipElement"@
    &&& submodel_element_fields_lookups(x.submodel_element_fields, fs)
    &&& opt_encoded(x.first, lookup(fs, "first"@))
    &&& opt_encoded(x.second, lookup(fs, "second"@))
    &&& opt_encoded(x.annotations, lookup(fs, "annotations"@))
}

/// `fs` are the members that encoding writes for `x`.
pub open spec fn annotated_relationship_element_encoded(x: AnnotatedRelationshipElement, fs: Seq<(String, Json)>) -> bool {
    &&& names_within(fs, |n: Seq<char>| annotated_relationship_element_name(n))
    &&& annotated_relationship_element_lookups(x, fs)
}

/// The members of `fs` decode to `x`.
pub open spec fn annotated_relationship_element_rel(x: AnnotatedRelationshipElement, fs: Seq<(String, Json)>) -> bool {
    &&& member(fs, "modelType"@) matches Some(Json::Str(t)) && t@ == "AnnotatedRelationshipElement"@
    &&& submodel_element_fields_rel(x.submodel_element_fields, fs)
    &&& opt_rel(x.first, member(fs, "first"@))
    &&& opt_rel(x.second, member(fs, "second"@))
    &&& opt_rel(x.annotations, member(fs, "annotations"@))
}

/// The error, if any, of decoding the members of `AnnotatedRelationshipElement` from `fs`.
pub open spec fn annotated_relationship_element_error(fs: Seq<(String, Json)>) -> Option<DecodeError> {
    match member(fs, "modelType"@) {
        None => Some(DecodeError::MissingField),
        Some(Json::Str(t)) => if t@ == "AnnotatedRelationshipElement"@ {
            match submodel_element_fields_error(fs) {
                Some(e) => Some(e),
                None => {
                    match opt_error::<Reference>(member(fs, "first"@)) {
                        Some(e) => Some(e),
                        None => {
                            match opt_error::<Reference>(member(fs, "second"@)) {
                                Some(e) => Some(e),
                                None => {
                                    match opt_error::<Vec<DataElement>>(member(fs, "annotations"@)) {
                                        Some(e) => Some(e),
                                        None => {
                                            None
                                        },
                                    }
                                },
                            }
                        },
                    }
                },
            }
        } else {
            Some(DecodeError::UnknownDiscriminator)
        },
        Some(_) => Some(DecodeError::UnexpectedKind),
    }
}

/// The values of `x` are well-formed.
pub open spec fn annotated_relationship_element_wf(x: AnnotatedRelationshipElement) -> bool {
    &&& submodel_element_fields_wf(x.submodel_element_fields)
    &&& opt_wf(x.first)
    &&& opt_wf(x.second)
    &&& opt_wf(x.annotations)
}

/// `x` and `y` hold the same content.
pub open spec fn annotated_relationship_element_equiv(x: AnnotatedRelationshipElement, y: AnnotatedRelationshipElement) -> bool {
    &&& submodel_element_fields_equiv(x.submodel_element_fields, y.submodel_element_fields)
    &&& opt_equiv(x.first, y.first)
    &&& opt_equiv(x.second, y.second)
    &&& opt_equiv(x.annotations, y.annotations)
}

impl AnnotatedRelationshipElement {
    /// Writes the members of the value, absent ones left out.
    #[verifier::rlimit(100)]
    #[verifier::spinoff_prover]
    pub fn encode_members(&self) -> (r: Vec<(String, Json)>)
        ensures
            annotated_relationship_element_encoded(*self, r@),
    {
        proof {
            reveal_strlit("modelType");
            reveal_strlit("idShort");
            reveal_strlit("displayName");
            reveal_strlit("description");
            reveal_strlit("category");
            reveal_strlit("extensions");
            reveal_strlit("semanticId");
            reveal_strlit("supplementalSemanticIds");
            reveal_strlit("qualifiers");
            reveal_strlit("embeddedDataSpecifications");
            reveal_strlit("first");
            reveal_strlit("second");
            reveal_strlit("annotations");
            assert("modelType"@.len() == 9 && "idShort"@.len() == 7);
            assert("modelType"@.len() == 9 && "displayName"@.len() == 11);
            assert("modelType"@.len() == 9 && "description"@.len() == 11);
            assert("modelType"@.len() == 9 && "category"@.len() == 8);
            assert("modelType"@.len() == 9 && "extensions"@.len() == 10);
            assert("modelType"@.len() == 9 && "semanticId"@.len() == 10);
            assert("modelType"@.len() == 9 && "supplementalSemanticIds"@.len() == 23);
            assert("modelType"@.len() == 9 && "qualifiers"@.len() == 10);
            assert("modelType"@.len() == 9 && "embeddedDataSpecifications"@.len() == 26);
            assert("modelType"@.len() == 9 && "first"@.len() == 5);
            assert("modelType"@.len() == 9 && "second"@.len() == 6);
            assert("modelType"@.len() == 9 && "annotations"@.len() == 11);
            assert("idShort"@.len() == 7 && "modelType"@.len() == 9);
            assert("idShort"@.len() == 7 && "displayName"@.len() == 11);
            assert("idShort"@.len() == 7 && "description"@.len() == 11);
            assert("idShort"@.len() == 7 && "category"@.len() == 8);
            assert("idShort"@.len() == 7 && "extensions"@.len() == 10);
            assert("idShort"@.len() == 7 && "semanticId"@.len() == 10);
            assert("idShort"@.len() == 7 && "supplementalSemanticIds"@.len() == 23);
            assert("idShort"@.len() == 7 && "qualifiers"@.len() == 10);
            assert("idShort"@.len() == 7 && "embeddedDataSpecifications"@.len() == 26);
            assert("idShort"@.len() == 7 && "first"@.len() == 5);
            assert("idShort"@.len() == 7 && "second"@.len() == 6);
            assert("idShort"@.len() == 7 && "annotations"@.len() == 11);
            assert("displayName"@.len() == 11 && "modelType"@.len() == 9);
            assert("displayName"@.len() == 11 && "idShort"@.len() == 7);
            assert("displayName"@[1] != "description"@[1]);
            assert("displayName"@.len() == 11 && "category"@.len() == 8);
            assert("displayName"@.len() == 11 && "extensions"@.len() == 10);
            assert("displayName"@.len() == 11 && "semanticId"@.len() == 10);
            assert("displayName"@.len() == 11 && "supplementalSemanticIds"@.len() == 23);
            assert("displayName"@.len() == 11 && "qualifiers"@.len() == 10);
            assert("displayName"@.len() == 11 && "embeddedDataSpecifications"@.len() == 26);
            assert("displayName"@.len() == 11 && "first"@.len() == 5);
            assert("displayName"@.len() == 11 && "second"@.len() == 6);
            assert("displayName"@[0] != "annotations"@[0]);
            assert("description"@.len() == 11 && "modelType"@.len() == 9);
            assert("description"@.len() == 11 && "idShort"@.len() == 7);
            assert("description"@[1] != "displayName"@[1]);
            assert("description"@.len() == 11 && "category"@.len() == 8);
            assert("description"@.len() == 11 && "extensions"@.len() == 10);
            assert("description"@.len() == 11 && "semanticId"@.len() == 10);
            assert("description"@.len() == 11 && "supplementalSemanticIds"@.len() == 23);
            assert("description"@.len() == 11 && "qualifiers"@.len() == 10);
            assert("description"@.len() == 11 && "embeddedDataSpecifications"@.len() == 26);
            assert("description"@.len() == 11 && "first"@.len() == 5);
            assert("description"@.len() == 11 && "second"@.len() == 6);
            assert("description"@[0] != "annotations"@[0]);
            assert("category"@.len() == 8 && "modelType"@.len() == 9);
            assert("category"@.len() == 8 && "idShort"@.len() == 7);
            assert("category"@.len() == 8 && "displayName"@.len() == 11);
            assert("category"@.len() == 8 && "description"@.len() == 11);
            assert("category"@.len() == 8 && "extensions"@.len() == 10);
            assert("category"@.len() == 8 && "semanticId"@.len() == 10);
            assert("category"@.len() == 8 && "supplementalSemanticIds"@.len() == 23);
            assert("category"@.len() == 8 && "qualifiers"@.len() == 10);
            assert("category"@.len() == 8 && "embeddedDataSpecifications"@.len() == 26);
            assert("category"@.len() == 8 && "first"@.len() == 5);
            assert("category"@.len() == 8 && "second"@.len() == 6);
            assert("category"@.len() == 8 && "annotations"@.len() == 11);
            assert("extensions"@.len() == 10 && "modelType"@.len() == 9);
            assert("extensions"@.len() == 10 && "idShort"@.len() == 7);
            assert("extensions"@.len() == 10 && "displayName"@.len() == 11);
            assert("extensions"@.len() == 10 && "description"@.len() == 11);
            assert("extensions"@.len() == 10 && "category"@.len() == 8);
            assert("extensions"@[0] != "semanticId"@[0]);
            assert("extensions"@.len() == 10 && "supplementalSemanticIds"@.len() == 23);
            assert("extensions"@[0] != "qualifiers"@[0]);
            assert("extensions"@.len() == 10 && "embeddedDataSpecifications"@.len() == 26);
            assert("extensions"@.len() == 10 && "first"@.len() == 5);
            assert("extensions"@.len() == 10 && "second"@.len() == 6);
            assert("extensions"@.len() == 10 && "annotations"@.len() == 11);
            assert("semanticId"@.len() == 10 && "modelType"@.len() == 9);
            assert("semanticId"@.len() == 10 && "idShort"@.len() == 7);
            assert("semanticId"@.len() == 10 && "displayName"@.len() == 11);
            assert("semanticId"@.len() == 10 && "description"@.len() == 11);
            assert("semanticId"@.len() == 10 && "category"@.len() == 8);
            assert("semanticId"@[0] != "extensions"@[0]);
            assert("semanticId"@.len() == 10 && "supplementalSemanticIds"@.len() == 23);
            assert("semanticId"@[0] != "qualifiers"@[0]);
            assert("semanticId"@.len() == 10 && "embeddedDataSpecifications"@.len() == 26);
            assert("semanticId"@.len() == 10 && "first"@.len() == 5);
            assert("semanticId"@.len() == 10 && "second"@.len() == 6);
            assert("semanticId"@.len() == 10 && "annotations"@.len() == 11);
            assert("supplementalSemanticIds"@.len() == 23 && "modelType"@.len() == 9);
            assert("supplementalSemanticIds"@.len() == 23 && "idShort"@.len() == 7);
            assert("supplementalSemanticIds"@.len() == 23 && "displayName"@.len() == 11);
            assert("supplementalSemanticIds"@.len() == 23 && "description"@.len() == 11);
            assert("supplementalSemanticIds"@.len() == 23 && "category"@.len() == 8);
            assert("supplementalSemanticIds"@.len() == 23 && "extensions"@.len() == 10);
            assert("supplementalSemanticIds"@.len() == 23 && "semanticId"@.len() == 10);
            assert("supplementalSemanticIds"@.len() == 23 && "qualifiers"@.len() == 10);
            assert("supplementalSemanticIds"@.len() == 23 && "embeddedDataSpecifications"@.len() == 26);
            assert("supplementalSemanticIds"@.len() == 23 && "first"@.len() == 5);
            assert("supplementalSemanticIds"@.len() == 23 && "second"@.len() == 6);
            assert("supplementalSemanticIds"@.len() == 23 && "annotations"@.len() == 11);
            assert("qualifiers"@.len() == 10 && "modelType"@.len() == 9);
            assert("qualifiers"@.len() == 10 && "idShort"@.len() == 7);
            assert("qualifiers"@.len() == 10 && "displayName"@.len() == 11);
            assert("qualifiers"@.len() == 10 && "description"@.len() == 11);
            assert("qualifiers"@.len() == 10 && "category"@.len() == 8);
            assert("qualifiers"@[0] != "extensions"@[0]);
            assert("qualifiers"@[0] != "semanticId"@[0]);
            assert("qualifiers"@.len() == 10 && "supplementalSemanticIds"@.len() == 23);
            assert("qualifiers"@.len() == 10 && "embeddedDataSpecifications"@.len() == 26);
            assert("qualifiers"@.len() == 10 && "first"@.len() == 5);
            assert("qualifiers"@.len() == 10 && "second"@.len() == 6);
            assert("qualifiers"@.len() == 10 && "annotations"@.len() == 11);
            assert("embeddedDataSpecifications"@.len() == 26 && "modelType"@.len() == 9);
            assert("embeddedDataSpecifications"@.len() == 26 && "idShort"@.len() == 7);
            assert("embeddedDataSpecifications"@.len() == 26 && "displayName"@.len() == 11);
            assert("embeddedDataSpecifications"@.len() == 26 && "description"@.len() == 11);
            assert("embeddedDataSpecifications"@.len() == 26 && "category"@.len() == 8);
            assert("embeddedDataSpecifications"@.len() == 26 && "extensions"@.len() == 10);
            assert("embeddedDataSpecifications"@.len() == 26 && "semanticId"@.len() == 10);
            assert("embeddedDataSpecifications"@.len() == 26 && "supplementalSemanticIds"@.len() == 23);
            assert("embeddedDataSpecifications"@.len() == 26 && "qualifiers"@.len() == 10);
            assert("embeddedDataSpecifications"@.len() == 26 && "first"@.len() == 5);
            assert("embeddedDataSpecifications"@.len() == 26 && "second"@.len() == 6);
            assert("embeddedDataSpecifications"@.len() == 26 && "annotations"@.len() == 11);
            assert("first"@.len() == 5 && "modelType"@.len() == 9);
            assert("first"@.len() == 5 && "idShort"@.len() == 7);
            assert("first"@.len() == 5 && "displayName"@.len() == 11);
            assert("first"@.len() == 5 && "description"@.len() == 11);
            assert("first"@.len() == 5 && "category"@.len() == 8);
            assert("first"@.len() == 5 && "extensions"@.len() == 10);
            assert("first"@.len() == 5 && "semanticId"@.len() == 10);
            assert("first"@.len() == 5 && "supplementalSemanticIds"@.len() == 23);
            assert("first"@.len() == 5 && "qualifiers"@.len() == 10);
            assert("first"@.len() == 5 && "embeddedDataSpecifications"@.len() == 26);
            assert("first"@.len() == 5 && "second"@.len() == 6);
            assert("first"@.len() == 5 && "annotations"@.len() == 11);
            assert("second"@.len() == 6 && "modelType"@.len() == 9);
            assert("second"@.len() == 6 && "idShort"@.len() == 7);
            assert("second"@.len() == 6 && "displayName"@.len() == 11);
            assert("second"@.len() == 6 && "description"@.len() == 11);
            assert("second"@.len() == 6 && "category"@.len() == 8);
            assert("second"@.len() == 6 && "extensions"@.len() == 10);
            assert("second"@.len() == 6 && "semanticId"@.len() == 10);
            assert("second"@.len() == 6 && "supplementalSemanticIds"@.len() == 23);
            assert("second"@.len() == 6 && "qualifiers"@.len() == 10);
            assert("second"@.len() == 6 && "embeddedDataSpecifications"@.len() == 26);
            assert("second"@.len() == 6 && "first"@.len() == 5);
            assert("second"@.len() == 6 && "annotations"@.len() == 11);
            assert("annotations"@.len() == 11 && "modelType"@.len() == 9);
            assert("annotations"@.len() == 11 && "idShort"@.len() == 7);
            assert("annotations"@[0] != "displayName"@[0]);
            assert("annotations"@[0] != "description"@[0]);
            assert("annotations"@.len() == 11 && "category"@.len() == 8);
            assert("annotations"@.len() == 11 && "extensions"@.len() == 10);
            assert("annotations"@.len() == 11 && "semanticId"@.len() == 10);
            assert("annotations"@.len() == 11 && "supplementalSemanticIds"@.len() == 23);
            assert("annotations"@.len() == 11 && "qualifiers"@.len() == 10);
            assert("annotations"@.len() == 11 && "embeddedDataSpecifications"@.len() == 26);
            assert("annotations"@.len() == 11 && "first"@.len() == 5);
            assert("annotations"@.len() == 11 && "second"@.len() == 6);
        }
        let mut fs: Vec<(String, Json)> = Vec::new();
        let ghost prev = fs@;
        fs.push(field("modelType", Json::Str("AnnotatedRelationshipElement".to_string())));
        proof {
            lemma_names_within_empty(prev, |n: Seq<char>| n == "modelType"@);
            if true {
                assert(fs@ == prev.push(fs@.last()));
                lemma_names_within_push(prev, fs@.last(), |n: Seq<char>| n == "modelType"@);
                lemma_lookup_push(prev, fs@.last(), "modelType"@);
            }
        }
        let ghost prev = fs@;
        let mut part = self.submodel_element_fields.encode_members();
        let ghost sp = part@;
        fs.append(&mut part);
        proof {
            lemma_names_within_concat(prev, sp, |n: Seq<char>| n == "modelType"@, |n: Seq<char>| submodel_element_fields_name(n), |n: Seq<char>| n == "modelType"@ || submodel_element_fields_name(n));
            lemma_lookup_concat(prev, sp, "modelType"@);
            lemma_lookup_outside(sp, |n: Seq<char>| submodel_element_fields_name(n), "modelType"@);
            lemma_lookup_concat(prev, sp, "idShort"@);
            lemma_lookup_outside(prev, |n: Seq<char>| n == "modelType"@, "idShort"@);
            lemma_lookup_concat(prev, sp, "displayName"@);
            lemma_lookup_outside(prev, |n: Seq<char>| n == "modelType"@, "displayName"@);
            lemma_lookup_concat(prev, sp, "description"@);
            lemma_lookup_outside(prev, |n: Seq<char>| n == "modelType"@, "description"@);
            lemma_lookup_concat(prev, sp, "category"@);
            lemma_lookup_outside(prev, |n: Seq<char>| n == "modelType"@, "category"@);
            lemma_lookup_concat(prev, sp, "extensions"@);
            lemma_lookup_outside(prev, |n: Seq<char>| n == "modelType"@, "extensions"@);
            lemma_lookup_concat(prev, sp, "semanticId"@);
            lemma_lookup_outside(prev, |n: Seq<char>| n == "modelType"@, "semanticId"@);
            lemma_lookup_concat(prev, sp, "supplementalSemanticIds"@);
            lemma_lookup_outside(prev, |n: Seq<char>| n == "modelType"@, "supplementalSemanticIds"@);
            lemma_lookup_concat(prev, sp, "qualifiers"@);
            lemma_lookup_outside(prev, |n: Seq<char>| n == "modelType"@, "qualifiers"@);
            lemma_lookup_concat(prev, sp, "embeddedDataSpecifications"@);
            lemma_lookup_outside(prev, |n: Seq<char>| n == "modelType"@, "embeddedDataSpecifications"@);
        }
        let ghost prev = fs@;
        push_opt(&mut fs, "first", &self.first);
        proof {
            lemma_names_within_weaken(prev, |n: Seq<char>| n == "modelType"@ || submodel_element_fields_name(n), |n: Seq<char>| n == "modelType"@ || submodel_element_fields_name(n) || n == "first"@);
            lemma_lookup_outside(prev, |n: Seq<char>| n == "modelType"@ || submodel_element_fields_name(n), "first"@);
            if self.first is Some {
                assert(fs@ == prev.push(fs@.last()));
                lemma_names_within_push(prev, fs@.last(), |n: Seq<char>| n == "modelType"@ || submodel_element_fields_name(n) || n == "first"@);
                lemma_lookup_push(prev, fs@.last(), "modelType"@);
                lemma_lookup_push(prev, fs@.last(), "idShort"@);
                lemma_lookup_push(prev, fs@.last(), "displayName"@);
                lemma_lookup_push(prev, fs@.last(), "description"@);
                lemma_lookup_push(prev, fs@.last(), "category"@);
                lemma_lookup_push(prev, fs@.last(), "extensions"@);
                lemma_lookup_push(prev, fs@.last(), "semanticId"@);
                lemma_lookup_push(prev, fs@.last(), "supplementalSemanticIds"@);
                lemma_lookup_push(prev, fs@.last(), "qualifiers"@);
                lemma_lookup_push(prev, fs@.last(), "embeddedDataSpecifications"@);
                lemma_lookup_push(prev, fs@.last(), "first"@);
            }
        }
        let ghost prev = fs@;
        push_opt(&mut fs, "second", &self.second);
        proof {
            lemma_names_within_weaken(prev, |n: Seq<char>| n == "modelType"@ || submodel_element_fields_name(n) || n == "first"@, |n: Seq<char>| n == "modelType"@ || submodel_element_fields_name(n) || n == "first"@ || n == "second"@);
            lemma_lookup_outside(prev, |n: Seq<char>| n == "modelType"@ || submodel_element_fields_name(n) || n == "first"@, "second"@);
            if self.second is Some {
                assert(fs@ == prev.push(fs@.last()));
                lemma_names_within_push(prev, fs@.last(), |n: Seq<char>| n == "modelType"@ || submodel_element_fields_name(n) || n == "first"@ || n == "second"@);
                lemma_lookup_push(prev, fs@.last(), "modelType"@);
                lemma_lookup_push(prev, fs@.last(), "idShort"@);
                lemma_lookup_push(prev, fs@.last(), "displayName"@);
                lemma_lookup_push(prev, fs@.last(), "description"@);
                lemma_lookup_push(prev, fs@.last(), "category"@);
                lemma_lookup_push(prev, fs@.last(), "extensions"@);
                lemma_lookup_push(prev, fs@.last(), "semanticId"@);
                lemma_lookup_push(prev, fs@.last(), "supplementalSemanticIds"@);
                lemma_lookup_push(prev, fs@.last(), "qualifiers"@);
                lemma_lookup_push(prev, fs@.last(), "embeddedDataSpecifications"@);
                lemma_lookup_push(prev, fs@.last(), "first"@);
                lemma_lookup_push(prev, fs@.last(), "second"@);
            }
        }
        let ghost prev = fs@;
        push_opt(&mut fs, "annotations", &self.annotations);
        proof {
            lemma_names_within_weaken(prev, |n: Seq<char>| n == "modelType"@ || submodel_element_fields_name(n) || n == "first"@ || n == "second"@, |n: Seq<char>| annotated_relationship_element_name(n));
            lemma_lookup_outside(prev, |n: Seq<char>| n == "modelType"@ || submodel_element_fields_name(n) || n == "first"@ || n == "second"@, "annotations"@);
            if self.annotations is Some {
                assert(fs@ == prev.push(fs@.last()));
                lemma_names_within_push(prev, fs@.last(), |n: Seq<char>| annotated_relationship_element_name(n));
                lemma_lookup_push(prev, fs@.last(), "modelType"@);
                lemma_lookup_push(prev, fs@.last(), "idShort"@);
                lemma_lookup_push(prev, fs@.last(), "displayName"@);
                lemma_lookup_push(prev, fs@.last(), "description"@);
                lemma_lookup_push(prev, fs@.last(), "category"@);
                lemma_lookup_push(prev, fs@.last(), "extensions"@);
                lemma_lookup_push(prev, fs@.last(), "semanticId"@);
                lemma_lookup_push(prev, fs@.last(), "supplementalSemanticIds"@);
                lemma_lookup_push(prev, fs@.last(), "qualifiers"@);
                lemma_lookup_push(prev, fs@.last(), "embeddedDataSpecifications"@);
                lemma_lookup_push(prev, fs@.last(), "first"@);
                lemma_lookup_push(prev, fs@.last(), "second"@);
                lemma_lookup_push(prev, fs@.last(), "annotations"@);
            }
        }
        fs
    }

    /// Reads the members of the value from `fs`.
    pub fn decode_members(fs: &Vec<(String, Json)>) -> (r: Result<AnnotatedRelationshipElement, DecodeError>)
        ensures
            match annotated_relationship_element_error(fs@) {
                Some(e) => r == Err::<AnnotatedRelationshipElement, DecodeError>(e),
                None => r matches Ok(x) && annotated_relationship_element_rel(x, fs@),
            },
    {
        match get_member(fs, "modelType") {
            None => return Err(DecodeError::MissingField),
            Some(Json::Str(t)) => if !str_eq(t.as_str(), "AnnotatedRelationshipElement") {
                return Err(DecodeError::UnknownDiscriminator);
            },
            Some(_) => return Err(DecodeError::UnexpectedKind),
        }
        let submodel_element_fields = match SubmodelElementFields::decode_members(fs) {
            Ok(v) => v,
            Err(e) => return Err(e),
        };
        let first = match decode_opt::<Reference>(fs, "first") {
            Ok(v) => v,
            Err(e) => return Err(e),
        };
        let second = match decode_opt::<Reference>(fs, "second") {
            Ok(v) => v,
            Err(e) => return Err(e),
        };
        let annotations = match decode_opt::<Vec<DataElement>>(fs, "annotations") {
            Ok(v) => v,
            Err(e) => return Err(e),
        };
        Ok(AnnotatedRelationshipElement { submodel_element_fields, first, second, annotations })
    }
}

/// Members found as encoding writes them decode to a value, whatever
/// other members stand beside them.
pub proof fn lemma_annotated_relationship_element_round_trip(x: AnnotatedRelationshipElement, fs: Seq<(String, Json)>)
    requires
        annotated_relationship_element_wf(x),
        annotated_relationship_element_lookups(x, fs),
    ensures
        annotated_relationship_element_error(fs) is None,
        annotated_relationship_element_rel(x, fs),
{
    lemma_submodel_element_fields_round_trip(x.submodel_element_fields, fs);
    lemma_opt_round_trip(x.first, lookup(fs, "first"@));
    lemma_opt_round_trip(x.second, lookup(fs, "second"@));
    lemma_opt_round_trip(x.annotations, lookup(fs, "annotations"@));
}

/// The values that the same members decode to hold the same content.
pub proof fn lemma_annotated_relationship_element_unique(x: AnnotatedRelationshipElement, y: AnnotatedRelationshipElement, fs: Seq<(String, Json)>)
    requires
        annotated_relationship_element_rel(x, fs),
        annotated_relationship_element_rel(y, fs),
    ensures
        annotated_relationship_element_equiv(x, y),
{
    lemma_submodel_element_fields_unique(x.submodel_element_fields, y.submodel_element_fields, fs);
    lemma_opt_unique(x.first, y.first, member(fs, "first"@));
    lemma_opt_unique(x.second, y.second, member(fs, "second"@));
    lemma_opt_unique(x.annotations, y.annotations, member(fs, "annotations"@));
}

impl JsonCodec for AnnotatedRelationshipElement {
    open spec fn wf(&self) -> bool {
        annotated_relationship_element_wf(*self)
    }

    open spec fn encoded(&self, j: Json) -> bool {
        j matches Json::Object(fs) && annotated_relationship_element_encoded(*self, fs@)
    }

    open spec fn rel(&self, j: Json) -> bool {
        j matches Json::Object(fs) && annotated_relationship_element_rel(*self, fs@)
    }

    open spec fn decode_error(j: Json) -> Option<DecodeError> {
        match j {
            Json::Object(fs) => annotated_relationship_element_error(fs@),
            _ => Some(DecodeError::UnexpectedKind),
        }
    }

    open spec fn equiv(&self, o: &Self) -> bool {
        annotated_relationship_element_equiv(*self, *o)
    }

    fn encode(&self) -> (r: Json) {
        Json::Object(self.encode_members())
    }

    fn decode(j: &Json) -> (r: Result<Self, DecodeError>) {
        match j {
            Json::Object(fs) => AnnotatedRelationshipElement::decode_members(fs),
            _ => Err(DecodeError::UnexpectedKind),
        }
    }

    proof fn lemma_round_trip(&self, j: Json) {
        lemma_annotated_relationship_element_round_trip(*self, j->Object_0@);
    }

    proof fn lemma_unique(&self, o: &Self, j: Json) {
        lemma_annotated_relationship_element_unique(*self, *o, j->Object_0@);
    }
}

impl AnnotatedRelationshipElementMeta {
    /// The attributes of an annotated relationship, without the related
    /// elements and annotations.
    pub fn from(full: AnnotatedRelationshipElement) -> (r: AnnotatedRelationshipElementMeta)
        ensures
            r.submodel_element_fields == full.submodel_element_fields,
    {
        AnnotatedRelationshipElementMeta { submodel_element_fields: full.submodel_element_fields }
    }
}

} // verus!