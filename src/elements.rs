use vstd::prelude::*;
use crate::json::{Json, DecodeError, lookup, member, get_member, field, lemma_lookup_first, lemma_lookup_skip};
use crate::codec::{
    lemma_names_within_weaken, lemma_names_within_empty, lemma_names_within_concat, lemma_lookup_outside,
    JsonCodec, names_within, opt_encoded, opt_rel, opt_error, opt_wf, opt_equiv, req_encoded, req_rel,
    req_error, push_opt, push_req, decode_opt, decode_req, lemma_opt_round_trip, lemma_req_round_trip,
    lemma_opt_unique, lemma_req_unique, lemma_lookup_push, lemma_names_within_push,
};

use crate::json::lemma_lookup_concat;
use crate::data_xsd::{DataXsd, DataTypeXSDef, xsd_member_name, xsd_decode_error, lemma_encoded_fields_lookups, lemma_encoded_lookups_rel, lemma_rel_fields_unique};
use crate::reference::Reference;
use crate::lang_string::LangString;
use crate::primitives::{MessageTopic, Label, Identifier};
use crate::attributes::{
    Referable, referable_name, referable_lookups, referable_rel, referable_error, referable_wf, referable_equiv, lemma_referable_round_trip, lemma_referable_unique, HasSemantics, has_semantics_name, has_semantics_lookups, has_semantics_rel, has_semantics_error, has_semantics_wf, has_semantics_equiv, lemma_has_semantics_round_trip, lemma_has_semantics_unique, Qualifiable, qualifiable_name, qualifiable_lookups, qualifiable_rel, qualifiable_error, qualifiable_wf, qualifiable_equiv, lemma_qualifiable_round_trip, lemma_qualifiable_unique, HasDataSpecification, has_data_specification_name, has_data_specification_lookups, has_data_specification_rel, has_data_specification_error, has_data_specification_wf, has_data_specification_equiv, lemma_has_data_specification_round_trip, lemma_has_data_specification_unique,
};
use crate::text::str_eq;
use crate::model::Operation;
use crate::annotated::AnnotatedRelationshipElement;

verus! {

broadcast use vstd::string::group_string_axioms;

/// The attribute groups that every submodel element has.
#[derive(Clone, Debug, PartialEq)]
pub struct SubmodelElementFields {
    pub referable: Referable,
    pub semantics: HasSemantics,
    pub qualifiable: Qualifiable,
    pub embedded_data_specifications: HasDataSpecification,
}

/// A name of the members of `SubmodelElementFields`.
pub open spec fn submodel_element_fields_name(n: Seq<char>) -> bool {
    referable_name(n) || has_semantics_name(n) || qualifiable_name(n) || has_data_specification_name(n)
}

/// Looking up the members of `SubmodelElementFields` in `fs` finds what encoding writes for `x`.
pub open spec fn submodel_element_fields_lookups(x: SubmodelElementFields, fs: Seq<(String, Json)>) -> bool {
    &&& referable_lookups(x.referable, fs)
    &&& has_semantics_lookups(x.semantics, fs)
    &&& qualifiable_lookups(x.qualifiable, fs)
    &&& has_data_specification_lookups(x.embedded_data_specifications, fs)
}

/// `fs` are the members that encoding writes for `x`.
pub open spec fn submodel_element_fields_encoded(x: SubmodelElementFields, fs: Seq<(String, Json)>) -> bool {
    &&& names_within(fs, |n: Seq<char>| submodel_element_fields_name(n))
    &&& submodel_element_fields_lookups(x, fs)
}

/// The members of `fs` decode to `x`.
pub open spec fn submodel_element_fields_rel(x: SubmodelElementFields, fs: Seq<(String, Json)>) -> bool {
    &&& referable_rel(x.referable, fs)
    &&& has_semantics_rel(x.semantics, fs)
    &&& qualifiable_rel(x.qualifiable, fs)
    &&& has_data_specification_rel(x.embedded_data_specifications, fs)
}

/// The error, if any, of decoding the members of `SubmodelElementFields` from `fs`.
pub open spec fn submodel_element_fields_error(fs: Seq<(String, Json)>) -> Option<DecodeError> {
    match referable_error(fs) {
        Some(e) => Some(e),
        None => {
            match has_semantics_error(fs) {
                Some(e) => Some(e),
                None => {
                    match qualifiable_error(fs) {
                        Some(e) => Some(e),
                        None => {
                            match has_data_specification_error(fs) {
                                Some(e) => Some(e),
                                None => {
                                    None
                                },
                            }
                        },
                    }
                },
            }
        },
    }
}

/// The values of `x` are well-formed.
pub open spec fn submodel_element_fields_wf(x: SubmodelElementFields) -> bool {
    &&& referable_wf(x.referable)
    &&& has_semantics_wf(x.semantics)
    &&& qualifiable_wf(x.qualifiable)
    &&& has_data_specification_wf(x.embedded_data_specifications)
}

/// `x` and `y` hold the same content.
pub open spec fn submodel_element_fields_equiv(x: SubmodelElementFields, y: SubmodelElementFields) -> bool {
    &&& referable_equiv(x.referable, y.referable)
    &&& has_semantics_equiv(x.semantics, y.semantics)
    &&& qualifiable_equiv(x.qualifiable, y.qualifiable)
    &&& has_data_specification_equiv(x.embedded_data_specifications, y.embedded_data_specifications)
}

impl SubmodelElementFields {
    /// Writes the members of the value, absent ones left out.
    pub fn encode_members(&self) -> (r: Vec<(String, Json)>)
        ensures
            submodel_element_fields_encoded(*self, r@),
    {
        proof {
            reveal_strlit("idShort");
            reveal_strlit("displayName");
            reveal_strlit("description");
            reveal_strlit("category");
            reveal_strlit("extensions");
            reveal_strlit("semanticId");
            reveal_strlit("supplementalSemanticIds");
            reveal_strlit("qualifiers");
            reveal_strlit("embeddedDataSpecifications");
            assert("idShort"@.len() == 7 && "displayName"@.len() == 11);
            assert("idShort"@.len() == 7 && "description"@.len() == 11);
            assert("idShort"@.len() == 7 && "category"@.len() == 8);
            assert("idShort"@.len() == 7 && "extensions"@.len() == 10);
            assert("idShort"@.len() == 7 && "semanticId"@.len() == 10);
            assert("idShort"@.len() == 7 && "supplementalSemanticIds"@.len() == 23);
            assert("idShort"@.len() == 7 && "qualifiers"@.len() == 10);
            assert("idShort"@.len() == 7 && "embeddedDataSpecifications"@.len() == 26);
            assert("displayName"@.len() == 11 && "idShort"@.len() == 7);
            assert("displayName"@[1] != "description"@[1]);
            assert("displayName"@.len() == 11 && "category"@.len() == 8);
            assert("displayName"@.len() == 11 && "extensions"@.len() == 10);
            assert("displayName"@.len() == 11 && "semanticId"@.len() == 10);
            assert("displayName"@.len() == 11 && "supplementalSemanticIds"@.len() == 23);
            assert("displayName"@.len() == 11 && "qualifiers"@.len() == 10);
            assert("displayName"@.len() == 11 && "embeddedDataSpecifications"@.len() == 26);
            assert("description"@.len() == 11 && "idShort"@.len() == 7);
            assert("description"@[1] != "displayName"@[1]);
            assert("description"@.len() == 11 && "category"@.len() == 8);
            assert("description"@.len() == 11 && "extensions"@.len() == 10);
            assert("description"@.len() == 11 && "semanticId"@.len() == 10);
            assert("description"@.len() == 11 && "supplementalSemanticIds"@.len() == 23);
            assert("description"@.len() == 11 && "qualifiers"@.len() == 10);
            assert("description"@.len() == 11 && "embeddedDataSpecifications"@.len() == 26);
            assert("category"@.len() == 8 && "idShort"@.len() == 7);
            assert("category"@.len() == 8 && "displayName"@.len() == 11);
            assert("category"@.len() == 8 && "description"@.len() == 11);
            assert("category"@.len() == 8 && "extensions"@.len() == 10);
            assert("category"@.len() == 8 && "semanticId"@.len() == 10);
            assert("category"@.len() == 8 && "supplementalSemanticIds"@.len() == 23);
            assert("category"@.len() == 8 && "qualifiers"@.len() == 10);
            assert("category"@.len() == 8 && "embeddedDataSpecifications"@.len() == 26);
            assert("extensions"@.len() == 10 && "idShort"@.len() == 7);
            assert("extensions"@.len() == 10 && "displayName"@.len() == 11);
            assert("extensions"@.len() == 10 && "description"@.len() == 11);
            assert("extensions"@.len() == 10 && "category"@.len() == 8);
            assert("extensions"@[0] != "semanticId"@[0]);
            assert("extensions"@.len() == 10 && "supplementalSemanticIds"@.len() == 23);
            assert("extensions"@[0] != "qualifiers"@[0]);
            assert("extensions"@.len() == 10 && "embeddedDataSpecifications"@.len() == 26);
            assert("semanticId"@.len() == 10 && "idShort"@.len() == 7);
            assert("semanticId"@.len() == 10 && "displayName"@.len() == 11);
            assert("semanticId"@.len() == 10 && "description"@.len() == 11);
            assert("semanticId"@.len() == 10 && "category"@.len() == 8);
            assert("semanticId"@[0] != "extensions"@[0]);
            assert("semanticId"@.len() == 10 && "supplementalSemanticIds"@.len() == 23);
            assert("semanticId"@[0] != "qualifiers"@[0]);
            assert("semanticId"@.len() == 10 && "embeddedDataSpecifications"@.len() == 26);
            assert("supplementalSemanticIds"@.len() == 23 && "idShort"@.len() == 7);
            assert("supplementalSemanticIds"@.len() == 23 && "displayName"@.len() == 11);
            assert("supplementalSemanticIds"@.len() == 23 && "description"@.len() == 11);
            assert("supplementalSemanticIds"@.len() == 23 && "category"@.len() == 8);
            assert("supplementalSemanticIds"@.len() == 23 && "extensions"@.len() == 10);
            assert("supplementalSemanticIds"@.len() == 23 && "semanticId"@.len() == 10);
            assert("supplementalSemanticIds"@.len() == 23 && "qualifiers"@.len() == 10);
            assert("supplementalSemanticIds"@.len() == 23 && "embeddedDataSpecifications"@.len() == 26);
            assert("qualifiers"@.len() == 10 && "idShort"@.len() == 7);
            assert("qualifiers"@.len() == 10 && "displayName"@.len() == 11);
            assert("qualifiers"@.len() == 10 && "description"@.len() == 11);
            assert("qualifiers"@.len() == 10 && "category"@.len() == 8);
            assert("qualifiers"@[0] != "extensions"@[0]);
            assert("qualifiers"@[0] != "semanticId"@[0]);
            assert("qualifiers"@.len() == 10 && "supplementalSemanticIds"@.len() == 23);
            assert("qualifiers"@.len() == 10 && "embeddedDataSpecifications"@.len() == 26);
            assert("embeddedDataSpecifications"@.len() == 26 && "idShort"@.len() == 7);
            assert("embeddedDataSpecifications"@.len() == 26 && "displayName"@.len() == 11);
            assert("embeddedDataSpecifications"@.len() == 26 && "description"@.len() == 11);
            assert("embeddedDataSpecifications"@.len() == 26 && "category"@.len() == 8);
            assert("embeddedDataSpecifications"@.len() == 26 && "extensions"@.len() == 10);
            assert("embeddedDataSpecifications"@.len() == 26 && "semanticId"@.len() == 10);
            assert("embeddedDataSpecifications"@.len() == 26 && "supplementalSemanticIds"@.len() == 23);
            assert("embeddedDataSpecifications"@.len() == 26 && "qualifiers"@.len() == 10);
        }
        let mut fs: Vec<(String, Json)> = Vec::new();
        let ghost prev = fs@;
        let mut part = self.referable.encode_members();
        let ghost sp = part@;
        fs.append(&mut part);
        proof {
            lemma_names_within_empty(prev, |n: Seq<char>| referable_name(n));
            lemma_names_within_concat(prev, sp, |n: Seq<char>| referable_name(n), |n: Seq<char>| referable_name(n), |n: Seq<char>| referable_name(n));
            lemma_lookup_concat(prev, sp, "idShort"@);
            assert(prev.len() == 0);
            lemma_lookup_concat(prev, sp, "displayName"@);
            assert(prev.len() == 0);
            lemma_lookup_concat(prev, sp, "description"@);
            assert(prev.len() == 0);
            lemma_lookup_concat(prev, sp, "category"@);
            assert(prev.len() == 0);
            lemma_lookup_concat(prev, sp, "extensions"@);
            assert(prev.len() == 0);
        }
        let ghost prev = fs@;
        let mut part = self.semantics.encode_members();
        let ghost sp = part@;
        fs.append(&mut part);
        proof {
            lemma_names_within_concat(prev, sp, |n: Seq<char>| referable_name(n), |n: Seq<char>| has_semantics_name(n), |n: Seq<char>| referable_name(n) || has_semantics_name(n));
            lemma_lookup_concat(prev, sp, "idShort"@);
            lemma_lookup_outside(sp, |n: Seq<char>| has_semantics_name(n), "idShort"@);
            lemma_lookup_concat(prev, sp, "displayName"@);
            lemma_lookup_outside(sp, |n: Seq<char>| has_semantics_name(n), "displayName"@);
            lemma_lookup_concat(prev, sp, "description"@);
            lemma_lookup_outside(sp, |n: Seq<char>| has_semantics_name(n), "description"@);
            lemma_lookup_concat(prev, sp, "category"@);
            lemma_lookup_outside(sp, |n: Seq<char>| has_semantics_name(n), "category"@);
            lemma_lookup_concat(prev, sp, "extensions"@);
            lemma_lookup_outside(sp, |n: Seq<char>| has_semantics_name(n), "extensions"@);
            lemma_lookup_concat(prev, sp, "semanticId"@);
            lemma_lookup_outside(prev, |n: Seq<char>| referable_name(n), "semanticId"@);
            lemma_lookup_concat(prev, sp, "supplementalSemanticIds"@);
            lemma_lookup_outside(prev, |n: Seq<char>| referable_name(n), "supplementalSemanticIds"@);
        }
        let ghost prev = fs@;
        let mut part = self.qualifiable.encode_members();
        let ghost sp = part@;
        fs.append(&mut part);
        proof {
            lemma_names_within_concat(prev, sp, |n: Seq<char>| referable_name(n) || has_semantics_name(n), |n: Seq<char>| qualifiable_name(n), |n: Seq<char>| referable_name(n) || has_semantics_name(n) || qualifiable_name(n));
            lemma_lookup_concat(prev, sp, "idShort"@);
            lemma_lookup_outside(sp, |n: Seq<char>| qualifiable_name(n), "idShort"@);
            lemma_lookup_concat(prev, sp, "displayName"@);
            lemma_lookup_outside(sp, |n: Seq<char>| qualifiable_name(n), "displayName"@);
            lemma_lookup_concat(prev, sp, "description"@);
            lemma_lookup_outside(sp, |n: Seq<char>| qualifiable_name(n), "description"@);
            lemma_lookup_concat(prev, sp, "category"@);
            lemma_lookup_outside(sp, |n: Seq<char>| qualifiable_name(n), "category"@);
            lemma_lookup_concat(prev, sp, "extensions"@);
            lemma_lookup_outside(sp, |n: Seq<char>| qualifiable_name(n), "extensions"@);
            lemma_lookup_concat(prev, sp, "semanticId"@);
            lemma_lookup_outside(sp, |n: Seq<char>| qualifiable_name(n), "semanticId"@);
            lemma_lookup_concat(prev, sp, "supplementalSemanticIds"@);
            lemma_lookup_outside(sp, |n: Seq<char>| qualifiable_name(n), "supplementalSemanticIds"@);
            lemma_lookup_concat(prev, sp, "qualifiers"@);
            lemma_lookup_outside(prev, |n: Seq<char>| referable_name(n) || has_semantics_name(n), "qualifiers"@);
        }
        let ghost prev = fs@;
        let mut part = self.embedded_data_specifications.encode_members();
        let ghost sp = part@;
        fs.append(&mut part);
        proof {
            lemma_names_within_concat(prev, sp, |n: Seq<char>| referable_name(n) || has_semantics_name(n) || qualifiable_name(n), |n: Seq<char>| has_data_specification_name(n), |n: Seq<char>| submodel_element_fields_name(n));
            lemma_lookup_concat(prev, sp, "idShort"@);
            lemma_lookup_outside(sp, |n: Seq<char>| has_data_specification_name(n), "idShort"@);
            lemma_lookup_concat(prev, sp, "displayName"@);
            lemma_lookup_outside(sp, |n: Seq<char>| has_data_specification_name(n), "displayName"@);
            lemma_lookup_concat(prev, sp, "description"@);
            lemma_lookup_outside(sp, |n: Seq<char>| has_data_specification_name(n), "description"@);
            lemma_lookup_concat(prev, sp, "category"@);
            lemma_lookup_outside(sp, |n: Seq<char>| has_data_specification_name(n), "category"@);
            lemma_lookup_concat(prev, sp, "extensions"@);
            lemma_lookup_outside(sp, |n: Seq<char>| has_data_specification_name(n), "extensions"@);
            lemma_lookup_concat(prev, sp, "semanticId"@);
            lemma_lookup_outside(sp, |n: Seq<char>| has_data_specification_name(n), "semanticId"@);
            lemma_lookup_concat(prev, sp, "supplementalSemanticIds"@);
            lemma_lookup_outside(sp, |n: Seq<char>| has_data_specification_name(n), "supplementalSemanticIds"@);
            lemma_lookup_concat(prev, sp, "qualifiers"@);
            lemma_lookup_outside(sp, |n: Seq<char>| has_data_specification_name(n), "qualifiers"@);
            lemma_lookup_concat(prev, sp, "embeddedDataSpecifications"@);
            lemma_lookup_outside(prev, |n: Seq<char>| referable_name(n) || has_semantics_name(n) || qualifiable_name(n), "embeddedDataSpecifications"@);
        }
        fs
    }

    /// Reads the members of the value from `fs`.
    pub fn decode_members(fs: &Vec<(String, Json)>) -> (r: Result<SubmodelElementFields, DecodeError>)
        ensures
            match submodel_element_fields_error(fs@) {
                Some(e) => r == Err::<SubmodelElementFields, DecodeError>(e),
                None => r matches Ok(x) && submodel_element_fields_rel(x, fs@),
            },
    {
        let referable = match Referable::decode_members(fs) {
            Ok(v) => v,
            Err(e) => return Err(e),
        };
        let semantics = match HasSemantics::decode_members(fs) {
            Ok(v) => v,
            Err(e) => return Err(e),
        };
        let qualifiable = match Qualifiable::decode_members(fs) {
            Ok(v) => v,
            Err(e) => return Err(e),
        };
        let embedded_data_specifications = match HasDataSpecification::decode_members(fs) {
            Ok(v) => v,
            Err(e) => return Err(e),
        };
        Ok(SubmodelElementFields { referable, semantics, qualifiable, embedded_data_specifications })
    }
}

/// Members found as encoding writes them decode to a value, whatever
/// other members stand beside them.
pub proof fn lemma_submodel_element_fields_round_trip(x: SubmodelElementFields, fs: Seq<(String, Json)>)
    requires
        submodel_element_fields_wf(x),
        submodel_element_fields_lookups(x, fs),
    ensures
        submodel_element_fields_error(fs) is None,
        submodel_element_fields_rel(x, fs),
{
    lemma_referable_round_trip(x.referable, fs);
    lemma_has_semantics_round_trip(x.semantics, fs);
    lemma_qualifiable_round_trip(x.qualifiable, fs);
    lemma_has_data_specification_round_trip(x.embedded_data_specifications, fs);
}

/// The values that the same members decode to hold the same content.
pub proof fn lemma_submodel_element_fields_unique(x: SubmodelElementFields, y: SubmodelElementFields, fs: Seq<(String, Json)>)
    requires
        submodel_element_fields_rel(x, fs),
        submodel_element_fields_rel(y, fs),
    ensures
        submodel_element_fields_equiv(x, y),
{
    lemma_referable_unique(x.referable, y.referable, fs);
    lemma_has_semantics_unique(x.semantics, y.semantics, fs);
    lemma_qualifiable_unique(x.qualifiable, y.qualifiable, fs);
    lemma_has_data_specification_unique(x.embedded_data_specifications, y.embedded_data_specifications, fs);
}

impl JsonCodec for SubmodelElementFields {
    open spec fn wf(&self) -> bool {
        submodel_element_fields_wf(*self)
    }

    open spec fn encoded(&self, j: Json) -> bool {
        j matches Json::Object(fs) && submodel_element_fields_encoded(*self, fs@)
    }

    open spec fn rel(&self, j: Json) -> bool {
        j matches Json::Object(fs) && submodel_element_fields_rel(*self, fs@)
    }

    open spec fn decode_error(j: Json) -> Option<DecodeError> {
        match j {
            Json::Object(fs) => submodel_element_fields_error(fs@),
            _ => Some(DecodeError::UnexpectedKind),
        }
    }

    open spec fn equiv(&self, o: &Self) -> bool {
        submodel_element_fields_equiv(*self, *o)
    }

    fn encode(&self) -> (r: Json) {
        Json::Object(self.encode_members())
    }

    fn decode(j: &Json) -> (r: Result<Self, DecodeError>) {
        match j {
            Json::Object(fs) => SubmodelElementFields::decode_members(fs),
            _ => Err(DecodeError::UnexpectedKind),
        }
    }

    proof fn lemma_round_trip(&self, j: Json) {
        lemma_submodel_element_fields_round_trip(*self, j->Object_0@);
    }

    proof fn lemma_unique(&self, o: &Self, j: Json) {
        lemma_submodel_element_fields_unique(*self, *o, j->Object_0@);
    }
}

impl Default for SubmodelElementFields {
    /// No attributes.
    fn default() -> (r: SubmodelElementFields)
        ensures
            r.referable.id_short is None,
    {
        SubmodelElementFields {
            referable: Referable::default(),
            semantics: HasSemantics::default(),
            qualifiable: Qualifiable::default(),
            embedded_data_specifications: HasDataSpecification::default(),
        }
    }
}

/// A data element holding a single value of a declared value type.
#[derive(Clone, Debug, PartialEq)]
pub struct Property {
    pub referable: Referable,
    pub semantics: HasSemantics,
    pub qualifiable: Qualifiable,
    pub embedded_data_specifications: HasDataSpecification,
    pub value: DataXsd,
}

/// A name of the members of `Property`.
pub open spec fn property_name(n: Seq<char>) -> bool {
    n == "modelType"@ || referable_name(n) || has_semantics_name(n) || qualifiable_name(n) || has_data_specification_name(n) || xsd_member_name(n)
}

/// Looking up the members of `Property` in `fs` finds what encoding writes for `x`.
pub open spec fn property_lookups(x: Property, fs: Seq<(String, Json)>) -> bool {
    &&& lookup(fs, "modelType"@) matches Some(Json::Str(t)) && t@ == "Property"@
    &&& referable_lookups(x.referable, fs)
    &&& has_semantics_lookups(x.semantics, fs)
    &&& qualifiable_lookups(x.qualifiable, fs)
    &&& has_data_specification_lookups(x.embedded_data_specifications, fs)
    &&& x.value.encoded_lookups(fs)
}

/// `fs` are the members that encoding writes for `x`.
pub open spec fn property_encoded(x: Property, fs: Seq<(String, Json)>) -> bool {
    &&& names_within(fs, |n: Seq<char>| property_name(n))
    &&& property_lookups(x, fs)
}

/// The members of `fs` decode to `x`.
pub open spec fn property_rel(x: Property, fs: Seq<(String, Json)>) -> bool {
    &&& member(fs, "modelType"@) matches Some(Json::Str(t)) && t@ == "Property"@
    &&& referable_rel(x.referable, fs)
    &&& has_semantics_rel(x.semantics, fs)
    &&& qualifiable_rel(x.qualifiable, fs)
    &&& has_data_specification_rel(x.embedded_data_specifications, fs)
    &&& x.value.rel_fields(fs)
}

/// The error, if any, of decoding the members of `Property` from `fs`.
pub open spec fn property_error(fs: Seq<(String, Json)>) -> Option<DecodeError> {
    match member(fs, "modelType"@) {
        None => Some(DecodeError::MissingField),
        Some(Json::Str(t)) => if t@ == "Property"@ {
            match referable_error(fs) {
                Some(e) => Some(e),
                None => {
                    match has_semantics_error(fs) {
                        Some(e) => Some(e),
                        None => {
                            match qualifiable_error(fs) {
                                Some(e) => Some(e),
                                None => {
                                    match has_data_specification_error(fs) {
                                        Some(e) => Some(e),
                                        None => {
                                            match xsd_decode_error(fs) {
                                                Some(e) => Some(e),
                                                None => {
                                                    None
                                                },
                                            }
                                        },
                                    }
                                },
                            }
                        },
                    }
                },
            }
        } else {
            Some(DecodeError::UnknownDiscriminator)
        },
        Some(_) => Some(DecodeError::UnexpectedKind),
    }
}

/// The values of `x` are well-formed.
pub open spec fn property_wf(x: Property) -> bool {
    &&& referable_wf(x.referable)
    &&& has_semantics_wf(x.semantics)
    &&& qualifiable_wf(x.qualifiable)
    &&& has_data_specification_wf(x.embedded_data_specifications)
    &&& x.value.wf()
}

/// `x` and `y` hold the same content.
pub open spec fn property_equiv(x: Property, y: Property) -> bool {
    &&& referable_equiv(x.referable, y.referable)
    &&& has_semantics_equiv(x.semantics, y.semantics)
    &&& qualifiable_equiv(x.qualifiable, y.qualifiable)
    &&& has_data_specification_equiv(x.embedded_data_specifications, y.embedded_data_specifications)
    &&& x.value.equiv(y.value)
}

impl Property {
    /// Writes the members of the value, absent ones left out.
    #[verifier::rlimit(100)]
    #[verifier::spinoff_prover]
    pub fn encode_members(&self) -> (r: Vec<(String, Json)>)
        ensures
            property_encoded(*self, r@),
    {
        proof {
            reveal_strlit("modelType");
            reveal_strlit("idShort");
            reveal_strlit("displayName");
            reveal_strlit("description");
            reveal_strlit("category");
            reveal_strlit("extensions");
            reveal_strlit("semanticId");
            reveal_strlit("supplementalSemanticIds");
            reveal_strlit("qualifiers");
            reveal_strlit("embeddedDataSpecifications");
            reveal_strlit("valueType");
            reveal_strlit("value");
            assert("modelType"@.len() == 9 && "idShort"@.len() == 7);
            assert("modelType"@.len() == 9 && "displayName"@.len() == 11);
            assert("modelType"@.len() == 9 && "description"@.len() == 11);
            assert("modelType"@.len() == 9 && "category"@.len() == 8);
            assert("modelType"@.len() == 9 && "extensions"@.len() == 10);
            assert("modelType"@.len() == 9 && "semanticId"@.len() == 10);
            assert("modelType"@.len() == 9 && "supplementalSemanticIds"@.len() == 23);
            assert("modelType"@.len() == 9 && "qualifiers"@.len() == 10);
            assert("modelType"@.len() == 9 && "embeddedDataSpecifications"@.len() == 26);
            assert("modelType"@[0] != "valueType"@[0]);
            assert("modelType"@.len() == 9 && "value"@.len() == 5);
            assert("idShort"@.len() == 7 && "modelType"@.len() == 9);
            assert("idShort"@.len() == 7 && "displayName"@.len() == 11);
            assert("idShort"@.len() == 7 && "description"@.len() == 11);
            assert("idShort"@.len() == 7 && "category"@.len() == 8);
            assert("idShort"@.len() == 7 && "extensions"@.len() == 10);
            assert("idShort"@.len() == 7 && "semanticId"@.len() == 10);
            assert("idShort"@.len() == 7 && "supplementalSemanticIds"@.len() == 23);
            assert("idShort"@.len() == 7 && "qualifiers"@.len() == 10);
            assert("idShort"@.len() == 7 && "embeddedDataSpecifications"@.len() == 26);
            assert("idShort"@.len() == 7 && "valueType"@.len() == 9);
            assert("idShort"@.len() == 7 && "value"@.len() == 5);
            assert("displayName"@.len() == 11 && "modelType"@.len() == 9);
            assert("displayName"@.len() == 11 && "idShort"@.len() == 7);
            assert("displayName"@[1] != "description"@[1]);
            assert("displayName"@.len() == 11 && "category"@.len() == 8);
            assert("displayName"@.len() == 11 && "extensions"@.len() == 10);
            assert("displayName"@.len() == 11 && "semanticId"@.len() == 10);
            assert("displayName"@.len() == 11 && "supplementalSemanticIds"@.len() == 23);
            assert("displayName"@.len() == 11 && "qualifiers"@.len() == 10);
            assert("displayName"@.len() == 11 && "embeddedDataSpecifications"@.len() == 26);
            assert("displayName"@.len() == 11 && "valueType"@.len() == 9);
            assert("displayName"@.len() == 11 && "value"@.len() == 5);
            assert("description"@.len() == 11 && "modelType"@.len() == 9);
            assert("description"@.len() == 11 && "idShort"@.len() == 7);
            assert("description"@[1] != "displayName"@[1]);
            assert("description"@.len() == 11 && "category"@.len() == 8);
            assert("description"@.len() == 11 && "extensions"@.len() == 10);
            assert("description"@.len() == 11 && "semanticId"@.len() == 10);
            assert("description"@.len() == 11 && "supplementalSemanticIds"@.len() == 23);
            assert("description"@.len() == 11 && "qualifiers"@.len() == 10);
            assert("description"@.len() == 11 && "embeddedDataSpecifications"@.len() == 26);
            assert("description"@.len() == 11 && "valueType"@.len() == 9);
            assert("description"@.len() == 11 && "value"@.len() == 5);
            assert("category"@.len() == 8 && "modelType"@.len() == 9);
            assert("category"@.len() == 8 && "idShort"@.len() == 7);
            assert("category"@.len() == 8 && "displayName"@.len() == 11);
            assert("category"@.len() == 8 && "description"@.len() == 11);
            assert("category"@.len() == 8 && "extensions"@.len() == 10);
            assert("category"@.len() == 8 && "semanticId"@.len() == 10);
            assert("category"@.len() == 8 && "supplementalSemanticIds"@.len() == 23);
            assert("category"@.len() == 8 && "qualifiers"@.len() == 10);
            assert("category"@.len() == 8 && "embeddedDataSpecifications"@.len() == 26);
            assert("category"@.len() == 8 && "valueType"@.len() == 9);
            assert("category"@.len() == 8 && "value"@.len() == 5);
            assert("extensions"@.len() == 10 && "modelType"@.len() == 9);
            assert("extensions"@.len() == 10 && "idShort"@.len() == 7);
            assert("extensions"@.len() == 10 && "displayName"@.len() == 11);
            assert("extensions"@.len() == 10 && "description"@.len() == 11);
            assert("extensions"@.len() == 10 && "category"@.len() == 8);
            assert("extensions"@[0] != "semanticId"@[0]);
            assert("extensions"@.len() == 10 && "supplementalSemanticIds"@.len() == 23);
            assert("extensions"@[0] != "qualifiers"@[0]);
            assert("extensions"@.len() == 10 && "embeddedDataSpecifications"@.len() == 26);
            assert("extensions"@.len() == 10 && "valueType"@.len() == 9);
            assert("extensions"@.len() == 10 && "value"@.len() == 5);
            assert("semanticId"@.len() == 10 && "modelType"@.len() == 9);
            assert("semanticId"@.len() == 10 && "idShort"@.len() == 7);
            assert("semanticId"@.len() == 10 && "displayName"@.len() == 11);
            assert("semanticId"@.len() == 10 && "description"@.len() == 11);
            assert("semanticId"@.len() == 10 && "category"@.len() == 8);
            assert("semanticId"@[0] != "extensions"@[0]);
            assert("semanticId"@.len() == 10 && "supplementalSemanticIds"@.len() == 23);
            assert("semanticId"@[0] != "qualifiers"@[0]);
            assert("semanticId"@.len() == 10 && "embeddedDataSpecifications"@.len() == 26);
            assert("semanticId"@.len() == 10 && "valueType"@.len() == 9);
            assert("semanticId"@.len() == 10 && "value"@.len() == 5);
            assert("supplementalSemanticIds"@.len() == 23 && "modelType"@.len() == 9);
            assert("supplementalSemanticIds"@.len() == 23 && "idShort"@.len() == 7);
            assert("supplementalSemanticIds"@.len() == 23 && "displayName"@.len() == 11);
            assert("supplementalSemanticIds"@.len() == 23 && "description"@.len() == 11);
            assert("supplementalSemanticIds"@.len() == 23 && "category"@.len() == 8);
            assert("supplementalSemanticIds"@.len() == 23 && "extensions"@.len() == 10);
            assert("supplementalSemanticIds"@.len() == 23 && "semanticId"@.len() == 10);
            assert("supplementalSemanticIds"@.len() == 23 && "qualifiers"@.len() == 10);
            assert("supplementalSemanticIds"@.len() == 23 && "embeddedDataSpecifications"@.len() == 26);
            assert("supplementalSemanticIds"@.len() == 23 && "valueType"@.len() == 9);
            assert("supplementalSemanticIds"@.len() == 23 && "value"@.len() == 5);
            assert("qualifiers"@.len() == 10 && "modelType"@.len() == 9);
            assert("qualifiers"@.len() == 10 && "idShort"@.len() == 7);
            assert("qualifiers"@.len() == 10 && "displayName"@.len() == 11);
            assert("qualifiers"@.len() == 10 && "description"@.len() == 11);
            assert("qualifiers"@.len() == 10 && "category"@.len() == 8);
            assert("qualifiers"@[0] != "extensions"@[0]);
            assert("qualifiers"@[0] != "semanticId"@[0]);
            assert("qualifiers"@.len() == 10 && "supplementalSemanticIds"@.len() == 23);
            assert("qualifiers"@.len() == 10 && "embeddedDataSpecifications"@.len() == 26);
            assert("qualifiers"@.len() == 10 && "valueType"@.len() == 9);
            assert("qualifiers"@.len() == 10 && "value"@.len() == 5);
            assert("embeddedDataSpecifications"@.len() == 26 && "modelType"@.len() == 9);
            assert("embeddedDataSpecifications"@.len() == 26 && "idShort"@.len() == 7);
            assert("embeddedDataSpecifications"@.len() == 26 && "displayName"@.len() == 11);
            assert("embeddedDataSpecifications"@.len() == 26 && "description"@.len() == 11);
            assert("embeddedDataSpecifications"@.len() == 26 && "category"@.len() == 8);
            assert("embeddedDataSpecifications"@.len() == 26 && "extensions"@.len() == 10);
            assert("embeddedDataSpecifications"@.len() == 26 && "semanticId"@.len() == 10);
            assert("embeddedDataSpecifications"@.len() == 26 && "supplementalSemanticIds"@.len() == 23);
            assert("embeddedDataSpecifications"@.len() == 26 && "qualifiers"@.len() == 10);
            assert("embeddedDataSpecifications"@.len() == 26 && "valueType"@.len() == 9);
            assert("embeddedDataSpecifications"@.len() == 26 && "value"@.len() == 5);
            assert("valueType"@[0] != "modelType"@[0]);
            assert("valueType"@.len() == 9 && "idShort"@.len() == 7);
            assert("valueType"@.len() == 9 && "displayName"@.len() == 11);
            assert("valueType"@.len() == 9 && "description"@.len() == 11);
            assert("valueType"@.len() == 9 && "category"@.len() == 8);
            assert("valueType"@.len() == 9 && "extensions"@.len() == 10);
            assert("valueType"@.len() == 9 && "semanticId"@.len() == 10);
            assert("valueType"@.len() == 9 && "supplementalSemanticIds"@.len() == 23);
            assert("valueType"@.len() == 9 && "qualifiers"@.len() == 10);
            assert("valueType"@.len() == 9 && "embeddedDataSpecifications"@.len() == 26);
            assert("valueType"@.len() == 9 && "value"@.len() == 5);
            assert("value"@.len() == 5 && "modelType"@.len() == 9);
            assert("value"@.len() == 5 && "idShort"@.len() == 7);
            assert("value"@.len() == 5 && "displayName"@.len() == 11);
            assert("value"@.len() == 5 && "description"@.len() == 11);
            assert("value"@.len() == 5 && "category"@.len() == 8);
            assert("value"@.len() == 5 && "extensions"@.len() == 10);
            assert("value"@.len() == 5 && "semanticId"@.len() == 10);
            assert("value"@.len() == 5 && "supplementalSemanticIds"@.len() == 23);
            assert("value"@.len() == 5 && "qualifiers"@.len() == 10);
            assert("value"@.len() == 5 && "embeddedDataSpecifications"@.len() == 26);
            assert("value"@.len() == 5 && "valueType"@.len() == 9);
        }
        let mut fs: Vec<(String, Json)> = Vec::new();
        let ghost prev = fs@;
        fs.push(field("modelType", Json::Str("Property".to_string())));
        proof {
            lemma_names_within_empty(prev, |n: Seq<char>| n == "modelType"@);
            if true {
                assert(fs@ == prev.push(fs@.last()));
                lemma_names_within_push(prev, fs@.last(), |n: Seq<char>| n == "modelType"@);
                lemma_lookup_push(prev, fs@.last(), "modelType"@);
            }
        }
        let ghost prev = fs@;
        let mut part = self.referable.encode_members();
        let ghost sp = part@;
        fs.append(&mut part);
        proof {
            lemma_names_within_concat(prev, sp, |n: Seq<char>| n == "modelType"@, |n: Seq<char>| referable_name(n), |n: Seq<char>| n == "modelType"@ || referable_name(n));
            lemma_lookup_concat(prev, sp, "modelType"@);
            lemma_lookup_outside(sp, |n: Seq<char>| referable_name(n), "modelType"@);
            lemma_lookup_concat(prev, sp, "idShort"@);
            lemma_lookup_outside(prev, |n: Seq<char>| n == "modelType"@, "idShort"@);
            lemma_lookup_concat(prev, sp, "displayName"@);
            lemma_lookup_outside(prev, |n: Seq<char>| n == "modelType"@, "displayName"@);
            lemma_lookup_concat(prev, sp, "description"@);
            lemma_lookup_outside(prev, |n: Seq<char>| n == "modelType"@, "description"@);
            lemma_lookup_concat(prev, sp, "category"@);
            lemma_lookup_outside(prev, |n: Seq<char>| n == "modelType"@, "category"@);
            lemma_lookup_concat(prev, sp, "extensions"@);
            lemma_lookup_outside(prev, |n: Seq<char>| n == "modelType"@, "extensions"@);
        }
        let ghost prev = fs@;
        let mut part = self.semantics.encode_members();
        let ghost sp = part@;
        fs.append(&mut part);
        proof {
            lemma_names_within_concat(prev, sp, |n: Seq<char>| n == "modelType"@ || referable_name(n), |n: Seq<char>| has_semantics_name(n), |n: Seq<char>| n == "modelType"@ || referable_name(n) || has_semantics_name(n));
            lemma_lookup_concat(prev, sp, "modelType"@);
            lemma_lookup_outside(sp, |n: Seq<char>| has_semantics_name(n), "modelType"@);
            lemma_lookup_concat(prev, sp, "idShort"@);
            lemma_lookup_outside(sp, |n: Seq<char>| has_semantics_name(n), "idShort"@);
            lemma_lookup_concat(prev, sp, "displayName"@);
            lemma_lookup_outside(sp, |n: Seq<char>| has_semantics_name(n), "displayName"@);
            lemma_lookup_concat(prev, sp, "description"@);
            lemma_lookup_outside(sp, |n: Seq<char>| has_semantics_name(n), "description"@);
            lemma_lookup_concat(prev, sp, "category"@);
            lemma_lookup_outside(sp, |n: Seq<char>| has_semantics_name(n), "category"@);
            lemma_lookup_concat(prev, sp, "extensions"@);
            lemma_lookup_outside(sp, |n: Seq<char>| has_semantics_name(n), "extensions"@);
            lemma_lookup_concat(prev, sp, "semanticId"@);
            lemma_lookup_outside(prev, |n: Seq<char>| n == "modelType"@ || referable_name(n), "semanticId"@);
            lemma_lookup_concat(prev, sp, "supplementalSemanticIds"@);
            lemma_lookup_outside(prev, |n: Seq<char>| n == "modelType"@ || referable_name(n), "supplementalSemanticIds"@);
        }
        let ghost prev = fs@;
        let mut part = self.qualifiable.encode_members();
        let ghost sp = part@;
        fs.append(&mut part);
        proof {
            lemma_names_within_concat(prev, sp, |n: Seq<char>| n == "modelType"@ || referable_name(n) || has_semantics_name(n), |n: Seq<char>| qualifiable_name(n), |n: Seq<char>| n == "modelType"@ || referable_name(n) || has_semantics_name(n) || qualifiable_name(n));
            lemma_lookup_concat(prev, sp, "modelType"@);
            lemma_lookup_outside(sp, |n: Seq<char>| qualifiable_name(n), "modelType"@);
            lemma_lookup_concat(prev, sp, "idShort"@);
            lemma_lookup_outside(sp, |n: Seq<char>| qualifiable_name(n), "idShort"@);
            lemma_lookup_concat(prev, sp, "displayName"@);
            lemma_lookup_outside(sp, |n: Seq<char>| qualifiable_name(n), "displayName"@);
            lemma_lookup_concat(prev, sp, "description"@);
            lemma_lookup_outside(sp, |n: Seq<char>| qualifiable_name(n), "description"@);
            lemma_lookup_concat(prev, sp, "category"@);
            lemma_lookup_outside(sp, |n: Seq<char>| qualifiable_name(n), "category"@);
            lemma_lookup_concat(prev, sp, "extensions"@);
            lemma_lookup_outside(sp, |n: Seq<char>| qualifiable_name(n), "extensions"@);
            lemma_lookup_concat(prev, sp, "semanticId"@);
            lemma_lookup_outside(sp, |n: Seq<char>| qualifiable_name(n), "semanticId"@);
            lemma_lookup_concat(prev, sp, "supplementalSemanticIds"@);
            lemma_lookup_outside(sp, |n: Seq<char>| qualifiable_name(n), "supplementalSemanticIds"@);
            lemma_lookup_concat(prev, sp, "qualifiers"@);
            lemma_lookup_outside(prev, |n: Seq<char>| n == "modelType"@ || referable_name(n) || has_semantics_name(n), "qualifiers"@);
        }
        let ghost prev = fs@;
        let mut part = self.embedded_data_specifications.encode_members();
        let ghost sp = part@;
        fs.append(&mut part);
        proof {
            lemma_names_within_concat(prev, sp, |n: Seq<char>| n == "modelType"@ || referable_name(n) || has_semantics_name(n) || qualifiable_name(n), |n: Seq<char>| has_data_specification_name(n), |n: Seq<char>| n == "modelType"@ || referable_name(n) || has_semantics_name(n) || qualifiable_name(n) || has_data_specification_name(n));
            lemma_lookup_concat(prev, sp, "modelType"@);
            lemma_lookup_outside(sp, |n: Seq<char>| has_data_specification_name(n), "modelType"@);
            lemma_lookup_concat(prev, sp, "idShort"@);
            lemma_lookup_outside(sp, |n: Seq<char>| has_data_specification_name(n), "idShort"@);
            lemma_lookup_concat(prev, sp, "displayName"@);
            lemma_lookup_outside(sp, |n: Seq<char>| has_data_specification_name(n), "displayName"@);
            lemma_lookup_concat(prev, sp, "description"@);
            lemma_lookup_outside(sp, |n: Seq<char>| has_data_specification_name(n), "description"@);
            lemma_lookup_concat(prev, sp, "category"@);
            lemma_lookup_outside(sp, |n: Seq<char>| has_data_specification_name(n), "category"@);
            lemma_lookup_concat(prev, sp, "extensions"@);
            lemma_lookup_outside(sp, |n: Seq<char>| has_data_specification_name(n), "extensions"@);
            lemma_lookup_concat(prev, sp, "semanticId"@);
            lemma_lookup_outside(sp, |n: Seq<char>| has_data_specification_name(n), "semanticId"@);
            lemma_lookup_concat(prev, sp, "supplementalSemanticIds"@);
            lemma_lookup_outside(sp, |n: Seq<char>| has_data_specification_name(n), "supplementalSemanticIds"@);
            lemma_lookup_concat(prev, sp, "qualifiers"@);
            lemma_lookup_outside(sp, |n: Seq<char>| has_data_specification_name(n), "qualifiers"@);
            lemma_lookup_concat(prev, sp, "embeddedDataSpecifications"@);
            lemma_lookup_outside(prev, |n: Seq<char>| n == "modelType"@ || referable_name(n) || has_semantics_name(n) || qualifiable_name(n), "embeddedDataSpecifications"@);
        }
        let ghost prev = fs@;
        let mut part = self.value.encode_fields();
        proof {
            lemma_encoded_fields_lookups(self.value, part@);
        }
        let ghost sp = part@;
        fs.append(&mut part);
        proof {
            lemma_names_within_concat(prev, sp, |n: Seq<char>| n == "modelType"@ || referable_name(n) || has_semantics_name(n) || qualifiable_name(n) || has_data_specification_name(n), |n: Seq<char>| xsd_member_name(n), |n: Seq<char>| property_name(n));
            lemma_lookup_concat(prev, sp, "modelType"@);
            lemma_lookup_outside(sp, |n: Seq<char>| xsd_member_name(n), "modelType"@);
            lemma_lookup_concat(prev, sp, "idShort"@);
            lemma_lookup_outside(sp, |n: Seq<char>| xsd_member_name(n), "idShort"@);
            lemma_lookup_concat(prev, sp, "displayName"@);
            lemma_lookup_outside(sp, |n: Seq<char>| xsd_member_name(n), "displayName"@);
            lemma_lookup_concat(prev, sp, "description"@);
            lemma_lookup_outside(sp, |n: Seq<char>| xsd_member_name(n), "description"@);
            lemma_lookup_concat(prev, sp, "category"@);
            lemma_lookup_outside(sp, |n: Seq<char>| xsd_member_name(n), "category"@);
            lemma_lookup_concat(prev, sp, "extensions"@);
            lemma_lookup_outside(sp, |n: Seq<char>| xsd_member_name(n), "extensions"@);
            lemma_lookup_concat(prev, sp, "semanticId"@);
            lemma_lookup_outside(sp, |n: Seq<char>| xsd_member_name(n), "semanticId"@);
            lemma_lookup_concat(prev, sp, "supplementalSemanticIds"@);
            lemma_lookup_outside(sp, |n: Seq<char>| xsd_member_name(n), "supplementalSemanticIds"@);
            lemma_lookup_concat(prev, sp, "qualifiers"@);
            lemma_lookup_outside(sp, |n: Seq<char>| xsd_member_name(n), "qualifiers"@);
            lemma_lookup_concat(prev, sp, "embeddedDataSpecifications"@);
            lemma_lookup_outside(sp, |n: Seq<char>| xsd_member_name(n), "embeddedDataSpecifications"@);
            lemma_lookup_concat(prev, sp, "valueType"@);
            lemma_lookup_outside(prev, |n: Seq<char>| n == "modelType"@ || referable_name(n) || has_semantics_name(n) || qualifiable_name(n) || has_data_specification_name(n), "valueType"@);
            lemma_lookup_concat(prev, sp, "value"@);
            lemma_lookup_outside(prev, |n: Seq<char>| n == "modelType"@ || referable_name(n) || has_semantics_name(n) || qualifiable_name(n) || has_data_specification_name(n), "value"@);
        }
        fs
    }

    /// Reads the members of the value from `fs`.
    pub fn decode_members(fs: &Vec<(String, Json)>) -> (r: Result<Property, DecodeError>)
        ensures
            match property_error(fs@) {
                Some(e) => r == Err::<Property, DecodeError>(e),
                None => r matches Ok(x) && property_rel(x, fs@),
            },
    {
        match get_member(fs, "modelType") {
            None => return Err(DecodeError::MissingField),
            Some(Json::Str(t)) => if !str_eq(t.as_str(), "Property") {
                return Err(DecodeError::UnknownDiscriminator);
            },
            Some(_) => return Err(DecodeError::UnexpectedKind),
        }
        let referable = match Referable::decode_members(fs) {
            Ok(v) => v,
            Err(e) => return Err(e),
        };
        let semantics = match HasSemantics::decode_members(fs) {
            Ok(v) => v,
            Err(e) => return Err(e),
        };
        let qualifiable = match Qualifiable::decode_members(fs) {
            Ok(v) => v,
            Err(e) => return Err(e),
        };
        let embedded_data_specifications = match HasDataSpecification::decode_members(fs) {
            Ok(v) => v,
            Err(e) => return Err(e),
        };
        let value = match DataXsd::decode_fields(fs) {
            Ok(v) => v,
            Err(e) => return Err(e),
        };
        Ok(Property { referable, semantics, qualifiable, embedded_data_specifications, value })
    }
}

/// Members found as encoding writes them decode to a value, whatever
/// other members stand beside them.
pub proof fn lemma_property_round_trip(x: Property, fs: Seq<(String, Json)>)
    requires
        property_wf(x),
        property_lookups(x, fs),
    ensures
        property_error(fs) is None,
        property_rel(x, fs),
{
    lemma_referable_round_trip(x.referable, fs);
    lemma_has_semantics_round_trip(x.semantics, fs);
    lemma_qualifiable_round_trip(x.qualifiable, fs);
    lemma_has_data_specification_round_trip(x.embedded_data_specifications, fs);
    lemma_encoded_lookups_rel(x.value, fs);
}

/// The values that the same members decode to hold the same content.
pub proof fn lemma_property_unique(x: Property, y: Property, fs: Seq<(String, Json)>)
    requires
        property_rel(x, fs),
        property_rel(y, fs),
    ensures
        property_equiv(x, y),
{
    lemma_referable_unique(x.referable, y.referable, fs);
    lemma_has_semantics_unique(x.semantics, y.semantics, fs);
    lemma_qualifiable_unique(x.qualifiable, y.qualifiable, fs);
    lemma_has_data_specification_unique(x.embedded_data_specifications, y.embedded_data_specifications, fs);
    lemma_rel_fields_unique(x.value, y.value, fs);
}

impl JsonCodec for Property {
    open spec fn wf(&self) -> bool {
        property_wf(*self)
    }

    open spec fn encoded(&self, j: Json) -> bool {
        j matches Json::Object(fs) && property_encoded(*self, fs@)
    }

    open spec fn rel(&self, j: Json) -> bool {
        j matches Json::Object(fs) && property_rel(*self, fs@)
    }

    open spec fn decode_error(j: Json) -> Option<DecodeError> {
        match j {
            Json::Object(fs) => property_error(fs@),
            _ => Some(DecodeError::UnexpectedKind),
        }
    }

    open spec fn equiv(&self, o: &Self) -> bool {
        property_equiv(*self, *o)
    }

    fn encode(&self) -> (r: Json) {
        Json::Object(self.encode_members())
    }

    fn decode(j: &Json) -> (r: Result<Self, DecodeError>) {
        match j {
            Json::Object(fs) => Property::decode_members(fs),
            _ => Err(DecodeError::UnexpectedKind),
        }
    }

    proof fn lemma_round_trip(&self, j: Json) {
        lemma_property_round_trip(*self, j->Object_0@);
    }

    proof fn lemma_unique(&self, o: &Self, j: Json) {
        lemma_property_unique(*self, *o, j->Object_0@);
    }
}

/// The metamodel view of a property: its attributes without the value.
#[derive(Clone, Debug, PartialEq)]
pub struct PropertyMeta {
    pub referable: Referable,
    pub semantics: HasSemantics,
    pub qualifiable: Qualifiable,
    pub embedded_data_specifications: HasDataSpecification,
}

/// A name of the members of `PropertyMeta`.
pub open spec fn property_meta_name(n: Seq<char>) -> bool {
    n == "modelType"@ || referable_name(n) || has_semantics_name(n) || qualifiable_name(n) || has_data_specification_name(n)
}

/// Looking up the members of `PropertyMeta` in `fs` finds what encoding writes for `x`.
pub open spec fn property_meta_lookups(x: PropertyMeta, fs: Seq<(String, Json)>) -> bool {
    &&& lookup(fs, "modelType"@) matches Some(Json::Str(t)) && t@ == "Property"@
    &&& referable_lookups(x.referable, fs)
    &&& has_semantics_lookups(x.semantics, fs)
    &&& qualifiable_lookups(x.qualifiable, fs)
    &&& has_data_specification_lookups(x.embedded_data_specifications, fs)
}

/// `fs` are the members that encoding writes for `x`.
pub open spec fn property_meta_encoded(x: PropertyMeta, fs: Seq<(String, Json)>) -> bool {
    &&& names_within(fs, |n: Seq<char>| property_meta_name(n))
    &&& property_meta_lookups(x, fs)
}

/// The members of `fs` decode to `x`.
pub open spec fn property_meta_rel(x: PropertyMeta, fs: Seq<(String, Json)>) -> bool {
    &&& member(fs, "modelType"@) matches Some(Json::Str(t)) && t@ == "Property"@
    &&& referable_rel(x.referable, fs)
    &&& has_semantics_rel(x.semantics, fs)
    &&& qualifiable_rel(x.qualifiable, fs)
    &&& has_data_specification_rel(x.embedded_data_specifications, fs)
}

/// The error, if any, of decoding the members of `PropertyMeta` from `fs`.
pub open spec fn property_meta_error(fs: Seq<(String, Json)>) -> Option<DecodeError> {
    match member(fs, "modelType"@) {
        None => Some(DecodeError::MissingField),
        Some(Json::Str(t)) => if t@ == "Property"@ {
            match referable_error(fs) {
                Some(e) => Some(e),
                None => {
                    match has_semantics_error(fs) {
                        Some(e) => Some(e),
                        None => {
                            match qualifiable_error(fs) {
                                Some(e) => Some(e),
                                None => {
                                    match has_data_specification_error(fs) {
                                        Some(e) => Some(e),
                                        None => {
                                            None
                                        },
                                    }
                                },
                            }
                        },
                    }
                },
            }
        } else {
            Some(DecodeError::UnknownDiscriminator)
        },
        Some(_) => Some(DecodeError::UnexpectedKind),
    }
}

/// The values of `x` are well-formed.
pub open spec fn property_meta_wf(x: PropertyMeta) -> bool {
    &&& referable_wf(x.referable)
    &&& has_semantics_wf(x.semantics)
    &&& qualifiable_wf(x.qualifiable)
    &&& has_data_specification_wf(x.embedded_data_specifications)
}

/// `x` and `y` hold the same content.
pub open spec fn property_meta_equiv(x: PropertyMeta, y: PropertyMeta) -> bool {
    &&& referable_equiv(x.referable, y.referable)
    &&& has_semantics_equiv(x.semantics, y.semantics)
    &&& qualifiable_equiv(x.qualifiable, y.qualifiable)
    &&& has_data_specification_equiv(x.embedded_data_specifications, y.embedded_data_specifications)
}

impl PropertyMeta {
    /// Writes the members of the value, absent ones left out.
    #[verifier::rlimit(100)]
    #[verifier::spinoff_prover]
    pub fn encode_members(&self) -> (r: Vec<(String, Json)>)
        ensures
            property_meta_encoded(*self, r@),
    {
        proof {
            reveal_strlit("modelType");
            reveal_strlit("idShort");
            reveal_strlit("displayName");
            reveal_strlit("description");
            reveal_strlit("category");
            reveal_strlit("extensions");
            reveal_strlit("semanticId");
            reveal_strlit("supplementalSemanticIds");
            reveal_strlit("qualifiers");
            reveal_strlit("embeddedDataSpecifications");
            assert("modelType"@.len() == 9 && "idShort"@.len() == 7);
            assert("modelType"@.len() == 9 && "displayName"@.len() == 11);
            assert("modelType"@.len() == 9 && "description"@.len() == 11);
            assert("modelType"@.len() == 9 && "category"@.len() == 8);
            assert("modelType"@.len() == 9 && "extensions"@.len() == 10);
            assert("modelType"@.len() == 9 && "semanticId"@.len() == 10);
            assert("modelType"@.len() == 9 && "supplementalSemanticIds"@.len() == 23);
            assert("modelType"@.len() == 9 && "qualifiers"@.len() == 10);
            assert("modelType"@.len() == 9 && "embeddedDataSpecifications"@.len() == 26);
            assert("idShort"@.len() == 7 && "modelType"@.len() == 9);
            assert("idShort"@.len() == 7 && "displayName"@.len() == 11);
            assert("idShort"@.len() == 7 && "description"@.len() == 11);
            assert("idShort"@.len() == 7 && "category"@.len() == 8);
            assert("idShort"@.len() == 7 && "extensions"@.len() == 10);
            assert("idShort"@.len() == 7 && "semanticId"@.len() == 10);
            assert("idShort"@.len() == 7 && "supplementalSemanticIds"@.len() == 23);
            assert("idShort"@.len() == 7 && "qualifiers"@.len() == 10);
            assert("idShort"@.len() == 7 && "embeddedDataSpecifications"@.len() == 26);
            assert("displayName"@.len() == 11 && "modelType"@.len() == 9);
            assert("displayName"@.len() == 11 && "idShort"@.len() == 7);
            assert("displayName"@[1] != "description"@[1]);
            assert("displayName"@.len() == 11 && "category"@.len() == 8);
            assert("displayName"@.len() == 11 && "extensions"@.len() == 10);
            assert("displayName"@.len() == 11 && "semanticId"@.len() == 10);
            assert("displayName"@.len() == 11 && "supplementalSemanticIds"@.len() == 23);
            assert("displayName"@.len() == 11 && "qualifiers"@.len() == 10);
            assert("displayName"@.len() == 11 && "embeddedDataSpecifications"@.len() == 26);
            assert("description"@.len() == 11 && "modelType"@.len() == 9);
            assert("description"@.len() == 11 && "idShort"@.len() == 7);
            assert("description"@[1] != "displayName"@[1]);
            assert("description"@.len() == 11 && "category"@.len() == 8);
            assert("description"@.len() == 11 && "extensions"@.len() == 10);
            assert("description"@.len() == 11 && "semanticId"@.len() == 10);
            assert("description"@.len() == 11 && "supplementalSemanticIds"@.len() == 23);
            assert("description"@.len() == 11 && "qualifiers"@.len() == 10);
            assert("description"@.len() == 11 && "embeddedDataSpecifications"@.len() == 26);
            assert("category"@.len() == 8 && "modelType"@.len() == 9);
            assert("category"@.len() == 8 && "idShort"@.len() == 7);
            assert("category"@.len() == 8 && "displayName"@.len() == 11);
            assert("category"@.len() == 8 && "description"@.len() == 11);
            assert("category"@.len() == 8 && "extensions"@.len() == 10);
            assert("category"@.len() == 8 && "semanticId"@.len() == 10);
            assert("category"@.len() == 8 && "supplementalSemanticIds"@.len() == 23);
            assert("category"@.len() == 8 && "qualifiers"@.len() == 10);
            assert("category"@.len() == 8 && "embeddedDataSpecifications"@.len() == 26);
            assert("extensions"@.len() == 10 && "modelType"@.len() == 9);
            assert("extensions"@.len() == 10 && "idShort"@.len() == 7);
            assert("extensions"@.len() == 10 && "displayName"@.len() == 11);
            assert("extensions"@.len() == 10 && "description"@.len() == 11);
            assert("extensions"@.len() == 10 && "category"@.len() == 8);
            assert("extensions"@[0] != "semanticId"@[0]);
            assert("extensions"@.len() == 10 && "supplementalSemanticIds"@.len() == 23);
            assert("extensions"@[0] != "qualifiers"@[0]);
            assert("extensions"@.len() == 10 && "embeddedDataSpecifications"@.len() == 26);
            assert("semanticId"@.len() == 10 && "modelType"@.len() == 9);
            assert("semanticId"@.len() == 10 && "idShort"@.len() == 7);
            assert("semanticId"@.len() == 10 && "displayName"@.len() == 11);
            assert("semanticId"@.len() == 10 && "description"@.len() == 11);
            assert("semanticId"@.len() == 10 && "category"@.len() == 8);
            assert("semanticId"@[0] != "extensions"@[0]);
            assert("semanticId"@.len() == 10 && "supplementalSemanticIds"@.len() == 23);
            assert("semanticId"@[0] != "qualifiers"@[0]);
            assert("semanticId"@.len() == 10 && "embeddedDataSpecifications"@.len() == 26);
            assert("supplementalSemanticIds"@.len() == 23 && "modelType"@.len() == 9);
            assert("supplementalSemanticIds"@.len() == 23 && "idShort"@.len() == 7);
            assert("supplementalSemanticIds"@.len() == 23 && "displayName"@.len() == 11);
            assert("supplementalSemanticIds"@.len() == 23 && "description"@.len() == 11);
            assert("supplementalSemanticIds"@.len() == 23 && "category"@.len() == 8);
            assert("supplementalSemanticIds"@.len() == 23 && "extensions"@.len() == 10);
            assert("supplementalSemanticIds"@.len() == 23 && "semanticId"@.len() == 10);
            assert("supplementalSemanticIds"@.len() == 23 && "qualifiers"@.len() == 10);
            assert("supplementalSemanticIds"@.len() == 23 && "embeddedDataSpecifications"@.len() == 26);
            assert("qualifiers"@.len() == 10 && "modelType"@.len() == 9);
            assert("qualifiers"@.len() == 10 && "idShort"@.len() == 7);
            assert("qualifiers"@.len() == 10 && "displayName"@.len() == 11);
            assert("qualifiers"@.len() == 10 && "description"@.len() == 11);
            assert("qualifiers"@.len() == 10 && "category"@.len() == 8);
            assert("qualifiers"@[0] != "extensions"@[0]);
            assert("qualifiers"@[0] != "semanticId"@[0]);
            assert("qualifiers"@.len() == 10 && "supplementalSemanticIds"@.len() == 23);
            assert("qualifiers"@.len() == 10 && "embeddedDataSpecifications"@.len() == 26);
            assert("embeddedDataSpecifications"@.len() == 26 && "modelType"@.len() == 9);
            assert("embeddedDataSpecifications"@.len() == 26 && "idShort"@.len() == 7);
            assert("embeddedDataSpecifications"@.len() == 26 && "displayName"@.len() == 11);
            assert("embeddedDataSpecifications"@.len() == 26 && "description"@.len() == 11);
            assert("embeddedDataSpecifications"@.len() == 26 && "category"@.len() == 8);
            assert("embeddedDataSpecifications"@.len() == 26 && "extensions"@.len() == 10);
            assert("embeddedDataSpecifications"@.len() == 26 && "semanticId"@.len() == 10);
            assert("embeddedDataSpecifications"@.len() == 26 && "supplementalSemanticIds"@.len() == 23);
            assert("embeddedDataSpecifications"@.len() == 26 && "qualifiers"@.len() == 10);
        }
        let mut fs: Vec<(String, Json)> = Vec::new();
        let ghost prev = fs@;
        fs.push(field("modelType", Json::Str("Property".to_string())));
        proof {
            lemma_names_within_empty(prev, |n: Seq<char>| n == "modelType"@);
            if true {
                assert(fs@ == prev.push(fs@.last()));
                lemma_names_within_push(prev, fs@.last(), |n: Seq<char>| n == "modelType"@);
                lemma_lookup_push(prev, fs@.last(), "modelType"@);
            }
        }
        let ghost prev = fs@;
        let mut part = self.referable.encode_members();
        let ghost sp = part@;
        fs.append(&mut part);
        proof {
            lemma_names_within_concat(prev, sp, |n: Seq<char>| n == "modelType"@, |n: Seq<char>| referable_name(n), |n: Seq<char>| n == "modelType"@ || referable_name(n));
            lemma_lookup_concat(prev, sp, "modelType"@);
            lemma_lookup_outside(sp, |n: Seq<char>| referable_name(n), "modelType"@);
            lemma_lookup_concat(prev, sp, "idShort"@);
            lemma_lookup_outside(prev, |n: Seq<char>| n == "modelType"@, "idShort"@);
            lemma_lookup_concat(prev, sp, "displayName"@);
            lemma_lookup_outside(prev, |n: Seq<char>| n == "modelType"@, "displayName"@);
            lemma_lookup_concat(prev, sp, "description"@);
            lemma_lookup_outside(prev, |n: Seq<char>| n == "modelType"@, "description"@);
            lemma_lookup_concat(prev, sp, "category"@);
            lemma_lookup_outside(prev, |n: Seq<char>| n == "modelType"@, "category"@);
            lemma_lookup_concat(prev, sp, "extensions"@);
            lemma_lookup_outside(prev, |n: Seq<char>| n == "modelType"@, "extensions"@);
        }
        let ghost prev = fs@;
        let mut part = self.semantics.encode_members();
        let ghost sp = part@;
        fs.append(&mut part);
        proof {
            lemma_names_within_concat(prev, sp, |n: Seq<char>| n == "modelType"@ || referable_name(n), |n: Seq<char>| has_semantics_name(n), |n: Seq<char>| n == "modelType"@ || referable_name(n) || has_semantics_name(n));
            lemma_lookup_concat(prev, sp, "modelType"@);
            lemma_lookup_outside(sp, |n: Seq<char>| has_semantics_name(n), "modelType"@);
            lemma_lookup_concat(prev, sp, "idShort"@);
            lemma_lookup_outside(sp, |n: Seq<char>| has_semantics_name(n), "idShort"@);
            lemma_lookup_concat(prev, sp, "displayName"@);
            lemma_lookup_outside(sp, |n: Seq<char>| has_semantics_name(n), "displayName"@);
            lemma_lookup_concat(prev, sp, "description"@);
            lemma_lookup_outside(sp, |n: Seq<char>| has_semantics_name(n), "description"@);
            lemma_lookup_concat(prev, sp, "category"@);
            lemma_lookup_outside(sp, |n: Seq<char>| has_semantics_name(n), "category"@);
            lemma_lookup_concat(prev, sp, "extensions"@);
            lemma_lookup_outside(sp, |n: Seq<char>| has_semantics_name(n), "extensions"@);
            lemma_lookup_concat(prev, sp, "semanticId"@);
            lemma_lookup_outside(prev, |n: Seq<char>| n == "modelType"@ || referable_name(n), "semanticId"@);
            lemma_lookup_concat(prev, sp, "supplementalSemanticIds"@);
            lemma_lookup_outside(prev, |n: Seq<char>| n == "modelType"@ || referable_name(n), "supplementalSemanticIds"@);
        }
        let ghost prev = fs@;
        let mut part = self.qualifiable.encode_members();
        let ghost sp = part@;
        fs.append(&mut part);
        proof {
            lemma_names_within_concat(prev, sp, |n: Seq<char>| n == "modelType"@ || referable_name(n) || has_semantics_name(n), |n: Seq<char>| qualifiable_name(n), |n: Seq<char>| n == "modelType"@ || referable_name(n) || has_semantics_name(n) || qualifiable_name(n));
            lemma_lookup_concat(prev, sp, "modelType"@);
            lemma_lookup_outside(sp, |n: Seq<char>| qualifiable_name(n), "modelType"@);
            lemma_lookup_concat(prev, sp, "idShort"@);
            lemma_lookup_outside(sp, |n: Seq<char>| qualifiable_name(n), "idShort"@);
            lemma_lookup_concat(prev, sp, "displayName"@);
            lemma_lookup_outside(sp, |n: Seq<char>| qualifiable_name(n), "displayName"@);
            lemma_lookup_concat(prev, sp, "description"@);
            lemma_lookup_outside(sp, |n: Seq<char>| qualifiable_name(n), "description"@);
            lemma_lookup_concat(prev, sp, "category"@);
            lemma_lookup_outside(sp, |n: Seq<char>| qualifiable_name(n), "category"@);
            lemma_lookup_concat(prev, sp, "extensions"@);
            lemma_lookup_outside(sp, |n: Seq<char>| qualifiable_name(n), "extensions"@);
            lemma_lookup_concat(prev, sp, "semanticId"@);
            lemma_lookup_outside(sp, |n: Seq<char>| qualifiable_name(n), "semanticId"@);
            lemma_lookup_concat(prev, sp, "supplementalSemanticIds"@);
            lemma_lookup_outside(sp, |n: Seq<char>| qualifiable_name(n), "supplementalSemanticIds"@);
            lemma_lookup_concat(prev, sp, "qualifiers"@);
            lemma_lookup_outside(prev, |n: Seq<char>| n == "modelType"@ || referable_name(n) || has_semantics_name(n), "qualifiers"@);
        }
        let ghost prev = fs@;
        let mut part = self.embedded_data_specifications.encode_members();
        let ghost sp = part@;
        fs.append(&mut part);
        proof {
            lemma_names_within_concat(prev, sp, |n: Seq<char>| n == "modelType"@ || referable_name(n) || has_semantics_name(n) || qualifiable_name(n), |n: Seq<char>| has_data_specification_name(n), |n: Seq<char>| property_meta_name(n));
            lemma_lookup_concat(prev, sp, "modelType"@);
            lemma_lookup_outside(sp, |n: Seq<char>| has_data_specification_name(n), "modelType"@);
            lemma_lookup_concat(prev, sp, "idShort"@);
            lemma_lookup_outside(sp, |n: Seq<char>| has_data_specification_name(n), "idShort"@);
            lemma_lookup_concat(prev, sp, "displayName"@);
            lemma_lookup_outside(sp, |n: Seq<char>| has_data_specification_name(n), "displayName"@);
            lemma_lookup_concat(prev, sp, "description"@);
            lemma_lookup_outside(sp, |n: Seq<char>| has_data_specification_name(n), "description"@);
            lemma_lookup_concat(prev, sp, "category"@);
            lemma_lookup_outside(sp, |n: Seq<char>| has_data_specification_name(n), "category"@);
            lemma_lookup_concat(prev, sp, "extensions"@);
            lemma_lookup_outside(sp, |n: Seq<char>| has_data_specification_name(n), "extensions"@);
            lemma_lookup_concat(prev, sp, "semanticId"@);
            lemma_lookup_outside(sp, |n: Seq<char>| has_data_specification_name(n), "semanticId"@);
            lemma_lookup_concat(prev, sp, "supplementalSemanticIds"@);
            lemma_lookup_outside(sp, |n: Seq<char>| has_data_specification_name(n), "supplementalSemanticIds"@);
            lemma_lookup_concat(prev, sp, "qualifiers"@);
            lemma_lookup_outside(sp, |n: Seq<char>| has_data_specification_name(n), "qualifiers"@);
            lemma_lookup_concat(prev, sp, "embeddedDataSpecifications"@);
            lemma_lookup_outside(prev, |n: Seq<char>| n == "modelType"@ || referable_name(n) || has_semantics_name(n) || qualifiable_name(n), "embeddedDataSpecifications"@);
        }
        fs
    }

    /// Reads the members of the value from `fs`.
    pub fn decode_members(fs: &Vec<(String, Json)>) -> (r: Result<PropertyMeta, DecodeError>)
        ensures
            match property_meta_error(fs@) {
                Some(e) => r == Err::<PropertyMeta, DecodeError>(e),
                None => r matches Ok(x) && property_meta_rel(x, fs@),
            },
    {
        match get_member(fs, "modelType") {
            None => return Err(DecodeError::MissingField),
            Some(Json::Str(t)) => if !str_eq(t.as_str(), "Property") {
                return Err(DecodeError::UnknownDiscriminator);
            },
            Some(_) => return Err(DecodeError::UnexpectedKind),
        }
        let referable = match Referable::decode_members(fs) {
            Ok(v) => v,
            Err(e) => return Err(e),
        };
        let semantics = match HasSemantics::decode_members(fs) {
            Ok(v) => v,
            Err(e) => return Err(e),
        };
        let qualifiable = match Qualifiable::decode_members(fs) {
            Ok(v) => v,
            Err(e) => return Err(e),
        };
        let embedded_data_specifications = match HasDataSpecification::decode_members(fs) {
            Ok(v) => v,
            Err(e) => return Err(e),
        };
        Ok(PropertyMeta { referable, semantics, qualifiable, embedded_data_specifications })
    }
}

/// Members found as encoding writes them decode to a value, whatever
/// other members stand beside them.
pub proof fn lemma_property_meta_round_trip(x: PropertyMeta, fs: Seq<(String, Json)>)
    requires
        property_meta_wf(x),
        property_meta_lookups(x, fs),
    ensures
        property_meta_error(fs) is None,
        property_meta_rel(x, fs),
{
    lemma_referable_round_trip(x.referable, fs);
    lemma_has_semantics_round_trip(x.semantics, fs);
    lemma_qualifiable_round_trip(x.qualifiable, fs);
    lemma_has_data_specification_round_trip(x.embedded_data_specifications, fs);
}

/// The values that the same members decode to hold the same content.
pub proof fn lemma_property_meta_unique(x: PropertyMeta, y: PropertyMeta, fs: Seq<(String, Json)>)
    requires
        property_meta_rel(x, fs),
        property_meta_rel(y, fs),
    ensures
        property_meta_equiv(x, y),
{
    lemma_referable_unique(x.referable, y.referable, fs);
    lemma_has_semantics_unique(x.semantics, y.semantics, fs);
    lemma_qualifiable_unique(x.qualifiable, y.qualifiable, fs);
    lemma_has_data_specification_unique(x.embedded_data_specifications, y.embedded_data_specifications, fs);
}

impl JsonCodec for PropertyMeta {
    open spec fn wf(&self) -> bool {
        property_meta_wf(*self)
    }

    open spec fn encoded(&self, j: Json) -> bool {
        j matches Json::Object(fs) && property_meta_encoded(*self, fs@)
    }

    open spec fn rel(&self, j: Json) -> bool {
        j matches Json::Object(fs) && property_meta_rel(*self, fs@)
    }

    open spec fn decode_error(j: Json) -> Option<DecodeError> {
        match j {
            Json::Object(fs) => property_meta_error(fs@),
            _ => Some(DecodeError::UnexpectedKind),
        }
    }

    open spec fn equiv(&self, o: &Self) -> bool {
        property_meta_equiv(*self, *o)
    }

    fn encode(&self) -> (r: Json) {
        Json::Object(self.encode_members())
    }

    fn decode(j: &Json) -> (r: Result<Self, DecodeError>) {
        match j {
            Json::Object(fs) => PropertyMeta::decode_members(fs),
            _ => Err(DecodeError::UnexpectedKind),
        }
    }

    proof fn lemma_round_trip(&self, j: Json) {
        lemma_property_meta_round_trip(*self, j->Object_0@);
    }

    proof fn lemma_unique(&self, o: &Self, j: Json) {
        lemma_property_meta_unique(*self, *o, j->Object_0@);
    }
}

/// A data element holding binary content together with its content type.
#[derive(Clone, Debug, PartialEq)]
pub struct Blob {
    pub referable: Referable,
    pub semantics: HasSemantics,
    pub qualifiable: Qualifiable,
    pub embedded_data_specifications: HasDataSpecification,
    pub value: Option<String>,
    pub content_type: String,
}

/// A name of the members of `Blob`.
pub open spec fn blob_name(n: Seq<char>) -> bool {
    n == "modelType"@ || referable_name(n) || has_semantics_name(n) || qualifiable_name(n) || has_data_specification_name(n) || n == "value"@ || n == "contentType"@
}

/// Looking up the members of `Blob` in `fs` finds what encoding writes for `x`.
pub open spec fn blob_lookups(x: Blob, fs: Seq<(String, Json)>) -> bool {
    &&& lookup(fs, "modelType"@) matches Some(Json::Str(t)) && t@ == "Blob"@
    &&& referable_lookups(x.referable, fs)
    &&& has_semantics_lookups(x.semantics, fs)
    &&& qualifiable_lookups(x.qualifiable, fs)
    &&& has_data_specification_lookups(x.embedded_data_specifications, fs)
    &&& opt_encoded(x.value, lookup(fs, "value"@))
    &&& req_encoded(x.content_type, lookup(fs, "contentType"@))
}

/// `fs` are the members that encoding writes for `x`.
pub open spec fn blob_encoded(x: Blob, fs: Seq<(String, Json)>) -> bool {
    &&& names_within(fs, |n: Seq<char>| blob_name(n))
    &&& blob_lookups(x, fs)
}

/// The members of `fs` decode to `x`.
pub open spec fn blob_rel(x: Blob, fs: Seq<(String, Json)>) -> bool {
    &&& member(fs, "modelType"@) matches Some(Json::Str(t)) && t@ == "Blob"@
    &&& referable_rel(x.referable, fs)
    &&& has_semantics_rel(x.semantics, fs)
    &&& qualifiable_rel(x.qualifiable, fs)
    &&& has_data_specification_rel(x.embedded_data_specifications, fs)
    &&& opt_rel(x.value, member(fs, "value"@))
    &&& req_rel(x.content_type, member(fs, "contentType"@))
}

/// The error, if any, of decoding the members of `Blob` from `fs`.
pub open spec fn blob_error(fs: Seq<(String, Json)>) -> Option<DecodeError> {
    match member(fs, "modelType"@) {
        None => Some(DecodeError::MissingField),
        Some(Json::Str(t)) => if t@ == "Blob"@ {
            match referable_error(fs) {
                Some(e) => Some(e),
                None => {
                    match has_semantics_error(fs) {
                        Some(e) => Some(e),
                        None => {
                            match qualifiable_error(fs) {
                                Some(e) => Some(e),
                                None => {
                                    match has_data_specification_error(fs) {
                                        Some(e) => Some(e),
                                        None => {
                                            match opt_error::<String>(member(fs, "value"@)) {
                                                Some(e) => Some(e),
                                                None => {
                                                    match req_error::<String>(member(fs, "contentType"@)) {
                                                        Some(e) => Some(e),
                                                        None => {
                                                            None
                                                        },
                                                    }
                                                },
                                            }
                                        },
                                    }
                                },
                            }
                        },
                    }
                },
            }
        } else {
            Some(DecodeError::UnknownDiscriminator)
        },
        Some(_) => Some(DecodeError::UnexpectedKind),
    }
}

/// The values of `x` are well-formed.
pub open spec fn blob_wf(x: Blob) -> bool {
    &&& referable_wf(x.referable)
    &&& has_semantics_wf(x.semantics)
    &&& qualifiable_wf(x.qualifiable)
    &&& has_data_specification_wf(x.embedded_data_specifications)
    &&& opt_wf(x.value)
    &&& x.content_type.wf()
}

/// `x` and `y` hold the same content.
pub open spec fn blob_equiv(x: Blob, y: Blob) -> bool {
    &&& referable_equiv(x.referable, y.referable)
    &&& has_semantics_equiv(x.semantics, y.semantics)
    &&& qualifiable_equiv(x.qualifiable, y.qualifiable)
    &&& has_data_specification_equiv(x.embedded_data_specifications, y.embedded_data_specifications)
    &&& opt_equiv(x.value, y.value)
    &&& x.content_type.equiv(&y.content_type)
}

impl Blob {
    /// Writes the members of the value, absent ones left out.
    #[verifier::rlimit(100)]
    #[verifier::spinoff_prover]
    pub fn encode_members(&self) -> (r: Vec<(String, Json)>)
        ensures
            blob_encoded(*self, r@),
    {
        proof {
            reveal_strlit("modelType");
            reveal_strlit("idShort");
            reveal_strlit("displayName");
            reveal_strlit("description");
            reveal_strlit("category");
            reveal_strlit("extensions");
            reveal_strlit("semanticId");
            reveal_strlit("supplementalSemanticIds");
            reveal_strlit("qualifiers");
            reveal_strlit("embeddedDataSpecifications");
            reveal_strlit("value");
            reveal_strlit("contentType");
            assert("modelType"@.len() == 9 && "idShort"@.len() == 7);
            assert("modelType"@.len() == 9 && "displayName"@.len() == 11);
            assert("modelType"@.len() == 9 && "description"@.len() == 11);
            assert("modelType"@.len() == 9 && "category"@.len() == 8);
            assert("modelType"@.len() == 9 && "extensions"@.len() == 10);
            assert("modelType"@.len() == 9 && "semanticId"@.len() == 10);
            assert("modelType"@.len() == 9 && "supplementalSemanticIds"@.len() == 23);
            assert("modelType"@.len() == 9 && "qualifiers"@.len() == 10);
            assert("modelType"@.len() == 9 && "embeddedDataSpecifications"@.len() == 26);
            assert("modelType"@.len() == 9 && "value"@.len() == 5);
            assert("modelType"@.len() == 9 && "contentType"@.len() == 11);
            assert("idShort"@.len() == 7 && "modelType"@.len() == 9);
            assert("idShort"@.len() == 7 && "displayName"@.len() == 11);
            assert("idShort"@.len() == 7 && "description"@.len() == 11);
            assert("idShort"@.len() == 7 && "category"@.len() == 8);
            assert("idShort"@.len() == 7 && "extensions"@.len() == 10);
            assert("idShort"@.len() == 7 && "semanticId"@.len() == 10);
            assert("idShort"@.len() == 7 && "supplementalSemanticIds"@.len() == 23);
            assert("idShort"@.len() == 7 && "qualifiers"@.len() == 10);
            assert("idShort"@.len() == 7 && "embeddedDataSpecifications"@.len() == 26);
            assert("idShort"@.len() == 7 && "value"@.len() == 5);
            assert("idShort"@.len() == 7 && "contentType"@.len() == 11);
            assert("displayName"@.len() == 11 && "modelType"@.len() == 9);
            assert("displayName"@.len() == 11 && "idShort"@.len() == 7);
            assert("displayName"@[1] != "description"@[1]);
            assert("displayName"@.len() == 11 && "category"@.len() == 8);
            assert("displayName"@.len() == 11 && "extensions"@.len() == 10);
            assert("displayName"@.len() == 11 && "semanticId"@.len() == 10);
            assert("displayName"@.len() == 11 && "supplementalSemanticIds"@.len() == 23);
            assert("displayName"@.len() == 11 && "qualifiers"@.len() == 10);
            assert("displayName"@.len() == 11 && "embeddedDataSpecifications"@.len() == 26);
            assert("displayName"@.len() == 11 && "value"@.len() == 5);
            assert("displayName"@[0] != "contentType"@[0]);
            assert("description"@.len() == 11 && "modelType"@.len() == 9);
            assert("description"@.len() == 11 && "idShort"@.len() == 7);
            assert("description"@[1] != "displayName"@[1]);
            assert("description"@.len() == 11 && "category"@.len() == 8);
            assert("description"@.len() == 11 && "extensions"@.len() == 10);
            assert("description"@.len() == 11 && "semanticId"@.len() == 10);
            assert("description"@.len() == 11 && "supplementalSemanticIds"@.len() == 23);
            assert("description"@.len() == 11 && "qualifiers"@.len() == 10);
            assert("description"@.len() == 11 && "embeddedDataSpecifications"@.len() == 26);
            assert("description"@.len() == 11 && "value"@.len() == 5);
            assert("description"@[0] != "contentType"@[0]);
            assert("category"@.len() == 8 && "modelType"@.len() == 9);
            assert("category"@.len() == 8 && "idShort"@.len() == 7);
            assert("category"@.len() == 8 && "displayName"@.len() == 11);
            assert("category"@.len() == 8 && "description"@.len() == 11);
            assert("category"@.len() == 8 && "extensions"@.len() == 10);
            assert("category"@.len() == 8 && "semanticId"@.len() == 10);
            assert("category"@.len() == 8 && "supplementalSemanticIds"@.len() == 23);
            assert("category"@.len() == 8 && "qualifiers"@.len() == 10);
            assert("category"@.len() == 8 && "embeddedDataSpecifications"@.len() == 26);
            assert("category"@.len() == 8 && "value"@.len() == 5);
            assert("category"@.len() == 8 && "contentType"@.len() == 11);
            assert("extensions"@.len() == 10 && "modelType"@.len() == 9);
            assert("extensions"@.len() == 10 && "idShort"@.len() == 7);
            assert("extensions"@.len() == 10 && "displayName"@.len() == 11);
            assert("extensions"@.len() == 10 && "description"@.len() == 11);
            assert("extensions"@.len() == 10 && "category"@.len() == 8);
            assert("extensions"@[0] != "semanticId"@[0]);
            assert("extensions"@.len() == 10 && "supplementalSemanticIds"@.len() == 23);
            assert("extensions"@[0] != "qualifiers"@[0]);
            assert("extensions"@.len() == 10 && "embeddedDataSpecifications"@.len() == 26);
            assert("extensions"@.len() == 10 && "value"@.len() == 5);
            assert("extensions"@.len() == 10 && "contentType"@.len() == 11);
            assert("semanticId"@.len() == 10 && "modelType"@.len() == 9);
            assert("semanticId"@.len() == 10 && "idShort"@.len() == 7);
            assert("semanticId"@.len() == 10 && "displayName"@.len() == 11);
            assert("semanticId"@.len() == 10 && "description"@.len() == 11);
            assert("semanticId"@.len() == 10 && "category"@.len() == 8);
            assert("semanticId"@[0] != "extensions"@[0]);
            assert("semanticId"@.len() == 10 && "supplementalSemanticIds"@.len() == 23);
            assert("semanticId"@[0] != "qualifiers"@[0]);
            assert("semanticId"@.len() == 10 && "embeddedDataSpecifications"@.len() == 26);
            assert("semanticId"@.len() == 10 && "value"@.len() == 5);
            assert("semanticId"@.len() == 10 && "contentType"@.len() == 11);
            assert("supplementalSemanticIds"@.len() == 23 && "modelType"@.len() == 9);
            assert("supplementalSemanticIds"@.len() == 23 && "idShort"@.len() == 7);
            assert("supplementalSemanticIds"@.len() == 23 && "displayName"@.len() == 11);
            assert("supplementalSemanticIds"@.len() == 23 && "description"@.len() == 11);
            assert("supplementalSemanticIds"@.len() == 23 && "category"@.len() == 8);
            assert("supplementalSemanticIds"@.len() == 23 && "extensions"@.len() == 10);
            assert("supplementalSemanticIds"@.len() == 23 && "semanticId"@.len() == 10);
            assert("supplementalSemanticIds"@.len() == 23 && "qualifiers"@.len() == 10);
            assert("supplementalSemanticIds"@.len() == 23 && "embeddedDataSpecifications"@.len() == 26);
            assert("supplementalSemanticIds"@.len() == 23 && "value"@.len() == 5);
            assert("supplementalSemanticIds"@.len() == 23 && "contentType"@.len() == 11);
            assert("qualifiers"@.len() == 10 && "modelType"@.len() == 9);
            assert("qualifiers"@.len() == 10 && "idShort"@.len() == 7);
            assert("qualifiers"@.len() == 10 && "displayName"@.len() == 11);
            assert("qualifiers"@.len() == 10 && "description"@.len() == 11);
            assert("qualifiers"@.len() == 10 && "category"@.len() == 8);
            assert("qualifiers"@[0] != "extensions"@[0]);
            assert("qualifiers"@[0] != "semanticId"@[0]);
            assert("qualifiers"@.len() == 10 && "supplementalSemanticIds"@.len() == 23);
            assert("qualifiers"@.len() == 10 && "embeddedDataSpecifications"@.len() == 26);
            assert("qualifiers"@.len() == 10 && "value"@.len() == 5);
            assert("qualifiers"@.len() == 10 && "contentType"@.len() == 11);
            assert("embeddedDataSpecifications"@.len() == 26 && "modelType"@.len() == 9);
            assert("embeddedDataSpecifications"@.len() == 26 && "idShort"@.len() == 7);
            assert("embeddedDataSpecifications"@.len() == 26 && "displayName"@.len() == 11);
            assert("embeddedDataSpecifications"@.len() == 26 && "description"@.len() == 11);
            assert("embeddedDataSpecifications"@.len() == 26 && "category"@.len() == 8);
            assert("embeddedDataSpecifications"@.len() == 26 && "extensions"@.len() == 10);
            assert("embeddedDataSpecifications"@.len() == 26 && "semanticId"@.len() == 10);
            assert("embeddedDataSpecifications"@.len() == 26 && "supplementalSemanticIds"@.len() == 23);
            assert("embeddedDataSpecifications"@.len() == 26 && "qualifiers"@.len() == 10);
            assert("embeddedDataSpecifications"@.len() == 26 && "value"@.len() == 5);
            assert("embeddedDataSpecifications"@.len() == 26 && "contentType"@.len() == 11);
            assert("value"@.len() == 5 && "modelType"@.len() == 9);
            assert("value"@.len() == 5 && "idShort"@.len() == 7);
            assert("value"@.len() == 5 && "displayName"@.len() == 11);
            assert("value"@.len() == 5 && "description"@.len() == 11);
            assert("value"@.len() == 5 && "category"@.len() == 8);
            assert("value"@.len() == 5 && "extensions"@.len() == 10);
            assert("value"@.len() == 5 && "semanticId"@.len() == 10);
            assert("value"@.len() == 5 && "supplementalSemanticIds"@.len() == 23);
            assert("value"@.len() == 5 && "qualifiers"@.len() == 10);
            assert("value"@.len() == 5 && "embeddedDataSpecifications"@.len() == 26);
            assert("value"@.len() == 5 && "contentType"@.len() == 11);
            assert("contentType"@.len() == 11 && "modelType"@.len() == 9);
            assert("contentType"@.len() == 11 && "idShort"@.len() == 7);
            assert("contentType"@[0] != "displayName"@[0]);
            assert("contentType"@[0] != "description"@[0]);
            assert("contentType"@.len() == 11 && "category"@.len() == 8);
            assert("contentType"@.len() == 11 && "extensions"@.len() == 10);
            assert("contentType"@.len() == 11 && "semanticId"@.len() == 10);
            assert("contentType"@.len() == 11 && "supplementalSemanticIds"@.len() == 23);
            assert("contentType"@.len() == 11 && "qualifiers"@.len() == 10);
            assert("contentType"@.len() == 11 && "embeddedDataSpecifications"@.len() == 26);
            assert("contentType"@.len() == 11 && "value"@.len() == 5);
        }
        let mut fs: Vec<(String, Json)> = Vec::new();
        let ghost prev = fs@;
        fs.push(field("modelType", Json::Str("Blob".to_string())));
        proof {
            lemma_names_within_empty(prev, |n: Seq<char>| n == "modelType"@);
            if true {
                assert(fs@ == prev.push(fs@.last()));
                lemma_names_within_push(prev, fs@.last(), |n: Seq<char>| n == "modelType"@);
                lemma_lookup_push(prev, fs@.last(), "modelType"@);
            }
        }
        let ghost prev = fs@;
        let mut part = self.referable.encode_members();
        let ghost sp = part@;
        fs.append(&mut part);
        proof {
            lemma_names_within_concat(prev, sp, |n: Seq<char>| n == "modelType"@, |n: Seq<char>| referable_name(n), |n: Seq<char>| n == "modelType"@ || referable_name(n));
            lemma_lookup_concat(prev, sp, "modelType"@);
            lemma_lookup_outside(sp, |n: Seq<char>| referable_name(n), "modelType"@);
            lemma_lookup_concat(prev, sp, "idShort"@);
            lemma_lookup_outside(prev, |n: Seq<char>| n == "modelType"@, "idShort"@);
            lemma_lookup_concat(prev, sp, "displayName"@);
            lemma_lookup_outside(prev, |n: Seq<char>| n == "modelType"@, "displayName"@);
            lemma_lookup_concat(prev, sp, "description"@);
            lemma_lookup_outside(prev, |n: Seq<char>| n == "modelType"@, "description"@);
            lemma_lookup_concat(prev, sp, "category"@);
            lemma_lookup_outside(prev, |n: Seq<char>| n == "modelType"@, "category"@);
            lemma_lookup_concat(prev, sp, "extensions"@);
            lemma_lookup_outside(prev, |n: Seq<char>| n == "modelType"@, "extensions"@);
        }
        let ghost prev = fs@;
        let mut part = self.semantics.encode_members();
        let ghost sp = part@;
        fs.append(&mut part);
        proof {
            lemma_names_within_concat(prev, sp, |n: Seq<char>| n == "modelType"@ || referable_name(n), |n: Seq<char>| has_semantics_name(n), |n: Seq<char>| n == "modelType"@ || referable_name(n) || has_semantics_name(n));
            lemma_lookup_concat(prev, sp, "modelType"@);
            lemma_lookup_outside(sp, |n: Seq<char>| has_semantics_name(n), "modelType"@);
            lemma_lookup_concat(prev, sp, "idShort"@);
            lemma_lookup_outside(sp, |n: Seq<char>| has_semantics_name(n), "idShort"@);
            lemma_lookup_concat(prev, sp, "displayName"@);
            lemma_lookup_outside(sp, |n: Seq<char>| has_semantics_name(n), "displayName"@);
            lemma_lookup_concat(prev, sp, "description"@);
            lemma_lookup_outside(sp, |n: Seq<char>| has_semantics_name(n), "description"@);
            lemma_lookup_concat(prev, sp, "category"@);
            lemma_lookup_outside(sp, |n: Seq<char>| has_semantics_name(n), "category"@);
            lemma_lookup_concat(prev, sp, "extensions"@);
            lemma_lookup_outside(sp, |n: Seq<char>| has_semantics_name(n), "extensions"@);
            lemma_lookup_concat(prev, sp, "semanticId"@);
            lemma_lookup_outside(prev, |n: Seq<char>| n == "modelType"@ || referable_name(n), "semanticId"@);
            lemma_lookup_concat(prev, sp, "supplementalSemanticIds"@);
            lemma_lookup_outside(prev, |n: Seq<char>| n == "modelType"@ || referable_name(n), "supplementalSemanticIds"@);
        }
        let ghost prev = fs@;
        let mut part = self.qualifiable.encode_members();
        let ghost sp = part@;
        fs.append(&mut part);
        proof {
            lemma_names_within_concat(prev, sp, |n: Seq<char>| n == "modelType"@ || referable_name(n) || has_semantics_name(n), |n: Seq<char>| qualifiable_name(n), |n: Seq<char>| n == "modelType"@ || referable_name(n) || has_semantics_name(n) || qualifiable_name(n));
            lemma_lookup_concat(prev, sp, "modelType"@);
            lemma_lookup_outside(sp, |n: Seq<char>| qualifiable_name(n), "modelType"@);
            lemma_lookup_concat(prev, sp, "idShort"@);
            lemma_lookup_outside(sp, |n: Seq<char>| qualifiable_name(n), "idShort"@);
            lemma_lookup_concat(prev, sp, "displayName"@);
            lemma_lookup_outside(sp, |n: Seq<char>| qualifiable_name(n), "displayName"@);
            lemma_lookup_concat(prev, sp, "description"@);
            lemma_lookup_outside(sp, |n: Seq<char>| qualifiable_name(n), "description"@);
            lemma_lookup_concat(prev, sp, "category"@);
            lemma_lookup_outside(sp, |n: Seq<char>| qualifiable_name(n), "category"@);
            lemma_lookup_concat(prev, sp, "extensions"@);
            lemma_lookup_outside(sp, |n: Seq<char>| qualifiable_name(n), "extensions"@);
            lemma_lookup_concat(prev, sp, "semanticId"@);
            lemma_lookup_outside(sp, |n: Seq<char>| qualifiable_name(n), "semanticId"@);
            lemma_lookup_concat(prev, sp, "supplementalSemanticIds"@);
            lemma_lookup_outside(sp, |n: Seq<char>| qualifiable_name(n), "supplementalSemanticIds"@);
            lemma_lookup_concat(prev, sp, "qualifiers"@);
            lemma_lookup_outside(prev, |n: Seq<char>| n == "modelType"@ || referable_name(n) || has_semantics_name(n), "qualifiers"@);
        }
        let ghost prev = fs@;
        let mut part = self.embedded_data_specifications.encode_members();
        let ghost sp = part@;
        fs.append(&mut part);
        proof {
            lemma_names_within_concat(prev, sp, |n: Seq<char>| n == "modelType"@ || referable_name(n) || has_semantics_name(n) || qualifiable_name(n), |n: Seq<char>| has_data_specification_name(n), |n: Seq<char>| n == "modelType"@ || referable_name(n) || has_semantics_name(n) || qualifiable_name(n) || has_data_specification_name(n));
            lemma_lookup_concat(prev, sp, "modelType"@);
            lemma_lookup_outside(sp, |n: Seq<char>| has_data_specification_name(n), "modelType"@);
            lemma_lookup_concat(prev, sp, "idShort"@);
            lemma_lookup_outside(sp, |n: Seq<char>| has_data_specification_name(n), "idShort"@);
            lemma_lookup_concat(prev, sp, "displayName"@);
            lemma_lookup_outside(sp, |n: Seq<char>| has_data_specification_name(n), "displayName"@);
            lemma_lookup_concat(prev, sp, "description"@);
            lemma_lookup_outside(sp, |n: Seq<char>| has_data_specification_name(n), "description"@);
            lemma_lookup_concat(prev, sp, "category"@);
            lemma_lookup_outside(sp, |n: Seq<char>| has_data_specification_name(n), "category"@);
            lemma_lookup_concat(prev, sp, "extensions"@);
            lemma_lookup_outside(sp, |n: Seq<char>| has_data_specification_name(n), "extensions"@);
            lemma_lookup_concat(prev, sp, "semanticId"@);
            lemma_lookup_outside(sp, |n: Seq<char>| has_data_specification_name(n), "semanticId"@);
            lemma_lookup_concat(prev, sp, "supplementalSemanticIds"@);
            lemma_lookup_outside(sp, |n: Seq<char>| has_data_specification_name(n), "supplementalSemanticIds"@);
            lemma_lookup_concat(prev, sp, "qualifiers"@);
            lemma_lookup_outside(sp, |n: Seq<char>| has_data_specification_name(n), "qualifiers"@);
            lemma_lookup_concat(prev, sp, "embeddedDataSpecifications"@);
            lemma_lookup_outside(prev, |n: Seq<char>| n == "modelType"@ || referable_name(n) || has_semantics_name(n) || qualifiable_name(n), "embeddedDataSpecifications"@);
        }
        let ghost prev = fs@;
        push_opt(&mut fs, "value", &self.value);
        proof {
            lemma_names_within_weaken(prev, |n: Seq<char>| n == "modelType"@ || referable_name(n) || has_semantics_name(n) || qualifiable_name(n) || has_data_specification_name(n), |n: Seq<char>| n == "modelType"@ || referable_name(n) || has_semantics_name(n) || qualifiable_name(n) || has_data_specification_name(n) || n == "value"@);
            lemma_lookup_outside(prev, |n: Seq<char>| n == "modelType"@ || referable_name(n) || has_semantics_name(n) || qualifiable_name(n) || has_data_specification_name(n), "value"@);
            if self.value is Some {
                assert(fs@ == prev.push(fs@.last()));
                lemma_names_within_push(prev, fs@.last(), |n: Seq<char>| n == "modelType"@ || referable_name(n) || has_semantics_name(n) || qualifiable_name(n) || has_data_specification_name(n) || n == "value"@);
                lemma_lookup_push(prev, fs@.last(), "modelType"@);
                lemma_lookup_push(prev, fs@.last(), "idShort"@);
                lemma_lookup_push(prev, fs@.last(), "displayName"@);
                lemma_lookup_push(prev, fs@.last(), "description"@);
                lemma_lookup_push(prev, fs@.last(), "category"@);
                lemma_lookup_push(prev, fs@.last(), "extensions"@);
                lemma_lookup_push(prev, fs@.last(), "semanticId"@);
                lemma_lookup_push(prev, fs@.last(), "supplementalSemanticIds"@);
                lemma_lookup_push(prev, fs@.last(), "qualifiers"@);
                lemma_lookup_push(prev, fs@.last(), "embeddedDataSpecifications"@);
                lemma_lookup_push(prev, fs@.last(), "value"@);
            }
        }
        let ghost prev = fs@;
        push_req(&mut fs, "contentType", &self.content_type);
        proof {
            lemma_names_within_weaken(prev, |n: Seq<char>| n == "modelType"@ || referable_name(n) || has_semantics_name(n) || qualifiable_name(n) || has_data_specification_name(n) || n == "value"@, |n: Seq<char>| blob_name(n));
            lemma_lookup_outside(prev, |n: Seq<char>| n == "modelType"@ || referable_name(n) || has_semantics_name(n) || qualifiable_name(n) || has_data_specification_name(n) || n == "value"@, "contentType"@);
            if true {
                assert(fs@ == prev.push(fs@.last()));
                lemma_names_within_push(prev, fs@.last(), |n: Seq<char>| blob_name(n));
                lemma_lookup_push(prev, fs@.last(), "modelType"@);
                lemma_lookup_push(prev, fs@.last(), "idShort"@);
                lemma_lookup_push(prev, fs@.last(), "displayName"@);
                lemma_lookup_push(prev, fs@.last(), "description"@);
                lemma_lookup_push(prev, fs@.last(), "category"@);
                lemma_lookup_push(prev, fs@.last(), "extensions"@);
                lemma_lookup_push(prev, fs@.last(), "semanticId"@);
                lemma_lookup_push(prev, fs@.last(), "supplementalSemanticIds"@);
                lemma_lookup_push(prev, fs@.last(), "qualifiers"@);
                lemma_lookup_push(prev, fs@.last(), "embeddedDataSpecifications"@);
                lemma_lookup_push(prev, fs@.last(), "value"@);
                lemma_lookup_push(prev, fs@.last(), "contentType"@);
            }
        }
        fs
    }

    /// Reads the members of the value from `fs`.
    pub fn decode_members(fs: &Vec<(String, Json)>) -> (r: Result<Blob, DecodeError>)
        ensures
            match blob_error(fs@) {
                Some(e) => r == Err::<Blob, DecodeError>(e),
                None => r matches Ok(x) && blob_rel(x, fs@),
            },
    {
        match get_member(fs, "modelType") {
            None => return Err(DecodeError::MissingField),
            Some(Json::Str(t)) => if !str_eq(t.as_str(), "Blob") {
                return Err(DecodeError::UnknownDiscriminator);
            },
            Some(_) => return Err(DecodeError::UnexpectedKind),
        }
        let referable = match Referable::decode_members(fs) {
            Ok(v) => v,
            Err(e) => return Err(e),
        };
        let semantics = match HasSemantics::decode_members(fs) {
            Ok(v) => v,
            Err(e) => return Err(e),
        };
        let qualifiable = match Qualifiable::decode_members(fs) {
            Ok(v) => v,
            Err(e) => return Err(e),
        };
        let embedded_data_specifications = match HasDataSpecification::decode_members(fs) {
            Ok(v) => v,
            Err(e) => return Err(e),
        };
        let value = match decode_opt::<String>(fs, "value") {
            Ok(v) => v,
            Err(e) => return Err(e),
        };
        let content_type = match decode_req::<String>(fs, "contentType") {
            Ok(v) => v,
            Err(e) => return Err(e),
        };
        Ok(Blob { referable, semantics, qualifiable, embedded_data_specifications, value, content_type })
    }
}

/// Members found as encoding writes them decode to a value, whatever
/// other members stand beside them.
pub proof fn lemma_blob_round_trip(x: Blob, fs: Seq<(String, Json)>)
    requires
        blob_wf(x),
        blob_lookups(x, fs),
    ensures
        blob_error(fs) is None,
        blob_rel(x, fs),
{
    lemma_referable_round_trip(x.referable, fs);
    lemma_has_semantics_round_trip(x.semantics, fs);
    lemma_qualifiable_round_trip(x.qualifiable, fs);
    lemma_has_data_specification_round_trip(x.embedded_data_specifications, fs);
    lemma_opt_round_trip(x.value, lookup(fs, "value"@));
    lemma_req_round_trip(x.content_type, lookup(fs, "contentType"@));
}

/// The values that the same members decode to hold the same content.
pub proof fn lemma_blob_unique(x: Blob, y: Blob, fs: Seq<(String, Json)>)
    requires
        blob_rel(x, fs),
        blob_rel(y, fs),
    ensures
        blob_equiv(x, y),
{
    lemma_referable_unique(x.referable, y.referable, fs);
    lemma_has_semantics_unique(x.semantics, y.semantics, fs);
    lemma_qualifiable_unique(x.qualifiable, y.qualifiable, fs);
    lemma_has_data_specification_unique(x.embedded_data_specifications, y.embedded_data_specifications, fs);
    lemma_opt_unique(x.value, y.value, member(fs, "value"@));
    lemma_req_unique(x.content_type, y.content_type, member(fs, "contentType"@));
}

impl JsonCodec for Blob {
    open spec fn wf(&self) -> bool {
        blob_wf(*self)
    }

    open spec fn encoded(&self, j: Json) -> bool {
        j matches Json::Object(fs) && blob_encoded(*self, fs@)
    }

    open spec fn rel(&self, j: Json) -> bool {
        j matches Json::Object(fs) && blob_rel(*self, fs@)
    }

    open spec fn decode_error(j: Json) -> Option<DecodeError> {
        match j {
            Json::Object(fs) => blob_error(fs@),
            _ => Some(DecodeError::UnexpectedKind),
        }
    }

    open spec fn equiv(&self, o: &Self) -> bool {
        blob_equiv(*self, *o)
    }

    fn encode(&self) -> (r: Json) {
        Json::Object(self.encode_members())
    }

    fn decode(j: &Json) -> (r: Result<Self, DecodeError>) {
        match j {
            Json::Object(fs) => Blob::decode_members(fs),
            _ => Err(DecodeError::UnexpectedKind),
        }
    }

    proof fn lemma_round_trip(&self, j: Json) {
        lemma_blob_round_trip(*self, j->Object_0@);
    }

    proof fn lemma_unique(&self, o: &Self, j: Json) {
        lemma_blob_unique(*self, *o, j->Object_0@);
    }
}

/// The metamodel view of a blob: its attributes without the value.
#[derive(Clone, Debug, PartialEq)]
pub struct BlobMeta {
    pub referable: Referable,
    pub semantics: HasSemantics,
    pub qualifiable: Qualifiable,
    pub embedded_data_specifications: HasDataSpecification,
}

/// A name of the members of `BlobMeta`.
pub open spec fn blob_meta_name(n: Seq<char>) -> bool {
    n == "modelType"@ || referable_name(n) || has_semantics_name(n) || qualifiable_name(n) || has_data_specification_name(n)
}

/// Looking up the members of `BlobMeta` in `fs` finds what encoding writes for `x`.
pub open spec fn blob_meta_lookups(x: BlobMeta, fs: Seq<(String, Json)>) -> bool {
    &&& lookup(fs, "modelType"@) matches Some(Json::Str(t)) && t@ == "Blob"@
    &&& referable_lookups(x.referable, fs)
    &&& has_semantics_lookups(x.semantics, fs)
    &&& qualifiable_lookups(x.qualifiable, fs)
    &&& has_data_specification_lookups(x.embedded_data_specifications, fs)
}

/// `fs` are the members that encoding writes for `x`.
pub open spec fn blob_meta_encoded(x: BlobMeta, fs: Seq<(String, Json)>) -> bool {
    &&& names_within(fs, |n: Seq<char>| blob_meta_name(n))
    &&& blob_meta_lookups(x, fs)
}

/// The members of `fs` decode to `x`.
pub open spec fn blob_meta_rel(x: BlobMeta, fs: Seq<(String, Json)>) -> bool {
    &&& member(fs, "modelType"@) matches Some(Json::Str(t)) && t@ == "Blob"@
    &&& referable_rel(x.referable, fs)
    &&& has_semantics_rel(x.semantics, fs)
    &&& qualifiable_rel(x.qualifiable, fs)
    &&& has_data_specification_rel(x.embedded_data_specifications, fs)
}

/// The error, if any, of decoding the members of `BlobMeta` from `fs`.
pub open spec fn blob_meta_error(fs: Seq<(String, Json)>) -> Option<DecodeError> {
    match member(fs, "modelType"@) {
        None => Some(DecodeError::MissingField),
        Some(Json::Str(t)) => if t@ == "Blob"@ {
            match referable_error(fs) {
                Some(e) => Some(e),
                None => {
                    match has_semantics_error(fs) {
                        Some(e) => Some(e),
                        None => {
                            match qualifiable_error(fs) {
                                Some(e) => Some(e),
                                None => {
                                    match has_data_specification_error(fs) {
                                        Some(e) => Some(e),
                                        None => {
                                            None
                                        },
                                    }
                                },
                            }
                        },
                    }
                },
            }
        } else {
            Some(DecodeError::UnknownDiscriminator)
        },
        Some(_) => Some(DecodeError::UnexpectedKind),
    }
}

/// The values of `x` are well-formed.
pub open spec fn blob_meta_wf(x: BlobMeta) -> bool {
    &&& referable_wf(x.referable)
    &&& has_semantics_wf(x.semantics)
    &&& qualifiable_wf(x.qualifiable)
    &&& has_data_specification_wf(x.embedded_data_specifications)
}

/// `x` and `y` hold the same content.
pub open spec fn blob_meta_equiv(x: BlobMeta, y: BlobMeta) -> bool {
    &&& referable_equiv(x.referable, y.referable)
    &&& has_semantics_equiv(x.semantics, y.semantics)
    &&& qualifiable_equiv(x.qualifiable, y.qualifiable)
    &&& has_data_specification_equiv(x.embedded_data_specifications, y.embedded_data_specifications)
}

impl BlobMeta {
    /// Writes the members of the value, absent ones left out.
    #[verifier::rlimit(100)]
    #[verifier::spinoff_prover]
    pub fn encode_members(&self) -> (r: Vec<(String, Json)>)
        ensures
            blob_meta_encoded(*self, r@),
    {
        proof {
            reveal_strlit("modelType");
            reveal_strlit("idShort");
            reveal_strlit("displayName");
            reveal_strlit("description");
            reveal_strlit("category");
            reveal_strlit("extensions");
            reveal_strlit("semanticId");
            reveal_strlit("supplementalSemanticIds");
            reveal_strlit("qualifiers");
            reveal_strlit("embeddedDataSpecifications");
            assert("modelType"@.len() == 9 && "idShort"@.len() == 7);
            assert("modelType"@.len() == 9 && "displayName"@.len() == 11);
            assert("modelType"@.len() == 9 && "description"@.len() == 11);
            assert("modelType"@.len() == 9 && "category"@.len() == 8);
            assert("modelType"@.len() == 9 && "extensions"@.len() == 10);
            assert("modelType"@.len() == 9 && "semanticId"@.len() == 10);
            assert("modelType"@.len() == 9 && "supplementalSemanticIds"@.len() == 23);
            assert("modelType"@.len() == 9 && "qualifiers"@.len() == 10);
            assert("modelType"@.len() == 9 && "embeddedDataSpecifications"@.len() == 26);
            assert("idShort"@.len() == 7 && "modelType"@.len() == 9);
            assert("idShort"@.len() == 7 && "displayName"@.len() == 11);
            assert("idShort"@.len() == 7 && "description"@.len() == 11);
            assert("idShort"@.len() == 7 && "category"@.len() == 8);
            assert("idShort"@.len() == 7 && "extensions"@.len() == 10);
            assert("idShort"@.len() == 7 && "semanticId"@.len() == 10);
            assert("idShort"@.len() == 7 && "supplementalSemanticIds"@.len() == 23);
            assert("idShort"@.len() == 7 && "qualifiers"@.len() == 10);
            assert("idShort"@.len() == 7 && "embeddedDataSpecifications"@.len() == 26);
            assert("displayName"@.len() == 11 && "modelType"@.len() == 9);
            assert("displayName"@.len() == 11 && "idShort"@.len() == 7);
            assert("displayName"@[1] != "description"@[1]);
            assert("displayName"@.len() == 11 && "category"@.len() == 8);
            assert("displayName"@.len() == 11 && "extensions"@.len() == 10);
            assert("displayName"@.len() == 11 && "semanticId"@.len() == 10);
            assert("displayName"@.len() == 11 && "supplementalSemanticIds"@.len() == 23);
            assert("displayName"@.len() == 11 && "qualifiers"@.len() == 10);
            assert("displayName"@.len() == 11 && "embeddedDataSpecifications"@.len() == 26);
            assert("description"@.len() == 11 && "modelType"@.len() == 9);
            assert("description"@.len() == 11 && "idShort"@.len() == 7);
            assert("description"@[1] != "displayName"@[1]);
            assert("description"@.len() == 11 && "category"@.len() == 8);
            assert("description"@.len() == 11 && "extensions"@.len() == 10);
            assert("description"@.len() == 11 && "semanticId"@.len() == 10);
            assert("description"@.len() == 11 && "supplementalSemanticIds"@.len() == 23);
            assert("description"@.len() == 11 && "qualifiers"@.len() == 10);
            assert("description"@.len() == 11 && "embeddedDataSpecifications"@.len() == 26);
            assert("category"@.len() == 8 && "modelType"@.len() == 9);
            assert("category"@.len() == 8 && "idShort"@.len() == 7);
            assert("category"@.len() == 8 && "displayName"@.len() == 11);
            assert("category"@.len() == 8 && "description"@.len() == 11);
            assert("category"@.len() == 8 && "extensions"@.len() == 10);
            assert("category"@.len() == 8 && "semanticId"@.len() == 10);
            assert("category"@.len() == 8 && "supplementalSemanticIds"@.len() == 23);
            assert("category"@.len() == 8 && "qualifiers"@.len() == 10);
            assert("category"@.len() == 8 && "embeddedDataSpecifications"@.len() == 26);
            assert("extensions"@.len() == 10 && "modelType"@.len() == 9);
            assert("extensions"@.len() == 10 && "idShort"@.len() == 7);
            assert("extensions"@.len() == 10 && "displayName"@.len() == 11);
            assert("extensions"@.len() == 10 && "description"@.len() == 11);
            assert("extensions"@.len() == 10 && "category"@.len() == 8);
            assert("extensions"@[0] != "semanticId"@[0]);
            assert("extensions"@.len() == 10 && "supplementalSemanticIds"@.len() == 23);
            assert("extensions"@[0] != "qualifiers"@[0]);
            assert("extensions"@.len() == 10 && "embeddedDataSpecifications"@.len() == 26);
            assert("semanticId"@.len() == 10 && "modelType"@.len() == 9);
            assert("semanticId"@.len() == 10 && "idShort"@.len() == 7);
            assert("semanticId"@.len() == 10 && "displayName"@.len() == 11);
            assert("semanticId"@.len() == 10 && "description"@.len() == 11);
            assert("semanticId"@.len() == 10 && "category"@.len() == 8);
            assert("semanticId"@[0] != "extensions"@[0]);
            assert("semanticId"@.len() == 10 && "supplementalSemanticIds"@.len() == 23);
            assert("semanticId"@[0] != "qualifiers"@[0]);
            assert("semanticId"@.len() == 10 && "embeddedDataSpecifications"@.len() == 26);
            assert("supplementalSemanticIds"@.len() == 23 && "modelType"@.len() == 9);
            assert("supplementalSemanticIds"@.len() == 23 && "idShort"@.len() == 7);
            assert("supplementalSemanticIds"@.len() == 23 && "displayName"@.len() == 11);
            assert("supplementalSemanticIds"@.len() == 23 && "description"@.len() == 11);
            assert("supplementalSemanticIds"@.len() == 23 && "category"@.len() == 8);
            assert("supplementalSemanticIds"@.len() == 23 && "extensions"@.len() == 10);
            assert("supplementalSemanticIds"@.len() == 23 && "semanticId"@.len() == 10);
            assert("supplementalSemanticIds"@.len() == 23 && "qualifiers"@.len() == 10);
            assert("supplementalSemanticIds"@.len() == 23 && "embeddedDataSpecifications"@.len() == 26);
            assert("qualifiers"@.len() == 10 && "modelType"@.len() == 9);
            assert("qualifiers"@.len() == 10 && "idShort"@.len() == 7);
            assert("qualifiers"@.len() == 10 && "displayName"@.len() == 11);
            assert("qualifiers"@.len() == 10 && "description"@.len() == 11);
            assert("qualifiers"@.len() == 10 && "category"@.len() == 8);
            assert("qualifiers"@[0] != "extensions"@[0]);
            assert("qualifiers"@[0] != "semanticId"@[0]);
            assert("qualifiers"@.len() == 10 && "supplementalSemanticIds"@.len() == 23);
            assert("qualifiers"@.len() == 10 && "embeddedDataSpecifications"@.len() == 26);
            assert("embeddedDataSpecifications"@.len() == 26 && "modelType"@.len() == 9);
            assert("embeddedDataSpecifications"@.len() == 26 && "idShort"@.len() == 7);
            assert("embeddedDataSpecifications"@.len() == 26 && "displayName"@.len() == 11);
            assert("embeddedDataSpecifications"@.len() == 26 && "description"@.len() == 11);
            assert("embeddedDataSpecifications"@.len() == 26 && "category"@.len() == 8);
            assert("embeddedDataSpecifications"@.len() == 26 && "extensions"@.len() == 10);
            assert("embeddedDataSpecifications"@.len() == 26 && "semanticId"@.len() == 10);
            assert("embeddedDataSpecifications"@.len() == 26 && "supplementalSemanticIds"@.len() == 23);
            assert("embeddedDataSpecifications"@.len() == 26 && "qualifiers"@.len() == 10);
        }
        let mut fs: Vec<(String, Json)> = Vec::new();
        let ghost prev = fs@;
        fs.push(field("modelType", Json::Str("Blob".to_string())));
        proof {
            lemma_names_within_empty(prev, |n: Seq<char>| n == "modelType"@);
            if true {
                assert(fs@ == prev.push(fs@.last()));
                lemma_names_within_push(prev, fs@.last(), |n: Seq<char>| n == "modelType"@);
                lemma_lookup_push(prev, fs@.last(), "modelType"@);
            }
        }
        let ghost prev = fs@;
        let mut part = self.referable.encode_members();
        let ghost sp = part@;
        fs.append(&mut part);
        proof {
            lemma_names_within_concat(prev, sp, |n: Seq<char>| n == "modelType"@, |n: Seq<char>| referable_name(n), |n: Seq<char>| n == "modelType"@ || referable_name(n));
            lemma_lookup_concat(prev, sp, "modelType"@);
            lemma_lookup_outside(sp, |n: Seq<char>| referable_name(n), "modelType"@);
            lemma_lookup_concat(prev, sp, "idShort"@);
            lemma_lookup_outside(prev, |n: Seq<char>| n == "modelType"@, "idShort"@);
            lemma_lookup_concat(prev, sp, "displayName"@);
            lemma_lookup_outside(prev, |n: Seq<char>| n == "modelType"@, "displayName"@);
            lemma_lookup_concat(prev, sp, "description"@);
            lemma_lookup_outside(prev, |n: Seq<char>| n == "modelType"@, "description"@);
            lemma_lookup_concat(prev, sp, "category"@);
            lemma_lookup_outside(prev, |n: Seq<char>| n == "modelType"@, "category"@);
            lemma_lookup_concat(prev, sp, "extensions"@);
            lemma_lookup_outside(prev, |n: Seq<char>| n == "modelType"@, "extensions"@);
        }
        let ghost prev = fs@;
        let mut part = self.semantics.encode_members();
        let ghost sp = part@;
        fs.append(&mut part);
        proof {
            lemma_names_within_concat(prev, sp, |n: Seq<char>| n == "modelType"@ || referable_name(n), |n: Seq<char>| has_semantics_name(n), |n: Seq<char>| n == "modelType"@ || referable_name(n) || has_semantics_name(n));
            lemma_lookup_concat(prev, sp, "modelType"@);
            lemma_lookup_outside(sp, |n: Seq<char>| has_semantics_name(n), "modelType"@);
            lemma_lookup_concat(prev, sp, "idShort"@);
            lemma_lookup_outside(sp, |n: Seq<char>| has_semantics_name(n), "idShort"@);
            lemma_lookup_concat(prev, sp, "displayName"@);
            lemma_lookup_outside(sp, |n: Seq<char>| has_semantics_name(n), "displayName"@);
            lemma_lookup_concat(prev, sp, "description"@);
            lemma_lookup_outside(sp, |n: Seq<char>| has_semantics_name(n), "description"@);
            lemma_lookup_concat(prev, sp, "category"@);
            lemma_lookup_outside(sp, |n: Seq<char>| has_semantics_name(n), "category"@);
            lemma_lookup_concat(prev, sp, "extensions"@);
            lemma_lookup_outside(sp, |n: Seq<char>| has_semantics_name(n), "extensions"@);
            lemma_lookup_concat(prev, sp, "semanticId"@);
            lemma_lookup_outside(prev, |n: Seq<char>| n == "modelType"@ || referable_name(n), "semanticId"@);
            lemma_lookup_concat(prev, sp, "supplementalSemanticIds"@);
            lemma_lookup_outside(prev, |n: Seq<char>| n == "modelType"@ || referable_name(n), "supplementalSemanticIds"@);
        }
        let ghost prev = fs@;
        let mut part = self.qualifiable.encode_members();
        let ghost sp = part@;
        fs.append(&mut part);
        proof {
            lemma_names_within_concat(prev, sp, |n: Seq<char>| n == "modelType"@ || referable_name(n) || has_semantics_name(n), |n: Seq<char>| qualifiable_name(n), |n: Seq<char>| n == "modelType"@ || referable_name(n) || has_semantics_name(n) || qualifiable_name(n));
            lemma_lookup_concat(prev, sp, "modelType"@);
            lemma_lookup_outside(sp, |n: Seq<char>| qualifiable_name(n), "modelType"@);
            lemma_lookup_concat(prev, sp, "idShort"@);
            lemma_lookup_outside(sp, |n: Seq<char>| qualifiable_name(n), "idShort"@);
            lemma_lookup_concat(prev, sp, "displayName"@);
            lemma_lookup_outside(sp, |n: Seq<char>| qualifiable_name(n), "displayName"@);
            lemma_lookup_concat(prev, sp, "description"@);
            lemma_lookup_outside(sp, |n: Seq<char>| qualifiable_name(n), "description"@);
            lemma_lookup_concat(prev, sp, "category"@);
            lemma_lookup_outside(sp, |n: Seq<char>| qualifiable_name(n), "category"@);
            lemma_lookup_concat(prev, sp, "extensions"@);
            lemma_lookup_outside(sp, |n: Seq<char>| qualifiable_name(n), "extensions"@);
            lemma_lookup_concat(prev, sp, "semanticId"@);
            lemma_lookup_outside(sp, |n: Seq<char>| qualifiable_name(n), "semanticId"@);
            lemma_lookup_concat(prev, sp, "supplementalSemanticIds"@);
            lemma_lookup_outside(sp, |n: Seq<char>| qualifiable_name(n), "supplementalSemanticIds"@);
            lemma_lookup_concat(prev, sp, "qualifiers"@);
            lemma_lookup_outside(prev, |n: Seq<char>| n == "modelType"@ || referable_name(n) || has_semantics_name(n), "qualifiers"@);
        }
        let ghost prev = fs@;
        let mut part = self.embedded_data_specifications.encode_members();
        let ghost sp = part@;
        fs.append(&mut part);
        proof {
            lemma_names_within_concat(prev, sp, |n: Seq<char>| n == "modelType"@ || referable_name(n) || has_semantics_name(n) || qualifiable_name(n), |n: Seq<char>| has_data_specification_name(n), |n: Seq<char>| blob_meta_name(n));
            lemma_lookup_concat(prev, sp, "modelType"@);
            lemma_lookup_outside(sp, |n: Seq<char>| has_data_specification_name(n), "modelType"@);
            lemma_lookup_concat(prev, sp, "idShort"@);
            lemma_lookup_outside(sp, |n: Seq<char>| has_data_specification_name(n), "idShort"@);
            lemma_lookup_concat(prev, sp, "displayName"@);
            lemma_lookup_outside(sp, |n: Seq<char>| has_data_specification_name(n), "displayName"@);
            lemma_lookup_concat(prev, sp, "description"@);
            lemma_lookup_outside(sp, |n: Seq<char>| has_data_specification_name(n), "description"@);
            lemma_lookup_concat(prev, sp, "category"@);
            lemma_lookup_outside(sp, |n: Seq<char>| has_data_specification_name(n), "category"@);
            lemma_lookup_concat(prev, sp, "extensions"@);
            lemma_lookup_outside(sp, |n: Seq<char>| has_data_specification_name(n), "extensions"@);
            lemma_lookup_concat(prev, sp, "semanticId"@);
            lemma_lookup_outside(sp, |n: Seq<char>| has_data_specification_name(n), "semanticId"@);
            lemma_lookup_concat(prev, sp, "supplementalSemanticIds"@);
            lemma_lookup_outside(sp, |n: Seq<char>| has_data_specification_name(n), "supplementalSemanticIds"@);
            lemma_lookup_concat(prev, sp, "qualifiers"@);
            lemma_lookup_outside(sp, |n: Seq<char>| has_data_specification_name(n), "qualifiers"@);
            lemma_lookup_concat(prev, sp, "embeddedDataSpecifications"@);
            lemma_lookup_outside(prev, |n: Seq<char>| n == "modelType"@ || referable_name(n) || has_semantics_name(n) || qualifiable_name(n), "embeddedDataSpecifications"@);
        }
        fs
    }

    /// Reads the members of the value from `fs`.
    pub fn decode_members(fs: &Vec<(String, Json)>) -> (r: Result<BlobMeta, DecodeError>)
        ensures
            match blob_meta_error(fs@) {
                Some(e) => r == Err::<BlobMeta, DecodeError>(e),
                None => r matches Ok(x) && blob_meta_rel(x, fs@),
            },
    {
        match get_member(fs, "modelType") {
            None => return Err(DecodeError::MissingField),
            Some(Json::Str(t)) => if !str_eq(t.as_str(), "Blob") {
                return Err(DecodeError::UnknownDiscriminator);
            },
            Some(_) => return Err(DecodeError::UnexpectedKind),
        }
        let referable = match Referable::decode_members(fs) {
            Ok(v) => v,
            Err(e) => return Err(e),
        };
        let semantics = match HasSemantics::decode_members(fs) {
            Ok(v) => v,
            Err(e) => return Err(e),
        };
        let qualifiable = match Qualifiable::decode_members(fs) {
            Ok(v) => v,
            Err(e) => return Err(e),
        };
        let embedded_data_specifications = match HasDataSpecification::decode_members(fs) {
            Ok(v) => v,
            Err(e) => return Err(e),
        };
        Ok(BlobMeta { referable, semantics, qualifiable, embedded_data_specifications })
    }
}

/// Members found as encoding writes them decode to a value, whatever
/// other members stand beside them.
pub proof fn lemma_blob_meta_round_trip(x: BlobMeta, fs: Seq<(String, Json)>)
    requires
        blob_meta_wf(x),
        blob_meta_lookups(x, fs),
    ensures
        blob_meta_error(fs) is None,
        blob_meta_rel(x, fs),
{
    lemma_referable_round_trip(x.referable, fs);
    lemma_has_semantics_round_trip(x.semantics, fs);
    lemma_qualifiable_round_trip(x.qualifiable, fs);
    lemma_has_data_specification_round_trip(x.embedded_data_specifications, fs);
}

/// The values that the same members decode to hold the same content.
pub proof fn lemma_blob_meta_unique(x: BlobMeta, y: BlobMeta, fs: Seq<(String, Json)>)
    requires
        blob_meta_rel(x, fs),
        blob_meta_rel(y, fs),
    ensures
        blob_meta_equiv(x, y),
{
    lemma_referable_unique(x.referable, y.referable, fs);
    lemma_has_semantics_unique(x.semantics, y.semantics, fs);
    lemma_qualifiable_unique(x.qualifiable, y.qualifiable, fs);
    lemma_has_data_specification_unique(x.embedded_data_specifications, y.embedded_data_specifications, fs);
}

impl JsonCodec for BlobMeta {
    open spec fn wf(&self) -> bool {
        blob_meta_wf(*self)
    }

    open spec fn encoded(&self, j: Json) -> bool {
        j matches Json::Object(fs) && blob_meta_encoded(*self, fs@)
    }

    open spec fn rel(&self, j: Json) -> bool {
        j matches Json::Object(fs) && blob_meta_rel(*self, fs@)
    }

    open spec fn decode_error(j: Json) -> Option<DecodeError> {
        match j {
            Json::Object(fs) => blob_meta_error(fs@),
            _ => Some(DecodeError::UnexpectedKind),
        }
    }

    open spec fn equiv(&self, o: &Self) -> bool {
        blob_meta_equiv(*self, *o)
    }

    fn encode(&self) -> (r: Json) {
        Json::Object(self.encode_members())
    }

    fn decode(j: &Json) -> (r: Result<Self, DecodeError>) {
        match j {
            Json::Object(fs) => BlobMeta::decode_members(fs),
            _ => Err(DecodeError::UnexpectedKind),
        }
    }

    proof fn lemma_round_trip(&self, j: Json) {
        lemma_blob_meta_round_trip(*self, j->Object_0@);
    }

    proof fn lemma_unique(&self, o: &Self, j: Json) {
        lemma_blob_meta_unique(*self, *o, j->Object_0@);
    }
}

/// A data element naming a file by its path and content type.
#[derive(Clone, Debug, PartialEq)]
pub struct File {
    pub referable: Referable,
    pub semantics: HasSemantics,
    pub qualifiable: Qualifiable,
    pub embedded_data_specifications: HasDataSpecification,
    /// Path and name of the file, with extension; absolute or relative.
    pub value: Option<String>,
    pub content_type: Option<String>,
}

/// A name of the members of `File`.
pub open spec fn file_name(n: Seq<char>) -> bool {
    n == "modelType"@ || referable_name(n) || has_semantics_name(n) || qualifiable_name(n) || has_data_specification_name(n) || n == "value"@ || n == "contentType"@
}

/// Looking up the members of `File` in `fs` finds what encoding writes for `x`.
pub open spec fn file_lookups(x: File, fs: Seq<(String, Json)>) -> bool {
    &&& lookup(fs, "modelType"@) matches Some(Json::Str(t)) && t@ == "File"@
    &&& referable_lookups(x.referable, fs)
    &&& has_semantics_lookups(x.semantics, fs)
    &&& qualifiable_lookups(x.qualifiable, fs)
    &&& has_data_specification_lookups(x.embedded_data_specifications, fs)
    &&& opt_encoded(x.value, lookup(fs, "value"@))
    &&& opt_encoded(x.content_type, lookup(fs, "contentType"@))
}

/// `fs` are the members that encoding writes for `x`.
pub open spec fn file_encoded(x: File, fs: Seq<(String, Json)>) -> bool {
    &&& names_within(fs, |n: Seq<char>| file_name(n))
    &&& file_lookups(x, fs)
}

/// The members of `fs` decode to `x`.
pub open spec fn file_rel(x: File, fs: Seq<(String, Json)>) -> bool {
    &&& member(fs, "modelType"@) matches Some(Json::Str(t)) && t@ == "File"@
    &&& referable_rel(x.referable, fs)
    &&& has_semantics_rel(x.semantics, fs)
    &&& qualifiable_rel(x.qualifiable, fs)
    &&& has_data_specification_rel(x.embedded_data_specifications, fs)
    &&& opt_rel(x.value, member(fs, "value"@))
    &&& opt_rel(x.content_type, member(fs, "contentType"@))
}

/// The error, if any, of decoding the members of `File` from `fs`.
pub open spec fn file_error(fs: Seq<(String, Json)>) -> Option<DecodeError> {
    match member(fs, "modelType"@) {
        None => Some(DecodeError::MissingField),
        Some(Json::Str(t)) => if t@ == "File"@ {
            match referable_error(fs) {
                Some(e) => Some(e),
                None => {
                    match has_semantics_error(fs) {
                        Some(e) => Some(e),
                        None => {
                            match qualifiable_error(fs) {
                                Some(e) => Some(e),
                                None => {
                                    match has_data_specification_error(fs) {
                                        Some(e) => Some(e),
                                        None => {
                                            match opt_error::<String>(member(fs, "value"@)) {
                                                Some(e) => Some(e),
                                                None => {
                                                    match opt_error::<String>(member(fs, "contentType"@)) {
                                                        Some(e) => Some(e),
                                                        None => {
                                                            None
                                                        },
                                                    }
                                                },
                                            }
                                        },
                                    }
                                },
                            }
                        },
                    }
                },
            }
        } else {
            Some(DecodeError::UnknownDiscriminator)
        },
        Some(_) => Some(DecodeError::UnexpectedKind),
    }
}

/// The values of `x` are well-formed.
pub open spec fn file_wf(x: File) -> bool {
    &&& referable_wf(x.referable)
    &&& has_semantics_wf(x.semantics)
    &&& qualifiable_wf(x.qualifiable)
    &&& has_data_specification_wf(x.embedded_data_specifications)
    &&& opt_wf(x.value)
    &&& opt_wf(x.content_type)
}

/// `x` and `y` hold the same content.
pub open spec fn file_equiv(x: File, y: File) -> bool {
    &&& referable_equiv(x.referable, y.referable)
    &&& has_semantics_equiv(x.semantics, y.semantics)
    &&& qualifiable_equiv(x.qualifiable, y.qualifiable)
    &&& has_data_specification_equiv(x.embedded_data_specifications, y.embedded_data_specifications)
    &&& opt_equiv(x.value, y.value)
    &&& opt_equiv(x.content_type, y.content_type)
}

impl File {
    /// Writes the members of the value, absent ones left out.
    #[verifier::rlimit(100)]
    #[verifier::spinoff_prover]
    pub fn encode_members(&self) -> (r: Vec<(String, Json)>)
        ensures
            file_encoded(*self, r@),
    {
        proof {
            reveal_strlit("modelType");
            reveal_strlit("idShort");
            reveal_strlit("displayName");
            reveal_strlit("description");
            reveal_strlit("category");
            reveal_strlit("extensions");
            reveal_strlit("semanticId");
            reveal_strlit("supplementalSemanticIds");
            reveal_strlit("qualifiers");
            reveal_strlit("embeddedDataSpecifications");
            reveal_strlit("value");
            reveal_strlit("contentType");
            assert("modelType"@.len() == 9 && "idShort"@.len() == 7);
            assert("modelType"@.len() == 9 && "displayName"@.len() == 11);
            assert("modelType"@.len() == 9 && "description"@.len() == 11);
            assert("modelType"@.len() == 9 && "category"@.len() == 8);
            assert("modelType"@.len() == 9 && "extensions"@.len() == 10);
            assert("modelType"@.len() == 9 && "semanticId"@.len() == 10);
            assert("modelType"@.len() == 9 && "supplementalSemanticIds"@.len() == 23);
            assert("modelType"@.len() == 9 && "qualifiers"@.len() == 10);
            assert("modelType"@.len() == 9 && "embeddedDataSpecifications"@.len() == 26);
            assert("modelType"@.len() == 9 && "value"@.len() == 5);
            assert("modelType"@.len() == 9 && "contentType"@.len() == 11);
            assert("idShort"@.len() == 7 && "modelType"@.len() == 9);
            assert("idShort"@.len() == 7 && "displayName"@.len() == 11);
            assert("idShort"@.len() == 7 && "description"@.len() == 11);
            assert("idShort"@.len() == 7 && "category"@.len() == 8);
            assert("idShort"@.len() == 7 && "extensions"@.len() == 10);
            assert("idShort"@.len() == 7 && "semanticId"@.len() == 10);
            assert("idShort"@.len() == 7 && "supplementalSemanticIds"@.len() == 23);
            assert("idShort"@.len() == 7 && "qualifiers"@.len() == 10);
            assert("idShort"@.len() == 7 && "embeddedDataSpecifications"@.len() == 26);
            assert("idShort"@.len() == 7 && "value"@.len() == 5);
            assert("idShort"@.len() == 7 && "contentType"@.len() == 11);
            assert("displayName"@.len() == 11 && "modelType"@.len() == 9);
            assert("displayName"@.len() == 11 && "idShort"@.len() == 7);
            assert("displayName"@[1] != "description"@[1]);
            assert("displayName"@.len() == 11 && "category"@.len() == 8);
            assert("displayName"@.len() == 11 && "extensions"@.len() == 10);
            assert("displayName"@.len() == 11 && "semanticId"@.len() == 10);
            assert("displayName"@.len() == 11 && "supplementalSemanticIds"@.len() == 23);
            assert("displayName"@.len() == 11 && "qualifiers"@.len() == 10);
            assert("displayName"@.len() == 11 && "embeddedDataSpecifications"@.len() == 26);
            assert("displayName"@.len() == 11 && "value"@.len() == 5);
            assert("displayName"@[0] != "contentType"@[0]);
            assert("description"@.len() == 11 && "modelType"@.len() == 9);
            assert("description"@.len() == 11 && "idShort"@.len() == 7);
            assert("description"@[1] != "displayName"@[1]);
            assert("description"@.len() == 11 && "category"@.len() == 8);
            assert("description"@.len() == 11 && "extensions"@.len() == 10);
            assert("description"@.len() == 11 && "semanticId"@.len() == 10);
            assert("description"@.len() == 11 && "supplementalSemanticIds"@.len() == 23);
            assert("description"@.len() == 11 && "qualifiers"@.len() == 10);
            assert("description"@.len() == 11 && "embeddedDataSpecifications"@.len() == 26);
            assert("description"@.len() == 11 && "value"@.len() == 5);
            assert("description"@[0] != "contentType"@[0]);
            assert("category"@.len() == 8 && "modelType"@.len() == 9);
            assert("category"@.len() == 8 && "idShort"@.len() == 7);
            assert("category"@.len() == 8 && "displayName"@.len() == 11);
            assert("category"@.len() == 8 && "description"@.len() == 11);
            assert("category"@.len() == 8 && "extensions"@.len() == 10);
            assert("category"@.len() == 8 && "semanticId"@.len() == 10);
            assert("category"@.len() == 8 && "supplementalSemanticIds"@.len() == 23);
            assert("category"@.len() == 8 && "qualifiers"@.len() == 10);
            assert("category"@.len() == 8 && "embeddedDataSpecifications"@.len() == 26);
            assert("category"@.len() == 8 && "value"@.len() == 5);
            assert("category"@.len() == 8 && "contentType"@.len() == 11);
            assert("extensions"@.len() == 10 && "modelType"@.len() == 9);
            assert("extensions"@.len() == 10 && "idShort"@.len() == 7);
            assert("extensions"@.len() == 10 && "displayName"@.len() == 11);
            assert("extensions"@.len() == 10 && "description"@.len() == 11);
            assert("extensions"@.len() == 10 && "category"@.len() == 8);
            assert("extensions"@[0] != "semanticId"@[0]);
            assert("extensions"@.len() == 10 && "supplementalSemanticIds"@.len() == 23);
            assert("extensions"@[0] != "qualifiers"@[0]);
            assert("extensions"@.len() == 10 && "embeddedDataSpecifications"@.len() == 26);
            assert("extensions"@.len() == 10 && "value"@.len() == 5);
            assert("extensions"@.len() == 10 && "contentType"@.len() == 11);
            assert("semanticId"@.len() == 10 && "modelType"@.len() == 9);
            assert("semanticId"@.len() == 10 && "idShort"@.len() == 7);
            assert("semanticId"@.len() == 10 && "displayName"@.len() == 11);
            assert("semanticId"@.len() == 10 && "description"@.len() == 11);
            assert("semanticId"@.len() == 10 && "category"@.len() == 8);
            assert("semanticId"@[0] != "extensions"@[0]);
            assert("semanticId"@.len() == 10 && "supplementalSemanticIds"@.len() == 23);
            assert("semanticId"@[0] != "qualifiers"@[0]);
            assert("semanticId"@.len() == 10 && "embeddedDataSpecifications"@.len() == 26);
            assert("semanticId"@.len() == 10 && "value"@.len() == 5);
            assert("semanticId"@.len() == 10 && "contentType"@.len() == 11);
            assert("supplementalSemanticIds"@.len() == 23 && "modelType"@.len() == 9);
            assert("supplementalSemanticIds"@.len() == 23 && "idShort"@.len() == 7);
            assert("supplementalSemanticIds"@.len() == 23 && "displayName"@.len() == 11);
            assert("supplementalSemanticIds"@.len() == 23 && "description"@.len() == 11);
            assert("supplementalSemanticIds"@.len() == 23 && "category"@.len() == 8);
            assert("supplementalSemanticIds"@.len() == 23 && "extensions"@.len() == 10);
            assert("supplementalSemanticIds"@.len() == 23 && "semanticId"@.len() == 10);
            assert("supplementalSemanticIds"@.len() == 23 && "qualifiers"@.len() == 10);
            assert("supplementalSemanticIds"@.len() == 23 && "embeddedDataSpecifications"@.len() == 26);
            assert("supplementalSemanticIds"@.len() == 23 && "value"@.len() == 5);
            assert("supplementalSemanticIds"@.len() == 23 && "contentType"@.len() == 11);
            assert("qualifiers"@.len() == 10 && "modelType"@.len() == 9);
            assert("qualifiers"@.len() == 10 && "idShort"@.len() == 7);
            assert("qualifiers"@.len() == 10 && "displayName"@.len() == 11);
            assert("qualifiers"@.len() == 10 && "description"@.len() == 11);
            assert("qualifiers"@.len() == 10 && "category"@.len() == 8);
            assert("qualifiers"@[0] != "extensions"@[0]);
            assert("qualifiers"@[0] != "semanticId"@[0]);
            assert("qualifiers"@.len() == 10 && "supplementalSemanticIds"@.len() == 23);
            assert("qualifiers"@.len() == 10 && "embeddedDataSpecifications"@.len() == 26);
            assert("qualifiers"@.len() == 10 && "value"@.len() == 5);
            assert("qualifiers"@.len() == 10 && "contentType"@.len() == 11);
            assert("embeddedDataSpecifications"@.len() == 26 && "modelType"@.len() == 9);
            assert("embeddedDataSpecifications"@.len() == 26 && "idShort"@.len() == 7);
            assert("embeddedDataSpecifications"@.len() == 26 && "displayName"@.len() == 11);
            assert("embeddedDataSpecifications"@.len() == 26 && "description"@.len() == 11);
            assert("embeddedDataSpecifications"@.len() == 26 && "category"@.len() == 8);
            assert("embeddedDataSpecifications"@.len() == 26 && "extensions"@.len() == 10);
            assert("embeddedDataSpecifications"@.len() == 26 && "semanticId"@.len() == 10);
            assert("embeddedDataSpecifications"@.len() == 26 && "supplementalSemanticIds"@.len() == 23);
            assert("embeddedDataSpecifications"@.len() == 26 && "qualifiers"@.len() == 10);
            assert("embeddedDataSpecifications"@.len() == 26 && "value"@.len() == 5);
            assert("embeddedDataSpecifications"@.len() == 26 && "contentType"@.len() == 11);
            assert("value"@.len() == 5 && "modelType"@.len() == 9);
            assert("value"@.len() == 5 && "idShort"@.len() == 7);
            assert("value"@.len() == 5 && "displayName"@.len() == 11);
            assert("value"@.len() == 5 && "description"@.len() == 11);
            assert("value"@.len() == 5 && "category"@.len() == 8);
            assert("value"@.len() == 5 && "extensions"@.len() == 10);
            assert("value"@.len() == 5 && "semanticId"@.len() == 10);
            assert("value"@.len() == 5 && "supplementalSemanticIds"@.len() == 23);
            assert("value"@.len() == 5 && "qualifiers"@.len() == 10);
            assert("value"@.len() == 5 && "embeddedDataSpecifications"@.len() == 26);
            assert("value"@.len() == 5 && "contentType"@.len() == 11);
            assert("contentType"@.len() == 11 && "modelType"@.len() == 9);
            assert("contentType"@.len() == 11 && "idShort"@.len() == 7);
            assert("contentType"@[0] != "displayName"@[0]);
            assert("contentType"@[0] != "description"@[0]);
            assert("contentType"@.len() == 11 && "category"@.len() == 8);
            assert("contentType"@.len() == 11 && "extensions"@.len() == 10);
            assert("contentType"@.len() == 11 && "semanticId"@.len() == 10);
            assert("contentType"@.len() == 11 && "supplementalSemanticIds"@.len() == 23);
            assert("contentType"@.len() == 11 && "qualifiers"@.len() == 10);
            assert("contentType"@.len() == 11 && "embeddedDataSpecifications"@.len() == 26);
            assert("contentType"@.len() == 11 && "value"@.len() == 5);
        }
        let mut fs: Vec<(String, Json)> = Vec::new();
        let ghost prev = fs@;
        fs.push(field("modelType", Json::Str("File".to_string())));
        proof {
            lemma_names_within_empty(prev, |n: Seq<char>| n == "modelType"@);
            if true {
                assert(fs@ == prev.push(fs@.last()));
                lemma_names_within_push(prev, fs@.last(), |n: Seq<char>| n == "modelType"@);
                lemma_lookup_push(prev, fs@.last(), "modelType"@);
            }
        }
        let ghost prev = fs@;
        let mut part = self.referable.encode_members();
        let ghost sp = part@;
        fs.append(&mut part);
        proof {
            lemma_names_within_concat(prev, sp, |n: Seq<char>| n == "modelType"@, |n: Seq<char>| referable_name(n), |n: Seq<char>| n == "modelType"@ || referable_name(n));
            lemma_lookup_concat(prev, sp, "modelType"@);
            lemma_lookup_outside(sp, |n: Seq<char>| referable_name(n), "modelType"@);
            lemma_lookup_concat(prev, sp, "idShort"@);
            lemma_lookup_outside(prev, |n: Seq<char>| n == "modelType"@, "idShort"@);
            lemma_lookup_concat(prev, sp, "displayName"@);
            lemma_lookup_outside(prev, |n: Seq<char>| n == "modelType"@, "displayName"@);
            lemma_lookup_concat(prev, sp, "description"@);
            lemma_lookup_outside(prev, |n: Seq<char>| n == "modelType"@, "description"@);
            lemma_lookup_concat(prev, sp, "category"@);
            lemma_lookup_outside(prev, |n: Seq<char>| n == "modelType"@, "category"@);
            lemma_lookup_concat(prev, sp, "extensions"@);
            lemma_lookup_outside(prev, |n: Seq<char>| n == "modelType"@, "extensions"@);
        }
        let ghost prev = fs@;
        let mut part = self.semantics.encode_members();
        let ghost sp = part@;
        fs.append(&mut part);
        proof {
            lemma_names_within_concat(prev, sp, |n: Seq<char>| n == "modelType"@ || referable_name(n), |n: Seq<char>| has_semantics_name(n), |n: Seq<char>| n == "modelType"@ || referable_name(n) || has_semantics_name(n));
            lemma_lookup_concat(prev, sp, "modelType"@);
            lemma_lookup_outside(sp, |n: Seq<char>| has_semantics_name(n), "modelType"@);
            lemma_lookup_concat(prev, sp, "idShort"@);
            lemma_lookup_outside(sp, |n: Seq<char>| has_semantics_name(n), "idShort"@);
            lemma_lookup_concat(prev, sp, "displayName"@);
            lemma_lookup_outside(sp, |n: Seq<char>| has_semantics_name(n), "displayName"@);
            lemma_lookup_concat(prev, sp, "description"@);
            lemma_lookup_outside(sp, |n: Seq<char>| has_semantics_name(n), "description"@);
            lemma_lookup_concat(prev, sp, "category"@);
            lemma_lookup_outside(sp, |n: Seq<char>| has_semantics_name(n), "category"@);
            lemma_lookup_concat(prev, sp, "extensions"@);
            lemma_lookup_outside(sp, |n: Seq<char>| has_semantics_name(n), "extensions"@);
            lemma_lookup_concat(prev, sp, "semanticId"@);
            lemma_lookup_outside(prev, |n: Seq<char>| n == "modelType"@ || referable_name(n), "semanticId"@);
            lemma_lookup_concat(prev, sp, "supplementalSemanticIds"@);
            lemma_lookup_outside(prev, |n: Seq<char>| n == "modelType"@ || referable_name(n), "supplementalSemanticIds"@);
        }
        let ghost prev = fs@;
        let mut part = self.qualifiable.encode_members();
        let ghost sp = part@;
        fs.append(&mut part);
        proof {
            lemma_names_within_concat(prev, sp, |n: Seq<char>| n == "modelType"@ || referable_name(n) || has_semantics_name(n), |n: Seq<char>| qualifiable_name(n), |n: Seq<char>| n == "modelType"@ || referable_name(n) || has_semantics_name(n) || qualifiable_name(n));
            lemma_lookup_concat(prev, sp, "modelType"@);
            lemma_lookup_outside(sp, |n: Seq<char>| qualifiable_name(n), "modelType"@);
            lemma_lookup_concat(prev, sp, "idShort"@);
            lemma_lookup_outside(sp, |n: Seq<char>| qualifiable_name(n), "idShort"@);
            lemma_lookup_concat(prev, sp, "displayName"@);
            lemma_lookup_outside(sp, |n: Seq<char>| qualifiable_name(n), "displayName"@);
            lemma_lookup_concat(prev, sp, "description"@);
            lemma_lookup_outside(sp, |n: Seq<char>| qualifiable_name(n), "description"@);
            lemma_lookup_concat(prev, sp, "category"@);
            lemma_lookup_outside(sp, |n: Seq<char>| qualifiable_name(n), "category"@);
            lemma_lookup_concat(prev, sp, "extensions"@);
            lemma_lookup_outside(sp, |n: Seq<char>| qualifiable_name(n), "extensions"@);
            lemma_lookup_concat(prev, sp, "semanticId"@);
            lemma_lookup_outside(sp, |n: Seq<char>| qualifiable_name(n), "semanticId"@);
            lemma_lookup_concat(prev, sp, "supplementalSemanticIds"@);
            lemma_lookup_outside(sp, |n: Seq<char>| qualifiable_name(n), "supplementalSemanticIds"@);
            lemma_lookup_concat(prev, sp, "qualifiers"@);
            lemma_lookup_outside(prev, |n: Seq<char>| n == "modelType"@ || referable_name(n) || has_semantics_name(n), "qualifiers"@);
        }
        let ghost prev = fs@;
        let mut part = self.embedded_data_specifications.encode_members();
        let ghost sp = part@;
        fs.append(&mut part);
        proof {
            lemma_names_within_concat(prev, sp, |n: Seq<char>| n == "modelType"@ || referable_name(n) || has_semantics_name(n) || qualifiable_name(n), |n: Seq<char>| has_data_specification_name(n), |n: Seq<char>| n == "modelType"@ || referable_name(n) || has_semantics_name(n) || qualifiable_name(n) || has_data_specification_name(n));
            lemma_lookup_concat(prev, sp, "modelType"@);
            lemma_lookup_outside(sp, |n: Seq<char>| has_data_specification_name(n), "modelType"@);
            lemma_lookup_concat(prev, sp, "idShort"@);
            lemma_lookup_outside(sp, |n: Seq<char>| has_data_specification_name(n), "idShort"@);
            lemma_lookup_concat(prev, sp, "displayName"@);
            lemma_lookup_outside(sp, |n: Seq<char>| has_data_specification_name(n), "displayName"@);
            lemma_lookup_concat(prev, sp, "description"@);
            lemma_lookup_outside(sp, |n: Seq<char>| has_data_specification_name(n), "description"@);
            lemma_lookup_concat(prev, sp, "category"@);
            lemma_lookup_outside(sp, |n: Seq<char>| has_data_specification_name(n), "category"@);
            lemma_lookup_concat(prev, sp, "extensions"@);
            lemma_lookup_outside(sp, |n: Seq<char>| has_data_specification_name(n), "extensions"@);
            lemma_lookup_concat(prev, sp, "semanticId"@);
            lemma_lookup_outside(sp, |n: Seq<char>| has_data_specification_name(n), "semanticId"@);
            lemma_lookup_concat(prev, sp, "supplementalSemanticIds"@);
            lemma_lookup_outside(sp, |n: Seq<char>| has_data_specification_name(n), "supplementalSemanticIds"@);
            lemma_lookup_concat(prev, sp, "qualifiers"@);
            lemma_lookup_outside(sp, |n: Seq<char>| has_data_specification_name(n), "qualifiers"@);
            lemma_lookup_concat(prev, sp, "embeddedDataSpecifications"@);
            lemma_lookup_outside(prev, |n: Seq<char>| n == "modelType"@ || referable_name(n) || has_semantics_name(n) || qualifiable_name(n), "embeddedDataSpecifications"@);
        }
        let ghost prev = fs@;
        push_opt(&mut fs, "value", &self.value);
        proof {
            lemma_names_within_weaken(prev, |n: Seq<char>| n == "modelType"@ || referable_name(n) || has_semantics_name(n) || qualifiable_name(n) || has_data_specification_name(n), |n: Seq<char>| n == "modelType"@ || referable_name(n) || has_semantics_name(n) || qualifiable_name(n) || has_data_specification_name(n) || n == "value"@);
            lemma_lookup_outside(prev, |n: Seq<char>| n == "modelType"@ || referable_name(n) || has_semantics_name(n) || qualifiable_name(n) || has_data_specification_name(n), "value"@);
            if self.value is Some {
                assert(fs@ == prev.push(fs@.last()));
                lemma_names_within_push(prev, fs@.last(), |n: Seq<char>| n == "modelType"@ || referable_name(n) || has_semantics_name(n) || qualifiable_name(n) || has_data_specification_name(n) || n == "value"@);
                lemma_lookup_push(prev, fs@.last(), "modelType"@);
                lemma_lookup_push(prev, fs@.last(), "idShort"@);
                lemma_lookup_push(prev, fs@.last(), "displayName"@);
                lemma_lookup_push(prev, fs@.last(), "description"@);
                lemma_lookup_push(prev, fs@.last(), "category"@);
                lemma_lookup_push(prev, fs@.last(), "extensions"@);
                lemma_lookup_push(prev, fs@.last(), "semanticId"@);
                lemma_lookup_push(prev, fs@.last(), "supplementalSemanticIds"@);
                lemma_lookup_push(prev, fs@.last(), "qualifiers"@);
                lemma_lookup_push(prev, fs@.last(), "embeddedDataSpecifications"@);
                lemma_lookup_push(prev, fs@.last(), "value"@);
            }
        }
        let ghost prev = fs@;
        push_opt(&mut fs, "contentType", &self.content_type);
        proof {
            lemma_names_within_weaken(prev, |n: Seq<char>| n == "modelType"@ || referable_name(n) || has_semantics_name(n) || qualifiable_name(n) || has_data_specification_name(n) || n == "value"@, |n: Seq<char>| file_name(n));
            lemma_lookup_outside(prev, |n: Seq<char>| n == "modelType"@ || referable_name(n) || has_semantics_name(n) || qualifiable_name(n) || has_data_specification_name(n) || n == "value"@, "contentType"@);
            if self.content_type is Some {
                assert(fs@ == prev.push(fs@.last()));
                lemma_names_within_push(prev, fs@.last(), |n: Seq<char>| file_name(n));
                lemma_lookup_push(prev, fs@.last(), "modelType"@);
                lemma_lookup_push(prev, fs@.last(), "idShort"@);
                lemma_lookup_push(prev, fs@.last(), "displayName"@);
                lemma_lookup_push(prev, fs@.last(), "description"@);
                lemma_lookup_push(prev, fs@.last(), "category"@);
                lemma_lookup_push(prev, fs@.last(), "extensions"@);
                lemma_lookup_push(prev, fs@.last(), "semanticId"@);
                lemma_lookup_push(prev, fs@.last(), "supplementalSemanticIds"@);
                lemma_lookup_push(prev, fs@.last(), "qualifiers"@);
                lemma_lookup_push(prev, fs@.last(), "embeddedDataSpecifications"@);
                lemma_lookup_push(prev, fs@.last(), "value"@);
                lemma_lookup_push(prev, fs@.last(), "contentType"@);
            }
        }
        fs
    }

    /// Reads the members of the value from `fs`.
    pub fn decode_members(fs: &Vec<(String, Json)>) -> (r: Result<File, DecodeError>)
        ensures
            match file_error(fs@) {
                Some(e) => r == Err::<File, DecodeError>(e),
                None => r matches Ok(x) && file_rel(x, fs@),
            },
    {
        match get_member(fs, "modelType") {
            None => return Err(DecodeError::MissingField),
            Some(Json::Str(t)) => if !str_eq(t.as_str(), "File") {
                return Err(DecodeError::UnknownDiscriminator);
            },
            Some(_) => return Err(DecodeError::UnexpectedKind),
        }
        let referable = match Referable::decode_members(fs) {
            Ok(v) => v,
            Err(e) => return Err(e),
        };
        let semantics = match HasSemantics::decode_members(fs) {
            Ok(v) => v,
            Err(e) => return Err(e),
        };
        let qualifiable = match Qualifiable::decode_members(fs) {
            Ok(v) => v,
            Err(e) => return Err(e),
        };
        let embedded_data_specifications = match HasDataSpecification::decode_members(fs) {
            Ok(v) => v,
            Err(e) => return Err(e),
        };
        let value = match decode_opt::<String>(fs, "value") {
            Ok(v) => v,
            Err(e) => return Err(e),
        };
        let content_type = match decode_opt::<String>(fs, "contentType") {
            Ok(v) => v,
            Err(e) => return Err(e),
        };
        Ok(File { referable, semantics, qualifiable, embedded_data_specifications, value, content_type })
    }
}

/// Members found as encoding writes them decode to a value, whatever
/// other members stand beside them.
pub proof fn lemma_file_round_trip(x: File, fs: Seq<(String, Json)>)
    requires
        file_wf(x),
        file_lookups(x, fs),
    ensures
        file_error(fs) is None,
        file_rel(x, fs),
{
    lemma_referable_round_trip(x.referable, fs);
    lemma_has_semantics_round_trip(x.semantics, fs);
    lemma_qualifiable_round_trip(x.qualifiable, fs);
    lemma_has_data_specification_round_trip(x.embedded_data_specifications, fs);
    lemma_opt_round_trip(x.value, lookup(fs, "value"@));
    lemma_opt_round_trip(x.content_type, lookup(fs, "contentType"@));
}

/// The values that the same members decode to hold the same content.
pub proof fn lemma_file_unique(x: File, y: File, fs: Seq<(String, Json)>)
    requires
        file_rel(x, fs),
        file_rel(y, fs),
    ensures
        file_equiv(x, y),
{
    lemma_referable_unique(x.referable, y.referable, fs);
    lemma_has_semantics_unique(x.semantics, y.semantics, fs);
    lemma_qualifiable_unique(x.qualifiable, y.qualifiable, fs);
    lemma_has_data_specification_unique(x.embedded_data_specifications, y.embedded_data_specifications, fs);
    lemma_opt_unique(x.value, y.value, member(fs, "value"@));
    lemma_opt_unique(x.content_type, y.content_type, member(fs, "contentType"@));
}

impl JsonCodec for File {
    open spec fn wf(&self) -> bool {
        file_wf(*self)
    }

    open spec fn encoded(&self, j: Json) -> bool {
        j matches Json::Object(fs) && file_encoded(*self, fs@)
    }

    open spec fn rel(&self, j: Json) -> bool {
        j matches Json::Object(fs) && file_rel(*self, fs@)
    }

    open spec fn decode_error(j: Json) -> Option<DecodeError> {
        match j {
            Json::Object(fs) => file_error(fs@),
            _ => Some(DecodeError::UnexpectedKind),
        }
    }

    open spec fn equiv(&self, o: &Self) -> bool {
        file_equiv(*self, *o)
    }

    fn encode(&self) -> (r: Json) {
        Json::Object(self.encode_members())
    }

    fn decode(j: &Json) -> (r: Result<Self, DecodeError>) {
        match j {
            Json::Object(fs) => File::decode_members(fs),
            _ => Err(DecodeError::UnexpectedKind),
        }
    }

    proof fn lemma_round_trip(&self, j: Json) {
        lemma_file_round_trip(*self, j->Object_0@);
    }

    proof fn lemma_unique(&self, o: &Self, j: Json) {
        lemma_file_unique(*self, *o, j->Object_0@);
    }
}

/// The metamodel view of a file element: its attributes without the value.
#[derive(Clone, Debug, PartialEq)]
pub struct FileMeta {
    pub referable: Referable,
    pub semantics: HasSemantics,
    pub qualifiable: Qualifiable,
    pub embedded_data_specifications: HasDataSpecification,
}

/// A name of the members of `FileMeta`.
pub open spec fn file_meta_name(n: Seq<char>) -> bool {
    n == "modelType"@ || referable_name(n) || has_semantics_name(n) || qualifiable_name(n) || has_data_specification_name(n)
}

/// Looking up the members of `FileMeta` in `fs` finds what encoding writes for `x`.
pub open spec fn file_meta_lookups(x: FileMeta, fs: Seq<(String, Json)>) -> bool {
    &&& lookup(fs, "modelType"@) matches Some(Json::Str(t)) && t@ == "File"@
    &&& referable_lookups(x.referable, fs)
    &&& has_semantics_lookups(x.semantics, fs)
    &&& qualifiable_lookups(x.qualifiable, fs)
    &&& has_data_specification_lookups(x.embedded_data_specifications, fs)
}

/// `fs` are the members that encoding writes for `x`.
pub open spec fn file_meta_encoded(x: FileMeta, fs: Seq<(String, Json)>) -> bool {
    &&& names_within(fs, |n: Seq<char>| file_meta_name(n))
    &&& file_meta_lookups(x, fs)
}

/// The members of `fs` decode to `x`.
pub open spec fn file_meta_rel(x: FileMeta, fs: Seq<(String, Json)>) -> bool {
    &&& member(fs, "modelType"@) matches Some(Json::Str(t)) && t@ == "File"@
    &&& referable_rel(x.referable, fs)
    &&& has_semantics_rel(x.semantics, fs)
    &&& qualifiable_rel(x.qualifiable, fs)
    &&& has_data_specification_rel(x.embedded_data_specifications, fs)
}

/// The error, if any, of decoding the members of `FileMeta` from `fs`.
pub open spec fn file_meta_error(fs: Seq<(String, Json)>) -> Option<DecodeError> {
    match member(fs, "modelType"@) {
        None => Some(DecodeError::MissingField),
        Some(Json::Str(t)) => if t@ == "File"@ {
            match referable_error(fs) {
                Some(e) => Some(e),
                None => {
                    match has_semantics_error(fs) {
                        Some(e) => Some(e),
                        None => {
                            match qualifiable_error(fs) {
                                Some(e) => Some(e),
                                None => {
                                    match has_data_specification_error(fs) {
                                        Some(e) => Some(e),
                                        None => {
                                            None
                                        },
                                    }
                                },
                            }
                        },
                    }
                },
            }
        } else {
            Some(DecodeError::UnknownDiscriminator)
        },
        Some(_) => Some(DecodeError::UnexpectedKind),
    }
}

/// The values of `x` are well-formed.
pub open spec fn file_meta_wf(x: FileMeta) -> bool {
    &&& referable_wf(x.referable)
    &&& has_semantics_wf(x.semantics)
    &&& qualifiable_wf(x.qualifiable)
    &&& has_data_specification_wf(x.embedded_data_specifications)
}

/// `x` and `y` hold the same content.
pub open spec fn file_meta_equiv(x: FileMeta, y: FileMeta) -> bool {
    &&& referable_equiv(x.referable, y.referable)
    &&& has_semantics_equiv(x.semantics, y.semantics)
    &&& qualifiable_equiv(x.qualifiable, y.qualifiable)
    &&& has_data_specification_equiv(x.embedded_data_specifications, y.embedded_data_specifications)
}

impl FileMeta {
    /// Writes the members of the value, absent ones left out.
    #[verifier::rlimit(100)]
    #[verifier::spinoff_prover]
    pub fn encode_members(&self) -> (r: Vec<(String, Json)>)
        ensures
            file_meta_encoded(*self, r@),
    {
        proof {
            reveal_strlit("modelType");
            reveal_strlit("idShort");
            reveal_strlit("displayName");
            reveal_strlit("description");
            reveal_strlit("category");
            reveal_strlit("extensions");
            reveal_strlit("semanticId");
            reveal_strlit("supplementalSemanticIds");
            reveal_strlit("qualifiers");
            reveal_strlit("embeddedDataSpecifications");
            assert("modelType"@.len() == 9 && "idShort"@.len() == 7);
            assert("modelType"@.len() == 9 && "displayName"@.len() == 11);
            assert("modelType"@.len() == 9 && "description"@.len() == 11);
            assert("modelType"@.len() == 9 && "category"@.len() == 8);
            assert("modelType"@.len() == 9 && "extensions"@.len() == 10);
            assert("modelType"@.len() == 9 && "semanticId"@.len() == 10);
            assert("modelType"@.len() == 9 && "supplementalSemanticIds"@.len() == 23);
            assert("modelType"@.len() == 9 && "qualifiers"@.len() == 10);
            assert("modelType"@.len() == 9 && "embeddedDataSpecifications"@.len() == 26);
            assert("idShort"@.len() == 7 && "modelType"@.len() == 9);
            assert("idShort"@.len() == 7 && "displayName"@.len() == 11);
            assert("idShort"@.len() == 7 && "description"@.len() == 11);
            assert("idShort"@.len() == 7 && "category"@.len() == 8);
            assert("idShort"@.len() == 7 && "extensions"@.len() == 10);
            assert("idShort"@.len() == 7 && "semanticId"@.len() == 10);
            assert("idShort"@.len() == 7 && "supplementalSemanticIds"@.len() == 23);
            assert("idShort"@.len() == 7 && "qualifiers"@.len() == 10);
            assert("idShort"@.len() == 7 && "embeddedDataSpecifications"@.len() == 26);
            assert("displayName"@.len() == 11 && "modelType"@.len() == 9);
            assert("displayName"@.len() == 11 && "idShort"@.len() == 7);
            assert("displayName"@[1] != "description"@[1]);
            assert("displayName"@.len() == 11 && "category"@.len() == 8);
            assert("displayName"@.len() == 11 && "extensions"@.len() == 10);
            assert("displayName"@.len() == 11 && "semanticId"@.len() == 10);
            assert("displayName"@.len() == 11 && "supplementalSemanticIds"@.len() == 23);
            assert("displayName"@.len() == 11 && "qualifiers"@.len() == 10);
            assert("displayName"@.len() == 11 && "embeddedDataSpecifications"@.len() == 26);
            assert("description"@.len() == 11 && "modelType"@.len() == 9);
            assert("description"@.len() == 11 && "idShort"@.len() == 7);
            assert("description"@[1] != "displayName"@[1]);
            assert("description"@.len() == 11 && "category"@.len() == 8);
            assert("description"@.len() == 11 && "extensions"@.len() == 10);
            assert("description"@.len() == 11 && "semanticId"@.len() == 10);
            assert("description"@.len() == 11 && "supplementalSemanticIds"@.len() == 23);
            assert("description"@.len() == 11 && "qualifiers"@.len() == 10);
            assert("description"@.len() == 11 && "embeddedDataSpecifications"@.len() == 26);
            assert("category"@.len() == 8 && "modelType"@.len() == 9);
            assert("category"@.len() == 8 && "idShort"@.len() == 7);
            assert("category"@.len() == 8 && "displayName"@.len() == 11);
            assert("category"@.len() == 8 && "description"@.len() == 11);
            assert("category"@.len() == 8 && "extensions"@.len() == 10);
            assert("category"@.len() == 8 && "semanticId"@.len() == 10);
            assert("category"@.len() == 8 && "supplementalSemanticIds"@.len() == 23);
            assert("category"@.len() == 8 && "qualifiers"@.len() == 10);
            assert("category"@.len() == 8 && "embeddedDataSpecifications"@.len() == 26);
            assert("extensions"@.len() == 10 && "modelType"@.len() == 9);
            assert("extensions"@.len() == 10 && "idShort"@.len() == 7);
            assert("extensions"@.len() == 10 && "displayName"@.len() == 11);
            assert("extensions"@.len() == 10 && "description"@.len() == 11);
            assert("extensions"@.len() == 10 && "category"@.len() == 8);
            assert("extensions"@[0] != "semanticId"@[0]);
            assert("extensions"@.len() == 10 && "supplementalSemanticIds"@.len() == 23);
            assert("extensions"@[0] != "qualifiers"@[0]);
            assert("extensions"@.len() == 10 && "embeddedDataSpecifications"@.len() == 26);
            assert("semanticId"@.len() == 10 && "modelType"@.len() == 9);
            assert("semanticId"@.len() == 10 && "idShort"@.len() == 7);
            assert("semanticId"@.len() == 10 && "displayName"@.len() == 11);
            assert("semanticId"@.len() == 10 && "description"@.len() == 11);
            assert("semanticId"@.len() == 10 && "category"@.len() == 8);
            assert("semanticId"@[0] != "extensions"@[0]);
            assert("semanticId"@.len() == 10 && "supplementalSemanticIds"@.len() == 23);
            assert("semanticId"@[0] != "qualifiers"@[0]);
            assert("semanticId"@.len() == 10 && "embeddedDataSpecifications"@.len() == 26);
            assert("supplementalSemanticIds"@.len() == 23 && "modelType"@.len() == 9);
            assert("supplementalSemanticIds"@.len() == 23 && "idShort"@.len() == 7);
            assert("supplementalSemanticIds"@.len() == 23 && "displayName"@.len() == 11);
            assert("supplementalSemanticIds"@.len() == 23 && "description"@.len() == 11);
            assert("supplementalSemanticIds"@.len() == 23 && "category"@.len() == 8);
            assert("supplementalSemanticIds"@.len() == 23 && "extensions"@.len() == 10);
            assert("supplementalSemanticIds"@.len() == 23 && "semanticId"@.len() == 10);
            assert("supplementalSemanticIds"@.len() == 23 && "qualifiers"@.len() == 10);
            assert("supplementalSemanticIds"@.len() == 23 && "embeddedDataSpecifications"@.len() == 26);
            assert("qualifiers"@.len() == 10 && "modelType"@.len() == 9);
            assert("qualifiers"@.len() == 10 && "idShort"@.len() == 7);
            assert("qualifiers"@.len() == 10 && "displayName"@.len() == 11);
            assert("qualifiers"@.len() == 10 && "description"@.len() == 11);
            assert("qualifiers"@.len() == 10 && "category"@.len() == 8);
            assert("qualifiers"@[0] != "extensions"@[0]);
            assert("qualifiers"@[0] != "semanticId"@[0]);
            assert("qualifiers"@.len() == 10 && "supplementalSemanticIds"@.len() == 23);
            assert("qualifiers"@.len() == 10 && "embeddedDataSpecifications"@.len() == 26);
            assert("embeddedDataSpecifications"@.len() == 26 && "modelType"@.len() == 9);
            assert("embeddedDataSpecifications"@.len() == 26 && "idShort"@.len() == 7);
            assert("embeddedDataSpecifications"@.len() == 26 && "displayName"@.len() == 11);
            assert("embeddedDataSpecifications"@.len() == 26 && "description"@.len() == 11);
            assert("embeddedDataSpecifications"@.len() == 26 && "category"@.len() == 8);
            assert("embeddedDataSpecifications"@.len() == 26 && "extensions"@.len() == 10);
            assert("embeddedDataSpecifications"@.len() == 26 && "semanticId"@.len() == 10);
            assert("embeddedDataSpecifications"@.len() == 26 && "supplementalSemanticIds"@.len() == 23);
            assert("embeddedDataSpecifications"@.len() == 26 && "qualifiers"@.len() == 10);
        }
        let mut fs: Vec<(String, Json)> = Vec::new();
        let ghost prev = fs@;
        fs.push(field("modelType", Json::Str("File".to_string())));
        proof {
            lemma_names_within_empty(prev, |n: Seq<char>| n == "modelType"@);
            if true {
                assert(fs@ == prev.push(fs@.last()));
                lemma_names_within_push(prev, fs@.last(), |n: Seq<char>| n == "modelType"@);
                lemma_lookup_push(prev, fs@.last(), "modelType"@);
            }
        }
        let ghost prev = fs@;
        let mut part = self.referable.encode_members();
        let ghost sp = part@;
        fs.append(&mut part);
        proof {
            lemma_names_within_concat(prev, sp, |n: Seq<char>| n == "modelType"@, |n: Seq<char>| referable_name(n), |n: Seq<char>| n == "modelType"@ || referable_name(n));
            lemma_lookup_concat(prev, sp, "modelType"@);
            lemma_lookup_outside(sp, |n: Seq<char>| referable_name(n), "modelType"@);
            lemma_lookup_concat(prev, sp, "idShort"@);
            lemma_lookup_outside(prev, |n: Seq<char>| n == "modelType"@, "idShort"@);
            lemma_lookup_concat(prev, sp, "displayName"@);
            lemma_lookup_outside(prev, |n: Seq<char>| n == "modelType"@, "displayName"@);
            lemma_lookup_concat(prev, sp, "description"@);
            lemma_lookup_outside(prev, |n: Seq<char>| n == "modelType"@, "description"@);
            lemma_lookup_concat(prev, sp, "category"@);
            lemma_lookup_outside(prev, |n: Seq<char>| n == "modelType"@, "category"@);
            lemma_lookup_concat(prev, sp, "extensions"@);
            lemma_lookup_outside(prev, |n: Seq<char>| n == "modelType"@, "extensions"@);
        }
        let ghost prev = fs@;
        let mut part = self.semantics.encode_members();
        let ghost sp = part@;
        fs.append(&mut part);
        proof {
            lemma_names_within_concat(prev, sp, |n: Seq<char>| n == "modelType"@ || referable_name(n), |n: Seq<char>| has_semantics_name(n), |n: Seq<char>| n == "modelType"@ || referable_name(n) || has_semantics_name(n));
            lemma_lookup_concat(prev, sp, "modelType"@);
            lemma_lookup_outside(sp, |n: Seq<char>| has_semantics_name(n), "modelType"@);
            lemma_lookup_concat(prev, sp, "idShort"@);
            lemma_lookup_outside(sp, |n: Seq<char>| has_semantics_name(n), "idShort"@);
            lemma_lookup_concat(prev, sp, "displayName"@);
            lemma_lookup_outside(sp, |n: Seq<char>| has_semantics_name(n), "displayName"@);
            lemma_lookup_concat(prev, sp, "description"@);
            lemma_lookup_outside(sp, |n: Seq<char>| has_semantics_name(n), "description"@);
            lemma_lookup_concat(prev, sp, "category"@);
            lemma_lookup_outside(sp, |n: Seq<char>| has_semantics_name(n), "category"@);
            lemma_lookup_concat(prev, sp, "extensions"@);
            lemma_lookup_outside(sp, |n: Seq<char>| has_semantics_name(n), "extensions"@);
            lemma_lookup_concat(prev, sp, "semanticId"@);
            lemma_lookup_outside(prev, |n: Seq<char>| n == "modelType"@ || referable_name(n), "semanticId"@);
            lemma_lookup_concat(prev, sp, "supplementalSemanticIds"@);
            lemma_lookup_outside(prev, |n: Seq<char>| n == "modelType"@ || referable_name(n), "supplementalSemanticIds"@);
        }
        let ghost prev = fs@;
        let mut part = self.qualifiable.encode_members();
        let ghost sp = part@;
        fs.append(&mut part);
        proof {
            lemma_names_within_concat(prev, sp, |n: Seq<char>| n == "modelType"@ || referable_name(n) || has_semantics_name(n), |n: Seq<char>| qualifiable_name(n), |n: Seq<char>| n == "modelType"@ || referable_name(n) || has_semantics_name(n) || qualifiable_name(n));
            lemma_lookup_concat(prev, sp, "modelType"@);
            lemma_lookup_outside(sp, |n: Seq<char>| qualifiable_name(n), "modelType"@);
            lemma_lookup_concat(prev, sp, "idShort"@);
            lemma_lookup_outside(sp, |n: Seq<char>| qualifiable_name(n), "idShort"@);
            lemma_lookup_concat(prev, sp, "displayName"@);
            lemma_lookup_outside(sp, |n: Seq<char>| qualifiable_name(n), "displayName"@);
            lemma_lookup_concat(prev, sp, "description"@);
            lemma_lookup_outside(sp, |n: Seq<char>| qualifiable_name(n), "description"@);
            lemma_lookup_concat(prev, sp, "category"@);
            lemma_lookup_outside(sp, |n: Seq<char>| qualifiable_name(n), "category"@);
            lemma_lookup_concat(prev, sp, "extensions"@);
            lemma_lookup_outside(sp, |n: Seq<char>| qualifiable_name(n), "extensions"@);
            lemma_lookup_concat(prev, sp, "semanticId"@);
            lemma_lookup_outside(sp, |n: Seq<char>| qualifiable_name(n), "semanticId"@);
            lemma_lookup_concat(prev, sp, "supplementalSemanticIds"@);
            lemma_lookup_outside(sp, |n: Seq<char>| qualifiable_name(n), "supplementalSemanticIds"@);
            lemma_lookup_concat(prev, sp, "qualifiers"@);
            lemma_lookup_outside(prev, |n: Seq<char>| n == "modelType"@ || referable_name(n) || has_semantics_name(n), "qualifiers"@);
        }
        let ghost prev = fs@;
        let mut part = self.embedded_data_specifications.encode_members();
        let ghost sp = part@;
        fs.append(&mut part);
        proof {
            lemma_names_within_concat(prev, sp, |n: Seq<char>| n == "modelType"@ || referable_name(n) || has_semantics_name(n) || qualifiable_name(n), |n: Seq<char>| has_data_specification_name(n), |n: Seq<char>| file_meta_name(n));
            lemma_lookup_concat(prev, sp, "modelType"@);
            lemma_lookup_outside(sp, |n: Seq<char>| has_data_specification_name(n), "modelType"@);
            lemma_lookup_concat(prev, sp, "idShort"@);
            lemma_lookup_outside(sp, |n: Seq<char>| has_data_specification_name(n), "idShort"@);
            lemma_lookup_concat(prev, sp, "displayName"@);
            lemma_lookup_outside(sp, |n: Seq<char>| has_data_specification_name(n), "displayName"@);
            lemma_lookup_concat(prev, sp, "description"@);
            lemma_lookup_outside(sp, |n: Seq<char>| has_data_specification_name(n), "description"@);
            lemma_lookup_concat(prev, sp, "category"@);
            lemma_lookup_outside(sp, |n: Seq<char>| has_data_specification_name(n), "category"@);
            lemma_lookup_concat(prev, sp, "extensions"@);
            lemma_lookup_outside(sp, |n: Seq<char>| has_data_specification_name(n), "extensions"@);
            lemma_lookup_concat(prev, sp, "semanticId"@);
            lemma_lookup_outside(sp, |n: Seq<char>| has_data_specification_name(n), "semanticId"@);
            lemma_lookup_concat(prev, sp, "supplementalSemanticIds"@);
            lemma_lookup_outside(sp, |n: Seq<char>| has_data_specification_name(n), "supplementalSemanticIds"@);
            lemma_lookup_concat(prev, sp, "qualifiers"@);
            lemma_lookup_outside(sp, |n: Seq<char>| has_data_specification_name(n), "qualifiers"@);
            lemma_lookup_concat(prev, sp, "embeddedDataSpecifications"@);
            lemma_lookup_outside(prev, |n: Seq<char>| n == "modelType"@ || referable_name(n) || has_semantics_name(n) || qualifiable_name(n), "embeddedDataSpecifications"@);
        }
        fs
    }

    /// Reads the members of the value from `fs`.
    pub fn decode_members(fs: &Vec<(String, Json)>) -> (r: Result<FileMeta, DecodeError>)
        ensures
            match file_meta_error(fs@) {
                Some(e) => r == Err::<FileMeta, DecodeError>(e),
                None => r matches Ok(x) && file_meta_rel(x, fs@),
            },
    {
        match get_member(fs, "modelType") {
            None => return Err(DecodeError::MissingField),
            Some(Json::Str(t)) => if !str_eq(t.as_str(), "File") {
                return Err(DecodeError::UnknownDiscriminator);
            },
            Some(_) => return Err(DecodeError::UnexpectedKind),
        }
        let referable = match Referable::decode_members(fs) {
            Ok(v) => v,
            Err(e) => return Err(e),
        };
        let semantics = match HasSemantics::decode_members(fs) {
            Ok(v) => v,
            Err(e) => return Err(e),
        };
        let qualifiable = match Qualifiable::decode_members(fs) {
            Ok(v) => v,
            Err(e) => return Err(e),
        };
        let embedded_data_specifications = match HasDataSpecification::decode_members(fs) {
            Ok(v) => v,
            Err(e) => return Err(e),
        };
        Ok(FileMeta { referable, semantics, qualifiable, embedded_data_specifications })
    }
}

/// Members found as encoding writes them decode to a value, whatever
/// other members stand beside them.
pub proof fn lemma_file_meta_round_trip(x: FileMeta, fs: Seq<(String, Json)>)
    requires
        file_meta_wf(x),
        file_meta_lookups(x, fs),
    ensures
        file_meta_error(fs) is None,
        file_meta_rel(x, fs),
{
    lemma_referable_round_trip(x.referable, fs);
    lemma_has_semantics_round_trip(x.semantics, fs);
    lemma_qualifiable_round_trip(x.qualifiable, fs);
    lemma_has_data_specification_round_trip(x.embedded_data_specifications, fs);
}

/// The values that the same members decode to hold the same content.
pub proof fn lemma_file_meta_unique(x: FileMeta, y: FileMeta, fs: Seq<(String, Json)>)
    requires
        file_meta_rel(x, fs),
        file_meta_rel(y, fs),
    ensures
        file_meta_equiv(x, y),
{
    lemma_referable_unique(x.referable, y.referable, fs);
    lemma_has_semantics_unique(x.semantics, y.semantics, fs);
    lemma_qualifiable_unique(x.qualifiable, y.qualifiable, fs);
    lemma_has_data_specification_unique(x.embedded_data_specifications, y.embedded_data_specifications, fs);
}

impl JsonCodec for FileMeta {
    open spec fn wf(&self) -> bool {
        file_meta_wf(*self)
    }

    open spec fn encoded(&self, j: Json) -> bool {
        j matches Json::Object(fs) && file_meta_encoded(*self, fs@)
    }

    open spec fn rel(&self, j: Json) -> bool {
        j matches Json::Object(fs) && file_meta_rel(*self, fs@)
    }

    open spec fn decode_error(j: Json) -> Option<DecodeError> {
        match j {
            Json::Object(fs) => file_meta_error(fs@),
            _ => Some(DecodeError::UnexpectedKind),
        }
    }

    open spec fn equiv(&self, o: &Self) -> bool {
        file_meta_equiv(*self, *o)
    }

    fn encode(&self) -> (r: Json) {
        Json::Object(self.encode_members())
    }

    fn decode(j: &Json) -> (r: Result<Self, DecodeError>) {
        match j {
            Json::Object(fs) => FileMeta::decode_members(fs),
            _ => Err(DecodeError::UnexpectedKind),
        }
    }

    proof fn lemma_round_trip(&self, j: Json) {
        lemma_file_meta_round_trip(*self, j->Object_0@);
    }

    proof fn lemma_unique(&self, o: &Self, j: Json) {
        lemma_file_meta_unique(*self, *o, j->Object_0@);
    }
}

/// A data element holding a text in several languages.
#[derive(Clone, Debug, PartialEq)]
pub struct MultiLanguageProperty {
    pub referable: Referable,
    pub semantics: HasSemantics,
    pub qualifiable: Qualifiable,
    pub embedded_data_specifications: HasDataSpecification,
    pub value: Option<Vec<LangString>>,
    pub value_id: Option<Reference>,
}

/// A name of the members of `MultiLanguageProperty`.
pub open spec fn multi_language_property_name(n: Seq<char>) -> bool {
    n == "modelType"@ || referable_name(n) || has_semantics_name(n) || qualifiable_name(n) || has_data_specification_name(n) || n == "value"@ || n == "valueId"@
}

/// Looking up the members of `MultiLanguageProperty` in `fs` finds what encoding writes for `x`.
pub open spec fn multi_language_property_lookups(x: MultiLanguageProperty, fs: Seq<(String, Json)>) -> bool {
    &&& lookup(fs, "modelType"@) matches Some(Json::Str(t)) && t@ == "MultiLanguageProperty"@
    &&& referable_lookups(x.referable, fs)
    &&& has_semantics_lookups(x.semantics, fs)
    &&& qualifiable_lookups(x.qualifiable, fs)
    &&& has_data_specification_lookups(x.embedded_data_specifications, fs)
    &&& opt_encoded(x.value, lookup(fs, "value"@))
    &&& opt_encoded(x.value_id, lookup(fs, "valueId"@))
}

/// `fs` are the members that encoding writes for `x`.
pub open spec fn multi_language_property_encoded(x: MultiLanguageProperty, fs: Seq<(String, Json)>) -> bool {
    &&& names_within(fs, |n: Seq<char>| multi_language_property_name(n))
    &&& multi_language_property_lookups(x, fs)
}

/// The members of `fs` decode to `x`.
pub open spec fn multi_language_property_rel(x: MultiLanguageProperty, fs: Seq<(String, Json)>) -> bool {
    &&& member(fs, "modelType"@) matches Some(Json::Str(t)) && t@ == "MultiLanguageProperty"@
    &&& referable_rel(x.referable, fs)
    &&& has_semantics_rel(x.semantics, fs)
    &&& qualifiable_rel(x.qualifiable, fs)
    &&& has_data_specification_rel(x.embedded_data_specifications, fs)
    &&& opt_rel(x.value, member(fs, "value"@))
    &&& opt_rel(x.value_id, member(fs, "valueId"@))
}

/// The error, if any, of decoding the members of `MultiLanguageProperty` from `fs`.
pub open spec fn multi_language_property_error(fs: Seq<(String, Json)>) -> Option<DecodeError> {
    match member(fs, "modelType"@) {
        None => Some(DecodeError::MissingField),
        Some(Json::Str(t)) => if t@ == "MultiLanguageProperty"@ {
            match referable_error(fs) {
                Some(e) => Some(e),
                None => {
                    match has_semantics_error(fs) {
                        Some(e) => Some(e),
                        None => {
                            match qualifiable_error(fs) {
                                Some(e) => Some(e),
                                None => {
                                    match has_data_specification_error(fs) {
                                        Some(e) => Some(e),
                                        None => {
                                            match opt_error::<Vec<LangString>>(member(fs, "value"@)) {
                                                Some(e) => Some(e),
                                                None => {
                                                    match opt_error::<Reference>(member(fs, "valueId"@)) {
                                                        Some(e) => Some(e),
                                                        None => {
                                                            None
                                                        },
                                                    }
                                                },
                                            }
                                        },
                                    }
                                },
                            }
                        },
                    }
                },
            }
        } else {
            Some(DecodeError::UnknownDiscriminator)
        },
        Some(_) => Some(DecodeError::UnexpectedKind),
    }
}

/// The values of `x` are well-formed.
pub open spec fn multi_language_property_wf(x: MultiLanguageProperty) -> bool {
    &&& referable_wf(x.referable)
    &&& has_semantics_wf(x.semantics)
    &&& qualifiable_wf(x.qualifiable)
    &&& has_data_specification_wf(x.embedded_data_specifications)
    &&& opt_wf(x.value)
    &&& opt_wf(x.value_id)
}

/// `x` and `y` hold the same content.
pub open spec fn multi_language_property_equiv(x: MultiLanguageProperty, y: MultiLanguageProperty) -> bool {
    &&& referable_equiv(x.referable, y.referable)
    &&& has_semantics_equiv(x.semantics, y.semantics)
    &&& qualifiable_equiv(x.qualifiable, y.qualifiable)
    &&& has_data_specification_equiv(x.embedded_data_specifications, y.embedded_data_specifications)
    &&& opt_equiv(x.value, y.value)
    &&& opt_equiv(x.value_id, y.value_id)
}

impl MultiLanguageProperty {
    /// Writes the members of the value, absent ones left out.
    #[verifier::rlimit(100)]
    #[verifier::spinoff_prover]
    pub fn encode_members(&self) -> (r: Vec<(String, Json)>)
        ensures
            multi_language_property_encoded(*self, r@),
    {
        proof {
            reveal_strlit("modelType");
            reveal_strlit("idShort");
            reveal_strlit("displayName");
            reveal_strlit("description");
            reveal_strlit("category");
            reveal_strlit("extensions");
            reveal_strlit("semanticId");
            reveal_strlit("supplementalSemanticIds");
            reveal_strlit("qualifiers");
            reveal_strlit("embeddedDataSpecifications");
            reveal_strlit("value");
            reveal_strlit("valueId");
            assert("modelType"@.len() == 9 && "idShort"@.len() == 7);
            assert("modelType"@.len() == 9 && "displayName"@.len() == 11);
            assert("modelType"@.len() == 9 && "description"@.len() == 11);
            assert("modelType"@.len() == 9 && "category"@.len() == 8);
            assert("modelType"@.len() == 9 && "extensions"@.len() == 10);
            assert("modelType"@.len() == 9 && "semanticId"@.len() == 10);
            assert("modelType"@.len() == 9 && "supplementalSemanticIds"@.len() == 23);
            assert("modelType"@.len() == 9 && "qualifiers"@.len() == 10);
            assert("modelType"@.len() == 9 && "embeddedDataSpecifications"@.len() == 26);
            assert("modelType"@.len() == 9 && "value"@.len() == 5);
            assert("modelType"@.len() == 9 && "valueId"@.len() == 7);
            assert("idShort"@.len() == 7 && "modelType"@.len() == 9);
            assert("idShort"@.len() == 7 && "displayName"@.len() == 11);
            assert("idShort"@.len() == 7 && "description"@.len() == 11);
            assert("idShort"@.len() == 7 && "category"@.len() == 8);
            assert("idShort"@.len() == 7 && "extensions"@.len() == 10);
            assert("idShort"@.len() == 7 && "semanticId"@.len() == 10);
            assert("idShort"@.len() == 7 && "supplementalSemanticIds"@.len() == 23);
            assert("idShort"@.len() == 7 && "qualifiers"@.len() == 10);
            assert("idShort"@.len() == 7 && "embeddedDataSpecifications"@.len() == 26);
            assert("idShort"@.len() == 7 && "value"@.len() == 5);
            assert("idShort"@[0] != "valueId"@[0]);
            assert("displayName"@.len() == 11 && "modelType"@.len() == 9);
            assert("displayName"@.len() == 11 && "idShort"@.len() == 7);
            assert("displayName"@[1] != "description"@[1]);
            assert("displayName"@.len() == 11 && "category"@.len() == 8);
            assert("displayName"@.len() == 11 && "extensions"@.len() == 10);
            assert("displayName"@.len() == 11 && "semanticId"@.len() == 10);
            assert("displayName"@.len() == 11 && "supplementalSemanticIds"@.len() == 23);
            assert("displayName"@.len() == 11 && "qualifiers"@.len() == 10);
            assert("displayName"@.len() == 11 && "embeddedDataSpecifications"@.len() == 26);
            assert("displayName"@.len() == 11 && "value"@.len() == 5);
            assert("displayName"@.len() == 11 && "valueId"@.len() == 7);
            assert("description"@.len() == 11 && "modelType"@.len() == 9);
            assert("description"@.len() == 11 && "idShort"@.len() == 7);
            assert("description"@[1] != "displayName"@[1]);
            assert("description"@.len() == 11 && "category"@.len() == 8);
            assert("description"@.len() == 11 && "extensions"@.len() == 10);
            assert("description"@.len() == 11 && "semanticId"@.len() == 10);
            assert("description"@.len() == 11 && "supplementalSemanticIds"@.len() == 23);
            assert("description"@.len() == 11 && "qualifiers"@.len() == 10);
            assert("description"@.len() == 11 && "embeddedDataSpecifications"@.len() == 26);
            assert("description"@.len() == 11 && "value"@.len() == 5);
            assert("description"@.len() == 11 && "valueId"@.len() == 7);
            assert("category"@.len() == 8 && "modelType"@.len() == 9);
            assert("category"@.len() == 8 && "idShort"@.len() == 7);
            assert("category"@.len() == 8 && "displayName"@.len() == 11);
            assert("category"@.len() == 8 && "description"@.len() == 11);
            assert("category"@.len() == 8 && "extensions"@.len() == 10);
            assert("category"@.len() == 8 && "semanticId"@.len() == 10);
            assert("category"@.len() == 8 && "supplementalSemanticIds"@.len() == 23);
            assert("category"@.len() == 8 && "qualifiers"@.len() == 10);
            assert("category"@.len() == 8 && "embeddedDataSpecifications"@.len() == 26);
            assert("category"@.len() == 8 && "value"@.len() == 5);
            assert("category"@.len() == 8 && "valueId"@.len() == 7);
            assert("extensions"@.len() == 10 && "modelType"@.len() == 9);
            assert("extensions"@.len() == 10 && "idShort"@.len() == 7);
            assert("extensions"@.len() == 10 && "displayName"@.len() == 11);
            assert("extensions"@.len() == 10 && "description"@.len() == 11);
            assert("extensions"@.len() == 10 && "category"@.len() == 8);
            assert("extensions"@[0] != "semanticId"@[0]);
            assert("extensions"@.len() == 10 && "supplementalSemanticIds"@.len() == 23);
            assert("extensions"@[0] != "qualifiers"@[0]);
            assert("extensions"@.len() == 10 && "embeddedDataSpecifications"@.len() == 26);
            assert("extensions"@.len() == 10 && "value"@.len() == 5);
            assert("extensions"@.len() == 10 && "valueId"@.len() == 7);
            assert("semanticId"@.len() == 10 && "modelType"@.len() == 9);
            assert("semanticId"@.len() == 10 && "idShort"@.len() == 7);
            assert("semanticId"@.len() == 10 && "displayName"@.len() == 11);
            assert("semanticId"@.len() == 10 && "description"@.len() == 11);
            assert("semanticId"@.len() == 10 && "category"@.len() == 8);
            assert("semanticId"@[0] != "extensions"@[0]);
            assert("semanticId"@.len() == 10 && "supplementalSemanticIds"@.len() == 23);
            assert("semanticId"@[0] != "qualifiers"@[0]);
            assert("semanticId"@.len() == 10 && "embeddedDataSpecifications"@.len() == 26);
            assert("semanticId"@.len() == 10 && "value"@.len() == 5);
            assert("semanticId"@.len() == 10 && "valueId"@.len() == 7);
            assert("supplementalSemanticIds"@.len() == 23 && "modelType"@.len() == 9);
            assert("supplementalSemanticIds"@.len() == 23 && "idShort"@.len() == 7);
            assert("supplementalSemanticIds"@.len() == 23 && "displayName"@.len() == 11);
            assert("supplementalSemanticIds"@.len() == 23 && "description"@.len() == 11);
            assert("supplementalSemanticIds"@.len() == 23 && "category"@.len() == 8);
            assert("supplementalSemanticIds"@.len() == 23 && "extensions"@.len() == 10);
            assert("supplementalSemanticIds"@.len() == 23 && "semanticId"@.len() == 10);
            assert("supplementalSemanticIds"@.len() == 23 && "qualifiers"@.len() == 10);
            assert("supplementalSemanticIds"@.len() == 23 && "embeddedDataSpecifications"@.len() == 26);
            assert("supplementalSemanticIds"@.len() == 23 && "value"@.len() == 5);
            assert("supplementalSemanticIds"@.len() == 23 && "valueId"@.len() == 7);
            assert("qualifiers"@.len() == 10 && "modelType"@.len() == 9);
            assert("qualifiers"@.len() == 10 && "idShort"@.len() == 7);
            assert("qualifiers"@.len() == 10 && "displayName"@.len() == 11);
            assert("qualifiers"@.len() == 10 && "description"@.len() == 11);
            assert("qualifiers"@.len() == 10 && "category"@.len() == 8);
            assert("qualifiers"@[0] != "extensions"@[0]);
            assert("qualifiers"@[0] != "semanticId"@[0]);
            assert("qualifiers"@.len() == 10 && "supplementalSemanticIds"@.len() == 23);
            assert("qualifiers"@.len() == 10 && "embeddedDataSpecifications"@.len() == 26);
            assert("qualifiers"@.len() == 10 && "value"@.len() == 5);
            assert("qualifiers"@.len() == 10 && "valueId"@.len() == 7);
            assert("embeddedDataSpecifications"@.len() == 26 && "modelType"@.len() == 9);
            assert("embeddedDataSpecifications"@.len() == 26 && "idShort"@.len() == 7);
            assert("embeddedDataSpecifications"@.len() == 26 && "displayName"@.len() == 11);
            assert("embeddedDataSpecifications"@.len() == 26 && "description"@.len() == 11);
            assert("embeddedDataSpecifications"@.len() == 26 && "category"@.len() == 8);
            assert("embeddedDataSpecifications"@.len() == 26 && "extensions"@.len() == 10);
            assert("embeddedDataSpecifications"@.len() == 26 && "semanticId"@.len() == 10);
            assert("embeddedDataSpecifications"@.len() == 26 && "supplementalSemanticIds"@.len() == 23);
            assert("embeddedDataSpecifications"@.len() == 26 && "qualifiers"@.len() == 10);
            assert("embeddedDataSpecifications"@.len() == 26 && "value"@.len() == 5);
            assert("embeddedDataSpecifications"@.len() == 26 && "valueId"@.len() == 7);
            assert("value"@.len() == 5 && "modelType"@.len() == 9);
            assert("value"@.len() == 5 && "idShort"@.len() == 7);
            assert("value"@.len() == 5 && "displayName"@.len() == 11);
            assert("value"@.len() == 5 && "description"@.len() == 11);
            assert("value"@.len() == 5 && "category"@.len() == 8);
            assert("value"@.len() == 5 && "extensions"@.len() == 10);
            assert("value"@.len() == 5 && "semanticId"@.len() == 10);
            assert("value"@.len() == 5 && "supplementalSemanticIds"@.len() == 23);
            assert("value"@.len() == 5 && "qualifiers"@.len() == 10);
            assert("value"@.len() == 5 && "embeddedDataSpecifications"@.len() == 26);
            assert("value"@.len() == 5 && "valueId"@.len() == 7);
            assert("valueId"@.len() == 7 && "modelType"@.len() == 9);
            assert("valueId"@[0] != "idShort"@[0]);
            assert("valueId"@.len() == 7 && "displayName"@.len() == 11);
            assert("valueId"@.len() == 7 && "description"@.len() == 11);
            assert("valueId"@.len() == 7 && "category"@.len() == 8);
            assert("valueId"@.len() == 7 && "extensions"@.len() == 10);
            assert("valueId"@.len() == 7 && "semanticId"@.len() == 10);
            assert("valueId"@.len() == 7 && "supplementalSemanticIds"@.len() == 23);
            assert("valueId"@.len() == 7 && "qualifiers"@.len() == 10);
            assert("valueId"@.len() == 7 && "embeddedDataSpecifications"@.len() == 26);
            assert("valueId"@.len() == 7 && "value"@.len() == 5);
        }
        let mut fs: Vec<(String, Json)> = Vec::new();
        let ghost prev = fs@;
        fs.push(field("modelType", Json::Str("MultiLanguageProperty".to_string())));
        proof {
            lemma_names_within_empty(prev, |n: Seq<char>| n == "modelType"@);
            if true {
                assert(fs@ == prev.push(fs@.last()));
                lemma_names_within_push(prev, fs@.last(), |n: Seq<char>| n == "modelType"@);
                lemma_lookup_push(prev, fs@.last(), "modelType"@);
            }
        }
        let ghost prev = fs@;
        let mut part = self.referable.encode_members();
        let ghost sp = part@;
        fs.append(&mut part);
        proof {
            lemma_names_within_concat(prev, sp, |n: Seq<char>| n == "modelType"@, |n: Seq<char>| referable_name(n), |n: Seq<char>| n == "modelType"@ || referable_name(n));
            lemma_lookup_concat(prev, sp, "modelType"@);
            lemma_lookup_outside(sp, |n: Seq<char>| referable_name(n), "modelType"@);
            lemma_lookup_concat(prev, sp, "idShort"@);
            lemma_lookup_outside(prev, |n: Seq<char>| n == "modelType"@, "idShort"@);
            lemma_lookup_concat(prev, sp, "displayName"@);
            lemma_lookup_outside(prev, |n: Seq<char>| n == "modelType"@, "displayName"@);
            lemma_lookup_concat(prev, sp, "description"@);
            lemma_lookup_outside(prev, |n: Seq<char>| n == "modelType"@, "description"@);
            lemma_lookup_concat(prev, sp, "category"@);
            lemma_lookup_outside(prev, |n: Seq<char>| n == "modelType"@, "category"@);
            lemma_lookup_concat(prev, sp, "extensions"@);
            lemma_lookup_outside(prev, |n: Seq<char>| n == "modelType"@, "extensions"@);
        }
        let ghost prev = fs@;
        let mut part = self.semantics.encode_members();
        let ghost sp = part@;
        fs.append(&mut part);
        proof {
            lemma_names_within_concat(prev, sp, |n: Seq<char>| n == "modelType"@ || referable_name(n), |n: Seq<char>| has_semantics_name(n), |n: Seq<char>| n == "modelType"@ || referable_name(n) || has_semantics_name(n));
            lemma_lookup_concat(prev, sp, "modelType"@);
            lemma_lookup_outside(sp, |n: Seq<char>| has_semantics_name(n), "modelType"@);
            lemma_lookup_concat(prev, sp, "idShort"@);
            lemma_lookup_outside(sp, |n: Seq<char>| has_semantics_name(n), "idShort"@);
            lemma_lookup_concat(prev, sp, "displayName"@);
            lemma_lookup_outside(sp, |n: Seq<char>| has_semantics_name(n), "displayName"@);
            lemma_lookup_concat(prev, sp, "description"@);
            lemma_lookup_outside(sp, |n: Seq<char>| has_semantics_name(n), "description"@);
            lemma_lookup_concat(prev, sp, "category"@);
            lemma_lookup_outside(sp, |n: Seq<char>| has_semantics_name(n), "category"@);
            lemma_lookup_concat(prev, sp, "extensions"@);
            lemma_lookup_outside(sp, |n: Seq<char>| has_semantics_name(n), "extensions"@);
            lemma_lookup_concat(prev, sp, "semanticId"@);
            lemma_lookup_outside(prev, |n: Seq<char>| n == "modelType"@ || referable_name(n), "semanticId"@);
            lemma_lookup_concat(prev, sp, "supplementalSemanticIds"@);
            lemma_lookup_outside(prev, |n: Seq<char>| n == "modelType"@ || referable_name(n), "supplementalSemanticIds"@);
        }
        let ghost prev = fs@;
        let mut part = self.qualifiable.encode_members();
        let ghost sp = part@;
        fs.append(&mut part);
        proof {
            lemma_names_within_concat(prev, sp, |n: Seq<char>| n == "modelType"@ || referable_name(n) || has_semantics_name(n), |n: Seq<char>| qualifiable_name(n), |n: Seq<char>| n == "modelType"@ || referable_name(n) || has_semantics_name(n) || qualifiable_name(n));
            lemma_lookup_concat(prev, sp, "modelType"@);
            lemma_lookup_outside(sp, |n: Seq<char>| qualifiable_name(n), "modelType"@);
            lemma_lookup_concat(prev, sp, "idShort"@);
            lemma_lookup_outside(sp, |n: Seq<char>| qualifiable_name(n), "idShort"@);
            lemma_lookup_concat(prev, sp, "displayName"@);
            lemma_lookup_outside(sp, |n: Seq<char>| qualifiable_name(n), "displayName"@);
            lemma_lookup_concat(prev, sp, "description"@);
            lemma_lookup_outside(sp, |n: Seq<char>| qualifiable_name(n), "description"@);
            lemma_lookup_concat(prev, sp, "category"@);
            lemma_lookup_outside(sp, |n: Seq<char>| qualifiable_name(n), "category"@);
            lemma_lookup_concat(prev, sp, "extensions"@);
            lemma_lookup_outside(sp, |n: Seq<char>| qualifiable_name(n), "extensions"@);
            lemma_lookup_concat(prev, sp, "semanticId"@);
            lemma_lookup_outside(sp, |n: Seq<char>| qualifiable_name(n), "semanticId"@);
            lemma_lookup_concat(prev, sp, "supplementalSemanticIds"@);
            lemma_lookup_outside(sp, |n: Seq<char>| qualifiable_name(n), "supplementalSemanticIds"@);
            lemma_lookup_concat(prev, sp, "qualifiers"@);
            lemma_lookup_outside(prev, |n: Seq<char>| n == "modelType"@ || referable_name(n) || has_semantics_name(n), "qualifiers"@);
        }
        let ghost prev = fs@;
        let mut part = self.embedded_data_specifications.encode_members();
        let ghost sp = part@;
        fs.append(&mut part);
        proof {
            lemma_names_within_concat(prev, sp, |n: Seq<char>| n == "modelType"@ || referable_name(n) || has_semantics_name(n) || qualifiable_name(n), |n: Seq<char>| has_data_specification_name(n), |n: Seq<char>| n == "modelType"@ || referable_name(n) || has_semantics_name(n) || qualifiable_name(n) || has_data_specification_name(n));
            lemma_lookup_concat(prev, sp, "modelType"@);
            lemma_lookup_outside(sp, |n: Seq<char>| has_data_specification_name(n), "modelType"@);
            lemma_lookup_concat(prev, sp, "idShort"@);
            lemma_lookup_outside(sp, |n: Seq<char>| has_data_specification_name(n), "idShort"@);
            lemma_lookup_concat(prev, sp, "displayName"@);
            lemma_lookup_outside(sp, |n: Seq<char>| has_data_specification_name(n), "displayName"@);
            lemma_lookup_concat(prev, sp, "description"@);
            lemma_lookup_outside(sp, |n: Seq<char>| has_data_specification_name(n), "description"@);
            lemma_lookup_concat(prev, sp, "category"@);
            lemma_lookup_outside(sp, |n: Seq<char>| has_data_specification_name(n), "category"@);
            lemma_lookup_concat(prev, sp, "extensions"@);
            lemma_lookup_outside(sp, |n: Seq<char>| has_data_specification_name(n), "extensions"@);
            lemma_lookup_concat(prev, sp, "semanticId"@);
            lemma_lookup_outside(sp, |n: Seq<char>| has_data_specification_name(n), "semanticId"@);
            lemma_lookup_concat(prev, sp, "supplementalSemanticIds"@);
            lemma_lookup_outside(sp, |n: Seq<char>| has_data_specification_name(n), "supplementalSemanticIds"@);
            lemma_lookup_concat(prev, sp, "qualifiers"@);
            lemma_lookup_outside(sp, |n: Seq<char>| has_data_specification_name(n), "qualifiers"@);
            lemma_lookup_concat(prev, sp, "embeddedDataSpecifications"@);
            lemma_lookup_outside(prev, |n: Seq<char>| n == "modelType"@ || referable_name(n) || has_semantics_name(n) || qualifiable_name(n), "embeddedDataSpecifications"@);
        }
        let ghost prev = fs@;
        push_opt(&mut fs, "value", &self.value);
        proof {
            lemma_names_within_weaken(prev, |n: Seq<char>| n == "modelType"@ || referable_name(n) || has_semantics_name(n) || qualifiable_name(n) || has_data_specification_name(n), |n: Seq<char>| n == "modelType"@ || referable_name(n) || has_semantics_name(n) || qualifiable_name(n) || has_data_specification_name(n) || n == "value"@);
            lemma_lookup_outside(prev, |n: Seq<char>| n == "modelType"@ || referable_name(n) || has_semantics_name(n) || qualifiable_name(n) || has_data_specification_name(n), "value"@);
            if self.value is Some {
                assert(fs@ == prev.push(fs@.last()));
                lemma_names_within_push(prev, fs@.last(), |n: Seq<char>| n == "modelType"@ || referable_name(n) || has_semantics_name(n) || qualifiable_name(n) || has_data_specification_name(n) || n == "value"@);
                lemma_lookup_push(prev, fs@.last(), "modelType"@);
                lemma_lookup_push(prev, fs@.last(), "idShort"@);
                lemma_lookup_push(prev, fs@.last(), "displayName"@);
                lemma_lookup_push(prev, fs@.last(), "description"@);
                lemma_lookup_push(prev, fs@.last(), "category"@);
                lemma_lookup_push(prev, fs@.last(), "extensions"@);
                lemma_lookup_push(prev, fs@.last(), "semanticId"@);
                lemma_lookup_push(prev, fs@.last(), "supplementalSemanticIds"@);
                lemma_lookup_push(prev, fs@.last(), "qualifiers"@);
                lemma_lookup_push(prev, fs@.last(), "embeddedDataSpecifications"@);
                lemma_lookup_push(prev, fs@.last(), "value"@);
            }
        }
        let ghost prev = fs@;
        push_opt(&mut fs, "valueId", &self.value_id);
        proof {
            lemma_names_within_weaken(prev, |n: Seq<char>| n == "modelType"@ || referable_name(n) || has_semantics_name(n) || qualifiable_name(n) || has_data_specification_name(n) || n == "value"@, |n: Seq<char>| multi_language_property_name(n));
            lemma_lookup_outside(prev, |n: Seq<char>| n == "modelType"@ || referable_name(n) || has_semantics_name(n) || qualifiable_name(n) || has_data_specification_name(n) || n == "value"@, "valueId"@);
            if self.value_id is Some {
                assert(fs@ == prev.push(fs@.last()));
                lemma_names_within_push(prev, fs@.last(), |n: Seq<char>| multi_language_property_name(n));
                lemma_lookup_push(prev, fs@.last(), "modelType"@);
                lemma_lookup_push(prev, fs@.last(), "idShort"@);
                lemma_lookup_push(prev, fs@.last(), "displayName"@);
                lemma_lookup_push(prev, fs@.last(), "description"@);
                lemma_lookup_push(prev, fs@.last(), "category"@);
                lemma_lookup_push(prev, fs@.last(), "extensions"@);
                lemma_lookup_push(prev, fs@.last(), "semanticId"@);
                lemma_lookup_push(prev, fs@.last(), "supplementalSemanticIds"@);
                lemma_lookup_push(prev, fs@.last(), "qualifiers"@);
                lemma_lookup_push(prev, fs@.last(), "embeddedDataSpecifications"@);
                lemma_lookup_push(prev, fs@.last(), "value"@);
                lemma_lookup_push(prev, fs@.last(), "valueId"@);
            }
        }
        fs
    }

    /// Reads the members of the value from `fs`.
    pub fn decode_members(fs: &Vec<(String, Json)>) -> (r: Result<MultiLanguageProperty, DecodeError>)
        ensures
            match multi_language_property_error(fs@) {
                Some(e) => r == Err::<MultiLanguageProperty, DecodeError>(e),
                None => r matches Ok(x) && multi_language_property_rel(x, fs@),
            },
    {
        match get_member(fs, "modelType") {
            None => return Err(DecodeError::MissingField),
            Some(Json::Str(t)) => if !str_eq(t.as_str(), "MultiLanguageProperty") {
                return Err(DecodeError::UnknownDiscriminator);
            },
            Some(_) => return Err(DecodeError::UnexpectedKind),
        }
        let referable = match Referable::decode_members(fs) {
            Ok(v) => v,
            Err(e) => return Err(e),
        };
        let semantics = match HasSemantics::decode_members(fs) {
            Ok(v) => v,
            Err(e) => return Err(e),
        };
        let qualifiable = match Qualifiable::decode_members(fs) {
            Ok(v) => v,
            Err(e) => return Err(e),
        };
        let embedded_data_specifications = match HasDataSpecification::decode_members(fs) {
            Ok(v) => v,
            Err(e) => return Err(e),
        };
        let value = match decode_opt::<Vec<LangString>>(fs, "value") {
            Ok(v) => v,
            Err(e) => return Err(e),
        };
        let value_id = match decode_opt::<Reference>(fs, "valueId") {
            Ok(v) => v,
            Err(e) => return Err(e),
        };
        Ok(MultiLanguageProperty { referable, semantics, qualifiable, embedded_data_specifications, value, value_id })
    }
}

/// Members found as encoding writes them decode to a value, whatever
/// other members stand beside them.
pub proof fn lemma_multi_language_property_round_trip(x: MultiLanguageProperty, fs: Seq<(String, Json)>)
    requires
        multi_language_property_wf(x),
        multi_language_property_lookups(x, fs),
    ensures
        multi_language_property_error(fs) is None,
        multi_language_property_rel(x, fs),
{
    lemma_referable_round_trip(x.referable, fs);
    lemma_has_semantics_round_trip(x.semantics, fs);
    lemma_qualifiable_round_trip(x.qualifiable, fs);
    lemma_has_data_specification_round_trip(x.embedded_data_specifications, fs);
    lemma_opt_round_trip(x.value, lookup(fs, "value"@));
    lemma_opt_round_trip(x.value_id, lookup(fs, "valueId"@));
}

/// The values that the same members decode to hold the same content.
pub proof fn lemma_multi_language_property_unique(x: MultiLanguageProperty, y: MultiLanguageProperty, fs: Seq<(String, Json)>)
    requires
        multi_language_property_rel(x, fs),
        multi_language_property_rel(y, fs),
    ensures
        multi_language_property_equiv(x, y),
{
    lemma_referable_unique(x.referable, y.referable, fs);
    lemma_has_semantics_unique(x.semantics, y.semantics, fs);
    lemma_qualifiable_unique(x.qualifiable, y.qualifiable, fs);
    lemma_has_data_specification_unique(x.embedded_data_specifications, y.embedded_data_specifications, fs);
    lemma_opt_unique(x.value, y.value, member(fs, "value"@));
    lemma_opt_unique(x.value_id, y.value_id, member(fs, "valueId"@));
}

impl JsonCodec for MultiLanguageProperty {
    open spec fn wf(&self) -> bool {
        multi_language_property_wf(*self)
    }

    open spec fn encoded(&self, j: Json) -> bool {
        j matches Json::Object(fs) && multi_language_property_encoded(*self, fs@)
    }

    open spec fn rel(&self, j: Json) -> bool {
        j matches Json::Object(fs) && multi_language_property_rel(*self, fs@)
    }

    open spec fn decode_error(j: Json) -> Option<DecodeError> {
        match j {
            Json::Object(fs) => multi_language_property_error(fs@),
            _ => Some(DecodeError::UnexpectedKind),
        }
    }

    open spec fn equiv(&self, o: &Self) -> bool {
        multi_language_property_equiv(*self, *o)
    }

    fn encode(&self) -> (r: Json) {
        Json::Object(self.encode_members())
    }

    fn decode(j: &Json) -> (r: Result<Self, DecodeError>) {
        match j {
            Json::Object(fs) => MultiLanguageProperty::decode_members(fs),
            _ => Err(DecodeError::UnexpectedKind),
        }
    }

    proof fn lemma_round_trip(&self, j: Json) {
        lemma_multi_language_property_round_trip(*self, j->Object_0@);
    }

    proof fn lemma_unique(&self, o: &Self, j: Json) {
        lemma_multi_language_property_unique(*self, *o, j->Object_0@);
    }
}

/// The metamodel view of a multi-language property: its attributes without the value.
#[derive(Clone, Debug, PartialEq)]
pub struct MultiLanguagePropertyMeta {
    pub referable: Referable,
    pub semantics: HasSemantics,
    pub qualifiable: Qualifiable,
    pub embedded_data_specifications: HasDataSpecification,
}

/// A name of the members of `MultiLanguagePropertyMeta`.
pub open spec fn multi_language_property_meta_name(n: Seq<char>) -> bool {
    n == "modelType"@ || referable_name(n) || has_semantics_name(n) || qualifiable_name(n) || has_data_specification_name(n)
}

/// Looking up the members of `MultiLanguagePropertyMeta` in `fs` finds what encoding writes for `x`.
pub open spec fn multi_language_property_meta_lookups(x: MultiLanguagePropertyMeta, fs: Seq<(String, Json)>) -> bool {
    &&& lookup(fs, "modelType"@) matches Some(Json::Str(t)) && t@ == "MultiLanguageProperty"@
    &&& referable_lookups(x.referable, fs)
    &&& has_semantics_lookups(x.semantics, fs)
    &&& qualifiable_lookups(x.qualifiable, fs)
    &&& has_data_specification_lookups(x.embedded_data_specifications, fs)
}

/// `fs` are the members that encoding writes for `x`.
pub open spec fn multi_language_property_meta_encoded(x: MultiLanguagePropertyMeta, fs: Seq<(String, Json)>) -> bool {
    &&& names_within(fs, |n: Seq<char>| multi_language_property_meta_name(n))
    &&& multi_language_property_meta_lookups(x, fs)
}

/// The members of `fs` decode to `x`.
pub open spec fn multi_language_property_meta_rel(x: MultiLanguagePropertyMeta, fs: Seq<(String, Json)>) -> bool {
    &&& member(fs, "modelType"@) matches Some(Json::Str(t)) && t@ == "MultiLanguageProperty"@
    &&& referable_rel(x.referable, fs)
    &&& has_semantics_rel(x.semantics, fs)
    &&& qualifiable_rel(x.qualifiable, fs)
    &&& has_data_specification_rel(x.embedded_data_specifications, fs)
}

/// The error, if any, of decoding the members of `MultiLanguagePropertyMeta` from `fs`.
pub open spec fn multi_language_property_meta_error(fs: Seq<(String, Json)>) -> Option<DecodeError> {
    match member(fs, "modelType"@) {
        None => Some(DecodeError::MissingField),
        Some(Json::Str(t)) => if t@ == "MultiLanguageProperty"@ {
            match referable_error(fs) {
                Some(e) => Some(e),
                None => {
                    match has_semantics_error(fs) {
                        Some(e) => Some(e),
                        None => {
                            match qualifiable_error(fs) {
                                Some(e) => Some(e),
                                None => {
                                    match has_data_specification_error(fs) {
                                        Some(e) => Some(e),
                                        None => {
                                            None
                                        },
                                    }
                                },
                            }
                        },
                    }
                },
            }
        } else {
            Some(DecodeError::UnknownDiscriminator)
        },
        Some(_) => Some(DecodeError::UnexpectedKind),
    }
}

/// The values of `x` are well-formed.
pub open spec fn multi_language_property_meta_wf(x: MultiLanguagePropertyMeta) -> bool {
    &&& referable_wf(x.referable)
    &&& has_semantics_wf(x.semantics)
    &&& qualifiable_wf(x.qualifiable)
    &&& has_data_specification_wf(x.embedded_data_specifications)
}

/// `x` and `y` hold the same content.
pub open spec fn multi_language_property_meta_equiv(x: MultiLanguagePropertyMeta, y: MultiLanguagePropertyMeta) -> bool {
    &&& referable_equiv(x.referable, y.referable)
    &&& has_semantics_equiv(x.semantics, y.semantics)
    &&& qualifiable_equiv(x.qualifiable, y.qualifiable)
    &&& has_data_specification_equiv(x.embedded_data_specifications, y.embedded_data_specifications)
}

impl MultiLanguagePropertyMeta {
    /// Writes the members of the value, absent ones left out.
    #[verifier::rlimit(100)]
    #[verifier::spinoff_prover]
    pub fn encode_members(&self) -> (r: Vec<(String, Json)>)
        ensures
            multi_language_property_meta_encoded(*self, r@),
    {
        proof {
            reveal_strlit("modelType");
            reveal_strlit("idShort");
            reveal_strlit("displayName");
            reveal_strlit("description");
            reveal_strlit("category");
            reveal_strlit("extensions");
            reveal_strlit("semanticId");
            reveal_strlit("supplementalSemanticIds");
            reveal_strlit("qualifiers");
            reveal_strlit("embeddedDataSpecifications");
            assert("modelType"@.len() == 9 && "idShort"@.len() == 7);
            assert("modelType"@.len() == 9 && "displayName"@.len() == 11);
            assert("modelType"@.len() == 9 && "description"@.len() == 11);
            assert("modelType"@.len() == 9 && "category"@.len() == 8);
            assert("modelType"@.len() == 9 && "extensions"@.len() == 10);
            assert("modelType"@.len() == 9 && "semanticId"@.len() == 10);
            assert("modelType"@.len() == 9 && "supplementalSemanticIds"@.len() == 23);
            assert("modelType"@.len() == 9 && "qualifiers"@.len() == 10);
            assert("modelType"@.len() == 9 && "embeddedDataSpecifications"@.len() == 26);
            assert("idShort"@.len() == 7 && "modelType"@.len() == 9);
            assert("idShort"@.len() == 7 && "displayName"@.len() == 11);
            assert("idShort"@.len() == 7 && "description"@.len() == 11);
            assert("idShort"@.len() == 7 && "category"@.len() == 8);
            assert("idShort"@.len() == 7 && "extensions"@.len() == 10);
            assert("idShort"@.len() == 7 && "semanticId"@.len() == 10);
            assert("idShort"@.len() == 7 && "supplementalSemanticIds"@.len() == 23);
            assert("idShort"@.len() == 7 && "qualifiers"@.len() == 10);
            assert("idShort"@.len() == 7 && "embeddedDataSpecifications"@.len() == 26);
            assert("displayName"@.len() == 11 && "modelType"@.len() == 9);
            assert("displayName"@.len() == 11 && "idShort"@.len() == 7);
            assert("displayName"@[1] != "description"@[1]);
            assert("displayName"@.len() == 11 && "category"@.len() == 8);
            assert("displayName"@.len() == 11 && "extensions"@.len() == 10);
            assert("displayName"@.len() == 11 && "semanticId"@.len() == 10);
            assert("displayName"@.len() == 11 && "supplementalSemanticIds"@.len() == 23);
            assert("displayName"@.len() == 11 && "qualifiers"@.len() == 10);
            assert("displayName"@.len() == 11 && "embeddedDataSpecifications"@.len() == 26);
            assert("description"@.len() == 11 && "modelType"@.len() == 9);
            assert("description"@.len() == 11 && "idShort"@.len() == 7);
            assert("description"@[1] != "displayName"@[1]);
            assert("description"@.len() == 11 && "category"@.len() == 8);
            assert("description"@.len() == 11 && "extensions"@.len() == 10);
            assert("description"@.len() == 11 && "semanticId"@.len() == 10);
            assert("description"@.len() == 11 && "supplementalSemanticIds"@.len() == 23);
            assert("description"@.len() == 11 && "qualifiers"@.len() == 10);
            assert("description"@.len() == 11 && "embeddedDataSpecifications"@.len() == 26);
            assert("category"@.len() == 8 && "modelType"@.len() == 9);
            assert("category"@.len() == 8 && "idShort"@.len() == 7);
            assert("category"@.len() == 8 && "displayName"@.len() == 11);
            assert("category"@.len() == 8 && "description"@.len() == 11);
            assert("category"@.len() == 8 && "extensions"@.len() == 10);
            assert("category"@.len() == 8 && "semanticId"@.len() == 10);
            assert("category"@.len() == 8 && "supplementalSemanticIds"@.len() == 23);
            assert("category"@.len() == 8 && "qualifiers"@.len() == 10);
            assert("category"@.len() == 8 && "embeddedDataSpecifications"@.len() == 26);
            assert("extensions"@.len() == 10 && "modelType"@.len() == 9);
            assert("extensions"@.len() == 10 && "idShort"@.len() == 7);
            assert("extensions"@.len() == 10 && "displayName"@.len() == 11);
            assert("extensions"@.len() == 10 && "description"@.len() == 11);
            assert("extensions"@.len() == 10 && "category"@.len() == 8);
            assert("extensions"@[0] != "semanticId"@[0]);
            assert("extensions"@.len() == 10 && "supplementalSemanticIds"@.len() == 23);
            assert("extensions"@[0] != "qualifiers"@[0]);
            assert("extensions"@.len() == 10 && "embeddedDataSpecifications"@.len() == 26);
            assert("semanticId"@.len() == 10 && "modelType"@.len() == 9);
            assert("semanticId"@.len() == 10 && "idShort"@.len() == 7);
            assert("semanticId"@.len() == 10 && "displayName"@.len() == 11);
            assert("semanticId"@.len() == 10 && "description"@.len() == 11);
            assert("semanticId"@.len() == 10 && "category"@.len() == 8);
            assert("semanticId"@[0] != "extensions"@[0]);
            assert("semanticId"@.len() == 10 && "supplementalSemanticIds"@.len() == 23);
            assert("semanticId"@[0] != "qualifiers"@[0]);
            assert("semanticId"@.len() == 10 && "embeddedDataSpecifications"@.len() == 26);
            assert("supplementalSemanticIds"@.len() == 23 && "modelType"@.len() == 9);
            assert("supplementalSemanticIds"@.len() == 23 && "idShort"@.len() == 7);
            assert("supplementalSemanticIds"@.len() == 23 && "displayName"@.len() == 11);
            assert("supplementalSemanticIds"@.len() == 23 && "description"@.len() == 11);
            assert("supplementalSemanticIds"@.len() == 23 && "category"@.len() == 8);
            assert("supplementalSemanticIds"@.len() == 23 && "extensions"@.len() == 10);
            assert("supplementalSemanticIds"@.len() == 23 && "semanticId"@.len() == 10);
            assert("supplementalSemanticIds"@.len() == 23 && "qualifiers"@.len() == 10);
            assert("supplementalSemanticIds"@.len() == 23 && "embeddedDataSpecifications"@.len() == 26);
            assert("qualifiers"@.len() == 10 && "modelType"@.len() == 9);
            assert("qualifiers"@.len() == 10 && "idShort"@.len() == 7);
            assert("qualifiers"@.len() == 10 && "displayName"@.len() == 11);
            assert("qualifiers"@.len() == 10 && "description"@.len() == 11);
            assert("qualifiers"@.len() == 10 && "category"@.len() == 8);
            assert("qualifiers"@[0] != "extensions"@[0]);
            assert("qualifiers"@[0] != "semanticId"@[0]);
            assert("qualifiers"@.len() == 10 && "supplementalSemanticIds"@.len() == 23);
            assert("qualifiers"@.len() == 10 && "embeddedDataSpecifications"@.len() == 26);
            assert("embeddedDataSpecifications"@.len() == 26 && "modelType"@.len() == 9);
            assert("embeddedDataSpecifications"@.len() == 26 && "idShort"@.len() == 7);
            assert("embeddedDataSpecifications"@.len() == 26 && "displayName"@.len() == 11);
            assert("embeddedDataSpecifications"@.len() == 26 && "description"@.len() == 11);
            assert("embeddedDataSpecifications"@.len() == 26 && "category"@.len() == 8);
            assert("embeddedDataSpecifications"@.len() == 26 && "extensions"@.len() == 10);
            assert("embeddedDataSpecifications"@.len() == 26 && "semanticId"@.len() == 10);
            assert("embeddedDataSpecifications"@.len() == 26 && "supplementalSemanticIds"@.len() == 23);
            assert("embeddedDataSpecifications"@.len() == 26 && "qualifiers"@.len() == 10);
        }
        let mut fs: Vec<(String, Json)> = Vec::new();
        let ghost prev = fs@;
        fs.push(field("modelType", Json::Str("MultiLanguageProperty".to_string())));
        proof {
            lemma_names_within_empty(prev, |n: Seq<char>| n == "modelType"@);
            if true {
                assert(fs@ == prev.push(fs@.last()));
                lemma_names_within_push(prev, fs@.last(), |n: Seq<char>| n == "modelType"@);
                lemma_lookup_push(prev, fs@.last(), "modelType"@);
            }
        }
        let ghost prev = fs@;
        let mut part = self.referable.encode_members();
        let ghost sp = part@;
        fs.append(&mut part);
        proof {
            lemma_names_within_concat(prev, sp, |n: Seq<char>| n == "modelType"@, |n: Seq<char>| referable_name(n), |n: Seq<char>| n == "modelType"@ || referable_name(n));
            lemma_lookup_concat(prev, sp, "modelType"@);
            lemma_lookup_outside(sp, |n: Seq<char>| referable_name(n), "modelType"@);
            lemma_lookup_concat(prev, sp, "idShort"@);
            lemma_lookup_outside(prev, |n: Seq<char>| n == "modelType"@, "idShort"@);
            lemma_lookup_concat(prev, sp, "displayName"@);
            lemma_lookup_outside(prev, |n: Seq<char>| n == "modelType"@, "displayName"@);
            lemma_lookup_concat(prev, sp, "description"@);
            lemma_lookup_outside(prev, |n: Seq<char>| n == "modelType"@, "description"@);
            lemma_lookup_concat(prev, sp, "category"@);
            lemma_lookup_outside(prev, |n: Seq<char>| n == "modelType"@, "category"@);
            lemma_lookup_concat(prev, sp, "extensions"@);
            lemma_lookup_outside(prev, |n: Seq<char>| n == "modelType"@, "extensions"@);
        }
        let ghost prev = fs@;
        let mut part = self.semantics.encode_members();
        let ghost sp = part@;
        fs.append(&mut part);
        proof {
            lemma_names_within_concat(prev, sp, |n: Seq<char>| n == "modelType"@ || referable_name(n), |n: Seq<char>| has_semantics_name(n), |n: Seq<char>| n == "modelType"@ || referable_name(n) || has_semantics_name(n));
            lemma_lookup_concat(prev, sp, "modelType"@);
            lemma_lookup_outside(sp, |n: Seq<char>| has_semantics_name(n), "modelType"@);
            lemma_lookup_concat(prev, sp, "idShort"@);
            lemma_lookup_outside(sp, |n: Seq<char>| has_semantics_name(n), "idShort"@);
            lemma_lookup_concat(prev, sp, "displayName"@);
            lemma_lookup_outside(sp, |n: Seq<char>| has_semantics_name(n), "displayName"@);
            lemma_lookup_concat(prev, sp, "description"@);
            lemma_lookup_outside(sp, |n: Seq<char>| has_semantics_name(n), "description"@);
            lemma_lookup_concat(prev, sp, "category"@);
            lemma_lookup_outside(sp, |n: Seq<char>| has_semantics_name(n), "category"@);
            lemma_lookup_concat(prev, sp, "extensions"@);
            lemma_lookup_outside(sp, |n: Seq<char>| has_semantics_name(n), "extensions"@);
            lemma_lookup_concat(prev, sp, "semanticId"@);
            lemma_lookup_outside(prev, |n: Seq<char>| n == "modelType"@ || referable_name(n), "semanticId"@);
            lemma_lookup_concat(prev, sp, "supplementalSemanticIds"@);
            lemma_lookup_outside(prev, |n: Seq<char>| n == "modelType"@ || referable_name(n), "supplementalSemanticIds"@);
        }
        let ghost prev = fs@;
        let mut part = self.qualifiable.encode_members();
        let ghost sp = part@;
        fs.append(&mut part);
        proof {
            lemma_names_within_concat(prev, sp, |n: Seq<char>| n == "modelType"@ || referable_name(n) || has_semantics_name(n), |n: Seq<char>| qualifiable_name(n), |n: Seq<char>| n == "modelType"@ || referable_name(n) || has_semantics_name(n) || qualifiable_name(n));
            lemma_lookup_concat(prev, sp, "modelType"@);
            lemma_lookup_outside(sp, |n: Seq<char>| qualifiable_name(n), "modelType"@);
            lemma_lookup_concat(prev, sp, "idShort"@);
            lemma_lookup_outside(sp, |n: Seq<char>| qualifiable_name(n), "idShort"@);
            lemma_lookup_concat(prev, sp, "displayName"@);
            lemma_lookup_outside(sp, |n: Seq<char>| qualifiable_name(n), "displayName"@);
            lemma_lookup_concat(prev, sp, "description"@);
            lemma_lookup_outside(sp, |n: Seq<char>| qualifiable_name(n), "description"@);
            lemma_lookup_concat(prev, sp, "category"@);
            lemma_lookup_outside(sp, |n: Seq<char>| qualifiable_name(n), "category"@);
            lemma_lookup_concat(prev, sp, "extensions"@);
            lemma_lookup_outside(sp, |n: Seq<char>| qualifiable_name(n), "extensions"@);
            lemma_lookup_concat(prev, sp, "semanticId"@);
            lemma_lookup_outside(sp, |n: Seq<char>| qualifiable_name(n), "semanticId"@);
            lemma_lookup_concat(prev, sp, "supplementalSemanticIds"@);
            lemma_lookup_outside(sp, |n: Seq<char>| qualifiable_name(n), "supplementalSemanticIds"@);
            lemma_lookup_concat(prev, sp, "qualifiers"@);
            lemma_lookup_outside(prev, |n: Seq<char>| n == "modelType"@ || referable_name(n) || has_semantics_name(n), "qualifiers"@);
        }
        let ghost prev = fs@;
        let mut part = self.embedded_data_specifications.encode_members();
        let ghost sp = part@;
        fs.append(&mut part);
        proof {
            lemma_names_within_concat(prev, sp, |n: Seq<char>| n == "modelType"@ || referable_name(n) || has_semantics_name(n) || qualifiable_name(n), |n: Seq<char>| has_data_specification_name(n), |n: Seq<char>| multi_language_property_meta_name(n));
            lemma_lookup_concat(prev, sp, "modelType"@);
            lemma_lookup_outside(sp, |n: Seq<char>| has_data_specification_name(n), "modelType"@);
            lemma_lookup_concat(prev, sp, "idShort"@);
            lemma_lookup_outside(sp, |n: Seq<char>| has_data_specification_name(n), "idShort"@);
            lemma_lookup_concat(prev, sp, "displayName"@);
            lemma_lookup_outside(sp, |n: Seq<char>| has_data_specification_name(n), "displayName"@);
            lemma_lookup_concat(prev, sp, "description"@);
            lemma_lookup_outside(sp, |n: Seq<char>| has_data_specification_name(n), "description"@);
            lemma_lookup_concat(prev, sp, "category"@);
            lemma_lookup_outside(sp, |n: Seq<char>| has_data_specification_name(n), "category"@);
            lemma_lookup_concat(prev, sp, "extensions"@);
            lemma_lookup_outside(sp, |n: Seq<char>| has_data_specification_name(n), "extensions"@);
            lemma_lookup_concat(prev, sp, "semanticId"@);
            lemma_lookup_outside(sp, |n: Seq<char>| has_data_specification_name(n), "semanticId"@);
            lemma_lookup_concat(prev, sp, "supplementalSemanticIds"@);
            lemma_lookup_outside(sp, |n: Seq<char>| has_data_specification_name(n), "supplementalSemanticIds"@);
            lemma_lookup_concat(prev, sp, "qualifiers"@);
            lemma_lookup_outside(sp, |n: Seq<char>| has_data_specification_name(n), "qualifiers"@);
            lemma_lookup_concat(prev, sp, "embeddedDataSpecifications"@);
            lemma_lookup_outside(prev, |n: Seq<char>| n == "modelType"@ || referable_name(n) || has_semantics_name(n) || qualifiable_name(n), "embeddedDataSpecifications"@);
        }
        fs
    }

    /// Reads the members of the value from `fs`.
    pub fn decode_members(fs: &Vec<(String, Json)>) -> (r: Result<MultiLanguagePropertyMeta, DecodeError>)
        ensures
            match multi_language_property_meta_error(fs@) {
                Some(e) => r == Err::<MultiLanguagePropertyMeta, DecodeError>(e),
                None => r matches Ok(x) && multi_language_property_meta_rel(x, fs@),
            },
    {
        match get_member(fs, "modelType") {
            None => return Err(DecodeError::MissingField),
            Some(Json::Str(t)) => if !str_eq(t.as_str(), "MultiLanguageProperty") {
                return Err(DecodeError::UnknownDiscriminator);
            },
            Some(_) => return Err(DecodeError::UnexpectedKind),
        }
        let referable = match Referable::decode_members(fs) {
            Ok(v) => v,
            Err(e) => return Err(e),
        };
        let semantics = match HasSemantics::decode_members(fs) {
            Ok(v) => v,
            Err(e) => return Err(e),
        };
        let qualifiable = match Qualifiable::decode_members(fs) {
            Ok(v) => v,
            Err(e) => return Err(e),
        };
        let embedded_data_specifications = match HasDataSpecification::decode_members(fs) {
            Ok(v) => v,
            Err(e) => return Err(e),
        };
        Ok(MultiLanguagePropertyMeta { referable, semantics, qualifiable, embedded_data_specifications })
    }
}

/// Members found as encoding writes them decode to a value, whatever
/// other members stand beside them.
pub proof fn lemma_multi_language_property_meta_round_trip(x: MultiLanguagePropertyMeta, fs: Seq<(String, Json)>)
    requires
        multi_language_property_meta_wf(x),
        multi_language_property_meta_lookups(x, fs),
    ensures
        multi_language_property_meta_error(fs) is None,
        multi_language_property_meta_rel(x, fs),
{
    lemma_referable_round_trip(x.referable, fs);
    lemma_has_semantics_round_trip(x.semantics, fs);
    lemma_qualifiable_round_trip(x.qualifiable, fs);
    lemma_has_data_specification_round_trip(x.embedded_data_specifications, fs);
}

/// The values that the same members decode to hold the same content.
pub proof fn lemma_multi_language_property_meta_unique(x: MultiLanguagePropertyMeta, y: MultiLanguagePropertyMeta, fs: Seq<(String, Json)>)
    requires
        multi_language_property_meta_rel(x, fs),
        multi_language_property_meta_rel(y, fs),
    ensures
        multi_language_property_meta_equiv(x, y),
{
    lemma_referable_unique(x.referable, y.referable, fs);
    lemma_has_semantics_unique(x.semantics, y.semantics, fs);
    lemma_qualifiable_unique(x.qualifiable, y.qualifiable, fs);
    lemma_has_data_specification_unique(x.embedded_data_specifications, y.embedded_data_specifications, fs);
}

impl JsonCodec for MultiLanguagePropertyMeta {
    open spec fn wf(&self) -> bool {
        multi_language_property_meta_wf(*self)
    }

    open spec fn encoded(&self, j: Json) -> bool {
        j matches Json::Object(fs) && multi_language_property_meta_encoded(*self, fs@)
    }

    open spec fn rel(&self, j: Json) -> bool {
        j matches Json::Object(fs) && multi_language_property_meta_rel(*self, fs@)
    }

    open spec fn decode_error(j: Json) -> Option<DecodeError> {
        match j {
            Json::Object(fs) => multi_language_property_meta_error(fs@),
            _ => Some(DecodeError::UnexpectedKind),
        }
    }

    open spec fn equiv(&self, o: &Self) -> bool {
        multi_language_property_meta_equiv(*self, *o)
    }

    fn encode(&self) -> (r: Json) {
        Json::Object(self.encode_members())
    }

    fn decode(j: &Json) -> (r: Result<Self, DecodeError>) {
        match j {
            Json::Object(fs) => MultiLanguagePropertyMeta::decode_members(fs),
            _ => Err(DecodeError::UnexpectedKind),
        }
    }

    proof fn lemma_round_trip(&self, j: Json) {
        lemma_multi_language_property_meta_round_trip(*self, j->Object_0@);
    }

    proof fn lemma_unique(&self, o: &Self, j: Json) {
        lemma_multi_language_property_meta_unique(*self, *o, j->Object_0@);
    }
}

/// An element stating a capability of the asset.
#[derive(Clone, Debug, PartialEq)]
pub struct Capability {
    pub referable: Referable,
    pub semantics: HasSemantics,
    pub qualifiable: Qualifiable,
    pub embedded_data_specifications: HasDataSpecification,
}

/// A name of the members of `Capability`.
pub open spec fn capability_name(n: Seq<char>) -> bool {
    n == "modelType"@ || referable_name(n) || has_semantics_name(n) || qualifiable_name(n) || has_data_specification_name(n)
}

/// Looking up the members of `Capability` in `fs` finds what encoding writes for `x`.
pub open spec fn capability_lookups(x: Capability, fs: Seq<(String, Json)>) -> bool {
    &&& lookup(fs, "modelType"@) matches Some(Json::Str(t)) && t@ == "Capability"@
    &&& referable_lookups(x.referable, fs)
    &&& has_semantics_lookups(x.semantics, fs)
    &&& qualifiable_lookups(x.qualifiable, fs)
    &&& has_data_specification_lookups(x.embedded_data_specifications, fs)
}

/// `fs` are the members that encoding writes for `x`.
pub open spec fn capability_encoded(x: Capability, fs: Seq<(String, Json)>) -> bool {
    &&& names_within(fs, |n: Seq<char>| capability_name(n))
    &&& capability_lookups(x, fs)
}

/// The members of `fs` decode to `x`.
pub open spec fn capability_rel(x: Capability, fs: Seq<(String, Json)>) -> bool {
    &&& member(fs, "modelType"@) matches Some(Json::Str(t)) && t@ == "Capability"@
    &&& referable_rel(x.referable, fs)
    &&& has_semantics_rel(x.semantics, fs)
    &&& qualifiable_rel(x.qualifiable, fs)
    &&& has_data_specification_rel(x.embedded_data_specifications, fs)
}

/// The error, if any, of decoding the members of `Capability` from `fs`.
pub open spec fn capability_error(fs: Seq<(String, Json)>) -> Option<DecodeError> {
    match member(fs, "modelType"@) {
        None => Some(DecodeError::MissingField),
        Some(Json::Str(t)) => if t@ == "Capability"@ {
            match referable_error(fs) {
                Some(e) => Some(e),
                None => {
                    match has_semantics_error(fs) {
                        Some(e) => Some(e),
                        None => {
                            match qualifiable_error(fs) {
                                Some(e) => Some(e),
                                None => {
                                    match has_data_specification_error(fs) {
                                        Some(e) => Some(e),
                                        None => {
                                            None
                                        },
                                    }
                                },
                            }
                        },
                    }
                },
            }
        } else {
            Some(DecodeError::UnknownDiscriminator)
        },
        Some(_) => Some(DecodeError::UnexpectedKind),
    }
}

/// The values of `x` are well-formed.
pub open spec fn capability_wf(x: Capability) -> bool {
    &&& referable_wf(x.referable)
    &&& has_semantics_wf(x.semantics)
    &&& qualifiable_wf(x.qualifiable)
    &&& has_data_specification_wf(x.embedded_data_specifications)
}

/// `x` and `y` hold the same content.
pub open spec fn capability_equiv(x: Capability, y: Capability) -> bool {
    &&& referable_equiv(x.referable, y.referable)
    &&& has_semantics_equiv(x.semantics, y.semantics)
    &&& qualifiable_equiv(x.qualifiable, y.qualifiable)
    &&& has_data_specification_equiv(x.embedded_data_specifications, y.embedded_data_specifications)
}

impl Capability {
    /// Writes the members of the value, absent ones left out.
    #[verifier::rlimit(100)]
    #[verifier::spinoff_prover]
    pub fn encode_members(&self) -> (r: Vec<(String, Json)>)
        ensures
            capability_encoded(*self, r@),
    {
        proof {
            reveal_strlit("modelType");
            reveal_strlit("idShort");
            reveal_strlit("displayName");
            reveal_strlit("description");
            reveal_strlit("category");
            reveal_strlit("extensions");
            reveal_strlit("semanticId");
            reveal_strlit("supplementalSemanticIds");
            reveal_strlit("qualifiers");
            reveal_strlit("embeddedDataSpecifications");
            assert("modelType"@.len() == 9 && "idShort"@.len() == 7);
            assert("modelType"@.len() == 9 && "displayName"@.len() == 11);
            assert("modelType"@.len() == 9 && "description"@.len() == 11);
            assert("modelType"@.len() == 9 && "category"@.len() == 8);
            assert("modelType"@.len() == 9 && "extensions"@.len() == 10);
            assert("modelType"@.len() == 9 && "semanticId"@.len() == 10);
            assert("modelType"@.len() == 9 && "supplementalSemanticIds"@.len() == 23);
            assert("modelType"@.len() == 9 && "qualifiers"@.len() == 10);
            assert("modelType"@.len() == 9 && "embeddedDataSpecifications"@.len() == 26);
            assert("idShort"@.len() == 7 && "modelType"@.len() == 9);
            assert("idShort"@.len() == 7 && "displayName"@.len() == 11);
            assert("idShort"@.len() == 7 && "description"@.len() == 11);
            assert("idShort"@.len() == 7 && "category"@.len() == 8);
            assert("idShort"@.len() == 7 && "extensions"@.len() == 10);
            assert("idShort"@.len() == 7 && "semanticId"@.len() == 10);
            assert("idShort"@.len() == 7 && "supplementalSemanticIds"@.len() == 23);
            assert("idShort"@.len() == 7 && "qualifiers"@.len() == 10);
            assert("idShort"@.len() == 7 && "embeddedDataSpecifications"@.len() == 26);
            assert("displayName"@.len() == 11 && "modelType"@.len() == 9);
            assert("displayName"@.len() == 11 && "idShort"@.len() == 7);
            assert("displayName"@[1] != "description"@[1]);
            assert("displayName"@.len() == 11 && "category"@.len() == 8);
            assert("displayName"@.len() == 11 && "extensions"@.len() == 10);
            assert("displayName"@.len() == 11 && "semanticId"@.len() == 10);
            assert("displayName"@.len() == 11 && "supplementalSemanticIds"@.len() == 23);
            assert("displayName"@.len() == 11 && "qualifiers"@.len() == 10);
            assert("displayName"@.len() == 11 && "embeddedDataSpecifications"@.len() == 26);
            assert("description"@.len() == 11 && "modelType"@.len() == 9);
            assert("description"@.len() == 11 && "idShort"@.len() == 7);
            assert("description"@[1] != "displayName"@[1]);
            assert("description"@.len() == 11 && "category"@.len() == 8);
            assert("description"@.len() == 11 && "extensions"@.len() == 10);
            assert("description"@.len() == 11 && "semanticId"@.len() == 10);
            assert("description"@.len() == 11 && "supplementalSemanticIds"@.len() == 23);
            assert("description"@.len() == 11 && "qualifiers"@.len() == 10);
            assert("description"@.len() == 11 && "embeddedDataSpecifications"@.len() == 26);
            assert("category"@.len() == 8 && "modelType"@.len() == 9);
            assert("category"@.len() == 8 && "idShort"@.len() == 7);
            assert("category"@.len() == 8 && "displayName"@.len() == 11);
            assert("category"@.len() == 8 && "description"@.len() == 11);
            assert("category"@.len() == 8 && "extensions"@.len() == 10);
            assert("category"@.len() == 8 && "semanticId"@.len() == 10);
            assert("category"@.len() == 8 && "supplementalSemanticIds"@.len() == 23);
            assert("category"@.len() == 8 && "qualifiers"@.len() == 10);
            assert("category"@.len() == 8 && "embeddedDataSpecifications"@.len() == 26);
            assert("extensions"@.len() == 10 && "modelType"@.len() == 9);
            assert("extensions"@.len() == 10 && "idShort"@.len() == 7);
            assert("extensions"@.len() == 10 && "displayName"@.len() == 11);
            assert("extensions"@.len() == 10 && "description"@.len() == 11);
            assert("extensions"@.len() == 10 && "category"@.len() == 8);
            assert("extensions"@[0] != "semanticId"@[0]);
            assert("extensions"@.len() == 10 && "supplementalSemanticIds"@.len() == 23);
            assert("extensions"@[0] != "qualifiers"@[0]);
            assert("extensions"@.len() == 10 && "embeddedDataSpecifications"@.len() == 26);
            assert("semanticId"@.len() == 10 && "modelType"@.len() == 9);
            assert("semanticId"@.len() == 10 && "idShort"@.len() == 7);
            assert("semanticId"@.len() == 10 && "displayName"@.len() == 11);
            assert("semanticId"@.len() == 10 && "description"@.len() == 11);
            assert("semanticId"@.len() == 10 && "category"@.len() == 8);
            assert("semanticId"@[0] != "extensions"@[0]);
            assert("semanticId"@.len() == 10 && "supplementalSemanticIds"@.len() == 23);
            assert("semanticId"@[0] != "qualifiers"@[0]);
            assert("semanticId"@.len() == 10 && "embeddedDataSpecifications"@.len() == 26);
            assert("supplementalSemanticIds"@.len() == 23 && "modelType"@.len() == 9);
            assert("supplementalSemanticIds"@.len() == 23 && "idShort"@.len() == 7);
            assert("supplementalSemanticIds"@.len() == 23 && "displayName"@.len() == 11);
            assert("supplementalSemanticIds"@.len() == 23 && "description"@.len() == 11);
            assert("supplementalSemanticIds"@.len() == 23 && "category"@.len() == 8);
            assert("supplementalSemanticIds"@.len() == 23 && "extensions"@.len() == 10);
            assert("supplementalSemanticIds"@.len() == 23 && "semanticId"@.len() == 10);
            assert("supplementalSemanticIds"@.len() == 23 && "qualifiers"@.len() == 10);
            assert("supplementalSemanticIds"@.len() == 23 && "embeddedDataSpecifications"@.len() == 26);
            assert("qualifiers"@.len() == 10 && "modelType"@.len() == 9);
            assert("qualifiers"@.len() == 10 && "idShort"@.len() == 7);
            assert("qualifiers"@.len() == 10 && "displayName"@.len() == 11);
            assert("qualifiers"@.len() == 10 && "description"@.len() == 11);
            assert("qualifiers"@.len() == 10 && "category"@.len() == 8);
            assert("qualifiers"@[0] != "extensions"@[0]);
            assert("qualifiers"@[0] != "semanticId"@[0]);
            assert("qualifiers"@.len() == 10 && "supplementalSemanticIds"@.len() == 23);
            assert("qualifiers"@.len() == 10 && "embeddedDataSpecifications"@.len() == 26);
            assert("embeddedDataSpecifications"@.len() == 26 && "modelType"@.len() == 9);
            assert("embeddedDataSpecifications"@.len() == 26 && "idShort"@.len() == 7);
            assert("embeddedDataSpecifications"@.len() == 26 && "displayName"@.len() == 11);
            assert("embeddedDataSpecifications"@.len() == 26 && "description"@.len() == 11);
            assert("embeddedDataSpecifications"@.len() == 26 && "category"@.len() == 8);
            assert("embeddedDataSpecifications"@.len() == 26 && "extensions"@.len() == 10);
            assert("embeddedDataSpecifications"@.len() == 26 && "semanticId"@.len() == 10);
            assert("embeddedDataSpecifications"@.len() == 26 && "supplementalSemanticIds"@.len() == 23);
            assert("embeddedDataSpecifications"@.len() == 26 && "qualifiers"@.len() == 10);
        }
        let mut fs: Vec<(String, Json)> = Vec::new();
        let ghost prev = fs@;
        fs.push(field("modelType", Json::Str("Capability".to_string())));
        proof {
            lemma_names_within_empty(prev, |n: Seq<char>| n == "modelType"@);
            if true {
                assert(fs@ == prev.push(fs@.last()));
                lemma_names_within_push(prev, fs@.last(), |n: Seq<char>| n == "modelType"@);
                lemma_lookup_push(prev, fs@.last(), "modelType"@);
            }
        }
        let ghost prev = fs@;
        let mut part = self.referable.encode_members();
        let ghost sp = part@;
        fs.append(&mut part);
        proof {
            lemma_names_within_concat(prev, sp, |n: Seq<char>| n == "modelType"@, |n: Seq<char>| referable_name(n), |n: Seq<char>| n == "modelType"@ || referable_name(n));
            lemma_lookup_concat(prev, sp, "modelType"@);
            lemma_lookup_outside(sp, |n: Seq<char>| referable_name(n), "modelType"@);
            lemma_lookup_concat(prev, sp, "idShort"@);
            lemma_lookup_outside(prev, |n: Seq<char>| n == "modelType"@, "idShort"@);
            lemma_lookup_concat(prev, sp, "displayName"@);
            lemma_lookup_outside(prev, |n: Seq<char>| n == "modelType"@, "displayName"@);
            lemma_lookup_concat(prev, sp, "description"@);
            lemma_lookup_outside(prev, |n: Seq<char>| n == "modelType"@, "description"@);
            lemma_lookup_concat(prev, sp, "category"@);
            lemma_lookup_outside(prev, |n: Seq<char>| n == "modelType"@, "category"@);
            lemma_lookup_concat(prev, sp, "extensions"@);
            lemma_lookup_outside(prev, |n: Seq<char>| n == "modelType"@, "extensions"@);
        }
        let ghost prev = fs@;
        let mut part = self.semantics.encode_members();
        let ghost sp = part@;
        fs.append(&mut part);
        proof {
            lemma_names_within_concat(prev, sp, |n: Seq<char>| n == "modelType"@ || referable_name(n), |n: Seq<char>| has_semantics_name(n), |n: Seq<char>| n == "modelType"@ || referable_name(n) || has_semantics_name(n));
            lemma_lookup_concat(prev, sp, "modelType"@);
            lemma_lookup_outside(sp, |n: Seq<char>| has_semantics_name(n), "modelType"@);
            lemma_lookup_concat(prev, sp, "idShort"@);
            lemma_lookup_outside(sp, |n: Seq<char>| has_semantics_name(n), "idShort"@);
            lemma_lookup_concat(prev, sp, "displayName"@);
            lemma_lookup_outside(sp, |n: Seq<char>| has_semantics_name(n), "displayName"@);
            lemma_lookup_concat(prev, sp, "description"@);
            lemma_lookup_outside(sp, |n: Seq<char>| has_semantics_name(n), "description"@);
            lemma_lookup_concat(prev, sp, "category"@);
            lemma_lookup_outside(sp, |n: Seq<char>| has_semantics_name(n), "category"@);
            lemma_lookup_concat(prev, sp, "extensions"@);
            lemma_lookup_outside(sp, |n: Seq<char>| has_semantics_name(n), "extensions"@);
            lemma_lookup_concat(prev, sp, "semanticId"@);
            lemma_lookup_outside(prev, |n: Seq<char>| n == "modelType"@ || referable_name(n), "semanticId"@);
            lemma_lookup_concat(prev, sp, "supplementalSemanticIds"@);
            lemma_lookup_outside(prev, |n: Seq<char>| n == "modelType"@ || referable_name(n), "supplementalSemanticIds"@);
        }
        let ghost prev = fs@;
        let mut part = self.qualifiable.encode_members();
        let ghost sp = part@;
        fs.append(&mut part);
        proof {
            lemma_names_within_concat(prev, sp, |n: Seq<char>| n == "modelType"@ || referable_name(n) || has_semantics_name(n), |n: Seq<char>| qualifiable_name(n), |n: Seq<char>| n == "modelType"@ || referable_name(n) || has_semantics_name(n) || qualifiable_name(n));
            lemma_lookup_concat(prev, sp, "modelType"@);
            lemma_lookup_outside(sp, |n: Seq<char>| qualifiable_name(n), "modelType"@);
            lemma_lookup_concat(prev, sp, "idShort"@);
            lemma_lookup_outside(sp, |n: Seq<char>| qualifiable_name(n), "idShort"@);
            lemma_lookup_concat(prev, sp, "displayName"@);
            lemma_lookup_outside(sp, |n: Seq<char>| qualifiable_name(n), "displayName"@);
            lemma_lookup_concat(prev, sp, "description"@);
            lemma_lookup_outside(sp, |n: Seq<char>| qualifiable_name(n), "description"@);
            lemma_lookup_concat(prev, sp, "category"@);
            lemma_lookup_outside(sp, |n: Seq<char>| qualifiable_name(n), "category"@);
            lemma_lookup_concat(prev, sp, "extensions"@);
            lemma_lookup_outside(sp, |n: Seq<char>| qualifiable_name(n), "extensions"@);
            lemma_lookup_concat(prev, sp, "semanticId"@);
            lemma_lookup_outside(sp, |n: Seq<char>| qualifiable_name(n), "semanticId"@);
            lemma_lookup_concat(prev, sp, "supplementalSemanticIds"@);
            lemma_lookup_outside(sp, |n: Seq<char>| qualifiable_name(n), "supplementalSemanticIds"@);
            lemma_lookup_concat(prev, sp, "qualifiers"@);
            lemma_lookup_outside(prev, |n: Seq<char>| n == "modelType"@ || referable_name(n) || has_semantics_name(n), "qualifiers"@);
        }
        let ghost prev = fs@;
        let mut part = self.embedded_data_specifications.encode_members();
        let ghost sp = part@;
        fs.append(&mut part);
        proof {
            lemma_names_within_concat(prev, sp, |n: Seq<char>| n == "modelType"@ || referable_name(n) || has_semantics_name(n) || qualifiable_name(n), |n: Seq<char>| has_data_specification_name(n), |n: Seq<char>| capability_name(n));
            lemma_lookup_concat(prev, sp, "modelType"@);
            lemma_lookup_outside(sp, |n: Seq<char>| has_data_specification_name(n), "modelType"@);
            lemma_lookup_concat(prev, sp, "idShort"@);
            lemma_lookup_outside(sp, |n: Seq<char>| has_data_specification_name(n), "idShort"@);
            lemma_lookup_concat(prev, sp, "displayName"@);
            lemma_lookup_outside(sp, |n: Seq<char>| has_data_specification_name(n), "displayName"@);
            lemma_lookup_concat(prev, sp, "description"@);
            lemma_lookup_outside(sp, |n: Seq<char>| has_data_specification_name(n), "description"@);
            lemma_lookup_concat(prev, sp, "category"@);
            lemma_lookup_outside(sp, |n: Seq<char>| has_data_specification_name(n), "category"@);
            lemma_lookup_concat(prev, sp, "extensions"@);
            lemma_lookup_outside(sp, |n: Seq<char>| has_data_specification_name(n), "extensions"@);
            lemma_lookup_concat(prev, sp, "semanticId"@);
            lemma_lookup_outside(sp, |n: Seq<char>| has_data_specification_name(n), "semanticId"@);
            lemma_lookup_concat(prev, sp, "supplementalSemanticIds"@);
            lemma_lookup_outside(sp, |n: Seq<char>| has_data_specification_name(n), "supplementalSemanticIds"@);
            lemma_lookup_concat(prev, sp, "qualifiers"@);
            lemma_lookup_outside(sp, |n: Seq<char>| has_data_specification_name(n), "qualifiers"@);
            lemma_lookup_concat(prev, sp, "embeddedDataSpecifications"@);
            lemma_lookup_outside(prev, |n: Seq<char>| n == "modelType"@ || referable_name(n) || has_semantics_name(n) || qualifiable_name(n), "embeddedDataSpecifications"@);
        }
        fs
    }

    /// Reads the members of the value from `fs`.
    pub fn decode_members(fs: &Vec<(String, Json)>) -> (r: Result<Capability, DecodeError>)
        ensures
            match capability_error(fs@) {
                Some(e) => r == Err::<Capability, DecodeError>(e),
                None => r matches Ok(x) && capability_rel(x, fs@),
            },
    {
        match get_member(fs, "modelType") {
            None => return Err(DecodeError::MissingField),
            Some(Json::Str(t)) => if !str_eq(t.as_str(), "Capability") {
                return Err(DecodeError::UnknownDiscriminator);
            },
            Some(_) => return Err(DecodeError::UnexpectedKind),
        }
        let referable = match Referable::decode_members(fs) {
            Ok(v) => v,
            Err(e) => return Err(e),
        };
        let semantics = match HasSemantics::decode_members(fs) {
            Ok(v) => v,
            Err(e) => return Err(e),
        };
        let qualifiable = match Qualifiable::decode_members(fs) {
            Ok(v) => v,
            Err(e) => return Err(e),
        };
        let embedded_data_specifications = match HasDataSpecification::decode_members(fs) {
            Ok(v) => v,
            Err(e) => return Err(e),
        };
        Ok(Capability { referable, semantics, qualifiable, embedded_data_specifications })
    }
}

/// Members found as encoding writes them decode to a value, whatever
/// other members stand beside them.
pub proof fn lemma_capability_round_trip(x: Capability, fs: Seq<(String, Json)>)
    requires
        capability_wf(x),
        capability_lookups(x, fs),
    ensures
        capability_error(fs) is None,
        capability_rel(x, fs),
{
    lemma_referable_round_trip(x.referable, fs);
    lemma_has_semantics_round_trip(x.semantics, fs);
    lemma_qualifiable_round_trip(x.qualifiable, fs);
    lemma_has_data_specification_round_trip(x.embedded_data_specifications, fs);
}

/// The values that the same members decode to hold the same content.
pub proof fn lemma_capability_unique(x: Capability, y: Capability, fs: Seq<(String, Json)>)
    requires
        capability_rel(x, fs),
        capability_rel(y, fs),
    ensures
        capability_equiv(x, y),
{
    lemma_referable_unique(x.referable, y.referable, fs);
    lemma_has_semantics_unique(x.semantics, y.semantics, fs);
    lemma_qualifiable_unique(x.qualifiable, y.qualifiable, fs);
    lemma_has_data_specification_unique(x.embedded_data_specifications, y.embedded_data_specifications, fs);
}

impl JsonCodec for Capability {
    open spec fn wf(&self) -> bool {
        capability_wf(*self)
    }

    open spec fn encoded(&self, j: Json) -> bool {
        j matches Json::Object(fs) && capability_encoded(*self, fs@)
    }

    open spec fn rel(&self, j: Json) -> bool {
        j matches Json::Object(fs) && capability_rel(*self, fs@)
    }

    open spec fn decode_error(j: Json) -> Option<DecodeError> {
        match j {
            Json::Object(fs) => capability_error(fs@),
            _ => Some(DecodeError::UnexpectedKind),
        }
    }

    open spec fn equiv(&self, o: &Self) -> bool {
        capability_equiv(*self, *o)
    }

    fn encode(&self) -> (r: Json) {
        Json::Object(self.encode_members())
    }

    fn decode(j: &Json) -> (r: Result<Self, DecodeError>) {
        match j {
            Json::Object(fs) => Capability::decode_members(fs),
            _ => Err(DecodeError::UnexpectedKind),
        }
    }

    proof fn lemma_round_trip(&self, j: Json) {
        lemma_capability_round_trip(*self, j->Object_0@);
    }

    proof fn lemma_unique(&self, o: &Self, j: Json) {
        lemma_capability_unique(*self, *o, j->Object_0@);
    }
}

/// An element holding a reference to another element, inside or outside the model.
#[derive(Clone, Debug, PartialEq)]
pub struct ReferenceElement {
    pub value: Option<Reference>,
}

/// A name of the members of `ReferenceElement`.
pub open spec fn reference_element_name(n: Seq<char>) -> bool {
    n == "modelType"@ || n == "value"@
}

/// Looking up the members of `ReferenceElement` in `fs` finds what encoding writes for `x`.
pub open spec fn reference_element_lookups(x: ReferenceElement, fs: Seq<(String, Json)>) -> bool {
    &&& lookup(fs, "modelType"@) matches Some(Json::Str(t)) && t@ == "ReferenceElement"@
    &&& opt_encoded(x.value, lookup(fs, "value"@))
}

/// `fs` are the members that encoding writes for `x`.
pub open spec fn reference_element_encoded(x: ReferenceElement, fs: Seq<(String, Json)>) -> bool {
    &&& names_within(fs, |n: Seq<char>| reference_element_name(n))
    &&& reference_element_lookups(x, fs)
}

/// The members of `fs` decode to `x`.
pub open spec fn reference_element_rel(x: ReferenceElement, fs: Seq<(String, Json)>) -> bool {
    &&& member(fs, "modelType"@) matches Some(Json::Str(t)) && t@ == "ReferenceElement"@
    &&& opt_rel(x.value, member(fs, "value"@))
}

/// The error, if any, of decoding the members of `ReferenceElement` from `fs`.
pub open spec fn reference_element_error(fs: Seq<(String, Json)>) -> Option<DecodeError> {
    match member(fs, "modelType"@) {
        None => Some(DecodeError::MissingField),
        Some(Json::Str(t)) => if t@ == "ReferenceElement"@ {
            match opt_error::<Reference>(member(fs, "value"@)) {
                Some(e) => Some(e),
                None => {
                    None
                },
            }
        } else {
            Some(DecodeError::UnknownDiscriminator)
        },
        Some(_) => Some(DecodeError::UnexpectedKind),
    }
}

/// The values of `x` are well-formed.
pub open spec fn reference_element_wf(x: ReferenceElement) -> bool {
    &&& opt_wf(x.value)
}

/// `x` and `y` hold the same content.
pub open spec fn reference_element_equiv(x: ReferenceElement, y: ReferenceElement) -> bool {
    &&& opt_equiv(x.value, y.value)
}

impl ReferenceElement {
    /// Writes the members of the value, absent ones left out.
    pub fn encode_members(&self) -> (r: Vec<(String, Json)>)
        ensures
            reference_element_encoded(*self, r@),
    {
        proof {
            reveal_strlit("modelType");
            reveal_strlit("value");
            assert("modelType"@.len() == 9 && "value"@.len() == 5);
            assert("value"@.len() == 5 && "modelType"@.len() == 9);
        }
        let mut fs: Vec<(String, Json)> = Vec::new();
        let ghost prev = fs@;
        fs.push(field("modelType", Json::Str("ReferenceElement".to_string())));
        proof {
            lemma_names_within_empty(prev, |n: Seq<char>| n == "modelType"@);
            if true {
                assert(fs@ == prev.push(fs@.last()));
                lemma_names_within_push(prev, fs@.last(), |n: Seq<char>| n == "modelType"@);
                lemma_lookup_push(prev, fs@.last(), "modelType"@);
            }
        }
        let ghost prev = fs@;
        push_opt(&mut fs, "value", &self.value);
        proof {
            lemma_names_within_weaken(prev, |n: Seq<char>| n == "modelType"@, |n: Seq<char>| reference_element_name(n));
            lemma_lookup_outside(prev, |n: Seq<char>| n == "modelType"@, "value"@);
            if self.value is Some {
                assert(fs@ == prev.push(fs@.last()));
                lemma_names_within_push(prev, fs@.last(), |n: Seq<char>| reference_element_name(n));
                lemma_lookup_push(prev, fs@.last(), "modelType"@);
                lemma_lookup_push(prev, fs@.last(), "value"@);
            }
        }
        fs
    }

    /// Reads the members of the value from `fs`.
    pub fn decode_members(fs: &Vec<(String, Json)>) -> (r: Result<ReferenceElement, DecodeError>)
        ensures
            match reference_element_error(fs@) {
                Some(e) => r == Err::<ReferenceElement, DecodeError>(e),
                None => r matches Ok(x) && reference_element_rel(x, fs@),
            },
    {
        match get_member(fs, "modelType") {
            None => return Err(DecodeError::MissingField),
            Some(Json::Str(t)) => if !str_eq(t.as_str(), "ReferenceElement") {
                return Err(DecodeError::UnknownDiscriminator);
            },
            Some(_) => return Err(DecodeError::UnexpectedKind),
        }
        let value = match decode_opt::<Reference>(fs, "value") {
            Ok(v) => v,
            Err(e) => return Err(e),
        };
        Ok(ReferenceElement { value })
    }
}

/// Members found as encoding writes them decode to a value, whatever
/// other members stand beside them.
pub proof fn lemma_reference_element_round_trip(x: ReferenceElement, fs: Seq<(String, Json)>)
    requires
        reference_element_wf(x),
        reference_element_lookups(x, fs),
    ensures
        reference_element_error(fs) is None,
        reference_element_rel(x, fs),
{
    lemma_opt_round_trip(x.value, lookup(fs, "value"@));
}

/// The values that the same members decode to hold the same content.
pub proof fn lemma_reference_element_unique(x: ReferenceElement, y: ReferenceElement, fs: Seq<(String, Json)>)
    requires
        reference_element_rel(x, fs),
        reference_element_rel(y, fs),
    ensures
        reference_element_equiv(x, y),
{
    lemma_opt_unique(x.value, y.value, member(fs, "value"@));
}

impl JsonCodec for ReferenceElement {
    open spec fn wf(&self) -> bool {
        reference_element_wf(*self)
    }

    open spec fn encoded(&self, j: Json) -> bool {
        j matches Json::Object(fs) && reference_element_encoded(*self, fs@)
    }

    open spec fn rel(&self, j: Json) -> bool {
        j matches Json::Object(fs) && reference_element_rel(*self, fs@)
    }

    open spec fn decode_error(j: Json) -> Option<DecodeError> {
        match j {
            Json::Object(fs) => reference_element_error(fs@),
            _ => Some(DecodeError::UnexpectedKind),
        }
    }

    open spec fn equiv(&self, o: &Self) -> bool {
        reference_element_equiv(*self, *o)
    }

    fn encode(&self) -> (r: Json) {
        Json::Object(self.encode_members())
    }

    fn decode(j: &Json) -> (r: Result<Self, DecodeError>) {
        match j {
            Json::Object(fs) => ReferenceElement::decode_members(fs),
            _ => Err(DecodeError::UnexpectedKind),
        }
    }

    proof fn lemma_round_trip(&self, j: Json) {
        lemma_reference_element_round_trip(*self, j->Object_0@);
    }

    proof fn lemma_unique(&self, o: &Self, j: Json) {
        lemma_reference_element_unique(*self, *o, j->Object_0@);
    }
}

/// An element relating two other elements.
#[derive(Clone, Debug, PartialEq)]
pub struct RelationshipElement {
    pub submodel_element_fields: SubmodelElementFields,
    pub first: Option<Reference>,
    pub second: Option<Reference>,
}

/// A name of the members of `RelationshipElement`.
pub open spec fn relationship_element_name(n: Seq<char>) -> bool {
    n == "modelType"@ || submodel_element_fields_name(n) || n == "first"@ || n == "second"@
}

/// Looking up the members of `RelationshipElement` in `fs` finds what encoding writes for `x`.
pub open spec fn relationship_element_lookups(x: RelationshipElement, fs: Seq<(String, Json)>) -> bool {
    &&& lookup(fs, "modelType"@) matches Some(Json::Str(t)) && t@ == "RelationshipElement"@
    &&& submodel_element_fields_lookups(x.submodel_element_fields, fs)
    &&& opt_encoded(x.first, lookup(fs, "first"@))
    &&& opt_encoded(x.second, lookup(fs, "second"@))
}

/// `fs` are the members that encoding writes for `x`.
pub open spec fn relationship_element_encoded(x: RelationshipElement, fs: Seq<(String, Json)>) -> bool {
    &&& names_within(fs, |n: Seq<char>| relationship_element_name(n))
    &&& relationship_element_lookups(x, fs)
}

/// The members of `fs` decode to `x`.
pub open spec fn relationship_element_rel(x: RelationshipElement, fs: Seq<(String, Json)>) -> bool {
    &&& member(fs, "modelType"@) matches Some(Json::Str(t)) && t@ == "RelationshipElement"@
    &&& submodel_element_fields_rel(x.submodel_element_fields, fs)
    &&& opt_rel(x.first, member(fs, "first"@))
    &&& opt_rel(x.second, member(fs, "second"@))
}

/// The error, if any, of decoding the members of `RelationshipElement` from `fs`.
pub open spec fn relationship_element_error(fs: Seq<(String, Json)>) -> Option<DecodeError> {
    match member(fs, "modelType"@) {
        None => Some(DecodeError::MissingField),
        Some(Json::Str(t)) => if t@ == "RelationshipElement"@ {
            match submodel_element_fields_error(fs) {
                Some(e) => Some(e),
                None => {
                    match opt_error::<Reference>(member(fs, "first"@)) {
                        Some(e) => Some(e),
                        None => {
                            match opt_error::<Reference>(member(fs, "second"@)) {
                                Some(e) => Some(e),
                                None => {
                                    None
                                },
                            }
                        },
                    }
                },
            }
        } else {
            Some(DecodeError::UnknownDiscriminator)
        },
        Some(_) => Some(DecodeError::UnexpectedKind),
    }
}

/// The values of `x` are well-formed.
pub open spec fn relationship_element_wf(x: RelationshipElement) -> bool {
    &&& submodel_element_fields_wf(x.submodel_element_fields)
    &&& opt_wf(x.first)
    &&& opt_wf(x.second)
}

/// `x` and `y` hold the same content.
pub open spec fn relationship_element_equiv(x: RelationshipElement, y: RelationshipElement) -> bool {
    &&& submodel_element_fields_equiv(x.submodel_element_fields, y.submodel_element_fields)
    &&& opt_equiv(x.first, y.first)
    &&& opt_equiv(x.second, y.second)
}

impl RelationshipElement {
    /// Writes the members of the value, absent ones left out.
    pub fn encode_members(&self) -> (r: Vec<(String, Json)>)
        ensures
            relationship_element_encoded(*self, r@),
    {
        proof {
            reveal_strlit("modelType");
            reveal_strlit("idShort");
            reveal_strlit("displayName");
            reveal_strlit("description");
            reveal_strlit("category");
            reveal_strlit("extensions");
            reveal_strlit("semanticId");
            reveal_strlit("supplementalSemanticIds");
            reveal_strlit("qualifiers");
            reveal_strlit("embeddedDataSpecifications");
            reveal_strlit("first");
            reveal_strlit("second");
            assert("modelType"@.len() == 9 && "idShort"@.len() == 7);
            assert("modelType"@.len() == 9 && "displayName"@.len() == 11);
            assert("modelType"@.len() == 9 && "description"@.len() == 11);
            assert("modelType"@.len() == 9 && "category"@.len() == 8);
            assert("modelType"@.len() == 9 && "extensions"@.len() == 10);
            assert("modelType"@.len() == 9 && "semanticId"@.len() == 10);
            assert("modelType"@.len() == 9 && "supplementalSemanticIds"@.len() == 23);
            assert("modelType"@.len() == 9 && "qualifiers"@.len() == 10);
            assert("modelType"@.len() == 9 && "embeddedDataSpecifications"@.len() == 26);
            assert("modelType"@.len() == 9 && "first"@.len() == 5);
            assert("modelType"@.len() == 9 && "second"@.len() == 6);
            assert("idShort"@.len() == 7 && "modelType"@.len() == 9);
            assert("idShort"@.len() == 7 && "displayName"@.len() == 11);
            assert("idShort"@.len() == 7 && "description"@.len() == 11);
            assert("idShort"@.len() == 7 && "category"@.len() == 8);
            assert("idShort"@.len() == 7 && "extensions"@.len() == 10);
            assert("idShort"@.len() == 7 && "semanticId"@.len() == 10);
            assert("idShort"@.len() == 7 && "supplementalSemanticIds"@.len() == 23);
            assert("idShort"@.len() == 7 && "qualifiers"@.len() == 10);
            assert("idShort"@.len() == 7 && "embeddedDataSpecifications"@.len() == 26);
            assert("idShort"@.len() == 7 && "first"@.len() == 5);
            assert("idShort"@.len() == 7 && "second"@.len() == 6);
            assert("displayName"@.len() == 11 && "modelType"@.len() == 9);
            assert("displayName"@.len() == 11 && "idShort"@.len() == 7);
            assert("displayName"@[1] != "description"@[1]);
            assert("displayName"@.len() == 11 && "category"@.len() == 8);
            assert("displayName"@.len() == 11 && "extensions"@.len() == 10);
            assert("displayName"@.len() == 11 && "semanticId"@.len() == 10);
            assert("displayName"@.len() == 11 && "supplementalSemanticIds"@.len() == 23);
            assert("displayName"@.len() == 11 && "qualifiers"@.len() == 10);
            assert("displayName"@.len() == 11 && "embeddedDataSpecifications"@.len() == 26);
            assert("displayName"@.len() == 11 && "first"@.len() == 5);
            assert("displayName"@.len() == 11 && "second"@.len() == 6);
            assert("description"@.len() == 11 && "modelType"@.len() == 9);
            assert("description"@.len() == 11 && "idShort"@.len() == 7);
            assert("description"@[1] != "displayName"@[1]);
            assert("description"@.len() == 11 && "category"@.len() == 8);
            assert("description"@.len() == 11 && "extensions"@.len() == 10);
            assert("description"@.len() == 11 && "semanticId"@.len() == 10);
            assert("description"@.len() == 11 && "supplementalSemanticIds"@.len() == 23);
            assert("description"@.len() == 11 && "qualifiers"@.len() == 10);
            assert("description"@.len() == 11 && "embeddedDataSpecifications"@.len() == 26);
            assert("description"@.len() == 11 && "first"@.len() == 5);
            assert("description"@.len() == 11 && "second"@.len() == 6);
            assert("category"@.len() == 8 && "modelType"@.len() == 9);
            assert("category"@.len() == 8 && "idShort"@.len() == 7);
            assert("category"@.len() == 8 && "displayName"@.len() == 11);
            assert("category"@.len() == 8 && "description"@.len() == 11);
            assert("category"@.len() == 8 && "extensions"@.len() == 10);
            assert("category"@.len() == 8 && "semanticId"@.len() == 10);
            assert("category"@.len() == 8 && "supplementalSemanticIds"@.len() == 23);
            assert("category"@.len() == 8 && "qualifiers"@.len() == 10);
            assert("category"@.len() == 8 && "embeddedDataSpecifications"@.len() == 26);
            assert("category"@.len() == 8 && "first"@.len() == 5);
            assert("category"@.len() == 8 && "second"@.len() == 6);
            assert("extensions"@.len() == 10 && "modelType"@.len() == 9);
            assert("extensions"@.len() == 10 && "idShort"@.len() == 7);
            assert("extensions"@.len() == 10 && "displayName"@.len() == 11);
            assert("extensions"@.len() == 10 && "description"@.len() == 11);
            assert("extensions"@.len() == 10 && "category"@.len() == 8);
            assert("extensions"@[0] != "semanticId"@[0]);
            assert("extensions"@.len() == 10 && "supplementalSemanticIds"@.len() == 23);
            assert("extensions"@[0] != "qualifiers"@[0]);
            assert("extensions"@.len() == 10 && "embeddedDataSpecifications"@.len() == 26);
            assert("extensions"@.len() == 10 && "first"@.len() == 5);
            assert("extensions"@.len() == 10 && "second"@.len() == 6);
            assert("semanticId"@.len() == 10 && "modelType"@.len() == 9);
            assert("semanticId"@.len() == 10 && "idShort"@.len() == 7);
            assert("semanticId"@.len() == 10 && "displayName"@.len() == 11);
            assert("semanticId"@.len() == 10 && "description"@.len() == 11);
            assert("semanticId"@.len() == 10 && "category"@.len() == 8);
            assert("semanticId"@[0] != "extensions"@[0]);
            assert("semanticId"@.len() == 10 && "supplementalSemanticIds"@.len() == 23);
            assert("semanticId"@[0] != "qualifiers"@[0]);
            assert("semanticId"@.len() == 10 && "embeddedDataSpecifications"@.len() == 26);
            assert("semanticId"@.len() == 10 && "first"@.len() == 5);
            assert("semanticId"@.len() == 10 && "second"@.len() == 6);
            assert("supplementalSemanticIds"@.len() == 23 && "modelType"@.len() == 9);
            assert("supplementalSemanticIds"@.len() == 23 && "idShort"@.len() == 7);
            assert("supplementalSemanticIds"@.len() == 23 && "displayName"@.len() == 11);
            assert("supplementalSemanticIds"@.len() == 23 && "description"@.len() == 11);
            assert("supplementalSemanticIds"@.len() == 23 && "category"@.len() == 8);
            assert("supplementalSemanticIds"@.len() == 23 && "extensions"@.len() == 10);
            assert("supplementalSemanticIds"@.len() == 23 && "semanticId"@.len() == 10);
            assert("supplementalSemanticIds"@.len() == 23 && "qualifiers"@.len() == 10);
            assert("supplementalSemanticIds"@.len() == 23 && "embeddedDataSpecifications"@.len() == 26);
            assert("supplementalSemanticIds"@.len() == 23 && "first"@.len() == 5);
            assert("supplementalSemanticIds"@.len() == 23 && "second"@.len() == 6);
            assert("qualifiers"@.len() == 10 && "modelType"@.len() == 9);
            assert("qualifiers"@.len() == 10 && "idShort"@.len() == 7);
            assert("qualifiers"@.len() == 10 && "displayName"@.len() == 11);
            assert("qualifiers"@.len() == 10 && "description"@.len() == 11);
            assert("qualifiers"@.len() == 10 && "category"@.len() == 8);
            assert("qualifiers"@[0] != "extensions"@[0]);
            assert("qualifiers"@[0] != "semanticId"@[0]);
            assert("qualifiers"@.len() == 10 && "supplementalSemanticIds"@.len() == 23);
            assert("qualifiers"@.len() == 10 && "embeddedDataSpecifications"@.len() == 26);
            assert("qualifiers"@.len() == 10 && "first"@.len() == 5);
            assert("qualifiers"@.len() == 10 && "second"@.len() == 6);
            assert("embeddedDataSpecifications"@.len() == 26 && "modelType"@.len() == 9);
            assert("embeddedDataSpecifications"@.len() == 26 && "idShort"@.len() == 7);
            assert("embeddedDataSpecifications"@.len() == 26 && "displayName"@.len() == 11);
            assert("embeddedDataSpecifications"@.len() == 26 && "description"@.len() == 11);
            assert("embeddedDataSpecifications"@.len() == 26 && "category"@.len() == 8);
            assert("embeddedDataSpecifications"@.len() == 26 && "extensions"@.len() == 10);
            assert("embeddedDataSpecifications"@.len() == 26 && "semanticId"@.len() == 10);
            assert("embeddedDataSpecifications"@.len() == 26 && "supplementalSemanticIds"@.len() == 23);
            assert("embeddedDataSpecifications"@.len() == 26 && "qualifiers"@.len() == 10);
            assert("embeddedDataSpecifications"@.len() == 26 && "first"@.len() == 5);
            assert("embeddedDataSpecifications"@.len() == 26 && "second"@.len() == 6);
            assert("first"@.len() == 5 && "modelType"@.len() == 9);
            assert("first"@.len() == 5 && "idShort"@.len() == 7);
            assert("first"@.len() == 5 && "displayName"@.len() == 11);
            assert("first"@.len() == 5 && "description"@.len() == 11);
            assert("first"@.len() == 5 && "category"@.len() == 8);
            assert("first"@.len() == 5 && "extensions"@.len() == 10);
            assert("first"@.len() == 5 && "semanticId"@.len() == 10);
            assert("first"@.len() == 5 && "supplementalSemanticIds"@.len() == 23);
            assert("first"@.len() == 5 && "qualifiers"@.len() == 10);
            assert("first"@.len() == 5 && "embeddedDataSpecifications"@.len() == 26);
            assert("first"@.len() == 5 && "second"@.len() == 6);
            assert("second"@.len() == 6 && "modelType"@.len() == 9);
            assert("second"@.len() == 6 && "idShort"@.len() == 7);
            assert("second"@.len() == 6 && "displayName"@.len() == 11);
            assert("second"@.len() == 6 && "description"@.len() == 11);
            assert("second"@.len() == 6 && "category"@.len() == 8);
            assert("second"@.len() == 6 && "extensions"@.len() == 10);
            assert("second"@.len() == 6 && "semanticId"@.len() == 10);
            assert("second"@.len() == 6 && "supplementalSemanticIds"@.len() == 23);
            assert("second"@.len() == 6 && "qualifiers"@.len() == 10);
            assert("second"@.len() == 6 && "embeddedDataSpecifications"@.len() == 26);
            assert("second"@.len() == 6 && "first"@.len() == 5);
        }
        let mut fs: Vec<(String, Json)> = Vec::new();
        let ghost prev = fs@;
        fs.push(field("modelType", Json::Str("RelationshipElement".to_string())));
        proof {
            lemma_names_within_empty(prev, |n: Seq<char>| n == "modelType"@);
            if true {
                assert(fs@ == prev.push(fs@.last()));
                lemma_names_within_push(prev, fs@.last(), |n: Seq<char>| n == "modelType"@);
                lemma_lookup_push(prev, fs@.last(), "modelType"@);
            }
        }
        let ghost prev = fs@;
        let mut part = self.submodel_element_fields.encode_members();
        let ghost sp = part@;
        fs.append(&mut part);
        proof {
            lemma_names_within_concat(prev, sp, |n: Seq<char>| n == "modelType"@, |n: Seq<char>| submodel_element_fields_name(n), |n: Seq<char>| n == "modelType"@ || submodel_element_fields_name(n));
            lemma_lookup_concat(prev, sp, "modelType"@);
            lemma_lookup_outside(sp, |n: Seq<char>| submodel_element_fields_name(n), "modelType"@);
            lemma_lookup_concat(prev, sp, "idShort"@);
            lemma_lookup_outside(prev, |n: Seq<char>| n == "modelType"@, "idShort"@);
            lemma_lookup_concat(prev, sp, "displayName"@);
            lemma_lookup_outside(prev, |n: Seq<char>| n == "modelType"@, "displayName"@);
            lemma_lookup_concat(prev, sp, "description"@);
            lemma_lookup_outside(prev, |n: Seq<char>| n == "modelType"@, "description"@);
            lemma_lookup_concat(prev, sp, "category"@);
            lemma_lookup_outside(prev, |n: Seq<char>| n == "modelType"@, "category"@);
            lemma_lookup_concat(prev, sp, "extensions"@);
            lemma_lookup_outside(prev, |n: Seq<char>| n == "modelType"@, "extensions"@);
            lemma_lookup_concat(prev, sp, "semanticId"@);
            lemma_lookup_outside(prev, |n: Seq<char>| n == "modelType"@, "semanticId"@);
            lemma_lookup_concat(prev, sp, "supplementalSemanticIds"@);
            lemma_lookup_outside(prev, |n: Seq<char>| n == "modelType"@, "supplementalSemanticIds"@);
            lemma_lookup_concat(prev, sp, "qualifiers"@);
            lemma_lookup_outside(prev, |n: Seq<char>| n == "modelType"@, "qualifiers"@);
            lemma_lookup_concat(prev, sp, "embeddedDataSpecifications"@);
            lemma_lookup_outside(prev, |n: Seq<char>| n == "modelType"@, "embeddedDataSpecifications"@);
        }
        let ghost prev = fs@;
        push_opt(&mut fs, "first", &self.first);
        proof {
            lemma_names_within_weaken(prev, |n: Seq<char>| n == "modelType"@ || submodel_element_fields_name(n), |n: Seq<char>| n == "modelType"@ || submodel_element_fields_name(n) || n == "first"@);
            lemma_lookup_outside(prev, |n: Seq<char>| n == "modelType"@ || submodel_element_fields_name(n), "first"@);
            if self.first is Some {
                assert(fs@ == prev.push(fs@.last()));
                lemma_names_within_push(prev, fs@.last(), |n: Seq<char>| n == "modelType"@ || submodel_element_fields_name(n) || n == "first"@);
                lemma_lookup_push(prev, fs@.last(), "modelType"@);
                lemma_lookup_push(prev, fs@.last(), "idShort"@);
                lemma_lookup_push(prev, fs@.last(), "displayName"@);
                lemma_lookup_push(prev, fs@.last(), "description"@);
                lemma_lookup_push(prev, fs@.last(), "category"@);
                lemma_lookup_push(prev, fs@.last(), "extensions"@);
                lemma_lookup_push(prev, fs@.last(), "semanticId"@);
                lemma_lookup_push(prev, fs@.last(), "supplementalSemanticIds"@);
                lemma_lookup_push(prev, fs@.last(), "qualifiers"@);
                lemma_lookup_push(prev, fs@.last(), "embeddedDataSpecifications"@);
                lemma_lookup_push(prev, fs@.last(), "first"@);
            }
        }
        let ghost prev = fs@;
        push_opt(&mut fs, "second", &self.second);
        proof {
            lemma_names_within_weaken(prev, |n: Seq<char>| n == "modelType"@ || submodel_element_fields_name(n) || n == "first"@, |n: Seq<char>| relationship_element_name(n));
            lemma_lookup_outside(prev, |n: Seq<char>| n == "modelType"@ || submodel_element_fields_name(n) || n == "first"@, "second"@);
            if self.second is Some {
                assert(fs@ == prev.push(fs@.last()));
                lemma_names_within_push(prev, fs@.last(), |n: Seq<char>| relationship_element_name(n));
                lemma_lookup_push(prev, fs@.last(), "modelType"@);
                lemma_lookup_push(prev, fs@.last(), "idShort"@);
                lemma_lookup_push(prev, fs@.last(), "displayName"@);
                lemma_lookup_push(prev, fs@.last(), "description"@);
                lemma_lookup_push(prev, fs@.last(), "category"@);
                lemma_lookup_push(prev, fs@.last(), "extensions"@);
                lemma_lookup_push(prev, fs@.last(), "semanticId"@);
                lemma_lookup_push(prev, fs@.last(), "supplementalSemanticIds"@);
                lemma_lookup_push(prev, fs@.last(), "qualifiers"@);
                lemma_lookup_push(prev, fs@.last(), "embeddedDataSpecifications"@);
                lemma_lookup_push(prev, fs@.last(), "first"@);
                lemma_lookup_push(prev, fs@.last(), "second"@);
            }
        }
        fs
    }

    /// Reads the members of the value from `fs`.
    pub fn decode_members(fs: &Vec<(String, Json)>) -> (r: Result<RelationshipElement, DecodeError>)
        ensures
            match relationship_element_error(fs@) {
                Some(e) => r == Err::<RelationshipElement, DecodeError>(e),
                None => r matches Ok(x) && relationship_element_rel(x, fs@),
            },
    {
        match get_member(fs, "modelType") {
            None => return Err(DecodeError::MissingField),
            Some(Json::Str(t)) => if !str_eq(t.as_str(), "RelationshipElement") {
                return Err(DecodeError::UnknownDiscriminator);
            },
            Some(_) => return Err(DecodeError::UnexpectedKind),
        }
        let submodel_element_fields = match SubmodelElementFields::decode_members(fs) {
            Ok(v) => v,
            Err(e) => return Err(e),
        };
        let first = match decode_opt::<Reference>(fs, "first") {
            Ok(v) => v,
            Err(e) => return Err(e),
        };
        let second = match decode_opt::<Reference>(fs, "second") {
            Ok(v) => v,
            Err(e) => return Err(e),
        };
        Ok(RelationshipElement { submodel_element_fields, first, second })
    }
}

/// Members found as encoding writes them decode to a value, whatever
/// other members stand beside them.
pub proof fn lemma_relationship_element_round_trip(x: RelationshipElement, fs: Seq<(String, Json)>)
    requires
        relationship_element_wf(x),
        relationship_element_lookups(x, fs),
    ensures
        relationship_element_error(fs) is None,
        relationship_element_rel(x, fs),
{
    lemma_submodel_element_fields_round_trip(x.submodel_element_fields, fs);
    lemma_opt_round_trip(x.first, lookup(fs, "first"@));
    lemma_opt_round_trip(x.second, lookup(fs, "second"@));
}

/// The values that the same members decode to hold the same content.
pub proof fn lemma_relationship_element_unique(x: RelationshipElement, y: RelationshipElement, fs: Seq<(String, Json)>)
    requires
        relationship_element_rel(x, fs),
        relationship_element_rel(y, fs),
    ensures
        relationship_element_equiv(x, y),
{
    lemma_submodel_element_fields_unique(x.submodel_element_fields, y.submodel_element_fields, fs);
    lemma_opt_unique(x.first, y.first, member(fs, "first"@));
    lemma_opt_unique(x.second, y.second, member(fs, "second"@));
}

impl JsonCodec for RelationshipElement {
    open spec fn wf(&self) -> bool {
        relationship_element_wf(*self)
    }

    open spec fn encoded(&self, j: Json) -> bool {
        j matches Json::Object(fs) && relationship_element_encoded(*self, fs@)
    }

    open spec fn rel(&self, j: Json) -> bool {
        j matches Json::Object(fs) && relationship_element_rel(*self, fs@)
    }

    open spec fn decode_error(j: Json) -> Option<DecodeError> {
        match j {
            Json::Object(fs) => relationship_element_error(fs@),
            _ => Some(DecodeError::UnexpectedKind),
        }
    }

    open spec fn equiv(&self, o: &Self) -> bool {
        relationship_element_equiv(*self, *o)
    }

    fn encode(&self) -> (r: Json) {
        Json::Object(self.encode_members())
    }

    fn decode(j: &Json) -> (r: Result<Self, DecodeError>) {
        match j {
            Json::Object(fs) => RelationshipElement::decode_members(fs),
            _ => Err(DecodeError::UnexpectedKind),
        }
    }

    proof fn lemma_round_trip(&self, j: Json) {
        lemma_relationship_element_round_trip(*self, j->Object_0@);
    }

    proof fn lemma_unique(&self, o: &Self, j: Json) {
        lemma_relationship_element_unique(*self, *o, j->Object_0@);
    }
}

/// The metamodel view of a relationship: its attributes without the related elements.
#[derive(Clone, Debug, PartialEq)]
pub struct RelationshipElementMeta {
    pub submodel_element_fields: SubmodelElementFields,
}

/// A name of the members of `RelationshipElementMeta`.
pub open spec fn relationship_element_meta_name(n: Seq<char>) -> bool {
    n == "modelType"@ || submodel_element_fields_name(n)
}

/// Looking up the members of `RelationshipElementMeta` in `fs` finds what encoding writes for `x`.
pub open spec fn relationship_element_meta_lookups(x: RelationshipElementMeta, fs: Seq<(String, Json)>) -> bool {
    &&& lookup(fs, "modelType"@) matches Some(Json::Str(t)) && t@ == "RelationshipElement"@
    &&& submodel_element_fields_lookups(x.submodel_element_fields, fs)
}

/// `fs` are the members that encoding writes for `x`.
pub open spec fn relationship_element_meta_encoded(x: RelationshipElementMeta, fs: Seq<(String, Json)>) -> bool {
    &&& names_within(fs, |n: Seq<char>| relationship_element_meta_name(n))
    &&& relationship_element_meta_lookups(x, fs)
}

/// The members of `fs` decode to `x`.
pub open spec fn relationship_element_meta_rel(x: RelationshipElementMeta, fs: Seq<(String, Json)>) -> bool {
    &&& member(fs, "modelType"@) matches Some(Json::Str(t)) && t@ == "RelationshipElement"@
    &&& submodel_element_fields_rel(x.submodel_element_fields, fs)
}

/// The error, if any, of decoding the members of `RelationshipElementMeta` from `fs`.
pub open spec fn relationship_element_meta_error(fs: Seq<(String, Json)>) -> Option<DecodeError> {
    match member(fs, "modelType"@) {
        None => Some(DecodeError::MissingField),
        Some(Json::Str(t)) => if t@ == "RelationshipElement"@ {
            match submodel_element_fields_error(fs) {
                Some(e) => Some(e),
                None => {
                    None
                },
            }
        } else {
            Some(DecodeError::UnknownDiscriminator)
        },
        Some(_) => Some(DecodeError::UnexpectedKind),
    }
}

/// The values of `x` are well-formed.
pub open spec fn relationship_element_meta_wf(x: RelationshipElementMeta) -> bool {
    &&& submodel_element_fields_wf(x.submodel_element_fields)
}

/// `x` and `y` hold the same content.
pub open spec fn relationship_element_meta_equiv(x: RelationshipElementMeta, y: RelationshipElementMeta) -> bool {
    &&& submodel_element_fields_equiv(x.submodel_element_fields, y.submodel_element_fields)
}

impl RelationshipElementMeta {
    /// Writes the members of the value, absent ones left out.
    pub fn encode_members(&self) -> (r: Vec<(String, Json)>)
        ensures
            relationship_element_meta_encoded(*self, r@),
    {
        proof {
            reveal_strlit("modelType");
            reveal_strlit("idShort");
            reveal_strlit("displayName");
            reveal_strlit("description");
            reveal_strlit("category");
            reveal_strlit("extensions");
            reveal_strlit("semanticId");
            reveal_strlit("supplementalSemanticIds");
            reveal_strlit("qualifiers");
            reveal_strlit("embeddedDataSpecifications");
            assert("modelType"@.len() == 9 && "idShort"@.len() == 7);
            assert("modelType"@.len() == 9 && "displayName"@.len() == 11);
            assert("modelType"@.len() == 9 && "description"@.len() == 11);
            assert("modelType"@.len() == 9 && "category"@.len() == 8);
            assert("modelType"@.len() == 9 && "extensions"@.len() == 10);
            assert("modelType"@.len() == 9 && "semanticId"@.len() == 10);
            assert("modelType"@.len() == 9 && "supplementalSemanticIds"@.len() == 23);
            assert("modelType"@.len() == 9 && "qualifiers"@.len() == 10);
            assert("modelType"@.len() == 9 && "embeddedDataSpecifications"@.len() == 26);
            assert("idShort"@.len() == 7 && "modelType"@.len() == 9);
            assert("idShort"@.len() == 7 && "displayName"@.len() == 11);
            assert("idShort"@.len() == 7 && "description"@.len() == 11);
            assert("idShort"@.len() == 7 && "category"@.len() == 8);
            assert("idShort"@.len() == 7 && "extensions"@.len() == 10);
            assert("idShort"@.len() == 7 && "semanticId"@.len() == 10);
            assert("idShort"@.len() == 7 && "supplementalSemanticIds"@.len() == 23);
            assert("idShort"@.len() == 7 && "qualifiers"@.len() == 10);
            assert("idShort"@.len() == 7 && "embeddedDataSpecifications"@.len() == 26);
            assert("displayName"@.len() == 11 && "modelType"@.len() == 9);
            assert("displayName"@.len() == 11 && "idShort"@.len() == 7);
            assert("displayName"@[1] != "description"@[1]);
            assert("displayName"@.len() == 11 && "category"@.len() == 8);
            assert("displayName"@.len() == 11 && "extensions"@.len() == 10);
            assert("displayName"@.len() == 11 && "semanticId"@.len() == 10);
            assert("displayName"@.len() == 11 && "supplementalSemanticIds"@.len() == 23);
            assert("displayName"@.len() == 11 && "qualifiers"@.len() == 10);
            assert("displayName"@.len() == 11 && "embeddedDataSpecifications"@.len() == 26);
            assert("description"@.len() == 11 && "modelType"@.len() == 9);
            assert("description"@.len() == 11 && "idShort"@.len() == 7);
            assert("description"@[1] != "displayName"@[1]);
            assert("description"@.len() == 11 && "category"@.len() == 8);
            assert("description"@.len() == 11 && "extensions"@.len() == 10);
            assert("description"@.len() == 11 && "semanticId"@.len() == 10);
            assert("description"@.len() == 11 && "supplementalSemanticIds"@.len() == 23);
            assert("description"@.len() == 11 && "qualifiers"@.len() == 10);
            assert("description"@.len() == 11 && "embeddedDataSpecifications"@.len() == 26);
            assert("category"@.len() == 8 && "modelType"@.len() == 9);
            assert("category"@.len() == 8 && "idShort"@.len() == 7);
            assert("category"@.len() == 8 && "displayName"@.len() == 11);
            assert("category"@.len() == 8 && "description"@.len() == 11);
            assert("category"@.len() == 8 && "extensions"@.len() == 10);
            assert("category"@.len() == 8 && "semanticId"@.len() == 10);
            assert("category"@.len() == 8 && "supplementalSemanticIds"@.len() == 23);
            assert("category"@.len() == 8 && "qualifiers"@.len() == 10);
            assert("category"@.len() == 8 && "embeddedDataSpecifications"@.len() == 26);
            assert("extensions"@.len() == 10 && "modelType"@.len() == 9);
            assert("extensions"@.len() == 10 && "idShort"@.len() == 7);
            assert("extensions"@.len() == 10 && "displayName"@.len() == 11);
            assert("extensions"@.len() == 10 && "description"@.len() == 11);
            assert("extensions"@.len() == 10 && "category"@.len() == 8);
            assert("extensions"@[0] != "semanticId"@[0]);
            assert("extensions"@.len() == 10 && "supplementalSemanticIds"@.len() == 23);
            assert("extensions"@[0] != "qualifiers"@[0]);
            assert("extensions"@.len() == 10 && "embeddedDataSpecifications"@.len() == 26);
            assert("semanticId"@.len() == 10 && "modelType"@.len() == 9);
            assert("semanticId"@.len() == 10 && "idShort"@.len() == 7);
            assert("semanticId"@.len() == 10 && "displayName"@.len() == 11);
            assert("semanticId"@.len() == 10 && "description"@.len() == 11);
            assert("semanticId"@.len() == 10 && "category"@.len() == 8);
            assert("semanticId"@[0] != "extensions"@[0]);
            assert("semanticId"@.len() == 10 && "supplementalSemanticIds"@.len() == 23);
            assert("semanticId"@[0] != "qualifiers"@[0]);
            assert("semanticId"@.len() == 10 && "embeddedDataSpecifications"@.len() == 26);
            assert("supplementalSemanticIds"@.len() == 23 && "modelType"@.len() == 9);
            assert("supplementalSemanticIds"@.len() == 23 && "idShort"@.len() == 7);
            assert("supplementalSemanticIds"@.len() == 23 && "displayName"@.len() == 11);
            assert("supplementalSemanticIds"@.len() == 23 && "description"@.len() == 11);
            assert("supplementalSemanticIds"@.len() == 23 && "category"@.len() == 8);
            assert("supplementalSemanticIds"@.len() == 23 && "extensions"@.len() == 10);
            assert("supplementalSemanticIds"@.len() == 23 && "semanticId"@.len() == 10);
            assert("supplementalSemanticIds"@.len() == 23 && "qualifiers"@.len() == 10);
            assert("supplementalSemanticIds"@.len() == 23 && "embeddedDataSpecifications"@.len() == 26);
            assert("qualifiers"@.len() == 10 && "modelType"@.len() == 9);
            assert("qualifiers"@.len() == 10 && "idShort"@.len() == 7);
            assert("qualifiers"@.len() == 10 && "displayName"@.len() == 11);
            assert("qualifiers"@.len() == 10 && "description"@.len() == 11);
            assert("qualifiers"@.len() == 10 && "category"@.len() == 8);
            assert("qualifiers"@[0] != "extensions"@[0]);
            assert("qualifiers"@[0] != "semanticId"@[0]);
            assert("qualifiers"@.len() == 10 && "supplementalSemanticIds"@.len() == 23);
            assert("qualifiers"@.len() == 10 && "embeddedDataSpecifications"@.len() == 26);
            assert("embeddedDataSpecifications"@.len() == 26 && "modelType"@.len() == 9);
            assert("embeddedDataSpecifications"@.len() == 26 && "idShort"@.len() == 7);
            assert("embeddedDataSpecifications"@.len() == 26 && "displayName"@.len() == 11);
            assert("embeddedDataSpecifications"@.len() == 26 && "description"@.len() == 11);
            assert("embeddedDataSpecifications"@.len() == 26 && "category"@.len() == 8);
            assert("embeddedDataSpecifications"@.len() == 26 && "extensions"@.len() == 10);
            assert("embeddedDataSpecifications"@.len() == 26 && "semanticId"@.len() == 10);
            assert("embeddedDataSpecifications"@.len() == 26 && "supplementalSemanticIds"@.len() == 23);
            assert("embeddedDataSpecifications"@.len() == 26 && "qualifiers"@.len() == 10);
        }
        let mut fs: Vec<(String, Json)> = Vec::new();
        let ghost prev = fs@;
        fs.push(field("modelType", Json::Str("RelationshipElement".to_string())));
        proof {
            lemma_names_within_empty(prev, |n: Seq<char>| n == "modelType"@);
            if true {
                assert(fs@ == prev.push(fs@.last()));
                lemma_names_within_push(prev, fs@.last(), |n: Seq<char>| n == "modelType"@);
                lemma_lookup_push(prev, fs@.last(), "modelType"@);
            }
        }
        let ghost prev = fs@;
        let mut part = self.submodel_element_fields.encode_members();
        let ghost sp = part@;
        fs.append(&mut part);
        proof {
            lemma_names_within_concat(prev, sp, |n: Seq<char>| n == "modelType"@, |n: Seq<char>| submodel_element_fields_name(n), |n: Seq<char>| relationship_element_meta_name(n));
            lemma_lookup_concat(prev, sp, "modelType"@);
            lemma_lookup_outside(sp, |n: Seq<char>| submodel_element_fields_name(n), "modelType"@);
            lemma_lookup_concat(prev, sp, "idShort"@);
            lemma_lookup_outside(prev, |n: Seq<char>| n == "modelType"@, "idShort"@);
            lemma_lookup_concat(prev, sp, "displayName"@);
            lemma_lookup_outside(prev, |n: Seq<char>| n == "modelType"@, "displayName"@);
            lemma_lookup_concat(prev, sp, "description"@);
            lemma_lookup_outside(prev, |n: Seq<char>| n == "modelType"@, "description"@);
            lemma_lookup_concat(prev, sp, "category"@);
            lemma_lookup_outside(prev, |n: Seq<char>| n == "modelType"@, "category"@);
            lemma_lookup_concat(prev, sp, "extensions"@);
            lemma_lookup_outside(prev, |n: Seq<char>| n == "modelType"@, "extensions"@);
            lemma_lookup_concat(prev, sp, "semanticId"@);
            lemma_lookup_outside(prev, |n: Seq<char>| n == "modelType"@, "semanticId"@);
            lemma_lookup_concat(prev, sp, "supplementalSemanticIds"@);
            lemma_lookup_outside(prev, |n: Seq<char>| n == "modelType"@, "supplementalSemanticIds"@);
            lemma_lookup_concat(prev, sp, "qualifiers"@);
            lemma_lookup_outside(prev, |n: Seq<char>| n == "modelType"@, "qualifiers"@);
            lemma_lookup_concat(prev, sp, "embeddedDataSpecifications"@);
            lemma_lookup_outside(prev, |n: Seq<char>| n == "modelType"@, "embeddedDataSpecifications"@);
        }
        fs
    }

    /// Reads the members of the value from `fs`.
    pub fn decode_members(fs: &Vec<(String, Json)>) -> (r: Result<RelationshipElementMeta, DecodeError>)
        ensures
            match relationship_element_meta_error(fs@) {
                Some(e) => r == Err::<RelationshipElementMeta, DecodeError>(e),
                None => r matches Ok(x) && relationship_element_meta_rel(x, fs@),
            },
    {
        match get_member(fs, "modelType") {
            None => return Err(DecodeError::MissingField),
            Some(Json::Str(t)) => if !str_eq(t.as_str(), "RelationshipElement") {
                return Err(DecodeError::UnknownDiscriminator);
            },
            Some(_) => return Err(DecodeError::UnexpectedKind),
        }
        let submodel_element_fields = match SubmodelElementFields::decode_members(fs) {
            Ok(v) => v,
            Err(e) => return Err(e),
        };
        Ok(RelationshipElementMeta { submodel_element_fields })
    }
}

/// Members found as encoding writes them decode to a value, whatever
/// other members stand beside them.
pub proof fn lemma_relationship_element_meta_round_trip(x: RelationshipElementMeta, fs: Seq<(String, Json)>)
    requires
        relationship_element_meta_wf(x),
        relationship_element_meta_lookups(x, fs),
    ensures
        relationship_element_meta_error(fs) is None,
        relationship_element_meta_rel(x, fs),
{
    lemma_submodel_element_fields_round_trip(x.submodel_element_fields, fs);
}

/// The values that the same members decode to hold the same content.
pub proof fn lemma_relationship_element_meta_unique(x: RelationshipElementMeta, y: RelationshipElementMeta, fs: Seq<(String, Json)>)
    requires
        relationship_element_meta_rel(x, fs),
        relationship_element_meta_rel(y, fs),
    ensures
        relationship_element_meta_equiv(x, y),
{
    lemma_submodel_element_fields_unique(x.submodel_element_fields, y.submodel_element_fields, fs);
}

impl JsonCodec for RelationshipElementMeta {
    open spec fn wf(&self) -> bool {
        relationship_element_meta_wf(*self)
    }

    open spec fn encoded(&self, j: Json) -> bool {
        j matches Json::Object(fs) && relationship_element_meta_encoded(*self, fs@)
    }

    open spec fn rel(&self, j: Json) -> bool {
        j matches Json::Object(fs) && relationship_element_meta_rel(*self, fs@)
    }

    open spec fn decode_error(j: Json) -> Option<DecodeError> {
        match j {
            Json::Object(fs) => relationship_element_meta_error(fs@),
            _ => Some(DecodeError::UnexpectedKind),
        }
    }

    open spec fn equiv(&self, o: &Self) -> bool {
        relationship_element_meta_equiv(*self, *o)
    }

    fn encode(&self) -> (r: Json) {
        Json::Object(self.encode_members())
    }

    fn decode(j: &Json) -> (r: Result<Self, DecodeError>) {
        match j {
            Json::Object(fs) => RelationshipElementMeta::decode_members(fs),
            _ => Err(DecodeError::UnexpectedKind),
        }
    }

    proof fn lemma_round_trip(&self, j: Json) {
        lemma_relationship_element_meta_round_trip(*self, j->Object_0@);
    }

    proof fn lemma_unique(&self, o: &Self, j: Json) {
        lemma_relationship_element_meta_unique(*self, *o, j->Object_0@);
    }
}

/// The metamodel view of an annotated relationship: its attributes without the related elements and annotations.
#[derive(Clone, Debug, PartialEq)]
pub struct AnnotatedRelationshipElementMeta {
    pub submodel_element_fields: SubmodelElementFields,
}

/// A name of the members of `AnnotatedRelationshipElementMeta`.
pub open spec fn annotated_relationship_element_meta_name(n: Seq<char>) -> bool {
    n == "modelType"@ || submodel_element_fields_name(n)
}

/// Looking up the members of `AnnotatedRelationshipElementMeta` in `fs` finds what encoding writes for `x`.
pub open spec fn annotated_relationship_element_meta_lookups(x: AnnotatedRelationshipElementMeta, fs: Seq<(String, Json)>) -> bool {
    &&& lookup(fs, "modelType"@) matches Some(Json::Str(t)) && t@ == "AnnotatedRelationshipElement"@
    &&& submodel_element_fields_lookups(x.submodel_element_fields, fs)
}

/// `fs` are the members that encoding writes for `x`.
pub open spec fn annotated_relationship_element_meta_encoded(x: AnnotatedRelationshipElementMeta, fs: Seq<(String, Json)>) -> bool {
    &&& names_within(fs, |n: Seq<char>| annotated_relationship_element_meta_name(n))
    &&& annotated_relationship_element_meta_lookups(x, fs)
}

/// The members of `fs` decode to `x`.
pub open spec fn annotated_relationship_element_meta_rel(x: AnnotatedRelationshipElementMeta, fs: Seq<(String, Json)>) -> bool {
    &&& member(fs, "modelType"@) matches Some(Json::Str(t)) && t@ == "AnnotatedRelationshipElement"@
    &&& submodel_element_fields_rel(x.submodel_element_fields, fs)
}

/// The error, if any, of decoding the members of `AnnotatedRelationshipElementMeta` from `fs`.
pub open spec fn annotated_relationship_element_meta_error(fs: Seq<(String, Json)>) -> Option<DecodeError> {
    match member(fs, "modelType"@) {
        None => Some(DecodeError::MissingField),
        Some(Json::Str(t)) => if t@ == "AnnotatedRelationshipElement"@ {
            match submodel_element_fields_error(fs) {
                Some(e) => Some(e),
                None => {
                    None
                },
            }
        } else {
            Some(DecodeError::UnknownDiscriminator)
        },
        Some(_) => Some(DecodeError::UnexpectedKind),
    }
}

/// The values of `x` are well-formed.
pub open spec fn annotated_relationship_element_meta_wf(x: AnnotatedRelationshipElementMeta) -> bool {
    &&& submodel_element_fields_wf(x.submodel_element_fields)
}

/// `x` and `y` hold the same content.
pub open spec fn annotated_relationship_element_meta_equiv(x: AnnotatedRelationshipElementMeta, y: AnnotatedRelationshipElementMeta) -> bool {
    &&& submodel_element_fields_equiv(x.submodel_element_fields, y.submodel_element_fields)
}

impl AnnotatedRelationshipElementMeta {
    /// Writes the members of the value, absent ones left out.
    pub fn encode_members(&self) -> (r: Vec<(String, Json)>)
        ensures
            annotated_relationship_element_meta_encoded(*self, r@),
    {
        proof {
            reveal_strlit("modelType");
            reveal_strlit("idShort");
            reveal_strlit("displayName");
            reveal_strlit("description");
            reveal_strlit("category");
            reveal_strlit("extensions");
            reveal_strlit("semanticId");
            reveal_strlit("supplementalSemanticIds");
            reveal_strlit("qualifiers");
            reveal_strlit("embeddedDataSpecifications");
            assert("modelType"@.len() == 9 && "idShort"@.len() == 7);
            assert("modelType"@.len() == 9 && "displayName"@.len() == 11);
            assert("modelType"@.len() == 9 && "description"@.len() == 11);
            assert("modelType"@.len() == 9 && "category"@.len() == 8);
            assert("modelType"@.len() == 9 && "extensions"@.len() == 10);
            assert("modelType"@.len() == 9 && "semanticId"@.len() == 10);
            assert("modelType"@.len() == 9 && "supplementalSemanticIds"@.len() == 23);
            assert("modelType"@.len() == 9 && "qualifiers"@.len() == 10);
            assert("modelType"@.len() == 9 && "embeddedDataSpecifications"@.len() == 26);
            assert("idShort"@.len() == 7 && "modelType"@.len() == 9);
            assert("idShort"@.len() == 7 && "displayName"@.len() == 11);
            assert("idShort"@.len() == 7 && "description"@.len() == 11);
            assert("idShort"@.len() == 7 && "category"@.len() == 8);
            assert("idShort"@.len() == 7 && "extensions"@.len() == 10);
            assert("idShort"@.len() == 7 && "semanticId"@.len() == 10);
            assert("idShort"@.len() == 7 && "supplementalSemanticIds"@.len() == 23);
            assert("idShort"@.len() == 7 && "qualifiers"@.len() == 10);
            assert("idShort"@.len() == 7 && "embeddedDataSpecifications"@.len() == 26);
            assert("displayName"@.len() == 11 && "modelType"@.len() == 9);
            assert("displayName"@.len() == 11 && "idShort"@.len() == 7);
            assert("displayName"@[1] != "description"@[1]);
            assert("displayName"@.len() == 11 && "category"@.len() == 8);
            assert("displayName"@.len() == 11 && "extensions"@.len() == 10);
            assert("displayName"@.len() == 11 && "semanticId"@.len() == 10);
            assert("displayName"@.len() == 11 && "supplementalSemanticIds"@.len() == 23);
            assert("displayName"@.len() == 11 && "qualifiers"@.len() == 10);
            assert("displayName"@.len() == 11 && "embeddedDataSpecifications"@.len() == 26);
            assert("description"@.len() == 11 && "modelType"@.len() == 9);
            assert("description"@.len() == 11 && "idShort"@.len() == 7);
            assert("description"@[1] != "displayName"@[1]);
            assert("description"@.len() == 11 && "category"@.len() == 8);
            assert("description"@.len() == 11 && "extensions"@.len() == 10);
            assert("description"@.len() == 11 && "semanticId"@.len() == 10);
            assert("description"@.len() == 11 && "supplementalSemanticIds"@.len() == 23);
            assert("description"@.len() == 11 && "qualifiers"@.len() == 10);
            assert("description"@.len() == 11 && "embeddedDataSpecifications"@.len() == 26);
            assert("category"@.len() == 8 && "modelType"@.len() == 9);
            assert("category"@.len() == 8 && "idShort"@.len() == 7);
            assert("category"@.len() == 8 && "displayName"@.len() == 11);
            assert("category"@.len() == 8 && "description"@.len() == 11);
            assert("category"@.len() == 8 && "extensions"@.len() == 10);
            assert("category"@.len() == 8 && "semanticId"@.len() == 10);
            assert("category"@.len() == 8 && "supplementalSemanticIds"@.len() == 23);
            assert("category"@.len() == 8 && "qualifiers"@.len() == 10);
            assert("category"@.len() == 8 && "embeddedDataSpecifications"@.len() == 26);
            assert("extensions"@.len() == 10 && "modelType"@.len() == 9);
            assert("extensions"@.len() == 10 && "idShort"@.len() == 7);
            assert("extensions"@.len() == 10 && "displayName"@.len() == 11);
            assert("extensions"@.len() == 10 && "description"@.len() == 11);
            assert("extensions"@.len() == 10 && "category"@.len() == 8);
            assert("extensions"@[0] != "semanticId"@[0]);
            assert("extensions"@.len() == 10 && "supplementalSemanticIds"@.len() == 23);
            assert("extensions"@[0] != "qualifiers"@[0]);
            assert("extensions"@.len() == 10 && "embeddedDataSpecifications"@.len() == 26);
            assert("semanticId"@.len() == 10 && "modelType"@.len() == 9);
            assert("semanticId"@.len() == 10 && "idShort"@.len() == 7);
            assert("semanticId"@.len() == 10 && "displayName"@.len() == 11);
            assert("semanticId"@.len() == 10 && "description"@.len() == 11);
            assert("semanticId"@.len() == 10 && "category"@.len() == 8);
            assert("semanticId"@[0] != "extensions"@[0]);
            assert("semanticId"@.len() == 10 && "supplementalSemanticIds"@.len() == 23);
            assert("semanticId"@[0] != "qualifiers"@[0]);
            assert("semanticId"@.len() == 10 && "embeddedDataSpecifications"@.len() == 26);
            assert("supplementalSemanticIds"@.len() == 23 && "modelType"@.len() == 9);
            assert("supplementalSemanticIds"@.len() == 23 && "idShort"@.len() == 7);
            assert("supplementalSemanticIds"@.len() == 23 && "displayName"@.len() == 11);
            assert("supplementalSemanticIds"@.len() == 23 && "description"@.len() == 11);
            assert("supplementalSemanticIds"@.len() == 23 && "category"@.len() == 8);
            assert("supplementalSemanticIds"@.len() == 23 && "extensions"@.len() == 10);
            assert("supplementalSemanticIds"@.len() == 23 && "semanticId"@.len() == 10);
            assert("supplementalSemanticIds"@.len() == 23 && "qualifiers"@.len() == 10);
            assert("supplementalSemanticIds"@.len() == 23 && "embeddedDataSpecifications"@.len() == 26);
            assert("qualifiers"@.len() == 10 && "modelType"@.len() == 9);
            assert("qualifiers"@.len() == 10 && "idShort"@.len() == 7);
            assert("qualifiers"@.len() == 10 && "displayName"@.len() == 11);
            assert("qualifiers"@.len() == 10 && "description"@.len() == 11);
            assert("qualifiers"@.len() == 10 && "category"@.len() == 8);
            assert("qualifiers"@[0] != "extensions"@[0]);
            assert("qualifiers"@[0] != "semanticId"@[0]);
            assert("qualifiers"@.len() == 10 && "supplementalSemanticIds"@.len() == 23);
            assert("qualifiers"@.len() == 10 && "embeddedDataSpecifications"@.len() == 26);
            assert("embeddedDataSpecifications"@.len() == 26 && "modelType"@.len() == 9);
            assert("embeddedDataSpecifications"@.len() == 26 && "idShort"@.len() == 7);
            assert("embeddedDataSpecifications"@.len() == 26 && "displayName"@.len() == 11);
            assert("embeddedDataSpecifications"@.len() == 26 && "description"@.len() == 11);
            assert("embeddedDataSpecifications"@.len() == 26 && "category"@.len() == 8);
            assert("embeddedDataSpecifications"@.len() == 26 && "extensions"@.len() == 10);
            assert("embeddedDataSpecifications"@.len() == 26 && "semanticId"@.len() == 10);
            assert("embeddedDataSpecifications"@.len() == 26 && "supplementalSemanticIds"@.len() == 23);
            assert("embeddedDataSpecifications"@.len() == 26 && "qualifiers"@.len() == 10);
        }
        let mut fs: Vec<(String, Json)> = Vec::new();
        let ghost prev = fs@;
        fs.push(field("modelType", Json::Str("AnnotatedRelationshipElement".to_string())));
        proof {
            lemma_names_within_empty(prev, |n: Seq<char>| n == "modelType"@);
            if true {
                assert(fs@ == prev.push(fs@.last()));
                lemma_names_within_push(prev, fs@.last(), |n: Seq<char>| n == "modelType"@);
                lemma_lookup_push(prev, fs@.last(), "modelType"@);
            }
        }
        let ghost prev = fs@;
        let mut part = self.submodel_element_fields.encode_members();
        let ghost sp = part@;
        fs.append(&mut part);
        proof {
            lemma_names_within_concat(prev, sp, |n: Seq<char>| n == "modelType"@, |n: Seq<char>| submodel_element_fields_name(n), |n: Seq<char>| annotated_relationship_element_meta_name(n));
            lemma_lookup_concat(prev, sp, "modelType"@);
            lemma_lookup_outside(sp, |n: Seq<char>| submodel_element_fields_name(n), "modelType"@);
            lemma_lookup_concat(prev, sp, "idShort"@);
            lemma_lookup_outside(prev, |n: Seq<char>| n == "modelType"@, "idShort"@);
            lemma_lookup_concat(prev, sp, "displayName"@);
            lemma_lookup_outside(prev, |n: Seq<char>| n == "modelType"@, "displayName"@);
            lemma_lookup_concat(prev, sp, "description"@);
            lemma_lookup_outside(prev, |n: Seq<char>| n == "modelType"@, "description"@);
            lemma_lookup_concat(prev, sp, "category"@);
            lemma_lookup_outside(prev, |n: Seq<char>| n == "modelType"@, "category"@);
            lemma_lookup_concat(prev, sp, "extensions"@);
            lemma_lookup_outside(prev, |n: Seq<char>| n == "modelType"@, "extensions"@);
            lemma_lookup_concat(prev, sp, "semanticId"@);
            lemma_lookup_outside(prev, |n: Seq<char>| n == "modelType"@, "semanticId"@);
            lemma_lookup_concat(prev, sp, "supplementalSemanticIds"@);
            lemma_lookup_outside(prev, |n: Seq<char>| n == "modelType"@, "supplementalSemanticIds"@);
            lemma_lookup_concat(prev, sp, "qualifiers"@);
            lemma_lookup_outside(prev, |n: Seq<char>| n == "modelType"@, "qualifiers"@);
            lemma_lookup_concat(prev, sp, "embeddedDataSpecifications"@);
            lemma_lookup_outside(prev, |n: Seq<char>| n == "modelType"@, "embeddedDataSpecifications"@);
        }
        fs
    }

    /// Reads the members of the value from `fs`.
    pub fn decode_members(fs: &Vec<(String, Json)>) -> (r: Result<AnnotatedRelationshipElementMeta, DecodeError>)
        ensures
            match annotated_relationship_element_meta_error(fs@) {
                Some(e) => r == Err::<AnnotatedRelationshipElementMeta, DecodeError>(e),
                None => r matches Ok(x) && annotated_relationship_element_meta_rel(x, fs@),
            },
    {
        match get_member(fs, "modelType") {
            None => return Err(DecodeError::MissingField),
            Some(Json::Str(t)) => if !str_eq(t.as_str(), "AnnotatedRelationshipElement") {
                return Err(DecodeError::UnknownDiscriminator);
            },
            Some(_) => return Err(DecodeError::UnexpectedKind),
        }
        let submodel_element_fields = match SubmodelElementFields::decode_members(fs) {
            Ok(v) => v,
            Err(e) => return Err(e),
        };
        Ok(AnnotatedRelationshipElementMeta { submodel_element_fields })
    }
}

/// Members found as encoding writes them decode to a value, whatever
/// other members stand beside them.
pub proof fn lemma_annotated_relationship_element_meta_round_trip(x: AnnotatedRelationshipElementMeta, fs: Seq<(String, Json)>)
    requires
        annotated_relationship_element_meta_wf(x),
        annotated_relationship_element_meta_lookups(x, fs),
    ensures
        annotated_relationship_element_meta_error(fs) is None,
        annotated_relationship_element_meta_rel(x, fs),
{
    lemma_submodel_element_fields_round_trip(x.submodel_element_fields, fs);
}

/// The values that the same members decode to hold the same content.
pub proof fn lemma_annotated_relationship_element_meta_unique(x: AnnotatedRelationshipElementMeta, y: AnnotatedRelationshipElementMeta, fs: Seq<(String, Json)>)
    requires
        annotated_relationship_element_meta_rel(x, fs),
        annotated_relationship_element_meta_rel(y, fs),
    ensures
        annotated_relationship_element_meta_equiv(x, y),
{
    lemma_submodel_element_fields_unique(x.submodel_element_fields, y.submodel_element_fields, fs);
}

impl JsonCodec for AnnotatedRelationshipElementMeta {
    open spec fn wf(&self) -> bool {
        annotated_relationship_element_meta_wf(*self)
    }

    open spec fn encoded(&self, j: Json) -> bool {
        j matches Json::Object(fs) && annotated_relationship_element_meta_encoded(*self, fs@)
    }

    open spec fn rel(&self, j: Json) -> bool {
        j matches Json::Object(fs) && annotated_relationship_element_meta_rel(*self, fs@)
    }

    open spec fn decode_error(j: Json) -> Option<DecodeError> {
        match j {
            Json::Object(fs) => annotated_relationship_element_meta_error(fs@),
            _ => Some(DecodeError::UnexpectedKind),
        }
    }

    open spec fn equiv(&self, o: &Self) -> bool {
        annotated_relationship_element_meta_equiv(*self, *o)
    }

    fn encode(&self) -> (r: Json) {
        Json::Object(self.encode_members())
    }

    fn decode(j: &Json) -> (r: Result<Self, DecodeError>) {
        match j {
            Json::Object(fs) => AnnotatedRelationshipElementMeta::decode_members(fs),
            _ => Err(DecodeError::UnexpectedKind),
        }
    }

    proof fn lemma_round_trip(&self, j: Json) {
        lemma_annotated_relationship_element_meta_round_trip(*self, j->Object_0@);
    }

    proof fn lemma_unique(&self, o: &Self, j: Json) {
        lemma_annotated_relationship_element_meta_unique(*self, *o, j->Object_0@);
    }
}

/// Whether an event element is active.
#[derive(Debug, PartialEq, Eq, Clone, Copy, Structural)]
pub enum StateOfEvent {
    On,
    Off,
}

/// The wire name of a value of `StateOfEvent`.
pub open spec fn state_of_event_wire(x: StateOfEvent) -> Seq<char> {
    match x {
        StateOfEvent::On => "on"@,
        StateOfEvent::Off => "off"@,
    }
}

/// The value of `StateOfEvent` that a wire name denotes, if any.
pub open spec fn state_of_event_from_wire(s: Seq<char>) -> Option<StateOfEvent> {
    if s == "on"@ {
        Some(StateOfEvent::On)
    }
    else if s == "off"@ {
        Some(StateOfEvent::Off)
    }
 else {
        None
    }
}

/// Each value is found again from its wire name.
pub proof fn lemma_state_of_event_wire_inverse(x: StateOfEvent)
    ensures
        state_of_event_from_wire(state_of_event_wire(x)) == Some(x),
{
    match x {
        StateOfEvent::On => {
            reveal_strlit("on");
            assert("on"@.len() == 2);
        },
        StateOfEvent::Off => {
            reveal_strlit("off");
            assert("off"@.len() == 3);
            reveal_strlit("on");
            assert("on"@.len() == 2);
        },
    }
}

impl StateOfEvent {
    /// The wire name of the value.
    pub fn wire_name(&self) -> (r: &'static str)
        ensures
            r@ == state_of_event_wire(*self),
    {
        match self {
            StateOfEvent::On => "on",
            StateOfEvent::Off => "off",
        }
    }

    /// The value that a wire name denotes, if any.
    pub fn from_wire(s: &str) -> (r: Option<StateOfEvent>)
        ensures
            r == state_of_event_from_wire(s@),
    {
        if str_eq(s, "on") {
            Some(StateOfEvent::On)
        }
        else if str_eq(s, "off") {
            Some(StateOfEvent::Off)
        }
        else {
            None
        }
    }
}

impl JsonCodec for StateOfEvent {
    open spec fn wf(&self) -> bool {
        true
    }

    open spec fn encoded(&self, j: Json) -> bool {
        j matches Json::Str(s) && s@ == state_of_event_wire(*self)
    }

    open spec fn rel(&self, j: Json) -> bool {
        j matches Json::Str(s) && state_of_event_from_wire(s@) == Some(*self)
    }

    open spec fn decode_error(j: Json) -> Option<DecodeError> {
        match j {
            Json::Str(s) => if state_of_event_from_wire(s@) is Some {
                None
            } else {
                Some(DecodeError::UnknownDiscriminator)
            },
            _ => Some(DecodeError::UnexpectedKind),
        }
    }

    open spec fn equiv(&self, o: &Self) -> bool {
        *self == *o
    }

    fn encode(&self) -> (r: Json) {
        Json::Str(self.wire_name().to_string())
    }

    fn decode(j: &Json) -> (r: Result<Self, DecodeError>) {
        match j {
            Json::Str(s) => match StateOfEvent::from_wire(s.as_str()) {
                Some(x) => Ok(x),
                None => Err(DecodeError::UnknownDiscriminator),
            },
            _ => Err(DecodeError::UnexpectedKind),
        }
    }

    proof fn lemma_round_trip(&self, j: Json) {
        lemma_state_of_event_wire_inverse(*self);
    }

    proof fn lemma_unique(&self, o: &Self, j: Json) {
    }
}

/// Whether an event element receives or sends events.
#[derive(Debug, PartialEq, Eq, Clone, Copy, Structural)]
pub enum Direction {
    Input,
    Output,
}

/// The wire name of a value of `Direction`.
pub open spec fn direction_wire(x: Direction) -> Seq<char> {
    match x {
        Direction::Input => "input"@,
        Direction::Output => "output"@,
    }
}

/// The value of `Direction` that a wire name denotes, if any.
pub open spec fn direction_from_wire(s: Seq<char>) -> Option<Direction> {
    if s == "input"@ {
        Some(Direction::Input)
    }
    else if s == "output"@ {
        Some(Direction::Output)
    }
 else {
        None
    }
}

/// Each value is found again from its wire name.
pub proof fn lemma_direction_wire_inverse(x: Direction)
    ensures
        direction_from_wire(direction_wire(x)) == Some(x),
{
    match x {
        Direction::Input => {
            reveal_strlit("input");
            assert("input"@.len() == 5);
        },
        Direction::Output => {
            reveal_strlit("output");
            assert("output"@.len() == 6);
            reveal_strlit("input");
            assert("input"@.len() == 5);
        },
    }
}

impl Direction {
    /// The wire name of the value.
    pub fn wire_name(&self) -> (r: &'static str)
        ensures
            r@ == direction_wire(*self),
    {
        match self {
            Direction::Input => "input",
            Direction::Output => "output",
        }
    }

    /// The value that a wire name denotes, if any.
    pub fn from_wire(s: &str) -> (r: Option<Direction>)
        ensures
            r == direction_from_wire(s@),
    {
        if str_eq(s, "input") {
            Some(Direction::Input)
        }
        else if str_eq(s, "output") {
            Some(Direction::Output)
        }
        else {
            None
        }
    }
}

impl JsonCodec for Direction {
    open spec fn wf(&self) -> bool {
        true
    }

    open spec fn encoded(&self, j: Json) -> bool {
        j matches Json::Str(s) && s@ == direction_wire(*self)
    }

    open spec fn rel(&self, j: Json) -> bool {
        j matches Json::Str(s) && direction_from_wire(s@) == Some(*self)
    }

    open spec fn decode_error(j: Json) -> Option<DecodeError> {
        match j {
            Json::Str(s) => if direction_from_wire(s@) is Some {
                None
            } else {
                Some(DecodeError::UnknownDiscriminator)
            },
            _ => Some(DecodeError::UnexpectedKind),
        }
    }

    open spec fn equiv(&self, o: &Self) -> bool {
        *self == *o
    }

    fn encode(&self) -> (r: Json) {
        Json::Str(self.wire_name().to_string())
    }

    fn decode(j: &Json) -> (r: Result<Self, DecodeError>) {
        match j {
            Json::Str(s) => match Direction::from_wire(s.as_str()) {
                Some(x) => Ok(x),
                None => Err(DecodeError::UnknownDiscriminator),
            },
            _ => Err(DecodeError::UnexpectedKind),
        }
    }

    proof fn lemma_round_trip(&self, j: Json) {
        lemma_direction_wire_inverse(*self);
    }

    proof fn lemma_unique(&self, o: &Self, j: Json) {
    }
}

/// An element sending or receiving events about an observed element.
#[derive(Clone, Debug, PartialEq)]
pub struct BasicEventElement {
    pub submodel_element_fields: SubmodelElementFields,
    pub observed: Reference,
    pub direction: Direction,
    pub state: StateOfEvent,
    pub message_topic: Option<MessageTopic>,
    pub message_broker: Option<Reference>,
    /// The time of the last update, in the lexical form of `xs:dateTime`.
    pub last_update: Option<String>,
    pub min_interval: Option<String>,
    pub max_interval: Option<String>,
}

/// A name of the members of `BasicEventElement`.
pub open spec fn basic_event_element_name(n: Seq<char>) -> bool {
    n == "modelType"@ || submodel_element_fields_name(n) || n == "observed"@ || n == "direction"@ || n == "state"@ || n == "messageTopic"@ || n == "messageBroker"@ || n == "lastUpdate"@ || n == "minInterval"@ || n == "maxInterval"@
}

/// Looking up the members of `BasicEventElement` in `fs` finds what encoding writes for `x`.
pub open spec fn basic_event_element_lookups(x: BasicEventElement, fs: Seq<(String, Json)>) -> bool {
    &&& lookup(fs, "modelType"@) matches Some(Json::Str(t)) && t@ == "BasicEventElement"@
    &&& submodel_element_fields_lookups(x.submodel_element_fields, fs)
    &&& req_encoded(x.observed, lookup(fs, "observed"@))
    &&& req_encoded(x.direction, lookup(fs, "direction"@))
    &&& req_encoded(x.state, lookup(fs, "state"@))
    &&& opt_encoded(x.message_topic, lookup(fs, "messageTopic"@))
    &&& opt_encoded(x.message_broker, lookup(fs, "messageBroker"@))
    &&& opt_encoded(x.last_update, lookup(fs, "lastUpdate"@))
    &&& opt_encoded(x.min_interval, lookup(fs, "minInterval"@))
    &&& opt_encoded(x.max_interval, lookup(fs, "maxInterval"@))
}

/// `fs` are the members that encoding writes for `x`.
pub open spec fn basic_event_element_encoded(x: BasicEventElement, fs: Seq<(String, Json)>) -> bool {
    &&& names_within(fs, |n: Seq<char>| basic_event_element_name(n))
    &&& basic_event_element_lookups(x, fs)
}

/// The members of `fs` decode to `x`.
pub open spec fn basic_event_element_rel(x: BasicEventElement, fs: Seq<(String, Json)>) -> bool {
    &&& member(fs, "modelType"@) matches Some(Json::Str(t)) && t@ == "BasicEventElement"@
    &&& submodel_element_fields_rel(x.submodel_element_fields, fs)
    &&& req_rel(x.observed, member(fs, "observed"@))
    &&& req_rel(x.direction, member(fs, "direction"@))
    &&& req_rel(x.state, member(fs, "state"@))
    &&& opt_rel(x.message_topic, member(fs, "messageTopic"@))
    &&& opt_rel(x.message_broker, member(fs, "messageBroker"@))
    &&& opt_rel(x.last_update, member(fs, "lastUpdate"@))
    &&& opt_rel(x.min_interval, member(fs, "minInterval"@))
    &&& opt_rel(x.max_interval, member(fs, "maxInterval"@))
}

/// The error, if any, of decoding the members of `BasicEventElement` from `fs`.
pub open spec fn basic_event_element_error(fs: Seq<(String, Json)>) -> Option<DecodeError> {
    match member(fs, "modelType"@) {
        None => Some(DecodeError::MissingField),
        Some(Json::Str(t)) => if t@ == "BasicEventElement"@ {
            match submodel_element_fields_error(fs) {
                Some(e) => Some(e),
                None => {
                    match req_error::<Reference>(member(fs, "observed"@)) {
                        Some(e) => Some(e),
                        None => {
                            match req_error::<Direction>(member(fs, "direction"@)) {
                                Some(e) => Some(e),
                                None => {
                                    match req_error::<StateOfEvent>(member(fs, "state"@)) {
                                        Some(e) => Some(e),
                                        None => {
                                            match opt_error::<MessageTopic>(member(fs, "messageTopic"@)) {
                                                Some(e) => Some(e),
                                                None => {
                                                    match opt_error::<Reference>(member(fs, "messageBroker"@)) {
                                                        Some(e) => Some(e),
                                                        None => {
                                                            match opt_error::<String>(member(fs, "lastUpdate"@)) {
                                                                Some(e) => Some(e),
                                                                None => {
                                                                    match opt_error::<String>(member(fs, "minInterval"@)) {
                                                                        Some(e) => Some(e),
                                                                        None => {
                                                                            match opt_error::<String>(member(fs, "maxInterval"@)) {
                                                                                Some(e) => Some(e),
                                                                                None => {
                                                                                    None
                                                                                },
                                                                            }
                                                                        },
                                                                    }
                                                                },
                                                            }
                                                        },
                                                    }
                                                },
                                            }
                                        },
                                    }
                                },
                            }
                        },
                    }
                },
            }
        } else {
            Some(DecodeError::UnknownDiscriminator)
        },
        Some(_) => Some(DecodeError::UnexpectedKind),
    }
}

/// The values of `x` are well-formed.
pub open spec fn basic_event_element_wf(x: BasicEventElement) -> bool {
    &&& submodel_element_fields_wf(x.submodel_element_fields)
    &&& x.observed.wf()
    &&& x.direction.wf()
    &&& x.state.wf()
    &&& opt_wf(x.message_topic)
    &&& opt_wf(x.message_broker)
    &&& opt_wf(x.last_update)
    &&& opt_wf(x.min_interval)
    &&& opt_wf(x.max_interval)
}

/// `x` and `y` hold the same content.
pub open spec fn basic_event_element_equiv(x: BasicEventElement, y: BasicEventElement) -> bool {
    &&& submodel_element_fields_equiv(x.submodel_element_fields, y.submodel_element_fields)
    &&& x.observed.equiv(&y.observed)
    &&& x.direction.equiv(&y.direction)
    &&& x.state.equiv(&y.state)
    &&& opt_equiv(x.message_topic, y.message_topic)
    &&& opt_equiv(x.message_broker, y.message_broker)
    &&& opt_equiv(x.last_update, y.last_update)
    &&& opt_equiv(x.min_interval, y.min_interval)
    &&& opt_equiv(x.max_interval, y.max_interval)
}

/// A name of the members of `BasicEventElement` written by its encoding step 0.
pub open spec fn basic_event_element_chunk0_name(n: Seq<char>) -> bool {
    n == "modelType"@ || submodel_element_fields_name(n) || n == "observed"@ || n == "direction"@ || n == "state"@ || n == "messageTopic"@
}

/// Looking up the members of encoding step 0 of `BasicEventElement` in `fs` finds what it writes for `x`.
pub open spec fn basic_event_element_chunk0_lookups(x: BasicEventElement, fs: Seq<(String, Json)>) -> bool {
    &&& lookup(fs, "modelType"@) matches Some(Json::Str(t)) && t@ == "BasicEventElement"@
    &&& submodel_element_fields_lookups(x.submodel_element_fields, fs)
    &&& req_encoded(x.observed, lookup(fs, "observed"@))
    &&& req_encoded(x.direction, lookup(fs, "direction"@))
    &&& req_encoded(x.state, lookup(fs, "state"@))
    &&& opt_encoded(x.message_topic, lookup(fs, "messageTopic"@))
}

/// A name of the members of `BasicEventElement` written by its encoding step 1.
pub open spec fn basic_event_element_chunk1_name(n: Seq<char>) -> bool {
    n == "messageBroker"@ || n == "lastUpdate"@ || n == "minInterval"@ || n == "maxInterval"@
}

/// Looking up the members of encoding step 1 of `BasicEventElement` in `fs` finds what it writes for `x`.
pub open spec fn basic_event_element_chunk1_lookups(x: BasicEventElement, fs: Seq<(String, Json)>) -> bool {
    &&& opt_encoded(x.message_broker, lookup(fs, "messageBroker"@))
    &&& opt_encoded(x.last_update, lookup(fs, "lastUpdate"@))
    &&& opt_encoded(x.min_interval, lookup(fs, "minInterval"@))
    &&& opt_encoded(x.max_interval, lookup(fs, "maxInterval"@))
}

impl BasicEventElement {
    /// Writes the members of encoding step 0, absent ones left out.
    #[verifier::rlimit(100)]
    #[verifier::spinoff_prover]
    fn encode_step0(&self) -> (r: Vec<(String, Json)>)
        ensures
            names_within(r@, |n: Seq<char>| basic_event_element_chunk0_name(n)),
            basic_event_element_chunk0_lookups(*self, r@),
    {
        proof {
            reveal_strlit("modelType");
            reveal_strlit("idShort");
            reveal_strlit("displayName");
            reveal_strlit("description");
            reveal_strlit("category");
            reveal_strlit("extensions");
            reveal_strlit("semanticId");
            reveal_strlit("supplementalSemanticIds");
            reveal_strlit("qualifiers");
            reveal_strlit("embeddedDataSpecifications");
            reveal_strlit("observed");
            reveal_strlit("direction");
            reveal_strlit("state");
            reveal_strlit("messageTopic");
            assert("modelType"@.len() == 9 && "idShort"@.len() == 7);
            assert("modelType"@.len() == 9 && "displayName"@.len() == 11);
            assert("modelType"@.len() == 9 && "description"@.len() == 11);
            assert("modelType"@.len() == 9 && "category"@.len() == 8);
            assert("modelType"@.len() == 9 && "extensions"@.len() == 10);
            assert("modelType"@.len() == 9 && "semanticId"@.len() == 10);
            assert("modelType"@.len() == 9 && "supplementalSemanticIds"@.len() == 23);
            assert("modelType"@.len() == 9 && "qualifiers"@.len() == 10);
            assert("modelType"@.len() == 9 && "embeddedDataSpecifications"@.len() == 26);
            assert("modelType"@.len() == 9 && "observed"@.len() == 8);
            assert("modelType"@[0] != "direction"@[0]);
            assert("modelType"@.len() == 9 && "state"@.len() == 5);
            assert("modelType"@.len() == 9 && "messageTopic"@.len() == 12);
            assert("idShort"@.len() == 7 && "modelType"@.len() == 9);
            assert("idShort"@.len() == 7 && "displayName"@.len() == 11);
            assert("idShort"@.len() == 7 && "description"@.len() == 11);
            assert("idShort"@.len() == 7 && "category"@.len() == 8);
            assert("idShort"@.len() == 7 && "extensions"@.len() == 10);
            assert("idShort"@.len() == 7 && "semanticId"@.len() == 10);
            assert("idShort"@.len() == 7 && "supplementalSemanticIds"@.len() == 23);
            assert("idShort"@.len() == 7 && "qualifiers"@.len() == 10);
            assert("idShort"@.len() == 7 && "embeddedDataSpecifications"@.len() == 26);
            assert("idShort"@.len() == 7 && "observed"@.len() == 8);
            assert("idShort"@.len() == 7 && "direction"@.len() == 9);
            assert("idShort"@.len() == 7 && "state"@.len() == 5);
            assert("idShort"@.len() == 7 && "messageTopic"@.len() == 12);
            assert("displayName"@.len() == 11 && "modelType"@.len() == 9);
            assert("displayName"@.len() == 11 && "idShort"@.len() == 7);
            assert("displayName"@[1] != "description"@[1]);
            assert("displayName"@.len() == 11 && "category"@.len() == 8);
            assert("displayName"@.len() == 11 && "extensions"@.len() == 10);
            assert("displayName"@.len() == 11 && "semanticId"@.len() == 10);
            assert("displayName"@.len() == 11 && "supplementalSemanticIds"@.len() == 23);
            assert("displayName"@.len() == 11 && "qualifiers"@.len() == 10);
            assert("displayName"@.len() == 11 && "embeddedDataSpecifications"@.len() == 26);
            assert("displayName"@.len() == 11 && "observed"@.len() == 8);
            assert("displayName"@.len() == 11 && "direction"@.len() == 9);
            assert("displayName"@.len() == 11 && "state"@.len() == 5);
            assert("displayName"@.len() == 11 && "messageTopic"@.len() == 12);
            assert("description"@.len() == 11 && "modelType"@.len() == 9);
            assert("description"@.len() == 11 && "idShort"@.len() == 7);
            assert("description"@[1] != "displayName"@[1]);
            assert("description"@.len() == 11 && "category"@.len() == 8);
            assert("description"@.len() == 11 && "extensions"@.len() == 10);
            assert("description"@.len() == 11 && "semanticId"@.len() == 10);
            assert("description"@.len() == 11 && "supplementalSemanticIds"@.len() == 23);
            assert("description"@.len() == 11 && "qualifiers"@.len() == 10);
            assert("description"@.len() == 11 && "embeddedDataSpecifications"@.len() == 26);
            assert("description"@.len() == 11 && "observed"@.len() == 8);
            assert("description"@.len() == 11 && "direction"@.len() == 9);
            assert("description"@.len() == 11 && "state"@.len() == 5);
            assert("description"@.len() == 11 && "messageTopic"@.len() == 12);
            assert("category"@.len() == 8 && "modelType"@.len() == 9);
            assert("category"@.len() == 8 && "idShort"@.len() == 7);
            assert("category"@.len() == 8 && "displayName"@.len() == 11);
            assert("category"@.len() == 8 && "description"@.len() == 11);
            assert("category"@.len() == 8 && "extensions"@.len() == 10);
            assert("category"@.len() == 8 && "semanticId"@.len() == 10);
            assert("category"@.len() == 8 && "supplementalSemanticIds"@.len() == 23);
            assert("category"@.len() == 8 && "qualifiers"@.len() == 10);
            assert("category"@.len() == 8 && "embeddedDataSpecifications"@.len() == 26);
            assert("category"@[0] != "observed"@[0]);
            assert("category"@.len() == 8 && "direction"@.len() == 9);
            assert("category"@.len() == 8 && "state"@.len() == 5);
            assert("category"@.len() == 8 && "messageTopic"@.len() == 12);
            assert("extensions"@.len() == 10 && "modelType"@.len() == 9);
            assert("extensions"@.len() == 10 && "idShort"@.len() == 7);
            assert("extensions"@.len() == 10 && "displayName"@.len() == 11);
            assert("extensions"@.len() == 10 && "description"@.len() == 11);
            assert("extensions"@.len() == 10 && "category"@.len() == 8);
            assert("extensions"@[0] != "semanticId"@[0]);
            assert("extensions"@.len() == 10 && "supplementalSemanticIds"@.len() == 23);
            assert("extensions"@[0] != "qualifiers"@[0]);
            assert("extensions"@.len() == 10 && "embeddedDataSpecifications"@.len() == 26);
            assert("extensions"@.len() == 10 && "observed"@.len() == 8);
            assert("extensions"@.len() == 10 && "direction"@.len() == 9);
            assert("extensions"@.len() == 10 && "state"@.len() == 5);
            assert("extensions"@.len() == 10 && "messageTopic"@.len() == 12);
            assert("semanticId"@.len() == 10 && "modelType"@.len() == 9);
            assert("semanticId"@.len() == 10 && "idShort"@.len() == 7);
            assert("semanticId"@.len() == 10 && "displayName"@.len() == 11);
            assert("semanticId"@.len() == 10 && "description"@.len() == 11);
            assert("semanticId"@.len() == 10 && "category"@.len() == 8);
            assert("semanticId"@[0] != "extensions"@[0]);
            assert("semanticId"@.len() == 10 && "supplementalSemanticIds"@.len() == 23);
            assert("semanticId"@[0] != "qualifiers"@[0]);
            assert("semanticId"@.len() == 10 && "embeddedDataSpecifications"@.len() == 26);
            assert("semanticId"@.len() == 10 && "observed"@.len() == 8);
            assert("semanticId"@.len() == 10 && "direction"@.len() == 9);
            assert("semanticId"@.len() == 10 && "state"@.len() == 5);
            assert("semanticId"@.len() == 10 && "messageTopic"@.len() == 12);
            assert("supplementalSemanticIds"@.len() == 23 && "modelType"@.len() == 9);
            assert("supplementalSemanticIds"@.len() == 23 && "idShort"@.len() == 7);
            assert("supplementalSemanticIds"@.len() == 23 && "displayName"@.len() == 11);
            assert("supplementalSemanticIds"@.len() == 23 && "description"@.len() == 11);
            assert("supplementalSemanticIds"@.len() == 23 && "category"@.len() == 8);
            assert("supplementalSemanticIds"@.len() == 23 && "extensions"@.len() == 10);
            assert("supplementalSemanticIds"@.len() == 23 && "semanticId"@.len() == 10);
            assert("supplementalSemanticIds"@.len() == 23 && "qualifiers"@.len() == 10);
            assert("supplementalSemanticIds"@.len() == 23 && "embeddedDataSpecifications"@.len() == 26);
            assert("supplementalSemanticIds"@.len() == 23 && "observed"@.len() == 8);
            assert("supplementalSemanticIds"@.len() == 23 && "direction"@.len() == 9);
            assert("supplementalSemanticIds"@.len() == 23 && "state"@.len() == 5);
            assert("supplementalSemanticIds"@.len() == 23 && "messageTopic"@.len() == 12);
            assert("qualifiers"@.len() == 10 && "modelType"@.len() == 9);
            assert("qualifiers"@.len() == 10 && "idShort"@.len() == 7);
            assert("qualifiers"@.len() == 10 && "displayName"@.len() == 11);
            assert("qualifiers"@.len() == 10 && "description"@.len() == 11);
            assert("qualifiers"@.len() == 10 && "category"@.len() == 8);
            assert("qualifiers"@[0] != "extensions"@[0]);
            assert("qualifiers"@[0] != "semanticId"@[0]);
            assert("qualifiers"@.len() == 10 && "supplementalSemanticIds"@.len() == 23);
            assert("qualifiers"@.len() == 10 && "embeddedDataSpecifications"@.len() == 26);
            assert("qualifiers"@.len() == 10 && "observed"@.len() == 8);
            assert("qualifiers"@.len() == 10 && "direction"@.len() == 9);
            assert("qualifiers"@.len() == 10 && "state"@.len() == 5);
            assert("qualifiers"@.len() == 10 && "messageTopic"@.len() == 12);
            assert("embeddedDataSpecifications"@.len() == 26 && "modelType"@.len() == 9);
            assert("embeddedDataSpecifications"@.len() == 26 && "idShort"@.len() == 7);
            assert("embeddedDataSpecifications"@.len() == 26 && "displayName"@.len() == 11);
            assert("embeddedDataSpecifications"@.len() == 26 && "description"@.len() == 11);
            assert("embeddedDataSpecifications"@.len() == 26 && "category"@.len() == 8);
            assert("embeddedDataSpecifications"@.len() == 26 && "extensions"@.len() == 10);
            assert("embeddedDataSpecifications"@.len() == 26 && "semanticId"@.len() == 10);
            assert("embeddedDataSpecifications"@.len() == 26 && "supplementalSemanticIds"@.len() == 23);
            assert("embeddedDataSpecifications"@.len() == 26 && "qualifiers"@.len() == 10);
            assert("embeddedDataSpecifications"@.len() == 26 && "observed"@.len() == 8);
            assert("embeddedDataSpecifications"@.len() == 26 && "direction"@.len() == 9);
            assert("embeddedDataSpecifications"@.len() == 26 && "state"@.len() == 5);
            assert("embeddedDataSpecifications"@.len() == 26 && "messageTopic"@.len() == 12);
            assert("observed"@.len() == 8 && "modelType"@.len() == 9);
            assert("observed"@.len() == 8 && "idShort"@.len() == 7);
            assert("observed"@.len() == 8 && "displayName"@.len() == 11);
            assert("observed"@.len() == 8 && "description"@.len() == 11);
            assert("observed"@[0] != "category"@[0]);
            assert("observed"@.len() == 8 && "extensions"@.len() == 10);
            assert("observed"@.len() == 8 && "semanticId"@.len() == 10);
            assert("observed"@.len() == 8 && "supplementalSemanticIds"@.len() == 23);
            assert("observed"@.len() == 8 && "qualifiers"@.len() == 10);
            assert("observed"@.len() == 8 && "embeddedDataSpecifications"@.len() == 26);
            assert("observed"@.len() == 8 && "direction"@.len() == 9);
            assert("observed"@.len() == 8 && "state"@.len() == 5);
            assert("observed"@.len() == 8 && "messageTopic"@.len() == 12);
            assert("direction"@[0] != "modelType"@[0]);
            assert("direction"@.len() == 9 && "idShort"@.len() == 7);
            assert("direction"@.len() == 9 && "displayName"@.len() == 11);
            assert("direction"@.len() == 9 && "description"@.len() == 11);
            assert("direction"@.len() == 9 && "category"@.len() == 8);
            assert("direction"@.len() == 9 && "extensions"@.len() == 10);
            assert("direction"@.len() == 9 && "semanticId"@.len() == 10);
            assert("direction"@.len() == 9 && "supplementalSemanticIds"@.len() == 23);
            assert("direction"@.len() == 9 && "qualifiers"@.len() == 10);
            assert("direction"@.len() == 9 && "embeddedDataSpecifications"@.len() == 26);
            assert("direction"@.len() == 9 && "observed"@.len() == 8);
            assert("direction"@.len() == 9 && "state"@.len() == 5);
            assert("direction"@.len() == 9 && "messageTopic"@.len() == 12);
            assert("state"@.len() == 5 && "modelType"@.len() == 9);
            assert("state"@.len() == 5 && "idShort"@.len() == 7);
            assert("state"@.len() == 5 && "displayName"@.len() == 11);
            assert("state"@.len() == 5 && "description"@.len() == 11);
            assert("state"@.len() == 5 && "category"@.len() == 8);
            assert("state"@.len() == 5 && "extensions"@.len() == 10);
            assert("state"@.len() == 5 && "semanticId"@.len() == 10);
            assert("state"@.len() == 5 && "supplementalSemanticIds"@.len() == 23);
            assert("state"@.len() == 5 && "qualifiers"@.len() == 10);
            assert("state"@.len() == 5 && "embeddedDataSpecifications"@.len() == 26);
            assert("state"@.len() == 5 && "observed"@.len() == 8);
            assert("state"@.len() == 5 && "direction"@.len() == 9);
            assert("state"@.len() == 5 && "messageTopic"@.len() == 12);
            assert("messageTopic"@.len() == 12 && "modelType"@.len() == 9);
            assert("messageTopic"@.len() == 12 && "idShort"@.len() == 7);
            assert("messageTopic"@.len() == 12 && "displayName"@.len() == 11);
            assert("messageTopic"@.len() == 12 && "description"@.len() == 11);
            assert("messageTopic"@.len() == 12 && "category"@.len() == 8);
            assert("messageTopic"@.len() == 12 && "extensions"@.len() == 10);
            assert("messageTopic"@.len() == 12 && "semanticId"@.len() == 10);
            assert("messageTopic"@.len() == 12 && "supplementalSemanticIds"@.len() == 23);
            assert("messageTopic"@.len() == 12 && "qualifiers"@.len() == 10);
            assert("messageTopic"@.len() == 12 && "embeddedDataSpecifications"@.len() == 26);
            assert("messageTopic"@.len() == 12 && "observed"@.len() == 8);
            assert("messageTopic"@.len() == 12 && "direction"@.len() == 9);
            assert("messageTopic"@.len() == 12 && "state"@.len() == 5);
        }
        let mut fs: Vec<(String, Json)> = Vec::new();
        let ghost prev = fs@;
        fs.push(field("modelType", Json::Str("BasicEventElement".to_string())));
        proof {
            lemma_names_within_empty(prev, |n: Seq<char>| n == "modelType"@);
            if true {
                assert(fs@ == prev.push(fs@.last()));
                lemma_names_within_push(prev, fs@.last(), |n: Seq<char>| n == "modelType"@);
                lemma_lookup_push(prev, fs@.last(), "modelType"@);
            }
        }
        let ghost prev = fs@;
        let mut part = self.submodel_element_fields.encode_members();
        let ghost sp = part@;
        fs.append(&mut part);
        proof {
            lemma_names_within_concat(prev, sp, |n: Seq<char>| n == "modelType"@, |n: Seq<char>| submodel_element_fields_name(n), |n: Seq<char>| n == "modelType"@ || submodel_element_fields_name(n));
            lemma_lookup_concat(prev, sp, "modelType"@);
            lemma_lookup_outside(sp, |n: Seq<char>| submodel_element_fields_name(n), "modelType"@);
            lemma_lookup_concat(prev, sp, "idShort"@);
            lemma_lookup_outside(prev, |n: Seq<char>| n == "modelType"@, "idShort"@);
            lemma_lookup_concat(prev, sp, "displayName"@);
            lemma_lookup_outside(prev, |n: Seq<char>| n == "modelType"@, "displayName"@);
            lemma_lookup_concat(prev, sp, "description"@);
            lemma_lookup_outside(prev, |n: Seq<char>| n == "modelType"@, "description"@);
            lemma_lookup_concat(prev, sp, "category"@);
            lemma_lookup_outside(prev, |n: Seq<char>| n == "modelType"@, "category"@);
            lemma_lookup_concat(prev, sp, "extensions"@);
            lemma_lookup_outside(prev, |n: Seq<char>| n == "modelType"@, "extensions"@);
            lemma_lookup_concat(prev, sp, "semanticId"@);
            lemma_lookup_outside(prev, |n: Seq<char>| n == "modelType"@, "semanticId"@);
            lemma_lookup_concat(prev, sp, "supplementalSemanticIds"@);
            lemma_lookup_outside(prev, |n: Seq<char>| n == "modelType"@, "supplementalSemanticIds"@);
            lemma_lookup_concat(prev, sp, "qualifiers"@);
            lemma_lookup_outside(prev, |n: Seq<char>| n == "modelType"@, "qualifiers"@);
            lemma_lookup_concat(prev, sp, "embeddedDataSpecifications"@);
            lemma_lookup_outside(prev, |n: Seq<char>| n == "modelType"@, "embeddedDataSpecifications"@);
        }
        let ghost prev = fs@;
        push_req(&mut fs, "observed", &self.observed);
        proof {
            lemma_names_within_weaken(prev, |n: Seq<char>| n == "modelType"@ || submodel_element_fields_name(n), |n: Seq<char>| n == "modelType"@ || submodel_element_fields_name(n) || n == "observed"@);
            lemma_lookup_outside(prev, |n: Seq<char>| n == "modelType"@ || submodel_element_fields_name(n), "observed"@);
            if true {
                assert(fs@ == prev.push(fs@.last()));
                lemma_names_within_push(prev, fs@.last(), |n: Seq<char>| n == "modelType"@ || submodel_element_fields_name(n) || n == "observed"@);
                lemma_lookup_push(prev, fs@.last(), "modelType"@);
                lemma_lookup_push(prev, fs@.last(), "idShort"@);
                lemma_lookup_push(prev, fs@.last(), "displayName"@);
                lemma_lookup_push(prev, fs@.last(), "description"@);
                lemma_lookup_push(prev, fs@.last(), "category"@);
                lemma_lookup_push(prev, fs@.last(), "extensions"@);
                lemma_lookup_push(prev, fs@.last(), "semanticId"@);
                lemma_lookup_push(prev, fs@.last(), "supplementalSemanticIds"@);
                lemma_lookup_push(prev, fs@.last(), "qualifiers"@);
                lemma_lookup_push(prev, fs@.last(), "embeddedDataSpecifications"@);
                lemma_lookup_push(prev, fs@.last(), "observed"@);
            }
        }
        let ghost prev = fs@;
        push_req(&mut fs, "direction", &self.direction);
        proof {
            lemma_names_within_weaken(prev, |n: Seq<char>| n == "modelType"@ || submodel_element_fields_name(n) || n == "observed"@, |n: Seq<char>| n == "modelType"@ || submodel_element_fields_name(n) || n == "observed"@ || n == "direction"@);
            lemma_lookup_outside(prev, |n: Seq<char>| n == "modelType"@ || submodel_element_fields_name(n) || n == "observed"@, "direction"@);
            if true {
                assert(fs@ == prev.push(fs@.last()));
                lemma_names_within_push(prev, fs@.last(), |n: Seq<char>| n == "modelType"@ || submodel_element_fields_name(n) || n == "observed"@ || n == "direction"@);
                lemma_lookup_push(prev, fs@.last(), "modelType"@);
                lemma_lookup_push(prev, fs@.last(), "idShort"@);
                lemma_lookup_push(prev, fs@.last(), "displayName"@);
                lemma_lookup_push(prev, fs@.last(), "description"@);
                lemma_lookup_push(prev, fs@.last(), "category"@);
                lemma_lookup_push(prev, fs@.last(), "extensions"@);
                lemma_lookup_push(prev, fs@.last(), "semanticId"@);
                lemma_lookup_push(prev, fs@.last(), "supplementalSemanticIds"@);
                lemma_lookup_push(prev, fs@.last(), "qualifiers"@);
                lemma_lookup_push(prev, fs@.last(), "embeddedDataSpecifications"@);
                lemma_lookup_push(prev, fs@.last(), "observed"@);
                lemma_lookup_push(prev, fs@.last(), "direction"@);
            }
        }
        let ghost prev = fs@;
        push_req(&mut fs, "state", &self.state);
        proof {
            lemma_names_within_weaken(prev, |n: Seq<char>| n == "modelType"@ || submodel_element_fields_name(n) || n == "observed"@ || n == "direction"@, |n: Seq<char>| n == "modelType"@ || submodel_element_fields_name(n) || n == "observed"@ || n == "direction"@ || n == "state"@);
            lemma_lookup_outside(prev, |n: Seq<char>| n == "modelType"@ || submodel_element_fields_name(n) || n == "observed"@ || n == "direction"@, "state"@);
            if true {
                assert(fs@ == prev.push(fs@.last()));
                lemma_names_within_push(prev, fs@.last(), |n: Seq<char>| n == "modelType"@ || submodel_element_fields_name(n) || n == "observed"@ || n == "direction"@ || n == "state"@);
                lemma_lookup_push(prev, fs@.last(), "modelType"@);
                lemma_lookup_push(prev, fs@.last(), "idShort"@);
                lemma_lookup_push(prev, fs@.last(), "displayName"@);
                lemma_lookup_push(prev, fs@.last(), "description"@);
                lemma_lookup_push(prev, fs@.last(), "category"@);
                lemma_lookup_push(prev, fs@.last(), "extensions"@);
                lemma_lookup_push(prev, fs@.last(), "semanticId"@);
                lemma_lookup_push(prev, fs@.last(), "supplementalSemanticIds"@);
                lemma_lookup_push(prev, fs@.last(), "qualifiers"@);
                lemma_lookup_push(prev, fs@.last(), "embeddedDataSpecifications"@);
                lemma_lookup_push(prev, fs@.last(), "observed"@);
                lemma_lookup_push(prev, fs@.last(), "direction"@);
                lemma_lookup_push(prev, fs@.last(), "state"@);
            }
        }
        let ghost prev = fs@;
        push_opt(&mut fs, "messageTopic", &self.message_topic);
        proof {
            lemma_names_within_weaken(prev, |n: Seq<char>| n == "modelType"@ || submodel_element_fields_name(n) || n == "observed"@ || n == "direction"@ || n == "state"@, |n: Seq<char>| basic_event_element_chunk0_name(n));
            lemma_lookup_outside(prev, |n: Seq<char>| n == "modelType"@ || submodel_element_fields_name(n) || n == "observed"@ || n == "direction"@ || n == "state"@, "messageTopic"@);
            if self.message_topic is Some {
                assert(fs@ == prev.push(fs@.last()));
                lemma_names_within_push(prev, fs@.last(), |n: Seq<char>| basic_event_element_chunk0_name(n));
                lemma_lookup_push(prev, fs@.last(), "modelType"@);
                lemma_lookup_push(prev, fs@.last(), "idShort"@);
                lemma_lookup_push(prev, fs@.last(), "displayName"@);
                lemma_lookup_push(prev, fs@.last(), "description"@);
                lemma_lookup_push(prev, fs@.last(), "category"@);
                lemma_lookup_push(prev, fs@.last(), "extensions"@);
                lemma_lookup_push(prev, fs@.last(), "semanticId"@);
                lemma_lookup_push(prev, fs@.last(), "supplementalSemanticIds"@);
                lemma_lookup_push(prev, fs@.last(), "qualifiers"@);
                lemma_lookup_push(prev, fs@.last(), "embeddedDataSpecifications"@);
                lemma_lookup_push(prev, fs@.last(), "observed"@);
                lemma_lookup_push(prev, fs@.last(), "direction"@);
                lemma_lookup_push(prev, fs@.last(), "state"@);
                lemma_lookup_push(prev, fs@.last(), "messageTopic"@);
            }
        }
        fs
    }

    /// Writes the members of encoding step 1, absent ones left out.
    fn encode_step1(&self) -> (r: Vec<(String, Json)>)
        ensures
            names_within(r@, |n: Seq<char>| basic_event_element_chunk1_name(n)),
            basic_event_element_chunk1_lookups(*self, r@),
    {
        proof {
            reveal_strlit("messageBroker");
            reveal_strlit("lastUpdate");
            reveal_strlit("minInterval");
            reveal_strlit("maxInterval");
            assert("messageBroker"@.len() == 13 && "lastUpdate"@.len() == 10);
            assert("messageBroker"@.len() == 13 && "minInterval"@.len() == 11);
            assert("messageBroker"@.len() == 13 && "maxInterval"@.len() == 11);
            assert("lastUpdate"@.len() == 10 && "messageBroker"@.len() == 13);
            assert("lastUpdate"@.len() == 10 && "minInterval"@.len() == 11);
            assert("lastUpdate"@.len() == 10 && "maxInterval"@.len() == 11);
            assert("minInterval"@.len() == 11 && "messageBroker"@.len() == 13);
            assert("minInterval"@.len() == 11 && "lastUpdate"@.len() == 10);
            assert("minInterval"@[1] != "maxInterval"@[1]);
            assert("maxInterval"@.len() == 11 && "messageBroker"@.len() == 13);
            assert("maxInterval"@.len() == 11 && "lastUpdate"@.len() == 10);
            assert("maxInterval"@[1] != "minInterval"@[1]);
        }
        let mut fs: Vec<(String, Json)> = Vec::new();
        let ghost prev = fs@;
        push_opt(&mut fs, "messageBroker", &self.message_broker);
        proof {
            lemma_names_within_empty(prev, |n: Seq<char>| n == "messageBroker"@);
            if self.message_broker is Some {
                assert(fs@ == prev.push(fs@.last()));
                lemma_names_within_push(prev, fs@.last(), |n: Seq<char>| n == "messageBroker"@);
                lemma_lookup_push(prev, fs@.last(), "messageBroker"@);
            }
        }
        let ghost prev = fs@;
        push_opt(&mut fs, "lastUpdate", &self.last_update);
        proof {
            lemma_names_within_weaken(prev, |n: Seq<char>| n == "messageBroker"@, |n: Seq<char>| n == "messageBroker"@ || n == "lastUpdate"@);
            lemma_lookup_outside(prev, |n: Seq<char>| n == "messageBroker"@, "lastUpdate"@);
            if self.last_update is Some {
                assert(fs@ == prev.push(fs@.last()));
                lemma_names_within_push(prev, fs@.last(), |n: Seq<char>| n == "messageBroker"@ || n == "lastUpdate"@);
                lemma_lookup_push(prev, fs@.last(), "messageBroker"@);
                lemma_lookup_push(prev, fs@.last(), "lastUpdate"@);
            }
        }
        let ghost prev = fs@;
        push_opt(&mut fs, "minInterval", &self.min_interval);
        proof {
            lemma_names_within_weaken(prev, |n: Seq<char>| n == "messageBroker"@ || n == "lastUpdate"@, |n: Seq<char>| n == "messageBroker"@ || n == "lastUpdate"@ || n == "minInterval"@);
            lemma_lookup_outside(prev, |n: Seq<char>| n == "messageBroker"@ || n == "lastUpdate"@, "minInterval"@);
            if self.min_interval is Some {
                assert(fs@ == prev.push(fs@.last()));
                lemma_names_within_push(prev, fs@.last(), |n: Seq<char>| n == "messageBroker"@ || n == "lastUpdate"@ || n == "minInterval"@);
                lemma_lookup_push(prev, fs@.last(), "messageBroker"@);
                lemma_lookup_push(prev, fs@.last(), "lastUpdate"@);
                lemma_lookup_push(prev, fs@.last(), "minInterval"@);
            }
        }
        let ghost prev = fs@;
        push_opt(&mut fs, "maxInterval", &self.max_interval);
        proof {
            lemma_names_within_weaken(prev, |n: Seq<char>| n == "messageBroker"@ || n == "lastUpdate"@ || n == "minInterval"@, |n: Seq<char>| basic_event_element_chunk1_name(n));
            lemma_lookup_outside(prev, |n: Seq<char>| n == "messageBroker"@ || n == "lastUpdate"@ || n == "minInterval"@, "maxInterval"@);
            if self.max_interval is Some {
                assert(fs@ == prev.push(fs@.last()));
                lemma_names_within_push(prev, fs@.last(), |n: Seq<char>| basic_event_element_chunk1_name(n));
                lemma_lookup_push(prev, fs@.last(), "messageBroker"@);
                lemma_lookup_push(prev, fs@.last(), "lastUpdate"@);
                lemma_lookup_push(prev, fs@.last(), "minInterval"@);
                lemma_lookup_push(prev, fs@.last(), "maxInterval"@);
            }
        }
        fs
    }

    /// Writes the members of the value, absent ones left out.
    pub fn encode_members(&self) -> (r: Vec<(String, Json)>)
        ensures
            basic_event_element_encoded(*self, r@),
    {
        proof {
            reveal_strlit("modelType");
            reveal_strlit("idShort");
            reveal_strlit("displayName");
            reveal_strlit("description");
            reveal_strlit("category");
            reveal_strlit("extensions");
            reveal_strlit("semanticId");
            reveal_strlit("supplementalSemanticIds");
            reveal_strlit("qualifiers");
            reveal_strlit("embeddedDataSpecifications");
            reveal_strlit("observed");
            reveal_strlit("direction");
            reveal_strlit("state");
            reveal_strlit("messageTopic");
            reveal_strlit("messageBroker");
            reveal_strlit("lastUpdate");
            reveal_strlit("minInterval");
            reveal_strlit("maxInterval");
            assert("modelType"@.len() == 9 && "idShort"@.len() == 7);
            assert("modelType"@.len() == 9 && "displayName"@.len() == 11);
            assert("modelType"@.len() == 9 && "description"@.len() == 11);
            assert("modelType"@.len() == 9 && "category"@.len() == 8);
            assert("modelType"@.len() == 9 && "extensions"@.len() == 10);
            assert("modelType"@.len() == 9 && "semanticId"@.len() == 10);
            assert("modelType"@.len() == 9 && "supplementalSemanticIds"@.len() == 23);
            assert("modelType"@.len() == 9 && "qualifiers"@.len() == 10);
            assert("modelType"@.len() == 9 && "embeddedDataSpecifications"@.len() == 26);
            assert("modelType"@.len() == 9 && "observed"@.len() == 8);
            assert("modelType"@[0] != "direction"@[0]);
            assert("modelType"@.len() == 9 && "state"@.len() == 5);
            assert("modelType"@.len() == 9 && "messageTopic"@.len() == 12);
            assert("modelType"@.len() == 9 && "messageBroker"@.len() == 13);
            assert("modelType"@.len() == 9 && "lastUpdate"@.len() == 10);
            assert("modelType"@.len() == 9 && "minInterval"@.len() == 11);
            assert("modelType"@.len() == 9 && "maxInterval"@.len() == 11);
            assert("idShort"@.len() == 7 && "modelType"@.len() == 9);
            assert("idShort"@.len() == 7 && "displayName"@.len() == 11);
            assert("idShort"@.len() == 7 && "description"@.len() == 11);
            assert("idShort"@.len() == 7 && "category"@.len() == 8);
            assert("idShort"@.len() == 7 && "extensions"@.len() == 10);
            assert("idShort"@.len() == 7 && "semanticId"@.len() == 10);
            assert("idShort"@.len() == 7 && "supplementalSemanticIds"@.len() == 23);
            assert("idShort"@.len() == 7 && "qualifiers"@.len() == 10);
            assert("idShort"@.len() == 7 && "embeddedDataSpecifications"@.len() == 26);
            assert("idShort"@.len() == 7 && "observed"@.len() == 8);
            assert("idShort"@.len() == 7 && "direction"@.len() == 9);
            assert("idShort"@.len() == 7 && "state"@.len() == 5);
            assert("idShort"@.len() == 7 && "messageTopic"@.len() == 12);
            assert("idShort"@.len() == 7 && "messageBroker"@.len() == 13);
            assert("idShort"@.len() == 7 && "lastUpdate"@.len() == 10);
            assert("idShort"@.len() == 7 && "minInterval"@.len() == 11);
            assert("idShort"@.len() == 7 && "maxInterval"@.len() == 11);
            assert("displayName"@.len() == 11 && "modelType"@.len() == 9);
            assert("displayName"@.len() == 11 && "idShort"@.len() == 7);
            assert("displayName"@[1] != "description"@[1]);
            assert("displayName"@.len() == 11 && "category"@.len() == 8);
            assert("displayName"@.len() == 11 && "extensions"@.len() == 10);
            assert("displayName"@.len() == 11 && "semanticId"@.len() == 10);
            assert("displayName"@.len() == 11 && "supplementalSemanticIds"@.len() == 23);
            assert("displayName"@.len() == 11 && "qualifiers"@.len() == 10);
            assert("displayName"@.len() == 11 && "embeddedDataSpecifications"@.len() == 26);
            assert("displayName"@.len() == 11 && "observed"@.len() == 8);
            assert("displayName"@.len() == 11 && "direction"@.len() == 9);
            assert("displayName"@.len() == 11 && "state"@.len() == 5);
            assert("displayName"@.len() == 11 && "messageTopic"@.len() == 12);
            assert("displayName"@.len() == 11 && "messageBroker"@.len() == 13);
            assert("displayName"@.len() == 11 && "lastUpdate"@.len() == 10);
            assert("displayName"@[0] != "minInterval"@[0]);
            assert("displayName"@[0] != "maxInterval"@[0]);
            assert("description"@.len() == 11 && "modelType"@.len() == 9);
            assert("description"@.len() == 11 && "idShort"@.len() == 7);
            assert("description"@[1] != "displayName"@[1]);
            assert("description"@.len() == 11 && "category"@.len() == 8);
            assert("description"@.len() == 11 && "extensions"@.len() == 10);
            assert("description"@.len() == 11 && "semanticId"@.len() == 10);
            assert("description"@.len() == 11 && "supplementalSemanticIds"@.len() == 23);
            assert("description"@.len() == 11 && "qualifiers"@.len() == 10);
            assert("description"@.len() == 11 && "embeddedDataSpecifications"@.len() == 26);
            assert("description"@.len() == 11 && "observed"@.len() == 8);
            assert("description"@.len() == 11 && "direction"@.len() == 9);
            assert("description"@.len() == 11 && "state"@.len() == 5);
            assert("description"@.len() == 11 && "messageTopic"@.len() == 12);
            assert("description"@.len() == 11 && "messageBroker"@.len() == 13);
            assert("description"@.len() == 11 && "lastUpdate"@.len() == 10);
            assert("description"@[0] != "minInterval"@[0]);
            assert("description"@[0] != "maxInterval"@[0]);
            assert("category"@.len() == 8 && "modelType"@.len() == 9);
            assert("category"@.len() == 8 && "idShort"@.len() == 7);
            assert("category"@.len() == 8 && "displayName"@.len() == 11);
            assert("category"@.len() == 8 && "description"@.len() == 11);
            assert("category"@.len() == 8 && "extensions"@.len() == 10);
            assert("category"@.len() == 8 && "semanticId"@.len() == 10);
            assert("category"@.len() == 8 && "supplementalSemanticIds"@.len() == 23);
            assert("category"@.len() == 8 && "qualifiers"@.len() == 10);
            assert("category"@.len() == 8 && "embeddedDataSpecifications"@.len() == 26);
            assert("category"@[0] != "observed"@[0]);
            assert("category"@.len() == 8 && "direction"@.len() == 9);
            assert("category"@.len() == 8 && "state"@.len() == 5);
            assert("category"@.len() == 8 && "messageTopic"@.len() == 12);
            assert("category"@.len() == 8 && "messageBroker"@.len() == 13);
            assert("category"@.len() == 8 && "lastUpdate"@.len() == 10);
            assert("category"@.len() == 8 && "minInterval"@.len() == 11);
            assert("category"@.len() == 8 && "maxInterval"@.len() == 11);
            assert("extensions"@.len() == 10 && "modelType"@.len() == 9);
            assert("extensions"@.len() == 10 && "idShort"@.len() == 7);
            assert("extensions"@.len() == 10 && "displayName"@.len() == 11);
            assert("extensions"@.len() == 10 && "description"@.len() == 11);
            assert("extensions"@.len() == 10 && "category"@.len() == 8);
            assert("extensions"@[0] != "semanticId"@[0]);
            assert("extensions"@.len() == 10 && "supplementalSemanticIds"@.len() == 23);
            assert("extensions"@[0] != "qualifiers"@[0]);
            assert("extensions"@.len() == 10 && "embeddedDataSpecifications"@.len() == 26);
            assert("extensions"@.len() == 10 && "observed"@.len() == 8);
            assert("extensions"@.len() == 10 && "direction"@.len() == 9);
            assert("extensions"@.len() == 10 && "state"@.len() == 5);
            assert("extensions"@.len() == 10 && "messageTopic"@.len() == 12);
            assert("extensions"@.len() == 10 && "messageBroker"@.len() == 13);
            assert("extensions"@[0] != "lastUpdate"@[0]);
            assert("extensions"@.len() == 10 && "minInterval"@.len() == 11);
            assert("extensions"@.len() == 10 && "maxInterval"@.len() == 11);
            assert("semanticId"@.len() == 10 && "modelType"@.len() == 9);
            assert("semanticId"@.len() == 10 && "idShort"@.len() == 7);
            assert("semanticId"@.len() == 10 && "displayName"@.len() == 11);
            assert("semanticId"@.len() == 10 && "description"@.len() == 11);
            assert("semanticId"@.len() == 10 && "category"@.len() == 8);
            assert("semanticId"@[0] != "extensions"@[0]);
            assert("semanticId"@.len() == 10 && "supplementalSemanticIds"@.len() == 23);
            assert("semanticId"@[0] != "qualifiers"@[0]);
            assert("semanticId"@.len() == 10 && "embeddedDataSpecifications"@.len() == 26);
            assert("semanticId"@.len() == 10 && "observed"@.len() == 8);
            assert("semanticId"@.len() == 10 && "direction"@.len() == 9);
            assert("semanticId"@.len() == 10 && "state"@.len() == 5);
            assert("semanticId"@.len() == 10 && "messageTopic"@.len() == 12);
            assert("semanticId"@.len() == 10 && "messageBroker"@.len() == 13);
            assert("semanticId"@[0] != "lastUpdate"@[0]);
            assert("semanticId"@.len() == 10 && "minInterval"@.len() == 11);
            assert("semanticId"@.len() == 10 && "maxInterval"@.len() == 11);
            assert("supplementalSemanticIds"@.len() == 23 && "modelType"@.len() == 9);
            assert("supplementalSemanticIds"@.len() == 23 && "idShort"@.len() == 7);
            assert("supplementalSemanticIds"@.len() == 23 && "displayName"@.len() == 11);
            assert("supplementalSemanticIds"@.len() == 23 && "description"@.len() == 11);
            assert("supplementalSemanticIds"@.len() == 23 && "category"@.len() == 8);
            assert("supplementalSemanticIds"@.len() == 23 && "extensions"@.len() == 10);
            assert("supplementalSemanticIds"@.len() == 23 && "semanticId"@.len() == 10);
            assert("supplementalSemanticIds"@.len() == 23 && "qualifiers"@.len() == 10);
            assert("supplementalSemanticIds"@.len() == 23 && "embeddedDataSpecifications"@.len() == 26);
            assert("supplementalSemanticIds"@.len() == 23 && "observed"@.len() == 8);
            assert("supplementalSemanticIds"@.len() == 23 && "direction"@.len() == 9);
            assert("supplementalSemanticIds"@.len() == 23 && "state"@.len() == 5);
            assert("supplementalSemanticIds"@.len() == 23 && "messageTopic"@.len() == 12);
            assert("supplementalSemanticIds"@.len() == 23 && "messageBroker"@.len() == 13);
            assert("supplementalSemanticIds"@.len() == 23 && "lastUpdate"@.len() == 10);
            assert("supplementalSemanticIds"@.len() == 23 && "minInterval"@.len() == 11);
            assert("supplementalSemanticIds"@.len() == 23 && "maxInterval"@.len() == 11);
            assert("qualifiers"@.len() == 10 && "modelType"@.len() == 9);
            assert("qualifiers"@.len() == 10 && "idShort"@.len() == 7);
            assert("qualifiers"@.len() == 10 && "displayName"@.len() == 11);
            assert("qualifiers"@.len() == 10 && "description"@.len() == 11);
            assert("qualifiers"@.len() == 10 && "category"@.len() == 8);
            assert("qualifiers"@[0] != "extensions"@[0]);
            assert("qualifiers"@[0] != "semanticId"@[0]);
            assert("qualifiers"@.len() == 10 && "supplementalSemanticIds"@.len() == 23);
            assert("qualifiers"@.len() == 10 && "embeddedDataSpecifications"@.len() == 26);
            assert("qualifiers"@.len() == 10 && "observed"@.len() == 8);
            assert("qualifiers"@.len() == 10 && "direction"@.len() == 9);
            assert("qualifiers"@.len() == 10 && "state"@.len() == 5);
            assert("qualifiers"@.len() == 10 && "messageTopic"@.len() == 12);
            assert("qualifiers"@.len() == 10 && "messageBroker"@.len() == 13);
            assert("qualifiers"@[0] != "lastUpdate"@[0]);
            assert("qualifiers"@.len() == 10 && "minInterval"@.len() == 11);
            assert("qualifiers"@.len() == 10 && "maxInterval"@.len() == 11);
            assert("embeddedDataSpecifications"@.len() == 26 && "modelType"@.len() == 9);
            assert("embeddedDataSpecifications"@.len() == 26 && "idShort"@.len() == 7);
            assert("embeddedDataSpecifications"@.len() == 26 && "displayName"@.len() == 11);
            assert("embeddedDataSpecifications"@.len() == 26 && "description"@.len() == 11);
            assert("embeddedDataSpecifications"@.len() == 26 && "category"@.len() == 8);
            assert("embeddedDataSpecifications"@.len() == 26 && "extensions"@.len() == 10);
            assert("embeddedDataSpecifications"@.len() == 26 && "semanticId"@.len() == 10);
            assert("embeddedDataSpecifications"@.len() == 26 && "supplementalSemanticIds"@.len() == 23);
            assert("embeddedDataSpecifications"@.len() == 26 && "qualifiers"@.len() == 10);
            assert("embeddedDataSpecifications"@.len() == 26 && "observed"@.len() == 8);
            assert("embeddedDataSpecifications"@.len() == 26 && "direction"@.len() == 9);
            assert("embeddedDataSpecifications"@.len() == 26 && "state"@.len() == 5);
            assert("embeddedDataSpecifications"@.len() == 26 && "messageTopic"@.len() == 12);
            assert("embeddedDataSpecifications"@.len() == 26 && "messageBroker"@.len() == 13);
            assert("embeddedDataSpecifications"@.len() == 26 && "lastUpdate"@.len() == 10);
            assert("embeddedDataSpecifications"@.len() == 26 && "minInterval"@.len() == 11);
            assert("embeddedDataSpecifications"@.len() == 26 && "maxInterval"@.len() == 11);
            assert("observed"@.len() == 8 && "modelType"@.len() == 9);
            assert("observed"@.len() == 8 && "idShort"@.len() == 7);
            assert("observed"@.len() == 8 && "displayName"@.len() == 11);
            assert("observed"@.len() == 8 && "description"@.len() == 11);
            assert("observed"@[0] != "category"@[0]);
            assert("observed"@.len() == 8 && "extensions"@.len() == 10);
            assert("observed"@.len() == 8 && "semanticId"@.len() == 10);
            assert("observed"@.len() == 8 && "supplementalSemanticIds"@.len() == 23);
            assert("observed"@.len() == 8 && "qualifiers"@.len() == 10);
            assert("observed"@.len() == 8 && "embeddedDataSpecifications"@.len() == 26);
            assert("observed"@.len() == 8 && "direction"@.len() == 9);
            assert("observed"@.len() == 8 && "state"@.len() == 5);
            assert("observed"@.len() == 8 && "messageTopic"@.len() == 12);
            assert("observed"@.len() == 8 && "messageBroker"@.len() == 13);
            assert("observed"@.len() == 8 && "lastUpdate"@.len() == 10);
            assert("observed"@.len() == 8 && "minInterval"@.len() == 11);
            assert("observed"@.len() == 8 && "maxInterval"@.len() == 11);
            assert("direction"@[0] != "modelType"@[0]);
            assert("direction"@.len() == 9 && "idShort"@.len() == 7);
            assert("direction"@.len() == 9 && "displayName"@.len() == 11);
            assert("direction"@.len() == 9 && "description"@.len() == 11);
            assert("direction"@.len() == 9 && "category"@.len() == 8);
            assert("direction"@.len() == 9 && "extensions"@.len() == 10);
            assert("direction"@.len() == 9 && "semanticId"@.len() == 10);
            assert("direction"@.len() == 9 && "supplementalSemanticIds"@.len() == 23);
            assert("direction"@.len() == 9 && "qualifiers"@.len() == 10);
            assert("direction"@.len() == 9 && "embeddedDataSpecifications"@.len() == 26);
            assert("direction"@.len() == 9 && "observed"@.len() == 8);
            assert("direction"@.len() == 9 && "state"@.len() == 5);
            assert("direction"@.len() == 9 && "messageTopic"@.len() == 12);
            assert("direction"@.len() == 9 && "messageBroker"@.len() == 13);
            assert("direction"@.len() == 9 && "lastUpdate"@.len() == 10);
            assert("direction"@.len() == 9 && "minInterval"@.len() == 11);
            assert("direction"@.len() == 9 && "maxInterval"@.len() == 11);
            assert("state"@.len() == 5 && "modelType"@.len() == 9);
            assert("state"@.len() == 5 && "idShort"@.len() == 7);
            assert("state"@.len() == 5 && "displayName"@.len() == 11);
            assert("state"@.len() == 5 && "description"@.len() == 11);
            assert("state"@.len() == 5 && "category"@.len() == 8);
            assert("state"@.len() == 5 && "extensions"@.len() == 10);
            assert("state"@.len() == 5 && "semanticId"@.len() == 10);
            assert("state"@.len() == 5 && "supplementalSemanticIds"@.len() == 23);
            assert("state"@.len() == 5 && "qualifiers"@.len() == 10);
            assert("state"@.len() == 5 && "embeddedDataSpecifications"@.len() == 26);
            assert("state"@.len() == 5 && "observed"@.len() == 8);
            assert("state"@.len() == 5 && "direction"@.len() == 9);
            assert("state"@.len() == 5 && "messageTopic"@.len() == 12);
            assert("state"@.len() == 5 && "messageBroker"@.len() == 13);
            assert("state"@.len() == 5 && "lastUpdate"@.len() == 10);
            assert("state"@.len() == 5 && "minInterval"@.len() == 11);
            assert("state"@.len() == 5 && "maxInterval"@.len() == 11);
            assert("messageTopic"@.len() == 12 && "modelType"@.len() == 9);
            assert("messageTopic"@.len() == 12 && "idShort"@.len() == 7);
            assert("messageTopic"@.len() == 12 && "displayName"@.len() == 11);
            assert("messageTopic"@.len() == 12 && "description"@.len() == 11);
            assert("messageTopic"@.len() == 12 && "category"@.len() == 8);
            assert("messageTopic"@.len() == 12 && "extensions"@.len() == 10);
            assert("messageTopic"@.len() == 12 && "semanticId"@.len() == 10);
            assert("messageTopic"@.len() == 12 && "supplementalSemanticIds"@.len() == 23);
            assert("messageTopic"@.len() == 12 && "qualifiers"@.len() == 10);
            assert("messageTopic"@.len() == 12 && "embeddedDataSpecifications"@.len() == 26);
            assert("messageTopic"@.len() == 12 && "observed"@.len() == 8);
            assert("messageTopic"@.len() == 12 && "direction"@.len() == 9);
            assert("messageTopic"@.len() == 12 && "state"@.len() == 5);
            assert("messageTopic"@.len() == 12 && "messageBroker"@.len() == 13);
            assert("messageTopic"@.len() == 12 && "lastUpdate"@.len() == 10);
            assert("messageTopic"@.len() == 12 && "minInterval"@.len() == 11);
            assert("messageTopic"@.len() == 12 && "maxInterval"@.len() == 11);
            assert("messageBroker"@.len() == 13 && "modelType"@.len() == 9);
            assert("messageBroker"@.len() == 13 && "idShort"@.len() == 7);
            assert("messageBroker"@.len() == 13 && "displayName"@.len() == 11);
            assert("messageBroker"@.len() == 13 && "description"@.len() == 11);
            assert("messageBroker"@.len() == 13 && "category"@.len() == 8);
            assert("messageBroker"@.len() == 13 && "extensions"@.len() == 10);
            assert("messageBroker"@.len() == 13 && "semanticId"@.len() == 10);
            assert("messageBroker"@.len() == 13 && "supplementalSemanticIds"@.len() == 23);
            assert("messageBroker"@.len() == 13 && "qualifiers"@.len() == 10);
            assert("messageBroker"@.len() == 13 && "embeddedDataSpecifications"@.len() == 26);
            assert("messageBroker"@.len() == 13 && "observed"@.len() == 8);
            assert("messageBroker"@.len() == 13 && "direction"@.len() == 9);
            assert("messageBroker"@.len() == 13 && "state"@.len() == 5);
            assert("messageBroker"@.len() == 13 && "messageTopic"@.len() == 12);
            assert("messageBroker"@.len() == 13 && "lastUpdate"@.len() == 10);
            assert("messageBroker"@.len() == 13 && "minInterval"@.len() == 11);
            assert("messageBroker"@.len() == 13 && "maxInterval"@.len() == 11);
            assert("lastUpdate"@.len() == 10 && "modelType"@.len() == 9);
            assert("lastUpdate"@.len() == 10 && "idShort"@.len() == 7);
            assert("lastUpdate"@.len() == 10 && "displayName"@.len() == 11);
            assert("lastUpdate"@.len() == 10 && "description"@.len() == 11);
            assert("lastUpdate"@.len() == 10 && "category"@.len() == 8);
            assert("lastUpdate"@[0] != "extensions"@[0]);
            assert("lastUpdate"@[0] != "semanticId"@[0]);
            assert("lastUpdate"@.len() == 10 && "supplementalSemanticIds"@.len() == 23);
            assert("lastUpdate"@[0] != "qualifiers"@[0]);
            assert("lastUpdate"@.len() == 10 && "embeddedDataSpecifications"@.len() == 26);
            assert("lastUpdate"@.len() == 10 && "observed"@.len() == 8);
            assert("lastUpdate"@.len() == 10 && "direction"@.len() == 9);
            assert("lastUpdate"@.len() == 10 && "state"@.len() == 5);
            assert("lastUpdate"@.len() == 10 && "messageTopic"@.len() == 12);
            assert("lastUpdate"@.len() == 10 && "messageBroker"@.len() == 13);
            assert("lastUpdate"@.len() == 10 && "minInterval"@.len() == 11);
            assert("lastUpdate"@.len() == 10 && "maxInterval"@.len() == 11);
            assert("minInterval"@.len() == 11 && "modelType"@.len() == 9);
            assert("minInterval"@.len() == 11 && "idShort"@.len() == 7);
            assert("minInterval"@[0] != "displayName"@[0]);
            assert("minInterval"@[0] != "description"@[0]);
            assert("minInterval"@.len() == 11 && "category"@.len() == 8);
            assert("minInterval"@.len() == 11 && "extensions"@.len() == 10);
            assert("minInterval"@.len() == 11 && "semanticId"@.len() == 10);
            assert("minInterval"@.len() == 11 && "supplementalSemanticIds"@.len() == 23);
            assert("minInterval"@.len() == 11 && "qualifiers"@.len() == 10);
            assert("minInterval"@.len() == 11 && "embeddedDataSpecifications"@.len() == 26);
            assert("minInterval"@.len() == 11 && "observed"@.len() == 8);
            assert("minInterval"@.len() == 11 && "direction"@.len() == 9);
            assert("minInterval"@.len() == 11 && "state"@.len() == 5);
            assert("minInterval"@.len() == 11 && "messageTopic"@.len() == 12);
            assert("minInterval"@.len() == 11 && "messageBroker"@.len() == 13);
            assert("minInterval"@.len() == 11 && "lastUpdate"@.len() == 10);
            assert("minInterval"@[1] != "maxInterval"@[1]);
            assert("maxInterval"@.len() == 11 && "modelType"@.len() == 9);
            assert("maxInterval"@.len() == 11 && "idShort"@.len() == 7);
            assert("maxInterval"@[0] != "displayName"@[0]);
            assert("maxInterval"@[0] != "description"@[0]);
            assert("maxInterval"@.len() == 11 && "category"@.len() == 8);
            assert("maxInterval"@.len() == 11 && "extensions"@.len() == 10);
            assert("maxInterval"@.len() == 11 && "semanticId"@.len() == 10);
            assert("maxInterval"@.len() == 11 && "supplementalSemanticIds"@.len() == 23);
            assert("maxInterval"@.len() == 11 && "qualifiers"@.len() == 10);
            assert("maxInterval"@.len() == 11 && "embeddedDataSpecifications"@.len() == 26);
            assert("maxInterval"@.len() == 11 && "observed"@.len() == 8);
            assert("maxInterval"@.len() == 11 && "direction"@.len() == 9);
            assert("maxInterval"@.len() == 11 && "state"@.len() == 5);
            assert("maxInterval"@.len() == 11 && "messageTopic"@.len() == 12);
            assert("maxInterval"@.len() == 11 && "messageBroker"@.len() == 13);
            assert("maxInterval"@.len() == 11 && "lastUpdate"@.len() == 10);
            assert("maxInterval"@[1] != "minInterval"@[1]);
        }
        let mut fs: Vec<(String, Json)> = Vec::new();
        let ghost prev = fs@;
        let mut part = self.encode_step0();
        let ghost sp = part@;
        fs.append(&mut part);
        proof {
            lemma_names_within_empty(prev, |n: Seq<char>| basic_event_element_chunk0_name(n));
            lemma_names_within_concat(prev, sp, |n: Seq<char>| basic_event_element_chunk0_name(n), |n: Seq<char>| basic_event_element_chunk0_name(n), |n: Seq<char>| basic_event_element_chunk0_name(n));
            lemma_lookup_concat(prev, sp, "modelType"@);
            assert(prev.len() == 0);
            lemma_lookup_concat(prev, sp, "idShort"@);
            assert(prev.len() == 0);
            lemma_lookup_concat(prev, sp, "displayName"@);
            assert(prev.len() == 0);
            lemma_lookup_concat(prev, sp, "description"@);
            assert(prev.len() == 0);
            lemma_lookup_concat(prev, sp, "category"@);
            assert(prev.len() == 0);
            lemma_lookup_concat(prev, sp, "extensions"@);
            assert(prev.len() == 0);
            lemma_lookup_concat(prev, sp, "semanticId"@);
            assert(prev.len() == 0);
            lemma_lookup_concat(prev, sp, "supplementalSemanticIds"@);
            assert(prev.len() == 0);
            lemma_lookup_concat(prev, sp, "qualifiers"@);
            assert(prev.len() == 0);
            lemma_lookup_concat(prev, sp, "embeddedDataSpecifications"@);
            assert(prev.len() == 0);
            lemma_lookup_concat(prev, sp, "observed"@);
            assert(prev.len() == 0);
            lemma_lookup_concat(prev, sp, "direction"@);
            assert(prev.len() == 0);
            lemma_lookup_concat(prev, sp, "state"@);
            assert(prev.len() == 0);
            lemma_lookup_concat(prev, sp, "messageTopic"@);
            assert(prev.len() == 0);
        }
        let ghost prev = fs@;
        let mut part = self.encode_step1();
        let ghost sp = part@;
        fs.append(&mut part);
        proof {
            lemma_names_within_concat(prev, sp, |n: Seq<char>| basic_event_element_chunk0_name(n), |n: Seq<char>| basic_event_element_chunk1_name(n), |n: Seq<char>| basic_event_element_name(n));
            lemma_lookup_concat(prev, sp, "modelType"@);
            lemma_lookup_outside(sp, |n: Seq<char>| basic_event_element_chunk1_name(n), "modelType"@);
            lemma_lookup_concat(prev, sp, "idShort"@);
            lemma_lookup_outside(sp, |n: Seq<char>| basic_event_element_chunk1_name(n), "idShort"@);
            lemma_lookup_concat(prev, sp, "displayName"@);
            lemma_lookup_outside(sp, |n: Seq<char>| basic_event_element_chunk1_name(n), "displayName"@);
            lemma_lookup_concat(prev, sp, "description"@);
            lemma_lookup_outside(sp, |n: Seq<char>| basic_event_element_chunk1_name(n), "description"@);
            lemma_lookup_concat(prev, sp, "category"@);
            lemma_lookup_outside(sp, |n: Seq<char>| basic_event_element_chunk1_name(n), "category"@);
            lemma_lookup_concat(prev, sp, "extensions"@);
            lemma_lookup_outside(sp, |n: Seq<char>| basic_event_element_chunk1_name(n), "extensions"@);
            lemma_lookup_concat(prev, sp, "semanticId"@);
            lemma_lookup_outside(sp, |n: Seq<char>| basic_event_element_chunk1_name(n), "semanticId"@);
            lemma_lookup_concat(prev, sp, "supplementalSemanticIds"@);
            lemma_lookup_outside(sp, |n: Seq<char>| basic_event_element_chunk1_name(n), "supplementalSemanticIds"@);
            lemma_lookup_concat(prev, sp, "qualifiers"@);
            lemma_lookup_outside(sp, |n: Seq<char>| basic_event_element_chunk1_name(n), "qualifiers"@);
            lemma_lookup_concat(prev, sp, "embeddedDataSpecifications"@);
            lemma_lookup_outside(sp, |n: Seq<char>| basic_event_element_chunk1_name(n), "embeddedDataSpecifications"@);
            lemma_lookup_concat(prev, sp, "observed"@);
            lemma_lookup_outside(sp, |n: Seq<char>| basic_event_element_chunk1_name(n), "observed"@);
            lemma_lookup_concat(prev, sp, "direction"@);
            lemma_lookup_outside(sp, |n: Seq<char>| basic_event_element_chunk1_name(n), "direction"@);
            lemma_lookup_concat(prev, sp, "state"@);
            lemma_lookup_outside(sp, |n: Seq<char>| basic_event_element_chunk1_name(n), "state"@);
            lemma_lookup_concat(prev, sp, "messageTopic"@);
            lemma_lookup_outside(sp, |n: Seq<char>| basic_event_element_chunk1_name(n), "messageTopic"@);
            lemma_lookup_concat(prev, sp, "messageBroker"@);
            lemma_lookup_outside(prev, |n: Seq<char>| basic_event_element_chunk0_name(n), "messageBroker"@);
            lemma_lookup_concat(prev, sp, "lastUpdate"@);
            lemma_lookup_outside(prev, |n: Seq<char>| basic_event_element_chunk0_name(n), "lastUpdate"@);
            lemma_lookup_concat(prev, sp, "minInterval"@);
            lemma_lookup_outside(prev, |n: Seq<char>| basic_event_element_chunk0_name(n), "minInterval"@);
            lemma_lookup_concat(prev, sp, "maxInterval"@);
            lemma_lookup_outside(prev, |n: Seq<char>| basic_event_element_chunk0_name(n), "maxInterval"@);
        }
        fs
    }

    /// Reads the members of the value from `fs`.
    pub fn decode_members(fs: &Vec<(String, Json)>) -> (r: Result<BasicEventElement, DecodeError>)
        ensures
            match basic_event_element_error(fs@) {
                Some(e) => r == Err::<BasicEventElement, DecodeError>(e),
                None => r matches Ok(x) && basic_event_element_rel(x, fs@),
            },
    {
        match get_member(fs, "modelType") {
            None => return Err(DecodeError::MissingField),
            Some(Json::Str(t)) => if !str_eq(t.as_str(), "BasicEventElement") {
                return Err(DecodeError::UnknownDiscriminator);
            },
            Some(_) => return Err(DecodeError::UnexpectedKind),
        }
        let submodel_element_fields = match SubmodelElementFields::decode_members(fs) {
            Ok(v) => v,
            Err(e) => return Err(e),
        };
        let observed = match decode_req::<Reference>(fs, "observed") {
            Ok(v) => v,
            Err(e) => return Err(e),
        };
        let direction = match decode_req::<Direction>(fs, "direction") {
            Ok(v) => v,
            Err(e) => return Err(e),
        };
        let state = match decode_req::<StateOfEvent>(fs, "state") {
            Ok(v) => v,
            Err(e) => return Err(e),
        };
        let message_topic = match decode_opt::<MessageTopic>(fs, "messageTopic") {
            Ok(v) => v,
            Err(e) => return Err(e),
        };
        let message_broker = match decode_opt::<Reference>(fs, "messageBroker") {
            Ok(v) => v,
            Err(e) => return Err(e),
        };
        let last_update = match decode_opt::<String>(fs, "lastUpdate") {
            Ok(v) => v,
            Err(e) => return Err(e),
        };
        let min_interval = match decode_opt::<String>(fs, "minInterval") {
            Ok(v) => v,
            Err(e) => return Err(e),
        };
        let max_interval = match decode_opt::<String>(fs, "maxInterval") {
            Ok(v) => v,
            Err(e) => return Err(e),
        };
        Ok(BasicEventElement { submodel_element_fields, observed, direction, state, message_topic, message_broker, last_update, min_interval, max_interval })
    }
}

/// Members found as encoding writes them decode to a value, whatever
/// other members stand beside them.
pub proof fn lemma_basic_event_element_round_trip(x: BasicEventElement, fs: Seq<(String, Json)>)
    requires
        basic_event_element_wf(x),
        basic_event_element_lookups(x, fs),
    ensures
        basic_event_element_error(fs) is None,
        basic_event_element_rel(x, fs),
{
    lemma_submodel_element_fields_round_trip(x.submodel_element_fields, fs);
    lemma_req_round_trip(x.observed, lookup(fs, "observed"@));
    lemma_req_round_trip(x.direction, lookup(fs, "direction"@));
    lemma_req_round_trip(x.state, lookup(fs, "state"@));
    lemma_opt_round_trip(x.message_topic, lookup(fs, "messageTopic"@));
    lemma_opt_round_trip(x.message_broker, lookup(fs, "messageBroker"@));
    lemma_opt_round_trip(x.last_update, lookup(fs, "lastUpdate"@));
    lemma_opt_round_trip(x.min_interval, lookup(fs, "minInterval"@));
    lemma_opt_round_trip(x.max_interval, lookup(fs, "maxInterval"@));
}

/// The values that the same members decode to hold the same content.
pub proof fn lemma_basic_event_element_unique(x: BasicEventElement, y: BasicEventElement, fs: Seq<(String, Json)>)
    requires
        basic_event_element_rel(x, fs),
        basic_event_element_rel(y, fs),
    ensures
        basic_event_element_equiv(x, y),
{
    lemma_submodel_element_fields_unique(x.submodel_element_fields, y.submodel_element_fields, fs);
    lemma_req_unique(x.observed, y.observed, member(fs, "observed"@));
    lemma_req_unique(x.direction, y.direction, member(fs, "direction"@));
    lemma_req_unique(x.state, y.state, member(fs, "state"@));
    lemma_opt_unique(x.message_topic, y.message_topic, member(fs, "messageTopic"@));
    lemma_opt_unique(x.message_broker, y.message_broker, member(fs, "messageBroker"@));
    lemma_opt_unique(x.last_update, y.last_update, member(fs, "lastUpdate"@));
    lemma_opt_unique(x.min_interval, y.min_interval, member(fs, "minInterval"@));
    lemma_opt_unique(x.max_interval, y.max_interval, member(fs, "maxInterval"@));
}

impl JsonCodec for BasicEventElement {
    open spec fn wf(&self) -> bool {
        basic_event_element_wf(*self)
    }

    open spec fn encoded(&self, j: Json) -> bool {
        j matches Json::Object(fs) && basic_event_element_encoded(*self, fs@)
    }

    open spec fn rel(&self, j: Json) -> bool {
        j matches Json::Object(fs) && basic_event_element_rel(*self, fs@)
    }

    open spec fn decode_error(j: Json) -> Option<DecodeError> {
        match j {
            Json::Object(fs) => basic_event_element_error(fs@),
            _ => Some(DecodeError::UnexpectedKind),
        }
    }

    open spec fn equiv(&self, o: &Self) -> bool {
        basic_event_element_equiv(*self, *o)
    }

    fn encode(&self) -> (r: Json) {
        Json::Object(self.encode_members())
    }

    fn decode(j: &Json) -> (r: Result<Self, DecodeError>) {
        match j {
            Json::Object(fs) => BasicEventElement::decode_members(fs),
            _ => Err(DecodeError::UnexpectedKind),
        }
    }

    proof fn lemma_round_trip(&self, j: Json) {
        lemma_basic_event_element_round_trip(*self, j->Object_0@);
    }

    proof fn lemma_unique(&self, o: &Self, j: Json) {
        lemma_basic_event_element_unique(*self, *o, j->Object_0@);
    }
}

/// The metamodel view of an event element: its attributes without the observed element.
#[derive(Clone, Debug, PartialEq)]
pub struct BasicEventElementMeta {
    pub submodel_element_fields: SubmodelElementFields,
    pub direction: Direction,
    pub state: StateOfEvent,
    pub message_topic: Option<MessageTopic>,
    pub message_broker: Option<Reference>,
    pub last_update: Option<String>,
    pub min_interval: Option<String>,
    pub max_interval: Option<String>,
}

/// A name of the members of `BasicEventElementMeta`.
pub open spec fn basic_event_element_meta_name(n: Seq<char>) -> bool {
    n == "modelType"@ || submodel_element_fields_name(n) || n == "direction"@ || n == "state"@ || n == "messageTopic"@ || n == "messageBroker"@ || n == "lastUpdate"@ || n == "minInterval"@ || n == "maxInterval"@
}

/// Looking up the members of `BasicEventElementMeta` in `fs` finds what encoding writes for `x`.
pub open spec fn basic_event_element_meta_lookups(x: BasicEventElementMeta, fs: Seq<(String, Json)>) -> bool {
    &&& lookup(fs, "modelType"@) matches Some(Json::Str(t)) && t@ == "BasicEventElement"@
    &&& submodel_element_fields_lookups(x.submodel_element_fields, fs)
    &&& req_encoded(x.direction, lookup(fs, "direction"@))
    &&& req_encoded(x.state, lookup(fs, "state"@))
    &&& opt_encoded(x.message_topic, lookup(fs, "messageTopic"@))
    &&& opt_encoded(x.message_broker, lookup(fs, "messageBroker"@))
    &&& opt_encoded(x.last_update, lookup(fs, "lastUpdate"@))
    &&& opt_encoded(x.min_interval, lookup(fs, "minInterval"@))
    &&& opt_encoded(x.max_interval, lookup(fs, "maxInterval"@))
}

/// `fs` are the members that encoding writes for `x`.
pub open spec fn basic_event_element_meta_encoded(x: BasicEventElementMeta, fs: Seq<(String, Json)>) -> bool {
    &&& names_within(fs, |n: Seq<char>| basic_event_element_meta_name(n))
    &&& basic_event_element_meta_lookups(x, fs)
}

/// The members of `fs` decode to `x`.
pub open spec fn basic_event_element_meta_rel(x: BasicEventElementMeta, fs: Seq<(String, Json)>) -> bool {
    &&& member(fs, "modelType"@) matches Some(Json::Str(t)) && t@ == "BasicEventElement"@
    &&& submodel_element_fields_rel(x.submodel_element_fields, fs)
    &&& req_rel(x.direction, member(fs, "direction"@))
    &&& req_rel(x.state, member(fs, "state"@))
    &&& opt_rel(x.message_topic, member(fs, "messageTopic"@))
    &&& opt_rel(x.message_broker, member(fs, "messageBroker"@))
    &&& opt_rel(x.last_update, member(fs, "lastUpdate"@))
    &&& opt_rel(x.min_interval, member(fs, "minInterval"@))
    &&& opt_rel(x.max_interval, member(fs, "maxInterval"@))
}

/// The error, if any, of decoding the members of `BasicEventElementMeta` from `fs`.
pub open spec fn basic_event_element_meta_error(fs: Seq<(String, Json)>) -> Option<DecodeError> {
    match member(fs, "modelType"@) {
        None => Some(DecodeError::MissingField),
        Some(Json::Str(t)) => if t@ == "BasicEventElement"@ {
            match submodel_element_fields_error(fs) {
                Some(e) => Some(e),
                None => {
                    match req_error::<Direction>(member(fs, "direction"@)) {
                        Some(e) => Some(e),
                        None => {
                            match req_error::<StateOfEvent>(member(fs, "state"@)) {
                                Some(e) => Some(e),
                                None => {
                                    match opt_error::<MessageTopic>(member(fs, "messageTopic"@)) {
                                        Some(e) => Some(e),
                                        None => {
                                            match opt_error::<Reference>(member(fs, "messageBroker"@)) {
                                                Some(e) => Some(e),
                                                None => {
                                                    match opt_error::<String>(member(fs, "lastUpdate"@)) {
                                                        Some(e) => Some(e),
                                                        None => {
                                                            match opt_error::<String>(member(fs, "minInterval"@)) {
                                                                Some(e) => Some(e),
                                                                None => {
                                                                    match opt_error::<String>(member(fs, "maxInterval"@)) {
                                                                        Some(e) => Some(e),
                                                                        None => {
                                                                            None
                                                                        },
                                                                    }
                                                                },
                                                            }
                                                        },
                                                    }
                                                },
                                            }
                                        },
                                    }
                                },
                            }
                        },
                    }
                },
            }
        } else {
            Some(DecodeError::UnknownDiscriminator)
        },
        Some(_) => Some(DecodeError::UnexpectedKind),
    }
}

/// The values of `x` are well-formed.
pub open spec fn basic_event_element_meta_wf(x: BasicEventElementMeta) -> bool {
    &&& submodel_element_fields_wf(x.submodel_element_fields)
    &&& x.direction.wf()
    &&& x.state.wf()
    &&& opt_wf(x.message_topic)
    &&& opt_wf(x.message_broker)
    &&& opt_wf(x.last_update)
    &&& opt_wf(x.min_interval)
    &&& opt_wf(x.max_interval)
}

/// `x` and `y` hold the same content.
pub open spec fn basic_event_element_meta_equiv(x: BasicEventElementMeta, y: BasicEventElementMeta) -> bool {
    &&& submodel_element_fields_equiv(x.submodel_element_fields, y.submodel_element_fields)
    &&& x.direction.equiv(&y.direction)
    &&& x.state.equiv(&y.state)
    &&& opt_equiv(x.message_topic, y.message_topic)
    &&& opt_equiv(x.message_broker, y.message_broker)
    &&& opt_equiv(x.last_update, y.last_update)
    &&& opt_equiv(x.min_interval, y.min_interval)
    &&& opt_equiv(x.max_interval, y.max_interval)
}

/// A name of the members of `BasicEventElementMeta` written by its encoding step 0.
pub open spec fn basic_event_element_meta_chunk0_name(n: Seq<char>) -> bool {
    n == "modelType"@ || submodel_element_fields_name(n) || n == "direction"@ || n == "state"@ || n == "messageTopic"@ || n == "messageBroker"@
}

/// Looking up the members of encoding step 0 of `BasicEventElementMeta` in `fs` finds what it writes for `x`.
pub open spec fn basic_event_element_meta_chunk0_lookups(x: BasicEventElementMeta, fs: Seq<(String, Json)>) -> bool {
    &&& lookup(fs, "modelType"@) matches Some(Json::Str(t)) && t@ == "BasicEventElement"@
    &&& submodel_element_fields_lookups(x.submodel_element_fields, fs)
    &&& req_encoded(x.direction, lookup(fs, "direction"@))
    &&& req_encoded(x.state, lookup(fs, "state"@))
    &&& opt_encoded(x.message_topic, lookup(fs, "messageTopic"@))
    &&& opt_encoded(x.message_broker, lookup(fs, "messageBroker"@))
}

/// A name of the members of `BasicEventElementMeta` written by its encoding step 1.
pub open spec fn basic_event_element_meta_chunk1_name(n: Seq<char>) -> bool {
    n == "lastUpdate"@ || n == "minInterval"@ || n == "maxInterval"@
}

/// Looking up the members of encoding step 1 of `BasicEventElementMeta` in `fs` finds what it writes for `x`.
pub open spec fn basic_event_element_meta_chunk1_lookups(x: BasicEventElementMeta, fs: Seq<(String, Json)>) -> bool {
    &&& opt_encoded(x.last_update, lookup(fs, "lastUpdate"@))
    &&& opt_encoded(x.min_interval, lookup(fs, "minInterval"@))
    &&& opt_encoded(x.max_interval, lookup(fs, "maxInterval"@))
}

impl BasicEventElementMeta {
    /// Writes the members of encoding step 0, absent ones left out.
    #[verifier::rlimit(100)]
    #[verifier::spinoff_prover]
    fn encode_step0(&self) -> (r: Vec<(String, Json)>)
        ensures
            names_within(r@, |n: Seq<char>| basic_event_element_meta_chunk0_name(n)),
            basic_event_element_meta_chunk0_lookups(*self, r@),
    {
        proof {
            reveal_strlit("modelType");
            reveal_strlit("idShort");
            reveal_strlit("displayName");
            reveal_strlit("description");
            reveal_strlit("category");
            reveal_strlit("extensions");
            reveal_strlit("semanticId");
            reveal_strlit("supplementalSemanticIds");
            reveal_strlit("qualifiers");
            reveal_strlit("embeddedDataSpecifications");
            reveal_strlit("direction");
            reveal_strlit("state");
            reveal_strlit("messageTopic");
            reveal_strlit("messageBroker");
            assert("modelType"@.len() == 9 && "idShort"@.len() == 7);
            assert("modelType"@.len() == 9 && "displayName"@.len() == 11);
            assert("modelType"@.len() == 9 && "description"@.len() == 11);
            assert("modelType"@.len() == 9 && "category"@.len() == 8);
            assert("modelType"@.len() == 9 && "extensions"@.len() == 10);
            assert("modelType"@.len() == 9 && "semanticId"@.len() == 10);
            assert("modelType"@.len() == 9 && "supplementalSemanticIds"@.len() == 23);
            assert("modelType"@.len() == 9 && "qualifiers"@.len() == 10);
            assert("modelType"@.len() == 9 && "embeddedDataSpecifications"@.len() == 26);
            assert("modelType"@[0] != "direction"@[0]);
            assert("modelType"@.len() == 9 && "state"@.len() == 5);
            assert("modelType"@.len() == 9 && "messageTopic"@.len() == 12);
            assert("modelType"@.len() == 9 && "messageBroker"@.len() == 13);
            assert("idShort"@.len() == 7 && "modelType"@.len() == 9);
            assert("idShort"@.len() == 7 && "displayName"@.len() == 11);
            assert("idShort"@.len() == 7 && "description"@.len() == 11);
            assert("idShort"@.len() == 7 && "category"@.len() == 8);
            assert("idShort"@.len() == 7 && "extensions"@.len() == 10);
            assert("idShort"@.len() == 7 && "semanticId"@.len() == 10);
            assert("idShort"@.len() == 7 && "supplementalSemanticIds"@.len() == 23);
            assert("idShort"@.len() == 7 && "qualifiers"@.len() == 10);
            assert("idShort"@.len() == 7 && "embeddedDataSpecifications"@.len() == 26);
            assert("idShort"@.len() == 7 && "direction"@.len() == 9);
            assert("idShort"@.len() == 7 && "state"@.len() == 5);
            assert("idShort"@.len() == 7 && "messageTopic"@.len() == 12);
            assert("idShort"@.len() == 7 && "messageBroker"@.len() == 13);
            assert("displayName"@.len() == 11 && "modelType"@.len() == 9);
            assert("displayName"@.len() == 11 && "idShort"@.len() == 7);
            assert("displayName"@[1] != "description"@[1]);
            assert("displayName"@.len() == 11 && "category"@.len() == 8);
            assert("displayName"@.len() == 11 && "extensions"@.len() == 10);
            assert("displayName"@.len() == 11 && "semanticId"@.len() == 10);
            assert("displayName"@.len() == 11 && "supplementalSemanticIds"@.len() == 23);
            assert("displayName"@.len() == 11 && "qualifiers"@.len() == 10);
            assert("displayName"@.len() == 11 && "embeddedDataSpecifications"@.len() == 26);
            assert("displayName"@.len() == 11 && "direction"@.len() == 9);
            assert("displayName"@.len() == 11 && "state"@.len() == 5);
            assert("displayName"@.len() == 11 && "messageTopic"@.len() == 12);
            assert("displayName"@.len() == 11 && "messageBroker"@.len() == 13);
            assert("description"@.len() == 11 && "modelType"@.len() == 9);
            assert("description"@.len() == 11 && "idShort"@.len() == 7);
            assert("description"@[1] != "displayName"@[1]);
            assert("description"@.len() == 11 && "category"@.len() == 8);
            assert("description"@.len() == 11 && "extensions"@.len() == 10);
            assert("description"@.len() == 11 && "semanticId"@.len() == 10);
            assert("description"@.len() == 11 && "supplementalSemanticIds"@.len() == 23);
            assert("description"@.len() == 11 && "qualifiers"@.len() == 10);
            assert("description"@.len() == 11 && "embeddedDataSpecifications"@.len() == 26);
            assert("description"@.len() == 11 && "direction"@.len() == 9);
            assert("description"@.len() == 11 && "state"@.len() == 5);
            assert("description"@.len() == 11 && "messageTopic"@.len() == 12);
            assert("description"@.len() == 11 && "messageBroker"@.len() == 13);
            assert("category"@.len() == 8 && "modelType"@.len() == 9);
            assert("category"@.len() == 8 && "idShort"@.len() == 7);
            assert("category"@.len() == 8 && "displayName"@.len() == 11);
            assert("category"@.len() == 8 && "description"@.len() == 11);
            assert("category"@.len() == 8 && "extensions"@.len() == 10);
            assert("category"@.len() == 8 && "semanticId"@.len() == 10);
            assert("category"@.len() == 8 && "supplementalSemanticIds"@.len() == 23);
            assert("category"@.len() == 8 && "qualifiers"@.len() == 10);
            assert("category"@.len() == 8 && "embeddedDataSpecifications"@.len() == 26);
            assert("category"@.len() == 8 && "direction"@.len() == 9);
            assert("category"@.len() == 8 && "state"@.len() == 5);
            assert("category"@.len() == 8 && "messageTopic"@.len() == 12);
            assert("category"@.len() == 8 && "messageBroker"@.len() == 13);
            assert("extensions"@.len() == 10 && "modelType"@.len() == 9);
            assert("extensions"@.len() == 10 && "idShort"@.len() == 7);
            assert("extensions"@.len() == 10 && "displayName"@.len() == 11);
            assert("extensions"@.len() == 10 && "description"@.len() == 11);
            assert("extensions"@.len() == 10 && "category"@.len() == 8);
            assert("extensions"@[0] != "semanticId"@[0]);
            assert("extensions"@.len() == 10 && "supplementalSemanticIds"@.len() == 23);
            assert("extensions"@[0] != "qualifiers"@[0]);
            assert("extensions"@.len() == 10 && "embeddedDataSpecifications"@.len() == 26);
            assert("extensions"@.len() == 10 && "direction"@.len() == 9);
            assert("extensions"@.len() == 10 && "state"@.len() == 5);
            assert("extensions"@.len() == 10 && "messageTopic"@.len() == 12);
            assert("extensions"@.len() == 10 && "messageBroker"@.len() == 13);
            assert("semanticId"@.len() == 10 && "modelType"@.len() == 9);
            assert("semanticId"@.len() == 10 && "idShort"@.len() == 7);
            assert("semanticId"@.len() == 10 && "displayName"@.len() == 11);
            assert("semanticId"@.len() == 10 && "description"@.len() == 11);
            assert("semanticId"@.len() == 10 && "category"@.len() == 8);
            assert("semanticId"@[0] != "extensions"@[0]);
            assert("semanticId"@.len() == 10 && "supplementalSemanticIds"@.len() == 23);
            assert("semanticId"@[0] != "qualifiers"@[0]);
            assert("semanticId"@.len() == 10 && "embeddedDataSpecifications"@.len() == 26);
            assert("semanticId"@.len() == 10 && "direction"@.len() == 9);
            assert("semanticId"@.len() == 10 && "state"@.len() == 5);
            assert("semanticId"@.len() == 10 && "messageTopic"@.len() == 12);
            assert("semanticId"@.len() == 10 && "messageBroker"@.len() == 13);
            assert("supplementalSemanticIds"@.len() == 23 && "modelType"@.len() == 9);
            assert("supplementalSemanticIds"@.len() == 23 && "idShort"@.len() == 7);
            assert("supplementalSemanticIds"@.len() == 23 && "displayName"@.len() == 11);
            assert("supplementalSemanticIds"@.len() == 23 && "description"@.len() == 11);
            assert("supplementalSemanticIds"@.len() == 23 && "category"@.len() == 8);
            assert("supplementalSemanticIds"@.len() == 23 && "extensions"@.len() == 10);
            assert("supplementalSemanticIds"@.len() == 23 && "semanticId"@.len() == 10);
            assert("supplementalSemanticIds"@.len() == 23 && "qualifiers"@.len() == 10);
            assert("supplementalSemanticIds"@.len() == 23 && "embeddedDataSpecifications"@.len() == 26);
            assert("supplementalSemanticIds"@.len() == 23 && "direction"@.len() == 9);
            assert("supplementalSemanticIds"@.len() == 23 && "state"@.len() == 5);
            assert("supplementalSemanticIds"@.len() == 23 && "messageTopic"@.len() == 12);
            assert("supplementalSemanticIds"@.len() == 23 && "messageBroker"@.len() == 13);
            assert("qualifiers"@.len() == 10 && "modelType"@.len() == 9);
            assert("qualifiers"@.len() == 10 && "idShort"@.len() == 7);
            assert("qualifiers"@.len() == 10 && "displayName"@.len() == 11);
            assert("qualifiers"@.len() == 10 && "description"@.len() == 11);
            assert("qualifiers"@.len() == 10 && "category"@.len() == 8);
            assert("qualifiers"@[0] != "extensions"@[0]);
            assert("qualifiers"@[0] != "semanticId"@[0]);
            assert("qualifiers"@.len() == 10 && "supplementalSemanticIds"@.len() == 23);
            assert("qualifiers"@.len() == 10 && "embeddedDataSpecifications"@.len() == 26);
            assert("qualifiers"@.len() == 10 && "direction"@.len() == 9);
            assert("qualifiers"@.len() == 10 && "state"@.len() == 5);
            assert("qualifiers"@.len() == 10 && "messageTopic"@.len() == 12);
            assert("qualifiers"@.len() == 10 && "messageBroker"@.len() == 13);
            assert("embeddedDataSpecifications"@.len() == 26 && "modelType"@.len() == 9);
            assert("embeddedDataSpecifications"@.len() == 26 && "idShort"@.len() == 7);
            assert("embeddedDataSpecifications"@.len() == 26 && "displayName"@.len() == 11);
            assert("embeddedDataSpecifications"@.len() == 26 && "description"@.len() == 11);
            assert("embeddedDataSpecifications"@.len() == 26 && "category"@.len() == 8);
            assert("embeddedDataSpecifications"@.len() == 26 && "extensions"@.len() == 10);
            assert("embeddedDataSpecifications"@.len() == 26 && "semanticId"@.len() == 10);
            assert("embeddedDataSpecifications"@.len() == 26 && "supplementalSemanticIds"@.len() == 23);
            assert("embeddedDataSpecifications"@.len() == 26 && "qualifiers"@.len() == 10);
            assert("embeddedDataSpecifications"@.len() == 26 && "direction"@.len() == 9);
            assert("embeddedDataSpecifications"@.len() == 26 && "state"@.len() == 5);
            assert("embeddedDataSpecifications"@.len() == 26 && "messageTopic"@.len() == 12);
            assert("embeddedDataSpecifications"@.len() == 26 && "messageBroker"@.len() == 13);
            assert("direction"@[0] != "modelType"@[0]);
            assert("direction"@.len() == 9 && "idShort"@.len() == 7);
            assert("direction"@.len() == 9 && "displayName"@.len() == 11);
            assert("direction"@.len() == 9 && "description"@.len() == 11);
            assert("direction"@.len() == 9 && "category"@.len() == 8);
            assert("direction"@.len() == 9 && "extensions"@.len() == 10);
            assert("direction"@.len() == 9 && "semanticId"@.len() == 10);
            assert("direction"@.len() == 9 && "supplementalSemanticIds"@.len() == 23);
            assert("direction"@.len() == 9 && "qualifiers"@.len() == 10);
            assert("direction"@.len() == 9 && "embeddedDataSpecifications"@.len() == 26);
            assert("direction"@.len() == 9 && "state"@.len() == 5);
            assert("direction"@.len() == 9 && "messageTopic"@.len() == 12);
            assert("direction"@.len() == 9 && "messageBroker"@.len() == 13);
            assert("state"@.len() == 5 && "modelType"@.len() == 9);
            assert("state"@.len() == 5 && "idShort"@.len() == 7);
            assert("state"@.len() == 5 && "displayName"@.len() == 11);
            assert("state"@.len() == 5 && "description"@.len() == 11);
            assert("state"@.len() == 5 && "category"@.len() == 8);
            assert("state"@.len() == 5 && "extensions"@.len() == 10);
            assert("state"@.len() == 5 && "semanticId"@.len() == 10);
            assert("state"@.len() == 5 && "supplementalSemanticIds"@.len() == 23);
            assert("state"@.len() == 5 && "qualifiers"@.len() == 10);
            assert("state"@.len() == 5 && "embeddedDataSpecifications"@.len() == 26);
            assert("state"@.len() == 5 && "direction"@.len() == 9);
            assert("state"@.len() == 5 && "messageTopic"@.len() == 12);
            assert("state"@.len() == 5 && "messageBroker"@.len() == 13);
            assert("messageTopic"@.len() == 12 && "modelType"@.len() == 9);
            assert("messageTopic"@.len() == 12 && "idShort"@.len() == 7);
            assert("messageTopic"@.len() == 12 && "displayName"@.len() == 11);
            assert("messageTopic"@.len() == 12 && "description"@.len() == 11);
            assert("messageTopic"@.len() == 12 && "category"@.len() == 8);
            assert("messageTopic"@.len() == 12 && "extensions"@.len() == 10);
            assert("messageTopic"@.len() == 12 && "semanticId"@.len() == 10);
            assert("messageTopic"@.len() == 12 && "supplementalSemanticIds"@.len() == 23);
            assert("messageTopic"@.len() == 12 && "qualifiers"@.len() == 10);
            assert("messageTopic"@.len() == 12 && "embeddedDataSpecifications"@.len() == 26);
            assert("messageTopic"@.len() == 12 && "direction"@.len() == 9);
            assert("messageTopic"@.len() == 12 && "state"@.len() == 5);
            assert("messageTopic"@.len() == 12 && "messageBroker"@.len() == 13);
            assert("messageBroker"@.len() == 13 && "modelType"@.len() == 9);
            assert("messageBroker"@.len() == 13 && "idShort"@.len() == 7);
            assert("messageBroker"@.len() == 13 && "displayName"@.len() == 11);
            assert("messageBroker"@.len() == 13 && "description"@.len() == 11);
            assert("messageBroker"@.len() == 13 && "category"@.len() == 8);
            assert("messageBroker"@.len() == 13 && "extensions"@.len() == 10);
            assert("messageBroker"@.len() == 13 && "semanticId"@.len() == 10);
            assert("messageBroker"@.len() == 13 && "supplementalSemanticIds"@.len() == 23);
            assert("messageBroker"@.len() == 13 && "qualifiers"@.len() == 10);
            assert("messageBroker"@.len() == 13 && "embeddedDataSpecifications"@.len() == 26);
            assert("messageBroker"@.len() == 13 && "direction"@.len() == 9);
            assert("messageBroker"@.len() == 13 && "state"@.len() == 5);
            assert("messageBroker"@.len() == 13 && "messageTopic"@.len() == 12);
        }
        let mut fs: Vec<(String, Json)> = Vec::new();
        let ghost prev = fs@;
        fs.push(field("modelType", Json::Str("BasicEventElement".to_string())));
        proof {
            lemma_names_within_empty(prev, |n: Seq<char>| n == "modelType"@);
            if true {
                assert(fs@ == prev.push(fs@.last()));
                lemma_names_within_push(prev, fs@.last(), |n: Seq<char>| n == "modelType"@);
                lemma_lookup_push(prev, fs@.last(), "modelType"@);
            }
        }
        let ghost prev = fs@;
        let mut part = self.submodel_element_fields.encode_members();
        let ghost sp = part@;
        fs.append(&mut part);
        proof {
            lemma_names_within_concat(prev, sp, |n: Seq<char>| n == "modelType"@, |n: Seq<char>| submodel_element_fields_name(n), |n: Seq<char>| n == "modelType"@ || submodel_element_fields_name(n));
            lemma_lookup_concat(prev, sp, "modelType"@);
            lemma_lookup_outside(sp, |n: Seq<char>| submodel_element_fields_name(n), "modelType"@);
            lemma_lookup_concat(prev, sp, "idShort"@);
            lemma_lookup_outside(prev, |n: Seq<char>| n == "modelType"@, "idShort"@);
            lemma_lookup_concat(prev, sp, "displayName"@);
            lemma_lookup_outside(prev, |n: Seq<char>| n == "modelType"@, "displayName"@);
            lemma_lookup_concat(prev, sp, "description"@);
            lemma_lookup_outside(prev, |n: Seq<char>| n == "modelType"@, "description"@);
            lemma_lookup_concat(prev, sp, "category"@);
            lemma_lookup_outside(prev, |n: Seq<char>| n == "modelType"@, "category"@);
            lemma_lookup_concat(prev, sp, "extensions"@);
            lemma_lookup_outside(prev, |n: Seq<char>| n == "modelType"@, "extensions"@);
            lemma_lookup_concat(prev, sp, "semanticId"@);
            lemma_lookup_outside(prev, |n: Seq<char>| n == "modelType"@, "semanticId"@);
            lemma_lookup_concat(prev, sp, "supplementalSemanticIds"@);
            lemma_lookup_outside(prev, |n: Seq<char>| n == "modelType"@, "supplementalSemanticIds"@);
            lemma_lookup_concat(prev, sp, "qualifiers"@);
            lemma_lookup_outside(prev, |n: Seq<char>| n == "modelType"@, "qualifiers"@);
            lemma_lookup_concat(prev, sp, "embeddedDataSpecifications"@);
            lemma_lookup_outside(prev, |n: Seq<char>| n == "modelType"@, "embeddedDataSpecifications"@);
        }
        let ghost prev = fs@;
        push_req(&mut fs, "direction", &self.direction);
        proof {
            lemma_names_within_weaken(prev, |n: Seq<char>| n == "modelType"@ || submodel_element_fields_name(n), |n: Seq<char>| n == "modelType"@ || submodel_element_fields_name(n) || n == "direction"@);
            lemma_lookup_outside(prev, |n: Seq<char>| n == "modelType"@ || submodel_element_fields_name(n), "direction"@);
            if true {
                assert(fs@ == prev.push(fs@.last()));
                lemma_names_within_push(prev, fs@.last(), |n: Seq<char>| n == "modelType"@ || submodel_element_fields_name(n) || n == "direction"@);
                lemma_lookup_push(prev, fs@.last(), "modelType"@);
                lemma_lookup_push(prev, fs@.last(), "idShort"@);
                lemma_lookup_push(prev, fs@.last(), "displayName"@);
                lemma_lookup_push(prev, fs@.last(), "description"@);
                lemma_lookup_push(prev, fs@.last(), "category"@);
                lemma_lookup_push(prev, fs@.last(), "extensions"@);
                lemma_lookup_push(prev, fs@.last(), "semanticId"@);
                lemma_lookup_push(prev, fs@.last(), "supplementalSemanticIds"@);
                lemma_lookup_push(prev, fs@.last(), "qualifiers"@);
                lemma_lookup_push(prev, fs@.last(), "embeddedDataSpecifications"@);
                lemma_lookup_push(prev, fs@.last(), "direction"@);
            }
        }
        let ghost prev = fs@;
        push_req(&mut fs, "state", &self.state);
        proof {
            lemma_names_within_weaken(prev, |n: Seq<char>| n == "modelType"@ || submodel_element_fields_name(n) || n == "direction"@, |n: Seq<char>| n == "modelType"@ || submodel_element_fields_name(n) || n == "direction"@ || n == "state"@);
            lemma_lookup_outside(prev, |n: Seq<char>| n == "modelType"@ || submodel_element_fields_name(n) || n == "direction"@, "state"@);
            if true {
                assert(fs@ == prev.push(fs@.last()));
                lemma_names_within_push(prev, fs@.last(), |n: Seq<char>| n == "modelType"@ || submodel_element_fields_name(n) || n == "direction"@ || n == "state"@);
                lemma_lookup_push(prev, fs@.last(), "modelType"@);
                lemma_lookup_push(prev, fs@.last(), "idShort"@);
                lemma_lookup_push(prev, fs@.last(), "displayName"@);
                lemma_lookup_push(prev, fs@.last(), "description"@);
                lemma_lookup_push(prev, fs@.last(), "category"@);
                lemma_lookup_push(prev, fs@.last(), "extensions"@);
                lemma_lookup_push(prev, fs@.last(), "semanticId"@);
                lemma_lookup_push(prev, fs@.last(), "supplementalSemanticIds"@);
                lemma_lookup_push(prev, fs@.last(), "qualifiers"@);
                lemma_lookup_push(prev, fs@.last(), "embeddedDataSpecifications"@);
                lemma_lookup_push(prev, fs@.last(), "direction"@);
                lemma_lookup_push(prev, fs@.last(), "state"@);
            }
        }
        let ghost prev = fs@;
        push_opt(&mut fs, "messageTopic", &self.message_topic);
        proof {
            lemma_names_within_weaken(prev, |n: Seq<char>| n == "modelType"@ || submodel_element_fields_name(n) || n == "direction"@ || n == "state"@, |n: Seq<char>| n == "modelType"@ || submodel_element_fields_name(n) || n == "direction"@ || n == "state"@ || n == "messageTopic"@);
            lemma_lookup_outside(prev, |n: Seq<char>| n == "modelType"@ || submodel_element_fields_name(n) || n == "direction"@ || n == "state"@, "messageTopic"@);
            if self.message_topic is Some {
                assert(fs@ == prev.push(fs@.last()));
                lemma_names_within_push(prev, fs@.last(), |n: Seq<char>| n == "modelType"@ || submodel_element_fields_name(n) || n == "direction"@ || n == "state"@ || n == "messageTopic"@);
                lemma_lookup_push(prev, fs@.last(), "modelType"@);
                lemma_lookup_push(prev, fs@.last(), "idShort"@);
                lemma_lookup_push(prev, fs@.last(), "displayName"@);
                lemma_lookup_push(prev, fs@.last(), "description"@);
                lemma_lookup_push(prev, fs@.last(), "category"@);
                lemma_lookup_push(prev, fs@.last(), "extensions"@);
                lemma_lookup_push(prev, fs@.last(), "semanticId"@);
                lemma_lookup_push(prev, fs@.last(), "supplementalSemanticIds"@);
                lemma_lookup_push(prev, fs@.last(), "qualifiers"@);
                lemma_lookup_push(prev, fs@.last(), "embeddedDataSpecifications"@);
                lemma_lookup_push(prev, fs@.last(), "direction"@);
                lemma_lookup_push(prev, fs@.last(), "state"@);
                lemma_lookup_push(prev, fs@.last(), "messageTopic"@);
            }
        }
        let ghost prev = fs@;
        push_opt(&mut fs, "messageBroker", &self.message_broker);
        proof {
            lemma_names_within_weaken(prev, |n: Seq<char>| n == "modelType"@ || submodel_element_fields_name(n) || n == "direction"@ || n == "state"@ || n == "messageTopic"@, |n: Seq<char>| basic_event_element_meta_chunk0_name(n));
            lemma_lookup_outside(prev, |n: Seq<char>| n == "modelType"@ || submodel_element_fields_name(n) || n == "direction"@ || n == "state"@ || n == "messageTopic"@, "messageBroker"@);
            if self.message_broker is Some {
                assert(fs@ == prev.push(fs@.last()));
                lemma_names_within_push(prev, fs@.last(), |n: Seq<char>| basic_event_element_meta_chunk0_name(n));
                lemma_lookup_push(prev, fs@.last(), "modelType"@);
                lemma_lookup_push(prev, fs@.last(), "idShort"@);
                lemma_lookup_push(prev, fs@.last(), "displayName"@);
                lemma_lookup_push(prev, fs@.last(), "description"@);
                lemma_lookup_push(prev, fs@.last(), "category"@);
                lemma_lookup_push(prev, fs@.last(), "extensions"@);
                lemma_lookup_push(prev, fs@.last(), "semanticId"@);
                lemma_lookup_push(prev, fs@.last(), "supplementalSemanticIds"@);
                lemma_lookup_push(prev, fs@.last(), "qualifiers"@);
                lemma_lookup_push(prev, fs@.last(), "embeddedDataSpecifications"@);
                lemma_lookup_push(prev, fs@.last(), "direction"@);
                lemma_lookup_push(prev, fs@.last(), "state"@);
                lemma_lookup_push(prev, fs@.last(), "messageTopic"@);
                lemma_lookup_push(prev, fs@.last(), "messageBroker"@);
            }
        }
        fs
    }

    /// Writes the members of encoding step 1, absent ones left out.
    fn encode_step1(&self) -> (r: Vec<(String, Json)>)
        ensures
            names_within(r@, |n: Seq<char>| basic_event_element_meta_chunk1_name(n)),
            basic_event_element_meta_chunk1_lookups(*self, r@),
    {
        proof {
            reveal_strlit("lastUpdate");
            reveal_strlit("minInterval");
            reveal_strlit("maxInterval");
            assert("lastUpdate"@.len() == 10 && "minInterval"@.len() == 11);
            assert("lastUpdate"@.len() == 10 && "maxInterval"@.len() == 11);
            assert("minInterval"@.len() == 11 && "lastUpdate"@.len() == 10);
            assert("minInterval"@[1] != "maxInterval"@[1]);
            assert("maxInterval"@.len() == 11 && "lastUpdate"@.len() == 10);
            assert("maxInterval"@[1] != "minInterval"@[1]);
        }
        let mut fs: Vec<(String, Json)> = Vec::new();
        let ghost prev = fs@;
        push_opt(&mut fs, "lastUpdate", &self.last_update);
        proof {
            lemma_names_within_empty(prev, |n: Seq<char>| n == "lastUpdate"@);
            if self.last_update is Some {
                assert(fs@ == prev.push(fs@.last()));
                lemma_names_within_push(prev, fs@.last(), |n: Seq<char>| n == "lastUpdate"@);
                lemma_lookup_push(prev, fs@.last(), "lastUpdate"@);
            }
        }
        let ghost prev = fs@;
        push_opt(&mut fs, "minInterval", &self.min_interval);
        proof {
            lemma_names_within_weaken(prev, |n: Seq<char>| n == "lastUpdate"@, |n: Seq<char>| n == "lastUpdate"@ || n == "minInterval"@);
            lemma_lookup_outside(prev, |n: Seq<char>| n == "lastUpdate"@, "minInterval"@);
            if self.min_interval is Some {
                assert(fs@ == prev.push(fs@.last()));
                lemma_names_within_push(prev, fs@.last(), |n: Seq<char>| n == "lastUpdate"@ || n == "minInterval"@);
                lemma_lookup_push(prev, fs@.last(), "lastUpdate"@);
                lemma_lookup_push(prev, fs@.last(), "minInterval"@);
            }
        }
        let ghost prev = fs@;
        push_opt(&mut fs, "maxInterval", &self.max_interval);
        proof {
            lemma_names_within_weaken(prev, |n: Seq<char>| n == "lastUpdate"@ || n == "minInterval"@, |n: Seq<char>| basic_event_element_meta_chunk1_name(n));
            lemma_lookup_outside(prev, |n: Seq<char>| n == "lastUpdate"@ || n == "minInterval"@, "maxInterval"@);
            if self.max_interval is Some {
                assert(fs@ == prev.push(fs@.last()));
                lemma_names_within_push(prev, fs@.last(), |n: Seq<char>| basic_event_element_meta_chunk1_name(n));
                lemma_lookup_push(prev, fs@.last(), "lastUpdate"@);
                lemma_lookup_push(prev, fs@.last(), "minInterval"@);
                lemma_lookup_push(prev, fs@.last(), "maxInterval"@);
            }
        }
        fs
    }

    /// Writes the members of the value, absent ones left out.
    pub fn encode_members(&self) -> (r: Vec<(String, Json)>)
        ensures
            basic_event_element_meta_encoded(*self, r@),
    {
        proof {
            reveal_strlit("modelType");
            reveal_strlit("idShort");
            reveal_strlit("displayName");
            reveal_strlit("description");
            reveal_strlit("category");
            reveal_strlit("extensions");
            reveal_strlit("semanticId");
            reveal_strlit("supplementalSemanticIds");
            reveal_strlit("qualifiers");
            reveal_strlit("embeddedDataSpecifications");
            reveal_strlit("direction");
            reveal_strlit("state");
            reveal_strlit("messageTopic");
            reveal_strlit("messageBroker");
            reveal_strlit("lastUpdate");
            reveal_strlit("minInterval");
            reveal_strlit("maxInterval");
            assert("modelType"@.len() == 9 && "idShort"@.len() == 7);
            assert("modelType"@.len() == 9 && "displayName"@.len() == 11);
            assert("modelType"@.len() == 9 && "description"@.len() == 11);
            assert("modelType"@.len() == 9 && "category"@.len() == 8);
            assert("modelType"@.len() == 9 && "extensions"@.len() == 10);
            assert("modelType"@.len() == 9 && "semanticId"@.len() == 10);
            assert("modelType"@.len() == 9 && "supplementalSemanticIds"@.len() == 23);
            assert("modelType"@.len() == 9 && "qualifiers"@.len() == 10);
            assert("modelType"@.len() == 9 && "embeddedDataSpecifications"@.len() == 26);
            assert("modelType"@[0] != "direction"@[0]);
            assert("modelType"@.len() == 9 && "state"@.len() == 5);
            assert("modelType"@.len() == 9 && "messageTopic"@.len() == 12);
            assert("modelType"@.len() == 9 && "messageBroker"@.len() == 13);
            assert("modelType"@.len() == 9 && "lastUpdate"@.len() == 10);
            assert("modelType"@.len() == 9 && "minInterval"@.len() == 11);
            assert("modelType"@.len() == 9 && "maxInterval"@.len() == 11);
            assert("idShort"@.len() == 7 && "modelType"@.len() == 9);
            assert("idShort"@.len() == 7 && "displayName"@.len() == 11);
            assert("idShort"@.len() == 7 && "description"@.len() == 11);
            assert("idShort"@.len() == 7 && "category"@.len() == 8);
            assert("idShort"@.len() == 7 && "extensions"@.len() == 10);
            assert("idShort"@.len() == 7 && "semanticId"@.len() == 10);
            assert("idShort"@.len() == 7 && "supplementalSemanticIds"@.len() == 23);
            assert("idShort"@.len() == 7 && "qualifiers"@.len() == 10);
            assert("idShort"@.len() == 7 && "embeddedDataSpecifications"@.len() == 26);
            assert("idShort"@.len() == 7 && "direction"@.len() == 9);
            assert("idShort"@.len() == 7 && "state"@.len() == 5);
            assert("idShort"@.len() == 7 && "messageTopic"@.len() == 12);
            assert("idShort"@.len() == 7 && "messageBroker"@.len() == 13);
            assert("idShort"@.len() == 7 && "lastUpdate"@.len() == 10);
            assert("idShort"@.len() == 7 && "minInterval"@.len() == 11);
            assert("idShort"@.len() == 7 && "maxInterval"@.len() == 11);
            assert("displayName"@.len() == 11 && "modelType"@.len() == 9);
            assert("displayName"@.len() == 11 && "idShort"@.len() == 7);
            assert("displayName"@[1] != "description"@[1]);
            assert("displayName"@.len() == 11 && "category"@.len() == 8);
            assert("displayName"@.len() == 11 && "extensions"@.len() == 10);
            assert("displayName"@.len() == 11 && "semanticId"@.len() == 10);
            assert("displayName"@.len() == 11 && "supplementalSemanticIds"@.len() == 23);
            assert("displayName"@.len() == 11 && "qualifiers"@.len() == 10);
            assert("displayName"@.len() == 11 && "embeddedDataSpecifications"@.len() == 26);
            assert("displayName"@.len() == 11 && "direction"@.len() == 9);
            assert("displayName"@.len() == 11 && "state"@.len() == 5);
            assert("displayName"@.len() == 11 && "messageTopic"@.len() == 12);
            assert("displayName"@.len() == 11 && "messageBroker"@.len() == 13);
            assert("displayName"@.len() == 11 && "lastUpdate"@.len() == 10);
            assert("displayName"@[0] != "minInterval"@[0]);
            assert("displayName"@[0] != "maxInterval"@[0]);
            assert("description"@.len() == 11 && "modelType"@.len() == 9);
            assert("description"@.len() == 11 && "idShort"@.len() == 7);
            assert("description"@[1] != "displayName"@[1]);
            assert("description"@.len() == 11 && "category"@.len() == 8);
            assert("description"@.len() == 11 && "extensions"@.len() == 10);
            assert("description"@.len() == 11 && "semanticId"@.len() == 10);
            assert("description"@.len() == 11 && "supplementalSemanticIds"@.len() == 23);
            assert("description"@.len() == 11 && "qualifiers"@.len() == 10);
            assert("description"@.len() == 11 && "embeddedDataSpecifications"@.len() == 26);
            assert("description"@.len() == 11 && "direction"@.len() == 9);
            assert("description"@.len() == 11 && "state"@.len() == 5);
            assert("description"@.len() == 11 && "messageTopic"@.len() == 12);
            assert("description"@.len() == 11 && "messageBroker"@.len() == 13);
            assert("description"@.len() == 11 && "lastUpdate"@.len() == 10);
            assert("description"@[0] != "minInterval"@[0]);
            assert("description"@[0] != "maxInterval"@[0]);
            assert("category"@.len() == 8 && "modelType"@.len() == 9);
            assert("category"@.len() == 8 && "idShort"@.len() == 7);
            assert("category"@.len() == 8 && "displayName"@.len() == 11);
            assert("category"@.len() == 8 && "description"@.len() == 11);
            assert("category"@.len() == 8 && "extensions"@.len() == 10);
            assert("category"@.len() == 8 && "semanticId"@.len() == 10);
            assert("category"@.len() == 8 && "supplementalSemanticIds"@.len() == 23);
            assert("category"@.len() == 8 && "qualifiers"@.len() == 10);
            assert("category"@.len() == 8 && "embeddedDataSpecifications"@.len() == 26);
            assert("category"@.len() == 8 && "direction"@.len() == 9);
            assert("category"@.len() == 8 && "state"@.len() == 5);
            assert("category"@.len() == 8 && "messageTopic"@.len() == 12);
            assert("category"@.len() == 8 && "messageBroker"@.len() == 13);
            assert("category"@.len() == 8 && "lastUpdate"@.len() == 10);
            assert("category"@.len() == 8 && "minInterval"@.len() == 11);
            assert("category"@.len() == 8 && "maxInterval"@.len() == 11);
            assert("extensions"@.len() == 10 && "modelType"@.len() == 9);
            assert("extensions"@.len() == 10 && "idShort"@.len() == 7);
            assert("extensions"@.len() == 10 && "displayName"@.len() == 11);
            assert("extensions"@.len() == 10 && "description"@.len() == 11);
            assert("extensions"@.len() == 10 && "category"@.len() == 8);
            assert("extensions"@[0] != "semanticId"@[0]);
            assert("extensions"@.len() == 10 && "supplementalSemanticIds"@.len() == 23);
            assert("extensions"@[0] != "qualifiers"@[0]);
            assert("extensions"@.len() == 10 && "embeddedDataSpecifications"@.len() == 26);
            assert("extensions"@.len() == 10 && "direction"@.len() == 9);
            assert("extensions"@.len() == 10 && "state"@.len() == 5);
            assert("extensions"@.len() == 10 && "messageTopic"@.len() == 12);
            assert("extensions"@.len() == 10 && "messageBroker"@.len() == 13);
            assert("extensions"@[0] != "lastUpdate"@[0]);
            assert("extensions"@.len() == 10 && "minInterval"@.len() == 11);
            assert("extensions"@.len() == 10 && "maxInterval"@.len() == 11);
            assert("semanticId"@.len() == 10 && "modelType"@.len() == 9);
            assert("semanticId"@.len() == 10 && "idShort"@.len() == 7);
            assert("semanticId"@.len() == 10 && "displayName"@.len() == 11);
            assert("semanticId"@.len() == 10 && "description"@.len() == 11);
            assert("semanticId"@.len() == 10 && "category"@.len() == 8);
            assert("semanticId"@[0] != "extensions"@[0]);
            assert("semanticId"@.len() == 10 && "supplementalSemanticIds"@.len() == 23);
            assert("semanticId"@[0] != "qualifiers"@[0]);
            assert("semanticId"@.len() == 10 && "embeddedDataSpecifications"@.len() == 26);
            assert("semanticId"@.len() == 10 && "direction"@.len() == 9);
            assert("semanticId"@.len() == 10 && "state"@.len() == 5);
            assert("semanticId"@.len() == 10 && "messageTopic"@.len() == 12);
            assert("semanticId"@.len() == 10 && "messageBroker"@.len() == 13);
            assert("semanticId"@[0] != "lastUpdate"@[0]);
            assert("semanticId"@.len() == 10 && "minInterval"@.len() == 11);
            assert("semanticId"@.len() == 10 && "maxInterval"@.len() == 11);
            assert("supplementalSemanticIds"@.len() == 23 && "modelType"@.len() == 9);
            assert("supplementalSemanticIds"@.len() == 23 && "idShort"@.len() == 7);
            assert("supplementalSemanticIds"@.len() == 23 && "displayName"@.len() == 11);
            assert("supplementalSemanticIds"@.len() == 23 && "description"@.len() == 11);
            assert("supplementalSemanticIds"@.len() == 23 && "category"@.len() == 8);
            assert("supplementalSemanticIds"@.len() == 23 && "extensions"@.len() == 10);
            assert("supplementalSemanticIds"@.len() == 23 && "semanticId"@.len() == 10);
            assert("supplementalSemanticIds"@.len() == 23 && "qualifiers"@.len() == 10);
            assert("supplementalSemanticIds"@.len() == 23 && "embeddedDataSpecifications"@.len() == 26);
            assert("supplementalSemanticIds"@.len() == 23 && "direction"@.len() == 9);
            assert("supplementalSemanticIds"@.len() == 23 && "state"@.len() == 5);
            assert("supplementalSemanticIds"@.len() == 23 && "messageTopic"@.len() == 12);
            assert("supplementalSemanticIds"@.len() == 23 && "messageBroker"@.len() == 13);
            assert("supplementalSemanticIds"@.len() == 23 && "lastUpdate"@.len() == 10);
            assert("supplementalSemanticIds"@.len() == 23 && "minInterval"@.len() == 11);
            assert("supplementalSemanticIds"@.len() == 23 && "maxInterval"@.len() == 11);
            assert("qualifiers"@.len() == 10 && "modelType"@.len() == 9);
            assert("qualifiers"@.len() == 10 && "idShort"@.len() == 7);
            assert("qualifiers"@.len() == 10 && "displayName"@.len() == 11);
            assert("qualifiers"@.len() == 10 && "description"@.len() == 11);
            assert("qualifiers"@.len() == 10 && "category"@.len() == 8);
            assert("qualifiers"@[0] != "extensions"@[0]);
            assert("qualifiers"@[0] != "semanticId"@[0]);
            assert("qualifiers"@.len() == 10 && "supplementalSemanticIds"@.len() == 23);
            assert("qualifiers"@.len() == 10 && "embeddedDataSpecifications"@.len() == 26);
            assert("qualifiers"@.len() == 10 && "direction"@.len() == 9);
            assert("qualifiers"@.len() == 10 && "state"@.len() == 5);
            assert("qualifiers"@.len() == 10 && "messageTopic"@.len() == 12);
            assert("qualifiers"@.len() == 10 && "messageBroker"@.len() == 13);
            assert("qualifiers"@[0] != "lastUpdate"@[0]);
            assert("qualifiers"@.len() == 10 && "minInterval"@.len() == 11);
            assert("qualifiers"@.len() == 10 && "maxInterval"@.len() == 11);
            assert("embeddedDataSpecifications"@.len() == 26 && "modelType"@.len() == 9);
            assert("embeddedDataSpecifications"@.len() == 26 && "idShort"@.len() == 7);
            assert("embeddedDataSpecifications"@.len() == 26 && "displayName"@.len() == 11);
            assert("embeddedDataSpecifications"@.len() == 26 && "description"@.len() == 11);
            assert("embeddedDataSpecifications"@.len() == 26 && "category"@.len() == 8);
            assert("embeddedDataSpecifications"@.len() == 26 && "extensions"@.len() == 10);
            assert("embeddedDataSpecifications"@.len() == 26 && "semanticId"@.len() == 10);
            assert("embeddedDataSpecifications"@.len() == 26 && "supplementalSemanticIds"@.len() == 23);
            assert("embeddedDataSpecifications"@.len() == 26 && "qualifiers"@.len() == 10);
            assert("embeddedDataSpecifications"@.len() == 26 && "direction"@.len() == 9);
            assert("embeddedDataSpecifications"@.len() == 26 && "state"@.len() == 5);
            assert("embeddedDataSpecifications"@.len() == 26 && "messageTopic"@.len() == 12);
            assert("embeddedDataSpecifications"@.len() == 26 && "messageBroker"@.len() == 13);
            assert("embeddedDataSpecifications"@.len() == 26 && "lastUpdate"@.len() == 10);
            assert("embeddedDataSpecifications"@.len() == 26 && "minInterval"@.len() == 11);
            assert("embeddedDataSpecifications"@.len() == 26 && "maxInterval"@.len() == 11);
            assert("direction"@[0] != "modelType"@[0]);
            assert("direction"@.len() == 9 && "idShort"@.len() == 7);
            assert("direction"@.len() == 9 && "displayName"@.len() == 11);
            assert("direction"@.len() == 9 && "description"@.len() == 11);
            assert("direction"@.len() == 9 && "category"@.len() == 8);
            assert("direction"@.len() == 9 && "extensions"@.len() == 10);
            assert("direction"@.len() == 9 && "semanticId"@.len() == 10);
            assert("direction"@.len() == 9 && "supplementalSemanticIds"@.len() == 23);
            assert("direction"@.len() == 9 && "qualifiers"@.len() == 10);
            assert("direction"@.len() == 9 && "embeddedDataSpecifications"@.len() == 26);
            assert("direction"@.len() == 9 && "state"@.len() == 5);
            assert("direction"@.len() == 9 && "messageTopic"@.len() == 12);
            assert("direction"@.len() == 9 && "messageBroker"@.len() == 13);
            assert("direction"@.len() == 9 && "lastUpdate"@.len() == 10);
            assert("direction"@.len() == 9 && "minInterval"@.len() == 11);
            assert("direction"@.len() == 9 && "maxInterval"@.len() == 11);
            assert("state"@.len() == 5 && "modelType"@.len() == 9);
            assert("state"@.len() == 5 && "idShort"@.len() == 7);
            assert("state"@.len() == 5 && "displayName"@.len() == 11);
            assert("state"@.len() == 5 && "description"@.len() == 11);
            assert("state"@.len() == 5 && "category"@.len() == 8);
            assert("state"@.len() == 5 && "extensions"@.len() == 10);
            assert("state"@.len() == 5 && "semanticId"@.len() == 10);
            assert("state"@.len() == 5 && "supplementalSemanticIds"@.len() == 23);
            assert("state"@.len() == 5 && "qualifiers"@.len() == 10);
            assert("state"@.len() == 5 && "embeddedDataSpecifications"@.len() == 26);
            assert("state"@.len() == 5 && "direction"@.len() == 9);
            assert("state"@.len() == 5 && "messageTopic"@.len() == 12);
            assert("state"@.len() == 5 && "messageBroker"@.len() == 13);
            assert("state"@.len() == 5 && "lastUpdate"@.len() == 10);
            assert("state"@.len() == 5 && "minInterval"@.len() == 11);
            assert("state"@.len() == 5 && "maxInterval"@.len() == 11);
            assert("messageTopic"@.len() == 12 && "modelType"@.len() == 9);
            assert("messageTopic"@.len() == 12 && "idShort"@.len() == 7);
            assert("messageTopic"@.len() == 12 && "displayName"@.len() == 11);
            assert("messageTopic"@.len() == 12 && "description"@.len() == 11);
            assert("messageTopic"@.len() == 12 && "category"@.len() == 8);
            assert("messageTopic"@.len() == 12 && "extensions"@.len() == 10);
            assert("messageTopic"@.len() == 12 && "semanticId"@.len() == 10);
            assert("messageTopic"@.len() == 12 && "supplementalSemanticIds"@.len() == 23);
            assert("messageTopic"@.len() == 12 && "qualifiers"@.len() == 10);
            assert("messageTopic"@.len() == 12 && "embeddedDataSpecifications"@.len() == 26);
            assert("messageTopic"@.len() == 12 && "direction"@.len() == 9);
            assert("messageTopic"@.len() == 12 && "state"@.len() == 5);
            assert("messageTopic"@.len() == 12 && "messageBroker"@.len() == 13);
            assert("messageTopic"@.len() == 12 && "lastUpdate"@.len() == 10);
            assert("messageTopic"@.len() == 12 && "minInterval"@.len() == 11);
            assert("messageTopic"@.len() == 12 && "maxInterval"@.len() == 11);
            assert("messageBroker"@.len() == 13 && "modelType"@.len() == 9);
            assert("messageBroker"@.len() == 13 && "idShort"@.len() == 7);
            assert("messageBroker"@.len() == 13 && "displayName"@.len() == 11);
            assert("messageBroker"@.len() == 13 && "description"@.len() == 11);
            assert("messageBroker"@.len() == 13 && "category"@.len() == 8);
            assert("messageBroker"@.len() == 13 && "extensions"@.len() == 10);
            assert("messageBroker"@.len() == 13 && "semanticId"@.len() == 10);
            assert("messageBroker"@.len() == 13 && "supplementalSemanticIds"@.len() == 23);
            assert("messageBroker"@.len() == 13 && "qualifiers"@.len() == 10);
            assert("messageBroker"@.len() == 13 && "embeddedDataSpecifications"@.len() == 26);
            assert("messageBroker"@.len() == 13 && "direction"@.len() == 9);
            assert("messageBroker"@.len() == 13 && "state"@.len() == 5);
            assert("messageBroker"@.len() == 13 && "messageTopic"@.len() == 12);
            assert("messageBroker"@.len() == 13 && "lastUpdate"@.len() == 10);
            assert("messageBroker"@.len() == 13 && "minInterval"@.len() == 11);
            assert("messageBroker"@.len() == 13 && "maxInterval"@.len() == 11);
            assert("lastUpdate"@.len() == 10 && "modelType"@.len() == 9);
            assert("lastUpdate"@.len() == 10 && "idShort"@.len() == 7);
            assert("lastUpdate"@.len() == 10 && "displayName"@.len() == 11);
            assert("lastUpdate"@.len() == 10 && "description"@.len() == 11);
            assert("lastUpdate"@.len() == 10 && "category"@.len() == 8);
            assert("lastUpdate"@[0] != "extensions"@[0]);
            assert("lastUpdate"@[0] != "semanticId"@[0]);
            assert("lastUpdate"@.len() == 10 && "supplementalSemanticIds"@.len() == 23);
            assert("lastUpdate"@[0] != "qualifiers"@[0]);
            assert("lastUpdate"@.len() == 10 && "embeddedDataSpecifications"@.len() == 26);
            assert("lastUpdate"@.len() == 10 && "direction"@.len() == 9);
            assert("lastUpdate"@.len() == 10 && "state"@.len() == 5);
            assert("lastUpdate"@.len() == 10 && "messageTopic"@.len() == 12);
            assert("lastUpdate"@.len() == 10 && "messageBroker"@.len() == 13);
            assert("lastUpdate"@.len() == 10 && "minInterval"@.len() == 11);
            assert("lastUpdate"@.len() == 10 && "maxInterval"@.len() == 11);
            assert("minInterval"@.len() == 11 && "modelType"@.len() == 9);
            assert("minInterval"@.len() == 11 && "idShort"@.len() == 7);
            assert("minInterval"@[0] != "displayName"@[0]);
            assert("minInterval"@[0] != "description"@[0]);
            assert("minInterval"@.len() == 11 && "category"@.len() == 8);
            assert("minInterval"@.len() == 11 && "extensions"@.len() == 10);
            assert("minInterval"@.len() == 11 && "semanticId"@.len() == 10);
            assert("minInterval"@.len() == 11 && "supplementalSemanticIds"@.len() == 23);
            assert("minInterval"@.len() == 11 && "qualifiers"@.len() == 10);
            assert("minInterval"@.len() == 11 && "embeddedDataSpecifications"@.len() == 26);
            assert("minInterval"@.len() == 11 && "direction"@.len() == 9);
            assert("minInterval"@.len() == 11 && "state"@.len() == 5);
            assert("minInterval"@.len() == 11 && "messageTopic"@.len() == 12);
            assert("minInterval"@.len() == 11 && "messageBroker"@.len() == 13);
            assert("minInterval"@.len() == 11 && "lastUpdate"@.len() == 10);
            assert("minInterval"@[1] != "maxInterval"@[1]);
            assert("maxInterval"@.len() == 11 && "modelType"@.len() == 9);
            assert("maxInterval"@.len() == 11 && "idShort"@.len() == 7);
            assert("maxInterval"@[0] != "displayName"@[0]);
            assert("maxInterval"@[0] != "description"@[0]);
            assert("maxInterval"@.len() == 11 && "category"@.len() == 8);
            assert("maxInterval"@.len() == 11 && "extensions"@.len() == 10);
            assert("maxInterval"@.len() == 11 && "semanticId"@.len() == 10);
            assert("maxInterval"@.len() == 11 && "supplementalSemanticIds"@.len() == 23);
            assert("maxInterval"@.len() == 11 && "qualifiers"@.len() == 10);
            assert("maxInterval"@.len() == 11 && "embeddedDataSpecifications"@.len() == 26);
            assert("maxInterval"@.len() == 11 && "direction"@.len() == 9);
            assert("maxInterval"@.len() == 11 && "state"@.len() == 5);
            assert("maxInterval"@.len() == 11 && "messageTopic"@.len() == 12);
            assert("maxInterval"@.len() == 11 && "messageBroker"@.len() == 13);
            assert("maxInterval"@.len() == 11 && "lastUpdate"@.len() == 10);
            assert("maxInterval"@[1] != "minInterval"@[1]);
        }
        let mut fs: Vec<(String, Json)> = Vec::new();
        let ghost prev = fs@;
        let mut part = self.encode_step0();
        let ghost sp = part@;
        fs.append(&mut part);
        proof {
            lemma_names_within_empty(prev, |n: Seq<char>| basic_event_element_meta_chunk0_name(n));
            lemma_names_within_concat(prev, sp, |n: Seq<char>| basic_event_element_meta_chunk0_name(n), |n: Seq<char>| basic_event_element_meta_chunk0_name(n), |n: Seq<char>| basic_event_element_meta_chunk0_name(n));
            lemma_lookup_concat(prev, sp, "modelType"@);
            assert(prev.len() == 0);
            lemma_lookup_concat(prev, sp, "idShort"@);
            assert(prev.len() == 0);
            lemma_lookup_concat(prev, sp, "displayName"@);
            assert(prev.len() == 0);
            lemma_lookup_concat(prev, sp, "description"@);
            assert(prev.len() == 0);
            lemma_lookup_concat(prev, sp, "category"@);
            assert(prev.len() == 0);
            lemma_lookup_concat(prev, sp, "extensions"@);
            assert(prev.len() == 0);
            lemma_lookup_concat(prev, sp, "semanticId"@);
            assert(prev.len() == 0);
            lemma_lookup_concat(prev, sp, "supplementalSemanticIds"@);
            assert(prev.len() == 0);
            lemma_lookup_concat(prev, sp, "qualifiers"@);
            assert(prev.len() == 0);
            lemma_lookup_concat(prev, sp, "embeddedDataSpecifications"@);
            assert(prev.len() == 0);
            lemma_lookup_concat(prev, sp, "direction"@);
            assert(prev.len() == 0);
            lemma_lookup_concat(prev, sp, "state"@);
            assert(prev.len() == 0);
            lemma_lookup_concat(prev, sp, "messageTopic"@);
            assert(prev.len() == 0);
            lemma_lookup_concat(prev, sp, "messageBroker"@);
            assert(prev.len() == 0);
        }
        let ghost prev = fs@;
        let mut part = self.encode_step1();
        let ghost sp = part@;
        fs.append(&mut part);
        proof {
            lemma_names_within_concat(prev, sp, |n: Seq<char>| basic_event_element_meta_chunk0_name(n), |n: Seq<char>| basic_event_element_meta_chunk1_name(n), |n: Seq<char>| basic_event_element_meta_name(n));
            lemma_lookup_concat(prev, sp, "modelType"@);
            lemma_lookup_outside(sp, |n: Seq<char>| basic_event_element_meta_chunk1_name(n), "modelType"@);
            lemma_lookup_concat(prev, sp, "idShort"@);
            lemma_lookup_outside(sp, |n: Seq<char>| basic_event_element_meta_chunk1_name(n), "idShort"@);
            lemma_lookup_concat(prev, sp, "displayName"@);
            lemma_lookup_outside(sp, |n: Seq<char>| basic_event_element_meta_chunk1_name(n), "displayName"@);
            lemma_lookup_concat(prev, sp, "description"@);
            lemma_lookup_outside(sp, |n: Seq<char>| basic_event_element_meta_chunk1_name(n), "description"@);
            lemma_lookup_concat(prev, sp, "category"@);
            lemma_lookup_outside(sp, |n: Seq<char>| basic_event_element_meta_chunk1_name(n), "category"@);
            lemma_lookup_concat(prev, sp, "extensions"@);
            lemma_lookup_outside(sp, |n: Seq<char>| basic_event_element_meta_chunk1_name(n), "extensions"@);
            lemma_lookup_concat(prev, sp, "semanticId"@);
            lemma_lookup_outside(sp, |n: Seq<char>| basic_event_element_meta_chunk1_name(n), "semanticId"@);
            lemma_lookup_concat(prev, sp, "supplementalSemanticIds"@);
            lemma_lookup_outside(sp, |n: Seq<char>| basic_event_element_meta_chunk1_name(n), "supplementalSemanticIds"@);
            lemma_lookup_concat(prev, sp, "qualifiers"@);
            lemma_lookup_outside(sp, |n: Seq<char>| basic_event_element_meta_chunk1_name(n), "qualifiers"@);
            lemma_lookup_concat(prev, sp, "embeddedDataSpecifications"@);
            lemma_lookup_outside(sp, |n: Seq<char>| basic_event_element_meta_chunk1_name(n), "embeddedDataSpecifications"@);
            lemma_lookup_concat(prev, sp, "direction"@);
            lemma_lookup_outside(sp, |n: Seq<char>| basic_event_element_meta_chunk1_name(n), "direction"@);
            lemma_lookup_concat(prev, sp, "state"@);
            lemma_lookup_outside(sp, |n: Seq<char>| basic_event_element_meta_chunk1_name(n), "state"@);
            lemma_lookup_concat(prev, sp, "messageTopic"@);
            lemma_lookup_outside(sp, |n: Seq<char>| basic_event_element_meta_chunk1_name(n), "messageTopic"@);
            lemma_lookup_concat(prev, sp, "messageBroker"@);
            lemma_lookup_outside(sp, |n: Seq<char>| basic_event_element_meta_chunk1_name(n), "messageBroker"@);
            lemma_lookup_concat(prev, sp, "lastUpdate"@);
            lemma_lookup_outside(prev, |n: Seq<char>| basic_event_element_meta_chunk0_name(n), "lastUpdate"@);
            lemma_lookup_concat(prev, sp, "minInterval"@);
            lemma_lookup_outside(prev, |n: Seq<char>| basic_event_element_meta_chunk0_name(n), "minInterval"@);
            lemma_lookup_concat(prev, sp, "maxInterval"@);
            lemma_lookup_outside(prev, |n: Seq<char>| basic_event_element_meta_chunk0_name(n), "maxInterval"@);
        }
        fs
    }

    /// Reads the members of the value from `fs`.
    pub fn decode_members(fs: &Vec<(String, Json)>) -> (r: Result<BasicEventElementMeta, DecodeError>)
        ensures
            match basic_event_element_meta_error(fs@) {
                Some(e) => r == Err::<BasicEventElementMeta, DecodeError>(e),
                None => r matches Ok(x) && basic_event_element_meta_rel(x, fs@),
            },
    {
        match get_member(fs, "modelType") {
            None => return Err(DecodeError::MissingField),
            Some(Json::Str(t)) => if !str_eq(t.as_str(), "BasicEventElement") {
                return Err(DecodeError::UnknownDiscriminator);
            },
            Some(_) => return Err(DecodeError::UnexpectedKind),
        }
        let submodel_element_fields = match SubmodelElementFields::decode_members(fs) {
            Ok(v) => v,
            Err(e) => return Err(e),
        };
        let direction = match decode_req::<Direction>(fs, "direction") {
            Ok(v) => v,
            Err(e) => return Err(e),
        };
        let state = match decode_req::<StateOfEvent>(fs, "state") {
            Ok(v) => v,
            Err(e) => return Err(e),
        };
        let message_topic = match decode_opt::<MessageTopic>(fs, "messageTopic") {
            Ok(v) => v,
            Err(e) => return Err(e),
        };
        let message_broker = match decode_opt::<Reference>(fs, "messageBroker") {
            Ok(v) => v,
            Err(e) => return Err(e),
        };
        let last_update = match decode_opt::<String>(fs, "lastUpdate") {
            Ok(v) => v,
            Err(e) => return Err(e),
        };
        let min_interval = match decode_opt::<String>(fs, "minInterval") {
            Ok(v) => v,
            Err(e) => return Err(e),
        };
        let max_interval = match decode_opt::<String>(fs, "maxInterval") {
            Ok(v) => v,
            Err(e) => return Err(e),
        };
        Ok(BasicEventElementMeta { submodel_element_fields, direction, state, message_topic, message_broker, last_update, min_interval, max_interval })
    }
}

/// Members found as encoding writes them decode to a value, whatever
/// other members stand beside them.
pub proof fn lemma_basic_event_element_meta_round_trip(x: BasicEventElementMeta, fs: Seq<(String, Json)>)
    requires
        basic_event_element_meta_wf(x),
        basic_event_element_meta_lookups(x, fs),
    ensures
        basic_event_element_meta_error(fs) is None,
        basic_event_element_meta_rel(x, fs),
{
    lemma_submodel_element_fields_round_trip(x.submodel_element_fields, fs);
    lemma_req_round_trip(x.direction, lookup(fs, "direction"@));
    lemma_req_round_trip(x.state, lookup(fs, "state"@));
    lemma_opt_round_trip(x.message_topic, lookup(fs, "messageTopic"@));
    lemma_opt_round_trip(x.message_broker, lookup(fs, "messageBroker"@));
    lemma_opt_round_trip(x.last_update, lookup(fs, "lastUpdate"@));
    lemma_opt_round_trip(x.min_interval, lookup(fs, "minInterval"@));
    lemma_opt_round_trip(x.max_interval, lookup(fs, "maxInterval"@));
}

/// The values that the same members decode to hold the same content.
pub proof fn lemma_basic_event_element_meta_unique(x: BasicEventElementMeta, y: BasicEventElementMeta, fs: Seq<(String, Json)>)
    requires
        basic_event_element_meta_rel(x, fs),
        basic_event_element_meta_rel(y, fs),
    ensures
        basic_event_element_meta_equiv(x, y),
{
    lemma_submodel_element_fields_unique(x.submodel_element_fields, y.submodel_element_fields, fs);
    lemma_req_unique(x.direction, y.direction, member(fs, "direction"@));
    lemma_req_unique(x.state, y.state, member(fs, "state"@));
    lemma_opt_unique(x.message_topic, y.message_topic, member(fs, "messageTopic"@));
    lemma_opt_unique(x.message_broker, y.message_broker, member(fs, "messageBroker"@));
    lemma_opt_unique(x.last_update, y.last_update, member(fs, "lastUpdate"@));
    lemma_opt_unique(x.min_interval, y.min_interval, member(fs, "minInterval"@));
    lemma_opt_unique(x.max_interval, y.max_interval, member(fs, "maxInterval"@));
}

impl JsonCodec for BasicEventElementMeta {
    open spec fn wf(&self) -> bool {
        basic_event_element_meta_wf(*self)
    }

    open spec fn encoded(&self, j: Json) -> bool {
        j matches Json::Object(fs) && basic_event_element_meta_encoded(*self, fs@)
    }

    open spec fn rel(&self, j: Json) -> bool {
        j matches Json::Object(fs) && basic_event_element_meta_rel(*self, fs@)
    }

    open spec fn decode_error(j: Json) -> Option<DecodeError> {
        match j {
            Json::Object(fs) => basic_event_element_meta_error(fs@),
            _ => Some(DecodeError::UnexpectedKind),
        }
    }

    open spec fn equiv(&self, o: &Self) -> bool {
        basic_event_element_meta_equiv(*self, *o)
    }

    fn encode(&self) -> (r: Json) {
        Json::Object(self.encode_members())
    }

    fn decode(j: &Json) -> (r: Result<Self, DecodeError>) {
        match j {
            Json::Object(fs) => BasicEventElementMeta::decode_members(fs),
            _ => Err(DecodeError::UnexpectedKind),
        }
    }

    proof fn lemma_round_trip(&self, j: Json) {
        lemma_basic_event_element_meta_round_trip(*self, j->Object_0@);
    }

    proof fn lemma_unique(&self, o: &Self, j: Json) {
        lemma_basic_event_element_meta_unique(*self, *o, j->Object_0@);
    }
}
/// An identifier of the asset that is specific to some party or context.
#[derive(Clone, Debug, PartialEq)]
pub struct SpecificAssetId {
    pub has_semantics: HasSemantics,
    pub name: Label,
    pub value: Identifier,
    /// The external subject the value belongs to or has meaning to.
    pub external_subject_id: Option<Reference>,
}

/// A name of the members of `SpecificAssetId`.
pub open spec fn specific_asset_id_name(n: Seq<char>) -> bool {
    has_semantics_name(n) || n == "name"@ || n == "value"@ || n == "externalSubjectId"@
}

/// Looking up the members of `SpecificAssetId` in `fs` finds what encoding writes for `x`.
pub open spec fn specific_asset_id_lookups(x: SpecificAssetId, fs: Seq<(String, Json)>) -> bool {
    &&& has_semantics_lookups(x.has_semantics, fs)
    &&& req_encoded(x.name, lookup(fs, "name"@))
    &&& req_encoded(x.value, lookup(fs, "value"@))
    &&& opt_encoded(x.external_subject_id, lookup(fs, "externalSubjectId"@))
}

/// `fs` are the members that encoding writes for `x`.
pub open spec fn specific_asset_id_encoded(x: SpecificAssetId, fs: Seq<(String, Json)>) -> bool {
    &&& names_within(fs, |n: Seq<char>| specific_asset_id_name(n))
    &&& specific_asset_id_lookups(x, fs)
}

/// The members of `fs` decode to `x`.
pub open spec fn specific_asset_id_rel(x: SpecificAssetId, fs: Seq<(String, Json)>) -> bool {
    &&& has_semantics_rel(x.has_semantics, fs)
    &&& req_rel(x.name, member(fs, "name"@))
    &&& req_rel(x.value, member(fs, "value"@))
    &&& opt_rel(x.external_subject_id, member(fs, "externalSubjectId"@))
}

/// The error, if any, of decoding the members of `SpecificAssetId` from `fs`.
pub open spec fn specific_asset_id_error(fs: Seq<(String, Json)>) -> Option<DecodeError> {
    match has_semantics_error(fs) {
        Some(e) => Some(e),
        None => {
            match req_error::<Label>(member(fs, "name"@)) {
                Some(e) => Some(e),
                None => {
                    match req_error::<Identifier>(member(fs, "value"@)) {
                        Some(e) => Some(e),
                        None => {
                            match opt_error::<Reference>(member(fs, "externalSubjectId"@)) {
                                Some(e) => Some(e),
                                None => {
                                    None
                                },
                            }
                        },
                    }
                },
            }
        },
    }
}

/// The values of `x` are well-formed.
pub open spec fn specific_asset_id_wf(x: SpecificAssetId) -> bool {
    &&& has_semantics_wf(x.has_semantics)
    &&& x.name.wf()
    &&& x.value.wf()
    &&& opt_wf(x.external_subject_id)
}

/// `x` and `y` hold the same content.
pub open spec fn specific_asset_id_equiv(x: SpecificAssetId, y: SpecificAssetId) -> bool {
    &&& has_semantics_equiv(x.has_semantics, y.has_semantics)
    &&& x.name.equiv(&y.name)
    &&& x.value.equiv(&y.value)
    &&& opt_equiv(x.external_subject_id, y.external_subject_id)
}

impl SpecificAssetId {
    /// Writes the members of the value, absent ones left out.
    pub fn encode_members(&self) -> (r: Vec<(String, Json)>)
        ensures
            specific_asset_id_encoded(*self, r@),
    {
        proof {
            reveal_strlit("semanticId");
            reveal_strlit("supplementalSemanticIds");
            reveal_strlit("name");
            reveal_strlit("value");
            reveal_strlit("externalSubjectId");
            assert("semanticId"@.len() == 10 && "supplementalSemanticIds"@.len() == 23);
            assert("semanticId"@.len() == 10 && "name"@.len() == 4);
            assert("semanticId"@.len() == 10 && "value"@.len() == 5);
            assert("semanticId"@.len() == 10 && "externalSubjectId"@.len() == 17);
            assert("supplementalSemanticIds"@.len() == 23 && "semanticId"@.len() == 10);
            assert("supplementalSemanticIds"@.len() == 23 && "name"@.len() == 4);
            assert("supplementalSemanticIds"@.len() == 23 && "value"@.len() == 5);
            assert("supplementalSemanticIds"@.len() == 23 && "externalSubjectId"@.len() == 17);
            assert("name"@.len() == 4 && "semanticId"@.len() == 10);
            assert("name"@.len() == 4 && "supplementalSemanticIds"@.len() == 23);
            assert("name"@.len() == 4 && "value"@.len() == 5);
            assert("name"@.len() == 4 && "externalSubjectId"@.len() == 17);
            assert("value"@.len() == 5 && "semanticId"@.len() == 10);
            assert("value"@.len() == 5 && "supplementalSemanticIds"@.len() == 23);
            assert("value"@.len() == 5 && "name"@.len() == 4);
            assert("value"@.len() == 5 && "externalSubjectId"@.len() == 17);
            assert("externalSubjectId"@.len() == 17 && "semanticId"@.len() == 10);
            assert("externalSubjectId"@.len() == 17 && "supplementalSemanticIds"@.len() == 23);
            assert("externalSubjectId"@.len() == 17 && "name"@.len() == 4);
            assert("externalSubjectId"@.len() == 17 && "value"@.len() == 5);
        }
        let mut fs: Vec<(String, Json)> = Vec::new();
        let ghost prev = fs@;
        let mut part = self.has_semantics.encode_members();
        let ghost sp = part@;
        fs.append(&mut part);
        proof {
            lemma_names_within_empty(prev, |n: Seq<char>| has_semantics_name(n));
            lemma_names_within_concat(prev, sp, |n: Seq<char>| has_semantics_name(n), |n: Seq<char>| has_semantics_name(n), |n: Seq<char>| has_semantics_name(n));
            lemma_lookup_concat(prev, sp, "semanticId"@);
            assert(prev.len() == 0);
            lemma_lookup_concat(prev, sp, "supplementalSemanticIds"@);
            assert(prev.len() == 0);
        }
        let ghost prev = fs@;
        push_req(&mut fs, "name", &self.name);
        proof {
            lemma_names_within_weaken(prev, |n: Seq<char>| has_semantics_name(n), |n: Seq<char>| has_semantics_name(n) || n == "name"@);
            lemma_lookup_outside(prev, |n: Seq<char>| has_semantics_name(n), "name"@);
            if true {
                assert(fs@ == prev.push(fs@.last()));
                lemma_names_within_push(prev, fs@.last(), |n: Seq<char>| has_semantics_name(n) || n == "name"@);
                lemma_lookup_push(prev, fs@.last(), "semanticId"@);
                lemma_lookup_push(prev, fs@.last(), "supplementalSemanticIds"@);
                lemma_lookup_push(prev, fs@.last(), "name"@);
            }
        }
        let ghost prev = fs@;
        push_req(&mut fs, "value", &self.value);
        proof {
            lemma_names_within_weaken(prev, |n: Seq<char>| has_semantics_name(n) || n == "name"@, |n: Seq<char>| has_semantics_name(n) || n == "name"@ || n == "value"@);
            lemma_lookup_outside(prev, |n: Seq<char>| has_semantics_name(n) || n == "name"@, "value"@);
            if true {
                assert(fs@ == prev.push(fs@.last()));
                lemma_names_within_push(prev, fs@.last(), |n: Seq<char>| has_semantics_name(n) || n == "name"@ || n == "value"@);
                lemma_lookup_push(prev, fs@.last(), "semanticId"@);
                lemma_lookup_push(prev, fs@.last(), "supplementalSemanticIds"@);
                lemma_lookup_push(prev, fs@.last(), "name"@);
                lemma_lookup_push(prev, fs@.last(), "value"@);
            }
        }
        let ghost prev = fs@;
        push_opt(&mut fs, "externalSubjectId", &self.external_subject_id);
        proof {
            lemma_names_within_weaken(prev, |n: Seq<char>| has_semantics_name(n) || n == "name"@ || n == "value"@, |n: Seq<char>| specific_asset_id_name(n));
            lemma_lookup_outside(prev, |n: Seq<char>| has_semantics_name(n) || n == "name"@ || n == "value"@, "externalSubjectId"@);
            if self.external_subject_id is Some {
                assert(fs@ == prev.push(fs@.last()));
                lemma_names_within_push(prev, fs@.last(), |n: Seq<char>| specific_asset_id_name(n));
                lemma_lookup_push(prev, fs@.last(), "semanticId"@);
                lemma_lookup_push(prev, fs@.last(), "supplementalSemanticIds"@);
                lemma_lookup_push(prev, fs@.last(), "name"@);
                lemma_lookup_push(prev, fs@.last(), "value"@);
                lemma_lookup_push(prev, fs@.last(), "externalSubjectId"@);
            }
        }
        fs
    }

    /// Reads the members of the value from `fs`.
    pub fn decode_members(fs: &Vec<(String, Json)>) -> (r: Result<SpecificAssetId, DecodeError>)
        ensures
            match specific_asset_id_error(fs@) {
                Some(e) => r == Err::<SpecificAssetId, DecodeError>(e),
                None => r matches Ok(x) && specific_asset_id_rel(x, fs@),
            },
    {
        let has_semantics = match HasSemantics::decode_members(fs) {
            Ok(v) => v,
            Err(e) => return Err(e),
        };
        let name = match decode_req::<Label>(fs, "name") {
            Ok(v) => v,
            Err(e) => return Err(e),
        };
        let value = match decode_req::<Identifier>(fs, "value") {
            Ok(v) => v,
            Err(e) => return Err(e),
        };
        let external_subject_id = match decode_opt::<Reference>(fs, "externalSubjectId") {
            Ok(v) => v,
            Err(e) => return Err(e),
        };
        Ok(SpecificAssetId { has_semantics, name, value, external_subject_id })
    }
}

/// Members found as encoding writes them decode to a value, whatever
/// other members stand beside them.
pub proof fn lemma_specific_asset_id_round_trip(x: SpecificAssetId, fs: Seq<(String, Json)>)
    requires
        specific_asset_id_wf(x),
        specific_asset_id_lookups(x, fs),
    ensures
        specific_asset_id_error(fs) is None,
        specific_asset_id_rel(x, fs),
{
    lemma_has_semantics_round_trip(x.has_semantics, fs);
    lemma_req_round_trip(x.name, lookup(fs, "name"@));
    lemma_req_round_trip(x.value, lookup(fs, "value"@));
    lemma_opt_round_trip(x.external_subject_id, lookup(fs, "externalSubjectId"@));
}

/// The values that the same members decode to hold the same content.
pub proof fn lemma_specific_asset_id_unique(x: SpecificAssetId, y: SpecificAssetId, fs: Seq<(String, Json)>)
    requires
        specific_asset_id_rel(x, fs),
        specific_asset_id_rel(y, fs),
    ensures
        specific_asset_id_equiv(x, y),
{
    lemma_has_semantics_unique(x.has_semantics, y.has_semantics, fs);
    lemma_req_unique(x.name, y.name, member(fs, "name"@));
    lemma_req_unique(x.value, y.value, member(fs, "value"@));
    lemma_opt_unique(x.external_subject_id, y.external_subject_id, member(fs, "externalSubjectId"@));
}

impl JsonCodec for SpecificAssetId {
    open spec fn wf(&self) -> bool {
        specific_asset_id_wf(*self)
    }

    open spec fn encoded(&self, j: Json) -> bool {
        j matches Json::Object(fs) && specific_asset_id_encoded(*self, fs@)
    }

    open spec fn rel(&self, j: Json) -> bool {
        j matches Json::Object(fs) && specific_asset_id_rel(*self, fs@)
    }

    open spec fn decode_error(j: Json) -> Option<DecodeError> {
        match j {
            Json::Object(fs) => specific_asset_id_error(fs@),
            _ => Some(DecodeError::UnexpectedKind),
        }
    }

    open spec fn equiv(&self, o: &Self) -> bool {
        specific_asset_id_equiv(*self, *o)
    }

    fn encode(&self) -> (r: Json) {
        Json::Object(self.encode_members())
    }

    fn decode(j: &Json) -> (r: Result<Self, DecodeError>) {
        match j {
            Json::Object(fs) => SpecificAssetId::decode_members(fs),
            _ => Err(DecodeError::UnexpectedKind),
        }
    }

    proof fn lemma_round_trip(&self, j: Json) {
        lemma_specific_asset_id_round_trip(*self, j->Object_0@);
    }

    proof fn lemma_unique(&self, o: &Self, j: Json) {
        lemma_specific_asset_id_unique(*self, *o, j->Object_0@);
    }
}

impl PropertyMeta {
    /// The attributes of a property, without its value.
    pub fn from(full: Property) -> (r: PropertyMeta)
        ensures
            r.referable == full.referable,
            r.semantics == full.semantics,
            r.qualifiable == full.qualifiable,
            r.embedded_data_specifications == full.embedded_data_specifications,
    {
        PropertyMeta { referable: full.referable, semantics: full.semantics, qualifiable: full.qualifiable, embedded_data_specifications: full.embedded_data_specifications }
    }
}

impl BlobMeta {
    /// The attributes of a blob, without its value and content type.
    pub fn from(full: Blob) -> (r: BlobMeta)
        ensures
            r.referable == full.referable,
            r.semantics == full.semantics,
            r.qualifiable == full.qualifiable,
            r.embedded_data_specifications == full.embedded_data_specifications,
    {
        BlobMeta { referable: full.referable, semantics: full.semantics, qualifiable: full.qualifiable, embedded_data_specifications: full.embedded_data_specifications }
    }
}

impl FileMeta {
    /// The attributes of a file element, without its path and content type.
    pub fn from(full: File) -> (r: FileMeta)
        ensures
            r.referable == full.referable,
            r.semantics == full.semantics,
            r.qualifiable == full.qualifiable,
            r.embedded_data_specifications == full.embedded_data_specifications,
    {
        FileMeta { referable: full.referable, semantics: full.semantics, qualifiable: full.qualifiable, embedded_data_specifications: full.embedded_data_specifications }
    }
}

impl MultiLanguagePropertyMeta {
    /// The attributes of a multi-language property, without its value.
    pub fn from(full: MultiLanguageProperty) -> (r: MultiLanguagePropertyMeta)
        ensures
            r.referable == full.referable,
            r.semantics == full.semantics,
            r.qualifiable == full.qualifiable,
            r.embedded_data_specifications == full.embedded_data_specifications,
    {
        MultiLanguagePropertyMeta { referable: full.referable, semantics: full.semantics, qualifiable: full.qualifiable, embedded_data_specifications: full.embedded_data_specifications }
    }
}

impl RelationshipElementMeta {
    /// The attributes of a relationship, without the related elements.
    pub fn from(full: RelationshipElement) -> (r: RelationshipElementMeta)
        ensures
            r.submodel_element_fields == full.submodel_element_fields,
    {
        RelationshipElementMeta { submodel_element_fields: full.submodel_element_fields }
    }
}

impl BasicEventElementMeta {
    /// The attributes of an event element, without the observed element.
    pub fn from(full: BasicEventElement) -> (r: BasicEventElementMeta)
        ensures
            r.submodel_element_fields == full.submodel_element_fields,
            r.direction == full.direction,
            r.state == full.state,
            r.message_topic == full.message_topic,
            r.message_broker == full.message_broker,
            r.last_update == full.last_update,
            r.min_interval == full.min_interval,
            r.max_interval == full.max_interval,
    {
        BasicEventElementMeta { submodel_element_fields: full.submodel_element_fields, direction: full.direction, state: full.state, message_topic: full.message_topic, message_broker: full.message_broker, last_update: full.last_update, min_interval: full.min_interval, max_interval: full.max_interval }
    }
}

/// The metamodel view of a property leaves out the value and its type and
/// keeps every attribute: encoding the view of `p` writes no `value` or
/// `valueType` member, and its attribute members are found as encoding
/// writes the attributes of `p`; encoding `p` itself writes its value type.
pub proof fn lemma_property_projection(p: Property, fs_full: Seq<(String, Json)>, fs_meta: Seq<(String, Json)>)
    requires
        property_encoded(p, fs_full),
        property_meta_encoded(
            PropertyMeta {
                referable: p.referable,
                semantics: p.semantics,
                qualifiable: p.qualifiable,
                embedded_data_specifications: p.embedded_data_specifications,
            },
            fs_meta,
        ),
    ensures
        lookup(fs_meta, "modelType"@) matches Some(Json::Str(t)) && t@ == "Property"@,
        lookup(fs_full, "modelType"@) matches Some(Json::Str(t)) && t@ == "Property"@,
        lookup(fs_meta, "value"@) is None,
        lookup(fs_meta, "valueType"@) is None,
        lookup(fs_full, "valueType"@) is Some,
        p.value.has_value() ==> lookup(fs_full, "value"@) is Some,
        referable_lookups(p.referable, fs_meta),
        has_semantics_lookups(p.semantics, fs_meta),
        qualifiable_lookups(p.qualifiable, fs_meta),
        has_data_specification_lookups(p.embedded_data_specifications, fs_meta),
        referable_lookups(p.referable, fs_full),
        has_semantics_lookups(p.semantics, fs_full),
        qualifiable_lookups(p.qualifiable, fs_full),
        has_data_specification_lookups(p.embedded_data_specifications, fs_full),
{

    reveal_strlit("modelType");
    reveal_strlit("idShort");
    reveal_strlit("displayName");
    reveal_strlit("description");
    reveal_strlit("category");
    reveal_strlit("extensions");
    reveal_strlit("semanticId");
    reveal_strlit("supplementalSemanticIds");
    reveal_strlit("qualifiers");
    reveal_strlit("embeddedDataSpecifications");
    reveal_strlit("value");
    reveal_strlit("valueType");
    assert("value"@.len() == 5 && "modelType"@.len() == 9);
    assert("value"@.len() == 5 && "idShort"@.len() == 7);
    assert("value"@.len() == 5 && "displayName"@.len() == 11);
    assert("value"@.len() == 5 && "description"@.len() == 11);
    assert("value"@.len() == 5 && "category"@.len() == 8);
    assert("value"@.len() == 5 && "extensions"@.len() == 10);
    assert("value"@.len() == 5 && "semanticId"@.len() == 10);
    assert("value"@.len() == 5 && "supplementalSemanticIds"@.len() == 23);
    assert("value"@.len() == 5 && "qualifiers"@.len() == 10);
    assert("value"@.len() == 5 && "embeddedDataSpecifications"@.len() == 26);
    assert("valueType"@[0] != "modelType"@[0]);
    assert("valueType"@.len() == 9 && "idShort"@.len() == 7);
    assert("valueType"@.len() == 9 && "displayName"@.len() == 11);
    assert("valueType"@.len() == 9 && "description"@.len() == 11);
    assert("valueType"@.len() == 9 && "category"@.len() == 8);
    assert("valueType"@.len() == 9 && "extensions"@.len() == 10);
    assert("valueType"@.len() == 9 && "semanticId"@.len() == 10);
    assert("valueType"@.len() == 9 && "supplementalSemanticIds"@.len() == 23);
    assert("valueType"@.len() == 9 && "qualifiers"@.len() == 10);
    assert("valueType"@.len() == 9 && "embeddedDataSpecifications"@.len() == 26);
    lemma_lookup_outside(fs_meta, |n: Seq<char>| property_meta_name(n), "value"@);
    lemma_lookup_outside(fs_meta, |n: Seq<char>| property_meta_name(n), "valueType"@);
}
impl Property {
    /// Writes the members of the metamodel view of the value: its
    /// attributes, without the value.
    #[verifier::rlimit(100)]
    #[verifier::spinoff_prover]
    pub fn metamodel_members(&self) -> (r: Vec<(String, Json)>)
        ensures
            property_meta_encoded(PropertyMeta { referable: self.referable, semantics: self.semantics, qualifiable: self.qualifiable, embedded_data_specifications: self.embedded_data_specifications }, r@),
    {
        proof {
            reveal_strlit("modelType");
            reveal_strlit("idShort");
            reveal_strlit("displayName");
            reveal_strlit("description");
            reveal_strlit("category");
            reveal_strlit("extensions");
            reveal_strlit("semanticId");
            reveal_strlit("supplementalSemanticIds");
            reveal_strlit("qualifiers");
            reveal_strlit("embeddedDataSpecifications");
            assert("modelType"@.len() == 9 && "idShort"@.len() == 7);
            assert("modelType"@.len() == 9 && "displayName"@.len() == 11);
            assert("modelType"@.len() == 9 && "description"@.len() == 11);
            assert("modelType"@.len() == 9 && "category"@.len() == 8);
            assert("modelType"@.len() == 9 && "extensions"@.len() == 10);
            assert("modelType"@.len() == 9 && "semanticId"@.len() == 10);
            assert("modelType"@.len() == 9 && "supplementalSemanticIds"@.len() == 23);
            assert("modelType"@.len() == 9 && "qualifiers"@.len() == 10);
            assert("modelType"@.len() == 9 && "embeddedDataSpecifications"@.len() == 26);
            assert("idShort"@.len() == 7 && "modelType"@.len() == 9);
            assert("idShort"@.len() == 7 && "displayName"@.len() == 11);
            assert("idShort"@.len() == 7 && "description"@.len() == 11);
            assert("idShort"@.len() == 7 && "category"@.len() == 8);
            assert("idShort"@.len() == 7 && "extensions"@.len() == 10);
            assert("idShort"@.len() == 7 && "semanticId"@.len() == 10);
            assert("idShort"@.len() == 7 && "supplementalSemanticIds"@.len() == 23);
            assert("idShort"@.len() == 7 && "qualifiers"@.len() == 10);
            assert("idShort"@.len() == 7 && "embeddedDataSpecifications"@.len() == 26);
            assert("displayName"@.len() == 11 && "modelType"@.len() == 9);
            assert("displayName"@.len() == 11 && "idShort"@.len() == 7);
            assert("displayName"@[1] != "description"@[1]);
            assert("displayName"@.len() == 11 && "category"@.len() == 8);
            assert("displayName"@.len() == 11 && "extensions"@.len() == 10);
            assert("displayName"@.len() == 11 && "semanticId"@.len() == 10);
            assert("displayName"@.len() == 11 && "supplementalSemanticIds"@.len() == 23);
            assert("displayName"@.len() == 11 && "qualifiers"@.len() == 10);
            assert("displayName"@.len() == 11 && "embeddedDataSpecifications"@.len() == 26);
            assert("description"@.len() == 11 && "modelType"@.len() == 9);
            assert("description"@.len() == 11 && "idShort"@.len() == 7);
            assert("description"@[1] != "displayName"@[1]);
            assert("description"@.len() == 11 && "category"@.len() == 8);
            assert("description"@.len() == 11 && "extensions"@.len() == 10);
            assert("description"@.len() == 11 && "semanticId"@.len() == 10);
            assert("description"@.len() == 11 && "supplementalSemanticIds"@.len() == 23);
            assert("description"@.len() == 11 && "qualifiers"@.len() == 10);
            assert("description"@.len() == 11 && "embeddedDataSpecifications"@.len() == 26);
            assert("category"@.len() == 8 && "modelType"@.len() == 9);
            assert("category"@.len() == 8 && "idShort"@.len() == 7);
            assert("category"@.len() == 8 && "displayName"@.len() == 11);
            assert("category"@.len() == 8 && "description"@.len() == 11);
            assert("category"@.len() == 8 && "extensions"@.len() == 10);
            assert("category"@.len() == 8 && "semanticId"@.len() == 10);
            assert("category"@.len() == 8 && "supplementalSemanticIds"@.len() == 23);
            assert("category"@.len() == 8 && "qualifiers"@.len() == 10);
            assert("category"@.len() == 8 && "embeddedDataSpecifications"@.len() == 26);
            assert("extensions"@.len() == 10 && "modelType"@.len() == 9);
            assert("extensions"@.len() == 10 && "idShort"@.len() == 7);
            assert("extensions"@.len() == 10 && "displayName"@.len() == 11);
            assert("extensions"@.len() == 10 && "description"@.len() == 11);
            assert("extensions"@.len() == 10 && "category"@.len() == 8);
            assert("extensions"@[0] != "semanticId"@[0]);
            assert("extensions"@.len() == 10 && "supplementalSemanticIds"@.len() == 23);
            assert("extensions"@[0] != "qualifiers"@[0]);
            assert("extensions"@.len() == 10 && "embeddedDataSpecifications"@.len() == 26);
            assert("semanticId"@.len() == 10 && "modelType"@.len() == 9);
            assert("semanticId"@.len() == 10 && "idShort"@.len() == 7);
            assert("semanticId"@.len() == 10 && "displayName"@.len() == 11);
            assert("semanticId"@.len() == 10 && "description"@.len() == 11);
            assert("semanticId"@.len() == 10 && "category"@.len() == 8);
            assert("semanticId"@[0] != "extensions"@[0]);
            assert("semanticId"@.len() == 10 && "supplementalSemanticIds"@.len() == 23);
            assert("semanticId"@[0] != "qualifiers"@[0]);
            assert("semanticId"@.len() == 10 && "embeddedDataSpecifications"@.len() == 26);
            assert("supplementalSemanticIds"@.len() == 23 && "modelType"@.len() == 9);
            assert("supplementalSemanticIds"@.len() == 23 && "idShort"@.len() == 7);
            assert("supplementalSemanticIds"@.len() == 23 && "displayName"@.len() == 11);
            assert("supplementalSemanticIds"@.len() == 23 && "description"@.len() == 11);
            assert("supplementalSemanticIds"@.len() == 23 && "category"@.len() == 8);
            assert("supplementalSemanticIds"@.len() == 23 && "extensions"@.len() == 10);
            assert("supplementalSemanticIds"@.len() == 23 && "semanticId"@.len() == 10);
            assert("supplementalSemanticIds"@.len() == 23 && "qualifiers"@.len() == 10);
            assert("supplementalSemanticIds"@.len() == 23 && "embeddedDataSpecifications"@.len() == 26);
            assert("qualifiers"@.len() == 10 && "modelType"@.len() == 9);
            assert("qualifiers"@.len() == 10 && "idShort"@.len() == 7);
            assert("qualifiers"@.len() == 10 && "displayName"@.len() == 11);
            assert("qualifiers"@.len() == 10 && "description"@.len() == 11);
            assert("qualifiers"@.len() == 10 && "category"@.len() == 8);
            assert("qualifiers"@[0] != "extensions"@[0]);
            assert("qualifiers"@[0] != "semanticId"@[0]);
            assert("qualifiers"@.len() == 10 && "supplementalSemanticIds"@.len() == 23);
            assert("qualifiers"@.len() == 10 && "embeddedDataSpecifications"@.len() == 26);
            assert("embeddedDataSpecifications"@.len() == 26 && "modelType"@.len() == 9);
            assert("embeddedDataSpecifications"@.len() == 26 && "idShort"@.len() == 7);
            assert("embeddedDataSpecifications"@.len() == 26 && "displayName"@.len() == 11);
            assert("embeddedDataSpecifications"@.len() == 26 && "description"@.len() == 11);
            assert("embeddedDataSpecifications"@.len() == 26 && "category"@.len() == 8);
            assert("embeddedDataSpecifications"@.len() == 26 && "extensions"@.len() == 10);
            assert("embeddedDataSpecifications"@.len() == 26 && "semanticId"@.len() == 10);
            assert("embeddedDataSpecifications"@.len() == 26 && "supplementalSemanticIds"@.len() == 23);
            assert("embeddedDataSpecifications"@.len() == 26 && "qualifiers"@.len() == 10);
        }
        let mut fs: Vec<(String, Json)> = Vec::new();
        let ghost prev = fs@;
        fs.push(field("modelType", Json::Str("Property".to_string())));
        proof {
            lemma_names_within_empty(prev, |n: Seq<char>| n == "modelType"@);
            if true {
                assert(fs@ == prev.push(fs@.last()));
                lemma_names_within_push(prev, fs@.last(), |n: Seq<char>| n == "modelType"@);
                lemma_lookup_push(prev, fs@.last(), "modelType"@);
            }
        }
        let ghost prev = fs@;
        let mut part = self.referable.encode_members();
        let ghost sp = part@;
        fs.append(&mut part);
        proof {
            lemma_names_within_concat(prev, sp, |n: Seq<char>| n == "modelType"@, |n: Seq<char>| referable_name(n), |n: Seq<char>| n == "modelType"@ || referable_name(n));
            lemma_lookup_concat(prev, sp, "modelType"@);
            lemma_lookup_outside(sp, |n: Seq<char>| referable_name(n), "modelType"@);
            lemma_lookup_concat(prev, sp, "idShort"@);
            lemma_lookup_outside(prev, |n: Seq<char>| n == "modelType"@, "idShort"@);
            lemma_lookup_concat(prev, sp, "displayName"@);
            lemma_lookup_outside(prev, |n: Seq<char>| n == "modelType"@, "displayName"@);
            lemma_lookup_concat(prev, sp, "description"@);
            lemma_lookup_outside(prev, |n: Seq<char>| n == "modelType"@, "description"@);
            lemma_lookup_concat(prev, sp, "category"@);
            lemma_lookup_outside(prev, |n: Seq<char>| n == "modelType"@, "category"@);
            lemma_lookup_concat(prev, sp, "extensions"@);
            lemma_lookup_outside(prev, |n: Seq<char>| n == "modelType"@, "extensions"@);
        }
        let ghost prev = fs@;
        let mut part = self.semantics.encode_members();
        let ghost sp = part@;
        fs.append(&mut part);
        proof {
            lemma_names_within_concat(prev, sp, |n: Seq<char>| n == "modelType"@ || referable_name(n), |n: Seq<char>| has_semantics_name(n), |n: Seq<char>| n == "modelType"@ || referable_name(n) || has_semantics_name(n));
            lemma_lookup_concat(prev, sp, "modelType"@);
            lemma_lookup_outside(sp, |n: Seq<char>| has_semantics_name(n), "modelType"@);
            lemma_lookup_concat(prev, sp, "idShort"@);
            lemma_lookup_outside(sp, |n: Seq<char>| has_semantics_name(n), "idShort"@);
            lemma_lookup_concat(prev, sp, "displayName"@);
            lemma_lookup_outside(sp, |n: Seq<char>| has_semantics_name(n), "displayName"@);
            lemma_lookup_concat(prev, sp, "description"@);
            lemma_lookup_outside(sp, |n: Seq<char>| has_semantics_name(n), "description"@);
            lemma_lookup_concat(prev, sp, "category"@);
            lemma_lookup_outside(sp, |n: Seq<char>| has_semantics_name(n), "category"@);
            lemma_lookup_concat(prev, sp, "extensions"@);
            lemma_lookup_outside(sp, |n: Seq<char>| has_semantics_name(n), "extensions"@);
            lemma_lookup_concat(prev, sp, "semanticId"@);
            lemma_lookup_outside(prev, |n: Seq<char>| n == "modelType"@ || referable_name(n), "semanticId"@);
            lemma_lookup_concat(prev, sp, "supplementalSemanticIds"@);
            lemma_lookup_outside(prev, |n: Seq<char>| n == "modelType"@ || referable_name(n), "supplementalSemanticIds"@);
        }
        let ghost prev = fs@;
        let mut part = self.qualifiable.encode_members();
        let ghost sp = part@;
        fs.append(&mut part);
        proof {
            lemma_names_within_concat(prev, sp, |n: Seq<char>| n == "modelType"@ || referable_name(n) || has_semantics_name(n), |n: Seq<char>| qualifiable_name(n), |n: Seq<char>| n == "modelType"@ || referable_name(n) || has_semantics_name(n) || qualifiable_name(n));
            lemma_lookup_concat(prev, sp, "modelType"@);
            lemma_lookup_outside(sp, |n: Seq<char>| qualifiable_name(n), "modelType"@);
            lemma_lookup_concat(prev, sp, "idShort"@);
            lemma_lookup_outside(sp, |n: Seq<char>| qualifiable_name(n), "idShort"@);
            lemma_lookup_concat(prev, sp, "displayName"@);
            lemma_lookup_outside(sp, |n: Seq<char>| qualifiable_name(n), "displayName"@);
            lemma_lookup_concat(prev, sp, "description"@);
            lemma_lookup_outside(sp, |n: Seq<char>| qualifiable_name(n), "description"@);
            lemma_lookup_concat(prev, sp, "category"@);
            lemma_lookup_outside(sp, |n: Seq<char>| qualifiable_name(n), "category"@);
            lemma_lookup_concat(prev, sp, "extensions"@);
            lemma_lookup_outside(sp, |n: Seq<char>| qualifiable_name(n), "extensions"@);
            lemma_lookup_concat(prev, sp, "semanticId"@);
            lemma_lookup_outside(sp, |n: Seq<char>| qualifiable_name(n), "semanticId"@);
            lemma_lookup_concat(prev, sp, "supplementalSemanticIds"@);
            lemma_lookup_outside(sp, |n: Seq<char>| qualifiable_name(n), "supplementalSemanticIds"@);
            lemma_lookup_concat(prev, sp, "qualifiers"@);
            lemma_lookup_outside(prev, |n: Seq<char>| n == "modelType"@ || referable_name(n) || has_semantics_name(n), "qualifiers"@);
        }
        let ghost prev = fs@;
        let mut part = self.embedded_data_specifications.encode_members();
        let ghost sp = part@;
        fs.append(&mut part);
        proof {
            lemma_names_within_concat(prev, sp, |n: Seq<char>| n == "modelType"@ || referable_name(n) || has_semantics_name(n) || qualifiable_name(n), |n: Seq<char>| has_data_specification_name(n), |n: Seq<char>| property_meta_name(n));
            lemma_lookup_concat(prev, sp, "modelType"@);
            lemma_lookup_outside(sp, |n: Seq<char>| has_data_specification_name(n), "modelType"@);
            lemma_lookup_concat(prev, sp, "idShort"@);
            lemma_lookup_outside(sp, |n: Seq<char>| has_data_specification_name(n), "idShort"@);
            lemma_lookup_concat(prev, sp, "displayName"@);
            lemma_lookup_outside(sp, |n: Seq<char>| has_data_specification_name(n), "displayName"@);
            lemma_lookup_concat(prev, sp, "description"@);
            lemma_lookup_outside(sp, |n: Seq<char>| has_data_specification_name(n), "description"@);
            lemma_lookup_concat(prev, sp, "category"@);
            lemma_lookup_outside(sp, |n: Seq<char>| has_data_specification_name(n), "category"@);
            lemma_lookup_concat(prev, sp, "extensions"@);
            lemma_lookup_outside(sp, |n: Seq<char>| has_data_specification_name(n), "extensions"@);
            lemma_lookup_concat(prev, sp, "semanticId"@);
            lemma_lookup_outside(sp, |n: Seq<char>| has_data_specification_name(n), "semanticId"@);
            lemma_lookup_concat(prev, sp, "supplementalSemanticIds"@);
            lemma_lookup_outside(sp, |n: Seq<char>| has_data_specification_name(n), "supplementalSemanticIds"@);
            lemma_lookup_concat(prev, sp, "qualifiers"@);
            lemma_lookup_outside(sp, |n: Seq<char>| has_data_specification_name(n), "qualifiers"@);
            lemma_lookup_concat(prev, sp, "embeddedDataSpecifications"@);
            lemma_lookup_outside(prev, |n: Seq<char>| n == "modelType"@ || referable_name(n) || has_semantics_name(n) || qualifiable_name(n), "embeddedDataSpecifications"@);
        }
        fs
    }
}

impl Blob {
    /// Writes the members of the metamodel view of the value: its
    /// attributes, without the value.
    #[verifier::rlimit(100)]
    #[verifier::spinoff_prover]
    pub fn metamodel_members(&self) -> (r: Vec<(String, Json)>)
        ensures
            blob_meta_encoded(BlobMeta { referable: self.referable, semantics: self.semantics, qualifiable: self.qualifiable, embedded_data_specifications: self.embedded_data_specifications }, r@),
    {
        proof {
            reveal_strlit("modelType");
            reveal_strlit("idShort");
            reveal_strlit("displayName");
            reveal_strlit("description");
            reveal_strlit("category");
            reveal_strlit("extensions");
            reveal_strlit("semanticId");
            reveal_strlit("supplementalSemanticIds");
            reveal_strlit("qualifiers");
            reveal_strlit("embeddedDataSpecifications");
            assert("modelType"@.len() == 9 && "idShort"@.len() == 7);
            assert("modelType"@.len() == 9 && "displayName"@.len() == 11);
            assert("modelType"@.len() == 9 && "description"@.len() == 11);
            assert("modelType"@.len() == 9 && "category"@.len() == 8);
            assert("modelType"@.len() == 9 && "extensions"@.len() == 10);
            assert("modelType"@.len() == 9 && "semanticId"@.len() == 10);
            assert("modelType"@.len() == 9 && "supplementalSemanticIds"@.len() == 23);
            assert("modelType"@.len() == 9 && "qualifiers"@.len() == 10);
            assert("modelType"@.len() == 9 && "embeddedDataSpecifications"@.len() == 26);
            assert("idShort"@.len() == 7 && "modelType"@.len() == 9);
            assert("idShort"@.len() == 7 && "displayName"@.len() == 11);
            assert("idShort"@.len() == 7 && "description"@.len() == 11);
            assert("idShort"@.len() == 7 && "category"@.len() == 8);
            assert("idShort"@.len() == 7 && "extensions"@.len() == 10);
            assert("idShort"@.len() == 7 && "semanticId"@.len() == 10);
            assert("idShort"@.len() == 7 && "supplementalSemanticIds"@.len() == 23);
            assert("idShort"@.len() == 7 && "qualifiers"@.len() == 10);
            assert("idShort"@.len() == 7 && "embeddedDataSpecifications"@.len() == 26);
            assert("displayName"@.len() == 11 && "modelType"@.len() == 9);
            assert("displayName"@.len() == 11 && "idShort"@.len() == 7);
            assert("displayName"@[1] != "description"@[1]);
            assert("displayName"@.len() == 11 && "category"@.len() == 8);
            assert("displayName"@.len() == 11 && "extensions"@.len() == 10);
            assert("displayName"@.len() == 11 && "semanticId"@.len() == 10);
            assert("displayName"@.len() == 11 && "supplementalSemanticIds"@.len() == 23);
            assert("displayName"@.len() == 11 && "qualifiers"@.len() == 10);
            assert("displayName"@.len() == 11 && "embeddedDataSpecifications"@.len() == 26);
            assert("description"@.len() == 11 && "modelType"@.len() == 9);
            assert("description"@.len() == 11 && "idShort"@.len() == 7);
            assert("description"@[1] != "displayName"@[1]);
            assert("description"@.len() == 11 && "category"@.len() == 8);
            assert("description"@.len() == 11 && "extensions"@.len() == 10);
            assert("description"@.len() == 11 && "semanticId"@.len() == 10);
            assert("description"@.len() == 11 && "supplementalSemanticIds"@.len() == 23);
            assert("description"@.len() == 11 && "qualifiers"@.len() == 10);
            assert("description"@.len() == 11 && "embeddedDataSpecifications"@.len() == 26);
            assert("category"@.len() == 8 && "modelType"@.len() == 9);
            assert("category"@.len() == 8 && "idShort"@.len() == 7);
            assert("category"@.len() == 8 && "displayName"@.len() == 11);
            assert("category"@.len() == 8 && "description"@.len() == 11);
            assert("category"@.len() == 8 && "extensions"@.len() == 10);
            assert("category"@.len() == 8 && "semanticId"@.len() == 10);
            assert("category"@.len() == 8 && "supplementalSemanticIds"@.len() == 23);
            assert("category"@.len() == 8 && "qualifiers"@.len() == 10);
            assert("category"@.len() == 8 && "embeddedDataSpecifications"@.len() == 26);
            assert("extensions"@.len() == 10 && "modelType"@.len() == 9);
            assert("extensions"@.len() == 10 && "idShort"@.len() == 7);
            assert("extensions"@.len() == 10 && "displayName"@.len() == 11);
            assert("extensions"@.len() == 10 && "description"@.len() == 11);
            assert("extensions"@.len() == 10 && "category"@.len() == 8);
            assert("extensions"@[0] != "semanticId"@[0]);
            assert("extensions"@.len() == 10 && "supplementalSemanticIds"@.len() == 23);
            assert("extensions"@[0] != "qualifiers"@[0]);
            assert("extensions"@.len() == 10 && "embeddedDataSpecifications"@.len() == 26);
            assert("semanticId"@.len() == 10 && "modelType"@.len() == 9);
            assert("semanticId"@.len() == 10 && "idShort"@.len() == 7);
            assert("semanticId"@.len() == 10 && "displayName"@.len() == 11);
            assert("semanticId"@.len() == 10 && "description"@.len() == 11);
            assert("semanticId"@.len() == 10 && "category"@.len() == 8);
            assert("semanticId"@[0] != "extensions"@[0]);
            assert("semanticId"@.len() == 10 && "supplementalSemanticIds"@.len() == 23);
            assert("semanticId"@[0] != "qualifiers"@[0]);
            assert("semanticId"@.len() == 10 && "embeddedDataSpecifications"@.len() == 26);
            assert("supplementalSemanticIds"@.len() == 23 && "modelType"@.len() == 9);
            assert("supplementalSemanticIds"@.len() == 23 && "idShort"@.len() == 7);
            assert("supplementalSemanticIds"@.len() == 23 && "displayName"@.len() == 11);
            assert("supplementalSemanticIds"@.len() == 23 && "description"@.len() == 11);
            assert("supplementalSemanticIds"@.len() == 23 && "category"@.len() == 8);
            assert("supplementalSemanticIds"@.len() == 23 && "extensions"@.len() == 10);
            assert("supplementalSemanticIds"@.len() == 23 && "semanticId"@.len() == 10);
            assert("supplementalSemanticIds"@.len() == 23 && "qualifiers"@.len() == 10);
            assert("supplementalSemanticIds"@.len() == 23 && "embeddedDataSpecifications"@.len() == 26);
            assert("qualifiers"@.len() == 10 && "modelType"@.len() == 9);
            assert("qualifiers"@.len() == 10 && "idShort"@.len() == 7);
            assert("qualifiers"@.len() == 10 && "displayName"@.len() == 11);
            assert("qualifiers"@.len() == 10 && "description"@.len() == 11);
            assert("qualifiers"@.len() == 10 && "category"@.len() == 8);
            assert("qualifiers"@[0] != "extensions"@[0]);
            assert("qualifiers"@[0] != "semanticId"@[0]);
            assert("qualifiers"@.len() == 10 && "supplementalSemanticIds"@.len() == 23);
            assert("qualifiers"@.len() == 10 && "embeddedDataSpecifications"@.len() == 26);
            assert("embeddedDataSpecifications"@.len() == 26 && "modelType"@.len() == 9);
            assert("embeddedDataSpecifications"@.len() == 26 && "idShort"@.len() == 7);
            assert("embeddedDataSpecifications"@.len() == 26 && "displayName"@.len() == 11);
            assert("embeddedDataSpecifications"@.len() == 26 && "description"@.len() == 11);
            assert("embeddedDataSpecifications"@.len() == 26 && "category"@.len() == 8);
            assert("embeddedDataSpecifications"@.len() == 26 && "extensions"@.len() == 10);
            assert("embeddedDataSpecifications"@.len() == 26 && "semanticId"@.len() == 10);
            assert("embeddedDataSpecifications"@.len() == 26 && "supplementalSemanticIds"@.len() == 23);
            assert("embeddedDataSpecifications"@.len() == 26 && "qualifiers"@.len() == 10);
        }
        let mut fs: Vec<(String, Json)> = Vec::new();
        let ghost prev = fs@;
        fs.push(field("modelType", Json::Str("Blob".to_string())));
        proof {
            lemma_names_within_empty(prev, |n: Seq<char>| n == "modelType"@);
            if true {
                assert(fs@ == prev.push(fs@.last()));
                lemma_names_within_push(prev, fs@.last(), |n: Seq<char>| n == "modelType"@);
                lemma_lookup_push(prev, fs@.last(), "modelType"@);
            }
        }
        let ghost prev = fs@;
        let mut part = self.referable.encode_members();
        let ghost sp = part@;
        fs.append(&mut part);
        proof {
            lemma_names_within_concat(prev, sp, |n: Seq<char>| n == "modelType"@, |n: Seq<char>| referable_name(n), |n: Seq<char>| n == "modelType"@ || referable_name(n));
            lemma_lookup_concat(prev, sp, "modelType"@);
            lemma_lookup_outside(sp, |n: Seq<char>| referable_name(n), "modelType"@);
            lemma_lookup_concat(prev, sp, "idShort"@);
            lemma_lookup_outside(prev, |n: Seq<char>| n == "modelType"@, "idShort"@);
            lemma_lookup_concat(prev, sp, "displayName"@);
            lemma_lookup_outside(prev, |n: Seq<char>| n == "modelType"@, "displayName"@);
            lemma_lookup_concat(prev, sp, "description"@);
            lemma_lookup_outside(prev, |n: Seq<char>| n == "modelType"@, "description"@);
            lemma_lookup_concat(prev, sp, "category"@);
            lemma_lookup_outside(prev, |n: Seq<char>| n == "modelType"@, "category"@);
            lemma_lookup_concat(prev, sp, "extensions"@);
            lemma_lookup_outside(prev, |n: Seq<char>| n == "modelType"@, "extensions"@);
        }
        let ghost prev = fs@;
        let mut part = self.semantics.encode_members();
        let ghost sp = part@;
        fs.append(&mut part);
        proof {
            lemma_names_within_concat(prev, sp, |n: Seq<char>| n == "modelType"@ || referable_name(n), |n: Seq<char>| has_semantics_name(n), |n: Seq<char>| n == "modelType"@ || referable_name(n) || has_semantics_name(n));
            lemma_lookup_concat(prev, sp, "modelType"@);
            lemma_lookup_outside(sp, |n: Seq<char>| has_semantics_name(n), "modelType"@);
            lemma_lookup_concat(prev, sp, "idShort"@);
            lemma_lookup_outside(sp, |n: Seq<char>| has_semantics_name(n), "idShort"@);
            lemma_lookup_concat(prev, sp, "displayName"@);
            lemma_lookup_outside(sp, |n: Seq<char>| has_semantics_name(n), "displayName"@);
            lemma_lookup_concat(prev, sp, "description"@);
            lemma_lookup_outside(sp, |n: Seq<char>| has_semantics_name(n), "description"@);
            lemma_lookup_concat(prev, sp, "category"@);
            lemma_lookup_outside(sp, |n: Seq<char>| has_semantics_name(n), "category"@);
            lemma_lookup_concat(prev, sp, "extensions"@);
            lemma_lookup_outside(sp, |n: Seq<char>| has_semantics_name(n), "extensions"@);
            lemma_lookup_concat(prev, sp, "semanticId"@);
            lemma_lookup_outside(prev, |n: Seq<char>| n == "modelType"@ || referable_name(n), "semanticId"@);
            lemma_lookup_concat(prev, sp, "supplementalSemanticIds"@);
            lemma_lookup_outside(prev, |n: Seq<char>| n == "modelType"@ || referable_name(n), "supplementalSemanticIds"@);
        }
        let ghost prev = fs@;
        let mut part = self.qualifiable.encode_members();
        let ghost sp = part@;
        fs.append(&mut part);
        proof {
            lemma_names_within_concat(prev, sp, |n: Seq<char>| n == "modelType"@ || referable_name(n) || has_semantics_name(n), |n: Seq<char>| qualifiable_name(n), |n: Seq<char>| n == "modelType"@ || referable_name(n) || has_semantics_name(n) || qualifiable_name(n));
            lemma_lookup_concat(prev, sp, "modelType"@);
            lemma_lookup_outside(sp, |n: Seq<char>| qualifiable_name(n), "modelType"@);
            lemma_lookup_concat(prev, sp, "idShort"@);
            lemma_lookup_outside(sp, |n: Seq<char>| qualifiable_name(n), "idShort"@);
            lemma_lookup_concat(prev, sp, "displayName"@);
            lemma_lookup_outside(sp, |n: Seq<char>| qualifiable_name(n), "displayName"@);
            lemma_lookup_concat(prev, sp, "description"@);
            lemma_lookup_outside(sp, |n: Seq<char>| qualifiable_name(n), "description"@);
            lemma_lookup_concat(prev, sp, "category"@);
            lemma_lookup_outside(sp, |n: Seq<char>| qualifiable_name(n), "category"@);
            lemma_lookup_concat(prev, sp, "extensions"@);
            lemma_lookup_outside(sp, |n: Seq<char>| qualifiable_name(n), "extensions"@);
            lemma_lookup_concat(prev, sp, "semanticId"@);
            lemma_lookup_outside(sp, |n: Seq<char>| qualifiable_name(n), "semanticId"@);
            lemma_lookup_concat(prev, sp, "supplementalSemanticIds"@);
            lemma_lookup_outside(sp, |n: Seq<char>| qualifiable_name(n), "supplementalSemanticIds"@);
            lemma_lookup_concat(prev, sp, "qualifiers"@);
            lemma_lookup_outside(prev, |n: Seq<char>| n == "modelType"@ || referable_name(n) || has_semantics_name(n), "qualifiers"@);
        }
        let ghost prev = fs@;
        let mut part = self.embedded_data_specifications.encode_members();
        let ghost sp = part@;
        fs.append(&mut part);
        proof {
            lemma_names_within_concat(prev, sp, |n: Seq<char>| n == "modelType"@ || referable_name(n) || has_semantics_name(n) || qualifiable_name(n), |n: Seq<char>| has_data_specification_name(n), |n: Seq<char>| blob_meta_name(n));
            lemma_lookup_concat(prev, sp, "modelType"@);
            lemma_lookup_outside(sp, |n: Seq<char>| has_data_specification_name(n), "modelType"@);
            lemma_lookup_concat(prev, sp, "idShort"@);
            lemma_lookup_outside(sp, |n: Seq<char>| has_data_specification_name(n), "idShort"@);
            lemma_lookup_concat(prev, sp, "displayName"@);
            lemma_lookup_outside(sp, |n: Seq<char>| has_data_specification_name(n), "displayName"@);
            lemma_lookup_concat(prev, sp, "description"@);
            lemma_lookup_outside(sp, |n: Seq<char>| has_data_specification_name(n), "description"@);
            lemma_lookup_concat(prev, sp, "category"@);
            lemma_lookup_outside(sp, |n: Seq<char>| has_data_specification_name(n), "category"@);
            lemma_lookup_concat(prev, sp, "extensions"@);
            lemma_lookup_outside(sp, |n: Seq<char>| has_data_specification_name(n), "extensions"@);
            lemma_lookup_concat(prev, sp, "semanticId"@);
            lemma_lookup_outside(sp, |n: Seq<char>| has_data_specification_name(n), "semanticId"@);
            lemma_lookup_concat(prev, sp, "supplementalSemanticIds"@);
            lemma_lookup_outside(sp, |n: Seq<char>| has_data_specification_name(n), "supplementalSemanticIds"@);
            lemma_lookup_concat(prev, sp, "qualifiers"@);
            lemma_lookup_outside(sp, |n: Seq<char>| has_data_specification_name(n), "qualifiers"@);
            lemma_lookup_concat(prev, sp, "embeddedDataSpecifications"@);
            lemma_lookup_outside(prev, |n: Seq<char>| n == "modelType"@ || referable_name(n) || has_semantics_name(n) || qualifiable_name(n), "embeddedDataSpecifications"@);
        }
        fs
    }
}

impl File {
    /// Writes the members of the metamodel view of the value: its
    /// attributes, without the value.
    #[verifier::rlimit(100)]
    #[verifier::spinoff_prover]
    pub fn metamodel_members(&self) -> (r: Vec<(String, Json)>)
        ensures
            file_meta_encoded(FileMeta { referable: self.referable, semantics: self.semantics, qualifiable: self.qualifiable, embedded_data_specifications: self.embedded_data_specifications }, r@),
    {
        proof {
            reveal_strlit("modelType");
            reveal_strlit("idShort");
            reveal_strlit("displayName");
            reveal_strlit("description");
            reveal_strlit("category");
            reveal_strlit("extensions");
            reveal_strlit("semanticId");
            reveal_strlit("supplementalSemanticIds");
            reveal_strlit("qualifiers");
            reveal_strlit("embeddedDataSpecifications");
            assert("modelType"@.len() == 9 && "idShort"@.len() == 7);
            assert("modelType"@.len() == 9 && "displayName"@.len() == 11);
            assert("modelType"@.len() == 9 && "description"@.len() == 11);
            assert("modelType"@.len() == 9 && "category"@.len() == 8);
            assert("modelType"@.len() == 9 && "extensions"@.len() == 10);
            assert("modelType"@.len() == 9 && "semanticId"@.len() == 10);
            assert("modelType"@.len() == 9 && "supplementalSemanticIds"@.len() == 23);
            assert("modelType"@.len() == 9 && "qualifiers"@.len() == 10);
            assert("modelType"@.len() == 9 && "embeddedDataSpecifications"@.len() == 26);
            assert("idShort"@.len() == 7 && "modelType"@.len() == 9);
            assert("idShort"@.len() == 7 && "displayName"@.len() == 11);
            assert("idShort"@.len() == 7 && "description"@.len() == 11);
            assert("idShort"@.len() == 7 && "category"@.len() == 8);
            assert("idShort"@.len() == 7 && "extensions"@.len() == 10);
            assert("idShort"@.len() == 7 && "semanticId"@.len() == 10);
            assert("idShort"@.len() == 7 && "supplementalSemanticIds"@.len() == 23);
            assert("idShort"@.len() == 7 && "qualifiers"@.len() == 10);
            assert("idShort"@.len() == 7 && "embeddedDataSpecifications"@.len() == 26);
            assert("displayName"@.len() == 11 && "modelType"@.len() == 9);
            assert("displayName"@.len() == 11 && "idShort"@.len() == 7);
            assert("displayName"@[1] != "description"@[1]);
            assert("displayName"@.len() == 11 && "category"@.len() == 8);
            assert("displayName"@.len() == 11 && "extensions"@.len() == 10);
            assert("displayName"@.len() == 11 && "semanticId"@.len() == 10);
            assert("displayName"@.len() == 11 && "supplementalSemanticIds"@.len() == 23);
            assert("displayName"@.len() == 11 && "qualifiers"@.len() == 10);
            assert("displayName"@.len() == 11 && "embeddedDataSpecifications"@.len() == 26);
            assert("description"@.len() == 11 && "modelType"@.len() == 9);
            assert("description"@.len() == 11 && "idShort"@.len() == 7);
            assert("description"@[1] != "displayName"@[1]);
            assert("description"@.len() == 11 && "category"@.len() == 8);
            assert("description"@.len() == 11 && "extensions"@.len() == 10);
            assert("description"@.len() == 11 && "semanticId"@.len() == 10);
            assert("description"@.len() == 11 && "supplementalSemanticIds"@.len() == 23);
            assert("description"@.len() == 11 && "qualifiers"@.len() == 10);
            assert("description"@.len() == 11 && "embeddedDataSpecifications"@.len() == 26);
            assert("category"@.len() == 8 && "modelType"@.len() == 9);
            assert("category"@.len() == 8 && "idShort"@.len() == 7);
            assert("category"@.len() == 8 && "displayName"@.len() == 11);
            assert("category"@.len() == 8 && "description"@.len() == 11);
            assert("category"@.len() == 8 && "extensions"@.len() == 10);
            assert("category"@.len() == 8 && "semanticId"@.len() == 10);
            assert("category"@.len() == 8 && "supplementalSemanticIds"@.len() == 23);
            assert("category"@.len() == 8 && "qualifiers"@.len() == 10);
            assert("category"@.len() == 8 && "embeddedDataSpecifications"@.len() == 26);
            assert("extensions"@.len() == 10 && "modelType"@.len() == 9);
            assert("extensions"@.len() == 10 && "idShort"@.len() == 7);
            assert("extensions"@.len() == 10 && "displayName"@.len() == 11);
            assert("extensions"@.len() == 10 && "description"@.len() == 11);
            assert("extensions"@.len() == 10 && "category"@.len() == 8);
            assert("extensions"@[0] != "semanticId"@[0]);
            assert("extensions"@.len() == 10 && "supplementalSemanticIds"@.len() == 23);
            assert("extensions"@[0] != "qualifiers"@[0]);
            assert("extensions"@.len() == 10 && "embeddedDataSpecifications"@.len() == 26);
            assert("semanticId"@.len() == 10 && "modelType"@.len() == 9);
            assert("semanticId"@.len() == 10 && "idShort"@.len() == 7);
            assert("semanticId"@.len() == 10 && "displayName"@.len() == 11);
            assert("semanticId"@.len() == 10 && "description"@.len() == 11);
            assert("semanticId"@.len() == 10 && "category"@.len() == 8);
            assert("semanticId"@[0] != "extensions"@[0]);
            assert("semanticId"@.len() == 10 && "supplementalSemanticIds"@.len() == 23);
            assert("semanticId"@[0] != "qualifiers"@[0]);
            assert("semanticId"@.len() == 10 && "embeddedDataSpecifications"@.len() == 26);
            assert("supplementalSemanticIds"@.len() == 23 && "modelType"@.len() == 9);
            assert("supplementalSemanticIds"@.len() == 23 && "idShort"@.len() == 7);
            assert("supplementalSemanticIds"@.len() == 23 && "displayName"@.len() == 11);
            assert("supplementalSemanticIds"@.len() == 23 && "description"@.len() == 11);
            assert("supplementalSemanticIds"@.len() == 23 && "category"@.len() == 8);
            assert("supplementalSemanticIds"@.len() == 23 && "extensions"@.len() == 10);
            assert("supplementalSemanticIds"@.len() == 23 && "semanticId"@.len() == 10);
            assert("supplementalSemanticIds"@.len() == 23 && "qualifiers"@.len() == 10);
            assert("supplementalSemanticIds"@.len() == 23 && "embeddedDataSpecifications"@.len() == 26);
            assert("qualifiers"@.len() == 10 && "modelType"@.len() == 9);
            assert("qualifiers"@.len() == 10 && "idShort"@.len() == 7);
            assert("qualifiers"@.len() == 10 && "displayName"@.len() == 11);
            assert("qualifiers"@.len() == 10 && "description"@.len() == 11);
            assert("qualifiers"@.len() == 10 && "category"@.len() == 8);
            assert("qualifiers"@[0] != "extensions"@[0]);
            assert("qualifiers"@[0] != "semanticId"@[0]);
            assert("qualifiers"@.len() == 10 && "supplementalSemanticIds"@.len() == 23);
            assert("qualifiers"@.len() == 10 && "embeddedDataSpecifications"@.len() == 26);
            assert("embeddedDataSpecifications"@.len() == 26 && "modelType"@.len() == 9);
            assert("embeddedDataSpecifications"@.len() == 26 && "idShort"@.len() == 7);
            assert("embeddedDataSpecifications"@.len() == 26 && "displayName"@.len() == 11);
            assert("embeddedDataSpecifications"@.len() == 26 && "description"@.len() == 11);
            assert("embeddedDataSpecifications"@.len() == 26 && "category"@.len() == 8);
            assert("embeddedDataSpecifications"@.len() == 26 && "extensions"@.len() == 10);
            assert("embeddedDataSpecifications"@.len() == 26 && "semanticId"@.len() == 10);
            assert("embeddedDataSpecifications"@.len() == 26 && "supplementalSemanticIds"@.len() == 23);
            assert("embeddedDataSpecifications"@.len() == 26 && "qualifiers"@.len() == 10);
        }
        let mut fs: Vec<(String, Json)> = Vec::new();
        let ghost prev = fs@;
        fs.push(field("modelType", Json::Str("File".to_string())));
        proof {
            lemma_names_within_empty(prev, |n: Seq<char>| n == "modelType"@);
            if true {
                assert(fs@ == prev.push(fs@.last()));
                lemma_names_within_push(prev, fs@.last(), |n: Seq<char>| n == "modelType"@);
                lemma_lookup_push(prev, fs@.last(), "modelType"@);
            }
        }
        let ghost prev = fs@;
        let mut part = self.referable.encode_members();
        let ghost sp = part@;
        fs.append(&mut part);
        proof {
            lemma_names_within_concat(prev, sp, |n: Seq<char>| n == "modelType"@, |n: Seq<char>| referable_name(n), |n: Seq<char>| n == "modelType"@ || referable_name(n));
            lemma_lookup_concat(prev, sp, "modelType"@);
            lemma_lookup_outside(sp, |n: Seq<char>| referable_name(n), "modelType"@);
            lemma_lookup_concat(prev, sp, "idShort"@);
            lemma_lookup_outside(prev, |n: Seq<char>| n == "modelType"@, "idShort"@);
            lemma_lookup_concat(prev, sp, "displayName"@);
            lemma_lookup_outside(prev, |n: Seq<char>| n == "modelType"@, "displayName"@);
            lemma_lookup_concat(prev, sp, "description"@);
            lemma_lookup_outside(prev, |n: Seq<char>| n == "modelType"@, "description"@);
            lemma_lookup_concat(prev, sp, "category"@);
            lemma_lookup_outside(prev, |n: Seq<char>| n == "modelType"@, "category"@);
            lemma_lookup_concat(prev, sp, "extensions"@);
            lemma_lookup_outside(prev, |n: Seq<char>| n == "modelType"@, "extensions"@);
        }
        let ghost prev = fs@;
        let mut part = self.semantics.encode_members();
        let ghost sp = part@;
        fs.append(&mut part);
        proof {
            lemma_names_within_concat(prev, sp, |n: Seq<char>| n == "modelType"@ || referable_name(n), |n: Seq<char>| has_semantics_name(n), |n: Seq<char>| n == "modelType"@ || referable_name(n) || has_semantics_name(n));
            lemma_lookup_concat(prev, sp, "modelType"@);
            lemma_lookup_outside(sp, |n: Seq<char>| has_semantics_name(n), "modelType"@);
            lemma_lookup_concat(prev, sp, "idShort"@);
            lemma_lookup_outside(sp, |n: Seq<char>| has_semantics_name(n), "idShort"@);
            lemma_lookup_concat(prev, sp, "displayName"@);
            lemma_lookup_outside(sp, |n: Seq<char>| has_semantics_name(n), "displayName"@);
            lemma_lookup_concat(prev, sp, "description"@);
            lemma_lookup_outside(sp, |n: Seq<char>| has_semantics_name(n), "description"@);
            lemma_lookup_concat(prev, sp, "category"@);
            lemma_lookup_outside(sp, |n: Seq<char>| has_semantics_name(n), "category"@);
            lemma_lookup_concat(prev, sp, "extensions"@);
            lemma_lookup_outside(sp, |n: Seq<char>| has_semantics_name(n), "extensions"@);
            lemma_lookup_concat(prev, sp, "semanticId"@);
            lemma_lookup_outside(prev, |n: Seq<char>| n == "modelType"@ || referable_name(n), "semanticId"@);
            lemma_lookup_concat(prev, sp, "supplementalSemanticIds"@);
            lemma_lookup_outside(prev, |n: Seq<char>| n == "modelType"@ || referable_name(n), "supplementalSemanticIds"@);
        }
        let ghost prev = fs@;
        let mut part = self.qualifiable.encode_members();
        let ghost sp = part@;
        fs.append(&mut part);
        proof {
            lemma_names_within_concat(prev, sp, |n: Seq<char>| n == "modelType"@ || referable_name(n) || has_semantics_name(n), |n: Seq<char>| qualifiable_name(n), |n: Seq<char>| n == "modelType"@ || referable_name(n) || has_semantics_name(n) || qualifiable_name(n));
            lemma_lookup_concat(prev, sp, "modelType"@);
            lemma_lookup_outside(sp, |n: Seq<char>| qualifiable_name(n), "modelType"@);
            lemma_lookup_concat(prev, sp, "idShort"@);
            lemma_lookup_outside(sp, |n: Seq<char>| qualifiable_name(n), "idShort"@);
            lemma_lookup_concat(prev, sp, "displayName"@);
            lemma_lookup_outside(sp, |n: Seq<char>| qualifiable_name(n), "displayName"@);
            lemma_lookup_concat(prev, sp, "description"@);
            lemma_lookup_outside(sp, |n: Seq<char>| qualifiable_name(n), "description"@);
            lemma_lookup_concat(prev, sp, "category"@);
            lemma_lookup_outside(sp, |n: Seq<char>| qualifiable_name(n), "category"@);
            lemma_lookup_concat(prev, sp, "extensions"@);
            lemma_lookup_outside(sp, |n: Seq<char>| qualifiable_name(n), "extensions"@);
            lemma_lookup_concat(prev, sp, "semanticId"@);
            lemma_lookup_outside(sp, |n: Seq<char>| qualifiable_name(n), "semanticId"@);
            lemma_lookup_concat(prev, sp, "supplementalSemanticIds"@);
            lemma_lookup_outside(sp, |n: Seq<char>| qualifiable_name(n), "supplementalSemanticIds"@);
            lemma_lookup_concat(prev, sp, "qualifiers"@);
            lemma_lookup_outside(prev, |n: Seq<char>| n == "modelType"@ || referable_name(n) || has_semantics_name(n), "qualifiers"@);
        }
        let ghost prev = fs@;
        let mut part = self.embedded_data_specifications.encode_members();
        let ghost sp = part@;
        fs.append(&mut part);
        proof {
            lemma_names_within_concat(prev, sp, |n: Seq<char>| n == "modelType"@ || referable_name(n) || has_semantics_name(n) || qualifiable_name(n), |n: Seq<char>| has_data_specification_name(n), |n: Seq<char>| file_meta_name(n));
            lemma_lookup_concat(prev, sp, "modelType"@);
            lemma_lookup_outside(sp, |n: Seq<char>| has_data_specification_name(n), "modelType"@);
            lemma_lookup_concat(prev, sp, "idShort"@);
            lemma_lookup_outside(sp, |n: Seq<char>| has_data_specification_name(n), "idShort"@);
            lemma_lookup_concat(prev, sp, "displayName"@);
            lemma_lookup_outside(sp, |n: Seq<char>| has_data_specification_name(n), "displayName"@);
            lemma_lookup_concat(prev, sp, "description"@);
            lemma_lookup_outside(sp, |n: Seq<char>| has_data_specification_name(n), "description"@);
            lemma_lookup_concat(prev, sp, "category"@);
            lemma_lookup_outside(sp, |n: Seq<char>| has_data_specification_name(n), "category"@);
            lemma_lookup_concat(prev, sp, "extensions"@);
            lemma_lookup_outside(sp, |n: Seq<char>| has_data_specification_name(n), "extensions"@);
            lemma_lookup_concat(prev, sp, "semanticId"@);
            lemma_lookup_outside(sp, |n: Seq<char>| has_data_specification_name(n), "semanticId"@);
            lemma_lookup_concat(prev, sp, "supplementalSemanticIds"@);
            lemma_lookup_outside(sp, |n: Seq<char>| has_data_specification_name(n), "supplementalSemanticIds"@);
            lemma_lookup_concat(prev, sp, "qualifiers"@);
            lemma_lookup_outside(sp, |n: Seq<char>| has_data_specification_name(n), "qualifiers"@);
            lemma_lookup_concat(prev, sp, "embeddedDataSpecifications"@);
            lemma_lookup_outside(prev, |n: Seq<char>| n == "modelType"@ || referable_name(n) || has_semantics_name(n) || qualifiable_name(n), "embeddedDataSpecifications"@);
        }
        fs
    }
}

impl MultiLanguageProperty {
    /// Writes the members of the metamodel view of the value: its
    /// attributes, without the value.
    #[verifier::rlimit(100)]
    #[verifier::spinoff_prover]
    pub fn metamodel_members(&self) -> (r: Vec<(String, Json)>)
        ensures
            multi_language_property_meta_encoded(MultiLanguagePropertyMeta { referable: self.referable, semantics: self.semantics, qualifiable: self.qualifiable, embedded_data_specifications: self.embedded_data_specifications }, r@),
    {
        proof {
            reveal_strlit("modelType");
            reveal_strlit("idShort");
            reveal_strlit("displayName");
            reveal_strlit("description");
            reveal_strlit("category");
            reveal_strlit("extensions");
            reveal_strlit("semanticId");
            reveal_strlit("supplementalSemanticIds");
            reveal_strlit("qualifiers");
            reveal_strlit("embeddedDataSpecifications");
            assert("modelType"@.len() == 9 && "idShort"@.len() == 7);
            assert("modelType"@.len() == 9 && "displayName"@.len() == 11);
            assert("modelType"@.len() == 9 && "description"@.len() == 11);
            assert("modelType"@.len() == 9 && "category"@.len() == 8);
            assert("modelType"@.len() == 9 && "extensions"@.len() == 10);
            assert("modelType"@.len() == 9 && "semanticId"@.len() == 10);
            assert("modelType"@.len() == 9 && "supplementalSemanticIds"@.len() == 23);
            assert("modelType"@.len() == 9 && "qualifiers"@.len() == 10);
            assert("modelType"@.len() == 9 && "embeddedDataSpecifications"@.len() == 26);
            assert("idShort"@.len() == 7 && "modelType"@.len() == 9);
            assert("idShort"@.len() == 7 && "displayName"@.len() == 11);
            assert("idShort"@.len() == 7 && "description"@.len() == 11);
            assert("idShort"@.len() == 7 && "category"@.len() == 8);
            assert("idShort"@.len() == 7 && "extensions"@.len() == 10);
            assert("idShort"@.len() == 7 && "semanticId"@.len() == 10);
            assert("idShort"@.len() == 7 && "supplementalSemanticIds"@.len() == 23);
            assert("idShort"@.len() == 7 && "qualifiers"@.len() == 10);
            assert("idShort"@.len() == 7 && "embeddedDataSpecifications"@.len() == 26);
            assert("displayName"@.len() == 11 && "modelType"@.len() == 9);
            assert("displayName"@.len() == 11 && "idShort"@.len() == 7);
            assert("displayName"@[1] != "description"@[1]);
            assert("displayName"@.len() == 11 && "category"@.len() == 8);
            assert("displayName"@.len() == 11 && "extensions"@.len() == 10);
            assert("displayName"@.len() == 11 && "semanticId"@.len() == 10);
            assert("displayName"@.len() == 11 && "supplementalSemanticIds"@.len() == 23);
            assert("displayName"@.len() == 11 && "qualifiers"@.len() == 10);
            assert("displayName"@.len() == 11 && "embeddedDataSpecifications"@.len() == 26);
            assert("description"@.len() == 11 && "modelType"@.len() == 9);
            assert("description"@.len() == 11 && "idShort"@.len() == 7);
            assert("description"@[1] != "displayName"@[1]);
            assert("description"@.len() == 11 && "category"@.len() == 8);
            assert("description"@.len() == 11 && "extensions"@.len() == 10);
            assert("description"@.len() == 11 && "semanticId"@.len() == 10);
            assert("description"@.len() == 11 && "supplementalSemanticIds"@.len() == 23);
            assert("description"@.len() == 11 && "qualifiers"@.len() == 10);
            assert("description"@.len() == 11 && "embeddedDataSpecifications"@.len() == 26);
            assert("category"@.len() == 8 && "modelType"@.len() == 9);
            assert("category"@.len() == 8 && "idShort"@.len() == 7);
            assert("category"@.len() == 8 && "displayName"@.len() == 11);
            assert("category"@.len() == 8 && "description"@.len() == 11);
            assert("category"@.len() == 8 && "extensions"@.len() == 10);
            assert("category"@.len() == 8 && "semanticId"@.len() == 10);
            assert("category"@.len() == 8 && "supplementalSemanticIds"@.len() == 23);
            assert("category"@.len() == 8 && "qualifiers"@.len() == 10);
            assert("category"@.len() == 8 && "embeddedDataSpecifications"@.len() == 26);
            assert("extensions"@.len() == 10 && "modelType"@.len() == 9);
            assert("extensions"@.len() == 10 && "idShort"@.len() == 7);
            assert("extensions"@.len() == 10 && "displayName"@.len() == 11);
            assert("extensions"@.len() == 10 && "description"@.len() == 11);
            assert("extensions"@.len() == 10 && "category"@.len() == 8);
            assert("extensions"@[0] != "semanticId"@[0]);
            assert("extensions"@.len() == 10 && "supplementalSemanticIds"@.len() == 23);
            assert("extensions"@[0] != "qualifiers"@[0]);
            assert("extensions"@.len() == 10 && "embeddedDataSpecifications"@.len() == 26);
            assert("semanticId"@.len() == 10 && "modelType"@.len() == 9);
            assert("semanticId"@.len() == 10 && "idShort"@.len() == 7);
            assert("semanticId"@.len() == 10 && "displayName"@.len() == 11);
            assert("semanticId"@.len() == 10 && "description"@.len() == 11);
            assert("semanticId"@.len() == 10 && "category"@.len() == 8);
            assert("semanticId"@[0] != "extensions"@[0]);
            assert("semanticId"@.len() == 10 && "supplementalSemanticIds"@.len() == 23);
            assert("semanticId"@[0] != "qualifiers"@[0]);
            assert("semanticId"@.len() == 10 && "embeddedDataSpecifications"@.len() == 26);
            assert("supplementalSemanticIds"@.len() == 23 && "modelType"@.len() == 9);
            assert("supplementalSemanticIds"@.len() == 23 && "idShort"@.len() == 7);
            assert("supplementalSemanticIds"@.len() == 23 && "displayName"@.len() == 11);
            assert("supplementalSemanticIds"@.len() == 23 && "description"@.len() == 11);
            assert("supplementalSemanticIds"@.len() == 23 && "category"@.len() == 8);
            assert("supplementalSemanticIds"@.len() == 23 && "extensions"@.len() == 10);
            assert("supplementalSemanticIds"@.len() == 23 && "semanticId"@.len() == 10);
            assert("supplementalSemanticIds"@.len() == 23 && "qualifiers"@.len() == 10);
            assert("supplementalSemanticIds"@.len() == 23 && "embeddedDataSpecifications"@.len() == 26);
            assert("qualifiers"@.len() == 10 && "modelType"@.len() == 9);
            assert("qualifiers"@.len() == 10 && "idShort"@.len() == 7);
            assert("qualifiers"@.len() == 10 && "displayName"@.len() == 11);
            assert("qualifiers"@.len() == 10 && "description"@.len() == 11);
            assert("qualifiers"@.len() == 10 && "category"@.len() == 8);
            assert("qualifiers"@[0] != "extensions"@[0]);
            assert("qualifiers"@[0] != "semanticId"@[0]);
            assert("qualifiers"@.len() == 10 && "supplementalSemanticIds"@.len() == 23);
            assert("qualifiers"@.len() == 10 && "embeddedDataSpecifications"@.len() == 26);
            assert("embeddedDataSpecifications"@.len() == 26 && "modelType"@.len() == 9);
            assert("embeddedDataSpecifications"@.len() == 26 && "idShort"@.len() == 7);
            assert("embeddedDataSpecifications"@.len() == 26 && "displayName"@.len() == 11);
            assert("embeddedDataSpecifications"@.len() == 26 && "description"@.len() == 11);
            assert("embeddedDataSpecifications"@.len() == 26 && "category"@.len() == 8);
            assert("embeddedDataSpecifications"@.len() == 26 && "extensions"@.len() == 10);
            assert("embeddedDataSpecifications"@.len() == 26 && "semanticId"@.len() == 10);
            assert("embeddedDataSpecifications"@.len() == 26 && "supplementalSemanticIds"@.len() == 23);
            assert("embeddedDataSpecifications"@.len() == 26 && "qualifiers"@.len() == 10);
        }
        let mut fs: Vec<(String, Json)> = Vec::new();
        let ghost prev = fs@;
        fs.push(field("modelType", Json::Str("MultiLanguageProperty".to_string())));
        proof {
            lemma_names_within_empty(prev, |n: Seq<char>| n == "modelType"@);
            if true {
                assert(fs@ == prev.push(fs@.last()));
                lemma_names_within_push(prev, fs@.last(), |n: Seq<char>| n == "modelType"@);
                lemma_lookup_push(prev, fs@.last(), "modelType"@);
            }
        }
        let ghost prev = fs@;
        let mut part = self.referable.encode_members();
        let ghost sp = part@;
        fs.append(&mut part);
        proof {
            lemma_names_within_concat(prev, sp, |n: Seq<char>| n == "modelType"@, |n: Seq<char>| referable_name(n), |n: Seq<char>| n == "modelType"@ || referable_name(n));
            lemma_lookup_concat(prev, sp, "modelType"@);
            lemma_lookup_outside(sp, |n: Seq<char>| referable_name(n), "modelType"@);
            lemma_lookup_concat(prev, sp, "idShort"@);
            lemma_lookup_outside(prev, |n: Seq<char>| n == "modelType"@, "idShort"@);
            lemma_lookup_concat(prev, sp, "displayName"@);
            lemma_lookup_outside(prev, |n: Seq<char>| n == "modelType"@, "displayName"@);
            lemma_lookup_concat(prev, sp, "description"@);
            lemma_lookup_outside(prev, |n: Seq<char>| n == "modelType"@, "description"@);
            lemma_lookup_concat(prev, sp, "category"@);
            lemma_lookup_outside(prev, |n: Seq<char>| n == "modelType"@, "category"@);
            lemma_lookup_concat(prev, sp, "extensions"@);
            lemma_lookup_outside(prev, |n: Seq<char>| n == "modelType"@, "extensions"@);
        }
        let ghost prev = fs@;
        let mut part = self.semantics.encode_members();
        let ghost sp = part@;
        fs.append(&mut part);
        proof {
            lemma_names_within_concat(prev, sp, |n: Seq<char>| n == "modelType"@ || referable_name(n), |n: Seq<char>| has_semantics_name(n), |n: Seq<char>| n == "modelType"@ || referable_name(n) || has_semantics_name(n));
            lemma_lookup_concat(prev, sp, "modelType"@);
            lemma_lookup_outside(sp, |n: Seq<char>| has_semantics_name(n), "modelType"@);
            lemma_lookup_concat(prev, sp, "idShort"@);
            lemma_lookup_outside(sp, |n: Seq<char>| has_semantics_name(n), "idShort"@);
            lemma_lookup_concat(prev, sp, "displayName"@);
            lemma_lookup_outside(sp, |n: Seq<char>| has_semantics_name(n), "displayName"@);
            lemma_lookup_concat(prev, sp, "description"@);
            lemma_lookup_outside(sp, |n: Seq<char>| has_semantics_name(n), "description"@);
            lemma_lookup_concat(prev, sp, "category"@);
            lemma_lookup_outside(sp, |n: Seq<char>| has_semantics_name(n), "category"@);
            lemma_lookup_concat(prev, sp, "extensions"@);
            lemma_lookup_outside(sp, |n: Seq<char>| has_semantics_name(n), "extensions"@);
            lemma_lookup_concat(prev, sp, "semanticId"@);
            lemma_lookup_outside(prev, |n: Seq<char>| n == "modelType"@ || referable_name(n), "semanticId"@);
            lemma_lookup_concat(prev, sp, "supplementalSemanticIds"@);
            lemma_lookup_outside(prev, |n: Seq<char>| n == "modelType"@ || referable_name(n), "supplementalSemanticIds"@);
        }
        let ghost prev = fs@;
        let mut part = self.qualifiable.encode_members();
        let ghost sp = part@;
        fs.append(&mut part);
        proof {
            lemma_names_within_concat(prev, sp, |n: Seq<char>| n == "modelType"@ || referable_name(n) || has_semantics_name(n), |n: Seq<char>| qualifiable_name(n), |n: Seq<char>| n == "modelType"@ || referable_name(n) || has_semantics_name(n) || qualifiable_name(n));
            lemma_lookup_concat(prev, sp, "modelType"@);
            lemma_lookup_outside(sp, |n: Seq<char>| qualifiable_name(n), "modelType"@);
            lemma_lookup_concat(prev, sp, "idShort"@);
            lemma_lookup_outside(sp, |n: Seq<char>| qualifiable_name(n), "idShort"@);
            lemma_lookup_concat(prev, sp, "displayName"@);
            lemma_lookup_outside(sp, |n: Seq<char>| qualifiable_name(n), "displayName"@);
            lemma_lookup_concat(prev, sp, "description"@);
            lemma_lookup_outside(sp, |n: Seq<char>| qualifiable_name(n), "description"@);
            lemma_lookup_concat(prev, sp, "category"@);
            lemma_lookup_outside(sp, |n: Seq<char>| qualifiable_name(n), "category"@);
            lemma_lookup_concat(prev, sp, "extensions"@);
            lemma_lookup_outside(sp, |n: Seq<char>| qualifiable_name(n), "extensions"@);
            lemma_lookup_concat(prev, sp, "semanticId"@);
            lemma_lookup_outside(sp, |n: Seq<char>| qualifiable_name(n), "semanticId"@);
            lemma_lookup_concat(prev, sp, "supplementalSemanticIds"@);
            lemma_lookup_outside(sp, |n: Seq<char>| qualifiable_name(n), "supplementalSemanticIds"@);
            lemma_lookup_concat(prev, sp, "qualifiers"@);
            lemma_lookup_outside(prev, |n: Seq<char>| n == "modelType"@ || referable_name(n) || has_semantics_name(n), "qualifiers"@);
        }
        let ghost prev = fs@;
        let mut part = self.embedded_data_specifications.encode_members();
        let ghost sp = part@;
        fs.append(&mut part);
        proof {
            lemma_names_within_concat(prev, sp, |n: Seq<char>| n == "modelType"@ || referable_name(n) || has_semantics_name(n) || qualifiable_name(n), |n: Seq<char>| has_data_specification_name(n), |n: Seq<char>| multi_language_property_meta_name(n));
            lemma_lookup_concat(prev, sp, "modelType"@);
            lemma_lookup_outside(sp, |n: Seq<char>| has_data_specification_name(n), "modelType"@);
            lemma_lookup_concat(prev, sp, "idShort"@);
            lemma_lookup_outside(sp, |n: Seq<char>| has_data_specification_name(n), "idShort"@);
            lemma_lookup_concat(prev, sp, "displayName"@);
            lemma_lookup_outside(sp, |n: Seq<char>| has_data_specification_name(n), "displayName"@);
            lemma_lookup_concat(prev, sp, "description"@);
            lemma_lookup_outside(sp, |n: Seq<char>| has_data_specification_name(n), "description"@);
            lemma_lookup_concat(prev, sp, "category"@);
            lemma_lookup_outside(sp, |n: Seq<char>| has_data_specification_name(n), "category"@);
            lemma_lookup_concat(prev, sp, "extensions"@);
            lemma_lookup_outside(sp, |n: Seq<char>| has_data_specification_name(n), "extensions"@);
            lemma_lookup_concat(prev, sp, "semanticId"@);
            lemma_lookup_outside(sp, |n: Seq<char>| has_data_specification_name(n), "semanticId"@);
            lemma_lookup_concat(prev, sp, "supplementalSemanticIds"@);
            lemma_lookup_outside(sp, |n: Seq<char>| has_data_specification_name(n), "supplementalSemanticIds"@);
            lemma_lookup_concat(prev, sp, "qualifiers"@);
            lemma_lookup_outside(sp, |n: Seq<char>| has_data_specification_name(n), "qualifiers"@);
            lemma_lookup_concat(prev, sp, "embeddedDataSpecifications"@);
            lemma_lookup_outside(prev, |n: Seq<char>| n == "modelType"@ || referable_name(n) || has_semantics_name(n) || qualifiable_name(n), "embeddedDataSpecifications"@);
        }
        fs
    }
}

impl Operation {
    /// Writes the members of the attribute groups of the operation.
    pub fn encode_mixins(&self) -> (r: Vec<(String, Json)>)
        ensures
            submodel_element_fields_encoded(SubmodelElementFields { referable: self.referable, semantics: self.semantics, qualifiable: self.qualifiable, embedded_data_specifications: self.embedded_data_specifications }, r@),
    {
        proof {
            reveal_strlit("idShort");
            reveal_strlit("displayName");
            reveal_strlit("description");
            reveal_strlit("category");
            reveal_strlit("extensions");
            reveal_strlit("semanticId");
            reveal_strlit("supplementalSemanticIds");
            reveal_strlit("qualifiers");
            reveal_strlit("embeddedDataSpecifications");
            assert("idShort"@.len() == 7 && "displayName"@.len() == 11);
            assert("idShort"@.len() == 7 && "description"@.len() == 11);
            assert("idShort"@.len() == 7 && "category"@.len() == 8);
            assert("idShort"@.len() == 7 && "extensions"@.len() == 10);
            assert("idShort"@.len() == 7 && "semanticId"@.len() == 10);
            assert("idShort"@.len() == 7 && "supplementalSemanticIds"@.len() == 23);
            assert("idShort"@.len() == 7 && "qualifiers"@.len() == 10);
            assert("idShort"@.len() == 7 && "embeddedDataSpecifications"@.len() == 26);
            assert("displayName"@.len() == 11 && "idShort"@.len() == 7);
            assert("displayName"@[1] != "description"@[1]);
            assert("displayName"@.len() == 11 && "category"@.len() == 8);
            assert("displayName"@.len() == 11 && "extensions"@.len() == 10);
            assert("displayName"@.len() == 11 && "semanticId"@.len() == 10);
            assert("displayName"@.len() == 11 && "supplementalSemanticIds"@.len() == 23);
            assert("displayName"@.len() == 11 && "qualifiers"@.len() == 10);
            assert("displayName"@.len() == 11 && "embeddedDataSpecifications"@.len() == 26);
            assert("description"@.len() == 11 && "idShort"@.len() == 7);
            assert("description"@[1] != "displayName"@[1]);
            assert("description"@.len() == 11 && "category"@.len() == 8);
            assert("description"@.len() == 11 && "extensions"@.len() == 10);
            assert("description"@.len() == 11 && "semanticId"@.len() == 10);
            assert("description"@.len() == 11 && "supplementalSemanticIds"@.len() == 23);
            assert("description"@.len() == 11 && "qualifiers"@.len() == 10);
            assert("description"@.len() == 11 && "embeddedDataSpecifications"@.len() == 26);
            assert("category"@.len() == 8 && "idShort"@.len() == 7);
            assert("category"@.len() == 8 && "displayName"@.len() == 11);
            assert("category"@.len() == 8 && "description"@.len() == 11);
            assert("category"@.len() == 8 && "extensions"@.len() == 10);
            assert("category"@.len() == 8 && "semanticId"@.len() == 10);
            assert("category"@.len() == 8 && "supplementalSemanticIds"@.len() == 23);
            assert("category"@.len() == 8 && "qualifiers"@.len() == 10);
            assert("category"@.len() == 8 && "embeddedDataSpecifications"@.len() == 26);
            assert("extensions"@.len() == 10 && "idShort"@.len() == 7);
            assert("extensions"@.len() == 10 && "displayName"@.len() == 11);
            assert("extensions"@.len() == 10 && "description"@.len() == 11);
            assert("extensions"@.len() == 10 && "category"@.len() == 8);
            assert("extensions"@[0] != "semanticId"@[0]);
            assert("extensions"@.len() == 10 && "supplementalSemanticIds"@.len() == 23);
            assert("extensions"@[0] != "qualifiers"@[0]);
            assert("extensions"@.len() == 10 && "embeddedDataSpecifications"@.len() == 26);
            assert("semanticId"@.len() == 10 && "idShort"@.len() == 7);
            assert("semanticId"@.len() == 10 && "displayName"@.len() == 11);
            assert("semanticId"@.len() == 10 && "description"@.len() == 11);
            assert("semanticId"@.len() == 10 && "category"@.len() == 8);
            assert("semanticId"@[0] != "extensions"@[0]);
            assert("semanticId"@.len() == 10 && "supplementalSemanticIds"@.len() == 23);
            assert("semanticId"@[0] != "qualifiers"@[0]);
            assert("semanticId"@.len() == 10 && "embeddedDataSpecifications"@.len() == 26);
            assert("supplementalSemanticIds"@.len() == 23 && "idShort"@.len() == 7);
            assert("supplementalSemanticIds"@.len() == 23 && "displayName"@.len() == 11);
            assert("supplementalSemanticIds"@.len() == 23 && "description"@.len() == 11);
            assert("supplementalSemanticIds"@.len() == 23 && "category"@.len() == 8);
            assert("supplementalSemanticIds"@.len() == 23 && "extensions"@.len() == 10);
            assert("supplementalSemanticIds"@.len() == 23 && "semanticId"@.len() == 10);
            assert("supplementalSemanticIds"@.len() == 23 && "qualifiers"@.len() == 10);
            assert("supplementalSemanticIds"@.len() == 23 && "embeddedDataSpecifications"@.len() == 26);
            assert("qualifiers"@.len() == 10 && "idShort"@.len() == 7);
            assert("qualifiers"@.len() == 10 && "displayName"@.len() == 11);
            assert("qualifiers"@.len() == 10 && "description"@.len() == 11);
            assert("qualifiers"@.len() == 10 && "category"@.len() == 8);
            assert("qualifiers"@[0] != "extensions"@[0]);
            assert("qualifiers"@[0] != "semanticId"@[0]);
            assert("qualifiers"@.len() == 10 && "supplementalSemanticIds"@.len() == 23);
            assert("qualifiers"@.len() == 10 && "embeddedDataSpecifications"@.len() == 26);
            assert("embeddedDataSpecifications"@.len() == 26 && "idShort"@.len() == 7);
            assert("embeddedDataSpecifications"@.len() == 26 && "displayName"@.len() == 11);
            assert("embeddedDataSpecifications"@.len() == 26 && "description"@.len() == 11);
            assert("embeddedDataSpecifications"@.len() == 26 && "category"@.len() == 8);
            assert("embeddedDataSpecifications"@.len() == 26 && "extensions"@.len() == 10);
            assert("embeddedDataSpecifications"@.len() == 26 && "semanticId"@.len() == 10);
            assert("embeddedDataSpecifications"@.len() == 26 && "supplementalSemanticIds"@.len() == 23);
            assert("embeddedDataSpecifications"@.len() == 26 && "qualifiers"@.len() == 10);
        }
        let mut fs: Vec<(String, Json)> = Vec::new();
        let ghost prev = fs@;
        let mut part = self.referable.encode_members();
        let ghost sp = part@;
        fs.append(&mut part);
        proof {
            lemma_names_within_empty(prev, |n: Seq<char>| referable_name(n));
            lemma_names_within_concat(prev, sp, |n: Seq<char>| referable_name(n), |n: Seq<char>| referable_name(n), |n: Seq<char>| referable_name(n));
            lemma_lookup_concat(prev, sp, "idShort"@);
            assert(prev.len() == 0);
            lemma_lookup_concat(prev, sp, "displayName"@);
            assert(prev.len() == 0);
            lemma_lookup_concat(prev, sp, "description"@);
            assert(prev.len() == 0);
            lemma_lookup_concat(prev, sp, "category"@);
            assert(prev.len() == 0);
            lemma_lookup_concat(prev, sp, "extensions"@);
            assert(prev.len() == 0);
        }
        let ghost prev = fs@;
        let mut part = self.semantics.encode_members();
        let ghost sp = part@;
        fs.append(&mut part);
        proof {
            lemma_names_within_concat(prev, sp, |n: Seq<char>| referable_name(n), |n: Seq<char>| has_semantics_name(n), |n: Seq<char>| referable_name(n) || has_semantics_name(n));
            lemma_lookup_concat(prev, sp, "idShort"@);
            lemma_lookup_outside(sp, |n: Seq<char>| has_semantics_name(n), "idShort"@);
            lemma_lookup_concat(prev, sp, "displayName"@);
            lemma_lookup_outside(sp, |n: Seq<char>| has_semantics_name(n), "displayName"@);
            lemma_lookup_concat(prev, sp, "description"@);
            lemma_lookup_outside(sp, |n: Seq<char>| has_semantics_name(n), "description"@);
            lemma_lookup_concat(prev, sp, "category"@);
            lemma_lookup_outside(sp, |n: Seq<char>| has_semantics_name(n), "category"@);
            lemma_lookup_concat(prev, sp, "extensions"@);
            lemma_lookup_outside(sp, |n: Seq<char>| has_semantics_name(n), "extensions"@);
            lemma_lookup_concat(prev, sp, "semanticId"@);
            lemma_lookup_outside(prev, |n: Seq<char>| referable_name(n), "semanticId"@);
            lemma_lookup_concat(prev, sp, "supplementalSemanticIds"@);
            lemma_lookup_outside(prev, |n: Seq<char>| referable_name(n), "supplementalSemanticIds"@);
        }
        let ghost prev = fs@;
        let mut part = self.qualifiable.encode_members();
        let ghost sp = part@;
        fs.append(&mut part);
        proof {
            lemma_names_within_concat(prev, sp, |n: Seq<char>| referable_name(n) || has_semantics_name(n), |n: Seq<char>| qualifiable_name(n), |n: Seq<char>| referable_name(n) || has_semantics_name(n) || qualifiable_name(n));
            lemma_lookup_concat(prev, sp, "idShort"@);
            lemma_lookup_outside(sp, |n: Seq<char>| qualifiable_name(n), "idShort"@);
            lemma_lookup_concat(prev, sp, "displayName"@);
            lemma_lookup_outside(sp, |n: Seq<char>| qualifiable_name(n), "displayName"@);
            lemma_lookup_concat(prev, sp, "description"@);
            lemma_lookup_outside(sp, |n: Seq<char>| qualifiable_name(n), "description"@);
            lemma_lookup_concat(prev, sp, "category"@);
            lemma_lookup_outside(sp, |n: Seq<char>| qualifiable_name(n), "category"@);
            lemma_lookup_concat(prev, sp, "extensions"@);
            lemma_lookup_outside(sp, |n: Seq<char>| qualifiable_name(n), "extensions"@);
            lemma_lookup_concat(prev, sp, "semanticId"@);
            lemma_lookup_outside(sp, |n: Seq<char>| qualifiable_name(n), "semanticId"@);
            lemma_lookup_concat(prev, sp, "supplementalSemanticIds"@);
            lemma_lookup_outside(sp, |n: Seq<char>| qualifiable_name(n), "supplementalSemanticIds"@);
            lemma_lookup_concat(prev, sp, "qualifiers"@);
            lemma_lookup_outside(prev, |n: Seq<char>| referable_name(n) || has_semantics_name(n), "qualifiers"@);
        }
        let ghost prev = fs@;
        let mut part = self.embedded_data_specifications.encode_members();
        let ghost sp = part@;
        fs.append(&mut part);
        proof {
            lemma_names_within_concat(prev, sp, |n: Seq<char>| referable_name(n) || has_semantics_name(n) || qualifiable_name(n), |n: Seq<char>| has_data_specification_name(n), |n: Seq<char>| submodel_element_fields_name(n));
            lemma_lookup_concat(prev, sp, "idShort"@);
            lemma_lookup_outside(sp, |n: Seq<char>| has_data_specification_name(n), "idShort"@);
            lemma_lookup_concat(prev, sp, "displayName"@);
            lemma_lookup_outside(sp, |n: Seq<char>| has_data_specification_name(n), "displayName"@);
            lemma_lookup_concat(prev, sp, "description"@);
            lemma_lookup_outside(sp, |n: Seq<char>| has_data_specification_name(n), "description"@);
            lemma_lookup_concat(prev, sp, "category"@);
            lemma_lookup_outside(sp, |n: Seq<char>| has_data_specification_name(n), "category"@);
            lemma_lookup_concat(prev, sp, "extensions"@);
            lemma_lookup_outside(sp, |n: Seq<char>| has_data_specification_name(n), "extensions"@);
            lemma_lookup_concat(prev, sp, "semanticId"@);
            lemma_lookup_outside(sp, |n: Seq<char>| has_data_specification_name(n), "semanticId"@);
            lemma_lookup_concat(prev, sp, "supplementalSemanticIds"@);
            lemma_lookup_outside(sp, |n: Seq<char>| has_data_specification_name(n), "supplementalSemanticIds"@);
            lemma_lookup_concat(prev, sp, "qualifiers"@);
            lemma_lookup_outside(sp, |n: Seq<char>| has_data_specification_name(n), "qualifiers"@);
            lemma_lookup_concat(prev, sp, "embeddedDataSpecifications"@);
            lemma_lookup_outside(prev, |n: Seq<char>| referable_name(n) || has_semantics_name(n) || qualifiable_name(n), "embeddedDataSpecifications"@);
        }
        fs
    }
}

impl RelationshipElement {
    /// Writes the members of the metamodel view of the value: its
    /// attributes, without the value.
    pub fn metamodel_members(&self) -> (r: Vec<(String, Json)>)
        ensures
            relationship_element_meta_encoded(RelationshipElementMeta { submodel_element_fields: self.submodel_element_fields }, r@),
    {
        proof {
            reveal_strlit("modelType");
            reveal_strlit("idShort");
            reveal_strlit("displayName");
            reveal_strlit("description");
            reveal_strlit("category");
            reveal_strlit("extensions");
            reveal_strlit("semanticId");
            reveal_strlit("supplementalSemanticIds");
            reveal_strlit("qualifiers");
            reveal_strlit("embeddedDataSpecifications");
            assert("modelType"@.len() == 9 && "idShort"@.len() == 7);
            assert("modelType"@.len() == 9 && "displayName"@.len() == 11);
            assert("modelType"@.len() == 9 && "description"@.len() == 11);
            assert("modelType"@.len() == 9 && "category"@.len() == 8);
            assert("modelType"@.len() == 9 && "extensions"@.len() == 10);
            assert("modelType"@.len() == 9 && "semanticId"@.len() == 10);
            assert("modelType"@.len() == 9 && "supplementalSemanticIds"@.len() == 23);
            assert("modelType"@.len() == 9 && "qualifiers"@.len() == 10);
            assert("modelType"@.len() == 9 && "embeddedDataSpecifications"@.len() == 26);
            assert("idShort"@.len() == 7 && "modelType"@.len() == 9);
            assert("idShort"@.len() == 7 && "displayName"@.len() == 11);
            assert("idShort"@.len() == 7 && "description"@.len() == 11);
            assert("idShort"@.len() == 7 && "category"@.len() == 8);
            assert("idShort"@.len() == 7 && "extensions"@.len() == 10);
            assert("idShort"@.len() == 7 && "semanticId"@.len() == 10);
            assert("idShort"@.len() == 7 && "supplementalSemanticIds"@.len() == 23);
            assert("idShort"@.len() == 7 && "qualifiers"@.len() == 10);
            assert("idShort"@.len() == 7 && "embeddedDataSpecifications"@.len() == 26);
            assert("displayName"@.len() == 11 && "modelType"@.len() == 9);
            assert("displayName"@.len() == 11 && "idShort"@.len() == 7);
            assert("displayName"@[1] != "description"@[1]);
            assert("displayName"@.len() == 11 && "category"@.len() == 8);
            assert("displayName"@.len() == 11 && "extensions"@.len() == 10);
            assert("displayName"@.len() == 11 && "semanticId"@.len() == 10);
            assert("displayName"@.len() == 11 && "supplementalSemanticIds"@.len() == 23);
            assert("displayName"@.len() == 11 && "qualifiers"@.len() == 10);
            assert("displayName"@.len() == 11 && "embeddedDataSpecifications"@.len() == 26);
            assert("description"@.len() == 11 && "modelType"@.len() == 9);
            assert("description"@.len() == 11 && "idShort"@.len() == 7);
            assert("description"@[1] != "displayName"@[1]);
            assert("description"@.len() == 11 && "category"@.len() == 8);
            assert("description"@.len() == 11 && "extensions"@.len() == 10);
            assert("description"@.len() == 11 && "semanticId"@.len() == 10);
            assert("description"@.len() == 11 && "supplementalSemanticIds"@.len() == 23);
            assert("description"@.len() == 11 && "qualifiers"@.len() == 10);
            assert("description"@.len() == 11 && "embeddedDataSpecifications"@.len() == 26);
            assert("category"@.len() == 8 && "modelType"@.len() == 9);
            assert("category"@.len() == 8 && "idShort"@.len() == 7);
            assert("category"@.len() == 8 && "displayName"@.len() == 11);
            assert("category"@.len() == 8 && "description"@.len() == 11);
            assert("category"@.len() == 8 && "extensions"@.len() == 10);
            assert("category"@.len() == 8 && "semanticId"@.len() == 10);
            assert("category"@.len() == 8 && "supplementalSemanticIds"@.len() == 23);
            assert("category"@.len() == 8 && "qualifiers"@.len() == 10);
            assert("category"@.len() == 8 && "embeddedDataSpecifications"@.len() == 26);
            assert("extensions"@.len() == 10 && "modelType"@.len() == 9);
            assert("extensions"@.len() == 10 && "idShort"@.len() == 7);
            assert("extensions"@.len() == 10 && "displayName"@.len() == 11);
            assert("extensions"@.len() == 10 && "description"@.len() == 11);
            assert("extensions"@.len() == 10 && "category"@.len() == 8);
            assert("extensions"@[0] != "semanticId"@[0]);
            assert("extensions"@.len() == 10 && "supplementalSemanticIds"@.len() == 23);
            assert("extensions"@[0] != "qualifiers"@[0]);
            assert("extensions"@.len() == 10 && "embeddedDataSpecifications"@.len() == 26);
            assert("semanticId"@.len() == 10 && "modelType"@.len() == 9);
            assert("semanticId"@.len() == 10 && "idShort"@.len() == 7);
            assert("semanticId"@.len() == 10 && "displayName"@.len() == 11);
            assert("semanticId"@.len() == 10 && "description"@.len() == 11);
            assert("semanticId"@.len() == 10 && "category"@.len() == 8);
            assert("semanticId"@[0] != "extensions"@[0]);
            assert("semanticId"@.len() == 10 && "supplementalSemanticIds"@.len() == 23);
            assert("semanticId"@[0] != "qualifiers"@[0]);
            assert("semanticId"@.len() == 10 && "embeddedDataSpecifications"@.len() == 26);
            assert("supplementalSemanticIds"@.len() == 23 && "modelType"@.len() == 9);
            assert("supplementalSemanticIds"@.len() == 23 && "idShort"@.len() == 7);
            assert("supplementalSemanticIds"@.len() == 23 && "displayName"@.len() == 11);
            assert("supplementalSemanticIds"@.len() == 23 && "description"@.len() == 11);
            assert("supplementalSemanticIds"@.len() == 23 && "category"@.len() == 8);
            assert("supplementalSemanticIds"@.len() == 23 && "extensions"@.len() == 10);
            assert("supplementalSemanticIds"@.len() == 23 && "semanticId"@.len() == 10);
            assert("supplementalSemanticIds"@.len() == 23 && "qualifiers"@.len() == 10);
            assert("supplementalSemanticIds"@.len() == 23 && "embeddedDataSpecifications"@.len() == 26);
            assert("qualifiers"@.len() == 10 && "modelType"@.len() == 9);
            assert("qualifiers"@.len() == 10 && "idShort"@.len() == 7);
            assert("qualifiers"@.len() == 10 && "displayName"@.len() == 11);
            assert("qualifiers"@.len() == 10 && "description"@.len() == 11);
            assert("qualifiers"@.len() == 10 && "category"@.len() == 8);
            assert("qualifiers"@[0] != "extensions"@[0]);
            assert("qualifiers"@[0] != "semanticId"@[0]);
            assert("qualifiers"@.len() == 10 && "supplementalSemanticIds"@.len() == 23);
            assert("qualifiers"@.len() == 10 && "embeddedDataSpecifications"@.len() == 26);
            assert("embeddedDataSpecifications"@.len() == 26 && "modelType"@.len() == 9);
            assert("embeddedDataSpecifications"@.len() == 26 && "idShort"@.len() == 7);
            assert("embeddedDataSpecifications"@.len() == 26 && "displayName"@.len() == 11);
            assert("embeddedDataSpecifications"@.len() == 26 && "description"@.len() == 11);
            assert("embeddedDataSpecifications"@.len() == 26 && "category"@.len() == 8);
            assert("embeddedDataSpecifications"@.len() == 26 && "extensions"@.len() == 10);
            assert("embeddedDataSpecifications"@.len() == 26 && "semanticId"@.len() == 10);
            assert("embeddedDataSpecifications"@.len() == 26 && "supplementalSemanticIds"@.len() == 23);
            assert("embeddedDataSpecifications"@.len() == 26 && "qualifiers"@.len() == 10);
        }
        let mut fs: Vec<(String, Json)> = Vec::new();
        let ghost prev = fs@;
        fs.push(field("modelType", Json::Str("RelationshipElement".to_string())));
        proof {
            lemma_names_within_empty(prev, |n: Seq<char>| n == "modelType"@);
            if true {
                assert(fs@ == prev.push(fs@.last()));
                lemma_names_within_push(prev, fs@.last(), |n: Seq<char>| n == "modelType"@);
                lemma_lookup_push(prev, fs@.last(), "modelType"@);
            }
        }
        let ghost prev = fs@;
        let mut part = self.submodel_element_fields.encode_members();
        let ghost sp = part@;
        fs.append(&mut part);
        proof {
            lemma_names_within_concat(prev, sp, |n: Seq<char>| n == "modelType"@, |n: Seq<char>| submodel_element_fields_name(n), |n: Seq<char>| relationship_element_meta_name(n));
            lemma_lookup_concat(prev, sp, "modelType"@);
            lemma_lookup_outside(sp, |n: Seq<char>| submodel_element_fields_name(n), "modelType"@);
            lemma_lookup_concat(prev, sp, "idShort"@);
            lemma_lookup_outside(prev, |n: Seq<char>| n == "modelType"@, "idShort"@);
            lemma_lookup_concat(prev, sp, "displayName"@);
            lemma_lookup_outside(prev, |n: Seq<char>| n == "modelType"@, "displayName"@);
            lemma_lookup_concat(prev, sp, "description"@);
            lemma_lookup_outside(prev, |n: Seq<char>| n == "modelType"@, "description"@);
            lemma_lookup_concat(prev, sp, "category"@);
            lemma_lookup_outside(prev, |n: Seq<char>| n == "modelType"@, "category"@);
            lemma_lookup_concat(prev, sp, "extensions"@);
            lemma_lookup_outside(prev, |n: Seq<char>| n == "modelType"@, "extensions"@);
            lemma_lookup_concat(prev, sp, "semanticId"@);
            lemma_lookup_outside(prev, |n: Seq<char>| n == "modelType"@, "semanticId"@);
            lemma_lookup_concat(prev, sp, "supplementalSemanticIds"@);
            lemma_lookup_outside(prev, |n: Seq<char>| n == "modelType"@, "supplementalSemanticIds"@);
            lemma_lookup_concat(prev, sp, "qualifiers"@);
            lemma_lookup_outside(prev, |n: Seq<char>| n == "modelType"@, "qualifiers"@);
            lemma_lookup_concat(prev, sp, "embeddedDataSpecifications"@);
            lemma_lookup_outside(prev, |n: Seq<char>| n == "modelType"@, "embeddedDataSpecifications"@);
        }
        fs
    }
}

impl AnnotatedRelationshipElement {
    /// Writes the members of the metamodel view of the value: its
    /// attributes, without the value.
    pub fn metamodel_members(&self) -> (r: Vec<(String, Json)>)
        ensures
            annotated_relationship_element_meta_encoded(AnnotatedRelationshipElementMeta { submodel_element_fields: self.submodel_element_fields }, r@),
    {
        proof {
            reveal_strlit("modelType");
            reveal_strlit("idShort");
            reveal_strlit("displayName");
            reveal_strlit("description");
            reveal_strlit("category");
            reveal_strlit("extensions");
            reveal_strlit("semanticId");
            reveal_strlit("supplementalSemanticIds");
            reveal_strlit("qualifiers");
            reveal_strlit("embeddedDataSpecifications");
            assert("modelType"@.len() == 9 && "idShort"@.len() == 7);
            assert("modelType"@.len() == 9 && "displayName"@.len() == 11);
            assert("modelType"@.len() == 9 && "description"@.len() == 11);
            assert("modelType"@.len() == 9 && "category"@.len() == 8);
            assert("modelType"@.len() == 9 && "extensions"@.len() == 10);
            assert("modelType"@.len() == 9 && "semanticId"@.len() == 10);
            assert("modelType"@.len() == 9 && "supplementalSemanticIds"@.len() == 23);
            assert("modelType"@.len() == 9 && "qualifiers"@.len() == 10);
            assert("modelType"@.len() == 9 && "embeddedDataSpecifications"@.len() == 26);
            assert("idShort"@.len() == 7 && "modelType"@.len() == 9);
            assert("idShort"@.len() == 7 && "displayName"@.len() == 11);
            assert("idShort"@.len() == 7 && "description"@.len() == 11);
            assert("idShort"@.len() == 7 && "category"@.len() == 8);
            assert("idShort"@.len() == 7 && "extensions"@.len() == 10);
            assert("idShort"@.len() == 7 && "semanticId"@.len() == 10);
            assert("idShort"@.len() == 7 && "supplementalSemanticIds"@.len() == 23);
            assert("idShort"@.len() == 7 && "qualifiers"@.len() == 10);
            assert("idShort"@.len() == 7 && "embeddedDataSpecifications"@.len() == 26);
            assert("displayName"@.len() == 11 && "modelType"@.len() == 9);
            assert("displayName"@.len() == 11 && "idShort"@.len() == 7);
            assert("displayName"@[1] != "description"@[1]);
            assert("displayName"@.len() == 11 && "category"@.len() == 8);
            assert("displayName"@.len() == 11 && "extensions"@.len() == 10);
            assert("displayName"@.len() == 11 && "semanticId"@.len() == 10);
            assert("displayName"@.len() == 11 && "supplementalSemanticIds"@.len() == 23);
            assert("displayName"@.len() == 11 && "qualifiers"@.len() == 10);
            assert("displayName"@.len() == 11 && "embeddedDataSpecifications"@.len() == 26);
            assert("description"@.len() == 11 && "modelType"@.len() == 9);
            assert("description"@.len() == 11 && "idShort"@.len() == 7);
            assert("description"@[1] != "displayName"@[1]);
            assert("description"@.len() == 11 && "category"@.len() == 8);
            assert("description"@.len() == 11 && "extensions"@.len() == 10);
            assert("description"@.len() == 11 && "semanticId"@.len() == 10);
            assert("description"@.len() == 11 && "supplementalSemanticIds"@.len() == 23);
            assert("description"@.len() == 11 && "qualifiers"@.len() == 10);
            assert("description"@.len() == 11 && "embeddedDataSpecifications"@.len() == 26);
            assert("category"@.len() == 8 && "modelType"@.len() == 9);
            assert("category"@.len() == 8 && "idShort"@.len() == 7);
            assert("category"@.len() == 8 && "displayName"@.len() == 11);
            assert("category"@.len() == 8 && "description"@.len() == 11);
            assert("category"@.len() == 8 && "extensions"@.len() == 10);
            assert("category"@.len() == 8 && "semanticId"@.len() == 10);
            assert("category"@.len() == 8 && "supplementalSemanticIds"@.len() == 23);
            assert("category"@.len() == 8 && "qualifiers"@.len() == 10);
            assert("category"@.len() == 8 && "embeddedDataSpecifications"@.len() == 26);
            assert("extensions"@.len() == 10 && "modelType"@.len() == 9);
            assert("extensions"@.len() == 10 && "idShort"@.len() == 7);
            assert("extensions"@.len() == 10 && "displayName"@.len() == 11);
            assert("extensions"@.len() == 10 && "description"@.len() == 11);
            assert("extensions"@.len() == 10 && "category"@.len() == 8);
            assert("extensions"@[0] != "semanticId"@[0]);
            assert("extensions"@.len() == 10 && "supplementalSemanticIds"@.len() == 23);
            assert("extensions"@[0] != "qualifiers"@[0]);
            assert("extensions"@.len() == 10 && "embeddedDataSpecifications"@.len() == 26);
            assert("semanticId"@.len() == 10 && "modelType"@.len() == 9);
            assert("semanticId"@.len() == 10 && "idShort"@.len() == 7);
            assert("semanticId"@.len() == 10 && "displayName"@.len() == 11);
            assert("semanticId"@.len() == 10 && "description"@.len() == 11);
            assert("semanticId"@.len() == 10 && "category"@.len() == 8);
            assert("semanticId"@[0] != "extensions"@[0]);
            assert("semanticId"@.len() == 10 && "supplementalSemanticIds"@.len() == 23);
            assert("semanticId"@[0] != "qualifiers"@[0]);
            assert("semanticId"@.len() == 10 && "embeddedDataSpecifications"@.len() == 26);
            assert("supplementalSemanticIds"@.len() == 23 && "modelType"@.len() == 9);
            assert("supplementalSemanticIds"@.len() == 23 && "idShort"@.len() == 7);
            assert("supplementalSemanticIds"@.len() == 23 && "displayName"@.len() == 11);
            assert("supplementalSemanticIds"@.len() == 23 && "description"@.len() == 11);
            assert("supplementalSemanticIds"@.len() == 23 && "category"@.len() == 8);
            assert("supplementalSemanticIds"@.len() == 23 && "extensions"@.len() == 10);
            assert("supplementalSemanticIds"@.len() == 23 && "semanticId"@.len() == 10);
            assert("supplementalSemanticIds"@.len() == 23 && "qualifiers"@.len() == 10);
            assert("supplementalSemanticIds"@.len() == 23 && "embeddedDataSpecifications"@.len() == 26);
            assert("qualifiers"@.len() == 10 && "modelType"@.len() == 9);
            assert("qualifiers"@.len() == 10 && "idShort"@.len() == 7);
            assert("qualifiers"@.len() == 10 && "displayName"@.len() == 11);
            assert("qualifiers"@.len() == 10 && "description"@.len() == 11);
            assert("qualifiers"@.len() == 10 && "category"@.len() == 8);
            assert("qualifiers"@[0] != "extensions"@[0]);
            assert("qualifiers"@[0] != "semanticId"@[0]);
            assert("qualifiers"@.len() == 10 && "supplementalSemanticIds"@.len() == 23);
            assert("qualifiers"@.len() == 10 && "embeddedDataSpecifications"@.len() == 26);
            assert("embeddedDataSpecifications"@.len() == 26 && "modelType"@.len() == 9);
            assert("embeddedDataSpecifications"@.len() == 26 && "idShort"@.len() == 7);
            assert("embeddedDataSpecifications"@.len() == 26 && "displayName"@.len() == 11);
            assert("embeddedDataSpecifications"@.len() == 26 && "description"@.len() == 11);
            assert("embeddedDataSpecifications"@.len() == 26 && "category"@.len() == 8);
            assert("embeddedDataSpecifications"@.len() == 26 && "extensions"@.len() == 10);
            assert("embeddedDataSpecifications"@.len() == 26 && "semanticId"@.len() == 10);
            assert("embeddedDataSpecifications"@.len() == 26 && "supplementalSemanticIds"@.len() == 23);
            assert("embeddedDataSpecifications"@.len() == 26 && "qualifiers"@.len() == 10);
        }
        let mut fs: Vec<(String, Json)> = Vec::new();
        let ghost prev = fs@;
        fs.push(field("modelType", Json::Str("AnnotatedRelationshipElement".to_string())));
        proof {
            lemma_names_within_empty(prev, |n: Seq<char>| n == "modelType"@);
            if true {
                assert(fs@ == prev.push(fs@.last()));
                lemma_names_within_push(prev, fs@.last(), |n: Seq<char>| n == "modelType"@);
                lemma_lookup_push(prev, fs@.last(), "modelType"@);
            }
        }
        let ghost prev = fs@;
        let mut part = self.submodel_element_fields.encode_members();
        let ghost sp = part@;
        fs.append(&mut part);
        proof {
            lemma_names_within_concat(prev, sp, |n: Seq<char>| n == "modelType"@, |n: Seq<char>| submodel_element_fields_name(n), |n: Seq<char>| annotated_relationship_element_meta_name(n));
            lemma_lookup_concat(prev, sp, "modelType"@);
            lemma_lookup_outside(sp, |n: Seq<char>| submodel_element_fields_name(n), "modelType"@);
            lemma_lookup_concat(prev, sp, "idShort"@);
            lemma_lookup_outside(prev, |n: Seq<char>| n == "modelType"@, "idShort"@);
            lemma_lookup_concat(prev, sp, "displayName"@);
            lemma_lookup_outside(prev, |n: Seq<char>| n == "modelType"@, "displayName"@);
            lemma_lookup_concat(prev, sp, "description"@);
            lemma_lookup_outside(prev, |n: Seq<char>| n == "modelType"@, "description"@);
            lemma_lookup_concat(prev, sp, "category"@);
            lemma_lookup_outside(prev, |n: Seq<char>| n == "modelType"@, "category"@);
            lemma_lookup_concat(prev, sp, "extensions"@);
            lemma_lookup_outside(prev, |n: Seq<char>| n == "modelType"@, "extensions"@);
            lemma_lookup_concat(prev, sp, "semanticId"@);
            lemma_lookup_outside(prev, |n: Seq<char>| n == "modelType"@, "semanticId"@);
            lemma_lookup_concat(prev, sp, "supplementalSemanticIds"@);
            lemma_lookup_outside(prev, |n: Seq<char>| n == "modelType"@, "supplementalSemanticIds"@);
            lemma_lookup_concat(prev, sp, "qualifiers"@);
            lemma_lookup_outside(prev, |n: Seq<char>| n == "modelType"@, "qualifiers"@);
            lemma_lookup_concat(prev, sp, "embeddedDataSpecifications"@);
            lemma_lookup_outside(prev, |n: Seq<char>| n == "modelType"@, "embeddedDataSpecifications"@);
        }
        fs
    }
}

impl BasicEventElement {
    /// Writes the members of encoding step 0, absent ones left out.
    #[verifier::rlimit(100)]
    #[verifier::spinoff_prover]
    fn meta_step0(&self) -> (r: Vec<(String, Json)>)
        ensures
            names_within(r@, |n: Seq<char>| basic_event_element_meta_chunk0_name(n)),
            basic_event_element_meta_chunk0_lookups(BasicEventElementMeta { submodel_element_fields: self.submodel_element_fields, direction: self.direction, state: self.state, message_topic: self.message_topic, message_broker: self.message_broker, last_update: self.last_update, min_interval: self.min_interval, max_interval: self.max_interval }, r@),
    {
        proof {
            reveal_strlit("modelType");
            reveal_strlit("idShort");
            reveal_strlit("displayName");
            reveal_strlit("description");
            reveal_strlit("category");
            reveal_strlit("extensions");
            reveal_strlit("semanticId");
            reveal_strlit("supplementalSemanticIds");
            reveal_strlit("qualifiers");
            reveal_strlit("embeddedDataSpecifications");
            reveal_strlit("direction");
            reveal_strlit("state");
            reveal_strlit("messageTopic");
            reveal_strlit("messageBroker");
            assert("modelType"@.len() == 9 && "idShort"@.len() == 7);
            assert("modelType"@.len() == 9 && "displayName"@.len() == 11);
            assert("modelType"@.len() == 9 && "description"@.len() == 11);
            assert("modelType"@.len() == 9 && "category"@.len() == 8);
            assert("modelType"@.len() == 9 && "extensions"@.len() == 10);
            assert("modelType"@.len() == 9 && "semanticId"@.len() == 10);
            assert("modelType"@.len() == 9 && "supplementalSemanticIds"@.len() == 23);
            assert("modelType"@.len() == 9 && "qualifiers"@.len() == 10);
            assert("modelType"@.len() == 9 && "embeddedDataSpecifications"@.len() == 26);
            assert("modelType"@[0] != "direction"@[0]);
            assert("modelType"@.len() == 9 && "state"@.len() == 5);
            assert("modelType"@.len() == 9 && "messageTopic"@.len() == 12);
            assert("modelType"@.len() == 9 && "messageBroker"@.len() == 13);
            assert("idShort"@.len() == 7 && "modelType"@.len() == 9);
            assert("idShort"@.len() == 7 && "displayName"@.len() == 11);
            assert("idShort"@.len() == 7 && "description"@.len() == 11);
            assert("idShort"@.len() == 7 && "category"@.len() == 8);
            assert("idShort"@.len() == 7 && "extensions"@.len() == 10);
            assert("idShort"@.len() == 7 && "semanticId"@.len() == 10);
            assert("idShort"@.len() == 7 && "supplementalSemanticIds"@.len() == 23);
            assert("idShort"@.len() == 7 && "qualifiers"@.len() == 10);
            assert("idShort"@.len() == 7 && "embeddedDataSpecifications"@.len() == 26);
            assert("idShort"@.len() == 7 && "direction"@.len() == 9);
            assert("idShort"@.len() == 7 && "state"@.len() == 5);
            assert("idShort"@.len() == 7 && "messageTopic"@.len() == 12);
            assert("idShort"@.len() == 7 && "messageBroker"@.len() == 13);
            assert("displayName"@.len() == 11 && "modelType"@.len() == 9);
            assert("displayName"@.len() == 11 && "idShort"@.len() == 7);
            assert("displayName"@[1] != "description"@[1]);
            assert("displayName"@.len() == 11 && "category"@.len() == 8);
            assert("displayName"@.len() == 11 && "extensions"@.len() == 10);
            assert("displayName"@.len() == 11 && "semanticId"@.len() == 10);
            assert("displayName"@.len() == 11 && "supplementalSemanticIds"@.len() == 23);
            assert("displayName"@.len() == 11 && "qualifiers"@.len() == 10);
            assert("displayName"@.len() == 11 && "embeddedDataSpecifications"@.len() == 26);
            assert("displayName"@.len() == 11 && "direction"@.len() == 9);
            assert("displayName"@.len() == 11 && "state"@.len() == 5);
            assert("displayName"@.len() == 11 && "messageTopic"@.len() == 12);
            assert("displayName"@.len() == 11 && "messageBroker"@.len() == 13);
            assert("description"@.len() == 11 && "modelType"@.len() == 9);
            assert("description"@.len() == 11 && "idShort"@.len() == 7);
            assert("description"@[1] != "displayName"@[1]);
            assert("description"@.len() == 11 && "category"@.len() == 8);
            assert("description"@.len() == 11 && "extensions"@.len() == 10);
            assert("description"@.len() == 11 && "semanticId"@.len() == 10);
            assert("description"@.len() == 11 && "supplementalSemanticIds"@.len() == 23);
            assert("description"@.len() == 11 && "qualifiers"@.len() == 10);
            assert("description"@.len() == 11 && "embeddedDataSpecifications"@.len() == 26);
            assert("description"@.len() == 11 && "direction"@.len() == 9);
            assert("description"@.len() == 11 && "state"@.len() == 5);
            assert("description"@.len() == 11 && "messageTopic"@.len() == 12);
            assert("description"@.len() == 11 && "messageBroker"@.len() == 13);
            assert("category"@.len() == 8 && "modelType"@.len() == 9);
            assert("category"@.len() == 8 && "idShort"@.len() == 7);
            assert("category"@.len() == 8 && "displayName"@.len() == 11);
            assert("category"@.len() == 8 && "description"@.len() == 11);
            assert("category"@.len() == 8 && "extensions"@.len() == 10);
            assert("category"@.len() == 8 && "semanticId"@.len() == 10);
            assert("category"@.len() == 8 && "supplementalSemanticIds"@.len() == 23);
            assert("category"@.len() == 8 && "qualifiers"@.len() == 10);
            assert("category"@.len() == 8 && "embeddedDataSpecifications"@.len() == 26);
            assert("category"@.len() == 8 && "direction"@.len() == 9);
            assert("category"@.len() == 8 && "state"@.len() == 5);
            assert("category"@.len() == 8 && "messageTopic"@.len() == 12);
            assert("category"@.len() == 8 && "messageBroker"@.len() == 13);
            assert("extensions"@.len() == 10 && "modelType"@.len() == 9);
            assert("extensions"@.len() == 10 && "idShort"@.len() == 7);
            assert("extensions"@.len() == 10 && "displayName"@.len() == 11);
            assert("extensions"@.len() == 10 && "description"@.len() == 11);
            assert("extensions"@.len() == 10 && "category"@.len() == 8);
            assert("extensions"@[0] != "semanticId"@[0]);
            assert("extensions"@.len() == 10 && "supplementalSemanticIds"@.len() == 23);
            assert("extensions"@[0] != "qualifiers"@[0]);
            assert("extensions"@.len() == 10 && "embeddedDataSpecifications"@.len() == 26);
            assert("extensions"@.len() == 10 && "direction"@.len() == 9);
            assert("extensions"@.len() == 10 && "state"@.len() == 5);
            assert("extensions"@.len() == 10 && "messageTopic"@.len() == 12);
            assert("extensions"@.len() == 10 && "messageBroker"@.len() == 13);
            assert("semanticId"@.len() == 10 && "modelType"@.len() == 9);
            assert("semanticId"@.len() == 10 && "idShort"@.len() == 7);
            assert("semanticId"@.len() == 10 && "displayName"@.len() == 11);
            assert("semanticId"@.len() == 10 && "description"@.len() == 11);
            assert("semanticId"@.len() == 10 && "category"@.len() == 8);
            assert("semanticId"@[0] != "extensions"@[0]);
            assert("semanticId"@.len() == 10 && "supplementalSemanticIds"@.len() == 23);
            assert("semanticId"@[0] != "qualifiers"@[0]);
            assert("semanticId"@.len() == 10 && "embeddedDataSpecifications"@.len() == 26);
            assert("semanticId"@.len() == 10 && "direction"@.len() == 9);
            assert("semanticId"@.len() == 10 && "state"@.len() == 5);
            assert("semanticId"@.len() == 10 && "messageTopic"@.len() == 12);
            assert("semanticId"@.len() == 10 && "messageBroker"@.len() == 13);
            assert("supplementalSemanticIds"@.len() == 23 && "modelType"@.len() == 9);
            assert("supplementalSemanticIds"@.len() == 23 && "idShort"@.len() == 7);
            assert("supplementalSemanticIds"@.len() == 23 && "displayName"@.len() == 11);
            assert("supplementalSemanticIds"@.len() == 23 && "description"@.len() == 11);
            assert("supplementalSemanticIds"@.len() == 23 && "category"@.len() == 8);
            assert("supplementalSemanticIds"@.len() == 23 && "extensions"@.len() == 10);
            assert("supplementalSemanticIds"@.len() == 23 && "semanticId"@.len() == 10);
            assert("supplementalSemanticIds"@.len() == 23 && "qualifiers"@.len() == 10);
            assert("supplementalSemanticIds"@.len() == 23 && "embeddedDataSpecifications"@.len() == 26);
            assert("supplementalSemanticIds"@.len() == 23 && "direction"@.len() == 9);
            assert("supplementalSemanticIds"@.len() == 23 && "state"@.len() == 5);
            assert("supplementalSemanticIds"@.len() == 23 && "messageTopic"@.len() == 12);
            assert("supplementalSemanticIds"@.len() == 23 && "messageBroker"@.len() == 13);
            assert("qualifiers"@.len() == 10 && "modelType"@.len() == 9);
            assert("qualifiers"@.len() == 10 && "idShort"@.len() == 7);
            assert("qualifiers"@.len() == 10 && "displayName"@.len() == 11);
            assert("qualifiers"@.len() == 10 && "description"@.len() == 11);
            assert("qualifiers"@.len() == 10 && "category"@.len() == 8);
            assert("qualifiers"@[0] != "extensions"@[0]);
            assert("qualifiers"@[0] != "semanticId"@[0]);
            assert("qualifiers"@.len() == 10 && "supplementalSemanticIds"@.len() == 23);
            assert("qualifiers"@.len() == 10 && "embeddedDataSpecifications"@.len() == 26);
            assert("qualifiers"@.len() == 10 && "direction"@.len() == 9);
            assert("qualifiers"@.len() == 10 && "state"@.len() == 5);
            assert("qualifiers"@.len() == 10 && "messageTopic"@.len() == 12);
            assert("qualifiers"@.len() == 10 && "messageBroker"@.len() == 13);
            assert("embeddedDataSpecifications"@.len() == 26 && "modelType"@.len() == 9);
            assert("embeddedDataSpecifications"@.len() == 26 && "idShort"@.len() == 7);
            assert("embeddedDataSpecifications"@.len() == 26 && "displayName"@.len() == 11);
            assert("embeddedDataSpecifications"@.len() == 26 && "description"@.len() == 11);
            assert("embeddedDataSpecifications"@.len() == 26 && "category"@.len() == 8);
            assert("embeddedDataSpecifications"@.len() == 26 && "extensions"@.len() == 10);
            assert("embeddedDataSpecifications"@.len() == 26 && "semanticId"@.len() == 10);
            assert("embeddedDataSpecifications"@.len() == 26 && "supplementalSemanticIds"@.len() == 23);
            assert("embeddedDataSpecifications"@.len() == 26 && "qualifiers"@.len() == 10);
            assert("embeddedDataSpecifications"@.len() == 26 && "direction"@.len() == 9);
            assert("embeddedDataSpecifications"@.len() == 26 && "state"@.len() == 5);
            assert("embeddedDataSpecifications"@.len() == 26 && "messageTopic"@.len() == 12);
            assert("embeddedDataSpecifications"@.len() == 26 && "messageBroker"@.len() == 13);
            assert("direction"@[0] != "modelType"@[0]);
            assert("direction"@.len() == 9 && "idShort"@.len() == 7);
            assert("direction"@.len() == 9 && "displayName"@.len() == 11);
            assert("direction"@.len() == 9 && "description"@.len() == 11);
            assert("direction"@.len() == 9 && "category"@.len() == 8);
            assert("direction"@.len() == 9 && "extensions"@.len() == 10);
            assert("direction"@.len() == 9 && "semanticId"@.len() == 10);
            assert("direction"@.len() == 9 && "supplementalSemanticIds"@.len() == 23);
            assert("direction"@.len() == 9 && "qualifiers"@.len() == 10);
            assert("direction"@.len() == 9 && "embeddedDataSpecifications"@.len() == 26);
            assert("direction"@.len() == 9 && "state"@.len() == 5);
            assert("direction"@.len() == 9 && "messageTopic"@.len() == 12);
            assert("direction"@.len() == 9 && "messageBroker"@.len() == 13);
            assert("state"@.len() == 5 && "modelType"@.len() == 9);
            assert("state"@.len() == 5 && "idShort"@.len() == 7);
            assert("state"@.len() == 5 && "displayName"@.len() == 11);
            assert("state"@.len() == 5 && "description"@.len() == 11);
            assert("state"@.len() == 5 && "category"@.len() == 8);
            assert("state"@.len() == 5 && "extensions"@.len() == 10);
            assert("state"@.len() == 5 && "semanticId"@.len() == 10);
            assert("state"@.len() == 5 && "supplementalSemanticIds"@.len() == 23);
            assert("state"@.len() == 5 && "qualifiers"@.len() == 10);
            assert("state"@.len() == 5 && "embeddedDataSpecifications"@.len() == 26);
            assert("state"@.len() == 5 && "direction"@.len() == 9);
            assert("state"@.len() == 5 && "messageTopic"@.len() == 12);
            assert("state"@.len() == 5 && "messageBroker"@.len() == 13);
            assert("messageTopic"@.len() == 12 && "modelType"@.len() == 9);
            assert("messageTopic"@.len() == 12 && "idShort"@.len() == 7);
            assert("messageTopic"@.len() == 12 && "displayName"@.len() == 11);
            assert("messageTopic"@.len() == 12 && "description"@.len() == 11);
            assert("messageTopic"@.len() == 12 && "category"@.len() == 8);
            assert("messageTopic"@.len() == 12 && "extensions"@.len() == 10);
            assert("messageTopic"@.len() == 12 && "semanticId"@.len() == 10);
            assert("messageTopic"@.len() == 12 && "supplementalSemanticIds"@.len() == 23);
            assert("messageTopic"@.len() == 12 && "qualifiers"@.len() == 10);
            assert("messageTopic"@.len() == 12 && "embeddedDataSpecifications"@.len() == 26);
            assert("messageTopic"@.len() == 12 && "direction"@.len() == 9);
            assert("messageTopic"@.len() == 12 && "state"@.len() == 5);
            assert("messageTopic"@.len() == 12 && "messageBroker"@.len() == 13);
            assert("messageBroker"@.len() == 13 && "modelType"@.len() == 9);
            assert("messageBroker"@.len() == 13 && "idShort"@.len() == 7);
            assert("messageBroker"@.len() == 13 && "displayName"@.len() == 11);
            assert("messageBroker"@.len() == 13 && "description"@.len() == 11);
            assert("messageBroker"@.len() == 13 && "category"@.len() == 8);
            assert("messageBroker"@.len() == 13 && "extensions"@.len() == 10);
            assert("messageBroker"@.len() == 13 && "semanticId"@.len() == 10);
            assert("messageBroker"@.len() == 13 && "supplementalSemanticIds"@.len() == 23);
            assert("messageBroker"@.len() == 13 && "qualifiers"@.len() == 10);
            assert("messageBroker"@.len() == 13 && "embeddedDataSpecifications"@.len() == 26);
            assert("messageBroker"@.len() == 13 && "direction"@.len() == 9);
            assert("messageBroker"@.len() == 13 && "state"@.len() == 5);
            assert("messageBroker"@.len() == 13 && "messageTopic"@.len() == 12);
        }
        let mut fs: Vec<(String, Json)> = Vec::new();
        let ghost prev = fs@;
        fs.push(field("modelType", Json::Str("BasicEventElement".to_string())));
        proof {
            lemma_names_within_empty(prev, |n: Seq<char>| n == "modelType"@);
            if true {
                assert(fs@ == prev.push(fs@.last()));
                lemma_names_within_push(prev, fs@.last(), |n: Seq<char>| n == "modelType"@);
                lemma_lookup_push(prev, fs@.last(), "modelType"@);
            }
        }
        let ghost prev = fs@;
        let mut part = self.submodel_element_fields.encode_members();
        let ghost sp = part@;
        fs.append(&mut part);
        proof {
            lemma_names_within_concat(prev, sp, |n: Seq<char>| n == "modelType"@, |n: Seq<char>| submodel_element_fields_name(n), |n: Seq<char>| n == "modelType"@ || submodel_element_fields_name(n));
            lemma_lookup_concat(prev, sp, "modelType"@);
            lemma_lookup_outside(sp, |n: Seq<char>| submodel_element_fields_name(n), "modelType"@);
            lemma_lookup_concat(prev, sp, "idShort"@);
            lemma_lookup_outside(prev, |n: Seq<char>| n == "modelType"@, "idShort"@);
            lemma_lookup_concat(prev, sp, "displayName"@);
            lemma_lookup_outside(prev, |n: Seq<char>| n == "modelType"@, "displayName"@);
            lemma_lookup_concat(prev, sp, "description"@);
            lemma_lookup_outside(prev, |n: Seq<char>| n == "modelType"@, "description"@);
            lemma_lookup_concat(prev, sp, "category"@);
            lemma_lookup_outside(prev, |n: Seq<char>| n == "modelType"@, "category"@);
            lemma_lookup_concat(prev, sp, "extensions"@);
            lemma_lookup_outside(prev, |n: Seq<char>| n == "modelType"@, "extensions"@);
            lemma_lookup_concat(prev, sp, "semanticId"@);
            lemma_lookup_outside(prev, |n: Seq<char>| n == "modelType"@, "semanticId"@);
            lemma_lookup_concat(prev, sp, "supplementalSemanticIds"@);
            lemma_lookup_outside(prev, |n: Seq<char>| n == "modelType"@, "supplementalSemanticIds"@);
            lemma_lookup_concat(prev, sp, "qualifiers"@);
            lemma_lookup_outside(prev, |n: Seq<char>| n == "modelType"@, "qualifiers"@);
            lemma_lookup_concat(prev, sp, "embeddedDataSpecifications"@);
            lemma_lookup_outside(prev, |n: Seq<char>| n == "modelType"@, "embeddedDataSpecifications"@);
        }
        let ghost prev = fs@;
        push_req(&mut fs, "direction", &self.direction);
        proof {
            lemma_names_within_weaken(prev, |n: Seq<char>| n == "modelType"@ || submodel_element_fields_name(n), |n: Seq<char>| n == "modelType"@ || submodel_element_fields_name(n) || n == "direction"@);
            lemma_lookup_outside(prev, |n: Seq<char>| n == "modelType"@ || submodel_element_fields_name(n), "direction"@);
            if true {
                assert(fs@ == prev.push(fs@.last()));
                lemma_names_within_push(prev, fs@.last(), |n: Seq<char>| n == "modelType"@ || submodel_element_fields_name(n) || n == "direction"@);
                lemma_lookup_push(prev, fs@.last(), "modelType"@);
                lemma_lookup_push(prev, fs@.last(), "idShort"@);
                lemma_lookup_push(prev, fs@.last(), "displayName"@);
                lemma_lookup_push(prev, fs@.last(), "description"@);
                lemma_lookup_push(prev, fs@.last(), "category"@);
                lemma_lookup_push(prev, fs@.last(), "extensions"@);
                lemma_lookup_push(prev, fs@.last(), "semanticId"@);
                lemma_lookup_push(prev, fs@.last(), "supplementalSemanticIds"@);
                lemma_lookup_push(prev, fs@.last(), "qualifiers"@);
                lemma_lookup_push(prev, fs@.last(), "embeddedDataSpecifications"@);
                lemma_lookup_push(prev, fs@.last(), "direction"@);
            }
        }
        let ghost prev = fs@;
        push_req(&mut fs, "state", &self.state);
        proof {
            lemma_names_within_weaken(prev, |n: Seq<char>| n == "modelType"@ || submodel_element_fields_name(n) || n == "direction"@, |n: Seq<char>| n == "modelType"@ || submodel_element_fields_name(n) || n == "direction"@ || n == "state"@);
            lemma_lookup_outside(prev, |n: Seq<char>| n == "modelType"@ || submodel_element_fields_name(n) || n == "direction"@, "state"@);
            if true {
                assert(fs@ == prev.push(fs@.last()));
                lemma_names_within_push(prev, fs@.last(), |n: Seq<char>| n == "modelType"@ || submodel_element_fields_name(n) || n == "direction"@ || n == "state"@);
                lemma_lookup_push(prev, fs@.last(), "modelType"@);
                lemma_lookup_push(prev, fs@.last(), "idShort"@);
                lemma_lookup_push(prev, fs@.last(), "displayName"@);
                lemma_lookup_push(prev, fs@.last(), "description"@);
                lemma_lookup_push(prev, fs@.last(), "category"@);
                lemma_lookup_push(prev, fs@.last(), "extensions"@);
                lemma_lookup_push(prev, fs@.last(), "semanticId"@);
                lemma_lookup_push(prev, fs@.last(), "supplementalSemanticIds"@);
                lemma_lookup_push(prev, fs@.last(), "qualifiers"@);
                lemma_lookup_push(prev, fs@.last(), "embeddedDataSpecifications"@);
                lemma_lookup_push(prev, fs@.last(), "direction"@);
                lemma_lookup_push(prev, fs@.last(), "state"@);
            }
        }
        let ghost prev = fs@;
        push_opt(&mut fs, "messageTopic", &self.message_topic);
        proof {
            lemma_names_within_weaken(prev, |n: Seq<char>| n == "modelType"@ || submodel_element_fields_name(n) || n == "direction"@ || n == "state"@, |n: Seq<char>| n == "modelType"@ || submodel_element_fields_name(n) || n == "direction"@ || n == "state"@ || n == "messageTopic"@);
            lemma_lookup_outside(prev, |n: Seq<char>| n == "modelType"@ || submodel_element_fields_name(n) || n == "direction"@ || n == "state"@, "messageTopic"@);
            if self.message_topic is Some {
                assert(fs@ == prev.push(fs@.last()));
                lemma_names_within_push(prev, fs@.last(), |n: Seq<char>| n == "modelType"@ || submodel_element_fields_name(n) || n == "direction"@ || n == "state"@ || n == "messageTopic"@);
                lemma_lookup_push(prev, fs@.last(), "modelType"@);
                lemma_lookup_push(prev, fs@.last(), "idShort"@);
                lemma_lookup_push(prev, fs@.last(), "displayName"@);
                lemma_lookup_push(prev, fs@.last(), "description"@);
                lemma_lookup_push(prev, fs@.last(), "category"@);
                lemma_lookup_push(prev, fs@.last(), "extensions"@);
                lemma_lookup_push(prev, fs@.last(), "semanticId"@);
                lemma_lookup_push(prev, fs@.last(), "supplementalSemanticIds"@);
                lemma_lookup_push(prev, fs@.last(), "qualifiers"@);
                lemma_lookup_push(prev, fs@.last(), "embeddedDataSpecifications"@);
                lemma_lookup_push(prev, fs@.last(), "direction"@);
                lemma_lookup_push(prev, fs@.last(), "state"@);
                lemma_lookup_push(prev, fs@.last(), "messageTopic"@);
            }
        }
        let ghost prev = fs@;
        push_opt(&mut fs, "messageBroker", &self.message_broker);
        proof {
            lemma_names_within_weaken(prev, |n: Seq<char>| n == "modelType"@ || submodel_element_fields_name(n) || n == "direction"@ || n == "state"@ || n == "messageTopic"@, |n: Seq<char>| basic_event_element_meta_chunk0_name(n));
            lemma_lookup_outside(prev, |n: Seq<char>| n == "modelType"@ || submodel_element_fields_name(n) || n == "direction"@ || n == "state"@ || n == "messageTopic"@, "messageBroker"@);
            if self.message_broker is Some {
                assert(fs@ == prev.push(fs@.last()));
                lemma_names_within_push(prev, fs@.last(), |n: Seq<char>| basic_event_element_meta_chunk0_name(n));
                lemma_lookup_push(prev, fs@.last(), "modelType"@);
                lemma_lookup_push(prev, fs@.last(), "idShort"@);
                lemma_lookup_push(prev, fs@.last(), "displayName"@);
                lemma_lookup_push(prev, fs@.last(), "description"@);
                lemma_lookup_push(prev, fs@.last(), "category"@);
                lemma_lookup_push(prev, fs@.last(), "extensions"@);
                lemma_lookup_push(prev, fs@.last(), "semanticId"@);
                lemma_lookup_push(prev, fs@.last(), "supplementalSemanticIds"@);
                lemma_lookup_push(prev, fs@.last(), "qualifiers"@);
                lemma_lookup_push(prev, fs@.last(), "embeddedDataSpecifications"@);
                lemma_lookup_push(prev, fs@.last(), "direction"@);
                lemma_lookup_push(prev, fs@.last(), "state"@);
                lemma_lookup_push(prev, fs@.last(), "messageTopic"@);
                lemma_lookup_push(prev, fs@.last(), "messageBroker"@);
            }
        }
        fs
    }

    /// Writes the members of encoding step 1, absent ones left out.
    fn meta_step1(&self) -> (r: Vec<(String, Json)>)
        ensures
            names_within(r@, |n: Seq<char>| basic_event_element_meta_chunk1_name(n)),
            basic_event_element_meta_chunk1_lookups(BasicEventElementMeta { submodel_element_fields: self.submodel_element_fields, direction: self.direction, state: self.state, message_topic: self.message_topic, message_broker: self.message_broker, last_update: self.last_update, min_interval: self.min_interval, max_interval: self.max_interval }, r@),
    {
        proof {
            reveal_strlit("lastUpdate");
            reveal_strlit("minInterval");
            reveal_strlit("maxInterval");
            assert("lastUpdate"@.len() == 10 && "minInterval"@.len() == 11);
            assert("lastUpdate"@.len() == 10 && "maxInterval"@.len() == 11);
            assert("minInterval"@.len() == 11 && "lastUpdate"@.len() == 10);
            assert("minInterval"@[1] != "maxInterval"@[1]);
            assert("maxInterval"@.len() == 11 && "lastUpdate"@.len() == 10);
            assert("maxInterval"@[1] != "minInterval"@[1]);
        }
        let mut fs: Vec<(String, Json)> = Vec::new();
        let ghost prev = fs@;
        push_opt(&mut fs, "lastUpdate", &self.last_update);
        proof {
            lemma_names_within_empty(prev, |n: Seq<char>| n == "lastUpdate"@);
            if self.last_update is Some {
                assert(fs@ == prev.push(fs@.last()));
                lemma_names_within_push(prev, fs@.last(), |n: Seq<char>| n == "lastUpdate"@);
                lemma_lookup_push(prev, fs@.last(), "lastUpdate"@);
            }
        }
        let ghost prev = fs@;
        push_opt(&mut fs, "minInterval", &self.min_interval);
        proof {
            lemma_names_within_weaken(prev, |n: Seq<char>| n == "lastUpdate"@, |n: Seq<char>| n == "lastUpdate"@ || n == "minInterval"@);
            lemma_lookup_outside(prev, |n: Seq<char>| n == "lastUpdate"@, "minInterval"@);
            if self.min_interval is Some {
                assert(fs@ == prev.push(fs@.last()));
                lemma_names_within_push(prev, fs@.last(), |n: Seq<char>| n == "lastUpdate"@ || n == "minInterval"@);
                lemma_lookup_push(prev, fs@.last(), "lastUpdate"@);
                lemma_lookup_push(prev, fs@.last(), "minInterval"@);
            }
        }
        let ghost prev = fs@;
        push_opt(&mut fs, "maxInterval", &self.max_interval);
        proof {
            lemma_names_within_weaken(prev, |n: Seq<char>| n == "lastUpdate"@ || n == "minInterval"@, |n: Seq<char>| basic_event_element_meta_chunk1_name(n));
            lemma_lookup_outside(prev, |n: Seq<char>| n == "lastUpdate"@ || n == "minInterval"@, "maxInterval"@);
            if self.max_interval is Some {
                assert(fs@ == prev.push(fs@.last()));
                lemma_names_within_push(prev, fs@.last(), |n: Seq<char>| basic_event_element_meta_chunk1_name(n));
                lemma_lookup_push(prev, fs@.last(), "lastUpdate"@);
                lemma_lookup_push(prev, fs@.last(), "minInterval"@);
                lemma_lookup_push(prev, fs@.last(), "maxInterval"@);
            }
        }
        fs
    }

    /// Writes the members of the metamodel view of the value: its
    /// attributes, without the value.
    pub fn metamodel_members(&self) -> (r: Vec<(String, Json)>)
        ensures
            basic_event_element_meta_encoded(BasicEventElementMeta { submodel_element_fields: self.submodel_element_fields, direction: self.direction, state: self.state, message_topic: self.message_topic, message_broker: self.message_broker, last_update: self.last_update, min_interval: self.min_interval, max_interval: self.max_interval }, r@),
    {
        proof {
            reveal_strlit("modelType");
            reveal_strlit("idShort");
            reveal_strlit("displayName");
            reveal_strlit("description");
            reveal_strlit("category");
            reveal_strlit("extensions");
            reveal_strlit("semanticId");
            reveal_strlit("supplementalSemanticIds");
            reveal_strlit("qualifiers");
            reveal_strlit("embeddedDataSpecifications");
            reveal_strlit("direction");
            reveal_strlit("state");
            reveal_strlit("messageTopic");
            reveal_strlit("messageBroker");
            reveal_strlit("lastUpdate");
            reveal_strlit("minInterval");
            reveal_strlit("maxInterval");
            assert("modelType"@.len() == 9 && "idShort"@.len() == 7);
            assert("modelType"@.len() == 9 && "displayName"@.len() == 11);
            assert("modelType"@.len() == 9 && "description"@.len() == 11);
            assert("modelType"@.len() == 9 && "category"@.len() == 8);
            assert("modelType"@.len() == 9 && "extensions"@.len() == 10);
            assert("modelType"@.len() == 9 && "semanticId"@.len() == 10);
            assert("modelType"@.len() == 9 && "supplementalSemanticIds"@.len() == 23);
            assert("modelType"@.len() == 9 && "qualifiers"@.len() == 10);
            assert("modelType"@.len() == 9 && "embeddedDataSpecifications"@.len() == 26);
            assert("modelType"@[0] != "direction"@[0]);
            assert("modelType"@.len() == 9 && "state"@.len() == 5);
            assert("modelType"@.len() == 9 && "messageTopic"@.len() == 12);
            assert("modelType"@.len() == 9 && "messageBroker"@.len() == 13);
            assert("modelType"@.len() == 9 && "lastUpdate"@.len() == 10);
            assert("modelType"@.len() == 9 && "minInterval"@.len() == 11);
            assert("modelType"@.len() == 9 && "maxInterval"@.len() == 11);
            assert("idShort"@.len() == 7 && "modelType"@.len() == 9);
            assert("idShort"@.len() == 7 && "displayName"@.len() == 11);
            assert("idShort"@.len() == 7 && "description"@.len() == 11);
            assert("idShort"@.len() == 7 && "category"@.len() == 8);
            assert("idShort"@.len() == 7 && "extensions"@.len() == 10);
            assert("idShort"@.len() == 7 && "semanticId"@.len() == 10);
            assert("idShort"@.len() == 7 && "supplementalSemanticIds"@.len() == 23);
            assert("idShort"@.len() == 7 && "qualifiers"@.len() == 10);
            assert("idShort"@.len() == 7 && "embeddedDataSpecifications"@.len() == 26);
            assert("idShort"@.len() == 7 && "direction"@.len() == 9);
            assert("idShort"@.len() == 7 && "state"@.len() == 5);
            assert("idShort"@.len() == 7 && "messageTopic"@.len() == 12);
            assert("idShort"@.len() == 7 && "messageBroker"@.len() == 13);
            assert("idShort"@.len() == 7 && "lastUpdate"@.len() == 10);
            assert("idShort"@.len() == 7 && "minInterval"@.len() == 11);
            assert("idShort"@.len() == 7 && "maxInterval"@.len() == 11);
            assert("displayName"@.len() == 11 && "modelType"@.len() == 9);
            assert("displayName"@.len() == 11 && "idShort"@.len() == 7);
            assert("displayName"@[1] != "description"@[1]);
            assert("displayName"@.len() == 11 && "category"@.len() == 8);
            assert("displayName"@.len() == 11 && "extensions"@.len() == 10);
            assert("displayName"@.len() == 11 && "semanticId"@.len() == 10);
            assert("displayName"@.len() == 11 && "supplementalSemanticIds"@.len() == 23);
            assert("displayName"@.len() == 11 && "qualifiers"@.len() == 10);
            assert("displayName"@.len() == 11 && "embeddedDataSpecifications"@.len() == 26);
            assert("displayName"@.len() == 11 && "direction"@.len() == 9);
            assert("displayName"@.len() == 11 && "state"@.len() == 5);
            assert("displayName"@.len() == 11 && "messageTopic"@.len() == 12);
            assert("displayName"@.len() == 11 && "messageBroker"@.len() == 13);
            assert("displayName"@.len() == 11 && "lastUpdate"@.len() == 10);
            assert("displayName"@[0] != "minInterval"@[0]);
            assert("displayName"@[0] != "maxInterval"@[0]);
            assert("description"@.len() == 11 && "modelType"@.len() == 9);
            assert("description"@.len() == 11 && "idShort"@.len() == 7);
            assert("description"@[1] != "displayName"@[1]);
            assert("description"@.len() == 11 && "category"@.len() == 8);
            assert("description"@.len() == 11 && "extensions"@.len() == 10);
            assert("description"@.len() == 11 && "semanticId"@.len() == 10);
            assert("description"@.len() == 11 && "supplementalSemanticIds"@.len() == 23);
            assert("description"@.len() == 11 && "qualifiers"@.len() == 10);
            assert("description"@.len() == 11 && "embeddedDataSpecifications"@.len() == 26);
            assert("description"@.len() == 11 && "direction"@.len() == 9);
            assert("description"@.len() == 11 && "state"@.len() == 5);
            assert("description"@.len() == 11 && "messageTopic"@.len() == 12);
            assert("description"@.len() == 11 && "messageBroker"@.len() == 13);
            assert("description"@.len() == 11 && "lastUpdate"@.len() == 10);
            assert("description"@[0] != "minInterval"@[0]);
            assert("description"@[0] != "maxInterval"@[0]);
            assert("category"@.len() == 8 && "modelType"@.len() == 9);
            assert("category"@.len() == 8 && "idShort"@.len() == 7);
            assert("category"@.len() == 8 && "displayName"@.len() == 11);
            assert("category"@.len() == 8 && "description"@.len() == 11);
            assert("category"@.len() == 8 && "extensions"@.len() == 10);
            assert("category"@.len() == 8 && "semanticId"@.len() == 10);
            assert("category"@.len() == 8 && "supplementalSemanticIds"@.len() == 23);
            assert("category"@.len() == 8 && "qualifiers"@.len() == 10);
            assert("category"@.len() == 8 && "embeddedDataSpecifications"@.len() == 26);
            assert("category"@.len() == 8 && "direction"@.len() == 9);
            assert("category"@.len() == 8 && "state"@.len() == 5);
            assert("category"@.len() == 8 && "messageTopic"@.len() == 12);
            assert("category"@.len() == 8 && "messageBroker"@.len() == 13);
            assert("category"@.len() == 8 && "lastUpdate"@.len() == 10);
            assert("category"@.len() == 8 && "minInterval"@.len() == 11);
            assert("category"@.len() == 8 && "maxInterval"@.len() == 11);
            assert("extensions"@.len() == 10 && "modelType"@.len() == 9);
            assert("extensions"@.len() == 10 && "idShort"@.len() == 7);
            assert("extensions"@.len() == 10 && "displayName"@.len() == 11);
            assert("extensions"@.len() == 10 && "description"@.len() == 11);
            assert("extensions"@.len() == 10 && "category"@.len() == 8);
            assert("extensions"@[0] != "semanticId"@[0]);
            assert("extensions"@.len() == 10 && "supplementalSemanticIds"@.len() == 23);
            assert("extensions"@[0] != "qualifiers"@[0]);
            assert("extensions"@.len() == 10 && "embeddedDataSpecifications"@.len() == 26);
            assert("extensions"@.len() == 10 && "direction"@.len() == 9);
            assert("extensions"@.len() == 10 && "state"@.len() == 5);
            assert("extensions"@.len() == 10 && "messageTopic"@.len() == 12);
            assert("extensions"@.len() == 10 && "messageBroker"@.len() == 13);
            assert("extensions"@[0] != "lastUpdate"@[0]);
            assert("extensions"@.len() == 10 && "minInterval"@.len() == 11);
            assert("extensions"@.len() == 10 && "maxInterval"@.len() == 11);
            assert("semanticId"@.len() == 10 && "modelType"@.len() == 9);
            assert("semanticId"@.len() == 10 && "idShort"@.len() == 7);
            assert("semanticId"@.len() == 10 && "displayName"@.len() == 11);
            assert("semanticId"@.len() == 10 && "description"@.len() == 11);
            assert("semanticId"@.len() == 10 && "category"@.len() == 8);
            assert("semanticId"@[0] != "extensions"@[0]);
            assert("semanticId"@.len() == 10 && "supplementalSemanticIds"@.len() == 23);
            assert("semanticId"@[0] != "qualifiers"@[0]);
            assert("semanticId"@.len() == 10 && "embeddedDataSpecifications"@.len() == 26);
            assert("semanticId"@.len() == 10 && "direction"@.len() == 9);
            assert("semanticId"@.len() == 10 && "state"@.len() == 5);
            assert("semanticId"@.len() == 10 && "messageTopic"@.len() == 12);
            assert("semanticId"@.len() == 10 && "messageBroker"@.len() == 13);
            assert("semanticId"@[0] != "lastUpdate"@[0]);
            assert("semanticId"@.len() == 10 && "minInterval"@.len() == 11);
            assert("semanticId"@.len() == 10 && "maxInterval"@.len() == 11);
            assert("supplementalSemanticIds"@.len() == 23 && "modelType"@.len() == 9);
            assert("supplementalSemanticIds"@.len() == 23 && "idShort"@.len() == 7);
            assert("supplementalSemanticIds"@.len() == 23 && "displayName"@.len() == 11);
            assert("supplementalSemanticIds"@.len() == 23 && "description"@.len() == 11);
            assert("supplementalSemanticIds"@.len() == 23 && "category"@.len() == 8);
            assert("supplementalSemanticIds"@.len() == 23 && "extensions"@.len() == 10);
            assert("supplementalSemanticIds"@.len() == 23 && "semanticId"@.len() == 10);
            assert("supplementalSemanticIds"@.len() == 23 && "qualifiers"@.len() == 10);
            assert("supplementalSemanticIds"@.len() == 23 && "embeddedDataSpecifications"@.len() == 26);
            assert("supplementalSemanticIds"@.len() == 23 && "direction"@.len() == 9);
            assert("supplementalSemanticIds"@.len() == 23 && "state"@.len() == 5);
            assert("supplementalSemanticIds"@.len() == 23 && "messageTopic"@.len() == 12);
            assert("supplementalSemanticIds"@.len() == 23 && "messageBroker"@.len() == 13);
            assert("supplementalSemanticIds"@.len() == 23 && "lastUpdate"@.len() == 10);
            assert("supplementalSemanticIds"@.len() == 23 && "minInterval"@.len() == 11);
            assert("supplementalSemanticIds"@.len() == 23 && "maxInterval"@.len() == 11);
            assert("qualifiers"@.len() == 10 && "modelType"@.len() == 9);
            assert("qualifiers"@.len() == 10 && "idShort"@.len() == 7);
            assert("qualifiers"@.len() == 10 && "displayName"@.len() == 11);
            assert("qualifiers"@.len() == 10 && "description"@.len() == 11);
            assert("qualifiers"@.len() == 10 && "category"@.len() == 8);
            assert("qualifiers"@[0] != "extensions"@[0]);
            assert("qualifiers"@[0] != "semanticId"@[0]);
            assert("qualifiers"@.len() == 10 && "supplementalSemanticIds"@.len() == 23);
            assert("qualifiers"@.len() == 10 && "embeddedDataSpecifications"@.len() == 26);
            assert("qualifiers"@.len() == 10 && "direction"@.len() == 9);
            assert("qualifiers"@.len() == 10 && "state"@.len() == 5);
            assert("qualifiers"@.len() == 10 && "messageTopic"@.len() == 12);
            assert("qualifiers"@.len() == 10 && "messageBroker"@.len() == 13);
            assert("qualifiers"@[0] != "lastUpdate"@[0]);
            assert("qualifiers"@.len() == 10 && "minInterval"@.len() == 11);
            assert("qualifiers"@.len() == 10 && "maxInterval"@.len() == 11);
            assert("embeddedDataSpecifications"@.len() == 26 && "modelType"@.len() == 9);
            assert("embeddedDataSpecifications"@.len() == 26 && "idShort"@.len() == 7);
            assert("embeddedDataSpecifications"@.len() == 26 && "displayName"@.len() == 11);
            assert("embeddedDataSpecifications"@.len() == 26 && "description"@.len() == 11);
            assert("embeddedDataSpecifications"@.len() == 26 && "category"@.len() == 8);
            assert("embeddedDataSpecifications"@.len() == 26 && "extensions"@.len() == 10);
            assert("embeddedDataSpecifications"@.len() == 26 && "semanticId"@.len() == 10);
            assert("embeddedDataSpecifications"@.len() == 26 && "supplementalSemanticIds"@.len() == 23);
            assert("embeddedDataSpecifications"@.len() == 26 && "qualifiers"@.len() == 10);
            assert("embeddedDataSpecifications"@.len() == 26 && "direction"@.len() == 9);
            assert("embeddedDataSpecifications"@.len() == 26 && "state"@.len() == 5);
            assert("embeddedDataSpecifications"@.len() == 26 && "messageTopic"@.len() == 12);
            assert("embeddedDataSpecifications"@.len() == 26 && "messageBroker"@.len() == 13);
            assert("embeddedDataSpecifications"@.len() == 26 && "lastUpdate"@.len() == 10);
            assert("embeddedDataSpecifications"@.len() == 26 && "minInterval"@.len() == 11);
            assert("embeddedDataSpecifications"@.len() == 26 && "maxInterval"@.len() == 11);
            assert("direction"@[0] != "modelType"@[0]);
            assert("direction"@.len() == 9 && "idShort"@.len() == 7);
            assert("direction"@.len() == 9 && "displayName"@.len() == 11);
            assert("direction"@.len() == 9 && "description"@.len() == 11);
            assert("direction"@.len() == 9 && "category"@.len() == 8);
            assert("direction"@.len() == 9 && "extensions"@.len() == 10);
            assert("direction"@.len() == 9 && "semanticId"@.len() == 10);
            assert("direction"@.len() == 9 && "supplementalSemanticIds"@.len() == 23);
            assert("direction"@.len() == 9 && "qualifiers"@.len() == 10);
            assert("direction"@.len() == 9 && "embeddedDataSpecifications"@.len() == 26);
            assert("direction"@.len() == 9 && "state"@.len() == 5);
            assert("direction"@.len() == 9 && "messageTopic"@.len() == 12);
            assert("direction"@.len() == 9 && "messageBroker"@.len() == 13);
            assert("direction"@.len() == 9 && "lastUpdate"@.len() == 10);
            assert("direction"@.len() == 9 && "minInterval"@.len() == 11);
            assert("direction"@.len() == 9 && "maxInterval"@.len() == 11);
            assert("state"@.len() == 5 && "modelType"@.len() == 9);
            assert("state"@.len() == 5 && "idShort"@.len() == 7);
            assert("state"@.len() == 5 && "displayName"@.len() == 11);
            assert("state"@.len() == 5 && "description"@.len() == 11);
            assert("state"@.len() == 5 && "category"@.len() == 8);
            assert("state"@.len() == 5 && "extensions"@.len() == 10);
            assert("state"@.len() == 5 && "semanticId"@.len() == 10);
            assert("state"@.len() == 5 && "supplementalSemanticIds"@.len() == 23);
            assert("state"@.len() == 5 && "qualifiers"@.len() == 10);
            assert("state"@.len() == 5 && "embeddedDataSpecifications"@.len() == 26);
            assert("state"@.len() == 5 && "direction"@.len() == 9);
            assert("state"@.len() == 5 && "messageTopic"@.len() == 12);
            assert("state"@.len() == 5 && "messageBroker"@.len() == 13);
            assert("state"@.len() == 5 && "lastUpdate"@.len() == 10);
            assert("state"@.len() == 5 && "minInterval"@.len() == 11);
            assert("state"@.len() == 5 && "maxInterval"@.len() == 11);
            assert("messageTopic"@.len() == 12 && "modelType"@.len() == 9);
            assert("messageTopic"@.len() == 12 && "idShort"@.len() == 7);
            assert("messageTopic"@.len() == 12 && "displayName"@.len() == 11);
            assert("messageTopic"@.len() == 12 && "description"@.len() == 11);
            assert("messageTopic"@.len() == 12 && "category"@.len() == 8);
            assert("messageTopic"@.len() == 12 && "extensions"@.len() == 10);
            assert("messageTopic"@.len() == 12 && "semanticId"@.len() == 10);
            assert("messageTopic"@.len() == 12 && "supplementalSemanticIds"@.len() == 23);
            assert("messageTopic"@.len() == 12 && "qualifiers"@.len() == 10);
            assert("messageTopic"@.len() == 12 && "embeddedDataSpecifications"@.len() == 26);
            assert("messageTopic"@.len() == 12 && "direction"@.len() == 9);
            assert("messageTopic"@.len() == 12 && "state"@.len() == 5);
            assert("messageTopic"@.len() == 12 && "messageBroker"@.len() == 13);
            assert("messageTopic"@.len() == 12 && "lastUpdate"@.len() == 10);
            assert("messageTopic"@.len() == 12 && "minInterval"@.len() == 11);
            assert("messageTopic"@.len() == 12 && "maxInterval"@.len() == 11);
            assert("messageBroker"@.len() == 13 && "modelType"@.len() == 9);
            assert("messageBroker"@.len() == 13 && "idShort"@.len() == 7);
            assert("messageBroker"@.len() == 13 && "displayName"@.len() == 11);
            assert("messageBroker"@.len() == 13 && "description"@.len() == 11);
            assert("messageBroker"@.len() == 13 && "category"@.len() == 8);
            assert("messageBroker"@.len() == 13 && "extensions"@.len() == 10);
            assert("messageBroker"@.len() == 13 && "semanticId"@.len() == 10);
            assert("messageBroker"@.len() == 13 && "supplementalSemanticIds"@.len() == 23);
            assert("messageBroker"@.len() == 13 && "qualifiers"@.len() == 10);
            assert("messageBroker"@.len() == 13 && "embeddedDataSpecifications"@.len() == 26);
            assert("messageBroker"@.len() == 13 && "direction"@.len() == 9);
            assert("messageBroker"@.len() == 13 && "state"@.len() == 5);
            assert("messageBroker"@.len() == 13 && "messageTopic"@.len() == 12);
            assert("messageBroker"@.len() == 13 && "lastUpdate"@.len() == 10);
            assert("messageBroker"@.len() == 13 && "minInterval"@.len() == 11);
            assert("messageBroker"@.len() == 13 && "maxInterval"@.len() == 11);
            assert("lastUpdate"@.len() == 10 && "modelType"@.len() == 9);
            assert("lastUpdate"@.len() == 10 && "idShort"@.len() == 7);
            assert("lastUpdate"@.len() == 10 && "displayName"@.len() == 11);
            assert("lastUpdate"@.len() == 10 && "description"@.len() == 11);
            assert("lastUpdate"@.len() == 10 && "category"@.len() == 8);
            assert("lastUpdate"@[0] != "extensions"@[0]);
            assert("lastUpdate"@[0] != "semanticId"@[0]);
            assert("lastUpdate"@.len() == 10 && "supplementalSemanticIds"@.len() == 23);
            assert("lastUpdate"@[0] != "qualifiers"@[0]);
            assert("lastUpdate"@.len() == 10 && "embeddedDataSpecifications"@.len() == 26);
            assert("lastUpdate"@.len() == 10 && "direction"@.len() == 9);
            assert("lastUpdate"@.len() == 10 && "state"@.len() == 5);
            assert("lastUpdate"@.len() == 10 && "messageTopic"@.len() == 12);
            assert("lastUpdate"@.len() == 10 && "messageBroker"@.len() == 13);
            assert("lastUpdate"@.len() == 10 && "minInterval"@.len() == 11);
            assert("lastUpdate"@.len() == 10 && "maxInterval"@.len() == 11);
            assert("minInterval"@.len() == 11 && "modelType"@.len() == 9);
            assert("minInterval"@.len() == 11 && "idShort"@.len() == 7);
            assert("minInterval"@[0] != "displayName"@[0]);
            assert("minInterval"@[0] != "description"@[0]);
            assert("minInterval"@.len() == 11 && "category"@.len() == 8);
            assert("minInterval"@.len() == 11 && "extensions"@.len() == 10);
            assert("minInterval"@.len() == 11 && "semanticId"@.len() == 10);
            assert("minInterval"@.len() == 11 && "supplementalSemanticIds"@.len() == 23);
            assert("minInterval"@.len() == 11 && "qualifiers"@.len() == 10);
            assert("minInterval"@.len() == 11 && "embeddedDataSpecifications"@.len() == 26);
            assert("minInterval"@.len() == 11 && "direction"@.len() == 9);
            assert("minInterval"@.len() == 11 && "state"@.len() == 5);
            assert("minInterval"@.len() == 11 && "messageTopic"@.len() == 12);
            assert("minInterval"@.len() == 11 && "messageBroker"@.len() == 13);
            assert("minInterval"@.len() == 11 && "lastUpdate"@.len() == 10);
            assert("minInterval"@[1] != "maxInterval"@[1]);
            assert("maxInterval"@.len() == 11 && "modelType"@.len() == 9);
            assert("maxInterval"@.len() == 11 && "idShort"@.len() == 7);
            assert("maxInterval"@[0] != "displayName"@[0]);
            assert("maxInterval"@[0] != "description"@[0]);
            assert("maxInterval"@.len() == 11 && "category"@.len() == 8);
            assert("maxInterval"@.len() == 11 && "extensions"@.len() == 10);
            assert("maxInterval"@.len() == 11 && "semanticId"@.len() == 10);
            assert("maxInterval"@.len() == 11 && "supplementalSemanticIds"@.len() == 23);
            assert("maxInterval"@.len() == 11 && "qualifiers"@.len() == 10);
            assert("maxInterval"@.len() == 11 && "embeddedDataSpecifications"@.len() == 26);
            assert("maxInterval"@.len() == 11 && "direction"@.len() == 9);
            assert("maxInterval"@.len() == 11 && "state"@.len() == 5);
            assert("maxInterval"@.len() == 11 && "messageTopic"@.len() == 12);
            assert("maxInterval"@.len() == 11 && "messageBroker"@.len() == 13);
            assert("maxInterval"@.len() == 11 && "lastUpdate"@.len() == 10);
            assert("maxInterval"@[1] != "minInterval"@[1]);
        }
        let mut fs: Vec<(String, Json)> = Vec::new();
        let ghost prev = fs@;
        let mut part = self.meta_step0();
        let ghost sp = part@;
        fs.append(&mut part);
        proof {
            lemma_names_within_empty(prev, |n: Seq<char>| basic_event_element_meta_chunk0_name(n));
            lemma_names_within_concat(prev, sp, |n: Seq<char>| basic_event_element_meta_chunk0_name(n), |n: Seq<char>| basic_event_element_meta_chunk0_name(n), |n: Seq<char>| basic_event_element_meta_chunk0_name(n));
            lemma_lookup_concat(prev, sp, "modelType"@);
            assert(prev.len() == 0);
            lemma_lookup_concat(prev, sp, "idShort"@);
            assert(prev.len() == 0);
            lemma_lookup_concat(prev, sp, "displayName"@);
            assert(prev.len() == 0);
            lemma_lookup_concat(prev, sp, "description"@);
            assert(prev.len() == 0);
            lemma_lookup_concat(prev, sp, "category"@);
            assert(prev.len() == 0);
            lemma_lookup_concat(prev, sp, "extensions"@);
            assert(prev.len() == 0);
            lemma_lookup_concat(prev, sp, "semanticId"@);
            assert(prev.len() == 0);
            lemma_lookup_concat(prev, sp, "supplementalSemanticIds"@);
            assert(prev.len() == 0);
            lemma_lookup_concat(prev, sp, "qualifiers"@);
            assert(prev.len() == 0);
            lemma_lookup_concat(prev, sp, "embeddedDataSpecifications"@);
            assert(prev.len() == 0);
            lemma_lookup_concat(prev, sp, "direction"@);
            assert(prev.len() == 0);
            lemma_lookup_concat(prev, sp, "state"@);
            assert(prev.len() == 0);
            lemma_lookup_concat(prev, sp, "messageTopic"@);
            assert(prev.len() == 0);
            lemma_lookup_concat(prev, sp, "messageBroker"@);
            assert(prev.len() == 0);
        }
        let ghost prev = fs@;
        let mut part = self.meta_step1();
        let ghost sp = part@;
        fs.append(&mut part);
        proof {
            lemma_names_within_concat(prev, sp, |n: Seq<char>| basic_event_element_meta_chunk0_name(n), |n: Seq<char>| basic_event_element_meta_chunk1_name(n), |n: Seq<char>| basic_event_element_meta_name(n));
            lemma_lookup_concat(prev, sp, "modelType"@);
            lemma_lookup_outside(sp, |n: Seq<char>| basic_event_element_meta_chunk1_name(n), "modelType"@);
            lemma_lookup_concat(prev, sp, "idShort"@);
            lemma_lookup_outside(sp, |n: Seq<char>| basic_event_element_meta_chunk1_name(n), "idShort"@);
            lemma_lookup_concat(prev, sp, "displayName"@);
            lemma_lookup_outside(sp, |n: Seq<char>| basic_event_element_meta_chunk1_name(n), "displayName"@);
            lemma_lookup_concat(prev, sp, "description"@);
            lemma_lookup_outside(sp, |n: Seq<char>| basic_event_element_meta_chunk1_name(n), "description"@);
            lemma_lookup_concat(prev, sp, "category"@);
            lemma_lookup_outside(sp, |n: Seq<char>| basic_event_element_meta_chunk1_name(n), "category"@);
            lemma_lookup_concat(prev, sp, "extensions"@);
            lemma_lookup_outside(sp, |n: Seq<char>| basic_event_element_meta_chunk1_name(n), "extensions"@);
            lemma_lookup_concat(prev, sp, "semanticId"@);
            lemma_lookup_outside(sp, |n: Seq<char>| basic_event_element_meta_chunk1_name(n), "semanticId"@);
            lemma_lookup_concat(prev, sp, "supplementalSemanticIds"@);
            lemma_lookup_outside(sp, |n: Seq<char>| basic_event_element_meta_chunk1_name(n), "supplementalSemanticIds"@);
            lemma_lookup_concat(prev, sp, "qualifiers"@);
            lemma_lookup_outside(sp, |n: Seq<char>| basic_event_element_meta_chunk1_name(n), "qualifiers"@);
            lemma_lookup_concat(prev, sp, "embeddedDataSpecifications"@);
            lemma_lookup_outside(sp, |n: Seq<char>| basic_event_element_meta_chunk1_name(n), "embeddedDataSpecifications"@);
            lemma_lookup_concat(prev, sp, "direction"@);
            lemma_lookup_outside(sp, |n: Seq<char>| basic_event_element_meta_chunk1_name(n), "direction"@);
            lemma_lookup_concat(prev, sp, "state"@);
            lemma_lookup_outside(sp, |n: Seq<char>| basic_event_element_meta_chunk1_name(n), "state"@);
            lemma_lookup_concat(prev, sp, "messageTopic"@);
            lemma_lookup_outside(sp, |n: Seq<char>| basic_event_element_meta_chunk1_name(n), "messageTopic"@);
            lemma_lookup_concat(prev, sp, "messageBroker"@);
            lemma_lookup_outside(sp, |n: Seq<char>| basic_event_element_meta_chunk1_name(n), "messageBroker"@);
            lemma_lookup_concat(prev, sp, "lastUpdate"@);
            lemma_lookup_outside(prev, |n: Seq<char>| basic_event_element_meta_chunk0_name(n), "lastUpdate"@);
            lemma_lookup_concat(prev, sp, "minInterval"@);
            lemma_lookup_outside(prev, |n: Seq<char>| basic_event_element_meta_chunk0_name(n), "minInterval"@);
            lemma_lookup_concat(prev, sp, "maxInterval"@);
            lemma_lookup_outside(prev, |n: Seq<char>| basic_event_element_meta_chunk0_name(n), "maxInterval"@);
        }
        fs
    }
}
impl Default for Blob {
    /// No attributes and no value.
    fn default() -> (r: Blob)
        ensures
            mixins_empty(r.referable, r.semantics, r.qualifiable, r.embedded_data_specifications),
            r.value is None,
            r.content_type@.len() == 0,
    {
        Blob {
            referable: Referable::default(),
            semantics: HasSemantics::default(),
            qualifiable: Qualifiable::default(),
            embedded_data_specifications: HasDataSpecification::default(),
            value: None,
            content_type: String::new(),
        }
    }
}

impl Default for File {
    /// No attributes and no value.
    fn default() -> (r: File)
        ensures
            mixins_empty(r.referable, r.semantics, r.qualifiable, r.embedded_data_specifications),
            r.value is None,
            r.content_type is None,
    {
        File {
            referable: Referable::default(),
            semantics: HasSemantics::default(),
            qualifiable: Qualifiable::default(),
            embedded_data_specifications: HasDataSpecification::default(),
            value: None,
            content_type: None,
        }
    }
}

impl Default for MultiLanguageProperty {
    /// No attributes and no value.
    fn default() -> (r: MultiLanguageProperty)
        ensures
            mixins_empty(r.referable, r.semantics, r.qualifiable, r.embedded_data_specifications),
            r.value is None,
            r.value_id is None,
    {
        MultiLanguageProperty {
            referable: Referable::default(),
            semantics: HasSemantics::default(),
            qualifiable: Qualifiable::default(),
            embedded_data_specifications: HasDataSpecification::default(),
            value: None,
            value_id: None,
        }
    }
}

impl Default for Capability {
    /// No attributes and no value.
    fn default() -> (r: Capability)
        ensures
            mixins_empty(r.referable, r.semantics, r.qualifiable, r.embedded_data_specifications),
    {
        Capability {
            referable: Referable::default(),
            semantics: HasSemantics::default(),
            qualifiable: Qualifiable::default(),
            embedded_data_specifications: HasDataSpecification::default(),
        }
    }
}

/// The attribute groups hold nothing: every optional attribute is absent.
pub open spec fn mixins_empty(r: Referable, s: HasSemantics, q: Qualifiable, d: HasDataSpecification) -> bool {
    &&& r.id_short is None
    &&& r.display_name is None
    &&& r.description is None
    &&& r.category is None
    &&& r.extensions.extension is None
    &&& s.semantic_id is None
    &&& s.supplemental_semantic_ids is None
    &&& q.qualifiers is None
    &&& d.embedded_data_specifications is None
}

impl Blob {
    /// A blob of the content type `content_type`, without attributes or value.
    pub fn new(content_type: String) -> (r: Blob)
        ensures
            mixins_empty(r.referable, r.semantics, r.qualifiable, r.embedded_data_specifications),
            r.value is None,
            r.content_type == content_type,
    {
        Blob {
            referable: Referable::default(),
            semantics: HasSemantics::default(),
            qualifiable: Qualifiable::default(),
            embedded_data_specifications: HasDataSpecification::default(),
            value: None,
            content_type,
        }
    }
}

impl Capability {
    /// A capability without attributes.
    pub fn new() -> (r: Capability)
        ensures
            mixins_empty(r.referable, r.semantics, r.qualifiable, r.embedded_data_specifications),
    {
        Capability {
            referable: Referable::default(),
            semantics: HasSemantics::default(),
            qualifiable: Qualifiable::default(),
            embedded_data_specifications: HasDataSpecification::default(),
        }
    }
}

} // verus!
