use vstd::prelude::*;
use crate::json::{
    Json,
    DecodeError,
    lookup,
    member,
    get_member,
    field,
    lemma_lookup_first,
    lemma_lookup_skip,
};
use crate::codec::{
    lemma_names_within_weaken,
    lemma_names_within_empty,
    lemma_names_within_concat,
    lemma_lookup_outside,
    JsonCodec,
    names_within,
    opt_encoded,
    opt_rel,
    opt_error,
    opt_wf,
    opt_equiv,
    req_encoded,
    req_rel,
    req_error,
    push_opt,
    push_req,
    decode_opt,
    decode_req,
    lemma_opt_round_trip,
    lemma_req_round_trip,
    lemma_opt_unique,
    lemma_req_unique,
    lemma_lookup_push,
    lemma_names_within_push,
};

use crate::json::lemma_lookup_concat;
use crate::data_xsd::{
    DataXsd,
    xsd_member_name,
    xsd_decode_error,
    lemma_encoded_fields_lookups,
    lemma_encoded_lookups_rel,
    lemma_rel_fields_unique,
};
use crate::reference::Reference;
use crate::lang_string::LangString;
use crate::id_short::IDShort;
use crate::text::str_eq;

verus! {

broadcast use vstd::string::group_string_axioms;

/// The semantic id of an element and its supplemental semantic ids.
#[derive(Clone, Debug, PartialEq)]
pub struct HasSemantics {
    pub semantic_id: Option<Reference>,
    pub supplemental_semantic_ids: Option<Vec<Reference>>,
}

/// A name of the members of `HasSemantics`.
pub open spec fn has_semantics_name(n: Seq<char>) -> bool {
    n == "semanticId"@ || n == "supplementalSemanticIds"@
}

/// Looking up the members of `HasSemantics` in `fs` finds what encoding writes for `x`.
pub open spec fn has_semantics_lookups(x: HasSemantics, fs: Seq<(String, Json)>) -> bool {
    &&& opt_encoded(x.semantic_id, lookup(fs, "semanticId"@))
    &&& opt_encoded(x.supplemental_semantic_ids, lookup(fs, "supplementalSemanticIds"@))
}

/// `fs` are the members that encoding writes for `x`.
pub open spec fn has_semantics_encoded(x: HasSemantics, fs: Seq<(String, Json)>) -> bool {
    &&& names_within(fs, |n: Seq<char>| has_semantics_name(n))
    &&& has_semantics_lookups(x, fs)
}

/// The members of `fs` decode to `x`.
pub open spec fn has_semantics_rel(x: HasSemantics, fs: Seq<(String, Json)>) -> bool {
    &&& opt_rel(x.semantic_id, member(fs, "semanticId"@))
    &&& opt_rel(x.supplemental_semantic_ids, member(fs, "supplementalSemanticIds"@))
}

/// The error, if any, of decoding the members of `HasSemantics` from `fs`.
pub open spec fn has_semantics_error(fs: Seq<(String, Json)>) -> Option<DecodeError> {
    match opt_error::<Reference>(member(fs, "semanticId"@)) {
        Some(e) => Some(e),
        None => {
            match opt_error::<Vec<Reference>>(member(fs, "supplementalSemanticIds"@)) {
                Some(e) => Some(e),
                None => {
                    None
                },
            }
        },
    }
}

/// The values of `x` are well-formed.
pub open spec fn has_semantics_wf(x: HasSemantics) -> bool {
    &&& opt_wf(x.semantic_id)
    &&& opt_wf(x.supplemental_semantic_ids)
}

/// `x` and `y` hold the same content.
pub open spec fn has_semantics_equiv(x: HasSemantics, y: HasSemantics) -> bool {
    &&& opt_equiv(x.semantic_id, y.semantic_id)
    &&& opt_equiv(x.supplemental_semantic_ids, y.supplemental_semantic_ids)
}

impl HasSemantics {
    /// Writes the members of the value, absent ones left out.
    pub fn encode_members(&self) -> (r: Vec<(String, Json)>)
        ensures
            has_semantics_encoded(*self, r@),
    {
        proof {
            reveal_strlit("semanticId");
            reveal_strlit("supplementalSemanticIds");
            assert("semanticId"@.len() == 10 && "supplementalSemanticIds"@.len() == 23);
            assert("supplementalSemanticIds"@.len() == 23 && "semanticId"@.len() == 10);
        }
        let mut fs: Vec<(String, Json)> = Vec::new();
        let ghost prev = fs@;
        push_opt(&mut fs, "semanticId", &self.semantic_id);
        proof {
            if self.semantic_id is Some {
                assert(fs@ == prev.push(fs@.last()));
                lemma_names_within_push(prev, fs@.last(), |n: Seq<char>| has_semantics_name(n));
                lemma_lookup_push(prev, fs@.last(), "semanticId"@);
                lemma_lookup_push(prev, fs@.last(), "supplementalSemanticIds"@);
            }
        }
        let ghost prev = fs@;
        push_opt(&mut fs, "supplementalSemanticIds", &self.supplemental_semantic_ids);
        proof {
            if self.supplemental_semantic_ids is Some {
                assert(fs@ == prev.push(fs@.last()));
                lemma_names_within_push(prev, fs@.last(), |n: Seq<char>| has_semantics_name(n));
                lemma_lookup_push(prev, fs@.last(), "semanticId"@);
                lemma_lookup_push(prev, fs@.last(), "supplementalSemanticIds"@);
            }
        }
        fs
    }

    /// Reads the members of the value from `fs`.
    pub fn decode_members(fs: &Vec<(String, Json)>) -> (r: Result<HasSemantics, DecodeError>)
        ensures
            match has_semantics_error(fs@) {
                Some(e) => r == Err::<HasSemantics, DecodeError>(e),
                None => r matches Ok(x) && has_semantics_rel(x, fs@),
            },
    {
        let semantic_id = match decode_opt::<Reference>(fs, "semanticId") {
            Ok(v) => v,
            Err(e) => return Err(e),
        };
        let supplemental_semantic_ids = match decode_opt::<Vec<Reference>>(fs, "supplementalSemanticIds") {
            Ok(v) => v,
            Err(e) => return Err(e),
        };
        Ok(HasSemantics { semantic_id, supplemental_semantic_ids })
    }
}

/// Members found as encoding writes them decode to a value, whatever
/// other members stand beside them.
pub proof fn lemma_has_semantics_round_trip(x: HasSemantics, fs: Seq<(String, Json)>)
    requires
        has_semantics_wf(x),
        has_semantics_lookups(x, fs),
    ensures
        has_semantics_error(fs) is None,
        has_semantics_rel(x, fs),
{
    lemma_opt_round_trip(x.semantic_id, lookup(fs, "semanticId"@));
    lemma_opt_round_trip(x.supplemental_semantic_ids, lookup(fs, "supplementalSemanticIds"@));
}

/// The values that the same members decode to hold the same content.
pub proof fn lemma_has_semantics_unique(x: HasSemantics, y: HasSemantics, fs: Seq<(String, Json)>)
    requires
        has_semantics_rel(x, fs),
        has_semantics_rel(y, fs),
    ensures
        has_semantics_equiv(x, y),
{
    lemma_opt_unique(x.semantic_id, y.semantic_id, member(fs, "semanticId"@));
    lemma_opt_unique(x.supplemental_semantic_ids, y.supplemental_semantic_ids, member(fs, "supplementalSemanticIds"@));
}

/// A user-defined name and value attached to an element. Names are to be unique among the extensions of one element.
#[derive(Clone, Debug, PartialEq)]
pub struct Extension {
    pub name: String,
    /// The semantic definition of the extension.
    pub semantic_id: Option<Reference>,
    pub supplemental_semantic_ids: Option<Vec<Reference>>,
    pub value: DataXsd,
    pub refers_to: Option<Vec<Reference>>,
}

/// A name of the members of `Extension`.
pub open spec fn extension_name(n: Seq<char>) -> bool {
    n == "name"@ || n == "semanticId"@ || n == "supplementalSemanticIds"@ || xsd_member_name(n) || n == "refersTo"@
}

/// Looking up the members of `Extension` in `fs` finds what encoding writes for `x`.
pub open spec fn extension_lookups(x: Extension, fs: Seq<(String, Json)>) -> bool {
    &&& req_encoded(x.name, lookup(fs, "name"@))
    &&& opt_encoded(x.semantic_id, lookup(fs, "semanticId"@))
    &&& opt_encoded(x.supplemental_semantic_ids, lookup(fs, "supplementalSemanticIds"@))
    &&& x.value.encoded_lookups(fs)
    &&& opt_encoded(x.refers_to, lookup(fs, "refersTo"@))
}

/// `fs` are the members that encoding writes for `x`.
pub open spec fn extension_encoded(x: Extension, fs: Seq<(String, Json)>) -> bool {
    &&& names_within(fs, |n: Seq<char>| extension_name(n))
    &&& extension_lookups(x, fs)
}

/// The members of `fs` decode to `x`.
pub open spec fn extension_rel(x: Extension, fs: Seq<(String, Json)>) -> bool {
    &&& req_rel(x.name, member(fs, "name"@))
    &&& opt_rel(x.semantic_id, member(fs, "semanticId"@))
    &&& opt_rel(x.supplemental_semantic_ids, member(fs, "supplementalSemanticIds"@))
    &&& x.value.rel_fields(fs)
    &&& opt_rel(x.refers_to, member(fs, "refersTo"@))
}

/// The error, if any, of decoding the members of `Extension` from `fs`.
pub open spec fn extension_error(fs: Seq<(String, Json)>) -> Option<DecodeError> {
    match req_error::<String>(member(fs, "name"@)) {
        Some(e) => Some(e),
        None => {
            match opt_error::<Reference>(member(fs, "semanticId"@)) {
                Some(e) => Some(e),
                None => {
                    match opt_error::<Vec<Reference>>(member(fs, "supplementalSemanticIds"@)) {
                        Some(e) => Some(e),
                        None => {
                            match xsd_decode_error(fs) {
                                Some(e) => Some(e),
                                None => {
                                    match opt_error::<Vec<Reference>>(member(fs, "refersTo"@)) {
                                        Some(e) => Some(e),
                                        None => {
                                            None
                                        },
                                    }
                                },
                            }
                        },
                    }
                },
            }
        },
    }
}

/// The values of `x` are well-formed.
pub open spec fn extension_wf(x: Extension) -> bool {
    &&& x.name.wf()
    &&& opt_wf(x.semantic_id)
    &&& opt_wf(x.supplemental_semantic_ids)
    &&& x.value.wf()
    &&& opt_wf(x.refers_to)
}

/// `x` and `y` hold the same content.
pub open spec fn extension_equiv(x: Extension, y: Extension) -> bool {
    &&& x.name.equiv(&y.name)
    &&& opt_equiv(x.semantic_id, y.semantic_id)
    &&& opt_equiv(x.supplemental_semantic_ids, y.supplemental_semantic_ids)
    &&& x.value.equiv(y.value)
    &&& opt_equiv(x.refers_to, y.refers_to)
}

impl Extension {
    /// Writes the members of the value, absent ones left out.
    #[verifier::rlimit(100)]
    #[verifier::spinoff_prover]
    pub fn encode_members(&self) -> (r: Vec<(String, Json)>)
        ensures
            extension_encoded(*self, r@),
    {
        proof {
            reveal_strlit("name");
            reveal_strlit("semanticId");
            reveal_strlit("supplementalSemanticIds");
            reveal_strlit("valueType");
            reveal_strlit("value");
            reveal_strlit("refersTo");
            assert("name"@.len() == 4 && "semanticId"@.len() == 10);
            assert("name"@.len() == 4 && "supplementalSemanticIds"@.len() == 23);
            assert("name"@.len() == 4 && "valueType"@.len() == 9);
            assert("name"@.len() == 4 && "value"@.len() == 5);
            assert("name"@.len() == 4 && "refersTo"@.len() == 8);
            assert("semanticId"@.len() == 10 && "name"@.len() == 4);
            assert("semanticId"@.len() == 10 && "supplementalSemanticIds"@.len() == 23);
            assert("semanticId"@.len() == 10 && "valueType"@.len() == 9);
            assert("semanticId"@.len() == 10 && "value"@.len() == 5);
            assert("semanticId"@.len() == 10 && "refersTo"@.len() == 8);
            assert("supplementalSemanticIds"@.len() == 23 && "name"@.len() == 4);
            assert("supplementalSemanticIds"@.len() == 23 && "semanticId"@.len() == 10);
            assert("supplementalSemanticIds"@.len() == 23 && "valueType"@.len() == 9);
            assert("supplementalSemanticIds"@.len() == 23 && "value"@.len() == 5);
            assert("supplementalSemanticIds"@.len() == 23 && "refersTo"@.len() == 8);
            assert("valueType"@.len() == 9 && "name"@.len() == 4);
            assert("valueType"@.len() == 9 && "semanticId"@.len() == 10);
            assert("valueType"@.len() == 9 && "supplementalSemanticIds"@.len() == 23);
            assert("valueType"@.len() == 9 && "value"@.len() == 5);
            assert("valueType"@.len() == 9 && "refersTo"@.len() == 8);
            assert("value"@.len() == 5 && "name"@.len() == 4);
            assert("value"@.len() == 5 && "semanticId"@.len() == 10);
            assert("value"@.len() == 5 && "supplementalSemanticIds"@.len() == 23);
            assert("value"@.len() == 5 && "valueType"@.len() == 9);
            assert("value"@.len() == 5 && "refersTo"@.len() == 8);
            assert("refersTo"@.len() == 8 && "name"@.len() == 4);
            assert("refersTo"@.len() == 8 && "semanticId"@.len() == 10);
            assert("refersTo"@.len() == 8 && "supplementalSemanticIds"@.len() == 23);
            assert("refersTo"@.len() == 8 && "valueType"@.len() == 9);
            assert("refersTo"@.len() == 8 && "value"@.len() == 5);
        }
        let mut fs: Vec<(String, Json)> = Vec::new();
        let ghost prev = fs@;
        push_req(&mut fs, "name", &self.name);
        proof {
            lemma_names_within_empty(prev, |n: Seq<char>| n == "name"@);
            if true {
                assert(fs@ == prev.push(fs@.last()));
                lemma_names_within_push(prev, fs@.last(), |n: Seq<char>| n == "name"@);
                lemma_lookup_push(prev, fs@.last(), "name"@);
            }
        }
        let ghost prev = fs@;
        push_opt(&mut fs, "semanticId", &self.semantic_id);
        proof {
            lemma_names_within_weaken(prev, |n: Seq<char>| n == "name"@, |n: Seq<char>| n == "name"@ || n == "semanticId"@);
            lemma_lookup_outside(prev, |n: Seq<char>| n == "name"@, "semanticId"@);
            if self.semantic_id is Some {
                assert(fs@ == prev.push(fs@.last()));
                lemma_names_within_push(prev, fs@.last(), |n: Seq<char>| n == "name"@ || n == "semanticId"@);
                lemma_lookup_push(prev, fs@.last(), "name"@);
                lemma_lookup_push(prev, fs@.last(), "semanticId"@);
            }
        }
        let ghost prev = fs@;
        push_opt(&mut fs, "supplementalSemanticIds", &self.supplemental_semantic_ids);
        proof {
            lemma_names_within_weaken(prev, |n: Seq<char>| n == "name"@ || n == "semanticId"@, |n: Seq<char>| n == "name"@ || n == "semanticId"@ || n == "supplementalSemanticIds"@);
            lemma_lookup_outside(prev, |n: Seq<char>| n == "name"@ || n == "semanticId"@, "supplementalSemanticIds"@);
            if self.supplemental_semantic_ids is Some {
                assert(fs@ == prev.push(fs@.last()));
                lemma_names_within_push(prev, fs@.last(), |n: Seq<char>| n == "name"@ || n == "semanticId"@ || n == "supplementalSemanticIds"@);
                lemma_lookup_push(prev, fs@.last(), "name"@);
                lemma_lookup_push(prev, fs@.last(), "semanticId"@);
                lemma_lookup_push(prev, fs@.last(), "supplementalSemanticIds"@);
            }
        }
        let ghost prev = fs@;
        let mut part = self.value.encode_fields();
        proof {
            lemma_encoded_fields_lookups(self.value, part@);
        }
        let ghost sp = part@;
        fs.append(&mut part);
        proof {
            lemma_names_within_concat(prev, sp, |n: Seq<char>| n == "name"@ || n == "semanticId"@ || n == "supplementalSemanticIds"@, |n: Seq<char>| xsd_member_name(n), |n: Seq<char>| n == "name"@ || n == "semanticId"@ || n == "supplementalSemanticIds"@ || xsd_member_name(n));
            lemma_lookup_concat(prev, sp, "name"@);
            lemma_lookup_outside(sp, |n: Seq<char>| xsd_member_name(n), "name"@);
            lemma_lookup_concat(prev, sp, "semanticId"@);
            lemma_lookup_outside(sp, |n: Seq<char>| xsd_member_name(n), "semanticId"@);
            lemma_lookup_concat(prev, sp, "supplementalSemanticIds"@);
            lemma_lookup_outside(sp, |n: Seq<char>| xsd_member_name(n), "supplementalSemanticIds"@);
            lemma_lookup_concat(prev, sp, "valueType"@);
            lemma_lookup_outside(prev, |n: Seq<char>| n == "name"@ || n == "semanticId"@ || n == "supplementalSemanticIds"@, "valueType"@);
            lemma_lookup_concat(prev, sp, "value"@);
            lemma_lookup_outside(prev, |n: Seq<char>| n == "name"@ || n == "semanticId"@ || n == "supplementalSemanticIds"@, "value"@);
        }
        let ghost prev = fs@;
        push_opt(&mut fs, "refersTo", &self.refers_to);
        proof {
            lemma_names_within_weaken(prev, |n: Seq<char>| n == "name"@ || n == "semanticId"@ || n == "supplementalSemanticIds"@ || xsd_member_name(n), |n: Seq<char>| extension_name(n));
            lemma_lookup_outside(prev, |n: Seq<char>| n == "name"@ || n == "semanticId"@ || n == "supplementalSemanticIds"@ || xsd_member_name(n), "refersTo"@);
            if self.refers_to is Some {
                assert(fs@ == prev.push(fs@.last()));
                lemma_names_within_push(prev, fs@.last(), |n: Seq<char>| extension_name(n));
                lemma_lookup_push(prev, fs@.last(), "name"@);
                lemma_lookup_push(prev, fs@.last(), "semanticId"@);
                lemma_lookup_push(prev, fs@.last(), "supplementalSemanticIds"@);
                lemma_lookup_push(prev, fs@.last(), "valueType"@);
                lemma_lookup_push(prev, fs@.last(), "value"@);
                lemma_lookup_push(prev, fs@.last(), "refersTo"@);
            }
        }
        fs
    }

    /// Reads the members of the value from `fs`.
    pub fn decode_members(fs: &Vec<(String, Json)>) -> (r: Result<Extension, DecodeError>)
        ensures
            match extension_error(fs@) {
                Some(e) => r == Err::<Extension, DecodeError>(e),
                None => r matches Ok(x) && extension_rel(x, fs@),
            },
    {
        let name = match decode_req::<String>(fs, "name") {
            Ok(v) => v,
            Err(e) => return Err(e),
        };
        let semantic_id = match decode_opt::<Reference>(fs, "semanticId") {
            Ok(v) => v,
            Err(e) => return Err(e),
        };
        let supplemental_semantic_ids = match decode_opt::<Vec<Reference>>(fs, "supplementalSemanticIds") {
            Ok(v) => v,
            Err(e) => return Err(e),
        };
        let value = match DataXsd::decode_fields(fs) {
            Ok(v) => v,
            Err(e) => return Err(e),
        };
        let refers_to = match decode_opt::<Vec<Reference>>(fs, "refersTo") {
            Ok(v) => v,
            Err(e) => return Err(e),
        };
        Ok(Extension { name, semantic_id, supplemental_semantic_ids, value, refers_to })
    }
}

/// Members found as encoding writes them decode to a value, whatever
/// other members stand beside them.
pub proof fn lemma_extension_round_trip(x: Extension, fs: Seq<(String, Json)>)
    requires
        extension_wf(x),
        extension_lookups(x, fs),
    ensures
        extension_error(fs) is None,
        extension_rel(x, fs),
{
    lemma_req_round_trip(x.name, lookup(fs, "name"@));
    lemma_opt_round_trip(x.semantic_id, lookup(fs, "semanticId"@));
    lemma_opt_round_trip(x.supplemental_semantic_ids, lookup(fs, "supplementalSemanticIds"@));
    lemma_encoded_lookups_rel(x.value, fs);
    lemma_opt_round_trip(x.refers_to, lookup(fs, "refersTo"@));
}

/// The values that the same members decode to hold the same content.
pub proof fn lemma_extension_unique(x: Extension, y: Extension, fs: Seq<(String, Json)>)
    requires
        extension_rel(x, fs),
        extension_rel(y, fs),
    ensures
        extension_equiv(x, y),
{
    lemma_req_unique(x.name, y.name, member(fs, "name"@));
    lemma_opt_unique(x.semantic_id, y.semantic_id, member(fs, "semanticId"@));
    lemma_opt_unique(x.supplemental_semantic_ids, y.supplemental_semantic_ids, member(fs, "supplementalSemanticIds"@));
    lemma_rel_fields_unique(x.value, y.value, fs);
    lemma_opt_unique(x.refers_to, y.refers_to, member(fs, "refersTo"@));
}

impl JsonCodec for Extension {
    open spec fn wf(&self) -> bool {
        extension_wf(*self)
    }

    open spec fn encoded(&self, j: Json) -> bool {
        j matches Json::Object(fs) && extension_encoded(*self, fs@)
    }

    open spec fn rel(&self, j: Json) -> bool {
        j matches Json::Object(fs) && extension_rel(*self, fs@)
    }

    open spec fn decode_error(j: Json) -> Option<DecodeError> {
        match j {
            Json::Object(fs) => extension_error(fs@),
            _ => Some(DecodeError::UnexpectedKind),
        }
    }

    open spec fn equiv(&self, o: &Self) -> bool {
        extension_equiv(*self, *o)
    }

    fn encode(&self) -> (r: Json) {
        Json::Object(self.encode_members())
    }

    fn decode(j: &Json) -> (r: Result<Self, DecodeError>) {
        match j {
            Json::Object(fs) => Extension::decode_members(fs),
            _ => Err(DecodeError::UnexpectedKind),
        }
    }

    proof fn lemma_round_trip(&self, j: Json) {
        lemma_extension_round_trip(*self, j->Object_0@);
    }

    proof fn lemma_unique(&self, o: &Self, j: Json) {
        lemma_extension_unique(*self, *o, j->Object_0@);
    }
}

impl Extension {
    /// An extension named `name`, with a string value type and no value.
    pub fn new(name: String) -> (r: Extension)
        ensures
            r.name == name,
            r.semantic_id is None,
            r.supplemental_semantic_ids is None,
            r.value == DataXsd::String(None),
            r.refers_to is None,
    {
        Extension {
            name,
            semantic_id: None,
            supplemental_semantic_ids: None,
            value: DataXsd::String(None),
            refers_to: None,
        }
    }
}

/// The extensions of an element. When present, the list is to be non-empty and the names unique.
#[derive(Clone, Debug, PartialEq)]
pub struct HasExtensions {
    pub extension: Option<Vec<Extension>>,
}

/// A name of the members of `HasExtensions`.
pub open spec fn has_extensions_name(n: Seq<char>) -> bool {
    n == "extensions"@
}

/// Looking up the members of `HasExtensions` in `fs` finds what encoding writes for `x`.
pub open spec fn has_extensions_lookups(x: HasExtensions, fs: Seq<(String, Json)>) -> bool {
    &&& opt_encoded(x.extension, lookup(fs, "extensions"@))
}

/// `fs` are the members that encoding writes for `x`.
pub open spec fn has_extensions_encoded(x: HasExtensions, fs: Seq<(String, Json)>) -> bool {
    &&& names_within(fs, |n: Seq<char>| has_extensions_name(n))
    &&& has_extensions_lookups(x, fs)
}

/// The members of `fs` decode to `x`.
pub open spec fn has_extensions_rel(x: HasExtensions, fs: Seq<(String, Json)>) -> bool {
    &&& opt_rel(x.extension, member(fs, "extensions"@))
}

/// The error, if any, of decoding the members of `HasExtensions` from `fs`.
pub open spec fn has_extensions_error(fs: Seq<(String, Json)>) -> Option<DecodeError> {
    match opt_error::<Vec<Extension>>(member(fs, "extensions"@)) {
        Some(e) => Some(e),
        None => {
            None
        },
    }
}

/// The values of `x` are well-formed.
pub open spec fn has_extensions_wf(x: HasExtensions) -> bool {
    &&& opt_wf(x.extension)
}

/// `x` and `y` hold the same content.
pub open spec fn has_extensions_equiv(x: HasExtensions, y: HasExtensions) -> bool {
    &&& opt_equiv(x.extension, y.extension)
}

impl HasExtensions {
    /// Writes the members of the value, absent ones left out.
    pub fn encode_members(&self) -> (r: Vec<(String, Json)>)
        ensures
            has_extensions_encoded(*self, r@),
    {
        proof {
            reveal_strlit("extensions");
        }
        let mut fs: Vec<(String, Json)> = Vec::new();
        let ghost prev = fs@;
        push_opt(&mut fs, "extensions", &self.extension);
        proof {
            if self.extension is Some {
                assert(fs@ == prev.push(fs@.last()));
                lemma_names_within_push(prev, fs@.last(), |n: Seq<char>| has_extensions_name(n));
                lemma_lookup_push(prev, fs@.last(), "extensions"@);
            }
        }
        fs
    }

    /// Reads the members of the value from `fs`.
    pub fn decode_members(fs: &Vec<(String, Json)>) -> (r: Result<HasExtensions, DecodeError>)
        ensures
            match has_extensions_error(fs@) {
                Some(e) => r == Err::<HasExtensions, DecodeError>(e),
                None => r matches Ok(x) && has_extensions_rel(x, fs@),
            },
    {
        let extension = match decode_opt::<Vec<Extension>>(fs, "extensions") {
            Ok(v) => v,
            Err(e) => return Err(e),
        };
        Ok(HasExtensions { extension })
    }
}

/// Members found as encoding writes them decode to a value, whatever
/// other members stand beside them.
pub proof fn lemma_has_extensions_round_trip(x: HasExtensions, fs: Seq<(String, Json)>)
    requires
        has_extensions_wf(x),
        has_extensions_lookups(x, fs),
    ensures
        has_extensions_error(fs) is None,
        has_extensions_rel(x, fs),
{
    lemma_opt_round_trip(x.extension, lookup(fs, "extensions"@));
}

/// The values that the same members decode to hold the same content.
pub proof fn lemma_has_extensions_unique(x: HasExtensions, y: HasExtensions, fs: Seq<(String, Json)>)
    requires
        has_extensions_rel(x, fs),
        has_extensions_rel(y, fs),
    ensures
        has_extensions_equiv(x, y),
{
    lemma_opt_unique(x.extension, y.extension, member(fs, "extensions"@));
}

/// The naming of an element: short id, display name, description, category and extensions.
#[derive(Clone, Debug, PartialEq)]
pub struct Referable {
    pub id_short: Option<IDShort>,
    pub display_name: Option<Vec<LangString>>,
    pub description: Option<Vec<LangString>>,
    pub category: Option<String>,
    pub extensions: HasExtensions,
}

/// A name of the members of `Referable`.
pub open spec fn referable_name(n: Seq<char>) -> bool {
    n == "idShort"@ || n == "displayName"@ || n == "description"@ || n == "category"@ || has_extensions_name(n)
}

/// Looking up the members of `Referable` in `fs` finds what encoding writes for `x`.
pub open spec fn referable_lookups(x: Referable, fs: Seq<(String, Json)>) -> bool {
    &&& opt_encoded(x.id_short, lookup(fs, "idShort"@))
    &&& opt_encoded(x.display_name, lookup(fs, "displayName"@))
    &&& opt_encoded(x.description, lookup(fs, "description"@))
    &&& opt_encoded(x.category, lookup(fs, "category"@))
    &&& has_extensions_lookups(x.extensions, fs)
}

/// `fs` are the members that encoding writes for `x`.
pub open spec fn referable_encoded(x: Referable, fs: Seq<(String, Json)>) -> bool {
    &&& names_within(fs, |n: Seq<char>| referable_name(n))
    &&& referable_lookups(x, fs)
}

/// The members of `fs` decode to `x`.
pub open spec fn referable_rel(x: Referable, fs: Seq<(String, Json)>) -> bool {
    &&& opt_rel(x.id_short, member(fs, "idShort"@))
    &&& opt_rel(x.display_name, member(fs, "displayName"@))
    &&& opt_rel(x.description, member(fs, "description"@))
    &&& opt_rel(x.category, member(fs, "category"@))
    &&& has_extensions_rel(x.extensions, fs)
}

/// The error, if any, of decoding the members of `Referable` from `fs`.
pub open spec fn referable_error(fs: Seq<(String, Json)>) -> Option<DecodeError> {
    match opt_error::<IDShort>(member(fs, "idShort"@)) {
        Some(e) => Some(e),
        None => {
            match opt_error::<Vec<LangString>>(member(fs, "displayName"@)) {
                Some(e) => Some(e),
                None => {
                    match opt_error::<Vec<LangString>>(member(fs, "description"@)) {
                        Some(e) => Some(e),
                        None => {
                            match opt_error::<String>(member(fs, "category"@)) {
                                Some(e) => Some(e),
                                None => {
                                    match has_extensions_error(fs) {
                                        Some(e) => Some(e),
                                        None => {
                                            None
                                        },
                                    }
                                },
                            }
                        },
                    }
                },
            }
        },
    }
}

/// The values of `x` are well-formed.
pub open spec fn referable_wf(x: Referable) -> bool {
    &&& opt_wf(x.id_short)
    &&& opt_wf(x.display_name)
    &&& opt_wf(x.description)
    &&& opt_wf(x.category)
    &&& has_extensions_wf(x.extensions)
}

/// `x` and `y` hold the same content.
pub open spec fn referable_equiv(x: Referable, y: Referable) -> bool {
    &&& opt_equiv(x.id_short, y.id_short)
    &&& opt_equiv(x.display_name, y.display_name)
    &&& opt_equiv(x.description, y.description)
    &&& opt_equiv(x.category, y.category)
    &&& has_extensions_equiv(x.extensions, y.extensions)
}

impl Referable {
    /// Writes the members of the value, absent ones left out.
    #[verifier::rlimit(100)]
    #[verifier::spinoff_prover]
    pub fn encode_members(&self) -> (r: Vec<(String, Json)>)
        ensures
            referable_encoded(*self, r@),
    {
        proof {
            reveal_strlit("idShort");
            reveal_strlit("displayName");
            reveal_strlit("description");
            reveal_strlit("category");
            reveal_strlit("extensions");
            assert("idShort"@.len() == 7 && "displayName"@.len() == 11);
            assert("idShort"@.len() == 7 && "description"@.len() == 11);
            assert("idShort"@.len() == 7 && "category"@.len() == 8);
            assert("idShort"@.len() == 7 && "extensions"@.len() == 10);
            assert("displayName"@.len() == 11 && "idShort"@.len() == 7);
            assert("displayName"@[1] != "description"@[1]);
            assert("displayName"@.len() == 11 && "category"@.len() == 8);
            assert("displayName"@.len() == 11 && "extensions"@.len() == 10);
            assert("description"@.len() == 11 && "idShort"@.len() == 7);
            assert("description"@[1] != "displayName"@[1]);
            assert("description"@.len() == 11 && "category"@.len() == 8);
            assert("description"@.len() == 11 && "extensions"@.len() == 10);
            assert("category"@.len() == 8 && "idShort"@.len() == 7);
            assert("category"@.len() == 8 && "displayName"@.len() == 11);
            assert("category"@.len() == 8 && "description"@.len() == 11);
            assert("category"@.len() == 8 && "extensions"@.len() == 10);
            assert("extensions"@.len() == 10 && "idShort"@.len() == 7);
            assert("extensions"@.len() == 10 && "displayName"@.len() == 11);
            assert("extensions"@.len() == 10 && "description"@.len() == 11);
            assert("extensions"@.len() == 10 && "category"@.len() == 8);
        }
        let mut fs: Vec<(String, Json)> = Vec::new();
        let ghost prev = fs@;
        push_opt(&mut fs, "idShort", &self.id_short);
        proof {
            lemma_names_within_empty(prev, |n: Seq<char>| n == "idShort"@);
            if self.id_short is Some {
                assert(fs@ == prev.push(fs@.last()));
                lemma_names_within_push(prev, fs@.last(), |n: Seq<char>| n == "idShort"@);
                lemma_lookup_push(prev, fs@.last(), "idShort"@);
            }
        }
        let ghost prev = fs@;
        push_opt(&mut fs, "displayName", &self.display_name);
        proof {
            lemma_names_within_weaken(prev, |n: Seq<char>| n == "idShort"@, |n: Seq<char>| n == "idShort"@ || n == "displayName"@);
            lemma_lookup_outside(prev, |n: Seq<char>| n == "idShort"@, "displayName"@);
            if self.display_name is Some {
                assert(fs@ == prev.push(fs@.last()));
                lemma_names_within_push(prev, fs@.last(), |n: Seq<char>| n == "idShort"@ || n == "displayName"@);
                lemma_lookup_push(prev, fs@.last(), "idShort"@);
                lemma_lookup_push(prev, fs@.last(), "displayName"@);
            }
        }
        let ghost prev = fs@;
        push_opt(&mut fs, "description", &self.description);
        proof {
            lemma_names_within_weaken(prev, |n: Seq<char>| n == "idShort"@ || n == "displayName"@, |n: Seq<char>| n == "idShort"@ || n == "displayName"@ || n == "description"@);
            lemma_lookup_outside(prev, |n: Seq<char>| n == "idShort"@ || n == "displayName"@, "description"@);
            if self.description is Some {
                assert(fs@ == prev.push(fs@.last()));
                lemma_names_within_push(prev, fs@.last(), |n: Seq<char>| n == "idShort"@ || n == "displayName"@ || n == "description"@);
                lemma_lookup_push(prev, fs@.last(), "idShort"@);
                lemma_lookup_push(prev, fs@.last(), "displayName"@);
                lemma_lookup_push(prev, fs@.last(), "description"@);
            }
        }
        let ghost prev = fs@;
        push_opt(&mut fs, "category", &self.category);
        proof {
            lemma_names_within_weaken(prev, |n: Seq<char>| n == "idShort"@ || n == "displayName"@ || n == "description"@, |n: Seq<char>| n == "idShort"@ || n == "displayName"@ || n == "description"@ || n == "category"@);
            lemma_lookup_outside(prev, |n: Seq<char>| n == "idShort"@ || n == "displayName"@ || n == "description"@, "category"@);
            if self.category is Some {
                assert(fs@ == prev.push(fs@.last()));
                lemma_names_within_push(prev, fs@.last(), |n: Seq<char>| n == "idShort"@ || n == "displayName"@ || n == "description"@ || n == "category"@);
                lemma_lookup_push(prev, fs@.last(), "idShort"@);
                lemma_lookup_push(prev, fs@.last(), "displayName"@);
                lemma_lookup_push(prev, fs@.last(), "description"@);
                lemma_lookup_push(prev, fs@.last(), "category"@);
            }
        }
        let ghost prev = fs@;
        let mut part = self.extensions.encode_members();
        let ghost sp = part@;
        fs.append(&mut part);
        proof {
            lemma_names_within_concat(prev, sp, |n: Seq<char>| n == "idShort"@ || n == "displayName"@ || n == "description"@ || n == "category"@, |n: Seq<char>| has_extensions_name(n), |n: Seq<char>| referable_name(n));
            lemma_lookup_concat(prev, sp, "idShort"@);
            lemma_lookup_outside(sp, |n: Seq<char>| has_extensions_name(n), "idShort"@);
            lemma_lookup_concat(prev, sp, "displayName"@);
            lemma_lookup_outside(sp, |n: Seq<char>| has_extensions_name(n), "displayName"@);
            lemma_lookup_concat(prev, sp, "description"@);
            lemma_lookup_outside(sp, |n: Seq<char>| has_extensions_name(n), "description"@);
            lemma_lookup_concat(prev, sp, "category"@);
            lemma_lookup_outside(sp, |n: Seq<char>| has_extensions_name(n), "category"@);
            lemma_lookup_concat(prev, sp, "extensions"@);
            lemma_lookup_outside(prev, |n: Seq<char>| n == "idShort"@ || n == "displayName"@ || n == "description"@ || n == "category"@, "extensions"@);
        }
        fs
    }

    /// Reads the members of the value from `fs`.
    pub fn decode_members(fs: &Vec<(String, Json)>) -> (r: Result<Referable, DecodeError>)
        ensures
            match referable_error(fs@) {
                Some(e) => r == Err::<Referable, DecodeError>(e),
                None => r matches Ok(x) && referable_rel(x, fs@),
            },
    {
        let id_short = match decode_opt::<IDShort>(fs, "idShort") {
            Ok(v) => v,
            Err(e) => return Err(e),
        };
        let display_name = match decode_opt::<Vec<LangString>>(fs, "displayName") {
            Ok(v) => v,
            Err(e) => return Err(e),
        };
        let description = match decode_opt::<Vec<LangString>>(fs, "description") {
            Ok(v) => v,
            Err(e) => return Err(e),
        };
        let category = match decode_opt::<String>(fs, "category") {
            Ok(v) => v,
            Err(e) => return Err(e),
        };
        let extensions = match HasExtensions::decode_members(fs) {
            Ok(v) => v,
            Err(e) => return Err(e),
        };
        Ok(Referable { id_short, display_name, description, category, extensions })
    }
}

/// Members found as encoding writes them decode to a value, whatever
/// other members stand beside them.
pub proof fn lemma_referable_round_trip(x: Referable, fs: Seq<(String, Json)>)
    requires
        referable_wf(x),
        referable_lookups(x, fs),
    ensures
        referable_error(fs) is None,
        referable_rel(x, fs),
{
    lemma_opt_round_trip(x.id_short, lookup(fs, "idShort"@));
    lemma_opt_round_trip(x.display_name, lookup(fs, "displayName"@));
    lemma_opt_round_trip(x.description, lookup(fs, "description"@));
    lemma_opt_round_trip(x.category, lookup(fs, "category"@));
    lemma_has_extensions_round_trip(x.extensions, fs);
}

/// The values that the same members decode to hold the same content.
pub proof fn lemma_referable_unique(x: Referable, y: Referable, fs: Seq<(String, Json)>)
    requires
        referable_rel(x, fs),
        referable_rel(y, fs),
    ensures
        referable_equiv(x, y),
{
    lemma_opt_unique(x.id_short, y.id_short, member(fs, "idShort"@));
    lemma_opt_unique(x.display_name, y.display_name, member(fs, "displayName"@));
    lemma_opt_unique(x.description, y.description, member(fs, "description"@));
    lemma_opt_unique(x.category, y.category, member(fs, "category"@));
    lemma_has_extensions_unique(x.extensions, y.extensions, fs);
}

/// The content of a qualifier: its semantics, type, value and value id.
#[derive(Clone, Debug, PartialEq)]
pub struct QualifierInner {
    pub semantics: HasSemantics,
    pub ty: String,
    pub value: DataXsd,
    pub value_id: Option<Reference>,
}

/// A name of the members of `QualifierInner`.
pub open spec fn qualifier_inner_name(n: Seq<char>) -> bool {
    has_semantics_name(n) || n == "type"@ || xsd_member_name(n) || n == "valueId"@
}

/// Looking up the members of `QualifierInner` in `fs` finds what encoding writes for `x`.
pub open spec fn qualifier_inner_lookups(x: QualifierInner, fs: Seq<(String, Json)>) -> bool {
    &&& has_semantics_lookups(x.semantics, fs)
    &&& req_encoded(x.ty, lookup(fs, "type"@))
    &&& x.value.encoded_lookups(fs)
    &&& opt_encoded(x.value_id, lookup(fs, "valueId"@))
}

/// `fs` are the members that encoding writes for `x`.
pub open spec fn qualifier_inner_encoded(x: QualifierInner, fs: Seq<(String, Json)>) -> bool {
    &&& names_within(fs, |n: Seq<char>| qualifier_inner_name(n))
    &&& qualifier_inner_lookups(x, fs)
}

/// The members of `fs` decode to `x`.
pub open spec fn qualifier_inner_rel(x: QualifierInner, fs: Seq<(String, Json)>) -> bool {
    &&& has_semantics_rel(x.semantics, fs)
    &&& req_rel(x.ty, member(fs, "type"@))
    &&& x.value.rel_fields(fs)
    &&& opt_rel(x.value_id, member(fs, "valueId"@))
}

/// The error, if any, of decoding the members of `QualifierInner` from `fs`.
pub open spec fn qualifier_inner_error(fs: Seq<(String, Json)>) -> Option<DecodeError> {
    match has_semantics_error(fs) {
        Some(e) => Some(e),
        None => {
            match req_error::<String>(member(fs, "type"@)) {
                Some(e) => Some(e),
                None => {
                    match xsd_decode_error(fs) {
                        Some(e) => Some(e),
                        None => {
                            match opt_error::<Reference>(member(fs, "valueId"@)) {
                                Some(e) => Some(e),
                                None => {
                                    None
                                },
                            }
                        },
                    }
                },
            }
        },
    }
}

/// The values of `x` are well-formed.
pub open spec fn qualifier_inner_wf(x: QualifierInner) -> bool {
    &&& has_semantics_wf(x.semantics)
    &&& x.ty.wf()
    &&& x.value.wf()
    &&& opt_wf(x.value_id)
}

/// `x` and `y` hold the same content.
pub open spec fn qualifier_inner_equiv(x: QualifierInner, y: QualifierInner) -> bool {
    &&& has_semantics_equiv(x.semantics, y.semantics)
    &&& x.ty.equiv(&y.ty)
    &&& x.value.equiv(y.value)
    &&& opt_equiv(x.value_id, y.value_id)
}

impl QualifierInner {
    /// Writes the members of the value, absent ones left out.
    pub fn encode_members(&self) -> (r: Vec<(String, Json)>)
        ensures
            qualifier_inner_encoded(*self, r@),
    {
        proof {
            reveal_strlit("semanticId");
            reveal_strlit("supplementalSemanticIds");
            reveal_strlit("type");
            reveal_strlit("valueType");
            reveal_strlit("value");
            reveal_strlit("valueId");
            assert("semanticId"@.len() == 10 && "supplementalSemanticIds"@.len() == 23);
            assert("semanticId"@.len() == 10 && "type"@.len() == 4);
            assert("semanticId"@.len() == 10 && "valueType"@.len() == 9);
            assert("semanticId"@.len() == 10 && "value"@.len() == 5);
            assert("semanticId"@.len() == 10 && "valueId"@.len() == 7);
            assert("supplementalSemanticIds"@.len() == 23 && "semanticId"@.len() == 10);
            assert("supplementalSemanticIds"@.len() == 23 && "type"@.len() == 4);
            assert("supplementalSemanticIds"@.len() == 23 && "valueType"@.len() == 9);
            assert("supplementalSemanticIds"@.len() == 23 && "value"@.len() == 5);
            assert("supplementalSemanticIds"@.len() == 23 && "valueId"@.len() == 7);
            assert("type"@.len() == 4 && "semanticId"@.len() == 10);
            assert("type"@.len() == 4 && "supplementalSemanticIds"@.len() == 23);
            assert("type"@.len() == 4 && "valueType"@.len() == 9);
            assert("type"@.len() == 4 && "value"@.len() == 5);
            assert("type"@.len() == 4 && "valueId"@.len() == 7);
            assert("valueType"@.len() == 9 && "semanticId"@.len() == 10);
            assert("valueType"@.len() == 9 && "supplementalSemanticIds"@.len() == 23);
            assert("valueType"@.len() == 9 && "type"@.len() == 4);
            assert("valueType"@.len() == 9 && "value"@.len() == 5);
            assert("valueType"@.len() == 9 && "valueId"@.len() == 7);
            assert("value"@.len() == 5 && "semanticId"@.len() == 10);
            assert("value"@.len() == 5 && "supplementalSemanticIds"@.len() == 23);
            assert("value"@.len() == 5 && "type"@.len() == 4);
            assert("value"@.len() == 5 && "valueType"@.len() == 9);
            assert("value"@.len() == 5 && "valueId"@.len() == 7);
            assert("valueId"@.len() == 7 && "semanticId"@.len() == 10);
            assert("valueId"@.len() == 7 && "supplementalSemanticIds"@.len() == 23);
            assert("valueId"@.len() == 7 && "type"@.len() == 4);
            assert("valueId"@.len() == 7 && "valueType"@.len() == 9);
            assert("valueId"@.len() == 7 && "value"@.len() == 5);
        }
        let mut fs: Vec<(String, Json)> = Vec::new();
        let ghost prev = fs@;
        let mut part = self.semantics.encode_members();
        let ghost sp = part@;
        fs.append(&mut part);
        proof {
            lemma_names_within_empty(prev, |n: Seq<char>| has_semantics_name(n));
            lemma_names_within_concat(prev, sp, |n: Seq<char>| has_semantics_name(n), |n: Seq<char>| has_semantics_name(n), |n: Seq<char>| has_semantics_name(n));
            lemma_lookup_concat(prev, sp, "semanticId"@);
            assert(prev.len() == 0);
            lemma_lookup_concat(prev, sp, "supplementalSemanticIds"@);
            assert(prev.len() == 0);
        }
        let ghost prev = fs@;
        push_req(&mut fs, "type", &self.ty);
        proof {
            lemma_names_within_weaken(prev, |n: Seq<char>| has_semantics_name(n), |n: Seq<char>| has_semantics_name(n) || n == "type"@);
            lemma_lookup_outside(prev, |n: Seq<char>| has_semantics_name(n), "type"@);
            if true {
                assert(fs@ == prev.push(fs@.last()));
                lemma_names_within_push(prev, fs@.last(), |n: Seq<char>| has_semantics_name(n) || n == "type"@);
                lemma_lookup_push(prev, fs@.last(), "semanticId"@);
                lemma_lookup_push(prev, fs@.last(), "supplementalSemanticIds"@);
                lemma_lookup_push(prev, fs@.last(), "type"@);
            }
        }
        let ghost prev = fs@;
        let mut part = self.value.encode_fields();
        proof {
            lemma_encoded_fields_lookups(self.value, part@);
        }
        let ghost sp = part@;
        fs.append(&mut part);
        proof {
            lemma_names_within_concat(prev, sp, |n: Seq<char>| has_semantics_name(n) || n == "type"@, |n: Seq<char>| xsd_member_name(n), |n: Seq<char>| has_semantics_name(n) || n == "type"@ || xsd_member_name(n));
            lemma_lookup_concat(prev, sp, "semanticId"@);
            lemma_lookup_outside(sp, |n: Seq<char>| xsd_member_name(n), "semanticId"@);
            lemma_lookup_concat(prev, sp, "supplementalSemanticIds"@);
            lemma_lookup_outside(sp, |n: Seq<char>| xsd_member_name(n), "supplementalSemanticIds"@);
            lemma_lookup_concat(prev, sp, "type"@);
            lemma_lookup_outside(sp, |n: Seq<char>| xsd_member_name(n), "type"@);
            lemma_lookup_concat(prev, sp, "valueType"@);
            lemma_lookup_outside(prev, |n: Seq<char>| has_semantics_name(n) || n == "type"@, "valueType"@);
            lemma_lookup_concat(prev, sp, "value"@);
            lemma_lookup_outside(prev, |n: Seq<char>| has_semantics_name(n) || n == "type"@, "value"@);
        }
        let ghost prev = fs@;
        push_opt(&mut fs, "valueId", &self.value_id);
        proof {
            lemma_names_within_weaken(prev, |n: Seq<char>| has_semantics_name(n) || n == "type"@ || xsd_member_name(n), |n: Seq<char>| qualifier_inner_name(n));
            lemma_lookup_outside(prev, |n: Seq<char>| has_semantics_name(n) || n == "type"@ || xsd_member_name(n), "valueId"@);
            if self.value_id is Some {
                assert(fs@ == prev.push(fs@.last()));
                lemma_names_within_push(prev, fs@.last(), |n: Seq<char>| qualifier_inner_name(n));
                lemma_lookup_push(prev, fs@.last(), "semanticId"@);
                lemma_lookup_push(prev, fs@.last(), "supplementalSemanticIds"@);
                lemma_lookup_push(prev, fs@.last(), "type"@);
                lemma_lookup_push(prev, fs@.last(), "valueType"@);
                lemma_lookup_push(prev, fs@.last(), "value"@);
                lemma_lookup_push(prev, fs@.last(), "valueId"@);
            }
        }
        fs
    }

    /// Reads the members of the value from `fs`.
    pub fn decode_members(fs: &Vec<(String, Json)>) -> (r: Result<QualifierInner, DecodeError>)
        ensures
            match qualifier_inner_error(fs@) {
                Some(e) => r == Err::<QualifierInner, DecodeError>(e),
                None => r matches Ok(x) && qualifier_inner_rel(x, fs@),
            },
    {
        let semantics = match HasSemantics::decode_members(fs) {
            Ok(v) => v,
            Err(e) => return Err(e),
        };
        let ty = match decode_req::<String>(fs, "type") {
            Ok(v) => v,
            Err(e) => return Err(e),
        };
        let value = match DataXsd::decode_fields(fs) {
            Ok(v) => v,
            Err(e) => return Err(e),
        };
        let value_id = match decode_opt::<Reference>(fs, "valueId") {
            Ok(v) => v,
            Err(e) => return Err(e),
        };
        Ok(QualifierInner { semantics, ty, value, value_id })
    }
}

/// Members found as encoding writes them decode to a value, whatever
/// other members stand beside them.
pub proof fn lemma_qualifier_inner_round_trip(x: QualifierInner, fs: Seq<(String, Json)>)
    requires
        qualifier_inner_wf(x),
        qualifier_inner_lookups(x, fs),
    ensures
        qualifier_inner_error(fs) is None,
        qualifier_inner_rel(x, fs),
{
    lemma_has_semantics_round_trip(x.semantics, fs);
    lemma_req_round_trip(x.ty, lookup(fs, "type"@));
    lemma_encoded_lookups_rel(x.value, fs);
    lemma_opt_round_trip(x.value_id, lookup(fs, "valueId"@));
}

/// The values that the same members decode to hold the same content.
pub proof fn lemma_qualifier_inner_unique(x: QualifierInner, y: QualifierInner, fs: Seq<(String, Json)>)
    requires
        qualifier_inner_rel(x, fs),
        qualifier_inner_rel(y, fs),
    ensures
        qualifier_inner_equiv(x, y),
{
    lemma_has_semantics_unique(x.semantics, y.semantics, fs);
    lemma_req_unique(x.ty, y.ty, member(fs, "type"@));
    lemma_rel_fields_unique(x.value, y.value, fs);
    lemma_opt_unique(x.value_id, y.value_id, member(fs, "valueId"@));
}
/// A qualifier of an element, told apart by its `kind`. A kind that is
/// none of the three known ones, or no kind at all, gives `Unknown`.
#[derive(Clone, Debug, PartialEq)]
pub enum Qualifier {
    ConceptQualifier(QualifierInner),
    TemplateQualifier(QualifierInner),
    ValueQualifier(QualifierInner),
    Unknown(QualifierInner),
}

/// The content of a qualifier.
pub open spec fn qualifier_content(q: Qualifier) -> QualifierInner {
    match q {
        Qualifier::ConceptQualifier(i) => i,
        Qualifier::TemplateQualifier(i) => i,
        Qualifier::ValueQualifier(i) => i,
        Qualifier::Unknown(i) => i,
    }
}

/// The kind written for a qualifier; none for `Unknown`.
pub open spec fn qualifier_kind(q: Qualifier) -> Option<Seq<char>> {
    match q {
        Qualifier::ConceptQualifier(_) => Some("ConceptQualifier"@),
        Qualifier::TemplateQualifier(_) => Some("TemplateQualifier"@),
        Qualifier::ValueQualifier(_) => Some("ValueQualifier"@),
        Qualifier::Unknown(_) => None,
    }
}

/// `s` names one of the three known kinds of qualifier.
pub open spec fn is_qualifier_kind(s: Seq<char>) -> bool {
    s == "ConceptQualifier"@ || s == "TemplateQualifier"@ || s == "ValueQualifier"@
}

/// The kind that the member `m` names, when it is a known one.
pub open spec fn known_kind(m: Option<Json>) -> Option<Seq<char>> {
    match m {
        Some(Json::Str(s)) => if is_qualifier_kind(s@) {
            Some(s@)
        } else {
            None
        },
        _ => None,
    }
}

impl Qualifier {
    /// The content of the qualifier.
    pub fn content(&self) -> (r: &QualifierInner)
        ensures
            *r == qualifier_content(*self),
    {
        match self {
            Qualifier::ConceptQualifier(i) => i,
            Qualifier::TemplateQualifier(i) => i,
            Qualifier::ValueQualifier(i) => i,
            Qualifier::Unknown(i) => i,
        }
    }
}

impl JsonCodec for Qualifier {
    open spec fn wf(&self) -> bool {
        qualifier_inner_wf(qualifier_content(*self))
    }

    open spec fn encoded(&self, j: Json) -> bool {
        j matches Json::Object(fs) && match qualifier_kind(*self) {
            None => qualifier_inner_encoded(qualifier_content(*self), fs@),
            Some(k) => fs@.len() > 0 && fs@[0].0@ == "kind"@ && (fs@[0].1 matches Json::Str(s) && s@
                == k) && qualifier_inner_encoded(qualifier_content(*self), fs@.drop_first()),
        }
    }

    open spec fn rel(&self, j: Json) -> bool {
        j matches Json::Object(fs) && known_kind(member(fs@, "kind"@)) == qualifier_kind(*self)
            && qualifier_inner_rel(qualifier_content(*self), fs@)
    }

    open spec fn decode_error(j: Json) -> Option<DecodeError> {
        match j {
            Json::Object(fs) => qualifier_inner_error(fs@),
            _ => Some(DecodeError::UnexpectedKind),
        }
    }

    open spec fn equiv(&self, o: &Self) -> bool {
        qualifier_kind(*self) == qualifier_kind(*o) && qualifier_inner_equiv(
            qualifier_content(*self),
            qualifier_content(*o),
        )
    }

    fn encode(&self) -> (r: Json) {
        let kind: Option<&str> = match self {
            Qualifier::ConceptQualifier(_) => Some("ConceptQualifier"),
            Qualifier::TemplateQualifier(_) => Some("TemplateQualifier"),
            Qualifier::ValueQualifier(_) => Some("ValueQualifier"),
            Qualifier::Unknown(_) => None,
        };
        let mut inner = self.content().encode_members();
        match kind {
            Some(k) => {
                let mut fs: Vec<(String, Json)> = Vec::new();
                fs.push(field("kind", Json::Str(k.to_string())));
                let ghost sp = inner@;
                fs.append(&mut inner);
                assert(fs@.drop_first() =~= sp);
                Json::Object(fs)
            },
            None => Json::Object(inner),
        }
    }

    fn decode(j: &Json) -> (r: Result<Self, DecodeError>) {
        proof {
            reveal_strlit("ConceptQualifier");
            reveal_strlit("TemplateQualifier");
            reveal_strlit("ValueQualifier");
            assert("ConceptQualifier"@.len() == 16);
            assert("TemplateQualifier"@.len() == 17);
            assert("ValueQualifier"@.len() == 14);
        }
        let fs = match j {
            Json::Object(fs) => fs,
            _ => return Err(DecodeError::UnexpectedKind),
        };
        let inner = match QualifierInner::decode_members(fs) {
            Ok(v) => v,
            Err(e) => return Err(e),
        };
        match get_member(fs, "kind") {
            Some(Json::Str(s)) => if str_eq(s.as_str(), "ConceptQualifier") {
                Ok(Qualifier::ConceptQualifier(inner))
            } else if str_eq(s.as_str(), "TemplateQualifier") {
                Ok(Qualifier::TemplateQualifier(inner))
            } else if str_eq(s.as_str(), "ValueQualifier") {
                Ok(Qualifier::ValueQualifier(inner))
            } else {
                Ok(Qualifier::Unknown(inner))
            },
            _ => Ok(Qualifier::Unknown(inner)),
        }
    }

    proof fn lemma_round_trip(&self, j: Json) {
        reveal_strlit("ConceptQualifier");
        reveal_strlit("TemplateQualifier");
        reveal_strlit("ValueQualifier");
        assert("ConceptQualifier"@.len() == 16);
        assert("TemplateQualifier"@.len() == 17);
        assert("ValueQualifier"@.len() == 14);
        let fs = j->Object_0@;
        let x = qualifier_content(*self);
        reveal_strlit("kind");
        assert("kind"@.len() == 4);

        reveal_strlit("semanticId");
        assert("semanticId"@.len() == 10);
        reveal_strlit("supplementalSemanticIds");
        assert("supplementalSemanticIds"@.len() == 23);
        reveal_strlit("type");
        assert("type"@.len() == 4);
        reveal_strlit("valueType");
        assert("valueType"@.len() == 9);
        reveal_strlit("value");
        assert("value"@.len() == 5);
        reveal_strlit("valueId");
        assert("valueId"@.len() == 7);
        assert("kind"@.len() == 4 && "semanticId"@.len() == 10);
        assert("kind"@.len() == 4 && "supplementalSemanticIds"@.len() == 23);
        assert("kind"@[0] != "type"@[0]);
        assert("kind"@.len() == 4 && "valueType"@.len() == 9);
        assert("kind"@.len() == 4 && "value"@.len() == 5);
        assert("kind"@.len() == 4 && "valueId"@.len() == 7);
        match qualifier_kind(*self) {
            None => {
                lemma_qualifier_inner_round_trip(x, fs);
                lemma_lookup_outside(fs, |n: Seq<char>| qualifier_inner_name(n), "kind"@);
            },
            Some(k) => {
                let rest = fs.drop_first();
                assert(fs =~= seq![fs[0]] + rest);
                lemma_lookup_first(rest, fs[0]);
                lemma_lookup_skip(rest, fs[0], "semanticId"@);
                lemma_lookup_skip(rest, fs[0], "supplementalSemanticIds"@);
                lemma_lookup_skip(rest, fs[0], "type"@);
                lemma_lookup_skip(rest, fs[0], "valueType"@);
                lemma_lookup_skip(rest, fs[0], "value"@);
                lemma_lookup_skip(rest, fs[0], "valueId"@);
                lemma_qualifier_inner_round_trip(x, fs);
            },
        }
    }

    proof fn lemma_unique(&self, o: &Self, j: Json) {
        lemma_qualifier_inner_unique(qualifier_content(*self), qualifier_content(*o), j->Object_0@);
    }
}

/// The qualifiers of an element.
#[derive(Clone, Debug, PartialEq)]
pub struct Qualifiable {
    pub qualifiers: Option<Vec<Qualifier>>,
}

/// A name of the members of `Qualifiable`.
pub open spec fn qualifiable_name(n: Seq<char>) -> bool {
    n == "qualifiers"@
}

/// Looking up the members of `Qualifiable` in `fs` finds what encoding writes for `x`.
pub open spec fn qualifiable_lookups(x: Qualifiable, fs: Seq<(String, Json)>) -> bool {
    &&& opt_encoded(x.qualifiers, lookup(fs, "qualifiers"@))
}

/// `fs` are the members that encoding writes for `x`.
pub open spec fn qualifiable_encoded(x: Qualifiable, fs: Seq<(String, Json)>) -> bool {
    &&& names_within(fs, |n: Seq<char>| qualifiable_name(n))
    &&& qualifiable_lookups(x, fs)
}

/// The members of `fs` decode to `x`.
pub open spec fn qualifiable_rel(x: Qualifiable, fs: Seq<(String, Json)>) -> bool {
    &&& opt_rel(x.qualifiers, member(fs, "qualifiers"@))
}

/// The error, if any, of decoding the members of `Qualifiable` from `fs`.
pub open spec fn qualifiable_error(fs: Seq<(String, Json)>) -> Option<DecodeError> {
    match opt_error::<Vec<Qualifier>>(member(fs, "qualifiers"@)) {
        Some(e) => Some(e),
        None => {
            None
        },
    }
}

/// The values of `x` are well-formed.
pub open spec fn qualifiable_wf(x: Qualifiable) -> bool {
    &&& opt_wf(x.qualifiers)
}

/// `x` and `y` hold the same content.
pub open spec fn qualifiable_equiv(x: Qualifiable, y: Qualifiable) -> bool {
    &&& opt_equiv(x.qualifiers, y.qualifiers)
}

impl Qualifiable {
    /// Writes the members of the value, absent ones left out.
    pub fn encode_members(&self) -> (r: Vec<(String, Json)>)
        ensures
            qualifiable_encoded(*self, r@),
    {
        proof {
            reveal_strlit("qualifiers");
        }
        let mut fs: Vec<(String, Json)> = Vec::new();
        let ghost prev = fs@;
        push_opt(&mut fs, "qualifiers", &self.qualifiers);
        proof {
            if self.qualifiers is Some {
                assert(fs@ == prev.push(fs@.last()));
                lemma_names_within_push(prev, fs@.last(), |n: Seq<char>| qualifiable_name(n));
                lemma_lookup_push(prev, fs@.last(), "qualifiers"@);
            }
        }
        fs
    }

    /// Reads the members of the value from `fs`.
    pub fn decode_members(fs: &Vec<(String, Json)>) -> (r: Result<Qualifiable, DecodeError>)
        ensures
            match qualifiable_error(fs@) {
                Some(e) => r == Err::<Qualifiable, DecodeError>(e),
                None => r matches Ok(x) && qualifiable_rel(x, fs@),
            },
    {
        let qualifiers = match decode_opt::<Vec<Qualifier>>(fs, "qualifiers") {
            Ok(v) => v,
            Err(e) => return Err(e),
        };
        Ok(Qualifiable { qualifiers })
    }
}

/// Members found as encoding writes them decode to a value, whatever
/// other members stand beside them.
pub proof fn lemma_qualifiable_round_trip(x: Qualifiable, fs: Seq<(String, Json)>)
    requires
        qualifiable_wf(x),
        qualifiable_lookups(x, fs),
    ensures
        qualifiable_error(fs) is None,
        qualifiable_rel(x, fs),
{
    lemma_opt_round_trip(x.qualifiers, lookup(fs, "qualifiers"@));
}

/// The values that the same members decode to hold the same content.
pub proof fn lemma_qualifiable_unique(x: Qualifiable, y: Qualifiable, fs: Seq<(String, Json)>)
    requires
        qualifiable_rel(x, fs),
        qualifiable_rel(y, fs),
    ensures
        qualifiable_equiv(x, y),
{
    lemma_opt_unique(x.qualifiers, y.qualifiers, member(fs, "qualifiers"@));
}

/// The data specifications embedded in an element.
#[derive(Clone, Debug, PartialEq)]
pub struct HasDataSpecification {
    pub embedded_data_specifications: Option<Vec<EmbeddedDataSpecification>>,
}

/// A name of the members of `HasDataSpecification`.
pub open spec fn has_data_specification_name(n: Seq<char>) -> bool {
    n == "embeddedDataSpecifications"@
}

/// Looking up the members of `HasDataSpecification` in `fs` finds what encoding writes for `x`.
pub open spec fn has_data_specification_lookups(x: HasDataSpecification, fs: Seq<(String, Json)>) -> bool {
    &&& opt_encoded(x.embedded_data_specifications, lookup(fs, "embeddedDataSpecifications"@))
}

/// `fs` are the members that encoding writes for `x`.
pub open spec fn has_data_specification_encoded(x: HasDataSpecification, fs: Seq<(String, Json)>) -> bool {
    &&& names_within(fs, |n: Seq<char>| has_data_specification_name(n))
    &&& has_data_specification_lookups(x, fs)
}

/// The members of `fs` decode to `x`.
pub open spec fn has_data_specification_rel(x: HasDataSpecification, fs: Seq<(String, Json)>) -> bool {
    &&& opt_rel(x.embedded_data_specifications, member(fs, "embeddedDataSpecifications"@))
}

/// The error, if any, of decoding the members of `HasDataSpecification` from `fs`.
pub open spec fn has_data_specification_error(fs: Seq<(String, Json)>) -> Option<DecodeError> {
    match opt_error::<Vec<EmbeddedDataSpecification>>(member(fs, "embeddedDataSpecifications"@)) {
        Some(e) => Some(e),
        None => {
            None
        },
    }
}

/// The values of `x` are well-formed.
pub open spec fn has_data_specification_wf(x: HasDataSpecification) -> bool {
    &&& opt_wf(x.embedded_data_specifications)
}

/// `x` and `y` hold the same content.
pub open spec fn has_data_specification_equiv(x: HasDataSpecification, y: HasDataSpecification) -> bool {
    &&& opt_equiv(x.embedded_data_specifications, y.embedded_data_specifications)
}

impl HasDataSpecification {
    /// Writes the members of the value, absent ones left out.
    pub fn encode_members(&self) -> (r: Vec<(String, Json)>)
        ensures
            has_data_specification_encoded(*self, r@),
    {
        proof {
            reveal_strlit("embeddedDataSpecifications");
        }
        let mut fs: Vec<(String, Json)> = Vec::new();
        let ghost prev = fs@;
        push_opt(&mut fs, "embeddedDataSpecifications", &self.embedded_data_specifications);
        proof {
            if self.embedded_data_specifications is Some {
                assert(fs@ == prev.push(fs@.last()));
                lemma_names_within_push(prev, fs@.last(), |n: Seq<char>| has_data_specification_name(n));
                lemma_lookup_push(prev, fs@.last(), "embeddedDataSpecifications"@);
            }
        }
        fs
    }

    /// Reads the members of the value from `fs`.
    pub fn decode_members(fs: &Vec<(String, Json)>) -> (r: Result<HasDataSpecification, DecodeError>)
        ensures
            match has_data_specification_error(fs@) {
                Some(e) => r == Err::<HasDataSpecification, DecodeError>(e),
                None => r matches Ok(x) && has_data_specification_rel(x, fs@),
            },
    {
        let embedded_data_specifications = match decode_opt::<Vec<EmbeddedDataSpecification>>(fs, "embeddedDataSpecifications") {
            Ok(v) => v,
            Err(e) => return Err(e),
        };
        Ok(HasDataSpecification { embedded_data_specifications })
    }
}

/// Members found as encoding writes them decode to a value, whatever
/// other members stand beside them.
pub proof fn lemma_has_data_specification_round_trip(x: HasDataSpecification, fs: Seq<(String, Json)>)
    requires
        has_data_specification_wf(x),
        has_data_specification_lookups(x, fs),
    ensures
        has_data_specification_error(fs) is None,
        has_data_specification_rel(x, fs),
{
    lemma_opt_round_trip(x.embedded_data_specifications, lookup(fs, "embeddedDataSpecifications"@));
}

/// The values that the same members decode to hold the same content.
pub proof fn lemma_has_data_specification_unique(x: HasDataSpecification, y: HasDataSpecification, fs: Seq<(String, Json)>)
    requires
        has_data_specification_rel(x, fs),
        has_data_specification_rel(y, fs),
    ensures
        has_data_specification_equiv(x, y),
{
    lemma_opt_unique(x.embedded_data_specifications, y.embedded_data_specifications, member(fs, "embeddedDataSpecifications"@));
}

/// A data specification together with its content.
#[derive(Clone, Debug, PartialEq)]
pub struct EmbeddedDataSpecification {
    /// The external reference to the data specification template.
    pub data_specification: Reference,
    pub data_specification_content: DataSpecificationIec61360,
}

/// A name of the members of `EmbeddedDataSpecification`.
pub open spec fn embedded_data_specification_name(n: Seq<char>) -> bool {
    n == "dataSpecification"@ || n == "dataSpecificationContent"@
}

/// Looking up the members of `EmbeddedDataSpecification` in `fs` finds what encoding writes for `x`.
pub open spec fn embedded_data_specification_lookups(x: EmbeddedDataSpecification, fs: Seq<(String, Json)>) -> bool {
    &&& req_encoded(x.data_specification, lookup(fs, "dataSpecification"@))
    &&& req_encoded(x.data_specification_content, lookup(fs, "dataSpecificationContent"@))
}

/// `fs` are the members that encoding writes for `x`.
pub open spec fn embedded_data_specification_encoded(x: EmbeddedDataSpecification, fs: Seq<(String, Json)>) -> bool {
    &&& names_within(fs, |n: Seq<char>| embedded_data_specification_name(n))
    &&& embedded_data_specification_lookups(x, fs)
}

/// The members of `fs` decode to `x`.
pub open spec fn embedded_data_specification_rel(x: EmbeddedDataSpecification, fs: Seq<(String, Json)>) -> bool {
    &&& req_rel(x.data_specification, member(fs, "dataSpecification"@))
    &&& req_rel(x.data_specification_content, member(fs, "dataSpecificationContent"@))
}

/// The error, if any, of decoding the members of `EmbeddedDataSpecification` from `fs`.
pub open spec fn embedded_data_specification_error(fs: Seq<(String, Json)>) -> Option<DecodeError> {
    match req_error::<Reference>(member(fs, "dataSpecification"@)) {
        Some(e) => Some(e),
        None => {
            match req_error::<DataSpecificationIec61360>(member(fs, "dataSpecificationContent"@)) {
                Some(e) => Some(e),
                None => {
                    None
                },
            }
        },
    }
}

/// The values of `x` are well-formed.
pub open spec fn embedded_data_specification_wf(x: EmbeddedDataSpecification) -> bool {
    &&& x.data_specification.wf()
    &&& x.data_specification_content.wf()
}

/// `x` and `y` hold the same content.
pub open spec fn embedded_data_specification_equiv(x: EmbeddedDataSpecification, y: EmbeddedDataSpecification) -> bool {
    &&& x.data_specification.equiv(&y.data_specification)
    &&& x.data_specification_content.equiv(&y.data_specification_content)
}

impl EmbeddedDataSpecification {
    /// Writes the members of the value, absent ones left out.
    pub fn encode_members(&self) -> (r: Vec<(String, Json)>)
        ensures
            embedded_data_specification_encoded(*self, r@),
    {
        proof {
            reveal_strlit("dataSpecification");
            reveal_strlit("dataSpecificationContent");
            assert("dataSpecification"@.len() == 17 && "dataSpecificationContent"@.len() == 24);
            assert("dataSpecificationContent"@.len() == 24 && "dataSpecification"@.len() == 17);
        }
        let mut fs: Vec<(String, Json)> = Vec::new();
        let ghost prev = fs@;
        push_req(&mut fs, "dataSpecification", &self.data_specification);
        proof {
            if true {
                assert(fs@ == prev.push(fs@.last()));
                lemma_names_within_push(prev, fs@.last(), |n: Seq<char>| embedded_data_specification_name(n));
                lemma_lookup_push(prev, fs@.last(), "dataSpecification"@);
                lemma_lookup_push(prev, fs@.last(), "dataSpecificationContent"@);
            }
        }
        let ghost prev = fs@;
        push_req(&mut fs, "dataSpecificationContent", &self.data_specification_content);
        proof {
            if true {
                assert(fs@ == prev.push(fs@.last()));
                lemma_names_within_push(prev, fs@.last(), |n: Seq<char>| embedded_data_specification_name(n));
                lemma_lookup_push(prev, fs@.last(), "dataSpecification"@);
                lemma_lookup_push(prev, fs@.last(), "dataSpecificationContent"@);
            }
        }
        fs
    }

    /// Reads the members of the value from `fs`.
    pub fn decode_members(fs: &Vec<(String, Json)>) -> (r: Result<EmbeddedDataSpecification, DecodeError>)
        ensures
            match embedded_data_specification_error(fs@) {
                Some(e) => r == Err::<EmbeddedDataSpecification, DecodeError>(e),
                None => r matches Ok(x) && embedded_data_specification_rel(x, fs@),
            },
    {
        let data_specification = match decode_req::<Reference>(fs, "dataSpecification") {
            Ok(v) => v,
            Err(e) => return Err(e),
        };
        let data_specification_content = match decode_req::<DataSpecificationIec61360>(fs, "dataSpecificationContent") {
            Ok(v) => v,
            Err(e) => return Err(e),
        };
        Ok(EmbeddedDataSpecification { data_specification, data_specification_content })
    }
}

/// Members found as encoding writes them decode to a value, whatever
/// other members stand beside them.
pub proof fn lemma_embedded_data_specification_round_trip(x: EmbeddedDataSpecification, fs: Seq<(String, Json)>)
    requires
        embedded_data_specification_wf(x),
        embedded_data_specification_lookups(x, fs),
    ensures
        embedded_data_specification_error(fs) is None,
        embedded_data_specification_rel(x, fs),
{
    lemma_req_round_trip(x.data_specification, lookup(fs, "dataSpecification"@));
    lemma_req_round_trip(x.data_specification_content, lookup(fs, "dataSpecificationContent"@));
}

/// The values that the same members decode to hold the same content.
pub proof fn lemma_embedded_data_specification_unique(x: EmbeddedDataSpecification, y: EmbeddedDataSpecification, fs: Seq<(String, Json)>)
    requires
        embedded_data_specification_rel(x, fs),
        embedded_data_specification_rel(y, fs),
    ensures
        embedded_data_specification_equiv(x, y),
{
    lemma_req_unique(x.data_specification, y.data_specification, member(fs, "dataSpecification"@));
    lemma_req_unique(x.data_specification_content, y.data_specification_content, member(fs, "dataSpecificationContent"@));
}

impl JsonCodec for EmbeddedDataSpecification {
    open spec fn wf(&self) -> bool {
        embedded_data_specification_wf(*self)
    }

    open spec fn encoded(&self, j: Json) -> bool {
        j matches Json::Object(fs) && embedded_data_specification_encoded(*self, fs@)
    }

    open spec fn rel(&self, j: Json) -> bool {
        j matches Json::Object(fs) && embedded_data_specification_rel(*self, fs@)
    }

    open spec fn decode_error(j: Json) -> Option<DecodeError> {
        match j {
            Json::Object(fs) => embedded_data_specification_error(fs@),
            _ => Some(DecodeError::UnexpectedKind),
        }
    }

    open spec fn equiv(&self, o: &Self) -> bool {
        embedded_data_specification_equiv(*self, *o)
    }

    fn encode(&self) -> (r: Json) {
        Json::Object(self.encode_members())
    }

    fn decode(j: &Json) -> (r: Result<Self, DecodeError>) {
        match j {
            Json::Object(fs) => EmbeddedDataSpecification::decode_members(fs),
            _ => Err(DecodeError::UnexpectedKind),
        }
    }

    proof fn lemma_round_trip(&self, j: Json) {
        lemma_embedded_data_specification_round_trip(*self, j->Object_0@);
    }

    proof fn lemma_unique(&self, o: &Self, j: Json) {
        lemma_embedded_data_specification_unique(*self, *o, j->Object_0@);
    }
}

/// The content of a data specification after IEC 61360.
#[derive(Clone, Debug, PartialEq)]
pub struct DataSpecificationIec61360 {
    pub preferred_name: Vec<LangString>,
    pub short_name: Option<Vec<LangString>>,
    pub unit: Option<String>,
    pub unit_id: Option<Reference>,
    pub source_of_definition: Option<String>,
    pub symbol: Option<String>,
    pub data_type: Option<DataTypeIec61360>,
    pub definition: Option<LangString>,
    pub value_format: Option<String>,
    pub value_list: Option<Vec<ValueList>>,
    pub value: Option<String>,
    pub level_type: Option<LevelType>,
}

/// A name of the members of `DataSpecificationIec61360`.
pub open spec fn data_specification_iec61360_name(n: Seq<char>) -> bool {
    n == "modelType"@ || n == "preferredName"@ || n == "shortName"@ || n == "unit"@ || n == "unitId"@ || n == "sourceOfDefinition"@ || n == "symbol"@ || n == "dataType"@ || n == "definition"@ || n == "valueFormat"@ || n == "valueList"@ || n == "value"@ || n == "levelType"@
}

/// Looking up the members of `DataSpecificationIec61360` in `fs` finds what encoding writes for `x`.
pub open spec fn data_specification_iec61360_lookups(x: DataSpecificationIec61360, fs: Seq<(String, Json)>) -> bool {
    &&& lookup(fs, "modelType"@) matches Some(Json::Str(t)) && t@ == "DataSpecificationIec61360"@
    &&& req_encoded(x.preferred_name, lookup(fs, "preferredName"@))
    &&& opt_encoded(x.short_name, lookup(fs, "shortName"@))
    &&& opt_encoded(x.unit, lookup(fs, "unit"@))
    &&& opt_encoded(x.unit_id, lookup(fs, "unitId"@))
    &&& opt_encoded(x.source_of_definition, lookup(fs, "sourceOfDefinition"@))
    &&& opt_encoded(x.symbol, lookup(fs, "symbol"@))
    &&& opt_encoded(x.data_type, lookup(fs, "dataType"@))
    &&& opt_encoded(x.definition, lookup(fs, "definition"@))
    &&& opt_encoded(x.value_format, lookup(fs, "valueFormat"@))
    &&& opt_encoded(x.value_list, lookup(fs, "valueList"@))
    &&& opt_encoded(x.value, lookup(fs, "value"@))
    &&& opt_encoded(x.level_type, lookup(fs, "levelType"@))
}

/// `fs` are the members that encoding writes for `x`.
pub open spec fn data_specification_iec61360_encoded(x: DataSpecificationIec61360, fs: Seq<(String, Json)>) -> bool {
    &&& names_within(fs, |n: Seq<char>| data_specification_iec61360_name(n))
    &&& data_specification_iec61360_lookups(x, fs)
}

/// The members of `fs` decode to `x`.
pub open spec fn data_specification_iec61360_rel(x: DataSpecificationIec61360, fs: Seq<(String, Json)>) -> bool {
    &&& member(fs, "modelType"@) matches Some(Json::Str(t)) && t@ == "DataSpecificationIec61360"@
    &&& req_rel(x.preferred_name, member(fs, "preferredName"@))
    &&& opt_rel(x.short_name, member(fs, "shortName"@))
    &&& opt_rel(x.unit, member(fs, "unit"@))
    &&& opt_rel(x.unit_id, member(fs, "unitId"@))
    &&& opt_rel(x.source_of_definition, member(fs, "sourceOfDefinition"@))
    &&& opt_rel(x.symbol, member(fs, "symbol"@))
    &&& opt_rel(x.data_type, member(fs, "dataType"@))
    &&& opt_rel(x.definition, member(fs, "definition"@))
    &&& opt_rel(x.value_format, member(fs, "valueFormat"@))
    &&& opt_rel(x.value_list, member(fs, "valueList"@))
    &&& opt_rel(x.value, member(fs, "value"@))
    &&& opt_rel(x.level_type, member(fs, "levelType"@))
}

/// The error, if any, of decoding the members of `DataSpecificationIec61360` from `fs`.
pub open spec fn data_specification_iec61360_error(fs: Seq<(String, Json)>) -> Option<DecodeError> {
    match member(fs, "modelType"@) {
        None => Some(DecodeError::MissingField),
        Some(Json::Str(t)) => if t@ == "DataSpecificationIec61360"@ {
            match req_error::<Vec<LangString>>(member(fs, "preferredName"@)) {
                Some(e) => Some(e),
                None => {
                    match opt_error::<Vec<LangString>>(member(fs, "shortName"@)) {
                        Some(e) => Some(e),
                        None => {
                            match opt_error::<String>(member(fs, "unit"@)) {
                                Some(e) => Some(e),
                                None => {
                                    match opt_error::<Reference>(member(fs, "unitId"@)) {
                                        Some(e) => Some(e),
                                        None => {
                                            match opt_error::<String>(member(fs, "sourceOfDefinition"@)) {
                                                Some(e) => Some(e),
                                                None => {
                                                    match opt_error::<String>(member(fs, "symbol"@)) {
                                                        Some(e) => Some(e),
                                                        None => {
                                                            match opt_error::<DataTypeIec61360>(member(fs, "dataType"@)) {
                                                                Some(e) => Some(e),
                                                                None => {
                                                                    match opt_error::<LangString>(member(fs, "definition"@)) {
                                                                        Some(e) => Some(e),
                                                                        None => {
                                                                            match opt_error::<String>(member(fs, "valueFormat"@)) {
                                                                                Some(e) => Some(e),
                                                                                None => {
                                                                                    match opt_error::<Vec<ValueList>>(member(fs, "valueList"@)) {
                                                                                        Some(e) => Some(e),
                                                                                        None => {
                                                                                            match opt_error::<String>(member(fs, "value"@)) {
                                                                                                Some(e) => Some(e),
                                                                                                None => {
                                                                                                    match opt_error::<LevelType>(member(fs, "levelType"@)) {
                                                                                                        Some(e) => Some(e),
                                                                                                        None => {
                                                                                                            None
                                                                                                        },
                                                                                                    }
                                                                                                },
                                                                                            }
                                                                                        },
                                                                                    }
                                                                                },
                                                                            }
                                                                        },
                                                                    }
                                                                },
                                                            }
                                                        },
                                                    }
                                                },
                                            }
                                        },
                                    }
                                },
                            }
                        },
                    }
                },
            }
        } else {
            Some(DecodeError::UnknownDiscriminator)
        },
        Some(_) => Some(DecodeError::UnexpectedKind),
    }
}

/// The values of `x` are well-formed.
pub open spec fn data_specification_iec61360_wf(x: DataSpecificationIec61360) -> bool {
    &&& x.preferred_name.wf()
    &&& opt_wf(x.short_name)
    &&& opt_wf(x.unit)
    &&& opt_wf(x.unit_id)
    &&& opt_wf(x.source_of_definition)
    &&& opt_wf(x.symbol)
    &&& opt_wf(x.data_type)
    &&& opt_wf(x.definition)
    &&& opt_wf(x.value_format)
    &&& opt_wf(x.value_list)
    &&& opt_wf(x.value)
    &&& opt_wf(x.level_type)
}

/// `x` and `y` hold the same content.
pub open spec fn data_specification_iec61360_equiv(x: DataSpecificationIec61360, y: DataSpecificationIec61360) -> bool {
    &&& x.preferred_name.equiv(&y.preferred_name)
    &&& opt_equiv(x.short_name, y.short_name)
    &&& opt_equiv(x.unit, y.unit)
    &&& opt_equiv(x.unit_id, y.unit_id)
    &&& opt_equiv(x.source_of_definition, y.source_of_definition)
    &&& opt_equiv(x.symbol, y.symbol)
    &&& opt_equiv(x.data_type, y.data_type)
    &&& opt_equiv(x.definition, y.definition)
    &&& opt_equiv(x.value_format, y.value_format)
    &&& opt_equiv(x.value_list, y.value_list)
    &&& opt_equiv(x.value, y.value)
    &&& opt_equiv(x.level_type, y.level_type)
}

/// A name of the members of `DataSpecificationIec61360` written by its encoding step 0.
pub open spec fn data_specification_iec61360_chunk0_name(n: Seq<char>) -> bool {
    n == "modelType"@ || n == "preferredName"@ || n == "shortName"@ || n == "unit"@ || n == "unitId"@ || n == "sourceOfDefinition"@
}

/// Looking up the members of encoding step 0 of `DataSpecificationIec61360` in `fs` finds what it writes for `x`.
pub open spec fn data_specification_iec61360_chunk0_lookups(x: DataSpecificationIec61360, fs: Seq<(String, Json)>) -> bool {
    &&& lookup(fs, "modelType"@) matches Some(Json::Str(t)) && t@ == "DataSpecificationIec61360"@
    &&& req_encoded(x.preferred_name, lookup(fs, "preferredName"@))
    &&& opt_encoded(x.short_name, lookup(fs, "shortName"@))
    &&& opt_encoded(x.unit, lookup(fs, "unit"@))
    &&& opt_encoded(x.unit_id, lookup(fs, "unitId"@))
    &&& opt_encoded(x.source_of_definition, lookup(fs, "sourceOfDefinition"@))
}

/// A name of the members of `DataSpecificationIec61360` written by its encoding step 1.
pub open spec fn data_specification_iec61360_chunk1_name(n: Seq<char>) -> bool {
    n == "symbol"@ || n == "dataType"@ || n == "definition"@ || n == "valueFormat"@ || n == "valueList"@ || n == "value"@
}

/// Looking up the members of encoding step 1 of `DataSpecificationIec61360` in `fs` finds what it writes for `x`.
pub open spec fn data_specification_iec61360_chunk1_lookups(x: DataSpecificationIec61360, fs: Seq<(String, Json)>) -> bool {
    &&& opt_encoded(x.symbol, lookup(fs, "symbol"@))
    &&& opt_encoded(x.data_type, lookup(fs, "dataType"@))
    &&& opt_encoded(x.definition, lookup(fs, "definition"@))
    &&& opt_encoded(x.value_format, lookup(fs, "valueFormat"@))
    &&& opt_encoded(x.value_list, lookup(fs, "valueList"@))
    &&& opt_encoded(x.value, lookup(fs, "value"@))
}

/// A name of the members of `DataSpecificationIec61360` written by its encoding step 2.
pub open spec fn data_specification_iec61360_chunk2_name(n: Seq<char>) -> bool {
    n == "levelType"@
}

/// Looking up the members of encoding step 2 of `DataSpecificationIec61360` in `fs` finds what it writes for `x`.
pub open spec fn data_specification_iec61360_chunk2_lookups(x: DataSpecificationIec61360, fs: Seq<(String, Json)>) -> bool {
    &&& opt_encoded(x.level_type, lookup(fs, "levelType"@))
}

impl DataSpecificationIec61360 {
    /// Writes the members of encoding step 0, absent ones left out.
    #[verifier::rlimit(100)]
    #[verifier::spinoff_prover]
    fn encode_step0(&self) -> (r: Vec<(String, Json)>)
        ensures
            names_within(r@, |n: Seq<char>| data_specification_iec61360_chunk0_name(n)),
            data_specification_iec61360_chunk0_lookups(*self, r@),
    {
        proof {
            reveal_strlit("modelType");
            reveal_strlit("preferredName");
            reveal_strlit("shortName");
            reveal_strlit("unit");
            reveal_strlit("unitId");
            reveal_strlit("sourceOfDefinition");
            assert("modelType"@.len() == 9 && "preferredName"@.len() == 13);
            assert("modelType"@[0] != "shortName"@[0]);
            assert("modelType"@.len() == 9 && "unit"@.len() == 4);
            assert("modelType"@.len() == 9 && "unitId"@.len() == 6);
            assert("modelType"@.len() == 9 && "sourceOfDefinition"@.len() == 18);
            assert("preferredName"@.len() == 13 && "modelType"@.len() == 9);
            assert("preferredName"@.len() == 13 && "shortName"@.len() == 9);
            assert("preferredName"@.len() == 13 && "unit"@.len() == 4);
            assert("preferredName"@.len() == 13 && "unitId"@.len() == 6);
            assert("preferredName"@.len() == 13 && "sourceOfDefinition"@.len() == 18);
            assert("shortName"@[0] != "modelType"@[0]);
            assert("shortName"@.len() == 9 && "preferredName"@.len() == 13);
            assert("shortName"@.len() == 9 && "unit"@.len() == 4);
            assert("shortName"@.len() == 9 && "unitId"@.len() == 6);
            assert("shortName"@.len() == 9 && "sourceOfDefinition"@.len() == 18);
            assert("unit"@.len() == 4 && "modelType"@.len() == 9);
            assert("unit"@.len() == 4 && "preferredName"@.len() == 13);
            assert("unit"@.len() == 4 && "shortName"@.len() == 9);
            assert("unit"@.len() == 4 && "unitId"@.len() == 6);
            assert("unit"@.len() == 4 && "sourceOfDefinition"@.len() == 18);
            assert("unitId"@.len() == 6 && "modelType"@.len() == 9);
            assert("unitId"@.len() == 6 && "preferredName"@.len() == 13);
            assert("unitId"@.len() == 6 && "shortName"@.len() == 9);
            assert("unitId"@.len() == 6 && "unit"@.len() == 4);
            assert("unitId"@.len() == 6 && "sourceOfDefinition"@.len() == 18);
            assert("sourceOfDefinition"@.len() == 18 && "modelType"@.len() == 9);
            assert("sourceOfDefinition"@.len() == 18 && "preferredName"@.len() == 13);
            assert("sourceOfDefinition"@.len() == 18 && "shortName"@.len() == 9);
            assert("sourceOfDefinition"@.len() == 18 && "unit"@.len() == 4);
            assert("sourceOfDefinition"@.len() == 18 && "unitId"@.len() == 6);
        }
        let mut fs: Vec<(String, Json)> = Vec::new();
        let ghost prev = fs@;
        fs.push(field("modelType", Json::Str("DataSpecificationIec61360".to_string())));
        proof {
            lemma_names_within_empty(prev, |n: Seq<char>| n == "modelType"@);
            if true {
                assert(fs@ == prev.push(fs@.last()));
                lemma_names_within_push(prev, fs@.last(), |n: Seq<char>| n == "modelType"@);
                lemma_lookup_push(prev, fs@.last(), "modelType"@);
            }
        }
        let ghost prev = fs@;
        push_req(&mut fs, "preferredName", &self.preferred_name);
        proof {
            lemma_names_within_weaken(prev, |n: Seq<char>| n == "modelType"@, |n: Seq<char>| n == "modelType"@ || n == "preferredName"@);
            lemma_lookup_outside(prev, |n: Seq<char>| n == "modelType"@, "preferredName"@);
            if true {
                assert(fs@ == prev.push(fs@.last()));
                lemma_names_within_push(prev, fs@.last(), |n: Seq<char>| n == "modelType"@ || n == "preferredName"@);
                lemma_lookup_push(prev, fs@.last(), "modelType"@);
                lemma_lookup_push(prev, fs@.last(), "preferredName"@);
            }
        }
        let ghost prev = fs@;
        push_opt(&mut fs, "shortName", &self.short_name);
        proof {
            lemma_names_within_weaken(prev, |n: Seq<char>| n == "modelType"@ || n == "preferredName"@, |n: Seq<char>| n == "modelType"@ || n == "preferredName"@ || n == "shortName"@);
            lemma_lookup_outside(prev, |n: Seq<char>| n == "modelType"@ || n == "preferredName"@, "shortName"@);
            if self.short_name is Some {
                assert(fs@ == prev.push(fs@.last()));
                lemma_names_within_push(prev, fs@.last(), |n: Seq<char>| n == "modelType"@ || n == "preferredName"@ || n == "shortName"@);
                lemma_lookup_push(prev, fs@.last(), "modelType"@);
                lemma_lookup_push(prev, fs@.last(), "preferredName"@);
                lemma_lookup_push(prev, fs@.last(), "shortName"@);
            }
        }
        let ghost prev = fs@;
        push_opt(&mut fs, "unit", &self.unit);
        proof {
            lemma_names_within_weaken(prev, |n: Seq<char>| n == "modelType"@ || n == "preferredName"@ || n == "shortName"@, |n: Seq<char>| n == "modelType"@ || n == "preferredName"@ || n == "shortName"@ || n == "unit"@);
            lemma_lookup_outside(prev, |n: Seq<char>| n == "modelType"@ || n == "preferredName"@ || n == "shortName"@, "unit"@);
            if self.unit is Some {
                assert(fs@ == prev.push(fs@.last()));
                lemma_names_within_push(prev, fs@.last(), |n: Seq<char>| n == "modelType"@ || n == "preferredName"@ || n == "shortName"@ || n == "unit"@);
                lemma_lookup_push(prev, fs@.last(), "modelType"@);
                lemma_lookup_push(prev, fs@.last(), "preferredName"@);
                lemma_lookup_push(prev, fs@.last(), "shortName"@);
                lemma_lookup_push(prev, fs@.last(), "unit"@);
            }
        }
        let ghost prev = fs@;
        push_opt(&mut fs, "unitId", &self.unit_id);
        proof {
            lemma_names_within_weaken(prev, |n: Seq<char>| n == "modelType"@ || n == "preferredName"@ || n == "shortName"@ || n == "unit"@, |n: Seq<char>| n == "modelType"@ || n == "preferredName"@ || n == "shortName"@ || n == "unit"@ || n == "unitId"@);
            lemma_lookup_outside(prev, |n: Seq<char>| n == "modelType"@ || n == "preferredName"@ || n == "shortName"@ || n == "unit"@, "unitId"@);
            if self.unit_id is Some {
                assert(fs@ == prev.push(fs@.last()));
                lemma_names_within_push(prev, fs@.last(), |n: Seq<char>| n == "modelType"@ || n == "preferredName"@ || n == "shortName"@ || n == "unit"@ || n == "unitId"@);
                lemma_lookup_push(prev, fs@.last(), "modelType"@);
                lemma_lookup_push(prev, fs@.last(), "preferredName"@);
                lemma_lookup_push(prev, fs@.last(), "shortName"@);
                lemma_lookup_push(prev, fs@.last(), "unit"@);
                lemma_lookup_push(prev, fs@.last(), "unitId"@);
            }
        }
        let ghost prev = fs@;
        push_opt(&mut fs, "sourceOfDefinition", &self.source_of_definition);
        proof {
            lemma_names_within_weaken(prev, |n: Seq<char>| n == "modelType"@ || n == "preferredName"@ || n == "shortName"@ || n == "unit"@ || n == "unitId"@, |n: Seq<char>| data_specification_iec61360_chunk0_name(n));
            lemma_lookup_outside(prev, |n: Seq<char>| n == "modelType"@ || n == "preferredName"@ || n == "shortName"@ || n == "unit"@ || n == "unitId"@, "sourceOfDefinition"@);
            if self.source_of_definition is Some {
                assert(fs@ == prev.push(fs@.last()));
                lemma_names_within_push(prev, fs@.last(), |n: Seq<char>| data_specification_iec61360_chunk0_name(n));
                lemma_lookup_push(prev, fs@.last(), "modelType"@);
                lemma_lookup_push(prev, fs@.last(), "preferredName"@);
                lemma_lookup_push(prev, fs@.last(), "shortName"@);
                lemma_lookup_push(prev, fs@.last(), "unit"@);
                lemma_lookup_push(prev, fs@.last(), "unitId"@);
                lemma_lookup_push(prev, fs@.last(), "sourceOfDefinition"@);
            }
        }
        fs
    }

    /// Writes the members of encoding step 1, absent ones left out.
    #[verifier::rlimit(100)]
    #[verifier::spinoff_prover]
    fn encode_step1(&self) -> (r: Vec<(String, Json)>)
        ensures
            names_within(r@, |n: Seq<char>| data_specification_iec61360_chunk1_name(n)),
            data_specification_iec61360_chunk1_lookups(*self, r@),
    {
        proof {
            reveal_strlit("symbol");
            reveal_strlit("dataType");
            reveal_strlit("definition");
            reveal_strlit("valueFormat");
            reveal_strlit("valueList");
            reveal_strlit("value");
            assert("symbol"@.len() == 6 && "dataType"@.len() == 8);
            assert("symbol"@.len() == 6 && "definition"@.len() == 10);
            assert("symbol"@.len() == 6 && "valueFormat"@.len() == 11);
            assert("symbol"@.len() == 6 && "valueList"@.len() == 9);
            assert("symbol"@.len() == 6 && "value"@.len() == 5);
            assert("dataType"@.len() == 8 && "symbol"@.len() == 6);
            assert("dataType"@.len() == 8 && "definition"@.len() == 10);
            assert("dataType"@.len() == 8 && "valueFormat"@.len() == 11);
            assert("dataType"@.len() == 8 && "valueList"@.len() == 9);
            assert("dataType"@.len() == 8 && "value"@.len() == 5);
            assert("definition"@.len() == 10 && "symbol"@.len() == 6);
            assert("definition"@.len() == 10 && "dataType"@.len() == 8);
            assert("definition"@.len() == 10 && "valueFormat"@.len() == 11);
            assert("definition"@.len() == 10 && "valueList"@.len() == 9);
            assert("definition"@.len() == 10 && "value"@.len() == 5);
            assert("valueFormat"@.len() == 11 && "symbol"@.len() == 6);
            assert("valueFormat"@.len() == 11 && "dataType"@.len() == 8);
            assert("valueFormat"@.len() == 11 && "definition"@.len() == 10);
            assert("valueFormat"@.len() == 11 && "valueList"@.len() == 9);
            assert("valueFormat"@.len() == 11 && "value"@.len() == 5);
            assert("valueList"@.len() == 9 && "symbol"@.len() == 6);
            assert("valueList"@.len() == 9 && "dataType"@.len() == 8);
            assert("valueList"@.len() == 9 && "definition"@.len() == 10);
            assert("valueList"@.len() == 9 && "valueFormat"@.len() == 11);
            assert("valueList"@.len() == 9 && "value"@.len() == 5);
            assert("value"@.len() == 5 && "symbol"@.len() == 6);
            assert("value"@.len() == 5 && "dataType"@.len() == 8);
            assert("value"@.len() == 5 && "definition"@.len() == 10);
            assert("value"@.len() == 5 && "valueFormat"@.len() == 11);
            assert("value"@.len() == 5 && "valueList"@.len() == 9);
        }
        let mut fs: Vec<(String, Json)> = Vec::new();
        let ghost prev = fs@;
        push_opt(&mut fs, "symbol", &self.symbol);
        proof {
            lemma_names_within_empty(prev, |n: Seq<char>| n == "symbol"@);
            if self.symbol is Some {
                assert(fs@ == prev.push(fs@.last()));
                lemma_names_within_push(prev, fs@.last(), |n: Seq<char>| n == "symbol"@);
                lemma_lookup_push(prev, fs@.last(), "symbol"@);
            }
        }
        let ghost prev = fs@;
        push_opt(&mut fs, "dataType", &self.data_type);
        proof {
            lemma_names_within_weaken(prev, |n: Seq<char>| n == "symbol"@, |n: Seq<char>| n == "symbol"@ || n == "dataType"@);
            lemma_lookup_outside(prev, |n: Seq<char>| n == "symbol"@, "dataType"@);
            if self.data_type is Some {
                assert(fs@ == prev.push(fs@.last()));
                lemma_names_within_push(prev, fs@.last(), |n: Seq<char>| n == "symbol"@ || n == "dataType"@);
                lemma_lookup_push(prev, fs@.last(), "symbol"@);
                lemma_lookup_push(prev, fs@.last(), "dataType"@);
            }
        }
        let ghost prev = fs@;
        push_opt(&mut fs, "definition", &self.definition);
        proof {
            lemma_names_within_weaken(prev, |n: Seq<char>| n == "symbol"@ || n == "dataType"@, |n: Seq<char>| n == "symbol"@ || n == "dataType"@ || n == "definition"@);
            lemma_lookup_outside(prev, |n: Seq<char>| n == "symbol"@ || n == "dataType"@, "definition"@);
            if self.definition is Some {
                assert(fs@ == prev.push(fs@.last()));
                lemma_names_within_push(prev, fs@.last(), |n: Seq<char>| n == "symbol"@ || n == "dataType"@ || n == "definition"@);
                lemma_lookup_push(prev, fs@.last(), "symbol"@);
                lemma_lookup_push(prev, fs@.last(), "dataType"@);
                lemma_lookup_push(prev, fs@.last(), "definition"@);
            }
        }
        let ghost prev = fs@;
        push_opt(&mut fs, "valueFormat", &self.value_format);
        proof {
            lemma_names_within_weaken(prev, |n: Seq<char>| n == "symbol"@ || n == "dataType"@ || n == "definition"@, |n: Seq<char>| n == "symbol"@ || n == "dataType"@ || n == "definition"@ || n == "valueFormat"@);
            lemma_lookup_outside(prev, |n: Seq<char>| n == "symbol"@ || n == "dataType"@ || n == "definition"@, "valueFormat"@);
            if self.value_format is Some {
                assert(fs@ == prev.push(fs@.last()));
                lemma_names_within_push(prev, fs@.last(), |n: Seq<char>| n == "symbol"@ || n == "dataType"@ || n == "definition"@ || n == "valueFormat"@);
                lemma_lookup_push(prev, fs@.last(), "symbol"@);
                lemma_lookup_push(prev, fs@.last(), "dataType"@);
                lemma_lookup_push(prev, fs@.last(), "definition"@);
                lemma_lookup_push(prev, fs@.last(), "valueFormat"@);
            }
        }
        let ghost prev = fs@;
        push_opt(&mut fs, "valueList", &self.value_list);
        proof {
            lemma_names_within_weaken(prev, |n: Seq<char>| n == "symbol"@ || n == "dataType"@ || n == "definition"@ || n == "valueFormat"@, |n: Seq<char>| n == "symbol"@ || n == "dataType"@ || n == "definition"@ || n == "valueFormat"@ || n == "valueList"@);
            lemma_lookup_outside(prev, |n: Seq<char>| n == "symbol"@ || n == "dataType"@ || n == "definition"@ || n == "valueFormat"@, "valueList"@);
            if self.value_list is Some {
                assert(fs@ == prev.push(fs@.last()));
                lemma_names_within_push(prev, fs@.last(), |n: Seq<char>| n == "symbol"@ || n == "dataType"@ || n == "definition"@ || n == "valueFormat"@ || n == "valueList"@);
                lemma_lookup_push(prev, fs@.last(), "symbol"@);
                lemma_lookup_push(prev, fs@.last(), "dataType"@);
                lemma_lookup_push(prev, fs@.last(), "definition"@);
                lemma_lookup_push(prev, fs@.last(), "valueFormat"@);
                lemma_lookup_push(prev, fs@.last(), "valueList"@);
            }
        }
        let ghost prev = fs@;
        push_opt(&mut fs, "value", &self.value);
        proof {
            lemma_names_within_weaken(prev, |n: Seq<char>| n == "symbol"@ || n == "dataType"@ || n == "definition"@ || n == "valueFormat"@ || n == "valueList"@, |n: Seq<char>| data_specification_iec61360_chunk1_name(n));
            lemma_lookup_outside(prev, |n: Seq<char>| n == "symbol"@ || n == "dataType"@ || n == "definition"@ || n == "valueFormat"@ || n == "valueList"@, "value"@);
            if self.value is Some {
                assert(fs@ == prev.push(fs@.last()));
                lemma_names_within_push(prev, fs@.last(), |n: Seq<char>| data_specification_iec61360_chunk1_name(n));
                lemma_lookup_push(prev, fs@.last(), "symbol"@);
                lemma_lookup_push(prev, fs@.last(), "dataType"@);
                lemma_lookup_push(prev, fs@.last(), "definition"@);
                lemma_lookup_push(prev, fs@.last(), "valueFormat"@);
                lemma_lookup_push(prev, fs@.last(), "valueList"@);
                lemma_lookup_push(prev, fs@.last(), "value"@);
            }
        }
        fs
    }

    /// Writes the members of encoding step 2, absent ones left out.
    fn encode_step2(&self) -> (r: Vec<(String, Json)>)
        ensures
            names_within(r@, |n: Seq<char>| data_specification_iec61360_chunk2_name(n)),
            data_specification_iec61360_chunk2_lookups(*self, r@),
    {
        proof {
            reveal_strlit("levelType");
        }
        let mut fs: Vec<(String, Json)> = Vec::new();
        let ghost prev = fs@;
        push_opt(&mut fs, "levelType", &self.level_type);
        proof {
            lemma_names_within_empty(prev, |n: Seq<char>| data_specification_iec61360_chunk2_name(n));
            if self.level_type is Some {
                assert(fs@ == prev.push(fs@.last()));
                lemma_names_within_push(prev, fs@.last(), |n: Seq<char>| data_specification_iec61360_chunk2_name(n));
                lemma_lookup_push(prev, fs@.last(), "levelType"@);
            }
        }
        fs
    }

    /// Writes the members of the value, absent ones left out.
    pub fn encode_members(&self) -> (r: Vec<(String, Json)>)
        ensures
            data_specification_iec61360_encoded(*self, r@),
    {
        proof {
            reveal_strlit("modelType");
            reveal_strlit("preferredName");
            reveal_strlit("shortName");
            reveal_strlit("unit");
            reveal_strlit("unitId");
            reveal_strlit("sourceOfDefinition");
            reveal_strlit("symbol");
            reveal_strlit("dataType");
            reveal_strlit("definition");
            reveal_strlit("valueFormat");
            reveal_strlit("valueList");
            reveal_strlit("value");
            reveal_strlit("levelType");
            assert("modelType"@.len() == 9 && "preferredName"@.len() == 13);
            assert("modelType"@[0] != "shortName"@[0]);
            assert("modelType"@.len() == 9 && "unit"@.len() == 4);
            assert("modelType"@.len() == 9 && "unitId"@.len() == 6);
            assert("modelType"@.len() == 9 && "sourceOfDefinition"@.len() == 18);
            assert("modelType"@.len() == 9 && "symbol"@.len() == 6);
            assert("modelType"@.len() == 9 && "dataType"@.len() == 8);
            assert("modelType"@.len() == 9 && "definition"@.len() == 10);
            assert("modelType"@.len() == 9 && "valueFormat"@.len() == 11);
            assert("modelType"@[0] != "valueList"@[0]);
            assert("modelType"@.len() == 9 && "value"@.len() == 5);
            assert("modelType"@[0] != "levelType"@[0]);
            assert("preferredName"@.len() == 13 && "modelType"@.len() == 9);
            assert("preferredName"@.len() == 13 && "shortName"@.len() == 9);
            assert("preferredName"@.len() == 13 && "unit"@.len() == 4);
            assert("preferredName"@.len() == 13 && "unitId"@.len() == 6);
            assert("preferredName"@.len() == 13 && "sourceOfDefinition"@.len() == 18);
            assert("preferredName"@.len() == 13 && "symbol"@.len() == 6);
            assert("preferredName"@.len() == 13 && "dataType"@.len() == 8);
            assert("preferredName"@.len() == 13 && "definition"@.len() == 10);
            assert("preferredName"@.len() == 13 && "valueFormat"@.len() == 11);
            assert("preferredName"@.len() == 13 && "valueList"@.len() == 9);
            assert("preferredName"@.len() == 13 && "value"@.len() == 5);
            assert("preferredName"@.len() == 13 && "levelType"@.len() == 9);
            assert("shortName"@[0] != "modelType"@[0]);
            assert("shortName"@.len() == 9 && "preferredName"@.len() == 13);
            assert("shortName"@.len() == 9 && "unit"@.len() == 4);
            assert("shortName"@.len() == 9 && "unitId"@.len() == 6);
            assert("shortName"@.len() == 9 && "sourceOfDefinition"@.len() == 18);
            assert("shortName"@.len() == 9 && "symbol"@.len() == 6);
            assert("shortName"@.len() == 9 && "dataType"@.len() == 8);
            assert("shortName"@.len() == 9 && "definition"@.len() == 10);
            assert("shortName"@.len() == 9 && "valueFormat"@.len() == 11);
            assert("shortName"@[0] != "valueList"@[0]);
            assert("shortName"@.len() == 9 && "value"@.len() == 5);
            assert("shortName"@[0] != "levelType"@[0]);
            assert("unit"@.len() == 4 && "modelType"@.len() == 9);
            assert("unit"@.len() == 4 && "preferredName"@.len() == 13);
            assert("unit"@.len() == 4 && "shortName"@.len() == 9);
            assert("unit"@.len() == 4 && "unitId"@.len() == 6);
            assert("unit"@.len() == 4 && "sourceOfDefinition"@.len() == 18);
            assert("unit"@.len() == 4 && "symbol"@.len() == 6);
            assert("unit"@.len() == 4 && "dataType"@.len() == 8);
            assert("unit"@.len() == 4 && "definition"@.len() == 10);
            assert("unit"@.len() == 4 && "valueFormat"@.len() == 11);
            assert("unit"@.len() == 4 && "valueList"@.len() == 9);
            assert("unit"@.len() == 4 && "value"@.len() == 5);
            assert("unit"@.len() == 4 && "levelType"@.len() == 9);
            assert("unitId"@.len() == 6 && "modelType"@.len() == 9);
            assert("unitId"@.len() == 6 && "preferredName"@.len() == 13);
            assert("unitId"@.len() == 6 && "shortName"@.len() == 9);
            assert("unitId"@.len() == 6 && "unit"@.len() == 4);
            assert("unitId"@.len() == 6 && "sourceOfDefinition"@.len() == 18);
            assert("unitId"@[0] != "symbol"@[0]);
            assert("unitId"@.len() == 6 && "dataType"@.len() == 8);
            assert("unitId"@.len() == 6 && "definition"@.len() == 10);
            assert("unitId"@.len() == 6 && "valueFormat"@.len() == 11);
            assert("unitId"@.len() == 6 && "valueList"@.len() == 9);
            assert("unitId"@.len() == 6 && "value"@.len() == 5);
            assert("unitId"@.len() == 6 && "levelType"@.len() == 9);
            assert("sourceOfDefinition"@.len() == 18 && "modelType"@.len() == 9);
            assert("sourceOfDefinition"@.len() == 18 && "preferredName"@.len() == 13);
            assert("sourceOfDefinition"@.len() == 18 && "shortName"@.len() == 9);
            assert("sourceOfDefinition"@.len() == 18 && "unit"@.len() == 4);
            assert("sourceOfDefinition"@.len() == 18 && "unitId"@.len() == 6);
            assert("sourceOfDefinition"@.len() == 18 && "symbol"@.len() == 6);
            assert("sourceOfDefinition"@.len() == 18 && "dataType"@.len() == 8);
            assert("sourceOfDefinition"@.len() == 18 && "definition"@.len() == 10);
            assert("sourceOfDefinition"@.len() == 18 && "valueFormat"@.len() == 11);
            assert("sourceOfDefinition"@.len() == 18 && "valueList"@.len() == 9);
            assert("sourceOfDefinition"@.len() == 18 && "value"@.len() == 5);
            assert("sourceOfDefinition"@.len() == 18 && "levelType"@.len() == 9);
            assert("symbol"@.len() == 6 && "modelType"@.len() == 9);
            assert("symbol"@.len() == 6 && "preferredName"@.len() == 13);
            assert("symbol"@.len() == 6 && "shortName"@.len() == 9);
            assert("symbol"@.len() == 6 && "unit"@.len() == 4);
            assert("symbol"@[0] != "unitId"@[0]);
            assert("symbol"@.len() == 6 && "sourceOfDefinition"@.len() == 18);
            assert("symbol"@.len() == 6 && "dataType"@.len() == 8);
            assert("symbol"@.len() == 6 && "definition"@.len() == 10);
            assert("symbol"@.len() == 6 && "valueFormat"@.len() == 11);
            assert("symbol"@.len() == 6 && "valueList"@.len() == 9);
            assert("symbol"@.len() == 6 && "value"@.len() == 5);
            assert("symbol"@.len() == 6 && "levelType"@.len() == 9);
            assert("dataType"@.len() == 8 && "modelType"@.len() == 9);
            assert("dataType"@.len() == 8 && "preferredName"@.len() == 13);
            assert("dataType"@.len() == 8 && "shortName"@.len() == 9);
            assert("dataType"@.len() == 8 && "unit"@.len() == 4);
            assert("dataType"@.len() == 8 && "unitId"@.len() == 6);
            assert("dataType"@.len() == 8 && "sourceOfDefinition"@.len() == 18);
            assert("dataType"@.len() == 8 && "symbol"@.len() == 6);
            assert("dataType"@.len() == 8 && "definition"@.len() == 10);
            assert("dataType"@.len() == 8 && "valueFormat"@.len() == 11);
            assert("dataType"@.len() == 8 && "valueList"@.len() == 9);
            assert("dataType"@.len() == 8 && "value"@.len() == 5);
            assert("dataType"@.len() == 8 && "levelType"@.len() == 9);
            assert("definition"@.len() == 10 && "modelType"@.len() == 9);
            assert("definition"@.len() == 10 && "preferredName"@.len() == 13);
            assert("definition"@.len() == 10 && "shortName"@.len() == 9);
            assert("definition"@.len() == 10 && "unit"@.len() == 4);
            assert("definition"@.len() == 10 && "unitId"@.len() == 6);
            assert("definition"@.len() == 10 && "sourceOfDefinition"@.len() == 18);
            assert("definition"@.len() == 10 && "symbol"@.len() == 6);
            assert("definition"@.len() == 10 && "dataType"@.len() == 8);
            assert("definition"@.len() == 10 && "valueFormat"@.len() == 11);
            assert("definition"@.len() == 10 && "valueList"@.len() == 9);
            assert("definition"@.len() == 10 && "value"@.len() == 5);
            assert("definition"@.len() == 10 && "levelType"@.len() == 9);
            assert("valueFormat"@.len() == 11 && "modelType"@.len() == 9);
            assert("valueFormat"@.len() == 11 && "preferredName"@.len() == 13);
            assert("valueFormat"@.len() == 11 && "shortName"@.len() == 9);
            assert("valueFormat"@.len() == 11 && "unit"@.len() == 4);
            assert("valueFormat"@.len() == 11 && "unitId"@.len() == 6);
            assert("valueFormat"@.len() == 11 && "sourceOfDefinition"@.len() == 18);
            assert("valueFormat"@.len() == 11 && "symbol"@.len() == 6);
            assert("valueFormat"@.len() == 11 && "dataType"@.len() == 8);
            assert("valueFormat"@.len() == 11 && "definition"@.len() == 10);
            assert("valueFormat"@.len() == 11 && "valueList"@.len() == 9);
            assert("valueFormat"@.len() == 11 && "value"@.len() == 5);
            assert("valueFormat"@.len() == 11 && "levelType"@.len() == 9);
            assert("valueList"@[0] != "modelType"@[0]);
            assert("valueList"@.len() == 9 && "preferredName"@.len() == 13);
            assert("valueList"@[0] != "shortName"@[0]);
            assert("valueList"@.len() == 9 && "unit"@.len() == 4);
            assert("valueList"@.len() == 9 && "unitId"@.len() == 6);
            assert("valueList"@.len() == 9 && "sourceOfDefinition"@.len() == 18);
            assert("valueList"@.len() == 9 && "symbol"@.len() == 6);
            assert("valueList"@.len() == 9 && "dataType"@.len() == 8);
            assert("valueList"@.len() == 9 && "definition"@.len() == 10);
            assert("valueList"@.len() == 9 && "valueFormat"@.len() == 11);
            assert("valueList"@.len() == 9 && "value"@.len() == 5);
            assert("valueList"@[0] != "levelType"@[0]);
            assert("value"@.len() == 5 && "modelType"@.len() == 9);
            assert("value"@.len() == 5 && "preferredName"@.len() == 13);
            assert("value"@.len() == 5 && "shortName"@.len() == 9);
            assert("value"@.len() == 5 && "unit"@.len() == 4);
            assert("value"@.len() == 5 && "unitId"@.len() == 6);
            assert("value"@.len() == 5 && "sourceOfDefinition"@.len() == 18);
            assert("value"@.len() == 5 && "symbol"@.len() == 6);
            assert("value"@.len() == 5 && "dataType"@.len() == 8);
            assert("value"@.len() == 5 && "definition"@.len() == 10);
            assert("value"@.len() == 5 && "valueFormat"@.len() == 11);
            assert("value"@.len() == 5 && "valueList"@.len() == 9);
            assert("value"@.len() == 5 && "levelType"@.len() == 9);
            assert("levelType"@[0] != "modelType"@[0]);
            assert("levelType"@.len() == 9 && "preferredName"@.len() == 13);
            assert("levelType"@[0] != "shortName"@[0]);
            assert("levelType"@.len() == 9 && "unit"@.len() == 4);
            assert("levelType"@.len() == 9 && "unitId"@.len() == 6);
            assert("levelType"@.len() == 9 && "sourceOfDefinition"@.len() == 18);
            assert("levelType"@.len() == 9 && "symbol"@.len() == 6);
            assert("levelType"@.len() == 9 && "dataType"@.len() == 8);
            assert("levelType"@.len() == 9 && "definition"@.len() == 10);
            assert("levelType"@.len() == 9 && "valueFormat"@.len() == 11);
            assert("levelType"@[0] != "valueList"@[0]);
            assert("levelType"@.len() == 9 && "value"@.len() == 5);
        }
        let mut fs: Vec<(String, Json)> = Vec::new();
        let ghost prev = fs@;
        let mut part = self.encode_step0();
        let ghost sp = part@;
        fs.append(&mut part);
        proof {
            lemma_names_within_empty(prev, |n: Seq<char>| data_specification_iec61360_chunk0_name(n));
            lemma_names_within_concat(prev, sp, |n: Seq<char>| data_specification_iec61360_chunk0_name(n), |n: Seq<char>| data_specification_iec61360_chunk0_name(n), |n: Seq<char>| data_specification_iec61360_chunk0_name(n));
            lemma_lookup_concat(prev, sp, "modelType"@);
            assert(prev.len() == 0);
            lemma_lookup_concat(prev, sp, "preferredName"@);
            assert(prev.len() == 0);
            lemma_lookup_concat(prev, sp, "shortName"@);
            assert(prev.len() == 0);
            lemma_lookup_concat(prev, sp, "unit"@);
            assert(prev.len() == 0);
            lemma_lookup_concat(prev, sp, "unitId"@);
            assert(prev.len() == 0);
            lemma_lookup_concat(prev, sp, "sourceOfDefinition"@);
            assert(prev.len() == 0);
        }
        let ghost prev = fs@;
        let mut part = self.encode_step1();
        let ghost sp = part@;
        fs.append(&mut part);
        proof {
            lemma_names_within_concat(prev, sp, |n: Seq<char>| data_specification_iec61360_chunk0_name(n), |n: Seq<char>| data_specification_iec61360_chunk1_name(n), |n: Seq<char>| data_specification_iec61360_chunk0_name(n) || data_specification_iec61360_chunk1_name(n));
            lemma_lookup_concat(prev, sp, "modelType"@);
            lemma_lookup_outside(sp, |n: Seq<char>| data_specification_iec61360_chunk1_name(n), "modelType"@);
            lemma_lookup_concat(prev, sp, "preferredName"@);
            lemma_lookup_outside(sp, |n: Seq<char>| data_specification_iec61360_chunk1_name(n), "preferredName"@);
            lemma_lookup_concat(prev, sp, "shortName"@);
            lemma_lookup_outside(sp, |n: Seq<char>| data_specification_iec61360_chunk1_name(n), "shortName"@);
            lemma_lookup_concat(prev, sp, "unit"@);
            lemma_lookup_outside(sp, |n: Seq<char>| data_specification_iec61360_chunk1_name(n), "unit"@);
            lemma_lookup_concat(prev, sp, "unitId"@);
            lemma_lookup_outside(sp, |n: Seq<char>| data_specification_iec61360_chunk1_name(n), "unitId"@);
            lemma_lookup_concat(prev, sp, "sourceOfDefinition"@);
            lemma_lookup_outside(sp, |n: Seq<char>| data_specification_iec61360_chunk1_name(n), "sourceOfDefinition"@);
            lemma_lookup_concat(prev, sp, "symbol"@);
            lemma_lookup_outside(prev, |n: Seq<char>| data_specification_iec61360_chunk0_name(n), "symbol"@);
            lemma_lookup_concat(prev, sp, "dataType"@);
            lemma_lookup_outside(prev, |n: Seq<char>| data_specification_iec61360_chunk0_name(n), "dataType"@);
            lemma_lookup_concat(prev, sp, "definition"@);
            lemma_lookup_outside(prev, |n: Seq<char>| data_specification_iec61360_chunk0_name(n), "definition"@);
            lemma_lookup_concat(prev, sp, "valueFormat"@);
            lemma_lookup_outside(prev, |n: Seq<char>| data_specification_iec61360_chunk0_name(n), "valueFormat"@);
            lemma_lookup_concat(prev, sp, "valueList"@);
            lemma_lookup_outside(prev, |n: Seq<char>| data_specification_iec61360_chunk0_name(n), "valueList"@);
            lemma_lookup_concat(prev, sp, "value"@);
            lemma_lookup_outside(prev, |n: Seq<char>| data_specification_iec61360_chunk0_name(n), "value"@);
        }
        let ghost prev = fs@;
        let mut part = self.encode_step2();
        let ghost sp = part@;
        fs.append(&mut part);
        proof {
            lemma_names_within_concat(prev, sp, |n: Seq<char>| data_specification_iec61360_chunk0_name(n) || data_specification_iec61360_chunk1_name(n), |n: Seq<char>| data_specification_iec61360_chunk2_name(n), |n: Seq<char>| data_specification_iec61360_name(n));
            lemma_lookup_concat(prev, sp, "modelType"@);
            lemma_lookup_outside(sp, |n: Seq<char>| data_specification_iec61360_chunk2_name(n), "modelType"@);
            lemma_lookup_concat(prev, sp, "preferredName"@);
            lemma_lookup_outside(sp, |n: Seq<char>| data_specification_iec61360_chunk2_name(n), "preferredName"@);
            lemma_lookup_concat(prev, sp, "shortName"@);
            lemma_lookup_outside(sp, |n: Seq<char>| data_specification_iec61360_chunk2_name(n), "shortName"@);
            lemma_lookup_concat(prev, sp, "unit"@);
            lemma_lookup_outside(sp, |n: Seq<char>| data_specification_iec61360_chunk2_name(n), "unit"@);
            lemma_lookup_concat(prev, sp, "unitId"@);
            lemma_lookup_outside(sp, |n: Seq<char>| data_specification_iec61360_chunk2_name(n), "unitId"@);
            lemma_lookup_concat(prev, sp, "sourceOfDefinition"@);
            lemma_lookup_outside(sp, |n: Seq<char>| data_specification_iec61360_chunk2_name(n), "sourceOfDefinition"@);
            lemma_lookup_concat(prev, sp, "symbol"@);
            lemma_lookup_outside(sp, |n: Seq<char>| data_specification_iec61360_chunk2_name(n), "symbol"@);
            lemma_lookup_concat(prev, sp, "dataType"@);
            lemma_lookup_outside(sp, |n: Seq<char>| data_specification_iec61360_chunk2_name(n), "dataType"@);
            lemma_lookup_concat(prev, sp, "definition"@);
            lemma_lookup_outside(sp, |n: Seq<char>| data_specification_iec61360_chunk2_name(n), "definition"@);
            lemma_lookup_concat(prev, sp, "valueFormat"@);
            lemma_lookup_outside(sp, |n: Seq<char>| data_specification_iec61360_chunk2_name(n), "valueFormat"@);
            lemma_lookup_concat(prev, sp, "valueList"@);
            lemma_lookup_outside(sp, |n: Seq<char>| data_specification_iec61360_chunk2_name(n), "valueList"@);
            lemma_lookup_concat(prev, sp, "value"@);
            lemma_lookup_outside(sp, |n: Seq<char>| data_specification_iec61360_chunk2_name(n), "value"@);
            lemma_lookup_concat(prev, sp, "levelType"@);
            lemma_lookup_outside(prev, |n: Seq<char>| data_specification_iec61360_chunk0_name(n) || data_specification_iec61360_chunk1_name(n), "levelType"@);
        }
        fs
    }

    /// Reads the members of the value from `fs`.
    pub fn decode_members(fs: &Vec<(String, Json)>) -> (r: Result<DataSpecificationIec61360, DecodeError>)
        ensures
            match data_specification_iec61360_error(fs@) {
                Some(e) => r == Err::<DataSpecificationIec61360, DecodeError>(e),
                None => r matches Ok(x) && data_specification_iec61360_rel(x, fs@),
            },
    {
        match get_member(fs, "modelType") {
            None => return Err(DecodeError::MissingField),
            Some(Json::Str(t)) => if !str_eq(t.as_str(), "DataSpecificationIec61360") {
                return Err(DecodeError::UnknownDiscriminator);
            },
            Some(_) => return Err(DecodeError::UnexpectedKind),
        }
        let preferred_name = match decode_req::<Vec<LangString>>(fs, "preferredName") {
            Ok(v) => v,
            Err(e) => return Err(e),
        };
        let short_name = match decode_opt::<Vec<LangString>>(fs, "shortName") {
            Ok(v) => v,
            Err(e) => return Err(e),
        };
        let unit = match decode_opt::<String>(fs, "unit") {
            Ok(v) => v,
            Err(e) => return Err(e),
        };
        let unit_id = match decode_opt::<Reference>(fs, "unitId") {
            Ok(v) => v,
            Err(e) => return Err(e),
        };
        let source_of_definition = match decode_opt::<String>(fs, "sourceOfDefinition") {
            Ok(v) => v,
            Err(e) => return Err(e),
        };
        let symbol = match decode_opt::<String>(fs, "symbol") {
            Ok(v) => v,
            Err(e) => return Err(e),
        };
        let data_type = match decode_opt::<DataTypeIec61360>(fs, "dataType") {
            Ok(v) => v,
            Err(e) => return Err(e),
        };
        let definition = match decode_opt::<LangString>(fs, "definition") {
            Ok(v) => v,
            Err(e) => return Err(e),
        };
        let value_format = match decode_opt::<String>(fs, "valueFormat") {
            Ok(v) => v,
            Err(e) => return Err(e),
        };
        let value_list = match decode_opt::<Vec<ValueList>>(fs, "valueList") {
            Ok(v) => v,
            Err(e) => return Err(e),
        };
        let value = match decode_opt::<String>(fs, "value") {
            Ok(v) => v,
            Err(e) => return Err(e),
        };
        let level_type = match decode_opt::<LevelType>(fs, "levelType") {
            Ok(v) => v,
            Err(e) => return Err(e),
        };
        Ok(DataSpecificationIec61360 { preferred_name, short_name, unit, unit_id, source_of_definition, symbol, data_type, definition, value_format, value_list, value, level_type })
    }
}

/// Members found as encoding writes them decode to a value, whatever
/// other members stand beside them.
pub proof fn lemma_data_specification_iec61360_round_trip(x: DataSpecificationIec61360, fs: Seq<(String, Json)>)
    requires
        data_specification_iec61360_wf(x),
        data_specification_iec61360_lookups(x, fs),
    ensures
        data_specification_iec61360_error(fs) is None,
        data_specification_iec61360_rel(x, fs),
{
    lemma_req_round_trip(x.preferred_name, lookup(fs, "preferredName"@));
    lemma_opt_round_trip(x.short_name, lookup(fs, "shortName"@));
    lemma_opt_round_trip(x.unit, lookup(fs, "unit"@));
    lemma_opt_round_trip(x.unit_id, lookup(fs, "unitId"@));
    lemma_opt_round_trip(x.source_of_definition, lookup(fs, "sourceOfDefinition"@));
    lemma_opt_round_trip(x.symbol, lookup(fs, "symbol"@));
    lemma_opt_round_trip(x.data_type, lookup(fs, "dataType"@));
    lemma_opt_round_trip(x.definition, lookup(fs, "definition"@));
    lemma_opt_round_trip(x.value_format, lookup(fs, "valueFormat"@));
    lemma_opt_round_trip(x.value_list, lookup(fs, "valueList"@));
    lemma_opt_round_trip(x.value, lookup(fs, "value"@));
    lemma_opt_round_trip(x.level_type, lookup(fs, "levelType"@));
}

/// The values that the same members decode to hold the same content.
pub proof fn lemma_data_specification_iec61360_unique(x: DataSpecificationIec61360, y: DataSpecificationIec61360, fs: Seq<(String, Json)>)
    requires
        data_specification_iec61360_rel(x, fs),
        data_specification_iec61360_rel(y, fs),
    ensures
        data_specification_iec61360_equiv(x, y),
{
    lemma_req_unique(x.preferred_name, y.preferred_name, member(fs, "preferredName"@));
    lemma_opt_unique(x.short_name, y.short_name, member(fs, "shortName"@));
    lemma_opt_unique(x.unit, y.unit, member(fs, "unit"@));
    lemma_opt_unique(x.unit_id, y.unit_id, member(fs, "unitId"@));
    lemma_opt_unique(x.source_of_definition, y.source_of_definition, member(fs, "sourceOfDefinition"@));
    lemma_opt_unique(x.symbol, y.symbol, member(fs, "symbol"@));
    lemma_opt_unique(x.data_type, y.data_type, member(fs, "dataType"@));
    lemma_opt_unique(x.definition, y.definition, member(fs, "definition"@));
    lemma_opt_unique(x.value_format, y.value_format, member(fs, "valueFormat"@));
    lemma_opt_unique(x.value_list, y.value_list, member(fs, "valueList"@));
    lemma_opt_unique(x.value, y.value, member(fs, "value"@));
    lemma_opt_unique(x.level_type, y.level_type, member(fs, "levelType"@));
}

impl JsonCodec for DataSpecificationIec61360 {
    open spec fn wf(&self) -> bool {
        data_specification_iec61360_wf(*self)
    }

    open spec fn encoded(&self, j: Json) -> bool {
        j matches Json::Object(fs) && data_specification_iec61360_encoded(*self, fs@)
    }

    open spec fn rel(&self, j: Json) -> bool {
        j matches Json::Object(fs) && data_specification_iec61360_rel(*self, fs@)
    }

    open spec fn decode_error(j: Json) -> Option<DecodeError> {
        match j {
            Json::Object(fs) => data_specification_iec61360_error(fs@),
            _ => Some(DecodeError::UnexpectedKind),
        }
    }

    open spec fn equiv(&self, o: &Self) -> bool {
        data_specification_iec61360_equiv(*self, *o)
    }

    fn encode(&self) -> (r: Json) {
        Json::Object(self.encode_members())
    }

    fn decode(j: &Json) -> (r: Result<Self, DecodeError>) {
        match j {
            Json::Object(fs) => DataSpecificationIec61360::decode_members(fs),
            _ => Err(DecodeError::UnexpectedKind),
        }
    }

    proof fn lemma_round_trip(&self, j: Json) {
        lemma_data_specification_iec61360_round_trip(*self, j->Object_0@);
    }

    proof fn lemma_unique(&self, o: &Self, j: Json) {
        lemma_data_specification_iec61360_unique(*self, *o, j->Object_0@);
    }
}

/// The data types of IEC 61360.
#[derive(Debug, PartialEq, Eq, Clone, Copy, Structural)]
pub enum DataTypeIec61360 {
    Blob,
    Boolean,
    Date,
    File,
    Html,
    IntegerCount,
    IntegerCurrency,
    IntegerMeasure,
    Irdi,
    Iri,
    Rational,
    RationalMeasure,
    RealCount,
    RealCurrency,
    RealMeasure,
    String,
    StringTranslatable,
    Time,
    Timestamp,
}

/// The wire name of a value of `DataTypeIec61360`.
pub open spec fn data_type_iec61360_wire(x: DataTypeIec61360) -> Seq<char> {
    match x {
        DataTypeIec61360::Blob => "BLOB"@,
        DataTypeIec61360::Boolean => "BOOLEAN"@,
        DataTypeIec61360::Date => "DATE"@,
        DataTypeIec61360::File => "FILE"@,
        DataTypeIec61360::Html => "HTML"@,
        DataTypeIec61360::IntegerCount => "INTEGER_COUNT"@,
        DataTypeIec61360::IntegerCurrency => "INTEGER_CURRENCY"@,
        DataTypeIec61360::IntegerMeasure => "INTEGER_MEASURE"@,
        DataTypeIec61360::Irdi => "IRDI"@,
        DataTypeIec61360::Iri => "IRI"@,
        DataTypeIec61360::Rational => "RATIONAL"@,
        DataTypeIec61360::RationalMeasure => "RATIONAL_MEASURE"@,
        DataTypeIec61360::RealCount => "REAL_COUNT"@,
        DataTypeIec61360::RealCurrency => "REAL_CURRENCY"@,
        DataTypeIec61360::RealMeasure => "REAL_MEASURE"@,
        DataTypeIec61360::String => "STRING"@,
        DataTypeIec61360::StringTranslatable => "STRING_TRANSLATABLE"@,
        DataTypeIec61360::Time => "TIME"@,
        DataTypeIec61360::Timestamp => "TIMESTAMP"@,
    }
}

/// The value of `DataTypeIec61360` that a wire name denotes, if any.
pub open spec fn data_type_iec61360_from_wire(s: Seq<char>) -> Option<DataTypeIec61360> {
    if s == "BLOB"@ {
        Some(DataTypeIec61360::Blob)
    }
    else if s == "BOOLEAN"@ {
        Some(DataTypeIec61360::Boolean)
    }
    else if s == "DATE"@ {
        Some(DataTypeIec61360::Date)
    }
    else if s == "FILE"@ {
        Some(DataTypeIec61360::File)
    }
    else if s == "HTML"@ {
        Some(DataTypeIec61360::Html)
    }
    else if s == "INTEGER_COUNT"@ {
        Some(DataTypeIec61360::IntegerCount)
    }
    else if s == "INTEGER_CURRENCY"@ {
        Some(DataTypeIec61360::IntegerCurrency)
    }
    else if s == "INTEGER_MEASURE"@ {
        Some(DataTypeIec61360::IntegerMeasure)
    }
    else if s == "IRDI"@ {
        Some(DataTypeIec61360::Irdi)
    }
    else if s == "IRI"@ {
        Some(DataTypeIec61360::Iri)
    }
    else if s == "RATIONAL"@ {
        Some(DataTypeIec61360::Rational)
    }
    else if s == "RATIONAL_MEASURE"@ {
        Some(DataTypeIec61360::RationalMeasure)
    }
    else if s == "REAL_COUNT"@ {
        Some(DataTypeIec61360::RealCount)
    }
    else if s == "REAL_CURRENCY"@ {
        Some(DataTypeIec61360::RealCurrency)
    }
    else if s == "REAL_MEASURE"@ {
        Some(DataTypeIec61360::RealMeasure)
    }
    else if s == "STRING"@ {
        Some(DataTypeIec61360::String)
    }
    else if s == "STRING_TRANSLATABLE"@ {
        Some(DataTypeIec61360::StringTranslatable)
    }
    else if s == "TIME"@ {
        Some(DataTypeIec61360::Time)
    }
    else if s == "TIMESTAMP"@ {
        Some(DataTypeIec61360::Timestamp)
    }
 else {
        None
    }
}

/// Each value is found again from its wire name.
pub proof fn lemma_data_type_iec61360_wire_inverse(x: DataTypeIec61360)
    ensures
        data_type_iec61360_from_wire(data_type_iec61360_wire(x)) == Some(x),
{
    match x {
        DataTypeIec61360::Blob => {
            reveal_strlit("BLOB");
            assert("BLOB"@.len() == 4);
        },
        DataTypeIec61360::Boolean => {
            reveal_strlit("BOOLEAN");
            assert("BOOLEAN"@.len() == 7);
            reveal_strlit("BLOB");
            assert("BLOB"@.len() == 4);
        },
        DataTypeIec61360::Date => {
            reveal_strlit("DATE");
            assert("DATE"@.len() == 4);
            reveal_strlit("BLOB");
            assert("DATE"@[0] != "BLOB"@[0]);
            reveal_strlit("BOOLEAN");
            assert("BOOLEAN"@.len() == 7);
        },
        DataTypeIec61360::File => {
            reveal_strlit("FILE");
            assert("FILE"@.len() == 4);
            reveal_strlit("BLOB");
            assert("FILE"@[0] != "BLOB"@[0]);
            reveal_strlit("BOOLEAN");
            assert("BOOLEAN"@.len() == 7);
            reveal_strlit("DATE");
            assert("FILE"@[0] != "DATE"@[0]);
        },
        DataTypeIec61360::Html => {
            reveal_strlit("HTML");
            assert("HTML"@.len() == 4);
            reveal_strlit("BLOB");
            assert("HTML"@[0] != "BLOB"@[0]);
            reveal_strlit("BOOLEAN");
            assert("BOOLEAN"@.len() == 7);
            reveal_strlit("DATE");
            assert("HTML"@[0] != "DATE"@[0]);
            reveal_strlit("FILE");
            assert("HTML"@[0] != "FILE"@[0]);
        },
        DataTypeIec61360::IntegerCount => {
            reveal_strlit("INTEGER_COUNT");
            assert("INTEGER_COUNT"@.len() == 13);
            reveal_strlit("BLOB");
            assert("BLOB"@.len() == 4);
            reveal_strlit("BOOLEAN");
            assert("BOOLEAN"@.len() == 7);
            reveal_strlit("DATE");
            assert("DATE"@.len() == 4);
            reveal_strlit("FILE");
            assert("FILE"@.len() == 4);
            reveal_strlit("HTML");
            assert("HTML"@.len() == 4);
        },
        DataTypeIec61360::IntegerCurrency => {
            reveal_strlit("INTEGER_CURRENCY");
            assert("INTEGER_CURRENCY"@.len() == 16);
            reveal_strlit("BLOB");
            assert("BLOB"@.len() == 4);
            reveal_strlit("BOOLEAN");
            assert("BOOLEAN"@.len() == 7);
            reveal_strlit("DATE");
            assert("DATE"@.len() == 4);
            reveal_strlit("FILE");
            assert("FILE"@.len() == 4);
            reveal_strlit("HTML");
            assert("HTML"@.len() == 4);
            reveal_strlit("INTEGER_COUNT");
            assert("INTEGER_COUNT"@.len() == 13);
        },
        DataTypeIec61360::IntegerMeasure => {
            reveal_strlit("INTEGER_MEASURE");
            assert("INTEGER_MEASURE"@.len() == 15);
            reveal_strlit("BLOB");
            assert("BLOB"@.len() == 4);
            reveal_strlit("BOOLEAN");
            assert("BOOLEAN"@.len() == 7);
            reveal_strlit("DATE");
            assert("DATE"@.len() == 4);
            reveal_strlit("FILE");
            assert("FILE"@.len() == 4);
            reveal_strlit("HTML");
            assert("HTML"@.len() == 4);
            reveal_strlit("INTEGER_COUNT");
            assert("INTEGER_COUNT"@.len() == 13);
            reveal_strlit("INTEGER_CURRENCY");
            assert("INTEGER_CURRENCY"@.len() == 16);
        },
        DataTypeIec61360::Irdi => {
            reveal_strlit("IRDI");
            assert("IRDI"@.len() == 4);
            reveal_strlit("BLOB");
            assert("IRDI"@[0] != "BLOB"@[0]);
            reveal_strlit("BOOLEAN");
            assert("BOOLEAN"@.len() == 7);
            reveal_strlit("DATE");
            assert("IRDI"@[0] != "DATE"@[0]);
            reveal_strlit("FILE");
            assert("IRDI"@[0] != "FILE"@[0]);
            reveal_strlit("HTML");
            assert("IRDI"@[0] != "HTML"@[0]);
            reveal_strlit("INTEGER_COUNT");
            assert("INTEGER_COUNT"@.len() == 13);
            reveal_strlit("INTEGER_CURRENCY");
            assert("INTEGER_CURRENCY"@.len() == 16);
            reveal_strlit("INTEGER_MEASURE");
            assert("INTEGER_MEASURE"@.len() == 15);
        },
        DataTypeIec61360::Iri => {
            reveal_strlit("IRI");
            assert("IRI"@.len() == 3);
            reveal_strlit("BLOB");
            assert("BLOB"@.len() == 4);
            reveal_strlit("BOOLEAN");
            assert("BOOLEAN"@.len() == 7);
            reveal_strlit("DATE");
            assert("DATE"@.len() == 4);
            reveal_strlit("FILE");
            assert("FILE"@.len() == 4);
            reveal_strlit("HTML");
            assert("HTML"@.len() == 4);
            reveal_strlit("INTEGER_COUNT");
            assert("INTEGER_COUNT"@.len() == 13);
            reveal_strlit("INTEGER_CURRENCY");
            assert("INTEGER_CURRENCY"@.len() == 16);
            reveal_strlit("INTEGER_MEASURE");
            assert("INTEGER_MEASURE"@.len() == 15);
            reveal_strlit("IRDI");
            assert("IRDI"@.len() == 4);
        },
        DataTypeIec61360::Rational => {
            reveal_strlit("RATIONAL");
            assert("RATIONAL"@.len() == 8);
            reveal_strlit("BLOB");
            assert("BLOB"@.len() == 4);
            reveal_strlit("BOOLEAN");
            assert("BOOLEAN"@.len() == 7);
            reveal_strlit("DATE");
            assert("DATE"@.len() == 4);
            reveal_strlit("FILE");
            assert("FILE"@.len() == 4);
            reveal_strlit("HTML");
            assert("HTML"@.len() == 4);
            reveal_strlit("INTEGER_COUNT");
            assert("INTEGER_COUNT"@.len() == 13);
            reveal_strlit("INTEGER_CURRENCY");
            assert("INTEGER_CURRENCY"@.len() == 16);
            reveal_strlit("INTEGER_MEASURE");
            assert("INTEGER_MEASURE"@.len() == 15);
            reveal_strlit("IRDI");
            assert("IRDI"@.len() == 4);
            reveal_strlit("IRI");
            assert("IRI"@.len() == 3);
        },
        DataTypeIec61360::RationalMeasure => {
            reveal_strlit("RATIONAL_MEASURE");
            assert("RATIONAL_MEASURE"@.len() == 16);
            reveal_strlit("BLOB");
            assert("BLOB"@.len() == 4);
            reveal_strlit("BOOLEAN");
            assert("BOOLEAN"@.len() == 7);
            reveal_strlit("DATE");
            assert("DATE"@.len() == 4);
            reveal_strlit("FILE");
            assert("FILE"@.len() == 4);
            reveal_strlit("HTML");
            assert("HTML"@.len() == 4);
            reveal_strlit("INTEGER_COUNT");
            assert("INTEGER_COUNT"@.len() == 13);
            reveal_strlit("INTEGER_CURRENCY");
            assert("RATIONAL_MEASURE"@[0] != "INTEGER_CURRENCY"@[0]);
            reveal_strlit("INTEGER_MEASURE");
            assert("INTEGER_MEASURE"@.len() == 15);
            reveal_strlit("IRDI");
            assert("IRDI"@.len() == 4);
            reveal_strlit("IRI");
            assert("IRI"@.len() == 3);
            reveal_strlit("RATIONAL");
            assert("RATIONAL"@.len() == 8);
        },
        DataTypeIec61360::RealCount => {
            reveal_strlit("REAL_COUNT");
            assert("REAL_COUNT"@.len() == 10);
            reveal_strlit("BLOB");
            assert("BLOB"@.len() == 4);
            reveal_strlit("BOOLEAN");
            assert("BOOLEAN"@.len() == 7);
            reveal_strlit("DATE");
            assert("DATE"@.len() == 4);
            reveal_strlit("FILE");
            assert("FILE"@.len() == 4);
            reveal_strlit("HTML");
            assert("HTML"@.len() == 4);
            reveal_strlit("INTEGER_COUNT");
            assert("INTEGER_COUNT"@.len() == 13);
            reveal_strlit("INTEGER_CURRENCY");
            assert("INTEGER_CURRENCY"@.len() == 16);
            reveal_strlit("INTEGER_MEASURE");
            assert("INTEGER_MEASURE"@.len() == 15);
            reveal_strlit("IRDI");
            assert("IRDI"@.len() == 4);
            reveal_strlit("IRI");
            assert("IRI"@.len() == 3);
            reveal_strlit("RATIONAL");
            assert("RATIONAL"@.len() == 8);
            reveal_strlit("RATIONAL_MEASURE");
            assert("RATIONAL_MEASURE"@.len() == 16);
        },
        DataTypeIec61360::RealCurrency => {
            reveal_strlit("REAL_CURRENCY");
            assert("REAL_CURRENCY"@.len() == 13);
            reveal_strlit("BLOB");
            assert("BLOB"@.len() == 4);
            reveal_strlit("BOOLEAN");
            assert("BOOLEAN"@.len() == 7);
            reveal_strlit("DATE");
            assert("DATE"@.len() == 4);
            reveal_strlit("FILE");
            assert("FILE"@.len() == 4);
            reveal_strlit("HTML");
            assert("HTML"@.len() == 4);
            reveal_strlit("INTEGER_COUNT");
            assert("REAL_CURRENCY"@[0] != "INTEGER_COUNT"@[0]);
            reveal_strlit("INTEGER_CURRENCY");
            assert("INTEGER_CURRENCY"@.len() == 16);
            reveal_strlit("INTEGER_MEASURE");
            assert("INTEGER_MEASURE"@.len() == 15);
            reveal_strlit("IRDI");
            assert("IRDI"@.len() == 4);
            reveal_strlit("IRI");
            assert("IRI"@.len() == 3);
            reveal_strlit("RATIONAL");
            assert("RATIONAL"@.len() == 8);
            reveal_strlit("RATIONAL_MEASURE");
            assert("RATIONAL_MEASURE"@.len() == 16);
            reveal_strlit("REAL_COUNT");
            assert("REAL_COUNT"@.len() == 10);
        },
        DataTypeIec61360::RealMeasure => {
            reveal_strlit("REAL_MEASURE");
            assert("REAL_MEASURE"@.len() == 12);
            reveal_strlit("BLOB");
            assert("BLOB"@.len() == 4);
            reveal_strlit("BOOLEAN");
            assert("BOOLEAN"@.len() == 7);
            reveal_strlit("DATE");
            assert("DATE"@.len() == 4);
            reveal_strlit("FILE");
            assert("FILE"@.len() == 4);
            reveal_strlit("HTML");
            assert("HTML"@.len() == 4);
            reveal_strlit("INTEGER_COUNT");
            assert("INTEGER_COUNT"@.len() == 13);
            reveal_strlit("INTEGER_CURRENCY");
            assert("INTEGER_CURRENCY"@.len() == 16);
            reveal_strlit("INTEGER_MEASURE");
            assert("INTEGER_MEASURE"@.len() == 15);
            reveal_strlit("IRDI");
            assert("IRDI"@.len() == 4);
            reveal_strlit("IRI");
            assert("IRI"@.len() == 3);
            reveal_strlit("RATIONAL");
            assert("RATIONAL"@.len() == 8);
            reveal_strlit("RATIONAL_MEASURE");
            assert("RATIONAL_MEASURE"@.len() == 16);
            reveal_strlit("REAL_COUNT");
            assert("REAL_COUNT"@.len() == 10);
            reveal_strlit("REAL_CURRENCY");
            assert("REAL_CURRENCY"@.len() == 13);
        },
        DataTypeIec61360::String => {
            reveal_strlit("STRING");
            assert("STRING"@.len() == 6);
            reveal_strlit("BLOB");
            assert("BLOB"@.len() == 4);
            reveal_strlit("BOOLEAN");
            assert("BOOLEAN"@.len() == 7);
            reveal_strlit("DATE");
            assert("DATE"@.len() == 4);
            reveal_strlit("FILE");
            assert("FILE"@.len() == 4);
            reveal_strlit("HTML");
            assert("HTML"@.len() == 4);
            reveal_strlit("INTEGER_COUNT");
            assert("INTEGER_COUNT"@.len() == 13);
            reveal_strlit("INTEGER_CURRENCY");
            assert("INTEGER_CURRENCY"@.len() == 16);
            reveal_strlit("INTEGER_MEASURE");
            assert("INTEGER_MEASURE"@.len() == 15);
            reveal_strlit("IRDI");
            assert("IRDI"@.len() == 4);
            reveal_strlit("IRI");
            assert("IRI"@.len() == 3);
            reveal_strlit("RATIONAL");
            assert("RATIONAL"@.len() == 8);
            reveal_strlit("RATIONAL_MEASURE");
            assert("RATIONAL_MEASURE"@.len() == 16);
            reveal_strlit("REAL_COUNT");
            assert("REAL_COUNT"@.len() == 10);
            reveal_strlit("REAL_CURRENCY");
            assert("REAL_CURRENCY"@.len() == 13);
            reveal_strlit("REAL_MEASURE");
            assert("REAL_MEASURE"@.len() == 12);
        },
        DataTypeIec61360::StringTranslatable => {
            reveal_strlit("STRING_TRANSLATABLE");
            assert("STRING_TRANSLATABLE"@.len() == 19);
            reveal_strlit("BLOB");
            assert("BLOB"@.len() == 4);
            reveal_strlit("BOOLEAN");
            assert("BOOLEAN"@.len() == 7);
            reveal_strlit("DATE");
            assert("DATE"@.len() == 4);
            reveal_strlit("FILE");
            assert("FILE"@.len() == 4);
            reveal_strlit("HTML");
            assert("HTML"@.len() == 4);
            reveal_strlit("INTEGER_COUNT");
            assert("INTEGER_COUNT"@.len() == 13);
            reveal_strlit("INTEGER_CURRENCY");
            assert("INTEGER_CURRENCY"@.len() == 16);
            reveal_strlit("INTEGER_MEASURE");
            assert("INTEGER_MEASURE"@.len() == 15);
            reveal_strlit("IRDI");
            assert("IRDI"@.len() == 4);
            reveal_strlit("IRI");
            assert("IRI"@.len() == 3);
            reveal_strlit("RATIONAL");
            assert("RATIONAL"@.len() == 8);
            reveal_strlit("RATIONAL_MEASURE");
            assert("RATIONAL_MEASURE"@.len() == 16);
            reveal_strlit("REAL_COUNT");
            assert("REAL_COUNT"@.len() == 10);
            reveal_strlit("REAL_CURRENCY");
            assert("REAL_CURRENCY"@.len() == 13);
            reveal_strlit("REAL_MEASURE");
            assert("REAL_MEASURE"@.len() == 12);
            reveal_strlit("STRING");
            assert("STRING"@.len() == 6);
        },
        DataTypeIec61360::Time => {
            reveal_strlit("TIME");
            assert("TIME"@.len() == 4);
            reveal_strlit("BLOB");
            assert("TIME"@[0] != "BLOB"@[0]);
            reveal_strlit("BOOLEAN");
            assert("BOOLEAN"@.len() == 7);
            reveal_strlit("DATE");
            assert("TIME"@[0] != "DATE"@[0]);
            reveal_strlit("FILE");
            assert("TIME"@[0] != "FILE"@[0]);
            reveal_strlit("HTML");
            assert("TIME"@[0] != "HTML"@[0]);
            reveal_strlit("INTEGER_COUNT");
            assert("INTEGER_COUNT"@.len() == 13);
            reveal_strlit("INTEGER_CURRENCY");
            assert("INTEGER_CURRENCY"@.len() == 16);
            reveal_strlit("INTEGER_MEASURE");
            assert("INTEGER_MEASURE"@.len() == 15);
            reveal_strlit("IRDI");
            assert("TIME"@[0] != "IRDI"@[0]);
            reveal_strlit("IRI");
            assert("IRI"@.len() == 3);
            reveal_strlit("RATIONAL");
            assert("RATIONAL"@.len() == 8);
            reveal_strlit("RATIONAL_MEASURE");
            assert("RATIONAL_MEASURE"@.len() == 16);
            reveal_strlit("REAL_COUNT");
            assert("REAL_COUNT"@.len() == 10);
            reveal_strlit("REAL_CURRENCY");
            assert("REAL_CURRENCY"@.len() == 13);
            reveal_strlit("REAL_MEASURE");
            assert("REAL_MEASURE"@.len() == 12);
            reveal_strlit("STRING");
            assert("STRING"@.len() == 6);
            reveal_strlit("STRING_TRANSLATABLE");
            assert("STRING_TRANSLATABLE"@.len() == 19);
        },
        DataTypeIec61360::Timestamp => {
            reveal_strlit("TIMESTAMP");
            assert("TIMESTAMP"@.len() == 9);
            reveal_strlit("BLOB");
            assert("BLOB"@.len() == 4);
            reveal_strlit("BOOLEAN");
            assert("BOOLEAN"@.len() == 7);
            reveal_strlit("DATE");
            assert("DATE"@.len() == 4);
            reveal_strlit("FILE");
            assert("FILE"@.len() == 4);
            reveal_strlit("HTML");
            assert("HTML"@.len() == 4);
            reveal_strlit("INTEGER_COUNT");
            assert("INTEGER_COUNT"@.len() == 13);
            reveal_strlit("INTEGER_CURRENCY");
            assert("INTEGER_CURRENCY"@.len() == 16);
            reveal_strlit("INTEGER_MEASURE");
            assert("INTEGER_MEASURE"@.len() == 15);
            reveal_strlit("IRDI");
            assert("IRDI"@.len() == 4);
            reveal_strlit("IRI");
            assert("IRI"@.len() == 3);
            reveal_strlit("RATIONAL");
            assert("RATIONAL"@.len() == 8);
            reveal_strlit("RATIONAL_MEASURE");
            assert("RATIONAL_MEASURE"@.len() == 16);
            reveal_strlit("REAL_COUNT");
            assert("REAL_COUNT"@.len() == 10);
            reveal_strlit("REAL_CURRENCY");
            assert("REAL_CURRENCY"@.len() == 13);
            reveal_strlit("REAL_MEASURE");
            assert("REAL_MEASURE"@.len() == 12);
            reveal_strlit("STRING");
            assert("STRING"@.len() == 6);
            reveal_strlit("STRING_TRANSLATABLE");
            assert("STRING_TRANSLATABLE"@.len() == 19);
            reveal_strlit("TIME");
            assert("TIME"@.len() == 4);
        },
    }
}

impl DataTypeIec61360 {
    /// The wire name of the value.
    pub fn wire_name(&self) -> (r: &'static str)
        ensures
            r@ == data_type_iec61360_wire(*self),
    {
        match self {
            DataTypeIec61360::Blob => "BLOB",
            DataTypeIec61360::Boolean => "BOOLEAN",
            DataTypeIec61360::Date => "DATE",
            DataTypeIec61360::File => "FILE",
            DataTypeIec61360::Html => "HTML",
            DataTypeIec61360::IntegerCount => "INTEGER_COUNT",
            DataTypeIec61360::IntegerCurrency => "INTEGER_CURRENCY",
            DataTypeIec61360::IntegerMeasure => "INTEGER_MEASURE",
            DataTypeIec61360::Irdi => "IRDI",
            DataTypeIec61360::Iri => "IRI",
            DataTypeIec61360::Rational => "RATIONAL",
            DataTypeIec61360::RationalMeasure => "RATIONAL_MEASURE",
            DataTypeIec61360::RealCount => "REAL_COUNT",
            DataTypeIec61360::RealCurrency => "REAL_CURRENCY",
            DataTypeIec61360::RealMeasure => "REAL_MEASURE",
            DataTypeIec61360::String => "STRING",
            DataTypeIec61360::StringTranslatable => "STRING_TRANSLATABLE",
            DataTypeIec61360::Time => "TIME",
            DataTypeIec61360::Timestamp => "TIMESTAMP",
        }
    }

    /// The value that a wire name denotes, if any.
    pub fn from_wire(s: &str) -> (r: Option<DataTypeIec61360>)
        ensures
            r == data_type_iec61360_from_wire(s@),
    {
        if str_eq(s, "BLOB") {
            Some(DataTypeIec61360::Blob)
        }
        else if str_eq(s, "BOOLEAN") {
            Some(DataTypeIec61360::Boolean)
        }
        else if str_eq(s, "DATE") {
            Some(DataTypeIec61360::Date)
        }
        else if str_eq(s, "FILE") {
            Some(DataTypeIec61360::File)
        }
        else if str_eq(s, "HTML") {
            Some(DataTypeIec61360::Html)
        }
        else if str_eq(s, "INTEGER_COUNT") {
            Some(DataTypeIec61360::IntegerCount)
        }
        else if str_eq(s, "INTEGER_CURRENCY") {
            Some(DataTypeIec61360::IntegerCurrency)
        }
        else if str_eq(s, "INTEGER_MEASURE") {
            Some(DataTypeIec61360::IntegerMeasure)
        }
        else if str_eq(s, "IRDI") {
            Some(DataTypeIec61360::Irdi)
        }
        else if str_eq(s, "IRI") {
            Some(DataTypeIec61360::Iri)
        }
        else if str_eq(s, "RATIONAL") {
            Some(DataTypeIec61360::Rational)
        }
        else if str_eq(s, "RATIONAL_MEASURE") {
            Some(DataTypeIec61360::RationalMeasure)
        }
        else if str_eq(s, "REAL_COUNT") {
            Some(DataTypeIec61360::RealCount)
        }
        else if str_eq(s, "REAL_CURRENCY") {
            Some(DataTypeIec61360::RealCurrency)
        }
        else if str_eq(s, "REAL_MEASURE") {
            Some(DataTypeIec61360::RealMeasure)
        }
        else if str_eq(s, "STRING") {
            Some(DataTypeIec61360::String)
        }
        else if str_eq(s, "STRING_TRANSLATABLE") {
            Some(DataTypeIec61360::StringTranslatable)
        }
        else if str_eq(s, "TIME") {
            Some(DataTypeIec61360::Time)
        }
        else if str_eq(s, "TIMESTAMP") {
            Some(DataTypeIec61360::Timestamp)
        }
        else {
            None
        }
    }
}

impl JsonCodec for DataTypeIec61360 {
    open spec fn wf(&self) -> bool {
        true
    }

    open spec fn encoded(&self, j: Json) -> bool {
        j matches Json::Str(s) && s@ == data_type_iec61360_wire(*self)
    }

    open spec fn rel(&self, j: Json) -> bool {
        j matches Json::Str(s) && data_type_iec61360_from_wire(s@) == Some(*self)
    }

    open spec fn decode_error(j: Json) -> Option<DecodeError> {
        match j {
            Json::Str(s) => if data_type_iec61360_from_wire(s@) is Some {
                None
            } else {
                Some(DecodeError::UnknownDiscriminator)
            },
            _ => Some(DecodeError::UnexpectedKind),
        }
    }

    open spec fn equiv(&self, o: &Self) -> bool {
        *self == *o
    }

    fn encode(&self) -> (r: Json) {
        Json::Str(self.wire_name().to_string())
    }

    fn decode(j: &Json) -> (r: Result<Self, DecodeError>) {
        match j {
            Json::Str(s) => match DataTypeIec61360::from_wire(s.as_str()) {
                Some(x) => Ok(x),
                None => Err(DecodeError::UnknownDiscriminator),
            },
            _ => Err(DecodeError::UnexpectedKind),
        }
    }

    proof fn lemma_round_trip(&self, j: Json) {
        lemma_data_type_iec61360_wire_inverse(*self);
    }

    proof fn lemma_unique(&self, o: &Self, j: Json) {
    }
}

/// An enumeration of values, each with the reference to its meaning.
#[derive(Clone, Debug, PartialEq)]
pub struct ValueList {
    pub value_reference_pairs: Vec<ValueReferencePair>,
}

/// A name of the members of `ValueList`.
pub open spec fn value_list_name(n: Seq<char>) -> bool {
    n == "valueReferencePairs"@
}

/// Looking up the members of `ValueList` in `fs` finds what encoding writes for `x`.
pub open spec fn value_list_lookups(x: ValueList, fs: Seq<(String, Json)>) -> bool {
    &&& req_encoded(x.value_reference_pairs, lookup(fs, "valueReferencePairs"@))
}

/// `fs` are the members that encoding writes for `x`.
pub open spec fn value_list_encoded(x: ValueList, fs: Seq<(String, Json)>) -> bool {
    &&& names_within(fs, |n: Seq<char>| value_list_name(n))
    &&& value_list_lookups(x, fs)
}

/// The members of `fs` decode to `x`.
pub open spec fn value_list_rel(x: ValueList, fs: Seq<(String, Json)>) -> bool {
    &&& req_rel(x.value_reference_pairs, member(fs, "valueReferencePairs"@))
}

/// The error, if any, of decoding the members of `ValueList` from `fs`.
pub open spec fn value_list_error(fs: Seq<(String, Json)>) -> Option<DecodeError> {
    match req_error::<Vec<ValueReferencePair>>(member(fs, "valueReferencePairs"@)) {
        Some(e) => Some(e),
        None => {
            None
        },
    }
}

/// The values of `x` are well-formed.
pub open spec fn value_list_wf(x: ValueList) -> bool {
    &&& x.value_reference_pairs.wf()
}

/// `x` and `y` hold the same content.
pub open spec fn value_list_equiv(x: ValueList, y: ValueList) -> bool {
    &&& x.value_reference_pairs.equiv(&y.value_reference_pairs)
}

impl ValueList {
    /// Writes the members of the value, absent ones left out.
    pub fn encode_members(&self) -> (r: Vec<(String, Json)>)
        ensures
            value_list_encoded(*self, r@),
    {
        proof {
            reveal_strlit("valueReferencePairs");
        }
        let mut fs: Vec<(String, Json)> = Vec::new();
        let ghost prev = fs@;
        push_req(&mut fs, "valueReferencePairs", &self.value_reference_pairs);
        proof {
            if true {
                assert(fs@ == prev.push(fs@.last()));
                lemma_names_within_push(prev, fs@.last(), |n: Seq<char>| value_list_name(n));
                lemma_lookup_push(prev, fs@.last(), "valueReferencePairs"@);
            }
        }
        fs
    }

    /// Reads the members of the value from `fs`.
    pub fn decode_members(fs: &Vec<(String, Json)>) -> (r: Result<ValueList, DecodeError>)
        ensures
            match value_list_error(fs@) {
                Some(e) => r == Err::<ValueList, DecodeError>(e),
                None => r matches Ok(x) && value_list_rel(x, fs@),
            },
    {
        let value_reference_pairs = match decode_req::<Vec<ValueReferencePair>>(fs, "valueReferencePairs") {
            Ok(v) => v,
            Err(e) => return Err(e),
        };
        Ok(ValueList { value_reference_pairs })
    }
}

/// Members found as encoding writes them decode to a value, whatever
/// other members stand beside them.
pub proof fn lemma_value_list_round_trip(x: ValueList, fs: Seq<(String, Json)>)
    requires
        value_list_wf(x),
        value_list_lookups(x, fs),
    ensures
        value_list_error(fs) is None,
        value_list_rel(x, fs),
{
    lemma_req_round_trip(x.value_reference_pairs, lookup(fs, "valueReferencePairs"@));
}

/// The values that the same members decode to hold the same content.
pub proof fn lemma_value_list_unique(x: ValueList, y: ValueList, fs: Seq<(String, Json)>)
    requires
        value_list_rel(x, fs),
        value_list_rel(y, fs),
    ensures
        value_list_equiv(x, y),
{
    lemma_req_unique(x.value_reference_pairs, y.value_reference_pairs, member(fs, "valueReferencePairs"@));
}

impl JsonCodec for ValueList {
    open spec fn wf(&self) -> bool {
        value_list_wf(*self)
    }

    open spec fn encoded(&self, j: Json) -> bool {
        j matches Json::Object(fs) && value_list_encoded(*self, fs@)
    }

    open spec fn rel(&self, j: Json) -> bool {
        j matches Json::Object(fs) && value_list_rel(*self, fs@)
    }

    open spec fn decode_error(j: Json) -> Option<DecodeError> {
        match j {
            Json::Object(fs) => value_list_error(fs@),
            _ => Some(DecodeError::UnexpectedKind),
        }
    }

    open spec fn equiv(&self, o: &Self) -> bool {
        value_list_equiv(*self, *o)
    }

    fn encode(&self) -> (r: Json) {
        Json::Object(self.encode_members())
    }

    fn decode(j: &Json) -> (r: Result<Self, DecodeError>) {
        match j {
            Json::Object(fs) => ValueList::decode_members(fs),
            _ => Err(DecodeError::UnexpectedKind),
        }
    }

    proof fn lemma_round_trip(&self, j: Json) {
        lemma_value_list_round_trip(*self, j->Object_0@);
    }

    proof fn lemma_unique(&self, o: &Self, j: Json) {
        lemma_value_list_unique(*self, *o, j->Object_0@);
    }
}

/// A value of an enumeration and the reference to its meaning.
#[derive(Clone, Debug, PartialEq)]
pub struct ValueReferencePair {
    pub value: String,
    pub value_id: Reference,
}

/// A name of the members of `ValueReferencePair`.
pub open spec fn value_reference_pair_name(n: Seq<char>) -> bool {
    n == "value"@ || n == "valueId"@
}

/// Looking up the members of `ValueReferencePair` in `fs` finds what encoding writes for `x`.
pub open spec fn value_reference_pair_lookups(x: ValueReferencePair, fs: Seq<(String, Json)>) -> bool {
    &&& req_encoded(x.value, lookup(fs, "value"@))
    &&& req_encoded(x.value_id, lookup(fs, "valueId"@))
}

/// `fs` are the members that encoding writes for `x`.
pub open spec fn value_reference_pair_encoded(x: ValueReferencePair, fs: Seq<(String, Json)>) -> bool {
    &&& names_within(fs, |n: Seq<char>| value_reference_pair_name(n))
    &&& value_reference_pair_lookups(x, fs)
}

/// The members of `fs` decode to `x`.
pub open spec fn value_reference_pair_rel(x: ValueReferencePair, fs: Seq<(String, Json)>) -> bool {
    &&& req_rel(x.value, member(fs, "value"@))
    &&& req_rel(x.value_id, member(fs, "valueId"@))
}

/// The error, if any, of decoding the members of `ValueReferencePair` from `fs`.
pub open spec fn value_reference_pair_error(fs: Seq<(String, Json)>) -> Option<DecodeError> {
    match req_error::<String>(member(fs, "value"@)) {
        Some(e) => Some(e),
        None => {
            match req_error::<Reference>(member(fs, "valueId"@)) {
                Some(e) => Some(e),
                None => {
                    None
                },
            }
        },
    }
}

/// The values of `x` are well-formed.
pub open spec fn value_reference_pair_wf(x: ValueReferencePair) -> bool {
    &&& x.value.wf()
    &&& x.value_id.wf()
}

/// `x` and `y` hold the same content.
pub open spec fn value_reference_pair_equiv(x: ValueReferencePair, y: ValueReferencePair) -> bool {
    &&& x.value.equiv(&y.value)
    &&& x.value_id.equiv(&y.value_id)
}

impl ValueReferencePair {
    /// Writes the members of the value, absent ones left out.
    pub fn encode_members(&self) -> (r: Vec<(String, Json)>)
        ensures
            value_reference_pair_encoded(*self, r@),
    {
        proof {
            reveal_strlit("value");
            reveal_strlit("valueId");
            assert("value"@.len() == 5 && "valueId"@.len() == 7);
            assert("valueId"@.len() == 7 && "value"@.len() == 5);
        }
        let mut fs: Vec<(String, Json)> = Vec::new();
        let ghost prev = fs@;
        push_req(&mut fs, "value", &self.value);
        proof {
            if true {
                assert(fs@ == prev.push(fs@.last()));
                lemma_names_within_push(prev, fs@.last(), |n: Seq<char>| value_reference_pair_name(n));
                lemma_lookup_push(prev, fs@.last(), "value"@);
                lemma_lookup_push(prev, fs@.last(), "valueId"@);
            }
        }
        let ghost prev = fs@;
        push_req(&mut fs, "valueId", &self.value_id);
        proof {
            if true {
                assert(fs@ == prev.push(fs@.last()));
                lemma_names_within_push(prev, fs@.last(), |n: Seq<char>| value_reference_pair_name(n));
                lemma_lookup_push(prev, fs@.last(), "value"@);
                lemma_lookup_push(prev, fs@.last(), "valueId"@);
            }
        }
        fs
    }

    /// Reads the members of the value from `fs`.
    pub fn decode_members(fs: &Vec<(String, Json)>) -> (r: Result<ValueReferencePair, DecodeError>)
        ensures
            match value_reference_pair_error(fs@) {
                Some(e) => r == Err::<ValueReferencePair, DecodeError>(e),
                None => r matches Ok(x) && value_reference_pair_rel(x, fs@),
            },
    {
        let value = match decode_req::<String>(fs, "value") {
            Ok(v) => v,
            Err(e) => return Err(e),
        };
        let value_id = match decode_req::<Reference>(fs, "valueId") {
            Ok(v) => v,
            Err(e) => return Err(e),
        };
        Ok(ValueReferencePair { value, value_id })
    }
}

/// Members found as encoding writes them decode to a value, whatever
/// other members stand beside them.
pub proof fn lemma_value_reference_pair_round_trip(x: ValueReferencePair, fs: Seq<(String, Json)>)
    requires
        value_reference_pair_wf(x),
        value_reference_pair_lookups(x, fs),
    ensures
        value_reference_pair_error(fs) is None,
        value_reference_pair_rel(x, fs),
{
    lemma_req_round_trip(x.value, lookup(fs, "value"@));
    lemma_req_round_trip(x.value_id, lookup(fs, "valueId"@));
}

/// The values that the same members decode to hold the same content.
pub proof fn lemma_value_reference_pair_unique(x: ValueReferencePair, y: ValueReferencePair, fs: Seq<(String, Json)>)
    requires
        value_reference_pair_rel(x, fs),
        value_reference_pair_rel(y, fs),
    ensures
        value_reference_pair_equiv(x, y),
{
    lemma_req_unique(x.value, y.value, member(fs, "value"@));
    lemma_req_unique(x.value_id, y.value_id, member(fs, "valueId"@));
}

impl JsonCodec for ValueReferencePair {
    open spec fn wf(&self) -> bool {
        value_reference_pair_wf(*self)
    }

    open spec fn encoded(&self, j: Json) -> bool {
        j matches Json::Object(fs) && value_reference_pair_encoded(*self, fs@)
    }

    open spec fn rel(&self, j: Json) -> bool {
        j matches Json::Object(fs) && value_reference_pair_rel(*self, fs@)
    }

    open spec fn decode_error(j: Json) -> Option<DecodeError> {
        match j {
            Json::Object(fs) => value_reference_pair_error(fs@),
            _ => Some(DecodeError::UnexpectedKind),
        }
    }

    open spec fn equiv(&self, o: &Self) -> bool {
        value_reference_pair_equiv(*self, *o)
    }

    fn encode(&self) -> (r: Json) {
        Json::Object(self.encode_members())
    }

    fn decode(j: &Json) -> (r: Result<Self, DecodeError>) {
        match j {
            Json::Object(fs) => ValueReferencePair::decode_members(fs),
            _ => Err(DecodeError::UnexpectedKind),
        }
    }

    proof fn lemma_round_trip(&self, j: Json) {
        lemma_value_reference_pair_round_trip(*self, j->Object_0@);
    }

    proof fn lemma_unique(&self, o: &Self, j: Json) {
        lemma_value_reference_pair_unique(*self, *o, j->Object_0@);
    }
}

/// Which levels of a value are meant: maximum, minimum, nominal, typical.
#[derive(Clone, Debug, PartialEq)]
pub struct LevelType {
    pub max: bool,
    pub min: bool,
    pub nom: bool,
    pub typ: bool,
}

/// A name of the members of `LevelType`.
pub open spec fn level_type_name(n: Seq<char>) -> bool {
    n == "max"@ || n == "min"@ || n == "nom"@ || n == "typ"@
}

/// Looking up the members of `LevelType` in `fs` finds what encoding writes for `x`.
pub open spec fn level_type_lookups(x: LevelType, fs: Seq<(String, Json)>) -> bool {
    &&& req_encoded(x.max, lookup(fs, "max"@))
    &&& req_encoded(x.min, lookup(fs, "min"@))
    &&& req_encoded(x.nom, lookup(fs, "nom"@))
    &&& req_encoded(x.typ, lookup(fs, "typ"@))
}

/// `fs` are the members that encoding writes for `x`.
pub open spec fn level_type_encoded(x: LevelType, fs: Seq<(String, Json)>) -> bool {
    &&& names_within(fs, |n: Seq<char>| level_type_name(n))
    &&& level_type_lookups(x, fs)
}

/// The members of `fs` decode to `x`.
pub open spec fn level_type_rel(x: LevelType, fs: Seq<(String, Json)>) -> bool {
    &&& req_rel(x.max, member(fs, "max"@))
    &&& req_rel(x.min, member(fs, "min"@))
    &&& req_rel(x.nom, member(fs, "nom"@))
    &&& req_rel(x.typ, member(fs, "typ"@))
}

/// The error, if any, of decoding the members of `LevelType` from `fs`.
pub open spec fn level_type_error(fs: Seq<(String, Json)>) -> Option<DecodeError> {
    match req_error::<bool>(member(fs, "max"@)) {
        Some(e) => Some(e),
        None => {
            match req_error::<bool>(member(fs, "min"@)) {
                Some(e) => Some(e),
                None => {
                    match req_error::<bool>(member(fs, "nom"@)) {
                        Some(e) => Some(e),
                        None => {
                            match req_error::<bool>(member(fs, "typ"@)) {
                                Some(e) => Some(e),
                                None => {
                                    None
                                },
                            }
                        },
                    }
                },
            }
        },
    }
}

/// The values of `x` are well-formed.
pub open spec fn level_type_wf(x: LevelType) -> bool {
    &&& x.max.wf()
    &&& x.min.wf()
    &&& x.nom.wf()
    &&& x.typ.wf()
}

/// `x` and `y` hold the same content.
pub open spec fn level_type_equiv(x: LevelType, y: LevelType) -> bool {
    &&& x.max.equiv(&y.max)
    &&& x.min.equiv(&y.min)
    &&& x.nom.equiv(&y.nom)
    &&& x.typ.equiv(&y.typ)
}

impl LevelType {
    /// Writes the members of the value, absent ones left out.
    pub fn encode_members(&self) -> (r: Vec<(String, Json)>)
        ensures
            level_type_encoded(*self, r@),
    {
        proof {
            reveal_strlit("max");
            reveal_strlit("min");
            reveal_strlit("nom");
            reveal_strlit("typ");
            assert("max"@[1] != "min"@[1]);
            assert("max"@[0] != "nom"@[0]);
            assert("max"@[0] != "typ"@[0]);
            assert("min"@[1] != "max"@[1]);
            assert("min"@[0] != "nom"@[0]);
            assert("min"@[0] != "typ"@[0]);
            assert("nom"@[0] != "max"@[0]);
            assert("nom"@[0] != "min"@[0]);
            assert("nom"@[0] != "typ"@[0]);
            assert("typ"@[0] != "max"@[0]);
            assert("typ"@[0] != "min"@[0]);
            assert("typ"@[0] != "nom"@[0]);
        }
        let mut fs: Vec<(String, Json)> = Vec::new();
        let ghost prev = fs@;
        push_req(&mut fs, "max", &self.max);
        proof {
            if true {
                assert(fs@ == prev.push(fs@.last()));
                lemma_names_within_push(prev, fs@.last(), |n: Seq<char>| level_type_name(n));
                lemma_lookup_push(prev, fs@.last(), "max"@);
                lemma_lookup_push(prev, fs@.last(), "min"@);
                lemma_lookup_push(prev, fs@.last(), "nom"@);
                lemma_lookup_push(prev, fs@.last(), "typ"@);
            }
        }
        let ghost prev = fs@;
        push_req(&mut fs, "min", &self.min);
        proof {
            if true {
                assert(fs@ == prev.push(fs@.last()));
                lemma_names_within_push(prev, fs@.last(), |n: Seq<char>| level_type_name(n));
                lemma_lookup_push(prev, fs@.last(), "max"@);
                lemma_lookup_push(prev, fs@.last(), "min"@);
                lemma_lookup_push(prev, fs@.last(), "nom"@);
                lemma_lookup_push(prev, fs@.last(), "typ"@);
            }
        }
        let ghost prev = fs@;
        push_req(&mut fs, "nom", &self.nom);
        proof {
            if true {
                assert(fs@ == prev.push(fs@.last()));
                lemma_names_within_push(prev, fs@.last(), |n: Seq<char>| level_type_name(n));
                lemma_lookup_push(prev, fs@.last(), "max"@);
                lemma_lookup_push(prev, fs@.last(), "min"@);
                lemma_lookup_push(prev, fs@.last(), "nom"@);
                lemma_lookup_push(prev, fs@.last(), "typ"@);
            }
        }
        let ghost prev = fs@;
        push_req(&mut fs, "typ", &self.typ);
        proof {
            if true {
                assert(fs@ == prev.push(fs@.last()));
                lemma_names_within_push(prev, fs@.last(), |n: Seq<char>| level_type_name(n));
                lemma_lookup_push(prev, fs@.last(), "max"@);
                lemma_lookup_push(prev, fs@.last(), "min"@);
                lemma_lookup_push(prev, fs@.last(), "nom"@);
                lemma_lookup_push(prev, fs@.last(), "typ"@);
            }
        }
        fs
    }

    /// Reads the members of the value from `fs`.
    pub fn decode_members(fs: &Vec<(String, Json)>) -> (r: Result<LevelType, DecodeError>)
        ensures
            match level_type_error(fs@) {
                Some(e) => r == Err::<LevelType, DecodeError>(e),
                None => r matches Ok(x) && level_type_rel(x, fs@),
            },
    {
        let max = match decode_req::<bool>(fs, "max") {
            Ok(v) => v,
            Err(e) => return Err(e),
        };
        let min = match decode_req::<bool>(fs, "min") {
            Ok(v) => v,
            Err(e) => return Err(e),
        };
        let nom = match decode_req::<bool>(fs, "nom") {
            Ok(v) => v,
            Err(e) => return Err(e),
        };
        let typ = match decode_req::<bool>(fs, "typ") {
            Ok(v) => v,
            Err(e) => return Err(e),
        };
        Ok(LevelType { max, min, nom, typ })
    }
}

/// Members found as encoding writes them decode to a value, whatever
/// other members stand beside them.
pub proof fn lemma_level_type_round_trip(x: LevelType, fs: Seq<(String, Json)>)
    requires
        level_type_wf(x),
        level_type_lookups(x, fs),
    ensures
        level_type_error(fs) is None,
        level_type_rel(x, fs),
{
    lemma_req_round_trip(x.max, lookup(fs, "max"@));
    lemma_req_round_trip(x.min, lookup(fs, "min"@));
    lemma_req_round_trip(x.nom, lookup(fs, "nom"@));
    lemma_req_round_trip(x.typ, lookup(fs, "typ"@));
}

/// The values that the same members decode to hold the same content.
pub proof fn lemma_level_type_unique(x: LevelType, y: LevelType, fs: Seq<(String, Json)>)
    requires
        level_type_rel(x, fs),
        level_type_rel(y, fs),
    ensures
        level_type_equiv(x, y),
{
    lemma_req_unique(x.max, y.max, member(fs, "max"@));
    lemma_req_unique(x.min, y.min, member(fs, "min"@));
    lemma_req_unique(x.nom, y.nom, member(fs, "nom"@));
    lemma_req_unique(x.typ, y.typ, member(fs, "typ"@));
}

impl JsonCodec for LevelType {
    open spec fn wf(&self) -> bool {
        level_type_wf(*self)
    }

    open spec fn encoded(&self, j: Json) -> bool {
        j matches Json::Object(fs) && level_type_encoded(*self, fs@)
    }

    open spec fn rel(&self, j: Json) -> bool {
        j matches Json::Object(fs) && level_type_rel(*self, fs@)
    }

    open spec fn decode_error(j: Json) -> Option<DecodeError> {
        match j {
            Json::Object(fs) => level_type_error(fs@),
            _ => Some(DecodeError::UnexpectedKind),
        }
    }

    open spec fn equiv(&self, o: &Self) -> bool {
        level_type_equiv(*self, *o)
    }

    fn encode(&self) -> (r: Json) {
        Json::Object(self.encode_members())
    }

    fn decode(j: &Json) -> (r: Result<Self, DecodeError>) {
        match j {
            Json::Object(fs) => LevelType::decode_members(fs),
            _ => Err(DecodeError::UnexpectedKind),
        }
    }

    proof fn lemma_round_trip(&self, j: Json) {
        lemma_level_type_round_trip(*self, j->Object_0@);
    }

    proof fn lemma_unique(&self, o: &Self, j: Json) {
        lemma_level_type_unique(*self, *o, j->Object_0@);
    }
}

/// Whether an element is a template or an instance.
#[derive(Debug, PartialEq, Eq, Clone, Copy, Structural)]
pub enum ModellingKind {
    Instance,
    Template,
}

/// The wire name of a value of `ModellingKind`.
pub open spec fn modelling_kind_wire(x: ModellingKind) -> Seq<char> {
    match x {
        ModellingKind::Instance => "Instance"@,
        ModellingKind::Template => "Template"@,
    }
}

/// The value of `ModellingKind` that a wire name denotes, if any.
pub open spec fn modelling_kind_from_wire(s: Seq<char>) -> Option<ModellingKind> {
    if s == "Instance"@ {
        Some(ModellingKind::Instance)
    }
    else if s == "Template"@ {
        Some(ModellingKind::Template)
    }
 else {
        None
    }
}

/// Each value is found again from its wire name.
pub proof fn lemma_modelling_kind_wire_inverse(x: ModellingKind)
    ensures
        modelling_kind_from_wire(modelling_kind_wire(x)) == Some(x),
{
    match x {
        ModellingKind::Instance => {
            reveal_strlit("Instance");
            assert("Instance"@.len() == 8);
        },
        ModellingKind::Template => {
            reveal_strlit("Template");
            assert("Template"@.len() == 8);
            reveal_strlit("Instance");
            assert("Template"@[0] != "Instance"@[0]);
        },
    }
}

impl ModellingKind {
    /// The wire name of the value.
    pub fn wire_name(&self) -> (r: &'static str)
        ensures
            r@ == modelling_kind_wire(*self),
    {
        match self {
            ModellingKind::Instance => "Instance",
            ModellingKind::Template => "Template",
        }
    }

    /// The value that a wire name denotes, if any.
    pub fn from_wire(s: &str) -> (r: Option<ModellingKind>)
        ensures
            r == modelling_kind_from_wire(s@),
    {
        if str_eq(s, "Instance") {
            Some(ModellingKind::Instance)
        }
        else if str_eq(s, "Template") {
            Some(ModellingKind::Template)
        }
        else {
            None
        }
    }
}

impl JsonCodec for ModellingKind {
    open spec fn wf(&self) -> bool {
        true
    }

    open spec fn encoded(&self, j: Json) -> bool {
        j matches Json::Str(s) && s@ == modelling_kind_wire(*self)
    }

    open spec fn rel(&self, j: Json) -> bool {
        j matches Json::Str(s) && modelling_kind_from_wire(s@) == Some(*self)
    }

    open spec fn decode_error(j: Json) -> Option<DecodeError> {
        match j {
            Json::Str(s) => if modelling_kind_from_wire(s@) is Some {
                None
            } else {
                Some(DecodeError::UnknownDiscriminator)
            },
            _ => Some(DecodeError::UnexpectedKind),
        }
    }

    open spec fn equiv(&self, o: &Self) -> bool {
        *self == *o
    }

    fn encode(&self) -> (r: Json) {
        Json::Str(self.wire_name().to_string())
    }

    fn decode(j: &Json) -> (r: Result<Self, DecodeError>) {
        match j {
            Json::Str(s) => match ModellingKind::from_wire(s.as_str()) {
                Some(x) => Ok(x),
                None => Err(DecodeError::UnknownDiscriminator),
            },
            _ => Err(DecodeError::UnexpectedKind),
        }
    }

    proof fn lemma_round_trip(&self, j: Json) {
        lemma_modelling_kind_wire_inverse(*self);
    }

    proof fn lemma_unique(&self, o: &Self, j: Json) {
    }
}

impl Default for HasSemantics {
    /// No semantic ids.
    fn default() -> (r: HasSemantics)
        ensures
            r.semantic_id is None,
            r.supplemental_semantic_ids is None,
    {
        HasSemantics { semantic_id: None, supplemental_semantic_ids: None }
    }
}

impl Default for HasExtensions {
    /// No extensions.
    fn default() -> (r: HasExtensions)
        ensures
            r.extension is None,
    {
        HasExtensions { extension: None }
    }
}

impl Default for Referable {
    /// No short id, names, category or extensions.
    fn default() -> (r: Referable)
        ensures
            r.id_short is None,
            r.display_name is None,
            r.description is None,
            r.category is None,
            r.extensions.extension is None,
    {
        Referable {
            id_short: None,
            display_name: None,
            description: None,
            category: None,
            extensions: HasExtensions::default(),
        }
    }
}

impl Default for Qualifiable {
    /// No qualifiers.
    fn default() -> (r: Qualifiable)
        ensures
            r.qualifiers is None,
    {
        Qualifiable { qualifiers: None }
    }
}

impl Default for HasDataSpecification {
    /// No data specifications.
    fn default() -> (r: HasDataSpecification)
        ensures
            r.embedded_data_specifications is None,
    {
        HasDataSpecification { embedded_data_specifications: None }
    }
}

/// No two extensions of `v` have the same name.
pub open spec fn names_unique(v: Seq<Extension>) -> bool {
    forall|i: int, k: int| 0 <= i < k < v.len() ==> (#[trigger] v[i]).name@ != (#[trigger] v[k]).name@
}

impl HasExtensions {
    /// Whether the extensions meet their constraints: when present, the
    /// list is not empty and the names are unique.
    pub fn is_valid(&self) -> (r: bool)
        ensures
            r == match self.extension {
                None => true,
                Some(v) => v@.len() > 0 && names_unique(v@),
            },
    {
        match &self.extension {
            None => true,
            Some(v) => {
                if v.len() == 0 {
                    return false;
                }
                let mut k: usize = 1;
                while k < v.len()
                    invariant
                        self.extension == Some(*v),
                        1 <= k <= v@.len(),
                        names_unique(v@.subrange(0, k as int)),
                    decreases v@.len() - k,
                {
                    let mut i: usize = 0;
                    while i < k
                        invariant
                            self.extension == Some(*v),
                            i <= k < v@.len(),
                            forall|p: int| 0 <= p < i ==> v@[p].name@ != v@[k as int].name@,
                        decreases k - i,
                    {
                        if crate::text::str_eq(v[i].name.as_str(), v[k].name.as_str()) {
                            assert(!names_unique(v@)) by {
                                assert(v@[i as int].name@ == v@[k as int].name@);
                            }
                            return false;
                        }
                        i += 1;
                    }
                    assert(names_unique(v@.subrange(0, k + 1))) by {
                        assert forall|a: int, b: int| 0 <= a < b < v@.subrange(0, k + 1).len() implies (
                        #[trigger] v@.subrange(0, k + 1)[a]).name@ != (#[trigger] v@.subrange(0, k + 1)[b]).name@ by {
                            if b < k {
                                assert(v@.subrange(0, k as int)[a] == v@[a]);
                                assert(v@.subrange(0, k as int)[b] == v@[b]);
                            }
                        }
                    }
                    k += 1;
                }
                assert(v@.subrange(0, v@.len() as int) =~= v@);
                true
            },
        }
    }
}

} // verus!
