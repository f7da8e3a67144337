use vstd::prelude::*;
use crate::json::{Json, DecodeError, lookup, member, get_member, field, lemma_lookup_first, lemma_lookup_skip};
use crate::codec::{
    lemma_names_within_weaken, lemma_names_within_empty, lemma_names_within_concat, lemma_lookup_outside,
    JsonCodec, names_within, opt_encoded, opt_rel, opt_error, opt_wf, opt_equiv, req_encoded, req_rel,
    req_error, push_opt, push_req, decode_opt, decode_req, lemma_opt_round_trip, lemma_req_round_trip,
    lemma_opt_unique, lemma_req_unique, lemma_lookup_push, lemma_names_within_push,
};

use crate::json::lemma_lookup_concat;
use crate::reference::Reference;
use crate::primitives::Identifier;
use crate::attributes::{
    Referable, referable_name, referable_lookups, referable_rel, referable_error, referable_wf,
    referable_equiv, lemma_referable_round_trip, lemma_referable_unique, HasSemantics, has_semantics_name,
    has_semantics_lookups, has_semantics_rel, has_semantics_error, has_semantics_wf, has_semantics_equiv,
    lemma_has_semantics_round_trip, lemma_has_semantics_unique, Qualifiable, qualifiable_name,
    qualifiable_lookups, qualifiable_rel, qualifiable_error, qualifiable_wf, qualifiable_equiv,
    lemma_qualifiable_round_trip, lemma_qualifiable_unique, HasDataSpecification,
    has_data_specification_name, has_data_specification_lookups, has_data_specification_rel,
    has_data_specification_error, has_data_specification_wf, has_data_specification_equiv,
    lemma_has_data_specification_round_trip, lemma_has_data_specification_unique, ModellingKind,
};
use crate::elements::SpecificAssetId;
use crate::model::SubmodelElement;
use crate::text::str_eq;

verus! {

broadcast use vstd::string::group_string_axioms;

/// The version and revision of an element. A revision is only given
/// together with a version.
#[derive(Debug, PartialEq)]
pub struct Version {
    version: Option<String>,
    revision: Option<String>,
}

/// Errors of building a version.
#[derive(Debug, PartialEq, Eq, Clone, Copy, Structural)]
pub enum VersionError {
    /// A revision was given without a version.
    RevisionNotApplicable,
}

impl Version {
    #[verifier::type_invariant]
    closed spec fn inv(self) -> bool {
        self.revision is Some ==> self.version is Some
    }

    /// The version part.
    pub closed spec fn spec_version(self) -> Option<String> {
        self.version
    }

    /// The revision part.
    pub closed spec fn spec_revision(self) -> Option<String> {
        self.revision
    }

    /// A version of the given parts; a revision without a version is refused.
    pub fn new(version: Option<String>, revision: Option<String>) -> (r: Result<Version, VersionError>)
        ensures
            revision is Some && version is None ==> r == Err::<Version, VersionError>(
                VersionError::RevisionNotApplicable,
            ),
            !(revision is Some && version is None) ==> (r matches Ok(v) && v.spec_version() == version
                && v.spec_revision() == revision),
    {
        match (&version, &revision) {
            (None, Some(_)) => Err(VersionError::RevisionNotApplicable),
            _ => Ok(Version { version, revision }),
        }
    }

    /// The version part.
    pub fn version(&self) -> (r: &Option<String>)
        ensures
            *r == self.spec_version(),
    {
        &self.version
    }

    /// The revision part; present only when the version is.
    pub fn revision(&self) -> (r: &Option<String>)
        ensures
            *r == self.spec_revision(),
            r is Some ==> self.spec_version() is Some,
    {
        proof {
            use_type_invariant(self);
        }
        &self.revision
    }

    /// Writes the members `version` and `revision` that are present.
    pub fn encode_members(&self) -> (r: Vec<(String, Json)>)
        ensures
            version_encoded(*self, r@),
    {
        proof {
            reveal_strlit("version");
            reveal_strlit("revision");
            assert("version"@.len() == 7 && "revision"@.len() == 8);
        }
        let mut fs: Vec<(String, Json)> = Vec::new();
        let ghost prev = fs@;
        push_opt(&mut fs, "version", &self.version);
        proof {
            if self.version is Some {
                assert(fs@ == prev.push(fs@.last()));
                lemma_names_within_push(prev, fs@.last(), |n: Seq<char>| version_name(n));
                lemma_lookup_push(prev, fs@.last(), "version"@);
                lemma_lookup_push(prev, fs@.last(), "revision"@);
            }
        }
        let ghost prev = fs@;
        push_opt(&mut fs, "revision", &self.revision);
        proof {
            if self.revision is Some {
                assert(fs@ == prev.push(fs@.last()));
                lemma_names_within_push(prev, fs@.last(), |n: Seq<char>| version_name(n));
                lemma_lookup_push(prev, fs@.last(), "version"@);
                lemma_lookup_push(prev, fs@.last(), "revision"@);
            }
        }
        fs
    }

    /// Reads the members `version` and `revision`; a revision without a
    /// version is refused.
    pub fn decode_members(fs: &Vec<(String, Json)>) -> (r: Result<Version, DecodeError>)
        ensures
            match version_error(fs@) {
                Some(e) => r == Err::<Version, DecodeError>(e),
                None => r matches Ok(x) && version_rel(x, fs@),
            },
    {
        let version = match decode_opt::<String>(fs, "version") {
            Ok(v) => v,
            Err(e) => return Err(e),
        };
        let revision = match decode_opt::<String>(fs, "revision") {
            Ok(v) => v,
            Err(e) => return Err(e),
        };
        match Version::new(version, revision) {
            Ok(v) => Ok(v),
            Err(_) => Err(DecodeError::RevisionWithoutVersion),
        }
    }
}

impl Clone for Version {
    fn clone(&self) -> (r: Version) {
        proof {
            use_type_invariant(self);
        }
        let version = match &self.version {
            Some(v) => Some(v.clone()),
            None => None,
        };
        let revision = match &self.revision {
            Some(v) => Some(v.clone()),
            None => None,
        };
        Version { version, revision }
    }
}

/// A name of the members of a version.
pub open spec fn version_name(n: Seq<char>) -> bool {
    n == "version"@ || n == "revision"@
}

/// Looking up `version` and `revision` in `fs` finds what encoding writes for `x`.
pub open spec fn version_lookups(x: Version, fs: Seq<(String, Json)>) -> bool {
    &&& opt_encoded(x.spec_version(), lookup(fs, "version"@))
    &&& opt_encoded(x.spec_revision(), lookup(fs, "revision"@))
}

/// `fs` are the members that encoding writes for `x`.
pub open spec fn version_encoded(x: Version, fs: Seq<(String, Json)>) -> bool {
    &&& names_within(fs, |n: Seq<char>| version_name(n))
    &&& version_lookups(x, fs)
}

/// The members of `fs` decode to `x`.
pub open spec fn version_rel(x: Version, fs: Seq<(String, Json)>) -> bool {
    &&& opt_rel(x.spec_version(), member(fs, "version"@))
    &&& opt_rel(x.spec_revision(), member(fs, "revision"@))
}

/// The error, if any, of decoding a version from `fs`.
pub open spec fn version_error(fs: Seq<(String, Json)>) -> Option<DecodeError> {
    match opt_error::<String>(member(fs, "version"@)) {
        Some(e) => Some(e),
        None => match opt_error::<String>(member(fs, "revision"@)) {
            Some(e) => Some(e),
            None => if member(fs, "revision"@) is Some && member(fs, "version"@) is None {
                Some(DecodeError::RevisionWithoutVersion)
            } else {
                None
            },
        },
    }
}

/// A revision comes with a version, as every version has it.
pub open spec fn version_wf(x: Version) -> bool {
    x.spec_revision() is Some ==> x.spec_version() is Some
}

/// The same version and revision texts.
pub open spec fn version_equiv(x: Version, y: Version) -> bool {
    opt_equiv(x.spec_version(), y.spec_version()) && opt_equiv(x.spec_revision(), y.spec_revision())
}

/// Members found as encoding writes them decode to the version.
pub proof fn lemma_version_round_trip(x: Version, fs: Seq<(String, Json)>)
    requires
        version_wf(x),
        version_lookups(x, fs),
    ensures
        version_error(fs) is None,
        version_rel(x, fs),
{
    lemma_opt_round_trip(x.spec_version(), lookup(fs, "version"@));
    lemma_opt_round_trip(x.spec_revision(), lookup(fs, "revision"@));
}

/// The versions that the same members decode to are alike.
pub proof fn lemma_version_unique(x: Version, y: Version, fs: Seq<(String, Json)>)
    requires
        version_rel(x, fs),
        version_rel(y, fs),
    ensures
        version_equiv(x, y),
{
    lemma_opt_unique(x.spec_version(), y.spec_version(), member(fs, "version"@));
    lemma_opt_unique(x.spec_revision(), y.spec_revision(), member(fs, "revision"@));
}

/// Administrative information of an element: version, creator and template.
#[derive(Clone, Debug, PartialEq)]
pub struct AdministrativeInformation {
    pub version: Version,
    /// The subject responsible for making the element.
    pub creator: Option<Reference>,
    pub template_id: Option<Identifier>,
    pub data_specification: HasDataSpecification,
}

/// A name of the members of `AdministrativeInformation`.
pub open spec fn administrative_information_name(n: Seq<char>) -> bool {
    version_name(n) || n == "creator"@ || n == "templateId"@ || has_data_specification_name(n)
}

/// Looking up the members of `AdministrativeInformation` in `fs` finds what encoding writes for `x`.
pub open spec fn administrative_information_lookups(x: AdministrativeInformation, fs: Seq<(String, Json)>) -> bool {
    &&& version_lookups(x.version, fs)
    &&& opt_encoded(x.creator, lookup(fs, "creator"@))
    &&& opt_encoded(x.template_id, lookup(fs, "templateId"@))
    &&& has_data_specification_lookups(x.data_specification, fs)
}

/// `fs` are the members that encoding writes for `x`.
pub open spec fn administrative_information_encoded(x: AdministrativeInformation, fs: Seq<(String, Json)>) -> bool {
    &&& names_within(fs, |n: Seq<char>| administrative_information_name(n))
    &&& administrative_information_lookups(x, fs)
}

/// The members of `fs` decode to `x`.
pub open spec fn administrative_information_rel(x: AdministrativeInformation, fs: Seq<(String, Json)>) -> bool {
    &&& version_rel(x.version, fs)
    &&& opt_rel(x.creator, member(fs, "creator"@))
    &&& opt_rel(x.template_id, member(fs, "templateId"@))
    &&& has_data_specification_rel(x.data_specification, fs)
}

/// The error, if any, of decoding the members of `AdministrativeInformation` from `fs`.
pub open spec fn administrative_information_error(fs: Seq<(String, Json)>) -> Option<DecodeError> {
    match version_error(fs) {
        Some(e) => Some(e),
        None => {
            match opt_error::<Reference>(member(fs, "creator"@)) {
                Some(e) => Some(e),
                None => {
                    match opt_error::<Identifier>(member(fs, "templateId"@)) {
                        Some(e) => Some(e),
                        None => {
                            match has_data_specification_error(fs) {
                                Some(e) => Some(e),
                                None => {
                                    None
                                },
                            }
                        },
                    }
                },
            }
        },
    }
}

/// The values of `x` are well-formed.
pub open spec fn administrative_information_wf(x: AdministrativeInformation) -> bool {
    &&& version_wf(x.version)
    &&& opt_wf(x.creator)
    &&& opt_wf(x.template_id)
    &&& has_data_specification_wf(x.data_specification)
}

/// `x` and `y` hold the same content.
pub open spec fn administrative_information_equiv(x: AdministrativeInformation, y: AdministrativeInformation) -> bool {
    &&& version_equiv(x.version, y.version)
    &&& opt_equiv(x.creator, y.creator)
    &&& opt_equiv(x.template_id, y.template_id)
    &&& has_data_specification_equiv(x.data_specification, y.data_specification)
}

impl AdministrativeInformation {
    /// Writes the members of the value, absent ones left out.
    pub fn encode_members(&self) -> (r: Vec<(String, Json)>)
        ensures
            administrative_information_encoded(*self, r@),
    {
        proof {
            reveal_strlit("version");
            reveal_strlit("revision");
            reveal_strlit("creator");
            reveal_strlit("templateId");
            reveal_strlit("embeddedDataSpecifications");
            assert("version"@.len() == 7 && "revision"@.len() == 8);
            assert("version"@[0] != "creator"@[0]);
            assert("version"@.len() == 7 && "templateId"@.len() == 10);
            assert("version"@.len() == 7 && "embeddedDataSpecifications"@.len() == 26);
            assert("revision"@.len() == 8 && "version"@.len() == 7);
            assert("revision"@.len() == 8 && "creator"@.len() == 7);
            assert("revision"@.len() == 8 && "templateId"@.len() == 10);
            assert("revision"@.len() == 8 && "embeddedDataSpecifications"@.len() == 26);
            assert("creator"@[0] != "version"@[0]);
            assert("creator"@.len() == 7 && "revision"@.len() == 8);
            assert("creator"@.len() == 7 && "templateId"@.len() == 10);
            assert("creator"@.len() == 7 && "embeddedDataSpecifications"@.len() == 26);
            assert("templateId"@.len() == 10 && "version"@.len() == 7);
            assert("templateId"@.len() == 10 && "revision"@.len() == 8);
            assert("templateId"@.len() == 10 && "creator"@.len() == 7);
            assert("templateId"@.len() == 10 && "embeddedDataSpecifications"@.len() == 26);
            assert("embeddedDataSpecifications"@.len() == 26 && "version"@.len() == 7);
            assert("embeddedDataSpecifications"@.len() == 26 && "revision"@.len() == 8);
            assert("embeddedDataSpecifications"@.len() == 26 && "creator"@.len() == 7);
            assert("embeddedDataSpecifications"@.len() == 26 && "templateId"@.len() == 10);
        }
        let mut fs: Vec<(String, Json)> = Vec::new();
        let ghost prev = fs@;
        let mut part = self.version.encode_members();
        let ghost sp = part@;
        fs.append(&mut part);
        proof {
            lemma_names_within_empty(prev, |n: Seq<char>| version_name(n));
            lemma_names_within_concat(prev, sp, |n: Seq<char>| version_name(n), |n: Seq<char>| version_name(n), |n: Seq<char>| version_name(n));
            lemma_lookup_concat(prev, sp, "version"@);
            assert(prev.len() == 0);
            lemma_lookup_concat(prev, sp, "revision"@);
            assert(prev.len() == 0);
        }
        let ghost prev = fs@;
        push_opt(&mut fs, "creator", &self.creator);
        proof {
            lemma_names_within_weaken(prev, |n: Seq<char>| version_name(n), |n: Seq<char>| version_name(n) || n == "creator"@);
            lemma_lookup_outside(prev, |n: Seq<char>| version_name(n), "creator"@);
            if self.creator is Some {
                assert(fs@ == prev.push(fs@.last()));
                lemma_names_within_push(prev, fs@.last(), |n: Seq<char>| version_name(n) || n == "creator"@);
                lemma_lookup_push(prev, fs@.last(), "version"@);
                lemma_lookup_push(prev, fs@.last(), "revision"@);
                lemma_lookup_push(prev, fs@.last(), "creator"@);
            }
        }
        let ghost prev = fs@;
        push_opt(&mut fs, "templateId", &self.template_id);
        proof {
            lemma_names_within_weaken(prev, |n: Seq<char>| version_name(n) || n == "creator"@, |n: Seq<char>| version_name(n) || n == "creator"@ || n == "templateId"@);
            lemma_lookup_outside(prev, |n: Seq<char>| version_name(n) || n == "creator"@, "templateId"@);
            if self.template_id is Some {
                assert(fs@ == prev.push(fs@.last()));
                lemma_names_within_push(prev, fs@.last(), |n: Seq<char>| version_name(n) || n == "creator"@ || n == "templateId"@);
                lemma_lookup_push(prev, fs@.last(), "version"@);
                lemma_lookup_push(prev, fs@.last(), "revision"@);
                lemma_lookup_push(prev, fs@.last(), "creator"@);
                lemma_lookup_push(prev, fs@.last(), "templateId"@);
            }
        }
        let ghost prev = fs@;
        let mut part = self.data_specification.encode_members();
        let ghost sp = part@;
        fs.append(&mut part);
        proof {
            lemma_names_within_concat(prev, sp, |n: Seq<char>| version_name(n) || n == "creator"@ || n == "templateId"@, |n: Seq<char>| has_data_specification_name(n), |n: Seq<char>| administrative_information_name(n));
            lemma_lookup_concat(prev, sp, "version"@);
            lemma_lookup_outside(sp, |n: Seq<char>| has_data_specification_name(n), "version"@);
            lemma_lookup_concat(prev, sp, "revision"@);
            lemma_lookup_outside(sp, |n: Seq<char>| has_data_specification_name(n), "revision"@);
            lemma_lookup_concat(prev, sp, "creator"@);
            lemma_lookup_outside(sp, |n: Seq<char>| has_data_specification_name(n), "creator"@);
            lemma_lookup_concat(prev, sp, "templateId"@);
            lemma_lookup_outside(sp, |n: Seq<char>| has_data_specification_name(n), "templateId"@);
            lemma_lookup_concat(prev, sp, "embeddedDataSpecifications"@);
            lemma_lookup_outside(prev, |n: Seq<char>| version_name(n) || n == "creator"@ || n == "templateId"@, "embeddedDataSpecifications"@);
        }
        fs
    }

    /// Reads the members of the value from `fs`.
    pub fn decode_members(fs: &Vec<(String, Json)>) -> (r: Result<AdministrativeInformation, DecodeError>)
        ensures
            match administrative_information_error(fs@) {
                Some(e) => r == Err::<AdministrativeInformation, DecodeError>(e),
                None => r matches Ok(x) && administrative_information_rel(x, fs@),
            },
    {
        let version = match Version::decode_members(fs) {
            Ok(v) => v,
            Err(e) => return Err(e),
        };
        let creator = match decode_opt::<Reference>(fs, "creator") {
            Ok(v) => v,
            Err(e) => return Err(e),
        };
        let template_id = match decode_opt::<Identifier>(fs, "templateId") {
            Ok(v) => v,
            Err(e) => return Err(e),
        };
        let data_specification = match HasDataSpecification::decode_members(fs) {
            Ok(v) => v,
            Err(e) => return Err(e),
        };
        Ok(AdministrativeInformation { version, creator, template_id, data_specification })
    }
}

/// Members found as encoding writes them decode to a value, whatever
/// other members stand beside them.
pub proof fn lemma_administrative_information_round_trip(x: AdministrativeInformation, fs: Seq<(String, Json)>)
    requires
        administrative_information_wf(x),
        administrative_information_lookups(x, fs),
    ensures
        administrative_information_error(fs) is None,
        administrative_information_rel(x, fs),
{
    lemma_version_round_trip(x.version, fs);
    lemma_opt_round_trip(x.creator, lookup(fs, "creator"@));
    lemma_opt_round_trip(x.template_id, lookup(fs, "templateId"@));
    lemma_has_data_specification_round_trip(x.data_specification, fs);
}

/// The values that the same members decode to hold the same content.
pub proof fn lemma_administrative_information_unique(x: AdministrativeInformation, y: AdministrativeInformation, fs: Seq<(String, Json)>)
    requires
        administrative_information_rel(x, fs),
        administrative_information_rel(y, fs),
    ensures
        administrative_information_equiv(x, y),
{
    lemma_version_unique(x.version, y.version, fs);
    lemma_opt_unique(x.creator, y.creator, member(fs, "creator"@));
    lemma_opt_unique(x.template_id, y.template_id, member(fs, "templateId"@));
    lemma_has_data_specification_unique(x.data_specification, y.data_specification, fs);
}

impl JsonCodec for AdministrativeInformation {
    open spec fn wf(&self) -> bool {
        administrative_information_wf(*self)
    }

    open spec fn encoded(&self, j: Json) -> bool {
        j matches Json::Object(fs) && administrative_information_encoded(*self, fs@)
    }

    open spec fn rel(&self, j: Json) -> bool {
        j matches Json::Object(fs) && administrative_information_rel(*self, fs@)
    }

    open spec fn decode_error(j: Json) -> Option<DecodeError> {
        match j {
            Json::Object(fs) => administrative_information_error(fs@),
            _ => Some(DecodeError::UnexpectedKind),
        }
    }

    open spec fn equiv(&self, o: &Self) -> bool {
        administrative_information_equiv(*self, *o)
    }

    fn encode(&self) -> (r: Json) {
        Json::Object(self.encode_members())
    }

    fn decode(j: &Json) -> (r: Result<Self, DecodeError>) {
        match j {
            Json::Object(fs) => AdministrativeInformation::decode_members(fs),
            _ => Err(DecodeError::UnexpectedKind),
        }
    }

    proof fn lemma_round_trip(&self, j: Json) {
        lemma_administrative_information_round_trip(*self, j->Object_0@);
    }

    proof fn lemma_unique(&self, o: &Self, j: Json) {
        lemma_administrative_information_unique(*self, *o, j->Object_0@);
    }
}

/// The identity of an identifiable element: its id, administrative information and naming.
#[derive(Clone, Debug, PartialEq)]
pub struct Identifiable {
    pub id: Identifier,
    pub administrative_information: Option<AdministrativeInformation>,
    pub referable: Referable,
}

/// A name of the members of `Identifiable`.
pub open spec fn identifiable_name(n: Seq<char>) -> bool {
    n == "id"@ || n == "administrative_information"@ || referable_name(n)
}

/// Looking up the members of `Identifiable` in `fs` finds what encoding writes for `x`.
pub open spec fn identifiable_lookups(x: Identifiable, fs: Seq<(String, Json)>) -> bool {
    &&& req_encoded(x.id, lookup(fs, "id"@))
    &&& opt_encoded(x.administrative_information, lookup(fs, "administrative_information"@))
    &&& referable_lookups(x.referable, fs)
}

/// `fs` are the members that encoding writes for `x`.
pub open spec fn identifiable_encoded(x: Identifiable, fs: Seq<(String, Json)>) -> bool {
    &&& names_within(fs, |n: Seq<char>| identifiable_name(n))
    &&& identifiable_lookups(x, fs)
}

/// The members of `fs` decode to `x`.
pub open spec fn identifiable_rel(x: Identifiable, fs: Seq<(String, Json)>) -> bool {
    &&& req_rel(x.id, member(fs, "id"@))
    &&& opt_rel(x.administrative_information, member(fs, "administrative_information"@))
    &&& referable_rel(x.referable, fs)
}

/// The error, if any, of decoding the members of `Identifiable` from `fs`.
pub open spec fn identifiable_error(fs: Seq<(String, Json)>) -> Option<DecodeError> {
    match req_error::<Identifier>(member(fs, "id"@)) {
        Some(e) => Some(e),
        None => {
            match opt_error::<AdministrativeInformation>(member(fs, "administrative_information"@)) {
                Some(e) => Some(e),
                None => {
                    match referable_error(fs) {
                        Some(e) => Some(e),
                        None => {
                            None
                        },
                    }
                },
            }
        },
    }
}

/// The values of `x` are well-formed.
pub open spec fn identifiable_wf(x: Identifiable) -> bool {
    &&& x.id.wf()
    &&& opt_wf(x.administrative_information)
    &&& referable_wf(x.referable)
}

/// `x` and `y` hold the same content.
pub open spec fn identifiable_equiv(x: Identifiable, y: Identifiable) -> bool {
    &&& x.id.equiv(&y.id)
    &&& opt_equiv(x.administrative_information, y.administrative_information)
    &&& referable_equiv(x.referable, y.referable)
}

impl Identifiable {
    /// Writes the members of the value, absent ones left out.
    pub fn encode_members(&self) -> (r: Vec<(String, Json)>)
        ensures
            identifiable_encoded(*self, r@),
    {
        proof {
            reveal_strlit("id");
            reveal_strlit("administrative_information");
            reveal_strlit("idShort");
            reveal_strlit("displayName");
            reveal_strlit("description");
            reveal_strlit("category");
            reveal_strlit("extensions");
            assert("id"@.len() == 2 && "administrative_information"@.len() == 26);
            assert("id"@.len() == 2 && "idShort"@.len() == 7);
            assert("id"@.len() == 2 && "displayName"@.len() == 11);
            assert("id"@.len() == 2 && "description"@.len() == 11);
            assert("id"@.len() == 2 && "category"@.len() == 8);
            assert("id"@.len() == 2 && "extensions"@.len() == 10);
            assert("administrative_information"@.len() == 26 && "id"@.len() == 2);
            assert("administrative_information"@.len() == 26 && "idShort"@.len() == 7);
            assert("administrative_information"@.len() == 26 && "displayName"@.len() == 11);
            assert("administrative_information"@.len() == 26 && "description"@.len() == 11);
            assert("administrative_information"@.len() == 26 && "category"@.len() == 8);
            assert("administrative_information"@.len() == 26 && "extensions"@.len() == 10);
            assert("idShort"@.len() == 7 && "id"@.len() == 2);
            assert("idShort"@.len() == 7 && "administrative_information"@.len() == 26);
            assert("idShort"@.len() == 7 && "displayName"@.len() == 11);
            assert("idShort"@.len() == 7 && "description"@.len() == 11);
            assert("idShort"@.len() == 7 && "category"@.len() == 8);
            assert("idShort"@.len() == 7 && "extensions"@.len() == 10);
            assert("displayName"@.len() == 11 && "id"@.len() == 2);
            assert("displayName"@.len() == 11 && "administrative_information"@.len() == 26);
            assert("displayName"@.len() == 11 && "idShort"@.len() == 7);
            assert("displayName"@[1] != "description"@[1]);
            assert("displayName"@.len() == 11 && "category"@.len() == 8);
            assert("displayName"@.len() == 11 && "extensions"@.len() == 10);
            assert("description"@.len() == 11 && "id"@.len() == 2);
            assert("description"@.len() == 11 && "administrative_information"@.len() == 26);
            assert("description"@.len() == 11 && "idShort"@.len() == 7);
            assert("description"@[1] != "displayName"@[1]);
            assert("description"@.len() == 11 && "category"@.len() == 8);
            assert("description"@.len() == 11 && "extensions"@.len() == 10);
            assert("category"@.len() == 8 && "id"@.len() == 2);
            assert("category"@.len() == 8 && "administrative_information"@.len() == 26);
            assert("category"@.len() == 8 && "idShort"@.len() == 7);
            assert("category"@.len() == 8 && "displayName"@.len() == 11);
            assert("category"@.len() == 8 && "description"@.len() == 11);
            assert("category"@.len() == 8 && "extensions"@.len() == 10);
            assert("extensions"@.len() == 10 && "id"@.len() == 2);
            assert("extensions"@.len() == 10 && "administrative_information"@.len() == 26);
            assert("extensions"@.len() == 10 && "idShort"@.len() == 7);
            assert("extensions"@.len() == 10 && "displayName"@.len() == 11);
            assert("extensions"@.len() == 10 && "description"@.len() == 11);
            assert("extensions"@.len() == 10 && "category"@.len() == 8);
        }
        let mut fs: Vec<(String, Json)> = Vec::new();
        let ghost prev = fs@;
        push_req(&mut fs, "id", &self.id);
        proof {
            lemma_names_within_empty(prev, |n: Seq<char>| n == "id"@);
            if true {
                assert(fs@ == prev.push(fs@.last()));
                lemma_names_within_push(prev, fs@.last(), |n: Seq<char>| n == "id"@);
                lemma_lookup_push(prev, fs@.last(), "id"@);
            }
        }
        let ghost prev = fs@;
        push_opt(&mut fs, "administrative_information", &self.administrative_information);
        proof {
            lemma_names_within_weaken(prev, |n: Seq<char>| n == "id"@, |n: Seq<char>| n == "id"@ || n == "administrative_information"@);
            lemma_lookup_outside(prev, |n: Seq<char>| n == "id"@, "administrative_information"@);
            if self.administrative_information is Some {
                assert(fs@ == prev.push(fs@.last()));
                lemma_names_within_push(prev, fs@.last(), |n: Seq<char>| n == "id"@ || n == "administrative_information"@);
                lemma_lookup_push(prev, fs@.last(), "id"@);
                lemma_lookup_push(prev, fs@.last(), "administrative_information"@);
            }
        }
        let ghost prev = fs@;
        let mut part = self.referable.encode_members();
        let ghost sp = part@;
        fs.append(&mut part);
        proof {
            lemma_names_within_concat(prev, sp, |n: Seq<char>| n == "id"@ || n == "administrative_information"@, |n: Seq<char>| referable_name(n), |n: Seq<char>| identifiable_name(n));
            lemma_lookup_concat(prev, sp, "id"@);
            lemma_lookup_outside(sp, |n: Seq<char>| referable_name(n), "id"@);
            lemma_lookup_concat(prev, sp, "administrative_information"@);
            lemma_lookup_outside(sp, |n: Seq<char>| referable_name(n), "administrative_information"@);
            lemma_lookup_concat(prev, sp, "idShort"@);
            lemma_lookup_outside(prev, |n: Seq<char>| n == "id"@ || n == "administrative_information"@, "idShort"@);
            lemma_lookup_concat(prev, sp, "displayName"@);
            lemma_lookup_outside(prev, |n: Seq<char>| n == "id"@ || n == "administrative_information"@, "displayName"@);
            lemma_lookup_concat(prev, sp, "description"@);
            lemma_lookup_outside(prev, |n: Seq<char>| n == "id"@ || n == "administrative_information"@, "description"@);
            lemma_lookup_concat(prev, sp, "category"@);
            lemma_lookup_outside(prev, |n: Seq<char>| n == "id"@ || n == "administrative_information"@, "category"@);
            lemma_lookup_concat(prev, sp, "extensions"@);
            lemma_lookup_outside(prev, |n: Seq<char>| n == "id"@ || n == "administrative_information"@, "extensions"@);
        }
        fs
    }

    /// Reads the members of the value from `fs`.
    pub fn decode_members(fs: &Vec<(String, Json)>) -> (r: Result<Identifiable, DecodeError>)
        ensures
            match identifiable_error(fs@) {
                Some(e) => r == Err::<Identifiable, DecodeError>(e),
                None => r matches Ok(x) && identifiable_rel(x, fs@),
            },
    {
        let id = match decode_req::<Identifier>(fs, "id") {
            Ok(v) => v,
            Err(e) => return Err(e),
        };
        let administrative_information = match decode_opt::<AdministrativeInformation>(fs, "administrative_information") {
            Ok(v) => v,
            Err(e) => return Err(e),
        };
        let referable = match Referable::decode_members(fs) {
            Ok(v) => v,
            Err(e) => return Err(e),
        };
        Ok(Identifiable { id, administrative_information, referable })
    }
}

/// Members found as encoding writes them decode to a value, whatever
/// other members stand beside them.
pub proof fn lemma_identifiable_round_trip(x: Identifiable, fs: Seq<(String, Json)>)
    requires
        identifiable_wf(x),
        identifiable_lookups(x, fs),
    ensures
        identifiable_error(fs) is None,
        identifiable_rel(x, fs),
{
    lemma_req_round_trip(x.id, lookup(fs, "id"@));
    lemma_opt_round_trip(x.administrative_information, lookup(fs, "administrative_information"@));
    lemma_referable_round_trip(x.referable, fs);
}

/// The values that the same members decode to hold the same content.
pub proof fn lemma_identifiable_unique(x: Identifiable, y: Identifiable, fs: Seq<(String, Json)>)
    requires
        identifiable_rel(x, fs),
        identifiable_rel(y, fs),
    ensures
        identifiable_equiv(x, y),
{
    lemma_req_unique(x.id, y.id, member(fs, "id"@));
    lemma_opt_unique(x.administrative_information, y.administrative_information, member(fs, "administrative_information"@));
    lemma_referable_unique(x.referable, y.referable, fs);
}

/// A file or other resource, by its path and content type.
#[derive(Clone, Debug, PartialEq)]
pub struct Resource {
    /// The path of the resource, a URI.
    pub path: String,
    pub content_type: Option<String>,
}

/// A name of the members of `Resource`.
pub open spec fn resource_name(n: Seq<char>) -> bool {
    n == "path"@ || n == "contentType"@
}

/// Looking up the members of `Resource` in `fs` finds what encoding writes for `x`.
pub open spec fn resource_lookups(x: Resource, fs: Seq<(String, Json)>) -> bool {
    &&& req_encoded(x.path, lookup(fs, "path"@))
    &&& opt_encoded(x.content_type, lookup(fs, "contentType"@))
}

/// `fs` are the members that encoding writes for `x`.
pub open spec fn resource_encoded(x: Resource, fs: Seq<(String, Json)>) -> bool {
    &&& names_within(fs, |n: Seq<char>| resource_name(n))
    &&& resource_lookups(x, fs)
}

/// The members of `fs` decode to `x`.
pub open spec fn resource_rel(x: Resource, fs: Seq<(String, Json)>) -> bool {
    &&& req_rel(x.path, member(fs, "path"@))
    &&& opt_rel(x.content_type, member(fs, "contentType"@))
}

/// The error, if any, of decoding the members of `Resource` from `fs`.
pub open spec fn resource_error(fs: Seq<(String, Json)>) -> Option<DecodeError> {
    match req_error::<String>(member(fs, "path"@)) {
        Some(e) => Some(e),
        None => {
            match opt_error::<String>(member(fs, "contentType"@)) {
                Some(e) => Some(e),
                None => {
                    None
                },
            }
        },
    }
}

/// The values of `x` are well-formed.
pub open spec fn resource_wf(x: Resource) -> bool {
    &&& x.path.wf()
    &&& opt_wf(x.content_type)
}

/// `x` and `y` hold the same content.
pub open spec fn resource_equiv(x: Resource, y: Resource) -> bool {
    &&& x.path.equiv(&y.path)
    &&& opt_equiv(x.content_type, y.content_type)
}

impl Resource {
    /// Writes the members of the value, absent ones left out.
    pub fn encode_members(&self) -> (r: Vec<(String, Json)>)
        ensures
            resource_encoded(*self, r@),
    {
        proof {
            reveal_strlit("path");
            reveal_strlit("contentType");
            assert("path"@.len() == 4 && "contentType"@.len() == 11);
            assert("contentType"@.len() == 11 && "path"@.len() == 4);
        }
        let mut fs: Vec<(String, Json)> = Vec::new();
        let ghost prev = fs@;
        push_req(&mut fs, "path", &self.path);
        proof {
            lemma_names_within_empty(prev, |n: Seq<char>| n == "path"@);
            if true {
                assert(fs@ == prev.push(fs@.last()));
                lemma_names_within_push(prev, fs@.last(), |n: Seq<char>| n == "path"@);
                lemma_lookup_push(prev, fs@.last(), "path"@);
            }
        }
        let ghost prev = fs@;
        push_opt(&mut fs, "contentType", &self.content_type);
        proof {
            lemma_names_within_weaken(prev, |n: Seq<char>| n == "path"@, |n: Seq<char>| resource_name(n));
            lemma_lookup_outside(prev, |n: Seq<char>| n == "path"@, "contentType"@);
            if self.content_type is Some {
                assert(fs@ == prev.push(fs@.last()));
                lemma_names_within_push(prev, fs@.last(), |n: Seq<char>| resource_name(n));
                lemma_lookup_push(prev, fs@.last(), "path"@);
                lemma_lookup_push(prev, fs@.last(), "contentType"@);
            }
        }
        fs
    }

    /// Reads the members of the value from `fs`.
    pub fn decode_members(fs: &Vec<(String, Json)>) -> (r: Result<Resource, DecodeError>)
        ensures
            match resource_error(fs@) {
                Some(e) => r == Err::<Resource, DecodeError>(e),
                None => r matches Ok(x) && resource_rel(x, fs@),
            },
    {
        let path = match decode_req::<String>(fs, "path") {
            Ok(v) => v,
            Err(e) => return Err(e),
        };
        let content_type = match decode_opt::<String>(fs, "contentType") {
            Ok(v) => v,
            Err(e) => return Err(e),
        };
        Ok(Resource { path, content_type })
    }
}

/// Members found as encoding writes them decode to a value, whatever
/// other members stand beside them.
pub proof fn lemma_resource_round_trip(x: Resource, fs: Seq<(String, Json)>)
    requires
        resource_wf(x),
        resource_lookups(x, fs),
    ensures
        resource_error(fs) is None,
        resource_rel(x, fs),
{
    lemma_req_round_trip(x.path, lookup(fs, "path"@));
    lemma_opt_round_trip(x.content_type, lookup(fs, "contentType"@));
}

/// The values that the same members decode to hold the same content.
pub proof fn lemma_resource_unique(x: Resource, y: Resource, fs: Seq<(String, Json)>)
    requires
        resource_rel(x, fs),
        resource_rel(y, fs),
    ensures
        resource_equiv(x, y),
{
    lemma_req_unique(x.path, y.path, member(fs, "path"@));
    lemma_opt_unique(x.content_type, y.content_type, member(fs, "contentType"@));
}

impl JsonCodec for Resource {
    open spec fn wf(&self) -> bool {
        resource_wf(*self)
    }

    open spec fn encoded(&self, j: Json) -> bool {
        j matches Json::Object(fs) && resource_encoded(*self, fs@)
    }

    open spec fn rel(&self, j: Json) -> bool {
        j matches Json::Object(fs) && resource_rel(*self, fs@)
    }

    open spec fn decode_error(j: Json) -> Option<DecodeError> {
        match j {
            Json::Object(fs) => resource_error(fs@),
            _ => Some(DecodeError::UnexpectedKind),
        }
    }

    open spec fn equiv(&self, o: &Self) -> bool {
        resource_equiv(*self, *o)
    }

    fn encode(&self) -> (r: Json) {
        Json::Object(self.encode_members())
    }

    fn decode(j: &Json) -> (r: Result<Self, DecodeError>) {
        match j {
            Json::Object(fs) => Resource::decode_members(fs),
            _ => Err(DecodeError::UnexpectedKind),
        }
    }

    proof fn lemma_round_trip(&self, j: Json) {
        lemma_resource_round_trip(*self, j->Object_0@);
    }

    proof fn lemma_unique(&self, o: &Self, j: Json) {
        lemma_resource_unique(*self, *o, j->Object_0@);
    }
}

/// What a shell knows of its asset.
#[derive(Clone, Debug, PartialEq)]
pub struct AssetInformationInner {
    pub global_asset_id: Option<Identifier>,
    pub specific_asset_ids: Option<Vec<SpecificAssetId>>,
    pub asset_type: Option<Identifier>,
    pub default_thumbnail: Option<Resource>,
}

/// A name of the members of `AssetInformationInner`.
pub open spec fn asset_information_inner_name(n: Seq<char>) -> bool {
    n == "globalAssetId"@ || n == "specificAssetIds"@ || n == "assetType"@ || n == "defaultThumbnail"@
}

/// Looking up the members of `AssetInformationInner` in `fs` finds what encoding writes for `x`.
pub open spec fn asset_information_inner_lookups(x: AssetInformationInner, fs: Seq<(String, Json)>) -> bool {
    &&& opt_encoded(x.global_asset_id, lookup(fs, "globalAssetId"@))
    &&& opt_encoded(x.specific_asset_ids, lookup(fs, "specificAssetIds"@))
    &&& opt_encoded(x.asset_type, lookup(fs, "assetType"@))
    &&& opt_encoded(x.default_thumbnail, lookup(fs, "defaultThumbnail"@))
}

/// `fs` are the members that encoding writes for `x`.
pub open spec fn asset_information_inner_encoded(x: AssetInformationInner, fs: Seq<(String, Json)>) -> bool {
    &&& names_within(fs, |n: Seq<char>| asset_information_inner_name(n))
    &&& asset_information_inner_lookups(x, fs)
}

/// The members of `fs` decode to `x`.
pub open spec fn asset_information_inner_rel(x: AssetInformationInner, fs: Seq<(String, Json)>) -> bool {
    &&& opt_rel(x.global_asset_id, member(fs, "globalAssetId"@))
    &&& opt_rel(x.specific_asset_ids, member(fs, "specificAssetIds"@))
    &&& opt_rel(x.asset_type, member(fs, "assetType"@))
    &&& opt_rel(x.default_thumbnail, member(fs, "defaultThumbnail"@))
}

/// The error, if any, of decoding the members of `AssetInformationInner` from `fs`.
pub open spec fn asset_information_inner_error(fs: Seq<(String, Json)>) -> Option<DecodeError> {
    match opt_error::<Identifier>(member(fs, "globalAssetId"@)) {
        Some(e) => Some(e),
        None => {
            match opt_error::<Vec<SpecificAssetId>>(member(fs, "specificAssetIds"@)) {
                Some(e) => Some(e),
                None => {
                    match opt_error::<Identifier>(member(fs, "assetType"@)) {
                        Some(e) => Some(e),
                        None => {
                            match opt_error::<Resource>(member(fs, "defaultThumbnail"@)) {
                                Some(e) => Some(e),
                                None => {
                                    None
                                },
                            }
                        },
                    }
                },
            }
        },
    }
}

/// The values of `x` are well-formed.
pub open spec fn asset_information_inner_wf(x: AssetInformationInner) -> bool {
    &&& opt_wf(x.global_asset_id)
    &&& opt_wf(x.specific_asset_ids)
    &&& opt_wf(x.asset_type)
    &&& opt_wf(x.default_thumbnail)
}

/// `x` and `y` hold the same content.
pub open spec fn asset_information_inner_equiv(x: AssetInformationInner, y: AssetInformationInner) -> bool {
    &&& opt_equiv(x.global_asset_id, y.global_asset_id)
    &&& opt_equiv(x.specific_asset_ids, y.specific_asset_ids)
    &&& opt_equiv(x.asset_type, y.asset_type)
    &&& opt_equiv(x.default_thumbnail, y.default_thumbnail)
}

impl AssetInformationInner {
    /// Writes the members of the value, absent ones left out.
    pub fn encode_members(&self) -> (r: Vec<(String, Json)>)
        ensures
            asset_information_inner_encoded(*self, r@),
    {
        proof {
            reveal_strlit("globalAssetId");
            reveal_strlit("specificAssetIds");
            reveal_strlit("assetType");
            reveal_strlit("defaultThumbnail");
            assert("globalAssetId"@.len() == 13 && "specificAssetIds"@.len() == 16);
            assert("globalAssetId"@.len() == 13 && "assetType"@.len() == 9);
            assert("globalAssetId"@.len() == 13 && "defaultThumbnail"@.len() == 16);
            assert("specificAssetIds"@.len() == 16 && "globalAssetId"@.len() == 13);
            assert("specificAssetIds"@.len() == 16 && "assetType"@.len() == 9);
            assert("specificAssetIds"@[0] != "defaultThumbnail"@[0]);
            assert("assetType"@.len() == 9 && "globalAssetId"@.len() == 13);
            assert("assetType"@.len() == 9 && "specificAssetIds"@.len() == 16);
            assert("assetType"@.len() == 9 && "defaultThumbnail"@.len() == 16);
            assert("defaultThumbnail"@.len() == 16 && "globalAssetId"@.len() == 13);
            assert("defaultThumbnail"@[0] != "specificAssetIds"@[0]);
            assert("defaultThumbnail"@.len() == 16 && "assetType"@.len() == 9);
        }
        let mut fs: Vec<(String, Json)> = Vec::new();
        let ghost prev = fs@;
        push_opt(&mut fs, "globalAssetId", &self.global_asset_id);
        proof {
            lemma_names_within_empty(prev, |n: Seq<char>| n == "globalAssetId"@);
            if self.global_asset_id is Some {
                assert(fs@ == prev.push(fs@.last()));
                lemma_names_within_push(prev, fs@.last(), |n: Seq<char>| n == "globalAssetId"@);
                lemma_lookup_push(prev, fs@.last(), "globalAssetId"@);
            }
        }
        let ghost prev = fs@;
        push_opt(&mut fs, "specificAssetIds", &self.specific_asset_ids);
        proof {
            lemma_names_within_weaken(prev, |n: Seq<char>| n == "globalAssetId"@, |n: Seq<char>| n == "globalAssetId"@ || n == "specificAssetIds"@);
            lemma_lookup_outside(prev, |n: Seq<char>| n == "globalAssetId"@, "specificAssetIds"@);
            if self.specific_asset_ids is Some {
                assert(fs@ == prev.push(fs@.last()));
                lemma_names_within_push(prev, fs@.last(), |n: Seq<char>| n == "globalAssetId"@ || n == "specificAssetIds"@);
                lemma_lookup_push(prev, fs@.last(), "globalAssetId"@);
                lemma_lookup_push(prev, fs@.last(), "specificAssetIds"@);
            }
        }
        let ghost prev = fs@;
        push_opt(&mut fs, "assetType", &self.asset_type);
        proof {
            lemma_names_within_weaken(prev, |n: Seq<char>| n == "globalAssetId"@ || n == "specificAssetIds"@, |n: Seq<char>| n == "globalAssetId"@ || n == "specificAssetIds"@ || n == "assetType"@);
            lemma_lookup_outside(prev, |n: Seq<char>| n == "globalAssetId"@ || n == "specificAssetIds"@, "assetType"@);
            if self.asset_type is Some {
                assert(fs@ == prev.push(fs@.last()));
                lemma_names_within_push(prev, fs@.last(), |n: Seq<char>| n == "globalAssetId"@ || n == "specificAssetIds"@ || n == "assetType"@);
                lemma_lookup_push(prev, fs@.last(), "globalAssetId"@);
                lemma_lookup_push(prev, fs@.last(), "specificAssetIds"@);
                lemma_lookup_push(prev, fs@.last(), "assetType"@);
            }
        }
        let ghost prev = fs@;
        push_opt(&mut fs, "defaultThumbnail", &self.default_thumbnail);
        proof {
            lemma_names_within_weaken(prev, |n: Seq<char>| n == "globalAssetId"@ || n == "specificAssetIds"@ || n == "assetType"@, |n: Seq<char>| asset_information_inner_name(n));
            lemma_lookup_outside(prev, |n: Seq<char>| n == "globalAssetId"@ || n == "specificAssetIds"@ || n == "assetType"@, "defaultThumbnail"@);
            if self.default_thumbnail is Some {
                assert(fs@ == prev.push(fs@.last()));
                lemma_names_within_push(prev, fs@.last(), |n: Seq<char>| asset_information_inner_name(n));
                lemma_lookup_push(prev, fs@.last(), "globalAssetId"@);
                lemma_lookup_push(prev, fs@.last(), "specificAssetIds"@);
                lemma_lookup_push(prev, fs@.last(), "assetType"@);
                lemma_lookup_push(prev, fs@.last(), "defaultThumbnail"@);
            }
        }
        fs
    }

    /// Reads the members of the value from `fs`.
    pub fn decode_members(fs: &Vec<(String, Json)>) -> (r: Result<AssetInformationInner, DecodeError>)
        ensures
            match asset_information_inner_error(fs@) {
                Some(e) => r == Err::<AssetInformationInner, DecodeError>(e),
                None => r matches Ok(x) && asset_information_inner_rel(x, fs@),
            },
    {
        let global_asset_id = match decode_opt::<Identifier>(fs, "globalAssetId") {
            Ok(v) => v,
            Err(e) => return Err(e),
        };
        let specific_asset_ids = match decode_opt::<Vec<SpecificAssetId>>(fs, "specificAssetIds") {
            Ok(v) => v,
            Err(e) => return Err(e),
        };
        let asset_type = match decode_opt::<Identifier>(fs, "assetType") {
            Ok(v) => v,
            Err(e) => return Err(e),
        };
        let default_thumbnail = match decode_opt::<Resource>(fs, "defaultThumbnail") {
            Ok(v) => v,
            Err(e) => return Err(e),
        };
        Ok(AssetInformationInner { global_asset_id, specific_asset_ids, asset_type, default_thumbnail })
    }
}

/// Members found as encoding writes them decode to a value, whatever
/// other members stand beside them.
pub proof fn lemma_asset_information_inner_round_trip(x: AssetInformationInner, fs: Seq<(String, Json)>)
    requires
        asset_information_inner_wf(x),
        asset_information_inner_lookups(x, fs),
    ensures
        asset_information_inner_error(fs) is None,
        asset_information_inner_rel(x, fs),
{
    lemma_opt_round_trip(x.global_asset_id, lookup(fs, "globalAssetId"@));
    lemma_opt_round_trip(x.specific_asset_ids, lookup(fs, "specificAssetIds"@));
    lemma_opt_round_trip(x.asset_type, lookup(fs, "assetType"@));
    lemma_opt_round_trip(x.default_thumbnail, lookup(fs, "defaultThumbnail"@));
}

/// The values that the same members decode to hold the same content.
pub proof fn lemma_asset_information_inner_unique(x: AssetInformationInner, y: AssetInformationInner, fs: Seq<(String, Json)>)
    requires
        asset_information_inner_rel(x, fs),
        asset_information_inner_rel(y, fs),
    ensures
        asset_information_inner_equiv(x, y),
{
    lemma_opt_unique(x.global_asset_id, y.global_asset_id, member(fs, "globalAssetId"@));
    lemma_opt_unique(x.specific_asset_ids, y.specific_asset_ids, member(fs, "specificAssetIds"@));
    lemma_opt_unique(x.asset_type, y.asset_type, member(fs, "assetType"@));
    lemma_opt_unique(x.default_thumbnail, y.default_thumbnail, member(fs, "defaultThumbnail"@));
}

/// The information on the asset of a shell, by the kind of asset.
#[derive(Clone, Debug, PartialEq)]
pub enum AssetInformation {
    Instance(AssetInformationInner),
    NotApplicable(AssetInformationInner),
    Role(AssetInformationInner),
    Type(AssetInformationInner),
}

/// The wire name of the kind of asset.
pub open spec fn asset_kind_name(a: AssetInformation) -> Seq<char> {
    match a {
        AssetInformation::Instance(_) => "Instance"@,
        AssetInformation::NotApplicable(_) => "NotApplicable"@,
        AssetInformation::Role(_) => "Role"@,
        AssetInformation::Type(_) => "Type"@,
    }
}

/// The content of the asset information.
pub open spec fn asset_information_content(a: AssetInformation) -> AssetInformationInner {
    match a {
        AssetInformation::Instance(i) => i,
        AssetInformation::NotApplicable(i) => i,
        AssetInformation::Role(i) => i,
        AssetInformation::Type(i) => i,
    }
}

/// Whether `s` names a kind of asset.
pub open spec fn is_asset_kind_name(s: Seq<char>) -> bool {
    s == "Instance"@ || s == "NotApplicable"@ || s == "Role"@ || s == "Type"@
}

impl JsonCodec for AssetInformation {
    open spec fn wf(&self) -> bool {
        asset_information_inner_wf(asset_information_content(*self))
    }

    open spec fn encoded(&self, j: Json) -> bool {
        j matches Json::Object(fs) && fs@.len() > 0 && fs@[0].0@ == "assetKind"@ && (fs@[0].1 matches Json::Str(
            s,
        ) && s@ == asset_kind_name(*self)) && asset_information_inner_encoded(asset_information_content(*self), fs@.drop_first())
    }

    open spec fn rel(&self, j: Json) -> bool {
        j matches Json::Object(fs) && (member(fs@, "assetKind"@) matches Some(Json::Str(s)) && s@
            == asset_kind_name(*self)) && asset_information_inner_rel(asset_information_content(*self), fs@)
    }

    open spec fn decode_error(j: Json) -> Option<DecodeError> {
        match j {
            Json::Object(fs) => match member(fs@, "assetKind"@) {
                None => Some(DecodeError::MissingField),
                Some(Json::Str(s)) => if is_asset_kind_name(s@) {
                    asset_information_inner_error(fs@)
                } else {
                    Some(DecodeError::UnknownDiscriminator)
                },
                Some(_) => Some(DecodeError::UnexpectedKind),
            },
            _ => Some(DecodeError::UnexpectedKind),
        }
    }

    open spec fn equiv(&self, o: &Self) -> bool {
        asset_kind_name(*self) == asset_kind_name(*o) && asset_information_inner_equiv(
            asset_information_content(*self),
            asset_information_content(*o),
        )
    }

    fn encode(&self) -> (r: Json) {
        let (kind, inner): (&str, &AssetInformationInner) = match self {
            AssetInformation::Instance(i) => ("Instance", i),
            AssetInformation::NotApplicable(i) => ("NotApplicable", i),
            AssetInformation::Role(i) => ("Role", i),
            AssetInformation::Type(i) => ("Type", i),
        };
        let mut fs: Vec<(String, Json)> = Vec::new();
        fs.push(field("assetKind", Json::Str(kind.to_string())));
        let mut part = inner.encode_members();
        let ghost sp = part@;
        fs.append(&mut part);
        assert(fs@.drop_first() =~= sp);
        Json::Object(fs)
    }

    fn decode(j: &Json) -> (r: Result<Self, DecodeError>) {
        proof {
            reveal_strlit("Instance");
            reveal_strlit("NotApplicable");
            reveal_strlit("Role");
            reveal_strlit("Type");
            assert("Instance"@.len() == 8 && "NotApplicable"@.len() == 13);
            assert("Instance"@.len() == 8 && "Role"@.len() == 4);
            assert("Instance"@.len() == 8 && "Type"@.len() == 4);
            assert("NotApplicable"@.len() == 13 && "Instance"@.len() == 8);
            assert("NotApplicable"@.len() == 13 && "Role"@.len() == 4);
            assert("NotApplicable"@.len() == 13 && "Type"@.len() == 4);
            assert("Role"@.len() == 4 && "Instance"@.len() == 8);
            assert("Role"@.len() == 4 && "NotApplicable"@.len() == 13);
            assert("Role"@[0] != "Type"@[0]);
            assert("Type"@.len() == 4 && "Instance"@.len() == 8);
            assert("Type"@.len() == 4 && "NotApplicable"@.len() == 13);
            assert("Type"@[0] != "Role"@[0]);
        }
        let fs = match j {
            Json::Object(fs) => fs,
            _ => return Err(DecodeError::UnexpectedKind),
        };
        let kind = match get_member(fs, "assetKind") {
            None => return Err(DecodeError::MissingField),
            Some(Json::Str(s)) => s,
            Some(_) => return Err(DecodeError::UnexpectedKind),
        };
        let known = str_eq(kind.as_str(), "Instance") || str_eq(kind.as_str(), "NotApplicable") || str_eq(
            kind.as_str(),
            "Role",
        ) || str_eq(kind.as_str(), "Type");
        if !known {
            return Err(DecodeError::UnknownDiscriminator);
        }
        let inner = match AssetInformationInner::decode_members(fs) {
            Ok(v) => v,
            Err(e) => return Err(e),
        };
        if str_eq(kind.as_str(), "Instance") {
            Ok(AssetInformation::Instance(inner))
        } else if str_eq(kind.as_str(), "NotApplicable") {
            Ok(AssetInformation::NotApplicable(inner))
        } else if str_eq(kind.as_str(), "Role") {
            Ok(AssetInformation::Role(inner))
        } else {
            Ok(AssetInformation::Type(inner))
        }
    }

    proof fn lemma_round_trip(&self, j: Json) {
        let fs = j->Object_0@;
        let rest = fs.drop_first();
        assert(fs =~= seq![fs[0]] + rest);
        reveal_strlit("assetKind");
        reveal_strlit("globalAssetId");
        reveal_strlit("specificAssetIds");
        reveal_strlit("assetType");
        reveal_strlit("defaultThumbnail");
        reveal_strlit("Instance");
        reveal_strlit("NotApplicable");
        reveal_strlit("Role");
        reveal_strlit("Type");
        assert("assetKind"@.len() == 9 && "globalAssetId"@.len() == 13);
        assert("assetKind"@.len() == 9 && "specificAssetIds"@.len() == 16);
        assert("assetKind"@[5] != "assetType"@[5]);
        assert("assetKind"@.len() == 9 && "defaultThumbnail"@.len() == 16);
        assert("Instance"@.len() == 8 && "NotApplicable"@.len() == 13);
        assert("Instance"@.len() == 8 && "Role"@.len() == 4);
        assert("Instance"@.len() == 8 && "Type"@.len() == 4);
        assert("NotApplicable"@.len() == 13 && "Instance"@.len() == 8);
        assert("NotApplicable"@.len() == 13 && "Role"@.len() == 4);
        assert("NotApplicable"@.len() == 13 && "Type"@.len() == 4);
        assert("Role"@.len() == 4 && "Instance"@.len() == 8);
        assert("Role"@.len() == 4 && "NotApplicable"@.len() == 13);
        assert("Role"@[0] != "Type"@[0]);
        assert("Type"@.len() == 4 && "Instance"@.len() == 8);
        assert("Type"@.len() == 4 && "NotApplicable"@.len() == 13);
        assert("Type"@[0] != "Role"@[0]);
        lemma_lookup_first(rest, fs[0]);
        lemma_lookup_skip(rest, fs[0], "globalAssetId"@);
        lemma_lookup_skip(rest, fs[0], "specificAssetIds"@);
        lemma_lookup_skip(rest, fs[0], "assetType"@);
        lemma_lookup_skip(rest, fs[0], "defaultThumbnail"@);
        lemma_asset_information_inner_round_trip(asset_information_content(*self), fs);
    }

    proof fn lemma_unique(&self, o: &Self, j: Json) {
        lemma_asset_information_inner_unique(
            asset_information_content(*self),
            asset_information_content(*o),
            j->Object_0@,
        );
    }
}

/// An asset administration shell: the descriptor of one asset and the references to its submodels.
#[derive(Clone, Debug, PartialEq)]
pub struct AssetAdministrationShell {
    pub asset_information: AssetInformation,
    pub identifiable: Identifiable,
    pub data_specification: HasDataSpecification,
    pub derived_from: Option<Reference>,
    pub submodels: Option<Vec<Reference>>,
}

/// A name of the members of `AssetAdministrationShell`.
pub open spec fn asset_administration_shell_name(n: Seq<char>) -> bool {
    n == "AssetAdministrationShell"@ || n == "assetInformation"@ || identifiable_name(n) || has_data_specification_name(n) || n == "derivedFrom"@ || n == "submodels"@
}

/// Looking up the members of `AssetAdministrationShell` in `fs` finds what encoding writes for `x`.
pub open spec fn asset_administration_shell_lookups(x: AssetAdministrationShell, fs: Seq<(String, Json)>) -> bool {
    &&& lookup(fs, "AssetAdministrationShell"@) matches Some(Json::Str(t)) && t@ == "AssetAdministrationShell"@
    &&& req_encoded(x.asset_information, lookup(fs, "assetInformation"@))
    &&& identifiable_lookups(x.identifiable, fs)
    &&& has_data_specification_lookups(x.data_specification, fs)
    &&& opt_encoded(x.derived_from, lookup(fs, "derivedFrom"@))
    &&& opt_encoded(x.submodels, lookup(fs, "submodels"@))
}

/// `fs` are the members that encoding writes for `x`.
pub open spec fn asset_administration_shell_encoded(x: AssetAdministrationShell, fs: Seq<(String, Json)>) -> bool {
    &&& names_within(fs, |n: Seq<char>| asset_administration_shell_name(n))
    &&& asset_administration_shell_lookups(x, fs)
}

/// The members of `fs` decode to `x`.
pub open spec fn asset_administration_shell_rel(x: AssetAdministrationShell, fs: Seq<(String, Json)>) -> bool {
    &&& member(fs, "AssetAdministrationShell"@) matches Some(Json::Str(t)) && t@ == "AssetAdministrationShell"@
    &&& req_rel(x.asset_information, member(fs, "assetInformation"@))
    &&& identifiable_rel(x.identifiable, fs)
    &&& has_data_specification_rel(x.data_specification, fs)
    &&& opt_rel(x.derived_from, member(fs, "derivedFrom"@))
    &&& opt_rel(x.submodels, member(fs, "submodels"@))
}

/// The error, if any, of decoding the members of `AssetAdministrationShell` from `fs`.
pub open spec fn asset_administration_shell_error(fs: Seq<(String, Json)>) -> Option<DecodeError> {
    match member(fs, "AssetAdministrationShell"@) {
        None => Some(DecodeError::MissingField),
        Some(Json::Str(t)) => if t@ == "AssetAdministrationShell"@ {
            match req_error::<AssetInformation>(member(fs, "assetInformation"@)) {
                Some(e) => Some(e),
                None => {
                    match identifiable_error(fs) {
                        Some(e) => Some(e),
                        None => {
                            match has_data_specification_error(fs) {
                                Some(e) => Some(e),
                                None => {
                                    match opt_error::<Reference>(member(fs, "derivedFrom"@)) {
                                        Some(e) => Some(e),
                                        None => {
                                            match opt_error::<Vec<Reference>>(member(fs, "submodels"@)) {
                                                Some(e) => Some(e),
                                                None => {
                                                    None
                                                },
                                            }
                                        },
                                    }
                                },
                            }
                        },
                    }
                },
            }
        } else {
            Some(DecodeError::UnknownDiscriminator)
        },
        Some(_) => Some(DecodeError::UnexpectedKind),
    }
}

/// The values of `x` are well-formed.
pub open spec fn asset_administration_shell_wf(x: AssetAdministrationShell) -> bool {
    &&& x.asset_information.wf()
    &&& identifiable_wf(x.identifiable)
    &&& has_data_specification_wf(x.data_specification)
    &&& opt_wf(x.derived_from)
    &&& opt_wf(x.submodels)
}

/// `x` and `y` hold the same content.
pub open spec fn asset_administration_shell_equiv(x: AssetAdministrationShell, y: AssetAdministrationShell) -> bool {
    &&& x.asset_information.equiv(&y.asset_information)
    &&& identifiable_equiv(x.identifiable, y.identifiable)
    &&& has_data_specification_equiv(x.data_specification, y.data_specification)
    &&& opt_equiv(x.derived_from, y.derived_from)
    &&& opt_equiv(x.submodels, y.submodels)
}

impl AssetAdministrationShell {
    /// Writes the members of the value, absent ones left out.
    #[verifier::rlimit(100)]
    #[verifier::spinoff_prover]
    pub fn encode_members(&self) -> (r: Vec<(String, Json)>)
        ensures
            asset_administration_shell_encoded(*self, r@),
    {
        proof {
            reveal_strlit("AssetAdministrationShell");
            reveal_strlit("assetInformation");
            reveal_strlit("id");
            reveal_strlit("administrative_information");
            reveal_strlit("idShort");
            reveal_strlit("displayName");
            reveal_strlit("description");
            reveal_strlit("category");
            reveal_strlit("extensions");
            reveal_strlit("embeddedDataSpecifications");
            reveal_strlit("derivedFrom");
            reveal_strlit("submodels");
            assert("AssetAdministrationShell"@.len() == 24 && "assetInformation"@.len() == 16);
            assert("AssetAdministrationShell"@.len() == 24 && "id"@.len() == 2);
            assert("AssetAdministrationShell"@.len() == 24 && "administrative_information"@.len() == 26);
            assert("AssetAdministrationShell"@.len() == 24 && "idShort"@.len() == 7);
            assert("AssetAdministrationShell"@.len() == 24 && "displayName"@.len() == 11);
            assert("AssetAdministrationShell"@.len() == 24 && "description"@.len() == 11);
            assert("AssetAdministrationShell"@.len() == 24 && "category"@.len() == 8);
            assert("AssetAdministrationShell"@.len() == 24 && "extensions"@.len() == 10);
            assert("AssetAdministrationShell"@.len() == 24 && "embeddedDataSpecifications"@.len() == 26);
            assert("AssetAdministrationShell"@.len() == 24 && "derivedFrom"@.len() == 11);
            assert("AssetAdministrationShell"@.len() == 24 && "submodels"@.len() == 9);
            assert("assetInformation"@.len() == 16 && "AssetAdministrationShell"@.len() == 24);
            assert("assetInformation"@.len() == 16 && "id"@.len() == 2);
            assert("assetInformation"@.len() == 16 && "administrative_information"@.len() == 26);
            assert("assetInformation"@.len() == 16 && "idShort"@.len() == 7);
            assert("assetInformation"@.len() == 16 && "displayName"@.len() == 11);
            assert("assetInformation"@.len() == 16 && "description"@.len() == 11);
            assert("assetInformation"@.len() == 16 && "category"@.len() == 8);
            assert("assetInformation"@.len() == 16 && "extensions"@.len() == 10);
            assert("assetInformation"@.len() == 16 && "embeddedDataSpecifications"@.len() == 26);
            assert("assetInformation"@.len() == 16 && "derivedFrom"@.len() == 11);
            assert("assetInformation"@.len() == 16 && "submodels"@.len() == 9);
            assert("id"@.len() == 2 && "AssetAdministrationShell"@.len() == 24);
            assert("id"@.len() == 2 && "assetInformation"@.len() == 16);
            assert("id"@.len() == 2 && "administrative_information"@.len() == 26);
            assert("id"@.len() == 2 && "idShort"@.len() == 7);
            assert("id"@.len() == 2 && "displayName"@.len() == 11);
            assert("id"@.len() == 2 && "description"@.len() == 11);
            assert("id"@.len() == 2 && "category"@.len() == 8);
            assert("id"@.len() == 2 && "extensions"@.len() == 10);
            assert("id"@.len() == 2 && "embeddedDataSpecifications"@.len() == 26);
            assert("id"@.len() == 2 && "derivedFrom"@.len() == 11);
            assert("id"@.len() == 2 && "submodels"@.len() == 9);
            assert("administrative_information"@.len() == 26 && "AssetAdministrationShell"@.len() == 24);
            assert("administrative_information"@.len() == 26 && "assetInformation"@.len() == 16);
            assert("administrative_information"@.len() == 26 && "id"@.len() == 2);
            assert("administrative_information"@.len() == 26 && "idShort"@.len() == 7);
            assert("administrative_information"@.len() == 26 && "displayName"@.len() == 11);
            assert("administrative_information"@.len() == 26 && "description"@.len() == 11);
            assert("administrative_information"@.len() == 26 && "category"@.len() == 8);
            assert("administrative_information"@.len() == 26 && "extensions"@.len() == 10);
            assert("administrative_information"@[0] != "embeddedDataSpecifications"@[0]);
            assert("administrative_information"@.len() == 26 && "derivedFrom"@.len() == 11);
            assert("administrative_information"@.len() == 26 && "submodels"@.len() == 9);
            assert("idShort"@.len() == 7 && "AssetAdministrationShell"@.len() == 24);
            assert("idShort"@.len() == 7 && "assetInformation"@.len() == 16);
            assert("idShort"@.len() == 7 && "id"@.len() == 2);
            assert("idShort"@.len() == 7 && "administrative_information"@.len() == 26);
            assert("idShort"@.len() == 7 && "displayName"@.len() == 11);
            assert("idShort"@.len() == 7 && "description"@.len() == 11);
            assert("idShort"@.len() == 7 && "category"@.len() == 8);
            assert("idShort"@.len() == 7 && "extensions"@.len() == 10);
            assert("idShort"@.len() == 7 && "embeddedDataSpecifications"@.len() == 26);
            assert("idShort"@.len() == 7 && "derivedFrom"@.len() == 11);
            assert("idShort"@.len() == 7 && "submodels"@.len() == 9);
            assert("displayName"@.len() == 11 && "AssetAdministrationShell"@.len() == 24);
            assert("displayName"@.len() == 11 && "assetInformation"@.len() == 16);
            assert("displayName"@.len() == 11 && "id"@.len() == 2);
            assert("displayName"@.len() == 11 && "administrative_information"@.len() == 26);
            assert("displayName"@.len() == 11 && "idShort"@.len() == 7);
            assert("displayName"@[1] != "description"@[1]);
            assert("displayName"@.len() == 11 && "category"@.len() == 8);
            assert("displayName"@.len() == 11 && "extensions"@.len() == 10);
            assert("displayName"@.len() == 11 && "embeddedDataSpecifications"@.len() == 26);
            assert("displayName"@[1] != "derivedFrom"@[1]);
            assert("displayName"@.len() == 11 && "submodels"@.len() == 9);
            assert("description"@.len() == 11 && "AssetAdministrationShell"@.len() == 24);
            assert("description"@.len() == 11 && "assetInformation"@.len() == 16);
            assert("description"@.len() == 11 && "id"@.len() == 2);
            assert("description"@.len() == 11 && "administrative_information"@.len() == 26);
            assert("description"@.len() == 11 && "idShort"@.len() == 7);
            assert("description"@[1] != "displayName"@[1]);
            assert("description"@.len() == 11 && "category"@.len() == 8);
            assert("description"@.len() == 11 && "extensions"@.len() == 10);
            assert("description"@.len() == 11 && "embeddedDataSpecifications"@.len() == 26);
            assert("description"@[2] != "derivedFrom"@[2]);
            assert("description"@.len() == 11 && "submodels"@.len() == 9);
            assert("category"@.len() == 8 && "AssetAdministrationShell"@.len() == 24);
            assert("category"@.len() == 8 && "assetInformation"@.len() == 16);
            assert("category"@.len() == 8 && "id"@.len() == 2);
            assert("category"@.len() == 8 && "administrative_information"@.len() == 26);
            assert("category"@.len() == 8 && "idShort"@.len() == 7);
            assert("category"@.len() == 8 && "displayName"@.len() == 11);
            assert("category"@.len() == 8 && "description"@.len() == 11);
            assert("category"@.len() == 8 && "extensions"@.len() == 10);
            assert("category"@.len() == 8 && "embeddedDataSpecifications"@.len() == 26);
            assert("category"@.len() == 8 && "derivedFrom"@.len() == 11);
            assert("category"@.len() == 8 && "submodels"@.len() == 9);
            assert("extensions"@.len() == 10 && "AssetAdministrationShell"@.len() == 24);
            assert("extensions"@.len() == 10 && "assetInformation"@.len() == 16);
            assert("extensions"@.len() == 10 && "id"@.len() == 2);
            assert("extensions"@.len() == 10 && "administrative_information"@.len() == 26);
            assert("extensions"@.len() == 10 && "idShort"@.len() == 7);
            assert("extensions"@.len() == 10 && "displayName"@.len() == 11);
            assert("extensions"@.len() == 10 && "description"@.len() == 11);
            assert("extensions"@.len() == 10 && "category"@.len() == 8);
            assert("extensions"@.len() == 10 && "embeddedDataSpecifications"@.len() == 26);
            assert("extensions"@.len() == 10 && "derivedFrom"@.len() == 11);
            assert("extensions"@.len() == 10 && "submodels"@.len() == 9);
            assert("embeddedDataSpecifications"@.len() == 26 && "AssetAdministrationShell"@.len() == 24);
            assert("embeddedDataSpecifications"@.len() == 26 && "assetInformation"@.len() == 16);
            assert("embeddedDataSpecifications"@.len() == 26 && "id"@.len() == 2);
            assert("embeddedDataSpecifications"@[0] != "administrative_information"@[0]);
            assert("embeddedDataSpecifications"@.len() == 26 && "idShort"@.len() == 7);
            assert("embeddedDataSpecifications"@.len() == 26 && "displayName"@.len() == 11);
            assert("embeddedDataSpecifications"@.len() == 26 && "description"@.len() == 11);
            assert("embeddedDataSpecifications"@.len() == 26 && "category"@.len() == 8);
            assert("embeddedDataSpecifications"@.len() == 26 && "extensions"@.len() == 10);
            assert("embeddedDataSpecifications"@.len() == 26 && "derivedFrom"@.len() == 11);
            assert("embeddedDataSpecifications"@.len() == 26 && "submodels"@.len() == 9);
            assert("derivedFrom"@.len() == 11 && "AssetAdministrationShell"@.len() == 24);
            assert("derivedFrom"@.len() == 11 && "assetInformation"@.len() == 16);
            assert("derivedFrom"@.len() == 11 && "id"@.len() == 2);
            assert("derivedFrom"@.len() == 11 && "administrative_information"@.len() == 26);
            assert("derivedFrom"@.len() == 11 && "idShort"@.len() == 7);
            assert("derivedFrom"@[1] != "displayName"@[1]);
            assert("derivedFrom"@[2] != "description"@[2]);
            assert("derivedFrom"@.len() == 11 && "category"@.len() == 8);
            assert("derivedFrom"@.len() == 11 && "extensions"@.len() == 10);
            assert("derivedFrom"@.len() == 11 && "embeddedDataSpecifications"@.len() == 26);
            assert("derivedFrom"@.len() == 11 && "submodels"@.len() == 9);
            assert("submodels"@.len() == 9 && "AssetAdministrationShell"@.len() == 24);
            assert("submodels"@.len() == 9 && "assetInformation"@.len() == 16);
            assert("submodels"@.len() == 9 && "id"@.len() == 2);
            assert("submodels"@.len() == 9 && "administrative_information"@.len() == 26);
            assert("submodels"@.len() == 9 && "idShort"@.len() == 7);
            assert("submodels"@.len() == 9 && "displayName"@.len() == 11);
            assert("submodels"@.len() == 9 && "description"@.len() == 11);
            assert("submodels"@.len() == 9 && "category"@.len() == 8);
            assert("submodels"@.len() == 9 && "extensions"@.len() == 10);
            assert("submodels"@.len() == 9 && "embeddedDataSpecifications"@.len() == 26);
            assert("submodels"@.len() == 9 && "derivedFrom"@.len() == 11);
        }
        let mut fs: Vec<(String, Json)> = Vec::new();
        let ghost prev = fs@;
        fs.push(field("AssetAdministrationShell", Json::Str("AssetAdministrationShell".to_string())));
        proof {
            lemma_names_within_empty(prev, |n: Seq<char>| n == "AssetAdministrationShell"@);
            if true {
                assert(fs@ == prev.push(fs@.last()));
                lemma_names_within_push(prev, fs@.last(), |n: Seq<char>| n == "AssetAdministrationShell"@);
                lemma_lookup_push(prev, fs@.last(), "AssetAdministrationShell"@);
            }
        }
        let ghost prev = fs@;
        push_req(&mut fs, "assetInformation", &self.asset_information);
        proof {
            lemma_names_within_weaken(prev, |n: Seq<char>| n == "AssetAdministrationShell"@, |n: Seq<char>| n == "AssetAdministrationShell"@ || n == "assetInformation"@);
            lemma_lookup_outside(prev, |n: Seq<char>| n == "AssetAdministrationShell"@, "assetInformation"@);
            if true {
                assert(fs@ == prev.push(fs@.last()));
                lemma_names_within_push(prev, fs@.last(), |n: Seq<char>| n == "AssetAdministrationShell"@ || n == "assetInformation"@);
                lemma_lookup_push(prev, fs@.last(), "AssetAdministrationShell"@);
                lemma_lookup_push(prev, fs@.last(), "assetInformation"@);
            }
        }
        let ghost prev = fs@;
        let mut part = self.identifiable.encode_members();
        let ghost sp = part@;
        fs.append(&mut part);
        proof {
            lemma_names_within_concat(prev, sp, |n: Seq<char>| n == "AssetAdministrationShell"@ || n == "assetInformation"@, |n: Seq<char>| identifiable_name(n), |n: Seq<char>| n == "AssetAdministrationShell"@ || n == "assetInformation"@ || identifiable_name(n));
            lemma_lookup_concat(prev, sp, "AssetAdministrationShell"@);
            lemma_lookup_outside(sp, |n: Seq<char>| identifiable_name(n), "AssetAdministrationShell"@);
            lemma_lookup_concat(prev, sp, "assetInformation"@);
            lemma_lookup_outside(sp, |n: Seq<char>| identifiable_name(n), "assetInformation"@);
            lemma_lookup_concat(prev, sp, "id"@);
            lemma_lookup_outside(prev, |n: Seq<char>| n == "AssetAdministrationShell"@ || n == "assetInformation"@, "id"@);
            lemma_lookup_concat(prev, sp, "administrative_information"@);
            lemma_lookup_outside(prev, |n: Seq<char>| n == "AssetAdministrationShell"@ || n == "assetInformation"@, "administrative_information"@);
            lemma_lookup_concat(prev, sp, "idShort"@);
            lemma_lookup_outside(prev, |n: Seq<char>| n == "AssetAdministrationShell"@ || n == "assetInformation"@, "idShort"@);
            lemma_lookup_concat(prev, sp, "displayName"@);
            lemma_lookup_outside(prev, |n: Seq<char>| n == "AssetAdministrationShell"@ || n == "assetInformation"@, "displayName"@);
            lemma_lookup_concat(prev, sp, "description"@);
            lemma_lookup_outside(prev, |n: Seq<char>| n == "AssetAdministrationShell"@ || n == "assetInformation"@, "description"@);
            lemma_lookup_concat(prev, sp, "category"@);
            lemma_lookup_outside(prev, |n: Seq<char>| n == "AssetAdministrationShell"@ || n == "assetInformation"@, "category"@);
            lemma_lookup_concat(prev, sp, "extensions"@);
            lemma_lookup_outside(prev, |n: Seq<char>| n == "AssetAdministrationShell"@ || n == "assetInformation"@, "extensions"@);
        }
        let ghost prev = fs@;
        let mut part = self.data_specification.encode_members();
        let ghost sp = part@;
        fs.append(&mut part);
        proof {
            lemma_names_within_concat(prev, sp, |n: Seq<char>| n == "AssetAdministrationShell"@ || n == "assetInformation"@ || identifiable_name(n), |n: Seq<char>| has_data_specification_name(n), |n: Seq<char>| n == "AssetAdministrationShell"@ || n == "assetInformation"@ || identifiable_name(n) || has_data_specification_name(n));
            lemma_lookup_concat(prev, sp, "AssetAdministrationShell"@);
            lemma_lookup_outside(sp, |n: Seq<char>| has_data_specification_name(n), "AssetAdministrationShell"@);
            lemma_lookup_concat(prev, sp, "assetInformation"@);
            lemma_lookup_outside(sp, |n: Seq<char>| has_data_specification_name(n), "assetInformation"@);
            lemma_lookup_concat(prev, sp, "id"@);
            lemma_lookup_outside(sp, |n: Seq<char>| has_data_specification_name(n), "id"@);
            lemma_lookup_concat(prev, sp, "administrative_information"@);
            lemma_lookup_outside(sp, |n: Seq<char>| has_data_specification_name(n), "administrative_information"@);
            lemma_lookup_concat(prev, sp, "idShort"@);
            lemma_lookup_outside(sp, |n: Seq<char>| has_data_specification_name(n), "idShort"@);
            lemma_lookup_concat(prev, sp, "displayName"@);
            lemma_lookup_outside(sp, |n: Seq<char>| has_data_specification_name(n), "displayName"@);
            lemma_lookup_concat(prev, sp, "description"@);
            lemma_lookup_outside(sp, |n: Seq<char>| has_data_specification_name(n), "description"@);
            lemma_lookup_concat(prev, sp, "category"@);
            lemma_lookup_outside(sp, |n: Seq<char>| has_data_specification_name(n), "category"@);
            lemma_lookup_concat(prev, sp, "extensions"@);
            lemma_lookup_outside(sp, |n: Seq<char>| has_data_specification_name(n), "extensions"@);
            lemma_lookup_concat(prev, sp, "embeddedDataSpecifications"@);
            lemma_lookup_outside(prev, |n: Seq<char>| n == "AssetAdministrationShell"@ || n == "assetInformation"@ || identifiable_name(n), "embeddedDataSpecifications"@);
        }
        let ghost prev = fs@;
        push_opt(&mut fs, "derivedFrom", &self.derived_from);
        proof {
            lemma_names_within_weaken(prev, |n: Seq<char>| n == "AssetAdministrationShell"@ || n == "assetInformation"@ || identifiable_name(n) || has_data_specification_name(n), |n: Seq<char>| n == "AssetAdministrationShell"@ || n == "assetInformation"@ || identifiable_name(n) || has_data_specification_name(n) || n == "derivedFrom"@);
            lemma_lookup_outside(prev, |n: Seq<char>| n == "AssetAdministrationShell"@ || n == "assetInformation"@ || identifiable_name(n) || has_data_specification_name(n), "derivedFrom"@);
            if self.derived_from is Some {
                assert(fs@ == prev.push(fs@.last()));
                lemma_names_within_push(prev, fs@.last(), |n: Seq<char>| n == "AssetAdministrationShell"@ || n == "assetInformation"@ || identifiable_name(n) || has_data_specification_name(n) || n == "derivedFrom"@);
                lemma_lookup_push(prev, fs@.last(), "AssetAdministrationShell"@);
                lemma_lookup_push(prev, fs@.last(), "assetInformation"@);
                lemma_lookup_push(prev, fs@.last(), "id"@);
                lemma_lookup_push(prev, fs@.last(), "administrative_information"@);
                lemma_lookup_push(prev, fs@.last(), "idShort"@);
                lemma_lookup_push(prev, fs@.last(), "displayName"@);
                lemma_lookup_push(prev, fs@.last(), "description"@);
                lemma_lookup_push(prev, fs@.last(), "category"@);
                lemma_lookup_push(prev, fs@.last(), "extensions"@);
                lemma_lookup_push(prev, fs@.last(), "embeddedDataSpecifications"@);
                lemma_lookup_push(prev, fs@.last(), "derivedFrom"@);
            }
        }
        let ghost prev = fs@;
        push_opt(&mut fs, "submodels", &self.submodels);
        proof {
            lemma_names_within_weaken(prev, |n: Seq<char>| n == "AssetAdministrationShell"@ || n == "assetInformation"@ || identifiable_name(n) || has_data_specification_name(n) || n == "derivedFrom"@, |n: Seq<char>| asset_administration_shell_name(n));
            lemma_lookup_outside(prev, |n: Seq<char>| n == "AssetAdministrationShell"@ || n == "assetInformation"@ || identifiable_name(n) || has_data_specification_name(n) || n == "derivedFrom"@, "submodels"@);
            if self.submodels is Some {
                assert(fs@ == prev.push(fs@.last()));
                lemma_names_within_push(prev, fs@.last(), |n: Seq<char>| asset_administration_shell_name(n));
                lemma_lookup_push(prev, fs@.last(), "AssetAdministrationShell"@);
                lemma_lookup_push(prev, fs@.last(), "assetInformation"@);
                lemma_lookup_push(prev, fs@.last(), "id"@);
                lemma_lookup_push(prev, fs@.last(), "administrative_information"@);
                lemma_lookup_push(prev, fs@.last(), "idShort"@);
                lemma_lookup_push(prev, fs@.last(), "displayName"@);
                lemma_lookup_push(prev, fs@.last(), "description"@);
                lemma_lookup_push(prev, fs@.last(), "category"@);
                lemma_lookup_push(prev, fs@.last(), "extensions"@);
                lemma_lookup_push(prev, fs@.last(), "embeddedDataSpecifications"@);
                lemma_lookup_push(prev, fs@.last(), "derivedFrom"@);
                lemma_lookup_push(prev, fs@.last(), "submodels"@);
            }
        }
        fs
    }

    /// Reads the members of the value from `fs`.
    pub fn decode_members(fs: &Vec<(String, Json)>) -> (r: Result<AssetAdministrationShell, DecodeError>)
        ensures
            match asset_administration_shell_error(fs@) {
                Some(e) => r == Err::<AssetAdministrationShell, DecodeError>(e),
                None => r matches Ok(x) && asset_administration_shell_rel(x, fs@),
            },
    {
        match get_member(fs, "AssetAdministrationShell") {
            None => return Err(DecodeError::MissingField),
            Some(Json::Str(t)) => if !str_eq(t.as_str(), "AssetAdministrationShell") {
                return Err(DecodeError::UnknownDiscriminator);
            },
            Some(_) => return Err(DecodeError::UnexpectedKind),
        }
        let asset_information = match decode_req::<AssetInformation>(fs, "assetInformation") {
            Ok(v) => v,
            Err(e) => return Err(e),
        };
        let identifiable = match Identifiable::decode_members(fs) {
            Ok(v) => v,
            Err(e) => return Err(e),
        };
        let data_specification = match HasDataSpecification::decode_members(fs) {
            Ok(v) => v,
            Err(e) => return Err(e),
        };
        let derived_from = match decode_opt::<Reference>(fs, "derivedFrom") {
            Ok(v) => v,
            Err(e) => return Err(e),
        };
        let submodels = match decode_opt::<Vec<Reference>>(fs, "submodels") {
            Ok(v) => v,
            Err(e) => return Err(e),
        };
        Ok(AssetAdministrationShell { asset_information, identifiable, data_specification, derived_from, submodels })
    }
}

/// Members found as encoding writes them decode to a value, whatever
/// other members stand beside them.
pub proof fn lemma_asset_administration_shell_round_trip(x: AssetAdministrationShell, fs: Seq<(String, Json)>)
    requires
        asset_administration_shell_wf(x),
        asset_administration_shell_lookups(x, fs),
    ensures
        asset_administration_shell_error(fs) is None,
        asset_administration_shell_rel(x, fs),
{
    lemma_req_round_trip(x.asset_information, lookup(fs, "assetInformation"@));
    lemma_identifiable_round_trip(x.identifiable, fs);
    lemma_has_data_specification_round_trip(x.data_specification, fs);
    lemma_opt_round_trip(x.derived_from, lookup(fs, "derivedFrom"@));
    lemma_opt_round_trip(x.submodels, lookup(fs, "submodels"@));
}

/// The values that the same members decode to hold the same content.
pub proof fn lemma_asset_administration_shell_unique(x: AssetAdministrationShell, y: AssetAdministrationShell, fs: Seq<(String, Json)>)
    requires
        asset_administration_shell_rel(x, fs),
        asset_administration_shell_rel(y, fs),
    ensures
        asset_administration_shell_equiv(x, y),
{
    lemma_req_unique(x.asset_information, y.asset_information, member(fs, "assetInformation"@));
    lemma_identifiable_unique(x.identifiable, y.identifiable, fs);
    lemma_has_data_specification_unique(x.data_specification, y.data_specification, fs);
    lemma_opt_unique(x.derived_from, y.derived_from, member(fs, "derivedFrom"@));
    lemma_opt_unique(x.submodels, y.submodels, member(fs, "submodels"@));
}

impl JsonCodec for AssetAdministrationShell {
    open spec fn wf(&self) -> bool {
        asset_administration_shell_wf(*self)
    }

    open spec fn encoded(&self, j: Json) -> bool {
        j matches Json::Object(fs) && asset_administration_shell_encoded(*self, fs@)
    }

    open spec fn rel(&self, j: Json) -> bool {
        j matches Json::Object(fs) && asset_administration_shell_rel(*self, fs@)
    }

    open spec fn decode_error(j: Json) -> Option<DecodeError> {
        match j {
            Json::Object(fs) => asset_administration_shell_error(fs@),
            _ => Some(DecodeError::UnexpectedKind),
        }
    }

    open spec fn equiv(&self, o: &Self) -> bool {
        asset_administration_shell_equiv(*self, *o)
    }

    fn encode(&self) -> (r: Json) {
        Json::Object(self.encode_members())
    }

    fn decode(j: &Json) -> (r: Result<Self, DecodeError>) {
        match j {
            Json::Object(fs) => AssetAdministrationShell::decode_members(fs),
            _ => Err(DecodeError::UnexpectedKind),
        }
    }

    proof fn lemma_round_trip(&self, j: Json) {
        lemma_asset_administration_shell_round_trip(*self, j->Object_0@);
    }

    proof fn lemma_unique(&self, o: &Self, j: Json) {
        lemma_asset_administration_shell_unique(*self, *o, j->Object_0@);
    }
}

/// The metamodel view of a shell: its identity without asset information and submodels.
#[derive(Clone, Debug, PartialEq)]
pub struct AssetAdministrationShellMetamodel {
    pub identifiable: Identifiable,
    pub data_specification: HasDataSpecification,
    pub derived_from: Option<Reference>,
}

/// A name of the members of `AssetAdministrationShellMetamodel`.
pub open spec fn asset_administration_shell_metamodel_name(n: Seq<char>) -> bool {
    n == "AssetAdministrationShell"@ || identifiable_name(n) || has_data_specification_name(n) || n == "derivedFrom"@
}

/// Looking up the members of `AssetAdministrationShellMetamodel` in `fs` finds what encoding writes for `x`.
pub open spec fn asset_administration_shell_metamodel_lookups(x: AssetAdministrationShellMetamodel, fs: Seq<(String, Json)>) -> bool {
    &&& lookup(fs, "AssetAdministrationShell"@) matches Some(Json::Str(t)) && t@ == "AssetAdministrationShell"@
    &&& identifiable_lookups(x.identifiable, fs)
    &&& has_data_specification_lookups(x.data_specification, fs)
    &&& opt_encoded(x.derived_from, lookup(fs, "derivedFrom"@))
}

/// `fs` are the members that encoding writes for `x`.
pub open spec fn asset_administration_shell_metamodel_encoded(x: AssetAdministrationShellMetamodel, fs: Seq<(String, Json)>) -> bool {
    &&& names_within(fs, |n: Seq<char>| asset_administration_shell_metamodel_name(n))
    &&& asset_administration_shell_metamodel_lookups(x, fs)
}

/// The members of `fs` decode to `x`.
pub open spec fn asset_administration_shell_metamodel_rel(x: AssetAdministrationShellMetamodel, fs: Seq<(String, Json)>) -> bool {
    &&& member(fs, "AssetAdministrationShell"@) matches Some(Json::Str(t)) && t@ == "AssetAdministrationShell"@
    &&& identifiable_rel(x.identifiable, fs)
    &&& has_data_specification_rel(x.data_specification, fs)
    &&& opt_rel(x.derived_from, member(fs, "derivedFrom"@))
}

/// The error, if any, of decoding the members of `AssetAdministrationShellMetamodel` from `fs`.
pub open spec fn asset_administration_shell_metamodel_error(fs: Seq<(String, Json)>) -> Option<DecodeError> {
    match member(fs, "AssetAdministrationShell"@) {
        None => Some(DecodeError::MissingField),
        Some(Json::Str(t)) => if t@ == "AssetAdministrationShell"@ {
            match identifiable_error(fs) {
                Some(e) => Some(e),
                None => {
                    match has_data_specification_error(fs) {
                        Some(e) => Some(e),
                        None => {
                            match opt_error::<Reference>(member(fs, "derivedFrom"@)) {
                                Some(e) => Some(e),
                                None => {
                                    None
                                },
                            }
                        },
                    }
                },
            }
        } else {
            Some(DecodeError::UnknownDiscriminator)
        },
        Some(_) => Some(DecodeError::UnexpectedKind),
    }
}

/// The values of `x` are well-formed.
pub open spec fn asset_administration_shell_metamodel_wf(x: AssetAdministrationShellMetamodel) -> bool {
    &&& identifiable_wf(x.identifiable)
    &&& has_data_specification_wf(x.data_specification)
    &&& opt_wf(x.derived_from)
}

/// `x` and `y` hold the same content.
pub open spec fn asset_administration_shell_metamodel_equiv(x: AssetAdministrationShellMetamodel, y: AssetAdministrationShellMetamodel) -> bool {
    &&& identifiable_equiv(x.identifiable, y.identifiable)
    &&& has_data_specification_equiv(x.data_specification, y.data_specification)
    &&& opt_equiv(x.derived_from, y.derived_from)
}

impl AssetAdministrationShellMetamodel {
    /// Writes the members of the value, absent ones left out.
    pub fn encode_members(&self) -> (r: Vec<(String, Json)>)
        ensures
            asset_administration_shell_metamodel_encoded(*self, r@),
    {
        proof {
            reveal_strlit("AssetAdministrationShell");
            reveal_strlit("id");
            reveal_strlit("administrative_information");
            reveal_strlit("idShort");
            reveal_strlit("displayName");
            reveal_strlit("description");
            reveal_strlit("category");
            reveal_strlit("extensions");
            reveal_strlit("embeddedDataSpecifications");
            reveal_strlit("derivedFrom");
            assert("AssetAdministrationShell"@.len() == 24 && "id"@.len() == 2);
            assert("AssetAdministrationShell"@.len() == 24 && "administrative_information"@.len() == 26);
            assert("AssetAdministrationShell"@.len() == 24 && "idShort"@.len() == 7);
            assert("AssetAdministrationShell"@.len() == 24 && "displayName"@.len() == 11);
            assert("AssetAdministrationShell"@.len() == 24 && "description"@.len() == 11);
            assert("AssetAdministrationShell"@.len() == 24 && "category"@.len() == 8);
            assert("AssetAdministrationShell"@.len() == 24 && "extensions"@.len() == 10);
            assert("AssetAdministrationShell"@.len() == 24 && "embeddedDataSpecifications"@.len() == 26);
            assert("AssetAdministrationShell"@.len() == 24 && "derivedFrom"@.len() == 11);
            assert("id"@.len() == 2 && "AssetAdministrationShell"@.len() == 24);
            assert("id"@.len() == 2 && "administrative_information"@.len() == 26);
            assert("id"@.len() == 2 && "idShort"@.len() == 7);
            assert("id"@.len() == 2 && "displayName"@.len() == 11);
            assert("id"@.len() == 2 && "description"@.len() == 11);
            assert("id"@.len() == 2 && "category"@.len() == 8);
            assert("id"@.len() == 2 && "extensions"@.len() == 10);
            assert("id"@.len() == 2 && "embeddedDataSpecifications"@.len() == 26);
            assert("id"@.len() == 2 && "derivedFrom"@.len() == 11);
            assert("administrative_information"@.len() == 26 && "AssetAdministrationShell"@.len() == 24);
            assert("administrative_information"@.len() == 26 && "id"@.len() == 2);
            assert("administrative_information"@.len() == 26 && "idShort"@.len() == 7);
            assert("administrative_information"@.len() == 26 && "displayName"@.len() == 11);
            assert("administrative_information"@.len() == 26 && "description"@.len() == 11);
            assert("administrative_information"@.len() == 26 && "category"@.len() == 8);
            assert("administrative_information"@.len() == 26 && "extensions"@.len() == 10);
            assert("administrative_information"@[0] != "embeddedDataSpecifications"@[0]);
            assert("administrative_information"@.len() == 26 && "derivedFrom"@.len() == 11);
            assert("idShort"@.len() == 7 && "AssetAdministrationShell"@.len() == 24);
            assert("idShort"@.len() == 7 && "id"@.len() == 2);
            assert("idShort"@.len() == 7 && "administrative_information"@.len() == 26);
            assert("idShort"@.len() == 7 && "displayName"@.len() == 11);
            assert("idShort"@.len() == 7 && "description"@.len() == 11);
            assert("idShort"@.len() == 7 && "category"@.len() == 8);
            assert("idShort"@.len() == 7 && "extensions"@.len() == 10);
            assert("idShort"@.len() == 7 && "embeddedDataSpecifications"@.len() == 26);
            assert("idShort"@.len() == 7 && "derivedFrom"@.len() == 11);
            assert("displayName"@.len() == 11 && "AssetAdministrationShell"@.len() == 24);
            assert("displayName"@.len() == 11 && "id"@.len() == 2);
            assert("displayName"@.len() == 11 && "administrative_information"@.len() == 26);
            assert("displayName"@.len() == 11 && "idShort"@.len() == 7);
            assert("displayName"@[1] != "description"@[1]);
            assert("displayName"@.len() == 11 && "category"@.len() == 8);
            assert("displayName"@.len() == 11 && "extensions"@.len() == 10);
            assert("displayName"@.len() == 11 && "embeddedDataSpecifications"@.len() == 26);
            assert("displayName"@[1] != "derivedFrom"@[1]);
            assert("description"@.len() == 11 && "AssetAdministrationShell"@.len() == 24);
            assert("description"@.len() == 11 && "id"@.len() == 2);
            assert("description"@.len() == 11 && "administrative_information"@.len() == 26);
            assert("description"@.len() == 11 && "idShort"@.len() == 7);
            assert("description"@[1] != "displayName"@[1]);
            assert("description"@.len() == 11 && "category"@.len() == 8);
            assert("description"@.len() == 11 && "extensions"@.len() == 10);
            assert("description"@.len() == 11 && "embeddedDataSpecifications"@.len() == 26);
            assert("description"@[2] != "derivedFrom"@[2]);
            assert("category"@.len() == 8 && "AssetAdministrationShell"@.len() == 24);
            assert("category"@.len() == 8 && "id"@.len() == 2);
            assert("category"@.len() == 8 && "administrative_information"@.len() == 26);
            assert("category"@.len() == 8 && "idShort"@.len() == 7);
            assert("category"@.len() == 8 && "displayName"@.len() == 11);
            assert("category"@.len() == 8 && "description"@.len() == 11);
            assert("category"@.len() == 8 && "extensions"@.len() == 10);
            assert("category"@.len() == 8 && "embeddedDataSpecifications"@.len() == 26);
            assert("category"@.len() == 8 && "derivedFrom"@.len() == 11);
            assert("extensions"@.len() == 10 && "AssetAdministrationShell"@.len() == 24);
            assert("extensions"@.len() == 10 && "id"@.len() == 2);
            assert("extensions"@.len() == 10 && "administrative_information"@.len() == 26);
            assert("extensions"@.len() == 10 && "idShort"@.len() == 7);
            assert("extensions"@.len() == 10 && "displayName"@.len() == 11);
            assert("extensions"@.len() == 10 && "description"@.len() == 11);
            assert("extensions"@.len() == 10 && "category"@.len() == 8);
            assert("extensions"@.len() == 10 && "embeddedDataSpecifications"@.len() == 26);
            assert("extensions"@.len() == 10 && "derivedFrom"@.len() == 11);
            assert("embeddedDataSpecifications"@.len() == 26 && "AssetAdministrationShell"@.len() == 24);
            assert("embeddedDataSpecifications"@.len() == 26 && "id"@.len() == 2);
            assert("embeddedDataSpecifications"@[0] != "administrative_information"@[0]);
            assert("embeddedDataSpecifications"@.len() == 26 && "idShort"@.len() == 7);
            assert("embeddedDataSpecifications"@.len() == 26 && "displayName"@.len() == 11);
            assert("embeddedDataSpecifications"@.len() == 26 && "description"@.len() == 11);
            assert("embeddedDataSpecifications"@.len() == 26 && "category"@.len() == 8);
            assert("embeddedDataSpecifications"@.len() == 26 && "extensions"@.len() == 10);
            assert("embeddedDataSpecifications"@.len() == 26 && "derivedFrom"@.len() == 11);
            assert("derivedFrom"@.len() == 11 && "AssetAdministrationShell"@.len() == 24);
            assert("derivedFrom"@.len() == 11 && "id"@.len() == 2);
            assert("derivedFrom"@.len() == 11 && "administrative_information"@.len() == 26);
            assert("derivedFrom"@.len() == 11 && "idShort"@.len() == 7);
            assert("derivedFrom"@[1] != "displayName"@[1]);
            assert("derivedFrom"@[2] != "description"@[2]);
            assert("derivedFrom"@.len() == 11 && "category"@.len() == 8);
            assert("derivedFrom"@.len() == 11 && "extensions"@.len() == 10);
            assert("derivedFrom"@.len() == 11 && "embeddedDataSpecifications"@.len() == 26);
        }
        let mut fs: Vec<(String, Json)> = Vec::new();
        let ghost prev = fs@;
        fs.push(field("AssetAdministrationShell", Json::Str("AssetAdministrationShell".to_string())));
        proof {
            lemma_names_within_empty(prev, |n: Seq<char>| n == "AssetAdministrationShell"@);
            if true {
                assert(fs@ == prev.push(fs@.last()));
                lemma_names_within_push(prev, fs@.last(), |n: Seq<char>| n == "AssetAdministrationShell"@);
                lemma_lookup_push(prev, fs@.last(), "AssetAdministrationShell"@);
            }
        }
        let ghost prev = fs@;
        let mut part = self.identifiable.encode_members();
        let ghost sp = part@;
        fs.append(&mut part);
        proof {
            lemma_names_within_concat(prev, sp, |n: Seq<char>| n == "AssetAdministrationShell"@, |n: Seq<char>| identifiable_name(n), |n: Seq<char>| n == "AssetAdministrationShell"@ || identifiable_name(n));
            lemma_lookup_concat(prev, sp, "AssetAdministrationShell"@);
            lemma_lookup_outside(sp, |n: Seq<char>| identifiable_name(n), "AssetAdministrationShell"@);
            lemma_lookup_concat(prev, sp, "id"@);
            lemma_lookup_outside(prev, |n: Seq<char>| n == "AssetAdministrationShell"@, "id"@);
            lemma_lookup_concat(prev, sp, "administrative_information"@);
            lemma_lookup_outside(prev, |n: Seq<char>| n == "AssetAdministrationShell"@, "administrative_information"@);
            lemma_lookup_concat(prev, sp, "idShort"@);
            lemma_lookup_outside(prev, |n: Seq<char>| n == "AssetAdministrationShell"@, "idShort"@);
            lemma_lookup_concat(prev, sp, "displayName"@);
            lemma_lookup_outside(prev, |n: Seq<char>| n == "AssetAdministrationShell"@, "displayName"@);
            lemma_lookup_concat(prev, sp, "description"@);
            lemma_lookup_outside(prev, |n: Seq<char>| n == "AssetAdministrationShell"@, "description"@);
            lemma_lookup_concat(prev, sp, "category"@);
            lemma_lookup_outside(prev, |n: Seq<char>| n == "AssetAdministrationShell"@, "category"@);
            lemma_lookup_concat(prev, sp, "extensions"@);
            lemma_lookup_outside(prev, |n: Seq<char>| n == "AssetAdministrationShell"@, "extensions"@);
        }
        let ghost prev = fs@;
        let mut part = self.data_specification.encode_members();
        let ghost sp = part@;
        fs.append(&mut part);
        proof {
            lemma_names_within_concat(prev, sp, |n: Seq<char>| n == "AssetAdministrationShell"@ || identifiable_name(n), |n: Seq<char>| has_data_specification_name(n), |n: Seq<char>| n == "AssetAdministrationShell"@ || identifiable_name(n) || has_data_specification_name(n));
            lemma_lookup_concat(prev, sp, "AssetAdministrationShell"@);
            lemma_lookup_outside(sp, |n: Seq<char>| has_data_specification_name(n), "AssetAdministrationShell"@);
            lemma_lookup_concat(prev, sp, "id"@);
            lemma_lookup_outside(sp, |n: Seq<char>| has_data_specification_name(n), "id"@);
            lemma_lookup_concat(prev, sp, "administrative_information"@);
            lemma_lookup_outside(sp, |n: Seq<char>| has_data_specification_name(n), "administrative_information"@);
            lemma_lookup_concat(prev, sp, "idShort"@);
            lemma_lookup_outside(sp, |n: Seq<char>| has_data_specification_name(n), "idShort"@);
            lemma_lookup_concat(prev, sp, "displayName"@);
            lemma_lookup_outside(sp, |n: Seq<char>| has_data_specification_name(n), "displayName"@);
            lemma_lookup_concat(prev, sp, "description"@);
            lemma_lookup_outside(sp, |n: Seq<char>| has_data_specification_name(n), "description"@);
            lemma_lookup_concat(prev, sp, "category"@);
            lemma_lookup_outside(sp, |n: Seq<char>| has_data_specification_name(n), "category"@);
            lemma_lookup_concat(prev, sp, "extensions"@);
            lemma_lookup_outside(sp, |n: Seq<char>| has_data_specification_name(n), "extensions"@);
            lemma_lookup_concat(prev, sp, "embeddedDataSpecifications"@);
            lemma_lookup_outside(prev, |n: Seq<char>| n == "AssetAdministrationShell"@ || identifiable_name(n), "embeddedDataSpecifications"@);
        }
        let ghost prev = fs@;
        push_opt(&mut fs, "derivedFrom", &self.derived_from);
        proof {
            lemma_names_within_weaken(prev, |n: Seq<char>| n == "AssetAdministrationShell"@ || identifiable_name(n) || has_data_specification_name(n), |n: Seq<char>| asset_administration_shell_metamodel_name(n));
            lemma_lookup_outside(prev, |n: Seq<char>| n == "AssetAdministrationShell"@ || identifiable_name(n) || has_data_specification_name(n), "derivedFrom"@);
            if self.derived_from is Some {
                assert(fs@ == prev.push(fs@.last()));
                lemma_names_within_push(prev, fs@.last(), |n: Seq<char>| asset_administration_shell_metamodel_name(n));
                lemma_lookup_push(prev, fs@.last(), "AssetAdministrationShell"@);
                lemma_lookup_push(prev, fs@.last(), "id"@);
                lemma_lookup_push(prev, fs@.last(), "administrative_information"@);
                lemma_lookup_push(prev, fs@.last(), "idShort"@);
                lemma_lookup_push(prev, fs@.last(), "displayName"@);
                lemma_lookup_push(prev, fs@.last(), "description"@);
                lemma_lookup_push(prev, fs@.last(), "category"@);
                lemma_lookup_push(prev, fs@.last(), "extensions"@);
                lemma_lookup_push(prev, fs@.last(), "embeddedDataSpecifications"@);
                lemma_lookup_push(prev, fs@.last(), "derivedFrom"@);
            }
        }
        fs
    }

    /// Reads the members of the value from `fs`.
    pub fn decode_members(fs: &Vec<(String, Json)>) -> (r: Result<AssetAdministrationShellMetamodel, DecodeError>)
        ensures
            match asset_administration_shell_metamodel_error(fs@) {
                Some(e) => r == Err::<AssetAdministrationShellMetamodel, DecodeError>(e),
                None => r matches Ok(x) && asset_administration_shell_metamodel_rel(x, fs@),
            },
    {
        match get_member(fs, "AssetAdministrationShell") {
            None => return Err(DecodeError::MissingField),
            Some(Json::Str(t)) => if !str_eq(t.as_str(), "AssetAdministrationShell") {
                return Err(DecodeError::UnknownDiscriminator);
            },
            Some(_) => return Err(DecodeError::UnexpectedKind),
        }
        let identifiable = match Identifiable::decode_members(fs) {
            Ok(v) => v,
            Err(e) => return Err(e),
        };
        let data_specification = match HasDataSpecification::decode_members(fs) {
            Ok(v) => v,
            Err(e) => return Err(e),
        };
        let derived_from = match decode_opt::<Reference>(fs, "derivedFrom") {
            Ok(v) => v,
            Err(e) => return Err(e),
        };
        Ok(AssetAdministrationShellMetamodel { identifiable, data_specification, derived_from })
    }
}

/// Members found as encoding writes them decode to a value, whatever
/// other members stand beside them.
pub proof fn lemma_asset_administration_shell_metamodel_round_trip(x: AssetAdministrationShellMetamodel, fs: Seq<(String, Json)>)
    requires
        asset_administration_shell_metamodel_wf(x),
        asset_administration_shell_metamodel_lookups(x, fs),
    ensures
        asset_administration_shell_metamodel_error(fs) is None,
        asset_administration_shell_metamodel_rel(x, fs),
{
    lemma_identifiable_round_trip(x.identifiable, fs);
    lemma_has_data_specification_round_trip(x.data_specification, fs);
    lemma_opt_round_trip(x.derived_from, lookup(fs, "derivedFrom"@));
}

/// The values that the same members decode to hold the same content.
pub proof fn lemma_asset_administration_shell_metamodel_unique(x: AssetAdministrationShellMetamodel, y: AssetAdministrationShellMetamodel, fs: Seq<(String, Json)>)
    requires
        asset_administration_shell_metamodel_rel(x, fs),
        asset_administration_shell_metamodel_rel(y, fs),
    ensures
        asset_administration_shell_metamodel_equiv(x, y),
{
    lemma_identifiable_unique(x.identifiable, y.identifiable, fs);
    lemma_has_data_specification_unique(x.data_specification, y.data_specification, fs);
    lemma_opt_unique(x.derived_from, y.derived_from, member(fs, "derivedFrom"@));
}

impl JsonCodec for AssetAdministrationShellMetamodel {
    open spec fn wf(&self) -> bool {
        asset_administration_shell_metamodel_wf(*self)
    }

    open spec fn encoded(&self, j: Json) -> bool {
        j matches Json::Object(fs) && asset_administration_shell_metamodel_encoded(*self, fs@)
    }

    open spec fn rel(&self, j: Json) -> bool {
        j matches Json::Object(fs) && asset_administration_shell_metamodel_rel(*self, fs@)
    }

    open spec fn decode_error(j: Json) -> Option<DecodeError> {
        match j {
            Json::Object(fs) => asset_administration_shell_metamodel_error(fs@),
            _ => Some(DecodeError::UnexpectedKind),
        }
    }

    open spec fn equiv(&self, o: &Self) -> bool {
        asset_administration_shell_metamodel_equiv(*self, *o)
    }

    fn encode(&self) -> (r: Json) {
        Json::Object(self.encode_members())
    }

    fn decode(j: &Json) -> (r: Result<Self, DecodeError>) {
        match j {
            Json::Object(fs) => AssetAdministrationShellMetamodel::decode_members(fs),
            _ => Err(DecodeError::UnexpectedKind),
        }
    }

    proof fn lemma_round_trip(&self, j: Json) {
        lemma_asset_administration_shell_metamodel_round_trip(*self, j->Object_0@);
    }

    proof fn lemma_unique(&self, o: &Self, j: Json) {
        lemma_asset_administration_shell_metamodel_unique(*self, *o, j->Object_0@);
    }
}

/// A submodel: one aspect of an asset, as a tree of submodel elements.
#[derive(Debug, PartialEq)]
pub struct Submodel {
    pub identifiable: Identifiable,
    pub kind: Option<ModellingKind>,
    pub semantics: HasSemantics,
    pub qualifier: Qualifiable,
    pub data_specification: HasDataSpecification,
    pub submodel_elements: Option<Vec<SubmodelElement>>,
}

/// A name of the members of `Submodel`.
pub open spec fn submodel_name(n: Seq<char>) -> bool {
    n == "modelKind"@ || identifiable_name(n) || n == "kind"@ || has_semantics_name(n) || qualifiable_name(n) || has_data_specification_name(n) || n == "submodelElements"@
}

/// Looking up the members of `Submodel` in `fs` finds what encoding writes for `x`.
pub open spec fn submodel_lookups(x: Submodel, fs: Seq<(String, Json)>) -> bool {
    &&& lookup(fs, "modelKind"@) matches Some(Json::Str(t)) && t@ == "Submodel"@
    &&& identifiable_lookups(x.identifiable, fs)
    &&& opt_encoded(x.kind, lookup(fs, "kind"@))
    &&& has_semantics_lookups(x.semantics, fs)
    &&& qualifiable_lookups(x.qualifier, fs)
    &&& has_data_specification_lookups(x.data_specification, fs)
    &&& opt_encoded(x.submodel_elements, lookup(fs, "submodelElements"@))
}

/// `fs` are the members that encoding writes for `x`.
pub open spec fn submodel_encoded(x: Submodel, fs: Seq<(String, Json)>) -> bool {
    &&& names_within(fs, |n: Seq<char>| submodel_name(n))
    &&& submodel_lookups(x, fs)
}

/// The members of `fs` decode to `x`.
pub open spec fn submodel_rel(x: Submodel, fs: Seq<(String, Json)>) -> bool {
    &&& member(fs, "modelKind"@) matches Some(Json::Str(t)) && t@ == "Submodel"@
    &&& identifiable_rel(x.identifiable, fs)
    &&& opt_rel(x.kind, member(fs, "kind"@))
    &&& has_semantics_rel(x.semantics, fs)
    &&& qualifiable_rel(x.qualifier, fs)
    &&& has_data_specification_rel(x.data_specification, fs)
    &&& opt_rel(x.submodel_elements, member(fs, "submodelElements"@))
}

/// The error, if any, of decoding the members of `Submodel` from `fs`.
pub open spec fn submodel_error(fs: Seq<(String, Json)>) -> Option<DecodeError> {
    match member(fs, "modelKind"@) {
        None => Some(DecodeError::MissingField),
        Some(Json::Str(t)) => if t@ == "Submodel"@ {
            match identifiable_error(fs) {
                Some(e) => Some(e),
                None => {
                    match opt_error::<ModellingKind>(member(fs, "kind"@)) {
                        Some(e) => Some(e),
                        None => {
                            match has_semantics_error(fs) {
                                Some(e) => Some(e),
                                None => {
                                    match qualifiable_error(fs) {
                                        Some(e) => Some(e),
                                        None => {
                                            match has_data_specification_error(fs) {
                                                Some(e) => Some(e),
                                                None => {
                                                    match opt_error::<Vec<SubmodelElement>>(member(fs, "submodelElements"@)) {
                                                        Some(e) => Some(e),
                                                        None => {
                                                            None
                                                        },
                                                    }
                                                },
                                            }
                                        },
                                    }
                                },
                            }
                        },
                    }
                },
            }
        } else {
            Some(DecodeError::UnknownDiscriminator)
        },
        Some(_) => Some(DecodeError::UnexpectedKind),
    }
}

/// The values of `x` are well-formed.
pub open spec fn submodel_wf(x: Submodel) -> bool {
    &&& identifiable_wf(x.identifiable)
    &&& opt_wf(x.kind)
    &&& has_semantics_wf(x.semantics)
    &&& qualifiable_wf(x.qualifier)
    &&& has_data_specification_wf(x.data_specification)
    &&& opt_wf(x.submodel_elements)
}

/// `x` and `y` hold the same content.
pub open spec fn submodel_equiv(x: Submodel, y: Submodel) -> bool {
    &&& identifiable_equiv(x.identifiable, y.identifiable)
    &&& opt_equiv(x.kind, y.kind)
    &&& has_semantics_equiv(x.semantics, y.semantics)
    &&& qualifiable_equiv(x.qualifier, y.qualifier)
    &&& has_data_specification_equiv(x.data_specification, y.data_specification)
    &&& opt_equiv(x.submodel_elements, y.submodel_elements)
}

impl Submodel {
    /// Writes the members of the value, absent ones left out.
    #[verifier::rlimit(100)]
    #[verifier::spinoff_prover]
    pub fn encode_members(&self) -> (r: Vec<(String, Json)>)
        ensures
            submodel_encoded(*self, r@),
    {
        proof {
            reveal_strlit("modelKind");
            reveal_strlit("id");
            reveal_strlit("administrative_information");
            reveal_strlit("idShort");
            reveal_strlit("displayName");
            reveal_strlit("description");
            reveal_strlit("category");
            reveal_strlit("extensions");
            reveal_strlit("kind");
            reveal_strlit("semanticId");
            reveal_strlit("supplementalSemanticIds");
            reveal_strlit("qualifiers");
            reveal_strlit("embeddedDataSpecifications");
            reveal_strlit("submodelElements");
            assert("modelKind"@.len() == 9 && "id"@.len() == 2);
            assert("modelKind"@.len() == 9 && "administrative_information"@.len() == 26);
            assert("modelKind"@.len() == 9 && "idShort"@.len() == 7);
            assert("modelKind"@.len() == 9 && "displayName"@.len() == 11);
            assert("modelKind"@.len() == 9 && "description"@.len() == 11);
            assert("modelKind"@.len() == 9 && "category"@.len() == 8);
            assert("modelKind"@.len() == 9 && "extensions"@.len() == 10);
            assert("modelKind"@.len() == 9 && "kind"@.len() == 4);
            assert("modelKind"@.len() == 9 && "semanticId"@.len() == 10);
            assert("modelKind"@.len() == 9 && "supplementalSemanticIds"@.len() == 23);
            assert("modelKind"@.len() == 9 && "qualifiers"@.len() == 10);
            assert("modelKind"@.len() == 9 && "embeddedDataSpecifications"@.len() == 26);
            assert("modelKind"@.len() == 9 && "submodelElements"@.len() == 16);
            assert("id"@.len() == 2 && "modelKind"@.len() == 9);
            assert("id"@.len() == 2 && "administrative_information"@.len() == 26);
            assert("id"@.len() == 2 && "idShort"@.len() == 7);
            assert("id"@.len() == 2 && "displayName"@.len() == 11);
            assert("id"@.len() == 2 && "description"@.len() == 11);
            assert("id"@.len() == 2 && "category"@.len() == 8);
            assert("id"@.len() == 2 && "extensions"@.len() == 10);
            assert("id"@.len() == 2 && "kind"@.len() == 4);
            assert("id"@.len() == 2 && "semanticId"@.len() == 10);
            assert("id"@.len() == 2 && "supplementalSemanticIds"@.len() == 23);
            assert("id"@.len() == 2 && "qualifiers"@.len() == 10);
            assert("id"@.len() == 2 && "embeddedDataSpecifications"@.len() == 26);
            assert("id"@.len() == 2 && "submodelElements"@.len() == 16);
            assert("administrative_information"@.len() == 26 && "modelKind"@.len() == 9);
            assert("administrative_information"@.len() == 26 && "id"@.len() == 2);
            assert("administrative_information"@.len() == 26 && "idShort"@.len() == 7);
            assert("administrative_information"@.len() == 26 && "displayName"@.len() == 11);
            assert("administrative_information"@.len() == 26 && "description"@.len() == 11);
            assert("administrative_information"@.len() == 26 && "category"@.len() == 8);
            assert("administrative_information"@.len() == 26 && "extensions"@.len() == 10);
            assert("administrative_information"@.len() == 26 && "kind"@.len() == 4);
            assert("administrative_information"@.len() == 26 && "semanticId"@.len() == 10);
            assert("administrative_information"@.len() == 26 && "supplementalSemanticIds"@.len() == 23);
            assert("administrative_information"@.len() == 26 && "qualifiers"@.len() == 10);
            assert("administrative_information"@[0] != "embeddedDataSpecifications"@[0]);
            assert("administrative_information"@.len() == 26 && "submodelElements"@.len() == 16);
            assert("idShort"@.len() == 7 && "modelKind"@.len() == 9);
            assert("idShort"@.len() == 7 && "id"@.len() == 2);
            assert("idShort"@.len() == 7 && "administrative_information"@.len() == 26);
            assert("idShort"@.len() == 7 && "displayName"@.len() == 11);
            assert("idShort"@.len() == 7 && "description"@.len() == 11);
            assert("idShort"@.len() == 7 && "category"@.len() == 8);
            assert("idShort"@.len() == 7 && "extensions"@.len() == 10);
            assert("idShort"@.len() == 7 && "kind"@.len() == 4);
            assert("idShort"@.len() == 7 && "semanticId"@.len() == 10);
            assert("idShort"@.len() == 7 && "supplementalSemanticIds"@.len() == 23);
            assert("idShort"@.len() == 7 && "qualifiers"@.len() == 10);
            assert("idShort"@.len() == 7 && "embeddedDataSpecifications"@.len() == 26);
            assert("idShort"@.len() == 7 && "submodelElements"@.len() == 16);
            assert("displayName"@.len() == 11 && "modelKind"@.len() == 9);
            assert("displayName"@.len() == 11 && "id"@.len() == 2);
            assert("displayName"@.len() == 11 && "administrative_information"@.len() == 26);
            assert("displayName"@.len() == 11 && "idShort"@.len() == 7);
            assert("displayName"@[1] != "description"@[1]);
            assert("displayName"@.len() == 11 && "category"@.len() == 8);
            assert("displayName"@.len() == 11 && "extensions"@.len() == 10);
            assert("displayName"@.len() == 11 && "kind"@.len() == 4);
            assert("displayName"@.len() == 11 && "semanticId"@.len() == 10);
            assert("displayName"@.len() == 11 && "supplementalSemanticIds"@.len() == 23);
            assert("displayName"@.len() == 11 && "qualifiers"@.len() == 10);
            assert("displayName"@.len() == 11 && "embeddedDataSpecifications"@.len() == 26);
            assert("displayName"@.len() == 11 && "submodelElements"@.len() == 16);
            assert("description"@.len() == 11 && "modelKind"@.len() == 9);
            assert("description"@.len() == 11 && "id"@.len() == 2);
            assert("description"@.len() == 11 && "administrative_information"@.len() == 26);
            assert("description"@.len() == 11 && "idShort"@.len() == 7);
            assert("description"@[1] != "displayName"@[1]);
            assert("description"@.len() == 11 && "category"@.len() == 8);
            assert("description"@.len() == 11 && "extensions"@.len() == 10);
            assert("description"@.len() == 11 && "kind"@.len() == 4);
            assert("description"@.len() == 11 && "semanticId"@.len() == 10);
            assert("description"@.len() == 11 && "supplementalSemanticIds"@.len() == 23);
            assert("description"@.len() == 11 && "qualifiers"@.len() == 10);
            assert("description"@.len() == 11 && "embeddedDataSpecifications"@.len() == 26);
            assert("description"@.len() == 11 && "submodelElements"@.len() == 16);
            assert("category"@.len() == 8 && "modelKind"@.len() == 9);
            assert("category"@.len() == 8 && "id"@.len() == 2);
            assert("category"@.len() == 8 && "administrative_information"@.len() == 26);
            assert("category"@.len() == 8 && "idShort"@.len() == 7);
            assert("category"@.len() == 8 && "displayName"@.len() == 11);
            assert("category"@.len() == 8 && "description"@.len() == 11);
            assert("category"@.len() == 8 && "extensions"@.len() == 10);
            assert("category"@.len() == 8 && "kind"@.len() == 4);
            assert("category"@.len() == 8 && "semanticId"@.len() == 10);
            assert("category"@.len() == 8 && "supplementalSemanticIds"@.len() == 23);
            assert("category"@.len() == 8 && "qualifiers"@.len() == 10);
            assert("category"@.len() == 8 && "embeddedDataSpecifications"@.len() == 26);
            assert("category"@.len() == 8 && "submodelElements"@.len() == 16);
            assert("extensions"@.len() == 10 && "modelKind"@.len() == 9);
            assert("extensions"@.len() == 10 && "id"@.len() == 2);
            assert("extensions"@.len() == 10 && "administrative_information"@.len() == 26);
            assert("extensions"@.len() == 10 && "idShort"@.len() == 7);
            assert("extensions"@.len() == 10 && "displayName"@.len() == 11);
            assert("extensions"@.len() == 10 && "description"@.len() == 11);
            assert("extensions"@.len() == 10 && "category"@.len() == 8);
            assert("extensions"@.len() == 10 && "kind"@.len() == 4);
            assert("extensions"@[0] != "semanticId"@[0]);
            assert("extensions"@.len() == 10 && "supplementalSemanticIds"@.len() == 23);
            assert("extensions"@[0] != "qualifiers"@[0]);
            assert("extensions"@.len() == 10 && "embeddedDataSpecifications"@.len() == 26);
            assert("extensions"@.len() == 10 && "submodelElements"@.len() == 16);
            assert("kind"@.len() == 4 && "modelKind"@.len() == 9);
            assert("kind"@.len() == 4 && "id"@.len() == 2);
            assert("kind"@.len() == 4 && "administrative_information"@.len() == 26);
            assert("kind"@.len() == 4 && "idShort"@.len() == 7);
            assert("kind"@.len() == 4 && "displayName"@.len() == 11);
            assert("kind"@.len() == 4 && "description"@.len() == 11);
            assert("kind"@.len() == 4 && "category"@.len() == 8);
            assert("kind"@.len() == 4 && "extensions"@.len() == 10);
            assert("kind"@.len() == 4 && "semanticId"@.len() == 10);
            assert("kind"@.len() == 4 && "supplementalSemanticIds"@.len() == 23);
            assert("kind"@.len() == 4 && "qualifiers"@.len() == 10);
            assert("kind"@.len() == 4 && "embeddedDataSpecifications"@.len() == 26);
            assert("kind"@.len() == 4 && "submodelElements"@.len() == 16);
            assert("semanticId"@.len() == 10 && "modelKind"@.len() == 9);
            assert("semanticId"@.len() == 10 && "id"@.len() == 2);
            assert("semanticId"@.len() == 10 && "administrative_information"@.len() == 26);
            assert("semanticId"@.len() == 10 && "idShort"@.len() == 7);
            assert("semanticId"@.len() == 10 && "displayName"@.len() == 11);
            assert("semanticId"@.len() == 10 && "description"@.len() == 11);
            assert("semanticId"@.len() == 10 && "category"@.len() == 8);
            assert("semanticId"@[0] != "extensions"@[0]);
            assert("semanticId"@.len() == 10 && "kind"@.len() == 4);
            assert("semanticId"@.len() == 10 && "supplementalSemanticIds"@.len() == 23);
            assert("semanticId"@[0] != "qualifiers"@[0]);
            assert("semanticId"@.len() == 10 && "embeddedDataSpecifications"@.len() == 26);
            assert("semanticId"@.len() == 10 && "submodelElements"@.len() == 16);
            assert("supplementalSemanticIds"@.len() == 23 && "modelKind"@.len() == 9);
            assert("supplementalSemanticIds"@.len() == 23 && "id"@.len() == 2);
            assert("supplementalSemanticIds"@.len() == 23 && "administrative_information"@.len() == 26);
            assert("supplementalSemanticIds"@.len() == 23 && "idShort"@.len() == 7);
            assert("supplementalSemanticIds"@.len() == 23 && "displayName"@.len() == 11);
            assert("supplementalSemanticIds"@.len() == 23 && "description"@.len() == 11);
            assert("supplementalSemanticIds"@.len() == 23 && "category"@.len() == 8);
            assert("supplementalSemanticIds"@.len() == 23 && "extensions"@.len() == 10);
            assert("supplementalSemanticIds"@.len() == 23 && "kind"@.len() == 4);
            assert("supplementalSemanticIds"@.len() == 23 && "semanticId"@.len() == 10);
            assert("supplementalSemanticIds"@.len() == 23 && "qualifiers"@.len() == 10);
            assert("supplementalSemanticIds"@.len() == 23 && "embeddedDataSpecifications"@.len() == 26);
            assert("supplementalSemanticIds"@.len() == 23 && "submodelElements"@.len() == 16);
            assert("qualifiers"@.len() == 10 && "modelKind"@.len() == 9);
            assert("qualifiers"@.len() == 10 && "id"@.len() == 2);
            assert("qualifiers"@.len() == 10 && "administrative_information"@.len() == 26);
            assert("qualifiers"@.len() == 10 && "idShort"@.len() == 7);
            assert("qualifiers"@.len() == 10 && "displayName"@.len() == 11);
            assert("qualifiers"@.len() == 10 && "description"@.len() == 11);
            assert("qualifiers"@.len() == 10 && "category"@.len() == 8);
            assert("qualifiers"@[0] != "extensions"@[0]);
            assert("qualifiers"@.len() == 10 && "kind"@.len() == 4);
            assert("qualifiers"@[0] != "semanticId"@[0]);
            assert("qualifiers"@.len() == 10 && "supplementalSemanticIds"@.len() == 23);
            assert("qualifiers"@.len() == 10 && "embeddedDataSpecifications"@.len() == 26);
            assert("qualifiers"@.len() == 10 && "submodelElements"@.len() == 16);
            assert("embeddedDataSpecifications"@.len() == 26 && "modelKind"@.len() == 9);
            assert("embeddedDataSpecifications"@.len() == 26 && "id"@.len() == 2);
            assert("embeddedDataSpecifications"@[0] != "administrative_information"@[0]);
            assert("embeddedDataSpecifications"@.len() == 26 && "idShort"@.len() == 7);
            assert("embeddedDataSpecifications"@.len() == 26 && "displayName"@.len() == 11);
            assert("embeddedDataSpecifications"@.len() == 26 && "description"@.len() == 11);
            assert("embeddedDataSpecifications"@.len() == 26 && "category"@.len() == 8);
            assert("embeddedDataSpecifications"@.len() == 26 && "extensions"@.len() == 10);
            assert("embeddedDataSpecifications"@.len() == 26 && "kind"@.len() == 4);
            assert("embeddedDataSpecifications"@.len() == 26 && "semanticId"@.len() == 10);
            assert("embeddedDataSpecifications"@.len() == 26 && "supplementalSemanticIds"@.len() == 23);
            assert("embeddedDataSpecifications"@.len() == 26 && "qualifiers"@.len() == 10);
            assert("embeddedDataSpecifications"@.len() == 26 && "submodelElements"@.len() == 16);
            assert("submodelElements"@.len() == 16 && "modelKind"@.len() == 9);
            assert("submodelElements"@.len() == 16 && "id"@.len() == 2);
            assert("submodelElements"@.len() == 16 && "administrative_information"@.len() == 26);
            assert("submodelElements"@.len() == 16 && "idShort"@.len() == 7);
            assert("submodelElements"@.len() == 16 && "displayName"@.len() == 11);
            assert("submodelElements"@.len() == 16 && "description"@.len() == 11);
            assert("submodelElements"@.len() == 16 && "category"@.len() == 8);
            assert("submodelElements"@.len() == 16 && "extensions"@.len() == 10);
            assert("submodelElements"@.len() == 16 && "kind"@.len() == 4);
            assert("submodelElements"@.len() == 16 && "semanticId"@.len() == 10);
            assert("submodelElements"@.len() == 16 && "supplementalSemanticIds"@.len() == 23);
            assert("submodelElements"@.len() == 16 && "qualifiers"@.len() == 10);
            assert("submodelElements"@.len() == 16 && "embeddedDataSpecifications"@.len() == 26);
        }
        let mut fs: Vec<(String, Json)> = Vec::new();
        let ghost prev = fs@;
        fs.push(field("modelKind", Json::Str("Submodel".to_string())));
        proof {
            lemma_names_within_empty(prev, |n: Seq<char>| n == "modelKind"@);
            if true {
                assert(fs@ == prev.push(fs@.last()));
                lemma_names_within_push(prev, fs@.last(), |n: Seq<char>| n == "modelKind"@);
                lemma_lookup_push(prev, fs@.last(), "modelKind"@);
            }
        }
        let ghost prev = fs@;
        let mut part = self.identifiable.encode_members();
        let ghost sp = part@;
        fs.append(&mut part);
        proof {
            lemma_names_within_concat(prev, sp, |n: Seq<char>| n == "modelKind"@, |n: Seq<char>| identifiable_name(n), |n: Seq<char>| n == "modelKind"@ || identifiable_name(n));
            lemma_lookup_concat(prev, sp, "modelKind"@);
            lemma_lookup_outside(sp, |n: Seq<char>| identifiable_name(n), "modelKind"@);
            lemma_lookup_concat(prev, sp, "id"@);
            lemma_lookup_outside(prev, |n: Seq<char>| n == "modelKind"@, "id"@);
            lemma_lookup_concat(prev, sp, "administrative_information"@);
            lemma_lookup_outside(prev, |n: Seq<char>| n == "modelKind"@, "administrative_information"@);
            lemma_lookup_concat(prev, sp, "idShort"@);
            lemma_lookup_outside(prev, |n: Seq<char>| n == "modelKind"@, "idShort"@);
            lemma_lookup_concat(prev, sp, "displayName"@);
            lemma_lookup_outside(prev, |n: Seq<char>| n == "modelKind"@, "displayName"@);
            lemma_lookup_concat(prev, sp, "description"@);
            lemma_lookup_outside(prev, |n: Seq<char>| n == "modelKind"@, "description"@);
            lemma_lookup_concat(prev, sp, "category"@);
            lemma_lookup_outside(prev, |n: Seq<char>| n == "modelKind"@, "category"@);
            lemma_lookup_concat(prev, sp, "extensions"@);
            lemma_lookup_outside(prev, |n: Seq<char>| n == "modelKind"@, "extensions"@);
        }
        let ghost prev = fs@;
        push_opt(&mut fs, "kind", &self.kind);
        proof {
            lemma_names_within_weaken(prev, |n: Seq<char>| n == "modelKind"@ || identifiable_name(n), |n: Seq<char>| n == "modelKind"@ || identifiable_name(n) || n == "kind"@);
            lemma_lookup_outside(prev, |n: Seq<char>| n == "modelKind"@ || identifiable_name(n), "kind"@);
            if self.kind is Some {
                assert(fs@ == prev.push(fs@.last()));
                lemma_names_within_push(prev, fs@.last(), |n: Seq<char>| n == "modelKind"@ || identifiable_name(n) || n == "kind"@);
                lemma_lookup_push(prev, fs@.last(), "modelKind"@);
                lemma_lookup_push(prev, fs@.last(), "id"@);
                lemma_lookup_push(prev, fs@.last(), "administrative_information"@);
                lemma_lookup_push(prev, fs@.last(), "idShort"@);
                lemma_lookup_push(prev, fs@.last(), "displayName"@);
                lemma_lookup_push(prev, fs@.last(), "description"@);
                lemma_lookup_push(prev, fs@.last(), "category"@);
                lemma_lookup_push(prev, fs@.last(), "extensions"@);
                lemma_lookup_push(prev, fs@.last(), "kind"@);
            }
        }
        let ghost prev = fs@;
        let mut part = self.semantics.encode_members();
        let ghost sp = part@;
        fs.append(&mut part);
        proof {
            lemma_names_within_concat(prev, sp, |n: Seq<char>| n == "modelKind"@ || identifiable_name(n) || n == "kind"@, |n: Seq<char>| has_semantics_name(n), |n: Seq<char>| n == "modelKind"@ || identifiable_name(n) || n == "kind"@ || has_semantics_name(n));
            lemma_lookup_concat(prev, sp, "modelKind"@);
            lemma_lookup_outside(sp, |n: Seq<char>| has_semantics_name(n), "modelKind"@);
            lemma_lookup_concat(prev, sp, "id"@);
            lemma_lookup_outside(sp, |n: Seq<char>| has_semantics_name(n), "id"@);
            lemma_lookup_concat(prev, sp, "administrative_information"@);
            lemma_lookup_outside(sp, |n: Seq<char>| has_semantics_name(n), "administrative_information"@);
            lemma_lookup_concat(prev, sp, "idShort"@);
            lemma_lookup_outside(sp, |n: Seq<char>| has_semantics_name(n), "idShort"@);
            lemma_lookup_concat(prev, sp, "displayName"@);
            lemma_lookup_outside(sp, |n: Seq<char>| has_semantics_name(n), "displayName"@);
            lemma_lookup_concat(prev, sp, "description"@);
            lemma_lookup_outside(sp, |n: Seq<char>| has_semantics_name(n), "description"@);
            lemma_lookup_concat(prev, sp, "category"@);
            lemma_lookup_outside(sp, |n: Seq<char>| has_semantics_name(n), "category"@);
            lemma_lookup_concat(prev, sp, "extensions"@);
            lemma_lookup_outside(sp, |n: Seq<char>| has_semantics_name(n), "extensions"@);
            lemma_lookup_concat(prev, sp, "kind"@);
            lemma_lookup_outside(sp, |n: Seq<char>| has_semantics_name(n), "kind"@);
            lemma_lookup_concat(prev, sp, "semanticId"@);
            lemma_lookup_outside(prev, |n: Seq<char>| n == "modelKind"@ || identifiable_name(n) || n == "kind"@, "semanticId"@);
            lemma_lookup_concat(prev, sp, "supplementalSemanticIds"@);
            lemma_lookup_outside(prev, |n: Seq<char>| n == "modelKind"@ || identifiable_name(n) || n == "kind"@, "supplementalSemanticIds"@);
        }
        let ghost prev = fs@;
        let mut part = self.qualifier.encode_members();
        let ghost sp = part@;
        fs.append(&mut part);
        proof {
            lemma_names_within_concat(prev, sp, |n: Seq<char>| n == "modelKind"@ || identifiable_name(n) || n == "kind"@ || has_semantics_name(n), |n: Seq<char>| qualifiable_name(n), |n: Seq<char>| n == "modelKind"@ || identifiable_name(n) || n == "kind"@ || has_semantics_name(n) || qualifiable_name(n));
            lemma_lookup_concat(prev, sp, "modelKind"@);
            lemma_lookup_outside(sp, |n: Seq<char>| qualifiable_name(n), "modelKind"@);
            lemma_lookup_concat(prev, sp, "id"@);
            lemma_lookup_outside(sp, |n: Seq<char>| qualifiable_name(n), "id"@);
            lemma_lookup_concat(prev, sp, "administrative_information"@);
            lemma_lookup_outside(sp, |n: Seq<char>| qualifiable_name(n), "administrative_information"@);
            lemma_lookup_concat(prev, sp, "idShort"@);
            lemma_lookup_outside(sp, |n: Seq<char>| qualifiable_name(n), "idShort"@);
            lemma_lookup_concat(prev, sp, "displayName"@);
            lemma_lookup_outside(sp, |n: Seq<char>| qualifiable_name(n), "displayName"@);
            lemma_lookup_concat(prev, sp, "description"@);
            lemma_lookup_outside(sp, |n: Seq<char>| qualifiable_name(n), "description"@);
            lemma_lookup_concat(prev, sp, "category"@);
            lemma_lookup_outside(sp, |n: Seq<char>| qualifiable_name(n), "category"@);
            lemma_lookup_concat(prev, sp, "extensions"@);
            lemma_lookup_outside(sp, |n: Seq<char>| qualifiable_name(n), "extensions"@);
            lemma_lookup_concat(prev, sp, "kind"@);
            lemma_lookup_outside(sp, |n: Seq<char>| qualifiable_name(n), "kind"@);
            lemma_lookup_concat(prev, sp, "semanticId"@);
            lemma_lookup_outside(sp, |n: Seq<char>| qualifiable_name(n), "semanticId"@);
            lemma_lookup_concat(prev, sp, "supplementalSemanticIds"@);
            lemma_lookup_outside(sp, |n: Seq<char>| qualifiable_name(n), "supplementalSemanticIds"@);
            lemma_lookup_concat(prev, sp, "qualifiers"@);
            lemma_lookup_outside(prev, |n: Seq<char>| n == "modelKind"@ || identifiable_name(n) || n == "kind"@ || has_semantics_name(n), "qualifiers"@);
        }
        let ghost prev = fs@;
        let mut part = self.data_specification.encode_members();
        let ghost sp = part@;
        fs.append(&mut part);
        proof {
            lemma_names_within_concat(prev, sp, |n: Seq<char>| n == "modelKind"@ || identifiable_name(n) || n == "kind"@ || has_semantics_name(n) || qualifiable_name(n), |n: Seq<char>| has_data_specification_name(n), |n: Seq<char>| n == "modelKind"@ || identifiable_name(n) || n == "kind"@ || has_semantics_name(n) || qualifiable_name(n) || has_data_specification_name(n));
            lemma_lookup_concat(prev, sp, "modelKind"@);
            lemma_lookup_outside(sp, |n: Seq<char>| has_data_specification_name(n), "modelKind"@);
            lemma_lookup_concat(prev, sp, "id"@);
            lemma_lookup_outside(sp, |n: Seq<char>| has_data_specification_name(n), "id"@);
            lemma_lookup_concat(prev, sp, "administrative_information"@);
            lemma_lookup_outside(sp, |n: Seq<char>| has_data_specification_name(n), "administrative_information"@);
            lemma_lookup_concat(prev, sp, "idShort"@);
            lemma_lookup_outside(sp, |n: Seq<char>| has_data_specification_name(n), "idShort"@);
            lemma_lookup_concat(prev, sp, "displayName"@);
            lemma_lookup_outside(sp, |n: Seq<char>| has_data_specification_name(n), "displayName"@);
            lemma_lookup_concat(prev, sp, "description"@);
            lemma_lookup_outside(sp, |n: Seq<char>| has_data_specification_name(n), "description"@);
            lemma_lookup_concat(prev, sp, "category"@);
            lemma_lookup_outside(sp, |n: Seq<char>| has_data_specification_name(n), "category"@);
            lemma_lookup_concat(prev, sp, "extensions"@);
            lemma_lookup_outside(sp, |n: Seq<char>| has_data_specification_name(n), "extensions"@);
            lemma_lookup_concat(prev, sp, "kind"@);
            lemma_lookup_outside(sp, |n: Seq<char>| has_data_specification_name(n), "kind"@);
            lemma_lookup_concat(prev, sp, "semanticId"@);
            lemma_lookup_outside(sp, |n: Seq<char>| has_data_specification_name(n), "semanticId"@);
            lemma_lookup_concat(prev, sp, "supplementalSemanticIds"@);
            lemma_lookup_outside(sp, |n: Seq<char>| has_data_specification_name(n), "supplementalSemanticIds"@);
            lemma_lookup_concat(prev, sp, "qualifiers"@);
            lemma_lookup_outside(sp, |n: Seq<char>| has_data_specification_name(n), "qualifiers"@);
            lemma_lookup_concat(prev, sp, "embeddedDataSpecifications"@);
            lemma_lookup_outside(prev, |n: Seq<char>| n == "modelKind"@ || identifiable_name(n) || n == "kind"@ || has_semantics_name(n) || qualifiable_name(n), "embeddedDataSpecifications"@);
        }
        let ghost prev = fs@;
        push_opt(&mut fs, "submodelElements", &self.submodel_elements);
        proof {
            lemma_names_within_weaken(prev, |n: Seq<char>| n == "modelKind"@ || identifiable_name(n) || n == "kind"@ || has_semantics_name(n) || qualifiable_name(n) || has_data_specification_name(n), |n: Seq<char>| submodel_name(n));
            lemma_lookup_outside(prev, |n: Seq<char>| n == "modelKind"@ || identifiable_name(n) || n == "kind"@ || has_semantics_name(n) || qualifiable_name(n) || has_data_specification_name(n), "submodelElements"@);
            if self.submodel_elements is Some {
                assert(fs@ == prev.push(fs@.last()));
                lemma_names_within_push(prev, fs@.last(), |n: Seq<char>| submodel_name(n));
                lemma_lookup_push(prev, fs@.last(), "modelKind"@);
                lemma_lookup_push(prev, fs@.last(), "id"@);
                lemma_lookup_push(prev, fs@.last(), "administrative_information"@);
                lemma_lookup_push(prev, fs@.last(), "idShort"@);
                lemma_lookup_push(prev, fs@.last(), "displayName"@);
                lemma_lookup_push(prev, fs@.last(), "description"@);
                lemma_lookup_push(prev, fs@.last(), "category"@);
                lemma_lookup_push(prev, fs@.last(), "extensions"@);
                lemma_lookup_push(prev, fs@.last(), "kind"@);
                lemma_lookup_push(prev, fs@.last(), "semanticId"@);
                lemma_lookup_push(prev, fs@.last(), "supplementalSemanticIds"@);
                lemma_lookup_push(prev, fs@.last(), "qualifiers"@);
                lemma_lookup_push(prev, fs@.last(), "embeddedDataSpecifications"@);
                lemma_lookup_push(prev, fs@.last(), "submodelElements"@);
            }
        }
        fs
    }

    /// Reads the members of the value from `fs`.
    pub fn decode_members(fs: &Vec<(String, Json)>) -> (r: Result<Submodel, DecodeError>)
        ensures
            match submodel_error(fs@) {
                Some(e) => r == Err::<Submodel, DecodeError>(e),
                None => r matches Ok(x) && submodel_rel(x, fs@),
            },
    {
        match get_member(fs, "modelKind") {
            None => return Err(DecodeError::MissingField),
            Some(Json::Str(t)) => if !str_eq(t.as_str(), "Submodel") {
                return Err(DecodeError::UnknownDiscriminator);
            },
            Some(_) => return Err(DecodeError::UnexpectedKind),
        }
        let identifiable = match Identifiable::decode_members(fs) {
            Ok(v) => v,
            Err(e) => return Err(e),
        };
        let kind = match decode_opt::<ModellingKind>(fs, "kind") {
            Ok(v) => v,
            Err(e) => return Err(e),
        };
        let semantics = match HasSemantics::decode_members(fs) {
            Ok(v) => v,
            Err(e) => return Err(e),
        };
        let qualifier = match Qualifiable::decode_members(fs) {
            Ok(v) => v,
            Err(e) => return Err(e),
        };
        let data_specification = match HasDataSpecification::decode_members(fs) {
            Ok(v) => v,
            Err(e) => return Err(e),
        };
        let submodel_elements = match decode_opt::<Vec<SubmodelElement>>(fs, "submodelElements") {
            Ok(v) => v,
            Err(e) => return Err(e),
        };
        Ok(Submodel { identifiable, kind, semantics, qualifier, data_specification, submodel_elements })
    }
}

/// Members found as encoding writes them decode to a value, whatever
/// other members stand beside them.
pub proof fn lemma_submodel_round_trip(x: Submodel, fs: Seq<(String, Json)>)
    requires
        submodel_wf(x),
        submodel_lookups(x, fs),
    ensures
        submodel_error(fs) is None,
        submodel_rel(x, fs),
{
    lemma_identifiable_round_trip(x.identifiable, fs);
    lemma_opt_round_trip(x.kind, lookup(fs, "kind"@));
    lemma_has_semantics_round_trip(x.semantics, fs);
    lemma_qualifiable_round_trip(x.qualifier, fs);
    lemma_has_data_specification_round_trip(x.data_specification, fs);
    lemma_opt_round_trip(x.submodel_elements, lookup(fs, "submodelElements"@));
}

/// The values that the same members decode to hold the same content.
pub proof fn lemma_submodel_unique(x: Submodel, y: Submodel, fs: Seq<(String, Json)>)
    requires
        submodel_rel(x, fs),
        submodel_rel(y, fs),
    ensures
        submodel_equiv(x, y),
{
    lemma_identifiable_unique(x.identifiable, y.identifiable, fs);
    lemma_opt_unique(x.kind, y.kind, member(fs, "kind"@));
    lemma_has_semantics_unique(x.semantics, y.semantics, fs);
    lemma_qualifiable_unique(x.qualifier, y.qualifier, fs);
    lemma_has_data_specification_unique(x.data_specification, y.data_specification, fs);
    lemma_opt_unique(x.submodel_elements, y.submodel_elements, member(fs, "submodelElements"@));
}

impl JsonCodec for Submodel {
    open spec fn wf(&self) -> bool {
        submodel_wf(*self)
    }

    open spec fn encoded(&self, j: Json) -> bool {
        j matches Json::Object(fs) && submodel_encoded(*self, fs@)
    }

    open spec fn rel(&self, j: Json) -> bool {
        j matches Json::Object(fs) && submodel_rel(*self, fs@)
    }

    open spec fn decode_error(j: Json) -> Option<DecodeError> {
        match j {
            Json::Object(fs) => submodel_error(fs@),
            _ => Some(DecodeError::UnexpectedKind),
        }
    }

    open spec fn equiv(&self, o: &Self) -> bool {
        submodel_equiv(*self, *o)
    }

    fn encode(&self) -> (r: Json) {
        Json::Object(self.encode_members())
    }

    fn decode(j: &Json) -> (r: Result<Self, DecodeError>) {
        match j {
            Json::Object(fs) => Submodel::decode_members(fs),
            _ => Err(DecodeError::UnexpectedKind),
        }
    }

    proof fn lemma_round_trip(&self, j: Json) {
        lemma_submodel_round_trip(*self, j->Object_0@);
    }

    proof fn lemma_unique(&self, o: &Self, j: Json) {
        lemma_submodel_unique(*self, *o, j->Object_0@);
    }
}

/// The metamodel view of a submodel: its attributes without its elements.
#[derive(Clone, Debug, PartialEq)]
pub struct SubmodelMeta {
    pub identifiable: Identifiable,
    pub kind: Option<ModellingKind>,
    pub semantics: HasSemantics,
    pub qualifier: Qualifiable,
    pub data_specification: HasDataSpecification,
}

/// A name of the members of `SubmodelMeta`.
pub open spec fn submodel_meta_name(n: Seq<char>) -> bool {
    n == "modelKind"@ || identifiable_name(n) || n == "kind"@ || has_semantics_name(n) || qualifiable_name(n) || has_data_specification_name(n)
}

/// Looking up the members of `SubmodelMeta` in `fs` finds what encoding writes for `x`.
pub open spec fn submodel_meta_lookups(x: SubmodelMeta, fs: Seq<(String, Json)>) -> bool {
    &&& lookup(fs, "modelKind"@) matches Some(Json::Str(t)) && t@ == "Submodel"@
    &&& identifiable_lookups(x.identifiable, fs)
    &&& opt_encoded(x.kind, lookup(fs, "kind"@))
    &&& has_semantics_lookups(x.semantics, fs)
    &&& qualifiable_lookups(x.qualifier, fs)
    &&& has_data_specification_lookups(x.data_specification, fs)
}

/// `fs` are the members that encoding writes for `x`.
pub open spec fn submodel_meta_encoded(x: SubmodelMeta, fs: Seq<(String, Json)>) -> bool {
    &&& names_within(fs, |n: Seq<char>| submodel_meta_name(n))
    &&& submodel_meta_lookups(x, fs)
}

/// The members of `fs` decode to `x`.
pub open spec fn submodel_meta_rel(x: SubmodelMeta, fs: Seq<(String, Json)>) -> bool {
    &&& member(fs, "modelKind"@) matches Some(Json::Str(t)) && t@ == "Submodel"@
    &&& identifiable_rel(x.identifiable, fs)
    &&& opt_rel(x.kind, member(fs, "kind"@))
    &&& has_semantics_rel(x.semantics, fs)
    &&& qualifiable_rel(x.qualifier, fs)
    &&& has_data_specification_rel(x.data_specification, fs)
}

/// The error, if any, of decoding the members of `SubmodelMeta` from `fs`.
pub open spec fn submodel_meta_error(fs: Seq<(String, Json)>) -> Option<DecodeError> {
    match member(fs, "modelKind"@) {
        None => Some(DecodeError::MissingField),
        Some(Json::Str(t)) => if t@ == "Submodel"@ {
            match identifiable_error(fs) {
                Some(e) => Some(e),
                None => {
                    match opt_error::<ModellingKind>(member(fs, "kind"@)) {
                        Some(e) => Some(e),
                        None => {
                            match has_semantics_error(fs) {
                                Some(e) => Some(e),
                                None => {
                                    match qualifiable_error(fs) {
                                        Some(e) => Some(e),
                                        None => {
                                            match has_data_specification_error(fs) {
                                                Some(e) => Some(e),
                                                None => {
                                                    None
                                                },
                                            }
                                        },
                                    }
                                },
                            }
                        },
                    }
                },
            }
        } else {
            Some(DecodeError::UnknownDiscriminator)
        },
        Some(_) => Some(DecodeError::UnexpectedKind),
    }
}

/// The values of `x` are well-formed.
pub open spec fn submodel_meta_wf(x: SubmodelMeta) -> bool {
    &&& identifiable_wf(x.identifiable)
    &&& opt_wf(x.kind)
    &&& has_semantics_wf(x.semantics)
    &&& qualifiable_wf(x.qualifier)
    &&& has_data_specification_wf(x.data_specification)
}

/// `x` and `y` hold the same content.
pub open spec fn submodel_meta_equiv(x: SubmodelMeta, y: SubmodelMeta) -> bool {
    &&& identifiable_equiv(x.identifiable, y.identifiable)
    &&& opt_equiv(x.kind, y.kind)
    &&& has_semantics_equiv(x.semantics, y.semantics)
    &&& qualifiable_equiv(x.qualifier, y.qualifier)
    &&& has_data_specification_equiv(x.data_specification, y.data_specification)
}

impl SubmodelMeta {
    /// Writes the members of the value, absent ones left out.
    #[verifier::rlimit(100)]
    #[verifier::spinoff_prover]
    pub fn encode_members(&self) -> (r: Vec<(String, Json)>)
        ensures
            submodel_meta_encoded(*self, r@),
    {
        proof {
            reveal_strlit("modelKind");
            reveal_strlit("id");
            reveal_strlit("administrative_information");
            reveal_strlit("idShort");
            reveal_strlit("displayName");
            reveal_strlit("description");
            reveal_strlit("category");
            reveal_strlit("extensions");
            reveal_strlit("kind");
            reveal_strlit("semanticId");
            reveal_strlit("supplementalSemanticIds");
            reveal_strlit("qualifiers");
            reveal_strlit("embeddedDataSpecifications");
            assert("modelKind"@.len() == 9 && "id"@.len() == 2);
            assert("modelKind"@.len() == 9 && "administrative_information"@.len() == 26);
            assert("modelKind"@.len() == 9 && "idShort"@.len() == 7);
            assert("modelKind"@.len() == 9 && "displayName"@.len() == 11);
            assert("modelKind"@.len() == 9 && "description"@.len() == 11);
            assert("modelKind"@.len() == 9 && "category"@.len() == 8);
            assert("modelKind"@.len() == 9 && "extensions"@.len() == 10);
            assert("modelKind"@.len() == 9 && "kind"@.len() == 4);
            assert("modelKind"@.len() == 9 && "semanticId"@.len() == 10);
            assert("modelKind"@.len() == 9 && "supplementalSemanticIds"@.len() == 23);
            assert("modelKind"@.len() == 9 && "qualifiers"@.len() == 10);
            assert("modelKind"@.len() == 9 && "embeddedDataSpecifications"@.len() == 26);
            assert("id"@.len() == 2 && "modelKind"@.len() == 9);
            assert("id"@.len() == 2 && "administrative_information"@.len() == 26);
            assert("id"@.len() == 2 && "idShort"@.len() == 7);
            assert("id"@.len() == 2 && "displayName"@.len() == 11);
            assert("id"@.len() == 2 && "description"@.len() == 11);
            assert("id"@.len() == 2 && "category"@.len() == 8);
            assert("id"@.len() == 2 && "extensions"@.len() == 10);
            assert("id"@.len() == 2 && "kind"@.len() == 4);
            assert("id"@.len() == 2 && "semanticId"@.len() == 10);
            assert("id"@.len() == 2 && "supplementalSemanticIds"@.len() == 23);
            assert("id"@.len() == 2 && "qualifiers"@.len() == 10);
            assert("id"@.len() == 2 && "embeddedDataSpecifications"@.len() == 26);
            assert("administrative_information"@.len() == 26 && "modelKind"@.len() == 9);
            assert("administrative_information"@.len() == 26 && "id"@.len() == 2);
            assert("administrative_information"@.len() == 26 && "idShort"@.len() == 7);
            assert("administrative_information"@.len() == 26 && "displayName"@.len() == 11);
            assert("administrative_information"@.len() == 26 && "description"@.len() == 11);
            assert("administrative_information"@.len() == 26 && "category"@.len() == 8);
            assert("administrative_information"@.len() == 26 && "extensions"@.len() == 10);
            assert("administrative_information"@.len() == 26 && "kind"@.len() == 4);
            assert("administrative_information"@.len() == 26 && "semanticId"@.len() == 10);
            assert("administrative_information"@.len() == 26 && "supplementalSemanticIds"@.len() == 23);
            assert("administrative_information"@.len() == 26 && "qualifiers"@.len() == 10);
            assert("administrative_information"@[0] != "embeddedDataSpecifications"@[0]);
            assert("idShort"@.len() == 7 && "modelKind"@.len() == 9);
            assert("idShort"@.len() == 7 && "id"@.len() == 2);
            assert("idShort"@.len() == 7 && "administrative_information"@.len() == 26);
            assert("idShort"@.len() == 7 && "displayName"@.len() == 11);
            assert("idShort"@.len() == 7 && "description"@.len() == 11);
            assert("idShort"@.len() == 7 && "category"@.len() == 8);
            assert("idShort"@.len() == 7 && "extensions"@.len() == 10);
            assert("idShort"@.len() == 7 && "kind"@.len() == 4);
            assert("idShort"@.len() == 7 && "semanticId"@.len() == 10);
            assert("idShort"@.len() == 7 && "supplementalSemanticIds"@.len() == 23);
            assert("idShort"@.len() == 7 && "qualifiers"@.len() == 10);
            assert("idShort"@.len() == 7 && "embeddedDataSpecifications"@.len() == 26);
            assert("displayName"@.len() == 11 && "modelKind"@.len() == 9);
            assert("displayName"@.len() == 11 && "id"@.len() == 2);
            assert("displayName"@.len() == 11 && "administrative_information"@.len() == 26);
            assert("displayName"@.len() == 11 && "idShort"@.len() == 7);
            assert("displayName"@[1] != "description"@[1]);
            assert("displayName"@.len() == 11 && "category"@.len() == 8);
            assert("displayName"@.len() == 11 && "extensions"@.len() == 10);
            assert("displayName"@.len() == 11 && "kind"@.len() == 4);
            assert("displayName"@.len() == 11 && "semanticId"@.len() == 10);
            assert("displayName"@.len() == 11 && "supplementalSemanticIds"@.len() == 23);
            assert("displayName"@.len() == 11 && "qualifiers"@.len() == 10);
            assert("displayName"@.len() == 11 && "embeddedDataSpecifications"@.len() == 26);
            assert("description"@.len() == 11 && "modelKind"@.len() == 9);
            assert("description"@.len() == 11 && "id"@.len() == 2);
            assert("description"@.len() == 11 && "administrative_information"@.len() == 26);
            assert("description"@.len() == 11 && "idShort"@.len() == 7);
            assert("description"@[1] != "displayName"@[1]);
            assert("description"@.len() == 11 && "category"@.len() == 8);
            assert("description"@.len() == 11 && "extensions"@.len() == 10);
            assert("description"@.len() == 11 && "kind"@.len() == 4);
            assert("description"@.len() == 11 && "semanticId"@.len() == 10);
            assert("description"@.len() == 11 && "supplementalSemanticIds"@.len() == 23);
            assert("description"@.len() == 11 && "qualifiers"@.len() == 10);
            assert("description"@.len() == 11 && "embeddedDataSpecifications"@.len() == 26);
            assert("category"@.len() == 8 && "modelKind"@.len() == 9);
            assert("category"@.len() == 8 && "id"@.len() == 2);
            assert("category"@.len() == 8 && "administrative_information"@.len() == 26);
            assert("category"@.len() == 8 && "idShort"@.len() == 7);
            assert("category"@.len() == 8 && "displayName"@.len() == 11);
            assert("category"@.len() == 8 && "description"@.len() == 11);
            assert("category"@.len() == 8 && "extensions"@.len() == 10);
            assert("category"@.len() == 8 && "kind"@.len() == 4);
            assert("category"@.len() == 8 && "semanticId"@.len() == 10);
            assert("category"@.len() == 8 && "supplementalSemanticIds"@.len() == 23);
            assert("category"@.len() == 8 && "qualifiers"@.len() == 10);
            assert("category"@.len() == 8 && "embeddedDataSpecifications"@.len() == 26);
            assert("extensions"@.len() == 10 && "modelKind"@.len() == 9);
            assert("extensions"@.len() == 10 && "id"@.len() == 2);
            assert("extensions"@.len() == 10 && "administrative_information"@.len() == 26);
            assert("extensions"@.len() == 10 && "idShort"@.len() == 7);
            assert("extensions"@.len() == 10 && "displayName"@.len() == 11);
            assert("extensions"@.len() == 10 && "description"@.len() == 11);
            assert("extensions"@.len() == 10 && "category"@.len() == 8);
            assert("extensions"@.len() == 10 && "kind"@.len() == 4);
            assert("extensions"@[0] != "semanticId"@[0]);
            assert("extensions"@.len() == 10 && "supplementalSemanticIds"@.len() == 23);
            assert("extensions"@[0] != "qualifiers"@[0]);
            assert("extensions"@.len() == 10 && "embeddedDataSpecifications"@.len() == 26);
            assert("kind"@.len() == 4 && "modelKind"@.len() == 9);
            assert("kind"@.len() == 4 && "id"@.len() == 2);
            assert("kind"@.len() == 4 && "administrative_information"@.len() == 26);
            assert("kind"@.len() == 4 && "idShort"@.len() == 7);
            assert("kind"@.len() == 4 && "displayName"@.len() == 11);
            assert("kind"@.len() == 4 && "description"@.len() == 11);
            assert("kind"@.len() == 4 && "category"@.len() == 8);
            assert("kind"@.len() == 4 && "extensions"@.len() == 10);
            assert("kind"@.len() == 4 && "semanticId"@.len() == 10);
            assert("kind"@.len() == 4 && "supplementalSemanticIds"@.len() == 23);
            assert("kind"@.len() == 4 && "qualifiers"@.len() == 10);
            assert("kind"@.len() == 4 && "embeddedDataSpecifications"@.len() == 26);
            assert("semanticId"@.len() == 10 && "modelKind"@.len() == 9);
            assert("semanticId"@.len() == 10 && "id"@.len() == 2);
            assert("semanticId"@.len() == 10 && "administrative_information"@.len() == 26);
            assert("semanticId"@.len() == 10 && "idShort"@.len() == 7);
            assert("semanticId"@.len() == 10 && "displayName"@.len() == 11);
            assert("semanticId"@.len() == 10 && "description"@.len() == 11);
            assert("semanticId"@.len() == 10 && "category"@.len() == 8);
            assert("semanticId"@[0] != "extensions"@[0]);
            assert("semanticId"@.len() == 10 && "kind"@.len() == 4);
            assert("semanticId"@.len() == 10 && "supplementalSemanticIds"@.len() == 23);
            assert("semanticId"@[0] != "qualifiers"@[0]);
            assert("semanticId"@.len() == 10 && "embeddedDataSpecifications"@.len() == 26);
            assert("supplementalSemanticIds"@.len() == 23 && "modelKind"@.len() == 9);
            assert("supplementalSemanticIds"@.len() == 23 && "id"@.len() == 2);
            assert("supplementalSemanticIds"@.len() == 23 && "administrative_information"@.len() == 26);
            assert("supplementalSemanticIds"@.len() == 23 && "idShort"@.len() == 7);
            assert("supplementalSemanticIds"@.len() == 23 && "displayName"@.len() == 11);
            assert("supplementalSemanticIds"@.len() == 23 && "description"@.len() == 11);
            assert("supplementalSemanticIds"@.len() == 23 && "category"@.len() == 8);
            assert("supplementalSemanticIds"@.len() == 23 && "extensions"@.len() == 10);
            assert("supplementalSemanticIds"@.len() == 23 && "kind"@.len() == 4);
            assert("supplementalSemanticIds"@.len() == 23 && "semanticId"@.len() == 10);
            assert("supplementalSemanticIds"@.len() == 23 && "qualifiers"@.len() == 10);
            assert("supplementalSemanticIds"@.len() == 23 && "embeddedDataSpecifications"@.len() == 26);
            assert("qualifiers"@.len() == 10 && "modelKind"@.len() == 9);
            assert("qualifiers"@.len() == 10 && "id"@.len() == 2);
            assert("qualifiers"@.len() == 10 && "administrative_information"@.len() == 26);
            assert("qualifiers"@.len() == 10 && "idShort"@.len() == 7);
            assert("qualifiers"@.len() == 10 && "displayName"@.len() == 11);
            assert("qualifiers"@.len() == 10 && "description"@.len() == 11);
            assert("qualifiers"@.len() == 10 && "category"@.len() == 8);
            assert("qualifiers"@[0] != "extensions"@[0]);
            assert("qualifiers"@.len() == 10 && "kind"@.len() == 4);
            assert("qualifiers"@[0] != "semanticId"@[0]);
            assert("qualifiers"@.len() == 10 && "supplementalSemanticIds"@.len() == 23);
            assert("qualifiers"@.len() == 10 && "embeddedDataSpecifications"@.len() == 26);
            assert("embeddedDataSpecifications"@.len() == 26 && "modelKind"@.len() == 9);
            assert("embeddedDataSpecifications"@.len() == 26 && "id"@.len() == 2);
            assert("embeddedDataSpecifications"@[0] != "administrative_information"@[0]);
            assert("embeddedDataSpecifications"@.len() == 26 && "idShort"@.len() == 7);
            assert("embeddedDataSpecifications"@.len() == 26 && "displayName"@.len() == 11);
            assert("embeddedDataSpecifications"@.len() == 26 && "description"@.len() == 11);
            assert("embeddedDataSpecifications"@.len() == 26 && "category"@.len() == 8);
            assert("embeddedDataSpecifications"@.len() == 26 && "extensions"@.len() == 10);
            assert("embeddedDataSpecifications"@.len() == 26 && "kind"@.len() == 4);
            assert("embeddedDataSpecifications"@.len() == 26 && "semanticId"@.len() == 10);
            assert("embeddedDataSpecifications"@.len() == 26 && "supplementalSemanticIds"@.len() == 23);
            assert("embeddedDataSpecifications"@.len() == 26 && "qualifiers"@.len() == 10);
        }
        let mut fs: Vec<(String, Json)> = Vec::new();
        let ghost prev = fs@;
        fs.push(field("modelKind", Json::Str("Submodel".to_string())));
        proof {
            lemma_names_within_empty(prev, |n: Seq<char>| n == "modelKind"@);
            if true {
                assert(fs@ == prev.push(fs@.last()));
                lemma_names_within_push(prev, fs@.last(), |n: Seq<char>| n == "modelKind"@);
                lemma_lookup_push(prev, fs@.last(), "modelKind"@);
            }
        }
        let ghost prev = fs@;
        let mut part = self.identifiable.encode_members();
        let ghost sp = part@;
        fs.append(&mut part);
        proof {
            lemma_names_within_concat(prev, sp, |n: Seq<char>| n == "modelKind"@, |n: Seq<char>| identifiable_name(n), |n: Seq<char>| n == "modelKind"@ || identifiable_name(n));
            lemma_lookup_concat(prev, sp, "modelKind"@);
            lemma_lookup_outside(sp, |n: Seq<char>| identifiable_name(n), "modelKind"@);
            lemma_lookup_concat(prev, sp, "id"@);
            lemma_lookup_outside(prev, |n: Seq<char>| n == "modelKind"@, "id"@);
            lemma_lookup_concat(prev, sp, "administrative_information"@);
            lemma_lookup_outside(prev, |n: Seq<char>| n == "modelKind"@, "administrative_information"@);
            lemma_lookup_concat(prev, sp, "idShort"@);
            lemma_lookup_outside(prev, |n: Seq<char>| n == "modelKind"@, "idShort"@);
            lemma_lookup_concat(prev, sp, "displayName"@);
            lemma_lookup_outside(prev, |n: Seq<char>| n == "modelKind"@, "displayName"@);
            lemma_lookup_concat(prev, sp, "description"@);
            lemma_lookup_outside(prev, |n: Seq<char>| n == "modelKind"@, "description"@);
            lemma_lookup_concat(prev, sp, "category"@);
            lemma_lookup_outside(prev, |n: Seq<char>| n == "modelKind"@, "category"@);
            lemma_lookup_concat(prev, sp, "extensions"@);
            lemma_lookup_outside(prev, |n: Seq<char>| n == "modelKind"@, "extensions"@);
        }
        let ghost prev = fs@;
        push_opt(&mut fs, "kind", &self.kind);
        proof {
            lemma_names_within_weaken(prev, |n: Seq<char>| n == "modelKind"@ || identifiable_name(n), |n: Seq<char>| n == "modelKind"@ || identifiable_name(n) || n == "kind"@);
            lemma_lookup_outside(prev, |n: Seq<char>| n == "modelKind"@ || identifiable_name(n), "kind"@);
            if self.kind is Some {
                assert(fs@ == prev.push(fs@.last()));
                lemma_names_within_push(prev, fs@.last(), |n: Seq<char>| n == "modelKind"@ || identifiable_name(n) || n == "kind"@);
                lemma_lookup_push(prev, fs@.last(), "modelKind"@);
                lemma_lookup_push(prev, fs@.last(), "id"@);
                lemma_lookup_push(prev, fs@.last(), "administrative_information"@);
                lemma_lookup_push(prev, fs@.last(), "idShort"@);
                lemma_lookup_push(prev, fs@.last(), "displayName"@);
                lemma_lookup_push(prev, fs@.last(), "description"@);
                lemma_lookup_push(prev, fs@.last(), "category"@);
                lemma_lookup_push(prev, fs@.last(), "extensions"@);
                lemma_lookup_push(prev, fs@.last(), "kind"@);
            }
        }
        let ghost prev = fs@;
        let mut part = self.semantics.encode_members();
        let ghost sp = part@;
        fs.append(&mut part);
        proof {
            lemma_names_within_concat(prev, sp, |n: Seq<char>| n == "modelKind"@ || identifiable_name(n) || n == "kind"@, |n: Seq<char>| has_semantics_name(n), |n: Seq<char>| n == "modelKind"@ || identifiable_name(n) || n == "kind"@ || has_semantics_name(n));
            lemma_lookup_concat(prev, sp, "modelKind"@);
            lemma_lookup_outside(sp, |n: Seq<char>| has_semantics_name(n), "modelKind"@);
            lemma_lookup_concat(prev, sp, "id"@);
            lemma_lookup_outside(sp, |n: Seq<char>| has_semantics_name(n), "id"@);
            lemma_lookup_concat(prev, sp, "administrative_information"@);
            lemma_lookup_outside(sp, |n: Seq<char>| has_semantics_name(n), "administrative_information"@);
            lemma_lookup_concat(prev, sp, "idShort"@);
            lemma_lookup_outside(sp, |n: Seq<char>| has_semantics_name(n), "idShort"@);
            lemma_lookup_concat(prev, sp, "displayName"@);
            lemma_lookup_outside(sp, |n: Seq<char>| has_semantics_name(n), "displayName"@);
            lemma_lookup_concat(prev, sp, "description"@);
            lemma_lookup_outside(sp, |n: Seq<char>| has_semantics_name(n), "description"@);
            lemma_lookup_concat(prev, sp, "category"@);
            lemma_lookup_outside(sp, |n: Seq<char>| has_semantics_name(n), "category"@);
            lemma_lookup_concat(prev, sp, "extensions"@);
            lemma_lookup_outside(sp, |n: Seq<char>| has_semantics_name(n), "extensions"@);
            lemma_lookup_concat(prev, sp, "kind"@);
            lemma_lookup_outside(sp, |n: Seq<char>| has_semantics_name(n), "kind"@);
            lemma_lookup_concat(prev, sp, "semanticId"@);
            lemma_lookup_outside(prev, |n: Seq<char>| n == "modelKind"@ || identifiable_name(n) || n == "kind"@, "semanticId"@);
            lemma_lookup_concat(prev, sp, "supplementalSemanticIds"@);
            lemma_lookup_outside(prev, |n: Seq<char>| n == "modelKind"@ || identifiable_name(n) || n == "kind"@, "supplementalSemanticIds"@);
        }
        let ghost prev = fs@;
        let mut part = self.qualifier.encode_members();
        let ghost sp = part@;
        fs.append(&mut part);
        proof {
            lemma_names_within_concat(prev, sp, |n: Seq<char>| n == "modelKind"@ || identifiable_name(n) || n == "kind"@ || has_semantics_name(n), |n: Seq<char>| qualifiable_name(n), |n: Seq<char>| n == "modelKind"@ || identifiable_name(n) || n == "kind"@ || has_semantics_name(n) || qualifiable_name(n));
            lemma_lookup_concat(prev, sp, "modelKind"@);
            lemma_lookup_outside(sp, |n: Seq<char>| qualifiable_name(n), "modelKind"@);
            lemma_lookup_concat(prev, sp, "id"@);
            lemma_lookup_outside(sp, |n: Seq<char>| qualifiable_name(n), "id"@);
            lemma_lookup_concat(prev, sp, "administrative_information"@);
            lemma_lookup_outside(sp, |n: Seq<char>| qualifiable_name(n), "administrative_information"@);
            lemma_lookup_concat(prev, sp, "idShort"@);
            lemma_lookup_outside(sp, |n: Seq<char>| qualifiable_name(n), "idShort"@);
            lemma_lookup_concat(prev, sp, "displayName"@);
            lemma_lookup_outside(sp, |n: Seq<char>| qualifiable_name(n), "displayName"@);
            lemma_lookup_concat(prev, sp, "description"@);
            lemma_lookup_outside(sp, |n: Seq<char>| qualifiable_name(n), "description"@);
            lemma_lookup_concat(prev, sp, "category"@);
            lemma_lookup_outside(sp, |n: Seq<char>| qualifiable_name(n), "category"@);
            lemma_lookup_concat(prev, sp, "extensions"@);
            lemma_lookup_outside(sp, |n: Seq<char>| qualifiable_name(n), "extensions"@);
            lemma_lookup_concat(prev, sp, "kind"@);
            lemma_lookup_outside(sp, |n: Seq<char>| qualifiable_name(n), "kind"@);
            lemma_lookup_concat(prev, sp, "semanticId"@);
            lemma_lookup_outside(sp, |n: Seq<char>| qualifiable_name(n), "semanticId"@);
            lemma_lookup_concat(prev, sp, "supplementalSemanticIds"@);
            lemma_lookup_outside(sp, |n: Seq<char>| qualifiable_name(n), "supplementalSemanticIds"@);
            lemma_lookup_concat(prev, sp, "qualifiers"@);
            lemma_lookup_outside(prev, |n: Seq<char>| n == "modelKind"@ || identifiable_name(n) || n == "kind"@ || has_semantics_name(n), "qualifiers"@);
        }
        let ghost prev = fs@;
        let mut part = self.data_specification.encode_members();
        let ghost sp = part@;
        fs.append(&mut part);
        proof {
            lemma_names_within_concat(prev, sp, |n: Seq<char>| n == "modelKind"@ || identifiable_name(n) || n == "kind"@ || has_semantics_name(n) || qualifiable_name(n), |n: Seq<char>| has_data_specification_name(n), |n: Seq<char>| submodel_meta_name(n));
            lemma_lookup_concat(prev, sp, "modelKind"@);
            lemma_lookup_outside(sp, |n: Seq<char>| has_data_specification_name(n), "modelKind"@);
            lemma_lookup_concat(prev, sp, "id"@);
            lemma_lookup_outside(sp, |n: Seq<char>| has_data_specification_name(n), "id"@);
            lemma_lookup_concat(prev, sp, "administrative_information"@);
            lemma_lookup_outside(sp, |n: Seq<char>| has_data_specification_name(n), "administrative_information"@);
            lemma_lookup_concat(prev, sp, "idShort"@);
            lemma_lookup_outside(sp, |n: Seq<char>| has_data_specification_name(n), "idShort"@);
            lemma_lookup_concat(prev, sp, "displayName"@);
            lemma_lookup_outside(sp, |n: Seq<char>| has_data_specification_name(n), "displayName"@);
            lemma_lookup_concat(prev, sp, "description"@);
            lemma_lookup_outside(sp, |n: Seq<char>| has_data_specification_name(n), "description"@);
            lemma_lookup_concat(prev, sp, "category"@);
            lemma_lookup_outside(sp, |n: Seq<char>| has_data_specification_name(n), "category"@);
            lemma_lookup_concat(prev, sp, "extensions"@);
            lemma_lookup_outside(sp, |n: Seq<char>| has_data_specification_name(n), "extensions"@);
            lemma_lookup_concat(prev, sp, "kind"@);
            lemma_lookup_outside(sp, |n: Seq<char>| has_data_specification_name(n), "kind"@);
            lemma_lookup_concat(prev, sp, "semanticId"@);
            lemma_lookup_outside(sp, |n: Seq<char>| has_data_specification_name(n), "semanticId"@);
            lemma_lookup_concat(prev, sp, "supplementalSemanticIds"@);
            lemma_lookup_outside(sp, |n: Seq<char>| has_data_specification_name(n), "supplementalSemanticIds"@);
            lemma_lookup_concat(prev, sp, "qualifiers"@);
            lemma_lookup_outside(sp, |n: Seq<char>| has_data_specification_name(n), "qualifiers"@);
            lemma_lookup_concat(prev, sp, "embeddedDataSpecifications"@);
            lemma_lookup_outside(prev, |n: Seq<char>| n == "modelKind"@ || identifiable_name(n) || n == "kind"@ || has_semantics_name(n) || qualifiable_name(n), "embeddedDataSpecifications"@);
        }
        fs
    }

    /// Reads the members of the value from `fs`.
    pub fn decode_members(fs: &Vec<(String, Json)>) -> (r: Result<SubmodelMeta, DecodeError>)
        ensures
            match submodel_meta_error(fs@) {
                Some(e) => r == Err::<SubmodelMeta, DecodeError>(e),
                None => r matches Ok(x) && submodel_meta_rel(x, fs@),
            },
    {
        match get_member(fs, "modelKind") {
            None => return Err(DecodeError::MissingField),
            Some(Json::Str(t)) => if !str_eq(t.as_str(), "Submodel") {
                return Err(DecodeError::UnknownDiscriminator);
            },
            Some(_) => return Err(DecodeError::UnexpectedKind),
        }
        let identifiable = match Identifiable::decode_members(fs) {
            Ok(v) => v,
            Err(e) => return Err(e),
        };
        let kind = match decode_opt::<ModellingKind>(fs, "kind") {
            Ok(v) => v,
            Err(e) => return Err(e),
        };
        let semantics = match HasSemantics::decode_members(fs) {
            Ok(v) => v,
            Err(e) => return Err(e),
        };
        let qualifier = match Qualifiable::decode_members(fs) {
            Ok(v) => v,
            Err(e) => return Err(e),
        };
        let data_specification = match HasDataSpecification::decode_members(fs) {
            Ok(v) => v,
            Err(e) => return Err(e),
        };
        Ok(SubmodelMeta { identifiable, kind, semantics, qualifier, data_specification })
    }
}

/// Members found as encoding writes them decode to a value, whatever
/// other members stand beside them.
pub proof fn lemma_submodel_meta_round_trip(x: SubmodelMeta, fs: Seq<(String, Json)>)
    requires
        submodel_meta_wf(x),
        submodel_meta_lookups(x, fs),
    ensures
        submodel_meta_error(fs) is None,
        submodel_meta_rel(x, fs),
{
    lemma_identifiable_round_trip(x.identifiable, fs);
    lemma_opt_round_trip(x.kind, lookup(fs, "kind"@));
    lemma_has_semantics_round_trip(x.semantics, fs);
    lemma_qualifiable_round_trip(x.qualifier, fs);
    lemma_has_data_specification_round_trip(x.data_specification, fs);
}

/// The values that the same members decode to hold the same content.
pub proof fn lemma_submodel_meta_unique(x: SubmodelMeta, y: SubmodelMeta, fs: Seq<(String, Json)>)
    requires
        submodel_meta_rel(x, fs),
        submodel_meta_rel(y, fs),
    ensures
        submodel_meta_equiv(x, y),
{
    lemma_identifiable_unique(x.identifiable, y.identifiable, fs);
    lemma_opt_unique(x.kind, y.kind, member(fs, "kind"@));
    lemma_has_semantics_unique(x.semantics, y.semantics, fs);
    lemma_qualifiable_unique(x.qualifier, y.qualifier, fs);
    lemma_has_data_specification_unique(x.data_specification, y.data_specification, fs);
}

impl JsonCodec for SubmodelMeta {
    open spec fn wf(&self) -> bool {
        submodel_meta_wf(*self)
    }

    open spec fn encoded(&self, j: Json) -> bool {
        j matches Json::Object(fs) && submodel_meta_encoded(*self, fs@)
    }

    open spec fn rel(&self, j: Json) -> bool {
        j matches Json::Object(fs) && submodel_meta_rel(*self, fs@)
    }

    open spec fn decode_error(j: Json) -> Option<DecodeError> {
        match j {
            Json::Object(fs) => submodel_meta_error(fs@),
            _ => Some(DecodeError::UnexpectedKind),
        }
    }

    open spec fn equiv(&self, o: &Self) -> bool {
        submodel_meta_equiv(*self, *o)
    }

    fn encode(&self) -> (r: Json) {
        Json::Object(self.encode_members())
    }

    fn decode(j: &Json) -> (r: Result<Self, DecodeError>) {
        match j {
            Json::Object(fs) => SubmodelMeta::decode_members(fs),
            _ => Err(DecodeError::UnexpectedKind),
        }
    }

    proof fn lemma_round_trip(&self, j: Json) {
        lemma_submodel_meta_round_trip(*self, j->Object_0@);
    }

    proof fn lemma_unique(&self, o: &Self, j: Json) {
        lemma_submodel_meta_unique(*self, *o, j->Object_0@);
    }
}

/// A concept description: the standardized meaning that semantic ids point to.
#[derive(Clone, Debug, PartialEq)]
pub struct ConceptDescription {
    pub identifiable: Identifiable,
    pub data_specification: HasDataSpecification,
    pub is_case_of: Option<Reference>,
}

/// A name of the members of `ConceptDescription`.
pub open spec fn concept_description_name(n: Seq<char>) -> bool {
    identifiable_name(n) || has_data_specification_name(n) || n == "isCaseOf"@
}

/// Looking up the members of `ConceptDescription` in `fs` finds what encoding writes for `x`.
pub open spec fn concept_description_lookups(x: ConceptDescription, fs: Seq<(String, Json)>) -> bool {
    &&& identifiable_lookups(x.identifiable, fs)
    &&& has_data_specification_lookups(x.data_specification, fs)
    &&& opt_encoded(x.is_case_of, lookup(fs, "isCaseOf"@))
}

/// `fs` are the members that encoding writes for `x`.
pub open spec fn concept_description_encoded(x: ConceptDescription, fs: Seq<(String, Json)>) -> bool {
    &&& names_within(fs, |n: Seq<char>| concept_description_name(n))
    &&& concept_description_lookups(x, fs)
}

/// The members of `fs` decode to `x`.
pub open spec fn concept_description_rel(x: ConceptDescription, fs: Seq<(String, Json)>) -> bool {
    &&& identifiable_rel(x.identifiable, fs)
    &&& has_data_specification_rel(x.data_specification, fs)
    &&& opt_rel(x.is_case_of, member(fs, "isCaseOf"@))
}

/// The error, if any, of decoding the members of `ConceptDescription` from `fs`.
pub open spec fn concept_description_error(fs: Seq<(String, Json)>) -> Option<DecodeError> {
    match identifiable_error(fs) {
        Some(e) => Some(e),
        None => {
            match has_data_specification_error(fs) {
                Some(e) => Some(e),
                None => {
                    match opt_error::<Reference>(member(fs, "isCaseOf"@)) {
                        Some(e) => Some(e),
                        None => {
                            None
                        },
                    }
                },
            }
        },
    }
}

/// The values of `x` are well-formed.
pub open spec fn concept_description_wf(x: ConceptDescription) -> bool {
    &&& identifiable_wf(x.identifiable)
    &&& has_data_specification_wf(x.data_specification)
    &&& opt_wf(x.is_case_of)
}

/// `x` and `y` hold the same content.
pub open spec fn concept_description_equiv(x: ConceptDescription, y: ConceptDescription) -> bool {
    &&& identifiable_equiv(x.identifiable, y.identifiable)
    &&& has_data_specification_equiv(x.data_specification, y.data_specification)
    &&& opt_equiv(x.is_case_of, y.is_case_of)
}

impl ConceptDescription {
    /// Writes the members of the value, absent ones left out.
    pub fn encode_members(&self) -> (r: Vec<(String, Json)>)
        ensures
            concept_description_encoded(*self, r@),
    {
        proof {
            reveal_strlit("id");
            reveal_strlit("administrative_information");
            reveal_strlit("idShort");
            reveal_strlit("displayName");
            reveal_strlit("description");
            reveal_strlit("category");
            reveal_strlit("extensions");
            reveal_strlit("embeddedDataSpecifications");
            reveal_strlit("isCaseOf");
            assert("id"@.len() == 2 && "administrative_information"@.len() == 26);
            assert("id"@.len() == 2 && "idShort"@.len() == 7);
            assert("id"@.len() == 2 && "displayName"@.len() == 11);
            assert("id"@.len() == 2 && "description"@.len() == 11);
            assert("id"@.len() == 2 && "category"@.len() == 8);
            assert("id"@.len() == 2 && "extensions"@.len() == 10);
            assert("id"@.len() == 2 && "embeddedDataSpecifications"@.len() == 26);
            assert("id"@.len() == 2 && "isCaseOf"@.len() == 8);
            assert("administrative_information"@.len() == 26 && "id"@.len() == 2);
            assert("administrative_information"@.len() == 26 && "idShort"@.len() == 7);
            assert("administrative_information"@.len() == 26 && "displayName"@.len() == 11);
            assert("administrative_information"@.len() == 26 && "description"@.len() == 11);
            assert("administrative_information"@.len() == 26 && "category"@.len() == 8);
            assert("administrative_information"@.len() == 26 && "extensions"@.len() == 10);
            assert("administrative_information"@[0] != "embeddedDataSpecifications"@[0]);
            assert("administrative_information"@.len() == 26 && "isCaseOf"@.len() == 8);
            assert("idShort"@.len() == 7 && "id"@.len() == 2);
            assert("idShort"@.len() == 7 && "administrative_information"@.len() == 26);
            assert("idShort"@.len() == 7 && "displayName"@.len() == 11);
            assert("idShort"@.len() == 7 && "description"@.len() == 11);
            assert("idShort"@.len() == 7 && "category"@.len() == 8);
            assert("idShort"@.len() == 7 && "extensions"@.len() == 10);
            assert("idShort"@.len() == 7 && "embeddedDataSpecifications"@.len() == 26);
            assert("idShort"@.len() == 7 && "isCaseOf"@.len() == 8);
            assert("displayName"@.len() == 11 && "id"@.len() == 2);
            assert("displayName"@.len() == 11 && "administrative_information"@.len() == 26);
            assert("displayName"@.len() == 11 && "idShort"@.len() == 7);
            assert("displayName"@[1] != "description"@[1]);
            assert("displayName"@.len() == 11 && "category"@.len() == 8);
            assert("displayName"@.len() == 11 && "extensions"@.len() == 10);
            assert("displayName"@.len() == 11 && "embeddedDataSpecifications"@.len() == 26);
            assert("displayName"@.len() == 11 && "isCaseOf"@.len() == 8);
            assert("description"@.len() == 11 && "id"@.len() == 2);
            assert("description"@.len() == 11 && "administrative_information"@.len() == 26);
            assert("description"@.len() == 11 && "idShort"@.len() == 7);
            assert("description"@[1] != "displayName"@[1]);
            assert("description"@.len() == 11 && "category"@.len() == 8);
            assert("description"@.len() == 11 && "extensions"@.len() == 10);
            assert("description"@.len() == 11 && "embeddedDataSpecifications"@.len() == 26);
            assert("description"@.len() == 11 && "isCaseOf"@.len() == 8);
            assert("category"@.len() == 8 && "id"@.len() == 2);
            assert("category"@.len() == 8 && "administrative_information"@.len() == 26);
            assert("category"@.len() == 8 && "idShort"@.len() == 7);
            assert("category"@.len() == 8 && "displayName"@.len() == 11);
            assert("category"@.len() == 8 && "description"@.len() == 11);
            assert("category"@.len() == 8 && "extensions"@.len() == 10);
            assert("category"@.len() == 8 && "embeddedDataSpecifications"@.len() == 26);
            assert("category"@[0] != "isCaseOf"@[0]);
            assert("extensions"@.len() == 10 && "id"@.len() == 2);
            assert("extensions"@.len() == 10 && "administrative_information"@.len() == 26);
            assert("extensions"@.len() == 10 && "idShort"@.len() == 7);
            assert("extensions"@.len() == 10 && "displayName"@.len() == 11);
            assert("extensions"@.len() == 10 && "description"@.len() == 11);
            assert("extensions"@.len() == 10 && "category"@.len() == 8);
            assert("extensions"@.len() == 10 && "embeddedDataSpecifications"@.len() == 26);
            assert("extensions"@.len() == 10 && "isCaseOf"@.len() == 8);
            assert("embeddedDataSpecifications"@.len() == 26 && "id"@.len() == 2);
            assert("embeddedDataSpecifications"@[0] != "administrative_information"@[0]);
            assert("embeddedDataSpecifications"@.len() == 26 && "idShort"@.len() == 7);
            assert("embeddedDataSpecifications"@.len() == 26 && "displayName"@.len() == 11);
            assert("embeddedDataSpecifications"@.len() == 26 && "description"@.len() == 11);
            assert("embeddedDataSpecifications"@.len() == 26 && "category"@.len() == 8);
            assert("embeddedDataSpecifications"@.len() == 26 && "extensions"@.len() == 10);
            assert("embeddedDataSpecifications"@.len() == 26 && "isCaseOf"@.len() == 8);
            assert("isCaseOf"@.len() == 8 && "id"@.len() == 2);
            assert("isCaseOf"@.len() == 8 && "administrative_information"@.len() == 26);
            assert("isCaseOf"@.len() == 8 && "idShort"@.len() == 7);
            assert("isCaseOf"@.len() == 8 && "displayName"@.len() == 11);
            assert("isCaseOf"@.len() == 8 && "description"@.len() == 11);
            assert("isCaseOf"@[0] != "category"@[0]);
            assert("isCaseOf"@.len() == 8 && "extensions"@.len() == 10);
            assert("isCaseOf"@.len() == 8 && "embeddedDataSpecifications"@.len() == 26);
        }
        let mut fs: Vec<(String, Json)> = Vec::new();
        let ghost prev = fs@;
        let mut part = self.identifiable.encode_members();
        let ghost sp = part@;
        fs.append(&mut part);
        proof {
            lemma_names_within_empty(prev, |n: Seq<char>| identifiable_name(n));
            lemma_names_within_concat(prev, sp, |n: Seq<char>| identifiable_name(n), |n: Seq<char>| identifiable_name(n), |n: Seq<char>| identifiable_name(n));
            lemma_lookup_concat(prev, sp, "id"@);
            assert(prev.len() == 0);
            lemma_lookup_concat(prev, sp, "administrative_information"@);
            assert(prev.len() == 0);
            lemma_lookup_concat(prev, sp, "idShort"@);
            assert(prev.len() == 0);
            lemma_lookup_concat(prev, sp, "displayName"@);
            assert(prev.len() == 0);
            lemma_lookup_concat(prev, sp, "description"@);
            assert(prev.len() == 0);
            lemma_lookup_concat(prev, sp, "category"@);
            assert(prev.len() == 0);
            lemma_lookup_concat(prev, sp, "extensions"@);
            assert(prev.len() == 0);
        }
        let ghost prev = fs@;
        let mut part = self.data_specification.encode_members();
        let ghost sp = part@;
        fs.append(&mut part);
        proof {
            lemma_names_within_concat(prev, sp, |n: Seq<char>| identifiable_name(n), |n: Seq<char>| has_data_specification_name(n), |n: Seq<char>| identifiable_name(n) || has_data_specification_name(n));
            lemma_lookup_concat(prev, sp, "id"@);
            lemma_lookup_outside(sp, |n: Seq<char>| has_data_specification_name(n), "id"@);
            lemma_lookup_concat(prev, sp, "administrative_information"@);
            lemma_lookup_outside(sp, |n: Seq<char>| has_data_specification_name(n), "administrative_information"@);
            lemma_lookup_concat(prev, sp, "idShort"@);
            lemma_lookup_outside(sp, |n: Seq<char>| has_data_specification_name(n), "idShort"@);
            lemma_lookup_concat(prev, sp, "displayName"@);
            lemma_lookup_outside(sp, |n: Seq<char>| has_data_specification_name(n), "displayName"@);
            lemma_lookup_concat(prev, sp, "description"@);
            lemma_lookup_outside(sp, |n: Seq<char>| has_data_specification_name(n), "description"@);
            lemma_lookup_concat(prev, sp, "category"@);
            lemma_lookup_outside(sp, |n: Seq<char>| has_data_specification_name(n), "category"@);
            lemma_lookup_concat(prev, sp, "extensions"@);
            lemma_lookup_outside(sp, |n: Seq<char>| has_data_specification_name(n), "extensions"@);
            lemma_lookup_concat(prev, sp, "embeddedDataSpecifications"@);
            lemma_lookup_outside(prev, |n: Seq<char>| identifiable_name(n), "embeddedDataSpecifications"@);
        }
        let ghost prev = fs@;
        push_opt(&mut fs, "isCaseOf", &self.is_case_of);
        proof {
            lemma_names_within_weaken(prev, |n: Seq<char>| identifiable_name(n) || has_data_specification_name(n), |n: Seq<char>| concept_description_name(n));
            lemma_lookup_outside(prev, |n: Seq<char>| identifiable_name(n) || has_data_specification_name(n), "isCaseOf"@);
            if self.is_case_of is Some {
                assert(fs@ == prev.push(fs@.last()));
                lemma_names_within_push(prev, fs@.last(), |n: Seq<char>| concept_description_name(n));
                lemma_lookup_push(prev, fs@.last(), "id"@);
                lemma_lookup_push(prev, fs@.last(), "administrative_information"@);
                lemma_lookup_push(prev, fs@.last(), "idShort"@);
                lemma_lookup_push(prev, fs@.last(), "displayName"@);
                lemma_lookup_push(prev, fs@.last(), "description"@);
                lemma_lookup_push(prev, fs@.last(), "category"@);
                lemma_lookup_push(prev, fs@.last(), "extensions"@);
                lemma_lookup_push(prev, fs@.last(), "embeddedDataSpecifications"@);
                lemma_lookup_push(prev, fs@.last(), "isCaseOf"@);
            }
        }
        fs
    }

    /// Reads the members of the value from `fs`.
    pub fn decode_members(fs: &Vec<(String, Json)>) -> (r: Result<ConceptDescription, DecodeError>)
        ensures
            match concept_description_error(fs@) {
                Some(e) => r == Err::<ConceptDescription, DecodeError>(e),
                None => r matches Ok(x) && concept_description_rel(x, fs@),
            },
    {
        let identifiable = match Identifiable::decode_members(fs) {
            Ok(v) => v,
            Err(e) => return Err(e),
        };
        let data_specification = match HasDataSpecification::decode_members(fs) {
            Ok(v) => v,
            Err(e) => return Err(e),
        };
        let is_case_of = match decode_opt::<Reference>(fs, "isCaseOf") {
            Ok(v) => v,
            Err(e) => return Err(e),
        };
        Ok(ConceptDescription { identifiable, data_specification, is_case_of })
    }
}

/// Members found as encoding writes them decode to a value, whatever
/// other members stand beside them.
pub proof fn lemma_concept_description_round_trip(x: ConceptDescription, fs: Seq<(String, Json)>)
    requires
        concept_description_wf(x),
        concept_description_lookups(x, fs),
    ensures
        concept_description_error(fs) is None,
        concept_description_rel(x, fs),
{
    lemma_identifiable_round_trip(x.identifiable, fs);
    lemma_has_data_specification_round_trip(x.data_specification, fs);
    lemma_opt_round_trip(x.is_case_of, lookup(fs, "isCaseOf"@));
}

/// The values that the same members decode to hold the same content.
pub proof fn lemma_concept_description_unique(x: ConceptDescription, y: ConceptDescription, fs: Seq<(String, Json)>)
    requires
        concept_description_rel(x, fs),
        concept_description_rel(y, fs),
    ensures
        concept_description_equiv(x, y),
{
    lemma_identifiable_unique(x.identifiable, y.identifiable, fs);
    lemma_has_data_specification_unique(x.data_specification, y.data_specification, fs);
    lemma_opt_unique(x.is_case_of, y.is_case_of, member(fs, "isCaseOf"@));
}

impl JsonCodec for ConceptDescription {
    open spec fn wf(&self) -> bool {
        concept_description_wf(*self)
    }

    open spec fn encoded(&self, j: Json) -> bool {
        j matches Json::Object(fs) && concept_description_encoded(*self, fs@)
    }

    open spec fn rel(&self, j: Json) -> bool {
        j matches Json::Object(fs) && concept_description_rel(*self, fs@)
    }

    open spec fn decode_error(j: Json) -> Option<DecodeError> {
        match j {
            Json::Object(fs) => concept_description_error(fs@),
            _ => Some(DecodeError::UnexpectedKind),
        }
    }

    open spec fn equiv(&self, o: &Self) -> bool {
        concept_description_equiv(*self, *o)
    }

    fn encode(&self) -> (r: Json) {
        Json::Object(self.encode_members())
    }

    fn decode(j: &Json) -> (r: Result<Self, DecodeError>) {
        match j {
            Json::Object(fs) => ConceptDescription::decode_members(fs),
            _ => Err(DecodeError::UnexpectedKind),
        }
    }

    proof fn lemma_round_trip(&self, j: Json) {
        lemma_concept_description_round_trip(*self, j->Object_0@);
    }

    proof fn lemma_unique(&self, o: &Self, j: Json) {
        lemma_concept_description_unique(*self, *o, j->Object_0@);
    }
}

/// An environment: the shells, submodels and concept descriptions of one document, each owned by it.
#[derive(Debug, PartialEq)]
pub struct Environment {
    pub asset_administration_shells: Option<Vec<AssetAdministrationShell>>,
    pub submodels: Option<Vec<Submodel>>,
    pub concept_descriptions: Option<Vec<ConceptDescription>>,
}

/// A name of the members of `Environment`.
pub open spec fn environment_name(n: Seq<char>) -> bool {
    n == "assetAdministrationShells"@ || n == "submodels"@ || n == "conceptDescriptions"@
}

/// Looking up the members of `Environment` in `fs` finds what encoding writes for `x`.
pub open spec fn environment_lookups(x: Environment, fs: Seq<(String, Json)>) -> bool {
    &&& opt_encoded(x.asset_administration_shells, lookup(fs, "assetAdministrationShells"@))
    &&& opt_encoded(x.submodels, lookup(fs, "submodels"@))
    &&& opt_encoded(x.concept_descriptions, lookup(fs, "conceptDescriptions"@))
}

/// `fs` are the members that encoding writes for `x`.
pub open spec fn environment_encoded(x: Environment, fs: Seq<(String, Json)>) -> bool {
    &&& names_within(fs, |n: Seq<char>| environment_name(n))
    &&& environment_lookups(x, fs)
}

/// The members of `fs` decode to `x`.
pub open spec fn environment_rel(x: Environment, fs: Seq<(String, Json)>) -> bool {
    &&& opt_rel(x.asset_administration_shells, member(fs, "assetAdministrationShells"@))
    &&& opt_rel(x.submodels, member(fs, "submodels"@))
    &&& opt_rel(x.concept_descriptions, member(fs, "conceptDescriptions"@))
}

/// The error, if any, of decoding the members of `Environment` from `fs`.
pub open spec fn environment_error(fs: Seq<(String, Json)>) -> Option<DecodeError> {
    match opt_error::<Vec<AssetAdministrationShell>>(member(fs, "assetAdministrationShells"@)) {
        Some(e) => Some(e),
        None => {
            match opt_error::<Vec<Submodel>>(member(fs, "submodels"@)) {
                Some(e) => Some(e),
                None => {
                    match opt_error::<Vec<ConceptDescription>>(member(fs, "conceptDescriptions"@)) {
                        Some(e) => Some(e),
                        None => {
                            None
                        },
                    }
                },
            }
        },
    }
}

/// The values of `x` are well-formed.
pub open spec fn environment_wf(x: Environment) -> bool {
    &&& opt_wf(x.asset_administration_shells)
    &&& opt_wf(x.submodels)
    &&& opt_wf(x.concept_descriptions)
}

/// `x` and `y` hold the same content.
pub open spec fn environment_equiv(x: Environment, y: Environment) -> bool {
    &&& opt_equiv(x.asset_administration_shells, y.asset_administration_shells)
    &&& opt_equiv(x.submodels, y.submodels)
    &&& opt_equiv(x.concept_descriptions, y.concept_descriptions)
}

impl Environment {
    /// Writes the members of the value, absent ones left out.
    pub fn encode_members(&self) -> (r: Vec<(String, Json)>)
        ensures
            environment_encoded(*self, r@),
    {
        proof {
            reveal_strlit("assetAdministrationShells");
            reveal_strlit("submodels");
            reveal_strlit("conceptDescriptions");
            assert("assetAdministrationShells"@.len() == 25 && "submodels"@.len() == 9);
            assert("assetAdministrationShells"@.len() == 25 && "conceptDescriptions"@.len() == 19);
            assert("submodels"@.len() == 9 && "assetAdministrationShells"@.len() == 25);
            assert("submodels"@.len() == 9 && "conceptDescriptions"@.len() == 19);
            assert("conceptDescriptions"@.len() == 19 && "assetAdministrationShells"@.len() == 25);
            assert("conceptDescriptions"@.len() == 19 && "submodels"@.len() == 9);
        }
        let mut fs: Vec<(String, Json)> = Vec::new();
        let ghost prev = fs@;
        push_opt(&mut fs, "assetAdministrationShells", &self.asset_administration_shells);
        proof {
            lemma_names_within_empty(prev, |n: Seq<char>| n == "assetAdministrationShells"@);
            if self.asset_administration_shells is Some {
                assert(fs@ == prev.push(fs@.last()));
                lemma_names_within_push(prev, fs@.last(), |n: Seq<char>| n == "assetAdministrationShells"@);
                lemma_lookup_push(prev, fs@.last(), "assetAdministrationShells"@);
            }
        }
        let ghost prev = fs@;
        push_opt(&mut fs, "submodels", &self.submodels);
        proof {
            lemma_names_within_weaken(prev, |n: Seq<char>| n == "assetAdministrationShells"@, |n: Seq<char>| n == "assetAdministrationShells"@ || n == "submodels"@);
            lemma_lookup_outside(prev, |n: Seq<char>| n == "assetAdministrationShells"@, "submodels"@);
            if self.submodels is Some {
                assert(fs@ == prev.push(fs@.last()));
                lemma_names_within_push(prev, fs@.last(), |n: Seq<char>| n == "assetAdministrationShells"@ || n == "submodels"@);
                lemma_lookup_push(prev, fs@.last(), "assetAdministrationShells"@);
                lemma_lookup_push(prev, fs@.last(), "submodels"@);
            }
        }
        let ghost prev = fs@;
        push_opt(&mut fs, "conceptDescriptions", &self.concept_descriptions);
        proof {
            lemma_names_within_weaken(prev, |n: Seq<char>| n == "assetAdministrationShells"@ || n == "submodels"@, |n: Seq<char>| environment_name(n));
            lemma_lookup_outside(prev, |n: Seq<char>| n == "assetAdministrationShells"@ || n == "submodels"@, "conceptDescriptions"@);
            if self.concept_descriptions is Some {
                assert(fs@ == prev.push(fs@.last()));
                lemma_names_within_push(prev, fs@.last(), |n: Seq<char>| environment_name(n));
                lemma_lookup_push(prev, fs@.last(), "assetAdministrationShells"@);
                lemma_lookup_push(prev, fs@.last(), "submodels"@);
                lemma_lookup_push(prev, fs@.last(), "conceptDescriptions"@);
            }
        }
        fs
    }

    /// Reads the members of the value from `fs`.
    pub fn decode_members(fs: &Vec<(String, Json)>) -> (r: Result<Environment, DecodeError>)
        ensures
            match environment_error(fs@) {
                Some(e) => r == Err::<Environment, DecodeError>(e),
                None => r matches Ok(x) && environment_rel(x, fs@),
            },
    {
        let asset_administration_shells = match decode_opt::<Vec<AssetAdministrationShell>>(fs, "assetAdministrationShells") {
            Ok(v) => v,
            Err(e) => return Err(e),
        };
        let submodels = match decode_opt::<Vec<Submodel>>(fs, "submodels") {
            Ok(v) => v,
            Err(e) => return Err(e),
        };
        let concept_descriptions = match decode_opt::<Vec<ConceptDescription>>(fs, "conceptDescriptions") {
            Ok(v) => v,
            Err(e) => return Err(e),
        };
        Ok(Environment { asset_administration_shells, submodels, concept_descriptions })
    }
}

/// Members found as encoding writes them decode to a value, whatever
/// other members stand beside them.
pub proof fn lemma_environment_round_trip(x: Environment, fs: Seq<(String, Json)>)
    requires
        environment_wf(x),
        environment_lookups(x, fs),
    ensures
        environment_error(fs) is None,
        environment_rel(x, fs),
{
    lemma_opt_round_trip(x.asset_administration_shells, lookup(fs, "assetAdministrationShells"@));
    lemma_opt_round_trip(x.submodels, lookup(fs, "submodels"@));
    lemma_opt_round_trip(x.concept_descriptions, lookup(fs, "conceptDescriptions"@));
}

/// The values that the same members decode to hold the same content.
pub proof fn lemma_environment_unique(x: Environment, y: Environment, fs: Seq<(String, Json)>)
    requires
        environment_rel(x, fs),
        environment_rel(y, fs),
    ensures
        environment_equiv(x, y),
{
    lemma_opt_unique(x.asset_administration_shells, y.asset_administration_shells, member(fs, "assetAdministrationShells"@));
    lemma_opt_unique(x.submodels, y.submodels, member(fs, "submodels"@));
    lemma_opt_unique(x.concept_descriptions, y.concept_descriptions, member(fs, "conceptDescriptions"@));
}

impl JsonCodec for Environment {
    open spec fn wf(&self) -> bool {
        environment_wf(*self)
    }

    open spec fn encoded(&self, j: Json) -> bool {
        j matches Json::Object(fs) && environment_encoded(*self, fs@)
    }

    open spec fn rel(&self, j: Json) -> bool {
        j matches Json::Object(fs) && environment_rel(*self, fs@)
    }

    open spec fn decode_error(j: Json) -> Option<DecodeError> {
        match j {
            Json::Object(fs) => environment_error(fs@),
            _ => Some(DecodeError::UnexpectedKind),
        }
    }

    open spec fn equiv(&self, o: &Self) -> bool {
        environment_equiv(*self, *o)
    }

    fn encode(&self) -> (r: Json) {
        Json::Object(self.encode_members())
    }

    fn decode(j: &Json) -> (r: Result<Self, DecodeError>) {
        match j {
            Json::Object(fs) => Environment::decode_members(fs),
            _ => Err(DecodeError::UnexpectedKind),
        }
    }

    proof fn lemma_round_trip(&self, j: Json) {
        lemma_environment_round_trip(*self, j->Object_0@);
    }

    proof fn lemma_unique(&self, o: &Self, j: Json) {
        lemma_environment_unique(*self, *o, j->Object_0@);
    }
}

impl AssetAdministrationShell {
    /// Writes the members of the metamodel view of the value: its
    /// attributes, without its contents.
    pub fn metamodel_members(&self) -> (r: Vec<(String, Json)>)
        ensures
            asset_administration_shell_metamodel_encoded(AssetAdministrationShellMetamodel { identifiable: self.identifiable, data_specification: self.data_specification, derived_from: self.derived_from }, r@),
    {
        proof {
            reveal_strlit("AssetAdministrationShell");
            reveal_strlit("id");
            reveal_strlit("administrative_information");
            reveal_strlit("idShort");
            reveal_strlit("displayName");
            reveal_strlit("description");
            reveal_strlit("category");
            reveal_strlit("extensions");
            reveal_strlit("embeddedDataSpecifications");
            reveal_strlit("derivedFrom");
            assert("AssetAdministrationShell"@.len() == 24 && "id"@.len() == 2);
            assert("AssetAdministrationShell"@.len() == 24 && "administrative_information"@.len() == 26);
            assert("AssetAdministrationShell"@.len() == 24 && "idShort"@.len() == 7);
            assert("AssetAdministrationShell"@.len() == 24 && "displayName"@.len() == 11);
            assert("AssetAdministrationShell"@.len() == 24 && "description"@.len() == 11);
            assert("AssetAdministrationShell"@.len() == 24 && "category"@.len() == 8);
            assert("AssetAdministrationShell"@.len() == 24 && "extensions"@.len() == 10);
            assert("AssetAdministrationShell"@.len() == 24 && "embeddedDataSpecifications"@.len() == 26);
            assert("AssetAdministrationShell"@.len() == 24 && "derivedFrom"@.len() == 11);
            assert("id"@.len() == 2 && "AssetAdministrationShell"@.len() == 24);
            assert("id"@.len() == 2 && "administrative_information"@.len() == 26);
            assert("id"@.len() == 2 && "idShort"@.len() == 7);
            assert("id"@.len() == 2 && "displayName"@.len() == 11);
            assert("id"@.len() == 2 && "description"@.len() == 11);
            assert("id"@.len() == 2 && "category"@.len() == 8);
            assert("id"@.len() == 2 && "extensions"@.len() == 10);
            assert("id"@.len() == 2 && "embeddedDataSpecifications"@.len() == 26);
            assert("id"@.len() == 2 && "derivedFrom"@.len() == 11);
            assert("administrative_information"@.len() == 26 && "AssetAdministrationShell"@.len() == 24);
            assert("administrative_information"@.len() == 26 && "id"@.len() == 2);
            assert("administrative_information"@.len() == 26 && "idShort"@.len() == 7);
            assert("administrative_information"@.len() == 26 && "displayName"@.len() == 11);
            assert("administrative_information"@.len() == 26 && "description"@.len() == 11);
            assert("administrative_information"@.len() == 26 && "category"@.len() == 8);
            assert("administrative_information"@.len() == 26 && "extensions"@.len() == 10);
            assert("administrative_information"@[0] != "embeddedDataSpecifications"@[0]);
            assert("administrative_information"@.len() == 26 && "derivedFrom"@.len() == 11);
            assert("idShort"@.len() == 7 && "AssetAdministrationShell"@.len() == 24);
            assert("idShort"@.len() == 7 && "id"@.len() == 2);
            assert("idShort"@.len() == 7 && "administrative_information"@.len() == 26);
            assert("idShort"@.len() == 7 && "displayName"@.len() == 11);
            assert("idShort"@.len() == 7 && "description"@.len() == 11);
            assert("idShort"@.len() == 7 && "category"@.len() == 8);
            assert("idShort"@.len() == 7 && "extensions"@.len() == 10);
            assert("idShort"@.len() == 7 && "embeddedDataSpecifications"@.len() == 26);
            assert("idShort"@.len() == 7 && "derivedFrom"@.len() == 11);
            assert("displayName"@.len() == 11 && "AssetAdministrationShell"@.len() == 24);
            assert("displayName"@.len() == 11 && "id"@.len() == 2);
            assert("displayName"@.len() == 11 && "administrative_information"@.len() == 26);
            assert("displayName"@.len() == 11 && "idShort"@.len() == 7);
            assert("displayName"@[1] != "description"@[1]);
            assert("displayName"@.len() == 11 && "category"@.len() == 8);
            assert("displayName"@.len() == 11 && "extensions"@.len() == 10);
            assert("displayName"@.len() == 11 && "embeddedDataSpecifications"@.len() == 26);
            assert("displayName"@[1] != "derivedFrom"@[1]);
            assert("description"@.len() == 11 && "AssetAdministrationShell"@.len() == 24);
            assert("description"@.len() == 11 && "id"@.len() == 2);
            assert("description"@.len() == 11 && "administrative_information"@.len() == 26);
            assert("description"@.len() == 11 && "idShort"@.len() == 7);
            assert("description"@[1] != "displayName"@[1]);
            assert("description"@.len() == 11 && "category"@.len() == 8);
            assert("description"@.len() == 11 && "extensions"@.len() == 10);
            assert("description"@.len() == 11 && "embeddedDataSpecifications"@.len() == 26);
            assert("description"@[2] != "derivedFrom"@[2]);
            assert("category"@.len() == 8 && "AssetAdministrationShell"@.len() == 24);
            assert("category"@.len() == 8 && "id"@.len() == 2);
            assert("category"@.len() == 8 && "administrative_information"@.len() == 26);
            assert("category"@.len() == 8 && "idShort"@.len() == 7);
            assert("category"@.len() == 8 && "displayName"@.len() == 11);
            assert("category"@.len() == 8 && "description"@.len() == 11);
            assert("category"@.len() == 8 && "extensions"@.len() == 10);
            assert("category"@.len() == 8 && "embeddedDataSpecifications"@.len() == 26);
            assert("category"@.len() == 8 && "derivedFrom"@.len() == 11);
            assert("extensions"@.len() == 10 && "AssetAdministrationShell"@.len() == 24);
            assert("extensions"@.len() == 10 && "id"@.len() == 2);
            assert("extensions"@.len() == 10 && "administrative_information"@.len() == 26);
            assert("extensions"@.len() == 10 && "idShort"@.len() == 7);
            assert("extensions"@.len() == 10 && "displayName"@.len() == 11);
            assert("extensions"@.len() == 10 && "description"@.len() == 11);
            assert("extensions"@.len() == 10 && "category"@.len() == 8);
            assert("extensions"@.len() == 10 && "embeddedDataSpecifications"@.len() == 26);
            assert("extensions"@.len() == 10 && "derivedFrom"@.len() == 11);
            assert("embeddedDataSpecifications"@.len() == 26 && "AssetAdministrationShell"@.len() == 24);
            assert("embeddedDataSpecifications"@.len() == 26 && "id"@.len() == 2);
            assert("embeddedDataSpecifications"@[0] != "administrative_information"@[0]);
            assert("embeddedDataSpecifications"@.len() == 26 && "idShort"@.len() == 7);
            assert("embeddedDataSpecifications"@.len() == 26 && "displayName"@.len() == 11);
            assert("embeddedDataSpecifications"@.len() == 26 && "description"@.len() == 11);
            assert("embeddedDataSpecifications"@.len() == 26 && "category"@.len() == 8);
            assert("embeddedDataSpecifications"@.len() == 26 && "extensions"@.len() == 10);
            assert("embeddedDataSpecifications"@.len() == 26 && "derivedFrom"@.len() == 11);
            assert("derivedFrom"@.len() == 11 && "AssetAdministrationShell"@.len() == 24);
            assert("derivedFrom"@.len() == 11 && "id"@.len() == 2);
            assert("derivedFrom"@.len() == 11 && "administrative_information"@.len() == 26);
            assert("derivedFrom"@.len() == 11 && "idShort"@.len() == 7);
            assert("derivedFrom"@[1] != "displayName"@[1]);
            assert("derivedFrom"@[2] != "description"@[2]);
            assert("derivedFrom"@.len() == 11 && "category"@.len() == 8);
            assert("derivedFrom"@.len() == 11 && "extensions"@.len() == 10);
            assert("derivedFrom"@.len() == 11 && "embeddedDataSpecifications"@.len() == 26);
        }
        let mut fs: Vec<(String, Json)> = Vec::new();
        let ghost prev = fs@;
        fs.push(field("AssetAdministrationShell", Json::Str("AssetAdministrationShell".to_string())));
        proof {
            lemma_names_within_empty(prev, |n: Seq<char>| n == "AssetAdministrationShell"@);
            if true {
                assert(fs@ == prev.push(fs@.last()));
                lemma_names_within_push(prev, fs@.last(), |n: Seq<char>| n == "AssetAdministrationShell"@);
                lemma_lookup_push(prev, fs@.last(), "AssetAdministrationShell"@);
            }
        }
        let ghost prev = fs@;
        let mut part = self.identifiable.encode_members();
        let ghost sp = part@;
        fs.append(&mut part);
        proof {
            lemma_names_within_concat(prev, sp, |n: Seq<char>| n == "AssetAdministrationShell"@, |n: Seq<char>| identifiable_name(n), |n: Seq<char>| n == "AssetAdministrationShell"@ || identifiable_name(n));
            lemma_lookup_concat(prev, sp, "AssetAdministrationShell"@);
            lemma_lookup_outside(sp, |n: Seq<char>| identifiable_name(n), "AssetAdministrationShell"@);
            lemma_lookup_concat(prev, sp, "id"@);
            lemma_lookup_outside(prev, |n: Seq<char>| n == "AssetAdministrationShell"@, "id"@);
            lemma_lookup_concat(prev, sp, "administrative_information"@);
            lemma_lookup_outside(prev, |n: Seq<char>| n == "AssetAdministrationShell"@, "administrative_information"@);
            lemma_lookup_concat(prev, sp, "idShort"@);
            lemma_lookup_outside(prev, |n: Seq<char>| n == "AssetAdministrationShell"@, "idShort"@);
            lemma_lookup_concat(prev, sp, "displayName"@);
            lemma_lookup_outside(prev, |n: Seq<char>| n == "AssetAdministrationShell"@, "displayName"@);
            lemma_lookup_concat(prev, sp, "description"@);
            lemma_lookup_outside(prev, |n: Seq<char>| n == "AssetAdministrationShell"@, "description"@);
            lemma_lookup_concat(prev, sp, "category"@);
            lemma_lookup_outside(prev, |n: Seq<char>| n == "AssetAdministrationShell"@, "category"@);
            lemma_lookup_concat(prev, sp, "extensions"@);
            lemma_lookup_outside(prev, |n: Seq<char>| n == "AssetAdministrationShell"@, "extensions"@);
        }
        let ghost prev = fs@;
        let mut part = self.data_specification.encode_members();
        let ghost sp = part@;
        fs.append(&mut part);
        proof {
            lemma_names_within_concat(prev, sp, |n: Seq<char>| n == "AssetAdministrationShell"@ || identifiable_name(n), |n: Seq<char>| has_data_specification_name(n), |n: Seq<char>| n == "AssetAdministrationShell"@ || identifiable_name(n) || has_data_specification_name(n));
            lemma_lookup_concat(prev, sp, "AssetAdministrationShell"@);
            lemma_lookup_outside(sp, |n: Seq<char>| has_data_specification_name(n), "AssetAdministrationShell"@);
            lemma_lookup_concat(prev, sp, "id"@);
            lemma_lookup_outside(sp, |n: Seq<char>| has_data_specification_name(n), "id"@);
            lemma_lookup_concat(prev, sp, "administrative_information"@);
            lemma_lookup_outside(sp, |n: Seq<char>| has_data_specification_name(n), "administrative_information"@);
            lemma_lookup_concat(prev, sp, "idShort"@);
            lemma_lookup_outside(sp, |n: Seq<char>| has_data_specification_name(n), "idShort"@);
            lemma_lookup_concat(prev, sp, "displayName"@);
            lemma_lookup_outside(sp, |n: Seq<char>| has_data_specification_name(n), "displayName"@);
            lemma_lookup_concat(prev, sp, "description"@);
            lemma_lookup_outside(sp, |n: Seq<char>| has_data_specification_name(n), "description"@);
            lemma_lookup_concat(prev, sp, "category"@);
            lemma_lookup_outside(sp, |n: Seq<char>| has_data_specification_name(n), "category"@);
            lemma_lookup_concat(prev, sp, "extensions"@);
            lemma_lookup_outside(sp, |n: Seq<char>| has_data_specification_name(n), "extensions"@);
            lemma_lookup_concat(prev, sp, "embeddedDataSpecifications"@);
            lemma_lookup_outside(prev, |n: Seq<char>| n == "AssetAdministrationShell"@ || identifiable_name(n), "embeddedDataSpecifications"@);
        }
        let ghost prev = fs@;
        push_opt(&mut fs, "derivedFrom", &self.derived_from);
        proof {
            lemma_names_within_weaken(prev, |n: Seq<char>| n == "AssetAdministrationShell"@ || identifiable_name(n) || has_data_specification_name(n), |n: Seq<char>| asset_administration_shell_metamodel_name(n));
            lemma_lookup_outside(prev, |n: Seq<char>| n == "AssetAdministrationShell"@ || identifiable_name(n) || has_data_specification_name(n), "derivedFrom"@);
            if self.derived_from is Some {
                assert(fs@ == prev.push(fs@.last()));
                lemma_names_within_push(prev, fs@.last(), |n: Seq<char>| asset_administration_shell_metamodel_name(n));
                lemma_lookup_push(prev, fs@.last(), "AssetAdministrationShell"@);
                lemma_lookup_push(prev, fs@.last(), "id"@);
                lemma_lookup_push(prev, fs@.last(), "administrative_information"@);
                lemma_lookup_push(prev, fs@.last(), "idShort"@);
                lemma_lookup_push(prev, fs@.last(), "displayName"@);
                lemma_lookup_push(prev, fs@.last(), "description"@);
                lemma_lookup_push(prev, fs@.last(), "category"@);
                lemma_lookup_push(prev, fs@.last(), "extensions"@);
                lemma_lookup_push(prev, fs@.last(), "embeddedDataSpecifications"@);
                lemma_lookup_push(prev, fs@.last(), "derivedFrom"@);
            }
        }
        fs
    }
}

impl Submodel {
    /// Writes the members of the metamodel view of the value: its
    /// attributes, without its contents.
    #[verifier::rlimit(100)]
    #[verifier::spinoff_prover]
    pub fn metamodel_members(&self) -> (r: Vec<(String, Json)>)
        ensures
            submodel_meta_encoded(SubmodelMeta { identifiable: self.identifiable, kind: self.kind, semantics: self.semantics, qualifier: self.qualifier, data_specification: self.data_specification }, r@),
    {
        proof {
            reveal_strlit("modelKind");
            reveal_strlit("id");
            reveal_strlit("administrative_information");
            reveal_strlit("idShort");
            reveal_strlit("displayName");
            reveal_strlit("description");
            reveal_strlit("category");
            reveal_strlit("extensions");
            reveal_strlit("kind");
            reveal_strlit("semanticId");
            reveal_strlit("supplementalSemanticIds");
            reveal_strlit("qualifiers");
            reveal_strlit("embeddedDataSpecifications");
            assert("modelKind"@.len() == 9 && "id"@.len() == 2);
            assert("modelKind"@.len() == 9 && "administrative_information"@.len() == 26);
            assert("modelKind"@.len() == 9 && "idShort"@.len() == 7);
            assert("modelKind"@.len() == 9 && "displayName"@.len() == 11);
            assert("modelKind"@.len() == 9 && "description"@.len() == 11);
            assert("modelKind"@.len() == 9 && "category"@.len() == 8);
            assert("modelKind"@.len() == 9 && "extensions"@.len() == 10);
            assert("modelKind"@.len() == 9 && "kind"@.len() == 4);
            assert("modelKind"@.len() == 9 && "semanticId"@.len() == 10);
            assert("modelKind"@.len() == 9 && "supplementalSemanticIds"@.len() == 23);
            assert("modelKind"@.len() == 9 && "qualifiers"@.len() == 10);
            assert("modelKind"@.len() == 9 && "embeddedDataSpecifications"@.len() == 26);
            assert("id"@.len() == 2 && "modelKind"@.len() == 9);
            assert("id"@.len() == 2 && "administrative_information"@.len() == 26);
            assert("id"@.len() == 2 && "idShort"@.len() == 7);
            assert("id"@.len() == 2 && "displayName"@.len() == 11);
            assert("id"@.len() == 2 && "description"@.len() == 11);
            assert("id"@.len() == 2 && "category"@.len() == 8);
            assert("id"@.len() == 2 && "extensions"@.len() == 10);
            assert("id"@.len() == 2 && "kind"@.len() == 4);
            assert("id"@.len() == 2 && "semanticId"@.len() == 10);
            assert("id"@.len() == 2 && "supplementalSemanticIds"@.len() == 23);
            assert("id"@.len() == 2 && "qualifiers"@.len() == 10);
            assert("id"@.len() == 2 && "embeddedDataSpecifications"@.len() == 26);
            assert("administrative_information"@.len() == 26 && "modelKind"@.len() == 9);
            assert("administrative_information"@.len() == 26 && "id"@.len() == 2);
            assert("administrative_information"@.len() == 26 && "idShort"@.len() == 7);
            assert("administrative_information"@.len() == 26 && "displayName"@.len() == 11);
            assert("administrative_information"@.len() == 26 && "description"@.len() == 11);
            assert("administrative_information"@.len() == 26 && "category"@.len() == 8);
            assert("administrative_information"@.len() == 26 && "extensions"@.len() == 10);
            assert("administrative_information"@.len() == 26 && "kind"@.len() == 4);
            assert("administrative_information"@.len() == 26 && "semanticId"@.len() == 10);
            assert("administrative_information"@.len() == 26 && "supplementalSemanticIds"@.len() == 23);
            assert("administrative_information"@.len() == 26 && "qualifiers"@.len() == 10);
            assert("administrative_information"@[0] != "embeddedDataSpecifications"@[0]);
            assert("idShort"@.len() == 7 && "modelKind"@.len() == 9);
            assert("idShort"@.len() == 7 && "id"@.len() == 2);
            assert("idShort"@.len() == 7 && "administrative_information"@.len() == 26);
            assert("idShort"@.len() == 7 && "displayName"@.len() == 11);
            assert("idShort"@.len() == 7 && "description"@.len() == 11);
            assert("idShort"@.len() == 7 && "category"@.len() == 8);
            assert("idShort"@.len() == 7 && "extensions"@.len() == 10);
            assert("idShort"@.len() == 7 && "kind"@.len() == 4);
            assert("idShort"@.len() == 7 && "semanticId"@.len() == 10);
            assert("idShort"@.len() == 7 && "supplementalSemanticIds"@.len() == 23);
            assert("idShort"@.len() == 7 && "qualifiers"@.len() == 10);
            assert("idShort"@.len() == 7 && "embeddedDataSpecifications"@.len() == 26);
            assert("displayName"@.len() == 11 && "modelKind"@.len() == 9);
            assert("displayName"@.len() == 11 && "id"@.len() == 2);
            assert("displayName"@.len() == 11 && "administrative_information"@.len() == 26);
            assert("displayName"@.len() == 11 && "idShort"@.len() == 7);
            assert("displayName"@[1] != "description"@[1]);
            assert("displayName"@.len() == 11 && "category"@.len() == 8);
            assert("displayName"@.len() == 11 && "extensions"@.len() == 10);
            assert("displayName"@.len() == 11 && "kind"@.len() == 4);
            assert("displayName"@.len() == 11 && "semanticId"@.len() == 10);
            assert("displayName"@.len() == 11 && "supplementalSemanticIds"@.len() == 23);
            assert("displayName"@.len() == 11 && "qualifiers"@.len() == 10);
            assert("displayName"@.len() == 11 && "embeddedDataSpecifications"@.len() == 26);
            assert("description"@.len() == 11 && "modelKind"@.len() == 9);
            assert("description"@.len() == 11 && "id"@.len() == 2);
            assert("description"@.len() == 11 && "administrative_information"@.len() == 26);
            assert("description"@.len() == 11 && "idShort"@.len() == 7);
            assert("description"@[1] != "displayName"@[1]);
            assert("description"@.len() == 11 && "category"@.len() == 8);
            assert("description"@.len() == 11 && "extensions"@.len() == 10);
            assert("description"@.len() == 11 && "kind"@.len() == 4);
            assert("description"@.len() == 11 && "semanticId"@.len() == 10);
            assert("description"@.len() == 11 && "supplementalSemanticIds"@.len() == 23);
            assert("description"@.len() == 11 && "qualifiers"@.len() == 10);
            assert("description"@.len() == 11 && "embeddedDataSpecifications"@.len() == 26);
            assert("category"@.len() == 8 && "modelKind"@.len() == 9);
            assert("category"@.len() == 8 && "id"@.len() == 2);
            assert("category"@.len() == 8 && "administrative_information"@.len() == 26);
            assert("category"@.len() == 8 && "idShort"@.len() == 7);
            assert("category"@.len() == 8 && "displayName"@.len() == 11);
            assert("category"@.len() == 8 && "description"@.len() == 11);
            assert("category"@.len() == 8 && "extensions"@.len() == 10);
            assert("category"@.len() == 8 && "kind"@.len() == 4);
            assert("category"@.len() == 8 && "semanticId"@.len() == 10);
            assert("category"@.len() == 8 && "supplementalSemanticIds"@.len() == 23);
            assert("category"@.len() == 8 && "qualifiers"@.len() == 10);
            assert("category"@.len() == 8 && "embeddedDataSpecifications"@.len() == 26);
            assert("extensions"@.len() == 10 && "modelKind"@.len() == 9);
            assert("extensions"@.len() == 10 && "id"@.len() == 2);
            assert("extensions"@.len() == 10 && "administrative_information"@.len() == 26);
            assert("extensions"@.len() == 10 && "idShort"@.len() == 7);
            assert("extensions"@.len() == 10 && "displayName"@.len() == 11);
            assert("extensions"@.len() == 10 && "description"@.len() == 11);
            assert("extensions"@.len() == 10 && "category"@.len() == 8);
            assert("extensions"@.len() == 10 && "kind"@.len() == 4);
            assert("extensions"@[0] != "semanticId"@[0]);
            assert("extensions"@.len() == 10 && "supplementalSemanticIds"@.len() == 23);
            assert("extensions"@[0] != "qualifiers"@[0]);
            assert("extensions"@.len() == 10 && "embeddedDataSpecifications"@.len() == 26);
            assert("kind"@.len() == 4 && "modelKind"@.len() == 9);
            assert("kind"@.len() == 4 && "id"@.len() == 2);
            assert("kind"@.len() == 4 && "administrative_information"@.len() == 26);
            assert("kind"@.len() == 4 && "idShort"@.len() == 7);
            assert("kind"@.len() == 4 && "displayName"@.len() == 11);
            assert("kind"@.len() == 4 && "description"@.len() == 11);
            assert("kind"@.len() == 4 && "category"@.len() == 8);
            assert("kind"@.len() == 4 && "extensions"@.len() == 10);
            assert("kind"@.len() == 4 && "semanticId"@.len() == 10);
            assert("kind"@.len() == 4 && "supplementalSemanticIds"@.len() == 23);
            assert("kind"@.len() == 4 && "qualifiers"@.len() == 10);
            assert("kind"@.len() == 4 && "embeddedDataSpecifications"@.len() == 26);
            assert("semanticId"@.len() == 10 && "modelKind"@.len() == 9);
            assert("semanticId"@.len() == 10 && "id"@.len() == 2);
            assert("semanticId"@.len() == 10 && "administrative_information"@.len() == 26);
            assert("semanticId"@.len() == 10 && "idShort"@.len() == 7);
            assert("semanticId"@.len() == 10 && "displayName"@.len() == 11);
            assert("semanticId"@.len() == 10 && "description"@.len() == 11);
            assert("semanticId"@.len() == 10 && "category"@.len() == 8);
            assert("semanticId"@[0] != "extensions"@[0]);
            assert("semanticId"@.len() == 10 && "kind"@.len() == 4);
            assert("semanticId"@.len() == 10 && "supplementalSemanticIds"@.len() == 23);
            assert("semanticId"@[0] != "qualifiers"@[0]);
            assert("semanticId"@.len() == 10 && "embeddedDataSpecifications"@.len() == 26);
            assert("supplementalSemanticIds"@.len() == 23 && "modelKind"@.len() == 9);
            assert("supplementalSemanticIds"@.len() == 23 && "id"@.len() == 2);
            assert("supplementalSemanticIds"@.len() == 23 && "administrative_information"@.len() == 26);
            assert("supplementalSemanticIds"@.len() == 23 && "idShort"@.len() == 7);
            assert("supplementalSemanticIds"@.len() == 23 && "displayName"@.len() == 11);
            assert("supplementalSemanticIds"@.len() == 23 && "description"@.len() == 11);
            assert("supplementalSemanticIds"@.len() == 23 && "category"@.len() == 8);
            assert("supplementalSemanticIds"@.len() == 23 && "extensions"@.len() == 10);
            assert("supplementalSemanticIds"@.len() == 23 && "kind"@.len() == 4);
            assert("supplementalSemanticIds"@.len() == 23 && "semanticId"@.len() == 10);
            assert("supplementalSemanticIds"@.len() == 23 && "qualifiers"@.len() == 10);
            assert("supplementalSemanticIds"@.len() == 23 && "embeddedDataSpecifications"@.len() == 26);
            assert("qualifiers"@.len() == 10 && "modelKind"@.len() == 9);
            assert("qualifiers"@.len() == 10 && "id"@.len() == 2);
            assert("qualifiers"@.len() == 10 && "administrative_information"@.len() == 26);
            assert("qualifiers"@.len() == 10 && "idShort"@.len() == 7);
            assert("qualifiers"@.len() == 10 && "displayName"@.len() == 11);
            assert("qualifiers"@.len() == 10 && "description"@.len() == 11);
            assert("qualifiers"@.len() == 10 && "category"@.len() == 8);
            assert("qualifiers"@[0] != "extensions"@[0]);
            assert("qualifiers"@.len() == 10 && "kind"@.len() == 4);
            assert("qualifiers"@[0] != "semanticId"@[0]);
            assert("qualifiers"@.len() == 10 && "supplementalSemanticIds"@.len() == 23);
            assert("qualifiers"@.len() == 10 && "embeddedDataSpecifications"@.len() == 26);
            assert("embeddedDataSpecifications"@.len() == 26 && "modelKind"@.len() == 9);
            assert("embeddedDataSpecifications"@.len() == 26 && "id"@.len() == 2);
            assert("embeddedDataSpecifications"@[0] != "administrative_information"@[0]);
            assert("embeddedDataSpecifications"@.len() == 26 && "idShort"@.len() == 7);
            assert("embeddedDataSpecifications"@.len() == 26 && "displayName"@.len() == 11);
            assert("embeddedDataSpecifications"@.len() == 26 && "description"@.len() == 11);
            assert("embeddedDataSpecifications"@.len() == 26 && "category"@.len() == 8);
            assert("embeddedDataSpecifications"@.len() == 26 && "extensions"@.len() == 10);
            assert("embeddedDataSpecifications"@.len() == 26 && "kind"@.len() == 4);
            assert("embeddedDataSpecifications"@.len() == 26 && "semanticId"@.len() == 10);
            assert("embeddedDataSpecifications"@.len() == 26 && "supplementalSemanticIds"@.len() == 23);
            assert("embeddedDataSpecifications"@.len() == 26 && "qualifiers"@.len() == 10);
        }
        let mut fs: Vec<(String, Json)> = Vec::new();
        let ghost prev = fs@;
        fs.push(field("modelKind", Json::Str("Submodel".to_string())));
        proof {
            lemma_names_within_empty(prev, |n: Seq<char>| n == "modelKind"@);
            if true {
                assert(fs@ == prev.push(fs@.last()));
                lemma_names_within_push(prev, fs@.last(), |n: Seq<char>| n == "modelKind"@);
                lemma_lookup_push(prev, fs@.last(), "modelKind"@);
            }
        }
        let ghost prev = fs@;
        let mut part = self.identifiable.encode_members();
        let ghost sp = part@;
        fs.append(&mut part);
        proof {
            lemma_names_within_concat(prev, sp, |n: Seq<char>| n == "modelKind"@, |n: Seq<char>| identifiable_name(n), |n: Seq<char>| n == "modelKind"@ || identifiable_name(n));
            lemma_lookup_concat(prev, sp, "modelKind"@);
            lemma_lookup_outside(sp, |n: Seq<char>| identifiable_name(n), "modelKind"@);
            lemma_lookup_concat(prev, sp, "id"@);
            lemma_lookup_outside(prev, |n: Seq<char>| n == "modelKind"@, "id"@);
            lemma_lookup_concat(prev, sp, "administrative_information"@);
            lemma_lookup_outside(prev, |n: Seq<char>| n == "modelKind"@, "administrative_information"@);
            lemma_lookup_concat(prev, sp, "idShort"@);
            lemma_lookup_outside(prev, |n: Seq<char>| n == "modelKind"@, "idShort"@);
            lemma_lookup_concat(prev, sp, "displayName"@);
            lemma_lookup_outside(prev, |n: Seq<char>| n == "modelKind"@, "displayName"@);
            lemma_lookup_concat(prev, sp, "description"@);
            lemma_lookup_outside(prev, |n: Seq<char>| n == "modelKind"@, "description"@);
            lemma_lookup_concat(prev, sp, "category"@);
            lemma_lookup_outside(prev, |n: Seq<char>| n == "modelKind"@, "category"@);
            lemma_lookup_concat(prev, sp, "extensions"@);
            lemma_lookup_outside(prev, |n: Seq<char>| n == "modelKind"@, "extensions"@);
        }
        let ghost prev = fs@;
        push_opt(&mut fs, "kind", &self.kind);
        proof {
            lemma_names_within_weaken(prev, |n: Seq<char>| n == "modelKind"@ || identifiable_name(n), |n: Seq<char>| n == "modelKind"@ || identifiable_name(n) || n == "kind"@);
            lemma_lookup_outside(prev, |n: Seq<char>| n == "modelKind"@ || identifiable_name(n), "kind"@);
            if self.kind is Some {
                assert(fs@ == prev.push(fs@.last()));
                lemma_names_within_push(prev, fs@.last(), |n: Seq<char>| n == "modelKind"@ || identifiable_name(n) || n == "kind"@);
                lemma_lookup_push(prev, fs@.last(), "modelKind"@);
                lemma_lookup_push(prev, fs@.last(), "id"@);
                lemma_lookup_push(prev, fs@.last(), "administrative_information"@);
                lemma_lookup_push(prev, fs@.last(), "idShort"@);
                lemma_lookup_push(prev, fs@.last(), "displayName"@);
                lemma_lookup_push(prev, fs@.last(), "description"@);
                lemma_lookup_push(prev, fs@.last(), "category"@);
                lemma_lookup_push(prev, fs@.last(), "extensions"@);
                lemma_lookup_push(prev, fs@.last(), "kind"@);
            }
        }
        let ghost prev = fs@;
        let mut part = self.semantics.encode_members();
        let ghost sp = part@;
        fs.append(&mut part);
        proof {
            lemma_names_within_concat(prev, sp, |n: Seq<char>| n == "modelKind"@ || identifiable_name(n) || n == "kind"@, |n: Seq<char>| has_semantics_name(n), |n: Seq<char>| n == "modelKind"@ || identifiable_name(n) || n == "kind"@ || has_semantics_name(n));
            lemma_lookup_concat(prev, sp, "modelKind"@);
            lemma_lookup_outside(sp, |n: Seq<char>| has_semantics_name(n), "modelKind"@);
            lemma_lookup_concat(prev, sp, "id"@);
            lemma_lookup_outside(sp, |n: Seq<char>| has_semantics_name(n), "id"@);
            lemma_lookup_concat(prev, sp, "administrative_information"@);
            lemma_lookup_outside(sp, |n: Seq<char>| has_semantics_name(n), "administrative_information"@);
            lemma_lookup_concat(prev, sp, "idShort"@);
            lemma_lookup_outside(sp, |n: Seq<char>| has_semantics_name(n), "idShort"@);
            lemma_lookup_concat(prev, sp, "displayName"@);
            lemma_lookup_outside(sp, |n: Seq<char>| has_semantics_name(n), "displayName"@);
            lemma_lookup_concat(prev, sp, "description"@);
            lemma_lookup_outside(sp, |n: Seq<char>| has_semantics_name(n), "description"@);
            lemma_lookup_concat(prev, sp, "category"@);
            lemma_lookup_outside(sp, |n: Seq<char>| has_semantics_name(n), "category"@);
            lemma_lookup_concat(prev, sp, "extensions"@);
            lemma_lookup_outside(sp, |n: Seq<char>| has_semantics_name(n), "extensions"@);
            lemma_lookup_concat(prev, sp, "kind"@);
            lemma_lookup_outside(sp, |n: Seq<char>| has_semantics_name(n), "kind"@);
            lemma_lookup_concat(prev, sp, "semanticId"@);
            lemma_lookup_outside(prev, |n: Seq<char>| n == "modelKind"@ || identifiable_name(n) || n == "kind"@, "semanticId"@);
            lemma_lookup_concat(prev, sp, "supplementalSemanticIds"@);
            lemma_lookup_outside(prev, |n: Seq<char>| n == "modelKind"@ || identifiable_name(n) || n == "kind"@, "supplementalSemanticIds"@);
        }
        let ghost prev = fs@;
        let mut part = self.qualifier.encode_members();
        let ghost sp = part@;
        fs.append(&mut part);
        proof {
            lemma_names_within_concat(prev, sp, |n: Seq<char>| n == "modelKind"@ || identifiable_name(n) || n == "kind"@ || has_semantics_name(n), |n: Seq<char>| qualifiable_name(n), |n: Seq<char>| n == "modelKind"@ || identifiable_name(n) || n == "kind"@ || has_semantics_name(n) || qualifiable_name(n));
            lemma_lookup_concat(prev, sp, "modelKind"@);
            lemma_lookup_outside(sp, |n: Seq<char>| qualifiable_name(n), "modelKind"@);
            lemma_lookup_concat(prev, sp, "id"@);
            lemma_lookup_outside(sp, |n: Seq<char>| qualifiable_name(n), "id"@);
            lemma_lookup_concat(prev, sp, "administrative_information"@);
            lemma_lookup_outside(sp, |n: Seq<char>| qualifiable_name(n), "administrative_information"@);
            lemma_lookup_concat(prev, sp, "idShort"@);
            lemma_lookup_outside(sp, |n: Seq<char>| qualifiable_name(n), "idShort"@);
            lemma_lookup_concat(prev, sp, "displayName"@);
            lemma_lookup_outside(sp, |n: Seq<char>| qualifiable_name(n), "displayName"@);
            lemma_lookup_concat(prev, sp, "description"@);
            lemma_lookup_outside(sp, |n: Seq<char>| qualifiable_name(n), "description"@);
            lemma_lookup_concat(prev, sp, "category"@);
            lemma_lookup_outside(sp, |n: Seq<char>| qualifiable_name(n), "category"@);
            lemma_lookup_concat(prev, sp, "extensions"@);
            lemma_lookup_outside(sp, |n: Seq<char>| qualifiable_name(n), "extensions"@);
            lemma_lookup_concat(prev, sp, "kind"@);
            lemma_lookup_outside(sp, |n: Seq<char>| qualifiable_name(n), "kind"@);
            lemma_lookup_concat(prev, sp, "semanticId"@);
            lemma_lookup_outside(sp, |n: Seq<char>| qualifiable_name(n), "semanticId"@);
            lemma_lookup_concat(prev, sp, "supplementalSemanticIds"@);
            lemma_lookup_outside(sp, |n: Seq<char>| qualifiable_name(n), "supplementalSemanticIds"@);
            lemma_lookup_concat(prev, sp, "qualifiers"@);
            lemma_lookup_outside(prev, |n: Seq<char>| n == "modelKind"@ || identifiable_name(n) || n == "kind"@ || has_semantics_name(n), "qualifiers"@);
        }
        let ghost prev = fs@;
        let mut part = self.data_specification.encode_members();
        let ghost sp = part@;
        fs.append(&mut part);
        proof {
            lemma_names_within_concat(prev, sp, |n: Seq<char>| n == "modelKind"@ || identifiable_name(n) || n == "kind"@ || has_semantics_name(n) || qualifiable_name(n), |n: Seq<char>| has_data_specification_name(n), |n: Seq<char>| submodel_meta_name(n));
            lemma_lookup_concat(prev, sp, "modelKind"@);
            lemma_lookup_outside(sp, |n: Seq<char>| has_data_specification_name(n), "modelKind"@);
            lemma_lookup_concat(prev, sp, "id"@);
            lemma_lookup_outside(sp, |n: Seq<char>| has_data_specification_name(n), "id"@);
            lemma_lookup_concat(prev, sp, "administrative_information"@);
            lemma_lookup_outside(sp, |n: Seq<char>| has_data_specification_name(n), "administrative_information"@);
            lemma_lookup_concat(prev, sp, "idShort"@);
            lemma_lookup_outside(sp, |n: Seq<char>| has_data_specification_name(n), "idShort"@);
            lemma_lookup_concat(prev, sp, "displayName"@);
            lemma_lookup_outside(sp, |n: Seq<char>| has_data_specification_name(n), "displayName"@);
            lemma_lookup_concat(prev, sp, "description"@);
            lemma_lookup_outside(sp, |n: Seq<char>| has_data_specification_name(n), "description"@);
            lemma_lookup_concat(prev, sp, "category"@);
            lemma_lookup_outside(sp, |n: Seq<char>| has_data_specification_name(n), "category"@);
            lemma_lookup_concat(prev, sp, "extensions"@);
            lemma_lookup_outside(sp, |n: Seq<char>| has_data_specification_name(n), "extensions"@);
            lemma_lookup_concat(prev, sp, "kind"@);
            lemma_lookup_outside(sp, |n: Seq<char>| has_data_specification_name(n), "kind"@);
            lemma_lookup_concat(prev, sp, "semanticId"@);
            lemma_lookup_outside(sp, |n: Seq<char>| has_data_specification_name(n), "semanticId"@);
            lemma_lookup_concat(prev, sp, "supplementalSemanticIds"@);
            lemma_lookup_outside(sp, |n: Seq<char>| has_data_specification_name(n), "supplementalSemanticIds"@);
            lemma_lookup_concat(prev, sp, "qualifiers"@);
            lemma_lookup_outside(sp, |n: Seq<char>| has_data_specification_name(n), "qualifiers"@);
            lemma_lookup_concat(prev, sp, "embeddedDataSpecifications"@);
            lemma_lookup_outside(prev, |n: Seq<char>| n == "modelKind"@ || identifiable_name(n) || n == "kind"@ || has_semantics_name(n) || qualifiable_name(n), "embeddedDataSpecifications"@);
        }
        fs
    }
}

impl AssetAdministrationShellMetamodel {
    /// The identity of a shell, without its asset information and submodels.
    pub fn from(full: AssetAdministrationShell) -> (r: AssetAdministrationShellMetamodel)
        ensures
            r.identifiable == full.identifiable,
            r.data_specification == full.data_specification,
            r.derived_from == full.derived_from,
    {
        AssetAdministrationShellMetamodel { identifiable: full.identifiable, data_specification: full.data_specification, derived_from: full.derived_from }
    }
}

impl SubmodelMeta {
    /// The attributes of a submodel, without its elements.
    pub fn from(full: Submodel) -> (r: SubmodelMeta)
        ensures
            r.identifiable == full.identifiable,
            r.kind == full.kind,
            r.semantics == full.semantics,
            r.qualifier == full.qualifier,
            r.data_specification == full.data_specification,
    {
        SubmodelMeta { identifiable: full.identifiable, kind: full.kind, semantics: full.semantics, qualifier: full.qualifier, data_specification: full.data_specification }
    }
}

impl crate::metamodel::ToJsonMetamodel for AssetAdministrationShell {
    /// The identity of the shell, without asset information and submodels.
    open spec fn metamodel_encoded(&self, j: Json) -> bool {
        j matches Json::Object(fs) && asset_administration_shell_metamodel_encoded(AssetAdministrationShellMetamodel { identifiable: self.identifiable, data_specification: self.data_specification, derived_from: self.derived_from }, fs@)
    }

    fn to_json_metamodel(&self) -> (r: Result<Json, crate::metamodel::MetamodelError>) {
        Ok(Json::Object(self.metamodel_members()))
    }
}

impl crate::metamodel::ToJsonMetamodel for Submodel {
    /// The attributes of the submodel, without its elements.
    open spec fn metamodel_encoded(&self, j: Json) -> bool {
        j matches Json::Object(fs) && submodel_meta_encoded(SubmodelMeta { identifiable: self.identifiable, kind: self.kind, semantics: self.semantics, qualifier: self.qualifier, data_specification: self.data_specification }, fs@)
    }

    fn to_json_metamodel(&self) -> (r: Result<Json, crate::metamodel::MetamodelError>) {
        Ok(Json::Object(self.metamodel_members()))
    }
}

} // verus!