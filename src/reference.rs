use vstd::prelude::*;
use crate::json::{
    Json,
    DecodeError,
    member,
    index_of,
    find_member,
    get_member,
    field,
    lemma_lookup_skip,
    lemma_lookup_first,
    lemma_lookup_index,
};
use crate::key::{
    Key,
    key_encoded,
    key_error,
    key_rel,
    key_equiv,
    lemma_key_encoded_rel,
    lemma_key_rel_unique,
};
use crate::text::str_eq;
use crate::codec::JsonCodec;

verus! {

broadcast use vstd::string::group_string_axioms;

/// The keys of a reference, and optionally the semantic id of the element
/// that it refers to.
#[derive(Debug, PartialEq)]
pub struct ReferenceInner {
    /// E.g. the semantic id of a standard submodel.
    pub referred_semantic_id: Option<Box<Reference>>,
    /// The path of keys, outermost element first.
    pub keys: Vec<Key>,
}

/// A reference to an element: either outside the model (by a global
/// identifier) or inside it (by a path of keys).
#[derive(Debug, PartialEq)]
pub enum Reference {
    ExternalReference(ReferenceInner),
    ModelReference(ReferenceInner),
}

impl ReferenceInner {
    /// A reference body of the single key `key`.
    pub fn new(key: Key) -> (r: ReferenceInner)
        ensures
            r.keys@ == seq![key],
            r.referred_semantic_id is None,
    {
        let mut keys: Vec<Key> = Vec::new();
        keys.push(key);
        ReferenceInner { referred_semantic_id: None, keys }
    }

    /// A reference body of the keys `keys`, in their order.
    pub fn from_vec(keys: Vec<Key>) -> (r: ReferenceInner)
        ensures
            r.keys == keys,
            r.referred_semantic_id is None,
    {
        ReferenceInner { referred_semantic_id: None, keys }
    }
}

impl Default for ReferenceInner {
    /// A reference body without keys.
    fn default() -> (r: ReferenceInner)
        ensures
            r.keys@.len() == 0,
            r.referred_semantic_id is None,
    {
        ReferenceInner { referred_semantic_id: None, keys: Vec::new() }
    }
}

/// The body of a reference.
pub open spec fn ref_inner(r: Reference) -> ReferenceInner {
    match r {
        Reference::ExternalReference(i) => i,
        Reference::ModelReference(i) => i,
    }
}

/// The wire name of the kind of a reference.
pub open spec fn ref_kind_name(r: Reference) -> Seq<char> {
    match r {
        Reference::ExternalReference(_) => "ExternalReference"@,
        Reference::ModelReference(_) => "ModelReference"@,
    }
}

/// Whether `s` names a kind of reference.
pub open spec fn is_ref_kind_name(s: Seq<char>) -> bool {
    s == "ExternalReference"@ || s == "ModelReference"@
}

/// `a` encodes the keys `ks`, in order.
pub open spec fn keys_encoded(ks: Seq<Key>, a: Seq<Json>) -> bool {
    a.len() == ks.len() && forall|i: int| 0 <= i < a.len() ==> key_encoded(#[trigger] ks[i], a[i])
}

/// `a` decodes to the keys `ks`, in order.
pub open spec fn keys_rel(ks: Seq<Key>, a: Seq<Json>) -> bool {
    a.len() == ks.len() && forall|i: int| 0 <= i < a.len() ==> key_rel(#[trigger] ks[i], a[i])
}

/// The error of the first element of `a` that is no key.
pub open spec fn keys_error(a: Seq<Json>) -> Option<DecodeError>
    decreases a.len(),
{
    if a.len() == 0 {
        None
    } else {
        match key_error(a[0]) {
            Some(e) => Some(e),
            None => keys_error(a.drop_first()),
        }
    }
}

/// `j` is what encoding writes for the reference `r`: the kind, the
/// referred semantic id when present, and the keys.
pub open spec fn ref_encoded(r: Reference, j: Json) -> bool
    decreases r,
{
    match j {
        Json::Object(fs) => {
            &&& fs@.len() >= 2
            &&& fs@[0].0@ == "type"@
            &&& fs@[0].1 matches Json::Str(t) && t@ == ref_kind_name(r)
            &&& fs@.last().0@ == "keys"@
            &&& fs@.last().1 matches Json::Array(a) && keys_encoded(ref_inner(r).keys@, a@)
            &&& match ref_inner(r).referred_semantic_id {
                None => fs@.len() == 2,
                Some(b) => fs@.len() == 3 && fs@[1].0@ == "referredSemanticId"@ && ref_encoded(
                    *b,
                    fs@[1].1,
                ),
            }
        },
        _ => false,
    }
}

/// `j` decodes to the reference `r`.
pub open spec fn ref_rel(r: Reference, j: Json) -> bool
    decreases r,
{
    match j {
        Json::Object(fs) => {
            &&& member(fs@, "type"@) matches Some(Json::Str(t)) && t@ == ref_kind_name(r)
            &&& member(fs@, "keys"@) matches Some(Json::Array(a)) && keys_rel(
                ref_inner(r).keys@,
                a@,
            )
            &&& match ref_inner(r).referred_semantic_id {
                None => member(fs@, "referredSemanticId"@) is None,
                Some(b) => member(fs@, "referredSemanticId"@) matches Some(sj) && ref_rel(*b, sj),
            }
        },
        _ => false,
    }
}

/// The error, if any, of decoding `j` as a reference.
pub open spec fn ref_error(j: Json) -> Option<DecodeError>
    decreases j,
{
    match j {
        Json::Object(fs) => {
            let i = index_of(fs@, "referredSemanticId"@);
            match member(fs@, "type"@) {
                None => Some(DecodeError::MissingField),
                Some(Json::Str(t)) => if !is_ref_kind_name(t@) {
                    Some(DecodeError::UnknownDiscriminator)
                } else if 0 <= i < fs@.len() && fs@[i].1 != Json::Null && ref_error(fs@[i].1) is Some {
                    ref_error(fs@[i].1)
                } else {
                    match member(fs@, "keys"@) {
                        None => Some(DecodeError::MissingField),
                        Some(Json::Array(a)) => keys_error(a@),
                        Some(_) => Some(DecodeError::UnexpectedKind),
                    }
                },
                Some(_) => Some(DecodeError::UnexpectedKind),
            }
        },
        _ => Some(DecodeError::UnexpectedKind),
    }
}

/// References of the same kind, alike keys in the same order, and alike
/// referred semantic ids.
pub open spec fn ref_equiv(a: Reference, b: Reference) -> bool
    decreases a,
{
    &&& ref_kind_name(a) == ref_kind_name(b)
    &&& ref_inner(a).keys@.len() == ref_inner(b).keys@.len()
    &&& forall|i: int|
        0 <= i < ref_inner(a).keys@.len() ==> key_equiv(
            #[trigger] ref_inner(a).keys@[i],
            ref_inner(b).keys@[i],
        )
    &&& match (ref_inner(a).referred_semantic_id, ref_inner(b).referred_semantic_id) {
        (None, None) => true,
        (Some(x), Some(y)) => ref_equiv(*x, *y),
        _ => false,
    }
}

/// The keys as an array of key objects.
fn keys_to_json(ks: &Vec<Key>) -> (r: Json)
    ensures
        r matches Json::Array(a) && keys_encoded(ks@, a@),
{
    let mut a: Vec<Json> = Vec::new();
    let mut i: usize = 0;
    while i < ks.len()
        invariant
            i <= ks@.len(),
            a@.len() == i,
            forall|k: int| 0 <= k < i ==> key_encoded(#[trigger] ks@[k], a@[k]),
        decreases ks@.len() - i,
    {
        a.push(ks[i].to_json());
        i += 1;
    }
    Json::Array(a)
}

/// Decodes an array of key objects, in order.
fn keys_from_json(a: &Vec<Json>) -> (r: Result<Vec<Key>, DecodeError>)
    ensures
        match keys_error(a@) {
            Some(e) => r == Err::<Vec<Key>, DecodeError>(e),
            None => r matches Ok(ks) && keys_rel(ks@, a@),
        },
{
    let mut ks: Vec<Key> = Vec::new();
    let mut i: usize = 0;
    assert(a@.subrange(0, a@.len() as int) =~= a@);
    while i < a.len()
        invariant
            i <= a@.len(),
            ks@.len() == i,
            keys_error(a@) == keys_error(a@.subrange(i as int, a@.len() as int)),
            forall|k: int| 0 <= k < i ==> key_rel(#[trigger] ks@[k], a@[k]),
        decreases a@.len() - i,
    {
        let ghost rest = a@.subrange(i as int, a@.len() as int);
        assert(rest.drop_first() =~= a@.subrange(i + 1, a@.len() as int));
        match Key::from_json(&a[i]) {
            Ok(k) => ks.push(k),
            Err(e) => return Err(e),
        }
        i += 1;
    }
    assert(a@.subrange(a@.len() as int, a@.len() as int).len() == 0);
    Ok(ks)
}

impl Reference {
    /// The body of the reference.
    pub fn inner(&self) -> (r: &ReferenceInner)
        ensures
            *r == ref_inner(*self),
    {
        match self {
            Reference::ExternalReference(i) => i,
            Reference::ModelReference(i) => i,
        }
    }

    /// The wire name of the kind of the reference.
    pub fn kind_name(&self) -> (r: &'static str)
        ensures
            r@ == ref_kind_name(*self),
    {
        match self {
            Reference::ExternalReference(_) => "ExternalReference",
            Reference::ModelReference(_) => "ModelReference",
        }
    }

    /// The object `{"type": <kind>, "referredSemanticId": <reference>?, "keys": [...]}`.
    pub fn to_json(&self) -> (r: Json)
        ensures
            ref_encoded(*self, r),
        decreases self,
    {
        let inner = self.inner();
        let mut fs: Vec<(String, Json)> = Vec::new();
        fs.push(field("type", Json::Str(self.kind_name().to_string())));
        match &inner.referred_semantic_id {
            Some(b) => {
                let sj = b.to_json();
                fs.push(field("referredSemanticId", sj));
            },
            None => {},
        }
        fs.push(field("keys", keys_to_json(&inner.keys)));
        Json::Object(fs)
    }

    /// Decodes a reference of either kind.
    pub fn from_json(j: &Json) -> (r: Result<Reference, DecodeError>)
        ensures
            match ref_error(*j) {
                Some(e) => r == Err::<Reference, DecodeError>(e),
                None => r matches Ok(x) && ref_rel(x, *j),
            },
        decreases j,
    {
        let fs = match j {
            Json::Object(fs) => fs,
            _ => return Err(DecodeError::UnexpectedKind),
        };
        let is_model = match get_member(fs, "type") {
            None => return Err(DecodeError::MissingField),
            Some(Json::Str(t)) => if str_eq(t.as_str(), "ModelReference") {
                true
            } else if str_eq(t.as_str(), "ExternalReference") {
                false
            } else {
                return Err(DecodeError::UnknownDiscriminator);
            },
            Some(_) => return Err(DecodeError::UnexpectedKind),
        };
        let referred = match find_member(fs, "referredSemanticId") {
            Some(i) => match &fs[i].1 {
                Json::Null => None,
                sj => {
                    assert(decreases_to!(fs@ => fs@[i as int]));
                    match Reference::from_json(sj) {
                        Ok(x) => Some(Box::new(x)),
                        Err(e) => return Err(e),
                    }
                },
            },
            None => None,
        };
        let keys = match get_member(fs, "keys") {
            None => return Err(DecodeError::MissingField),
            Some(Json::Array(a)) => match keys_from_json(a) {
                Ok(ks) => ks,
                Err(e) => return Err(e),
            },
            Some(_) => return Err(DecodeError::UnexpectedKind),
        };
        let inner = ReferenceInner { referred_semantic_id: referred, keys };
        if is_model {
            Ok(Reference::ModelReference(inner))
        } else {
            Ok(Reference::ExternalReference(inner))
        }
    }
}

/// The wire name of the kind of reference that `j` declares, if any.
pub open spec fn declared_ref_kind(j: Json) -> Option<Seq<char>> {
    match j {
        Json::Object(fs) => match member(fs@, "type"@) {
            Some(Json::Str(t)) => Some(t@),
            _ => None,
        },
        _ => None,
    }
}

/// Keeps a model reference; any other reference is an error.
pub fn expect_model_reference(r: Reference) -> (out: Result<Reference, DecodeError>)
    ensures
        match r {
            Reference::ModelReference(_) => out == Ok::<Reference, DecodeError>(r),
            Reference::ExternalReference(_) => out == Err::<Reference, DecodeError>(
                DecodeError::ReferenceKindMismatch,
            ),
        },
{
    match r {
        Reference::ModelReference(_) => Ok(r),
        Reference::ExternalReference(_) => Err(DecodeError::ReferenceKindMismatch),
    }
}

/// Keeps an external reference; any other reference is an error.
pub fn expect_external_reference(r: Reference) -> (out: Result<Reference, DecodeError>)
    ensures
        match r {
            Reference::ExternalReference(_) => out == Ok::<Reference, DecodeError>(r),
            Reference::ModelReference(_) => out == Err::<Reference, DecodeError>(
                DecodeError::ReferenceKindMismatch,
            ),
        },
{
    match r {
        Reference::ExternalReference(_) => Ok(r),
        Reference::ModelReference(_) => Err(DecodeError::ReferenceKindMismatch),
    }
}

/// Decodes a reference for a field that admits model references only: an
/// input that decodes to an external reference is refused.
pub fn deserialize_model_reference(j: &Json) -> (r: Result<Reference, DecodeError>)
    ensures
        match ref_error(*j) {
            Some(e) => r == Err::<Reference, DecodeError>(e),
            None => if declared_ref_kind(*j) == Some("ModelReference"@) {
                r matches Ok(x) && ref_rel(x, *j) && x is ModelReference
            } else {
                r == Err::<Reference, DecodeError>(DecodeError::ReferenceKindMismatch)
            },
        },
{
    proof {
        reveal_strlit("ModelReference");
        reveal_strlit("ExternalReference");
        assert("ModelReference"@.len() == 14);
        assert("ExternalReference"@.len() == 17);
    }
    match Reference::from_json(j) {
        Ok(x) => expect_model_reference(x),
        Err(e) => Err(e),
    }
}

/// Decodes a reference for a field that admits external references only:
/// an input that decodes to a model reference is refused.
pub fn deserialize_external_reference(j: &Json) -> (r: Result<Reference, DecodeError>)
    ensures
        match ref_error(*j) {
            Some(e) => r == Err::<Reference, DecodeError>(e),
            None => if declared_ref_kind(*j) == Some("ExternalReference"@) {
                r matches Ok(x) && ref_rel(x, *j) && x is ExternalReference
            } else {
                r == Err::<Reference, DecodeError>(DecodeError::ReferenceKindMismatch)
            },
        },
{
    proof {
        reveal_strlit("ModelReference");
        reveal_strlit("ExternalReference");
        assert("ModelReference"@.len() == 14);
        assert("ExternalReference"@.len() == 17);
    }
    match Reference::from_json(j) {
        Ok(x) => expect_external_reference(x),
        Err(e) => Err(e),
    }
}

/// Keys written by encoding decode without error, to the same keys.
proof fn lemma_keys_encoded_rel(ks: Seq<Key>, a: Seq<Json>)
    requires
        keys_encoded(ks, a),
    ensures
        keys_error(a) is None,
        keys_rel(ks, a),
    decreases a.len(),
{
    assert forall|i: int| 0 <= i < a.len() implies key_rel(#[trigger] ks[i], a[i]) by {
        lemma_key_encoded_rel(ks[i], a[i]);
    }
    if a.len() > 0 {
        lemma_key_encoded_rel(ks[0], a[0]);
        assert forall|i: int| 0 <= i < a.drop_first().len() implies key_encoded(
            #[trigger] ks.drop_first()[i],
            a.drop_first()[i],
        ) by {
            assert(ks.drop_first()[i] == ks[i + 1]);
        }
        lemma_keys_encoded_rel(ks.drop_first(), a.drop_first());
    }
}

/// Decoding what encoding writes for a reference gives that reference back:
/// the object `j` written by `to_json` decodes without error, to `r`.
pub proof fn lemma_reference_round_trip(r: Reference, j: Json)
    requires
        ref_encoded(r, j),
    ensures
        ref_error(j) is None,
        ref_rel(r, j),
    decreases r,
{
    reveal_strlit("type");
    reveal_strlit("keys");
    reveal_strlit("referredSemanticId");
    assert("type"@.len() == 4);
    assert("keys"@[0] == 'k');
    assert("referredSemanticId"@.len() == 18);
    reveal_strlit("ModelReference");
    reveal_strlit("ExternalReference");
    let fs = j->Object_0@;
    let f0 = fs[0];
    let rest = fs.drop_first();
    assert(fs =~= seq![f0] + rest);
    lemma_lookup_first(rest, f0);
    lemma_lookup_skip(rest, f0, "keys"@);
    lemma_lookup_skip(rest, f0, "referredSemanticId"@);
    lemma_lookup_index(fs, "referredSemanticId"@);
    let ks = ref_inner(r).keys@;
    lemma_keys_encoded_rel(ks, fs.last().1->Array_0@);
    match ref_inner(r).referred_semantic_id {
        None => {
            assert(rest =~= seq![fs[1]] + Seq::<(String, Json)>::empty());
            lemma_lookup_first(Seq::<(String, Json)>::empty(), fs[1]);
            lemma_lookup_skip(Seq::<(String, Json)>::empty(), fs[1], "referredSemanticId"@);
        },
        Some(b) => {
            let tail = rest.drop_first();
            assert(rest =~= seq![fs[1]] + tail);
            assert(tail =~= seq![fs[2]] + Seq::<(String, Json)>::empty());
            lemma_lookup_first(tail, fs[1]);
            lemma_lookup_skip(tail, fs[1], "keys"@);
            lemma_lookup_first(Seq::<(String, Json)>::empty(), fs[2]);
            lemma_reference_round_trip(*b, fs[1].1);
            assert(fs[1].1 != Json::Null);
        },
    }
}

/// References that the same object decodes to are alike.
pub proof fn lemma_reference_rel_unique(a: Reference, b: Reference, j: Json)
    requires
        ref_rel(a, j),
        ref_rel(b, j),
    ensures
        ref_equiv(a, b),
    decreases a,
{
    let fs = j->Object_0@;
    let arr = member(fs, "keys"@)->Some_0->Array_0@;
    assert forall|i: int| 0 <= i < ref_inner(a).keys@.len() implies key_equiv(
        #[trigger] ref_inner(a).keys@[i],
        ref_inner(b).keys@[i],
    ) by {
        lemma_key_rel_unique(ref_inner(a).keys@[i], ref_inner(b).keys@[i], arr[i]);
    }
    match (ref_inner(a).referred_semantic_id, ref_inner(b).referred_semantic_id) {
        (Some(x), Some(y)) => {
            lemma_reference_rel_unique(*x, *y, member(fs, "referredSemanticId"@)->Some_0);
        },
        _ => {},
    }
}

impl Reference {
    /// A copy of the reference, referred semantic ids included.
    pub fn deep_copy(&self) -> (r: Reference)
        ensures
            ref_kind_name(r) == ref_kind_name(*self),
            ref_inner(r).keys@.len() == ref_inner(*self).keys@.len(),
            ref_inner(r).referred_semantic_id is Some == ref_inner(*self).referred_semantic_id is Some,
        decreases self,
    {
        let inner = self.inner();
        let referred = match &inner.referred_semantic_id {
            Some(b) => Some(Box::new(b.deep_copy())),
            None => None,
        };
        let mut keys: Vec<Key> = Vec::new();
        let mut i: usize = 0;
        while i < inner.keys.len()
            invariant
                i <= inner.keys@.len(),
                keys@.len() == i,
            decreases inner.keys@.len() - i,
        {
            keys.push(inner.keys[i].clone_key());
            i += 1;
        }
        let copy = ReferenceInner { referred_semantic_id: referred, keys };
        match self {
            Reference::ExternalReference(_) => Reference::ExternalReference(copy),
            Reference::ModelReference(_) => Reference::ModelReference(copy),
        }
    }
}

impl Clone for Reference {
    fn clone(&self) -> (r: Reference) {
        self.deep_copy()
    }
}

impl Clone for ReferenceInner {
    fn clone(&self) -> (r: ReferenceInner) {
        let referred = match &self.referred_semantic_id {
            Some(b) => Some(Box::new(b.deep_copy())),
            None => None,
        };
        let mut keys: Vec<Key> = Vec::new();
        let mut i: usize = 0;
        while i < self.keys.len()
            invariant
                i <= self.keys@.len(),
                keys@.len() == i,
            decreases self.keys@.len() - i,
        {
            keys.push(self.keys[i].clone_key());
            i += 1;
        }
        ReferenceInner { referred_semantic_id: referred, keys }
    }
}

impl JsonCodec for Reference {
    open spec fn wf(&self) -> bool {
        true
    }

    open spec fn encoded(&self, j: Json) -> bool {
        ref_encoded(*self, j)
    }

    open spec fn rel(&self, j: Json) -> bool {
        ref_rel(*self, j)
    }

    open spec fn decode_error(j: Json) -> Option<DecodeError> {
        ref_error(j)
    }

    open spec fn equiv(&self, o: &Self) -> bool {
        ref_equiv(*self, *o)
    }

    fn encode(&self) -> (r: Json) {
        self.to_json()
    }

    fn decode(j: &Json) -> (r: Result<Self, DecodeError>) {
        Reference::from_json(j)
    }

    proof fn lemma_round_trip(&self, j: Json) {
        lemma_reference_round_trip(*self, j);
    }

    proof fn lemma_unique(&self, o: &Self, j: Json) {
        lemma_reference_rel_unique(*self, *o, j);
    }
}

} // verus!
