use vstd::prelude::*;
use crate::json::{
    Json,
    DecodeError,
    lookup,
    member,
    get_member,
    field,
    lemma_lookup_concat,
    absent,
    lemma_lookup_absent,
};

verus! {

/// A type of the model with a mapping to and from JSON trees: `encoded`
/// pins down what encoding writes, `rel` what a tree decodes to, and
/// `decode_error` when decoding fails.
pub trait JsonCodec: Sized {
    /// The values whose encoding reads back as the same value.
    spec fn wf(&self) -> bool;

    /// `j` is what encoding writes for `self`.
    spec fn encoded(&self, j: Json) -> bool;

    /// `j` decodes to `self`.
    spec fn rel(&self, j: Json) -> bool;

    /// The error, if any, of decoding `j`.
    spec fn decode_error(j: Json) -> Option<DecodeError>;

    /// `self` and `o` hold the same content.
    spec fn equiv(&self, o: &Self) -> bool;

    /// Writes the JSON tree of the value.
    fn encode(&self) -> (r: Json)
        ensures
            self.encoded(r),
    ;

    /// Reads a value from a JSON tree.
    fn decode(j: &Json) -> (r: Result<Self, DecodeError>)
        ensures
            match Self::decode_error(*j) {
                Some(e) => r == Err::<Self, DecodeError>(e),
                None => r matches Ok(x) && x.rel(*j),
            },
    ;

    /// What encoding writes for a well-formed value decodes to it.
    proof fn lemma_round_trip(&self, j: Json)
        requires
            self.wf(),
            self.encoded(j),
        ensures
            Self::decode_error(j) is None,
            self.rel(j),
            j != Json::Null,
    ;

    /// The values that a tree decodes to hold the same content.
    proof fn lemma_unique(&self, o: &Self, j: Json)
        requires
            self.rel(j),
            o.rel(j),
        ensures
            self.equiv(o),
    ;
}

/// `a` encodes the values `v`, in order.
pub open spec fn list_encoded<T: JsonCodec>(v: Seq<T>, a: Seq<Json>) -> bool {
    a.len() == v.len() && forall|i: int| 0 <= i < a.len() ==> (#[trigger] v[i]).encoded(a[i])
}

/// `a` decodes to the values `v`, in order.
pub open spec fn list_rel<T: JsonCodec>(v: Seq<T>, a: Seq<Json>) -> bool {
    a.len() == v.len() && forall|i: int| 0 <= i < a.len() ==> (#[trigger] v[i]).rel(a[i])
}

/// Every value of `v` is well-formed.
pub open spec fn list_wf<T: JsonCodec>(v: Seq<T>) -> bool {
    forall|i: int| 0 <= i < v.len() ==> (#[trigger] v[i]).wf()
}

/// `v` and `w` hold values of the same content, in the same order.
pub open spec fn list_equiv<T: JsonCodec>(v: Seq<T>, w: Seq<T>) -> bool {
    v.len() == w.len() && forall|i: int| 0 <= i < v.len() ==> (#[trigger] v[i]).equiv(&w[i])
}

/// The error of the first element of `a` that does not decode.
pub open spec fn list_error<T: JsonCodec>(a: Seq<Json>) -> Option<DecodeError>
    decreases a.len(),
{
    if a.len() == 0 {
        None
    } else {
        match T::decode_error(a[0]) {
            Some(e) => Some(e),
            None => list_error::<T>(a.drop_first()),
        }
    }
}

/// The error, if any, of decoding `j` as an array of values.
pub open spec fn array_error<T: JsonCodec>(j: Json) -> Option<DecodeError> {
    match j {
        Json::Array(a) => list_error::<T>(a@),
        _ => Some(DecodeError::UnexpectedKind),
    }
}

/// Writes the values as an array, in order.
pub fn encode_list<T: JsonCodec>(v: &Vec<T>) -> (r: Json)
    ensures
        r matches Json::Array(a) && list_encoded(v@, a@),
{
    let mut a: Vec<Json> = Vec::new();
    let mut i: usize = 0;
    while i < v.len()
        invariant
            i <= v@.len(),
            a@.len() == i,
            forall|k: int| 0 <= k < i ==> (#[trigger] v@[k]).encoded(a@[k]),
        decreases v@.len() - i,
    {
        a.push(v[i].encode());
        i += 1;
    }
    Json::Array(a)
}

/// Reads an array of values, in order.
pub fn decode_list<T: JsonCodec>(j: &Json) -> (r: Result<Vec<T>, DecodeError>)
    ensures
        match array_error::<T>(*j) {
            Some(e) => r == Err::<Vec<T>, DecodeError>(e),
            None => r matches Ok(v) && list_rel(v@, j->Array_0@),
        },
{
    let a = match j {
        Json::Array(a) => a,
        _ => return Err(DecodeError::UnexpectedKind),
    };
    let mut v: Vec<T> = Vec::new();
    let mut i: usize = 0;
    assert(a@.subrange(0, a@.len() as int) =~= a@);
    while i < a.len()
        invariant
            *j == Json::Array(*a),
            i <= a@.len(),
            v@.len() == i,
            list_error::<T>(a@) == list_error::<T>(a@.subrange(i as int, a@.len() as int)),
            forall|k: int| 0 <= k < i ==> (#[trigger] v@[k]).rel(a@[k]),
        decreases a@.len() - i,
    {
        let ghost rest = a@.subrange(i as int, a@.len() as int);
        assert(rest.drop_first() =~= a@.subrange(i + 1, a@.len() as int));
        match T::decode(&a[i]) {
            Ok(x) => v.push(x),
            Err(e) => return Err(e),
        }
        i += 1;
    }
    Ok(v)
}

/// What encoding writes for well-formed values decodes to them.
pub proof fn lemma_list_round_trip<T: JsonCodec>(v: Seq<T>, a: Seq<Json>)
    requires
        list_wf(v),
        list_encoded(v, a),
    ensures
        list_error::<T>(a) is None,
        list_rel(v, a),
    decreases a.len(),
{
    assert forall|i: int| 0 <= i < a.len() implies (#[trigger] v[i]).rel(a[i]) by {
        v[i].lemma_round_trip(a[i]);
    }
    if a.len() > 0 {
        v[0].lemma_round_trip(a[0]);
        assert forall|i: int| 0 <= i < a.drop_first().len() implies (
        #[trigger] v.drop_first()[i]).encoded(a.drop_first()[i]) by {
            assert(v.drop_first()[i] == v[i + 1]);
        }
        lemma_list_round_trip(v.drop_first(), a.drop_first());
    }
}

/// The values that an array decodes to hold the same content, in order.
pub proof fn lemma_list_unique<T: JsonCodec>(v: Seq<T>, w: Seq<T>, a: Seq<Json>)
    requires
        list_rel(v, a),
        list_rel(w, a),
    ensures
        list_equiv(v, w),
{
    assert forall|i: int| 0 <= i < v.len() implies (#[trigger] v[i]).equiv(&w[i]) by {
        v[i].lemma_unique(&w[i], a[i]);
    }
}

/// The optional member `m` encodes `o`.
pub open spec fn opt_encoded<T: JsonCodec>(o: Option<T>, m: Option<Json>) -> bool {
    match o {
        None => m is None,
        Some(x) => m matches Some(j) && x.encoded(j),
    }
}

/// The optional member `m` decodes to `o`.
pub open spec fn opt_rel<T: JsonCodec>(o: Option<T>, m: Option<Json>) -> bool {
    match o {
        None => m is None,
        Some(x) => m matches Some(j) && x.rel(j),
    }
}

/// The error, if any, of decoding the optional member `m`.
pub open spec fn opt_error<T: JsonCodec>(m: Option<Json>) -> Option<DecodeError> {
    match m {
        None => None,
        Some(j) => T::decode_error(j),
    }
}

/// An absent value, or a well-formed one.
pub open spec fn opt_wf<T: JsonCodec>(o: Option<T>) -> bool {
    match o {
        None => true,
        Some(x) => x.wf(),
    }
}

/// Both absent, or both present with the same content.
pub open spec fn opt_equiv<T: JsonCodec>(a: Option<T>, b: Option<T>) -> bool {
    match (a, b) {
        (None, None) => true,
        (Some(x), Some(y)) => x.equiv(&y),
        _ => false,
    }
}

/// Appends the member `name` for the value of `o`, when present.
pub fn push_opt<T: JsonCodec>(fs: &mut Vec<(String, Json)>, name: &str, o: &Option<T>)
    ensures
        match *o {
            None => final(fs)@ == old(fs)@,
            Some(x) => final(fs)@.len() == old(fs)@.len() + 1 && final(fs)@.drop_last() == old(fs)@
                && final(fs)@.last().0@ == name@ && x.encoded(final(fs)@.last().1),
        },
{
    match o {
        Some(x) => {
            fs.push(field(name, x.encode()));
            assert(fs@.drop_last() =~= old(fs)@);
        },
        None => {},
    }
}

/// Reads the optional member `name` of `fs`; `null` counts as absent.
pub fn decode_opt<T: JsonCodec>(fs: &Vec<(String, Json)>, name: &str) -> (r: Result<
    Option<T>,
    DecodeError,
>)
    ensures
        match opt_error::<T>(member(fs@, name@)) {
            Some(e) => r == Err::<Option<T>, DecodeError>(e),
            None => r matches Ok(o) && opt_rel(o, member(fs@, name@)),
        },
{
    match get_member(fs, name) {
        None => Ok(None),
        Some(j) => match T::decode(j) {
            Ok(x) => Ok(Some(x)),
            Err(e) => Err(e),
        },
    }
}

/// Optional members written by encoding decode to the same values.
pub proof fn lemma_opt_round_trip<T: JsonCodec>(o: Option<T>, m: Option<Json>)
    requires
        opt_wf(o),
        opt_encoded(o, m),
    ensures
        opt_error::<T>(m) is None,
        opt_rel(o, m),
        m != Some(Json::Null),
{
    match o {
        Some(x) => x.lemma_round_trip(m->Some_0),
        None => {},
    }
}

/// The values that an optional member decodes to hold the same content.
pub proof fn lemma_opt_unique<T: JsonCodec>(a: Option<T>, b: Option<T>, m: Option<Json>)
    requires
        opt_rel(a, m),
        opt_rel(b, m),
    ensures
        opt_equiv(a, b),
{
    match (a, b) {
        (Some(x), Some(y)) => x.lemma_unique(&y, m->Some_0),
        _ => {},
    }
}

/// A member appended after the others is found by its name unless an
/// earlier member has the same name.
pub proof fn lemma_lookup_push(fs: Seq<(String, Json)>, f: (String, Json), k: Seq<char>)
    ensures
        lookup(fs.push(f), k) == (match lookup(fs, k) {
            Some(v) => Some(v),
            None => if f.0@ == k {
                Some(f.1)
            } else {
                None
            },
        }),
{
    assert(fs.push(f) =~= fs + seq![f]);
    lemma_lookup_concat(fs, seq![f], k);
    assert(seq![f].drop_first() =~= Seq::<(String, Json)>::empty());
    assert(lookup(seq![f].drop_first(), k) == None::<Json>);
}

impl<T: JsonCodec> JsonCodec for Vec<T> {
    open spec fn wf(&self) -> bool {
        list_wf(self@)
    }

    open spec fn encoded(&self, j: Json) -> bool {
        j matches Json::Array(a) && list_encoded(self@, a@)
    }

    open spec fn rel(&self, j: Json) -> bool {
        j matches Json::Array(a) && list_rel(self@, a@)
    }

    open spec fn decode_error(j: Json) -> Option<DecodeError> {
        array_error::<T>(j)
    }

    open spec fn equiv(&self, o: &Self) -> bool {
        list_equiv(self@, o@)
    }

    fn encode(&self) -> (r: Json) {
        encode_list(self)
    }

    fn decode(j: &Json) -> (r: Result<Self, DecodeError>) {
        decode_list(j)
    }

    proof fn lemma_round_trip(&self, j: Json) {
        lemma_list_round_trip(self@, j->Array_0@);
    }

    proof fn lemma_unique(&self, o: &Self, j: Json) {
        lemma_list_unique(self@, o@, j->Array_0@);
    }
}

impl JsonCodec for String {
    open spec fn wf(&self) -> bool {
        true
    }

    open spec fn encoded(&self, j: Json) -> bool {
        j matches Json::Str(s) && s@ == self@
    }

    open spec fn rel(&self, j: Json) -> bool {
        j matches Json::Str(s) && s@ == self@
    }

    open spec fn decode_error(j: Json) -> Option<DecodeError> {
        match j {
            Json::Str(_) => None,
            _ => Some(DecodeError::UnexpectedKind),
        }
    }

    open spec fn equiv(&self, o: &Self) -> bool {
        self@ == o@
    }

    fn encode(&self) -> (r: Json) {
        Json::Str(self.clone())
    }

    fn decode(j: &Json) -> (r: Result<Self, DecodeError>) {
        match j {
            Json::Str(s) => Ok(s.clone()),
            _ => Err(DecodeError::UnexpectedKind),
        }
    }

    proof fn lemma_round_trip(&self, j: Json) {
    }

    proof fn lemma_unique(&self, o: &Self, j: Json) {
    }
}

/// The required member `m` decodes to `x`.
pub open spec fn req_rel<T: JsonCodec>(x: T, m: Option<Json>) -> bool {
    m matches Some(j) && x.rel(j)
}

/// The required member `m` encodes `x`.
pub open spec fn req_encoded<T: JsonCodec>(x: T, m: Option<Json>) -> bool {
    m matches Some(j) && x.encoded(j)
}

/// The error, if any, of decoding the required member `m`.
pub open spec fn req_error<T: JsonCodec>(m: Option<Json>) -> Option<DecodeError> {
    match m {
        None => Some(DecodeError::MissingField),
        Some(j) => T::decode_error(j),
    }
}

/// Appends the member `name` for `x`.
pub fn push_req<T: JsonCodec>(fs: &mut Vec<(String, Json)>, name: &str, x: &T)
    ensures
        final(fs)@.len() == old(fs)@.len() + 1,
        final(fs)@.drop_last() == old(fs)@,
        final(fs)@.last().0@ == name@,
        x.encoded(final(fs)@.last().1),
{
    fs.push(field(name, x.encode()));
    assert(fs@.drop_last() =~= old(fs)@);
}

/// Reads the required member `name` of `fs`; `null` counts as absent.
pub fn decode_req<T: JsonCodec>(fs: &Vec<(String, Json)>, name: &str) -> (r: Result<T, DecodeError>)
    ensures
        match req_error::<T>(member(fs@, name@)) {
            Some(e) => r == Err::<T, DecodeError>(e),
            None => r matches Ok(x) && req_rel(x, member(fs@, name@)),
        },
{
    match get_member(fs, name) {
        None => Err(DecodeError::MissingField),
        Some(j) => T::decode(j),
    }
}

/// Required members written by encoding decode to the same value.
pub proof fn lemma_req_round_trip<T: JsonCodec>(x: T, m: Option<Json>)
    requires
        x.wf(),
        req_encoded(x, m),
    ensures
        req_error::<T>(m) is None,
        req_rel(x, m),
        m != Some(Json::Null),
{
    x.lemma_round_trip(m->Some_0);
}

/// The values that a required member decodes to hold the same content.
pub proof fn lemma_req_unique<T: JsonCodec>(a: T, b: T, m: Option<Json>)
    requires
        req_rel(a, m),
        req_rel(b, m),
    ensures
        a.equiv(&b),
{
    a.lemma_unique(&b, m->Some_0);
}

/// Every member of `fs` has a name that `p` admits.
pub open spec fn names_within(fs: Seq<(String, Json)>, p: spec_fn(Seq<char>) -> bool) -> bool {
    forall|i: int| 0 <= i < fs.len() ==> p((#[trigger] fs[i]).0@)
}

/// A name that `p` refuses is not found among members whose names `p` admits.
pub proof fn lemma_lookup_outside(fs: Seq<(String, Json)>, p: spec_fn(Seq<char>) -> bool, k: Seq<char>)
    requires
        names_within(fs, p),
        !p(k),
    ensures
        lookup(fs, k) == None::<Json>,
{
    assert(absent(fs, k)) by {
        assert forall|i: int| 0 <= i < fs.len() implies (#[trigger] fs[i]).0@ != k by {
            assert(p(fs[i].0@));
        }
    }
    lemma_lookup_absent(fs, k);
}

/// Members whose names both `p` and `q` admit, once concatenated.
pub proof fn lemma_names_within_concat(
    a: Seq<(String, Json)>,
    b: Seq<(String, Json)>,
    p: spec_fn(Seq<char>) -> bool,
    q: spec_fn(Seq<char>) -> bool,
    r: spec_fn(Seq<char>) -> bool,
)
    requires
        names_within(a, p),
        names_within(b, q),
        forall|n: Seq<char>| #[trigger] p(n) ==> r(n),
        forall|n: Seq<char>| #[trigger] q(n) ==> r(n),
    ensures
        names_within(a + b, r),
{
    assert forall|i: int| 0 <= i < (a + b).len() implies r((#[trigger] (a + b)[i]).0@) by {
        if i < a.len() {
            assert((a + b)[i] == a[i]);
            assert(p(a[i].0@));
        } else {
            assert((a + b)[i] == b[i - a.len()]);
            assert(q(b[i - a.len()].0@));
        }
    }
}

/// Appending a member whose name `p` admits keeps all names admitted.
pub proof fn lemma_names_within_push(fs: Seq<(String, Json)>, f: (String, Json), p: spec_fn(Seq<char>) -> bool)
    requires
        names_within(fs, p),
        p(f.0@),
    ensures
        names_within(fs.push(f), p),
{
    assert forall|i: int| 0 <= i < fs.push(f).len() implies p((#[trigger] fs.push(f)[i]).0@) by {
        if i < fs.len() {
            assert(fs.push(f)[i] == fs[i]);
        }
    }
}

/// Names admitted by `p` are admitted by `q` when `q` is wider.
pub proof fn lemma_names_within_weaken(fs: Seq<(String, Json)>, p: spec_fn(Seq<char>) -> bool, q: spec_fn(Seq<char>) -> bool)
    requires
        names_within(fs, p),
        forall|n: Seq<char>| #[trigger] p(n) ==> q(n),
    ensures
        names_within(fs, q),
{
    assert forall|i: int| 0 <= i < fs.len() implies q((#[trigger] fs[i]).0@) by {
        assert(p(fs[i].0@));
    }
}

/// No members have only admitted names.
pub proof fn lemma_names_within_empty(fs: Seq<(String, Json)>, p: spec_fn(Seq<char>) -> bool)
    requires
        fs.len() == 0,
    ensures
        names_within(fs, p),
{
}

impl JsonCodec for bool {
    open spec fn wf(&self) -> bool {
        true
    }

    open spec fn encoded(&self, j: Json) -> bool {
        j == Json::Bool(*self)
    }

    open spec fn rel(&self, j: Json) -> bool {
        j == Json::Bool(*self)
    }

    open spec fn decode_error(j: Json) -> Option<DecodeError> {
        match j {
            Json::Bool(_) => None,
            _ => Some(DecodeError::UnexpectedKind),
        }
    }

    open spec fn equiv(&self, o: &Self) -> bool {
        *self == *o
    }

    fn encode(&self) -> (r: Json) {
        Json::Bool(*self)
    }

    fn decode(j: &Json) -> (r: Result<Self, DecodeError>) {
        match j {
            Json::Bool(b) => Ok(*b),
            _ => Err(DecodeError::UnexpectedKind),
        }
    }

    proof fn lemma_round_trip(&self, j: Json) {
    }

    proof fn lemma_unique(&self, o: &Self, j: Json) {
    }
}

} // verus!
