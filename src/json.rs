use vstd::prelude::*;
use crate::text::str_eq;

verus! {

/// A JSON document tree. Numbers with an integral value in the 64-bit
/// signed or unsigned range are `Int`; any other number is `Number`, held as
/// its literal text.
#[derive(Debug, PartialEq)]
pub enum Json {
    Null,
    Bool(bool),
    Int(i128),
    Number(String),
    Str(String),
    Array(Vec<Json>),
    Object(Vec<(String, Json)>),
}

/// Errors of decoding a JSON tree into the model.
#[derive(Debug, PartialEq, Eq, Clone, Copy, Structural)]
pub enum DecodeError {
    /// A required member is absent.
    MissingField,
    /// A value has another JSON kind than the field requires.
    UnexpectedKind,
    /// A discriminator names no known variant.
    UnknownDiscriminator,
    /// An integer does not fit the native type of the field.
    OutOfRange,
    /// A text value breaks the length or character rules of its type.
    InvalidText,
    /// A text value is not in the lexical space of its value type.
    InvalidLexical,
    /// A reference has another kind than the field admits.
    ReferenceKindMismatch,
    /// A revision is given without a version.
    RevisionWithoutVersion,
}

/// The value of the first member of `fs` named `k`.
pub open spec fn lookup(fs: Seq<(String, Json)>, k: Seq<char>) -> Option<Json>
    decreases fs.len(),
{
    if fs.len() == 0 {
        None
    } else if fs[0].0@ == k {
        Some(fs[0].1)
    } else {
        lookup(fs.drop_first(), k)
    }
}

/// The position of the first member of `fs` named `k`, or -1.
pub open spec fn index_of(fs: Seq<(String, Json)>, k: Seq<char>) -> int
    decreases fs.len(),
{
    if fs.len() == 0 {
        -1
    } else if fs[0].0@ == k {
        0
    } else {
        let r = index_of(fs.drop_first(), k);
        if r < 0 {
            -1
        } else {
            r + 1
        }
    }
}

/// `lookup` gives the value at `index_of`.
pub proof fn lemma_lookup_index(fs: Seq<(String, Json)>, k: Seq<char>)
    ensures
        -1 <= index_of(fs, k) < fs.len(),
        lookup(fs, k) == (if index_of(fs, k) >= 0 {
            Some(fs[index_of(fs, k)].1)
        } else {
            None
        }),
    decreases fs.len(),
{
    if fs.len() > 0 && fs[0].0@ != k {
        lemma_lookup_index(fs.drop_first(), k);
    }
}

/// The value of member `k`, absent when the member is missing or `null`.
pub open spec fn member(fs: Seq<(String, Json)>, k: Seq<char>) -> Option<Json> {
    match lookup(fs, k) {
        Some(Json::Null) => None,
        o => o,
    }
}

/// Looking up `k` after a member of another name was put in front gives
/// what it gave before.
pub proof fn lemma_lookup_skip(fs: Seq<(String, Json)>, f: (String, Json), k: Seq<char>)
    requires
        f.0@ != k,
    ensures
        lookup(seq![f] + fs, k) == lookup(fs, k),
{
    assert((seq![f] + fs).drop_first() =~= fs);
}

/// Looking up the name of the first member gives its value.
pub proof fn lemma_lookup_first(fs: Seq<(String, Json)>, f: (String, Json))
    ensures
        lookup(seq![f] + fs, f.0@) == Some(f.1),
{
}

/// Looking up `k` in a concatenation: the left part first.
pub proof fn lemma_lookup_concat(a: Seq<(String, Json)>, b: Seq<(String, Json)>, k: Seq<char>)
    ensures
        lookup(a + b, k) == (match lookup(a, k) {
            Some(v) => Some(v),
            None => lookup(b, k),
        }),
    decreases a.len(),
{
    if a.len() > 0 {
        assert((a + b).drop_first() =~= a.drop_first() + b);
        lemma_lookup_concat(a.drop_first(), b, k);
    } else {
        assert(a + b =~= b);
    }
}

/// Whether no member of `fs` is named `k`.
pub open spec fn absent(fs: Seq<(String, Json)>, k: Seq<char>) -> bool {
    forall|i: int| 0 <= i < fs.len() ==> (#[trigger] fs[i]).0@ != k
}

/// A name missing from every member is not found.
pub proof fn lemma_lookup_absent(fs: Seq<(String, Json)>, k: Seq<char>)
    requires
        absent(fs, k),
    ensures
        lookup(fs, k) == None::<Json>,
    decreases fs.len(),
{
    if fs.len() > 0 {
        assert(fs[0].0@ != k);
        assert forall|i: int| 0 <= i < fs.drop_first().len() implies (
        #[trigger] fs.drop_first()[i]).0@ != k by {
            assert(fs.drop_first()[i] == fs[i + 1]);
        }
        lemma_lookup_absent(fs.drop_first(), k);
    }
}

/// The position of the first member of `fs` named `k`.
pub fn find_member(fs: &Vec<(String, Json)>, k: &str) -> (r: Option<usize>)
    ensures
        match r {
            Some(i) => i < fs@.len() && lookup(fs@, k@) == Some(fs@[i as int].1) && index_of(fs@, k@)
                == i,
            None => lookup(fs@, k@) == None::<Json> && index_of(fs@, k@) == -1,
        },
{
    let mut i: usize = 0;
    assert(fs@.subrange(0, fs@.len() as int) =~= fs@);
    while i < fs.len()
        invariant
            i <= fs@.len(),
            lookup(fs@, k@) == lookup(fs@.subrange(i as int, fs@.len() as int), k@),
            index_of(fs@, k@) == (if index_of(fs@.subrange(i as int, fs@.len() as int), k@) < 0 {
                -1
            } else {
                index_of(fs@.subrange(i as int, fs@.len() as int), k@) + i
            }),
        decreases fs@.len() - i,
    {
        let ghost rest = fs@.subrange(i as int, fs@.len() as int);
        if str_eq(fs[i].0.as_str(), k) {
            return Some(i);
        }
        assert(rest.drop_first() =~= fs@.subrange(i + 1, fs@.len() as int));
        i += 1;
    }
    None
}

/// The value of member `k` of `fs`, `None` when it is missing or `null`.
pub fn get_member<'a>(fs: &'a Vec<(String, Json)>, k: &str) -> (r: Option<&'a Json>)
    ensures
        match member(fs@, k@) {
            Some(v) => r == Some(&v),
            None => r is None,
        },
{
    match find_member(fs, k) {
        Some(i) => {
            match &fs[i].1 {
                Json::Null => None,
                v => Some(v),
            }
        },
        None => None,
    }
}

/// The value that an optional reference points to.
pub open spec fn opt_val(v: Option<&Json>) -> Option<Json> {
    match v {
        Some(j) => Some(*j),
        None => None,
    }
}

/// A member named by a copy of `k`.
pub fn field(k: &str, v: Json) -> (r: (String, Json))
    ensures
        r.0@ == k@,
        r.1 == v,
{
    (k.to_string(), v)
}

} // verus!
