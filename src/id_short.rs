use vstd::prelude::*;
use crate::json::{Json, DecodeError};
use crate::codec::JsonCodec;
use serde_with::base64::{Base64, UrlSafe};
use serde_with::formats::Unpadded;
use serde_with::{DeserializeAs, SerializeAs};

verus! {

/// The URL-safe, unpadded base64 text of the UTF-8 bytes of `s`.
pub uninterp spec fn base64url_text(s: Seq<char>) -> Seq<char>;

/// The text whose UTF-8 bytes `s` encodes in URL-safe base64, when `s` is
/// such an encoding of valid UTF-8.
pub uninterp spec fn base64url_decoded(s: Seq<char>) -> Option<Seq<char>>;

/// Relies on `serde_with::base64::Base64<UrlSafe, Unpadded>` as
/// `SerializeAs<String>`, written to a `serde_json` value: the URL-safe
/// unpadded base64 text of the bytes of `s`. Decoding it, with the same
/// alphabet and either padding, gives `s` back.
#[verifier::external_body]
fn base64url_encode(s: &String) -> (r: String)
    ensures
        r@ == base64url_text(s@),
        base64url_decoded(r@) == Some(s@),
{
    match <Base64<UrlSafe, Unpadded> as SerializeAs<String>>::serialize_as(s, serde_json::value::Serializer) {
        Ok(serde_json::Value::String(t)) => t,
        _ => String::new(),
    }
}

/// Relies on `serde_with::base64::Base64<UrlSafe, Unpadded>` as
/// `DeserializeAs<String>`, read from a `serde_json` string: the decoded text,
/// when `s` is base64 of valid UTF-8.
#[verifier::external_body]
fn base64url_decode(s: &String) -> (r: Option<String>)
    ensures
        match base64url_decoded(s@) {
            Some(t) => r matches Some(x) && x@ == t,
            None => r is None,
        },
{
    <Base64<UrlSafe, Unpadded> as DeserializeAs<String>>::deserialize_as(serde_json::Value::String(s.clone())).ok()
}

/// A text marked to be written on the wire in URL-safe unpadded base64.
#[derive(Clone, PartialEq, Debug)]
pub struct Base64String(pub String);

/// A short id: a plain text, or, as some interfaces use it, a text written
/// in base64.
#[derive(Clone, PartialEq, Debug)]
pub enum IDShort {
    Base64(Base64String),
    Raw(String),
}

/// The text that a short id displays.
pub open spec fn id_short_text(id: IDShort) -> Seq<char> {
    match id {
        IDShort::Base64(b) => b.0@,
        IDShort::Raw(s) => s@,
    }
}

/// `j` is what encoding writes for the short id `id`.
pub open spec fn id_short_encoded(id: IDShort, j: Json) -> bool {
    match id {
        IDShort::Base64(b) => j matches Json::Str(t) && t@ == base64url_text(b.0@) && base64url_decoded(t@)
            == Some(b.0@),
        IDShort::Raw(s) => j matches Json::Str(t) && t@ == s@,
    }
}

/// `j` decodes to the short id `id`: a string that is base64 of a text
/// decodes to that text in base64 form, any other string to itself.
pub open spec fn id_short_rel(id: IDShort, j: Json) -> bool {
    match j {
        Json::Str(t) => match base64url_decoded(t@) {
            Some(x) => id matches IDShort::Base64(b) && b.0@ == x,
            None => id matches IDShort::Raw(s) && s@ == t@,
        },
        _ => false,
    }
}

impl IDShort {
    /// The displayed text: the text itself in either form.
    pub fn to_string(&self) -> (r: String)
        ensures
            r@ == id_short_text(*self),
    {
        match self {
            IDShort::Base64(b) => b.0.clone(),
            IDShort::Raw(s) => s.clone(),
        }
    }

    /// The string written on the wire.
    pub fn to_json(&self) -> (r: Json)
        ensures
            id_short_encoded(*self, r),
    {
        match self {
            IDShort::Base64(b) => Json::Str(base64url_encode(&b.0)),
            IDShort::Raw(s) => Json::Str(s.clone()),
        }
    }

    /// Decodes a short id: the base64 form is tried first, and the plain
    /// form taken when the string is not base64 of a text.
    pub fn from_json(j: &Json) -> (r: Result<IDShort, DecodeError>)
        ensures
            match *j {
                Json::Str(_) => r matches Ok(id) && id_short_rel(id, *j),
                _ => r == Err::<IDShort, DecodeError>(DecodeError::UnexpectedKind),
            },
    {
        match j {
            Json::Str(t) => match base64url_decode(t) {
                Some(x) => Ok(IDShort::Base64(Base64String(x))),
                None => Ok(IDShort::Raw(t.clone())),
            },
            _ => Err(DecodeError::UnexpectedKind),
        }
    }
}

impl JsonCodec for IDShort {
    /// The string written for the short id reads back in the same form:
    /// always for the base64 form; for a plain text, when it is not itself
    /// base64 of a text.
    open spec fn wf(&self) -> bool {
        match *self {
            IDShort::Base64(_) => true,
            IDShort::Raw(s) => base64url_decoded(s@) is None,
        }
    }

    open spec fn encoded(&self, j: Json) -> bool {
        id_short_encoded(*self, j)
    }

    open spec fn rel(&self, j: Json) -> bool {
        id_short_rel(*self, j)
    }

    open spec fn decode_error(j: Json) -> Option<DecodeError> {
        match j {
            Json::Str(_) => None,
            _ => Some(DecodeError::UnexpectedKind),
        }
    }

    open spec fn equiv(&self, o: &Self) -> bool {
        match (*self, *o) {
            (IDShort::Base64(a), IDShort::Base64(b)) => a.0@ == b.0@,
            (IDShort::Raw(a), IDShort::Raw(b)) => a@ == b@,
            _ => false,
        }
    }

    fn encode(&self) -> (r: Json) {
        self.to_json()
    }

    fn decode(j: &Json) -> (r: Result<Self, DecodeError>) {
        IDShort::from_json(j)
    }

    proof fn lemma_round_trip(&self, j: Json) {
    }

    proof fn lemma_unique(&self, o: &Self, j: Json) {
    }
}

/// Writing a short id and reading the string back gives the same form and
/// the same displayed text: always for the base64 form, and for a plain
/// text that is not itself base64 of a text (a plain text that is comes
/// back in the base64 form, as the base64 form is tried first).
pub proof fn lemma_id_short_round_trip(x: IDShort, j: Json, y: IDShort)
    requires
        x.wf(),
        id_short_encoded(x, j),
        id_short_rel(y, j),
    ensures
        x.equiv(&y),
        id_short_text(x) == id_short_text(y),
{
}

} // verus!
