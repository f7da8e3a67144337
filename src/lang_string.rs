use vstd::prelude::*;
use crate::json::{
    Json,
    DecodeError,
    get_member,
    member,
    field,
    lemma_lookup_first,
    lemma_lookup_skip,
};
use crate::codec::JsonCodec;
use crate::text::{is_text, validate_text};

verus! {

broadcast use vstd::string::group_string_axioms;

#[verifier::external_type_specification]
#[verifier::external_body]
pub struct ExLanguageTagParseError(oxilangtag::LanguageTagParseError);

/// The normal form of the language tag `s`, when `oxilangtag` accepts it.
pub uninterp spec fn normalized_language_tag(s: Seq<char>) -> Option<Seq<char>>;

/// Relies on `oxilangtag::LanguageTag::parse_and_normalize`: it checks a
/// BCP 47 language tag and writes it in its normal case (`EN` becomes `en`).
#[verifier::external_body]
fn parse_and_normalize_tag(tag: &str) -> (r: Result<String, oxilangtag::LanguageTagParseError>)
    ensures
        match normalized_language_tag(tag@) {
            Some(t) => r matches Ok(s) && s@ == t,
            None => r is Err,
        },
{
    oxilangtag::LanguageTag::parse_and_normalize(tag).map(|t| t.into_inner())
}

/// A text together with the normalized tag of its language.
#[derive(Debug, Clone, PartialEq)]
pub struct LangString {
    /// The language tag, in normal case.
    pub language: String,
    pub text: String,
}

/// Errors of reading a language-tagged text in the form `"text"@lang`.
#[derive(Debug)]
pub enum LangStringParseRDFError {
    /// The input is not a quoted text, an `@` and a tag.
    IncorrectFormat,
    /// The text holds a character not admitted in text values.
    NonValidCharacters,
    /// The language tag is not valid.
    ParseError(oxilangtag::LanguageTagParseError),
}

/// `p` is the position of the one `@` in `s`.
pub open spec fn sole_at(s: Seq<char>, p: int) -> bool {
    &&& 0 <= p < s.len()
    &&& s[p] == '@'
    &&& forall|q: int| 0 <= q < s.len() && q != p ==> s[q] != '@'
}

/// The outcome of reading `s` as `"text"@lang`: 0 a valid form, 1 an
/// incorrect format, 2 a text with invalid characters.
pub open spec fn rdf_shape(s: Seq<char>) -> int {
    if !(exists|p: int| sole_at(s, p)) {
        1
    } else {
        let p = choose|p: int| sole_at(s, p);
        let t = s.subrange(0, p);
        if t.len() < 2 || t[0] != '"' || t[t.len() - 1] != '"' {
            1
        } else if !is_text(t.subrange(1, t.len() - 1)) {
            2
        } else {
            0
        }
    }
}

/// The position of the one `@` in `s`, when there is exactly one.
fn find_sole_at(s: &str) -> (r: Option<usize>)
    ensures
        match r {
            Some(p) => sole_at(s@, p as int),
            None => !exists|p: int| sole_at(s@, p),
        },
{
    let n = s.unicode_len();
    let mut first: Option<usize> = None;
    let mut i: usize = 0;
    while i < n
        invariant
            n == s@.len(),
            i <= n,
            match first {
                None => forall|q: int| 0 <= q < i ==> s@[q] != '@',
                Some(p) => p < i && s@[p as int] == '@' && forall|q: int|
                    0 <= q < i && q != p ==> s@[q] != '@',
            },
        decreases n - i,
    {
        if s.get_char(i) == '@' {
            match first {
                Some(p) => {
                    assert(!sole_at(s@, p as int));
                    assert forall|x: int| !sole_at(s@, x) by {
                        if sole_at(s@, x) {
                            if x == p as int {
                                assert(s@[i as int] == '@');
                            } else {
                                assert(s@[p as int] == '@');
                            }
                        }
                    }
                    return None;
                },
                None => {
                    first = Some(i);
                },
            }
        }
        i += 1;
    }
    match first {
        None => {
            assert forall|x: int| !sole_at(s@, x) by {
                if sole_at(s@, x) {
                    assert(s@[x] == '@');
                }
            }
            None
        },
        Some(p) => Some(p),
    }
}

impl LangString {
    /// A text in the language `language`, whose tag is normalized.
    pub fn try_new(language: &str, text: String) -> (r: Result<LangString, oxilangtag::LanguageTagParseError>)
        ensures
            match normalized_language_tag(language@) {
                Some(t) => r matches Ok(ls) && ls.language@ == t && ls.text == text,
                None => r is Err,
            },
    {
        match parse_and_normalize_tag(language) {
            Ok(l) => Ok(LangString { language: l, text }),
            Err(e) => Err(e),
        }
    }

    /// Reads the form `"text"@lang`; the tag may be in any case and is
    /// normalized.
    pub fn from_str(s: &str) -> (r: Result<LangString, LangStringParseRDFError>)
        ensures
            rdf_shape(s@) == 1 ==> r matches Err(LangStringParseRDFError::IncorrectFormat),
            rdf_shape(s@) == 2 ==> r matches Err(LangStringParseRDFError::NonValidCharacters),
            rdf_shape(s@) == 0 ==> {
                let p = choose|p: int| sole_at(s@, p);
                let t = s@.subrange(0, p);
                match normalized_language_tag(s@.subrange(p + 1, s@.len() as int)) {
                    Some(l) => r matches Ok(ls) && ls.language@ == l && ls.text@ == t.subrange(
                        1,
                        t.len() - 1,
                    ),
                    None => r matches Err(LangStringParseRDFError::ParseError(_)),
                }
            },
    {
        let p = match find_sole_at(s) {
            Some(p) => p,
            None => return Err(LangStringParseRDFError::IncorrectFormat),
        };
        proof {
            let q = choose|q: int| sole_at(s@, q);
            assert(q == p as int);
        }
        let n = s.unicode_len();
        if p < 2 {
            return Err(LangStringParseRDFError::IncorrectFormat);
        }
        if s.get_char(0) != '"' || s.get_char(p - 1) != '"' {
            return Err(LangStringParseRDFError::IncorrectFormat);
        }
        let text = s.substring_char(1, p - 1);
        proof {
            assert(text@ =~= s@.subrange(0, p as int).subrange(1, p - 1));
        }
        if !validate_text(text) {
            return Err(LangStringParseRDFError::NonValidCharacters);
        }
        let tag = s.substring_char(p + 1, n);
        match parse_and_normalize_tag(tag) {
            Ok(l) => Ok(LangString { language: l, text: text.to_string() }),
            Err(e) => Err(LangStringParseRDFError::ParseError(e)),
        }
    }

    /// The object `{"language": <tag>, "text": <text>}`.
    pub fn to_json(&self) -> (r: Json)
        ensures
            lang_string_encoded(*self, r),
    {
        let mut fs: Vec<(String, Json)> = Vec::new();
        fs.push(field("language", Json::Str(self.language.clone())));
        fs.push(field("text", Json::Str(self.text.clone())));
        Json::Object(fs)
    }

    /// Decodes `{"language": <tag>, "text": <text>}`; the tag is normalized
    /// and the text checked.
    pub fn from_json(j: &Json) -> (r: Result<LangString, DecodeError>)
        ensures
            match lang_string_error(*j) {
                Some(e) => r == Err::<LangString, DecodeError>(e),
                None => r matches Ok(x) && lang_string_rel(x, *j),
            },
    {
        let fs = match j {
            Json::Object(fs) => fs,
            _ => return Err(DecodeError::UnexpectedKind),
        };
        let l = match get_member(fs, "language") {
            None => return Err(DecodeError::MissingField),
            Some(Json::Str(l)) => l,
            Some(_) => return Err(DecodeError::UnexpectedKind),
        };
        let t = match get_member(fs, "text") {
            None => return Err(DecodeError::MissingField),
            Some(Json::Str(t)) => t,
            Some(_) => return Err(DecodeError::UnexpectedKind),
        };
        let language = match deserialize_normalized_lang_tag(l.as_str()) {
            Some(n) => n,
            None => return Err(DecodeError::InvalidLexical),
        };
        if !validate_text(t.as_str()) {
            return Err(DecodeError::InvalidText);
        }
        Ok(LangString { language, text: t.clone() })
    }
}

/// `j` is what encoding writes for `x`.
pub open spec fn lang_string_encoded(x: LangString, j: Json) -> bool {
    j matches Json::Object(fs) && fs@.len() == 2 && fs@[0].0@ == "language"@ && (
    fs@[0].1 matches Json::Str(l) && l@ == x.language@) && fs@[1].0@ == "text"@ && (
    fs@[1].1 matches Json::Str(t) && t@ == x.text@)
}

/// `j` decodes to `x`: its tag normalizes to the language of `x`, and its
/// text is that of `x`.
pub open spec fn lang_string_rel(x: LangString, j: Json) -> bool {
    j matches Json::Object(fs) && (member(fs@, "language"@) matches Some(Json::Str(l))
        && normalized_language_tag(l@) == Some(x.language@)) && (member(fs@, "text"@) matches Some(
        Json::Str(t),
    ) && t@ == x.text@)
}

/// The error, if any, of decoding `j` as a language-tagged text.
pub open spec fn lang_string_error(j: Json) -> Option<DecodeError> {
    match j {
        Json::Object(fs) => match member(fs@, "language"@) {
            None => Some(DecodeError::MissingField),
            Some(Json::Str(l)) => match member(fs@, "text"@) {
                None => Some(DecodeError::MissingField),
                Some(Json::Str(t)) => if normalized_language_tag(l@) is None {
                    Some(DecodeError::InvalidLexical)
                } else if !is_text(t@) {
                    Some(DecodeError::InvalidText)
                } else {
                    None
                },
                Some(_) => Some(DecodeError::UnexpectedKind),
            },
            Some(_) => Some(DecodeError::UnexpectedKind),
        },
        _ => Some(DecodeError::UnexpectedKind),
    }
}

impl JsonCodec for LangString {
    /// The tag is in normal form and the text is valid.
    open spec fn wf(&self) -> bool {
        normalized_language_tag(self.language@) == Some(self.language@) && is_text(self.text@)
    }

    open spec fn encoded(&self, j: Json) -> bool {
        lang_string_encoded(*self, j)
    }

    open spec fn rel(&self, j: Json) -> bool {
        lang_string_rel(*self, j)
    }

    open spec fn decode_error(j: Json) -> Option<DecodeError> {
        lang_string_error(j)
    }

    open spec fn equiv(&self, o: &Self) -> bool {
        self.language@ == o.language@ && self.text@ == o.text@
    }

    fn encode(&self) -> (r: Json) {
        self.to_json()
    }

    fn decode(j: &Json) -> (r: Result<Self, DecodeError>) {
        LangString::from_json(j)
    }

    proof fn lemma_round_trip(&self, j: Json) {
        reveal_strlit("language");
        reveal_strlit("text");
        assert("language"@.len() == 8);
        assert("text"@.len() == 4);
        let fs = j->Object_0@;
        assert(fs =~= seq![fs[0]] + fs.drop_first());
        lemma_lookup_first(fs.drop_first(), fs[0]);
        lemma_lookup_skip(fs.drop_first(), fs[0], "text"@);
        assert(fs.drop_first() =~= seq![fs[1]] + Seq::<(String, Json)>::empty());
        lemma_lookup_first(Seq::<(String, Json)>::empty(), fs[1]);
    }

    proof fn lemma_unique(&self, o: &Self, j: Json) {
    }
}

/// The normalized form of a language tag, when the tag is valid.
pub fn deserialize_normalized_lang_tag(tag: &str) -> (r: Option<String>)
    ensures
        match normalized_language_tag(tag@) {
            Some(t) => r matches Some(s) && s@ == t,
            None => r is None,
        },
{
    match parse_and_normalize_tag(tag) {
        Ok(s) => Some(s),
        Err(_) => None,
    }
}

impl Default for LangString {
    /// An empty English text.
    fn default() -> (r: LangString)
        ensures
            r.language@ == "en"@,
            r.text@.len() == 0,
    {
        LangString { language: "en".to_string(), text: String::new() }
    }
}

} // verus!
