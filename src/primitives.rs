use vstd::prelude::*;
use crate::text::{is_text, is_text_char, validate_text};
use crate::json::{Json, DecodeError};
use crate::codec::JsonCodec;

verus! {

/// Outcome of checking a string against a length interval and the text
/// character set, in the order the checks are made.
pub open spec fn constrained_outcome(s: Seq<char>, max: nat) -> int {
    if s.len() == 0 {
        1
    } else if s.len() > max {
        2
    } else if !is_text(s) {
        3
    } else {
        0
    }
}

/// Checks a string against the interval `1..=max` of lengths in characters
/// and the text character set; 0 means valid, 1 too short, 2 too long, 3 an
/// invalid character.
fn check_constrained(s: &str, max: usize) -> (r: u8)
    ensures
        r as int == constrained_outcome(s@, max as nat),
{
    let n = s.unicode_len();
    if n == 0 {
        1
    } else if n > max {
        2
    } else if !validate_text(s) {
        3
    } else {
        0
    }
}

/// Largest number of characters of an identifier.
pub const IDENTIFIER_MAX: usize = 2048;

/// Largest number of characters of a label.
pub const LABEL_MAX: usize = 64;

/// Largest number of characters of a message topic.
pub const MESSAGE_TOPIC_MAX: usize = 255;

/// A globally unique identifier: 1 to 2048 text characters.
#[derive(Debug, Hash, PartialOrd, Ord)]
pub struct Identifier(String);

#[derive(Debug, PartialEq, Eq, Clone, Copy, Structural)]
pub enum IdentifierError {
    TooShort,
    TooLong,
    InvalidCharacter,
}

/// A label: 1 to 64 text characters.
#[derive(Debug, Hash, PartialOrd, Ord)]
pub struct Label(String);

#[derive(Debug, PartialEq, Eq, Clone, Copy, Structural)]
pub enum LabelError {
    TooShort,
    TooLong,
    InvalidCharacter,
}

/// A message topic: 1 to 255 text characters.
#[derive(Debug, Hash, PartialOrd, Ord)]
pub struct MessageTopic(String);

#[derive(Debug, PartialEq, Eq, Clone, Copy, Structural)]
pub enum MessageTopicError {
    TooShort,
    TooLong,
    InvalidCharacter,
}

/// `s` is a valid identifier.
pub open spec fn is_identifier(s: Seq<char>) -> bool {
    constrained_outcome(s, IDENTIFIER_MAX as nat) == 0
}

/// `s` is a valid label.
pub open spec fn is_label(s: Seq<char>) -> bool {
    constrained_outcome(s, LABEL_MAX as nat) == 0
}

/// `s` is a valid message topic.
pub open spec fn is_message_topic(s: Seq<char>) -> bool {
    constrained_outcome(s, MESSAGE_TOPIC_MAX as nat) == 0
}

/// The error, if any, that constructing an identifier from `s` gives.
pub open spec fn identifier_check(s: Seq<char>) -> Option<IdentifierError> {
    let o = constrained_outcome(s, IDENTIFIER_MAX as nat);
    if o == 1 {
        Some(IdentifierError::TooShort)
    } else if o == 2 {
        Some(IdentifierError::TooLong)
    } else if o == 3 {
        Some(IdentifierError::InvalidCharacter)
    } else {
        None
    }
}

/// The error, if any, that constructing a label from `s` gives.
pub open spec fn label_check(s: Seq<char>) -> Option<LabelError> {
    let o = constrained_outcome(s, LABEL_MAX as nat);
    if o == 1 {
        Some(LabelError::TooShort)
    } else if o == 2 {
        Some(LabelError::TooLong)
    } else if o == 3 {
        Some(LabelError::InvalidCharacter)
    } else {
        None
    }
}

/// The error, if any, that constructing a message topic from `s` gives.
pub open spec fn message_topic_check(s: Seq<char>) -> Option<MessageTopicError> {
    let o = constrained_outcome(s, MESSAGE_TOPIC_MAX as nat);
    if o == 1 {
        Some(MessageTopicError::TooShort)
    } else if o == 2 {
        Some(MessageTopicError::TooLong)
    } else if o == 3 {
        Some(MessageTopicError::InvalidCharacter)
    } else {
        None
    }
}

impl View for Identifier {
    type V = Seq<char>;

    closed spec fn view(&self) -> Seq<char> {
        self.0@
    }
}

impl Identifier {
    #[verifier::type_invariant]
    closed spec fn inv(self) -> bool {
        is_identifier(self.0@)
    }

    /// Validates `value` and wraps it.
    pub fn try_from(value: String) -> (r: Result<Identifier, IdentifierError>)
        ensures
            match identifier_check(value@) {
                Some(e) => r == Err::<Identifier, IdentifierError>(e),
                None => r matches Ok(id) && id@ == value@,
            },
    {
        let c = check_constrained(value.as_str(), IDENTIFIER_MAX);
        if c == 1 {
            Err(IdentifierError::TooShort)
        } else if c == 2 {
            Err(IdentifierError::TooLong)
        } else if c == 3 {
            Err(IdentifierError::InvalidCharacter)
        } else {
            Ok(Identifier(value))
        }
    }

    /// Validates a copy of `value` and wraps it.
    pub fn try_from_str(value: &str) -> (r: Result<Identifier, IdentifierError>)
        ensures
            match identifier_check(value@) {
                Some(e) => r == Err::<Identifier, IdentifierError>(e),
                None => r matches Ok(id) && id@ == value@,
            },
    {
        Identifier::try_from(value.to_string())
    }

    /// The text of the identifier.
    pub fn into_string(self) -> (r: String)
        ensures
            r@ == self@,
            is_identifier(r@),
    {
        proof {
            use_type_invariant(&self);
        }
        self.0
    }

    /// The text of the identifier.
    pub fn as_ref(&self) -> (r: &str)
        ensures
            r@ == self@,
            is_identifier(r@),
    {
        proof {
            use_type_invariant(&self);
        }
        self.0.as_str()
    }

    /// The text of the identifier, as displayed.
    pub fn to_string(&self) -> (r: String)
        ensures
            r@ == self@,
            is_identifier(r@),
    {
        proof {
            use_type_invariant(&self);
        }
        self.0.clone()
    }
}

impl Clone for Identifier {
    fn clone(&self) -> (r: Identifier)
        ensures
            r@ == self@,
    {
        proof {
            use_type_invariant(self);
        }
        Identifier(self.0.clone())
    }
}

impl PartialEq for Identifier {
    fn eq(&self, o: &Identifier) -> (r: bool) {
        self.0 == o.0
    }
}

impl vstd::std_specs::cmp::PartialEqSpecImpl for Identifier {
    open spec fn obeys_eq_spec() -> bool {
        true
    }

    open spec fn eq_spec(&self, o: &Identifier) -> bool {
        self@ == o@
    }
}

impl Eq for Identifier {
}

impl View for Label {
    type V = Seq<char>;

    closed spec fn view(&self) -> Seq<char> {
        self.0@
    }
}

impl Label {
    #[verifier::type_invariant]
    closed spec fn inv(self) -> bool {
        is_label(self.0@)
    }

    /// Validates `value` and wraps it.
    pub fn try_from(value: String) -> (r: Result<Label, LabelError>)
        ensures
            match label_check(value@) {
                Some(e) => r == Err::<Label, LabelError>(e),
                None => r matches Ok(v) && v@ == value@,
            },
    {
        let c = check_constrained(value.as_str(), LABEL_MAX);
        if c == 1 {
            Err(LabelError::TooShort)
        } else if c == 2 {
            Err(LabelError::TooLong)
        } else if c == 3 {
            Err(LabelError::InvalidCharacter)
        } else {
            Ok(Label(value))
        }
    }

    /// Validates a copy of `value` and wraps it.
    pub fn try_from_str(value: &str) -> (r: Result<Label, LabelError>)
        ensures
            match label_check(value@) {
                Some(e) => r == Err::<Label, LabelError>(e),
                None => r matches Ok(v) && v@ == value@,
            },
    {
        Label::try_from(value.to_string())
    }

    /// The text of the label.
    pub fn into_string(self) -> (r: String)
        ensures
            r@ == self@,
            is_label(r@),
    {
        proof {
            use_type_invariant(&self);
        }
        self.0
    }

    /// The text of the label.
    pub fn as_ref(&self) -> (r: &str)
        ensures
            r@ == self@,
            is_label(r@),
    {
        proof {
            use_type_invariant(&self);
        }
        self.0.as_str()
    }

    /// The text of the label, as displayed.
    pub fn to_string(&self) -> (r: String)
        ensures
            r@ == self@,
            is_label(r@),
    {
        proof {
            use_type_invariant(&self);
        }
        self.0.clone()
    }
}

impl Clone for Label {
    fn clone(&self) -> (r: Label)
        ensures
            r@ == self@,
    {
        proof {
            use_type_invariant(self);
        }
        Label(self.0.clone())
    }
}

impl PartialEq for Label {
    fn eq(&self, o: &Label) -> (r: bool) {
        self.0 == o.0
    }
}

impl vstd::std_specs::cmp::PartialEqSpecImpl for Label {
    open spec fn obeys_eq_spec() -> bool {
        true
    }

    open spec fn eq_spec(&self, o: &Label) -> bool {
        self@ == o@
    }
}

impl Eq for Label {
}

impl View for MessageTopic {
    type V = Seq<char>;

    closed spec fn view(&self) -> Seq<char> {
        self.0@
    }
}

impl MessageTopic {
    #[verifier::type_invariant]
    closed spec fn inv(self) -> bool {
        is_message_topic(self.0@)
    }

    /// Validates `value` and wraps it.
    pub fn try_from(value: String) -> (r: Result<MessageTopic, MessageTopicError>)
        ensures
            match message_topic_check(value@) {
                Some(e) => r == Err::<MessageTopic, MessageTopicError>(e),
                None => r matches Ok(v) && v@ == value@,
            },
    {
        let c = check_constrained(value.as_str(), MESSAGE_TOPIC_MAX);
        if c == 1 {
            Err(MessageTopicError::TooShort)
        } else if c == 2 {
            Err(MessageTopicError::TooLong)
        } else if c == 3 {
            Err(MessageTopicError::InvalidCharacter)
        } else {
            Ok(MessageTopic(value))
        }
    }

    /// Validates a copy of `value` and wraps it.
    pub fn try_from_str(value: &str) -> (r: Result<MessageTopic, MessageTopicError>)
        ensures
            match message_topic_check(value@) {
                Some(e) => r == Err::<MessageTopic, MessageTopicError>(e),
                None => r matches Ok(v) && v@ == value@,
            },
    {
        MessageTopic::try_from(value.to_string())
    }

    /// The text of the message topic.
    pub fn into_string(self) -> (r: String)
        ensures
            r@ == self@,
            is_message_topic(r@),
    {
        proof {
            use_type_invariant(&self);
        }
        self.0
    }

    /// The text of the message topic.
    pub fn as_ref(&self) -> (r: &str)
        ensures
            r@ == self@,
            is_message_topic(r@),
    {
        proof {
            use_type_invariant(&self);
        }
        self.0.as_str()
    }

    /// The text of the message topic, as displayed.
    pub fn to_string(&self) -> (r: String)
        ensures
            r@ == self@,
            is_message_topic(r@),
    {
        proof {
            use_type_invariant(&self);
        }
        self.0.clone()
    }
}

impl Clone for MessageTopic {
    fn clone(&self) -> (r: MessageTopic)
        ensures
            r@ == self@,
    {
        proof {
            use_type_invariant(self);
        }
        MessageTopic(self.0.clone())
    }
}

impl PartialEq for MessageTopic {
    fn eq(&self, o: &MessageTopic) -> (r: bool) {
        self.0 == o.0
    }
}

impl vstd::std_specs::cmp::PartialEqSpecImpl for MessageTopic {
    open spec fn obeys_eq_spec() -> bool {
        true
    }

    open spec fn eq_spec(&self, o: &MessageTopic) -> bool {
        self@ == o@
    }
}

impl Eq for MessageTopic {
}

/// The outcome of decoding `j` as an identifier: the text of a string that
/// passes the checks.
pub open spec fn identifier_decoding(j: Json) -> Result<Seq<char>, DecodeError> {
    match j {
        Json::Str(s) => if identifier_check(s@) is None {
            Ok(s@)
        } else {
            Err(DecodeError::InvalidText)
        },
        _ => Err(DecodeError::UnexpectedKind),
    }
}

impl Identifier {
    /// The string of the text.
    pub fn to_json(&self) -> (r: Json)
        ensures
            r matches Json::Str(s) && s@ == self@,
    {
        Json::Str(self.to_string())
    }

    /// Decodes an identifier from a string, checking length and characters.
    pub fn from_json(j: &Json) -> (r: Result<Identifier, DecodeError>)
        ensures
            match identifier_decoding(*j) {
                Ok(s) => r matches Ok(v) && v@ == s,
                Err(e) => r matches Err(e2) && e2 == e,
            },
    {
        match j {
            Json::Str(s) => match Identifier::try_from(s.clone()) {
                Ok(v) => Ok(v),
                Err(_) => Err(DecodeError::InvalidText),
            },
            _ => Err(DecodeError::UnexpectedKind),
        }
    }
}

/// Decodes the text of an identifier from a string, checking length and
/// characters.
pub fn deserialize_identifier(j: &Json) -> (r: Result<String, DecodeError>)
    ensures
        match identifier_decoding(*j) {
            Ok(s) => r matches Ok(v) && v@ == s,
            Err(e) => r == Err::<String, DecodeError>(e),
        },
{
    match Identifier::from_json(j) {
        Ok(v) => Ok(v.into_string()),
        Err(e) => Err(e),
    }
}

/// Decoding the encoding of an identifier built from any valid text gives it
/// back: every text `s` that construction accepts is written as a string
/// that decodes to a value of text `s`.
pub proof fn lemma_identifier_round_trip(s: Seq<char>, j: Json)
    requires
        identifier_check(s) is None,
        j matches Json::Str(t) && t@ == s,
    ensures
        identifier_decoding(j) == Ok::<Seq<char>, DecodeError>(s),
{
}

/// The outcome of decoding `j` as a label: the text of a string that
/// passes the checks.
pub open spec fn label_decoding(j: Json) -> Result<Seq<char>, DecodeError> {
    match j {
        Json::Str(s) => if label_check(s@) is None {
            Ok(s@)
        } else {
            Err(DecodeError::InvalidText)
        },
        _ => Err(DecodeError::UnexpectedKind),
    }
}

impl Label {
    /// The string of the text.
    pub fn to_json(&self) -> (r: Json)
        ensures
            r matches Json::Str(s) && s@ == self@,
    {
        Json::Str(self.to_string())
    }

    /// Decodes a label from a string, checking length and characters.
    pub fn from_json(j: &Json) -> (r: Result<Label, DecodeError>)
        ensures
            match label_decoding(*j) {
                Ok(s) => r matches Ok(v) && v@ == s,
                Err(e) => r matches Err(e2) && e2 == e,
            },
    {
        match j {
            Json::Str(s) => match Label::try_from(s.clone()) {
                Ok(v) => Ok(v),
                Err(_) => Err(DecodeError::InvalidText),
            },
            _ => Err(DecodeError::UnexpectedKind),
        }
    }
}

/// Decodes the text of a label from a string, checking length and
/// characters.
pub fn deserialize_label_type(j: &Json) -> (r: Result<String, DecodeError>)
    ensures
        match label_decoding(*j) {
            Ok(s) => r matches Ok(v) && v@ == s,
            Err(e) => r == Err::<String, DecodeError>(e),
        },
{
    match Label::from_json(j) {
        Ok(v) => Ok(v.into_string()),
        Err(e) => Err(e),
    }
}

/// Decoding the encoding of a label built from any valid text gives it
/// back: every text `s` that construction accepts is written as a string
/// that decodes to a value of text `s`.
pub proof fn lemma_label_round_trip(s: Seq<char>, j: Json)
    requires
        label_check(s) is None,
        j matches Json::Str(t) && t@ == s,
    ensures
        label_decoding(j) == Ok::<Seq<char>, DecodeError>(s),
{
}

/// The outcome of decoding `j` as a message topic: the text of a string that
/// passes the checks.
pub open spec fn message_topic_decoding(j: Json) -> Result<Seq<char>, DecodeError> {
    match j {
        Json::Str(s) => if message_topic_check(s@) is None {
            Ok(s@)
        } else {
            Err(DecodeError::InvalidText)
        },
        _ => Err(DecodeError::UnexpectedKind),
    }
}

impl MessageTopic {
    /// The string of the text.
    pub fn to_json(&self) -> (r: Json)
        ensures
            r matches Json::Str(s) && s@ == self@,
    {
        Json::Str(self.to_string())
    }

    /// Decodes a message topic from a string, checking length and characters.
    pub fn from_json(j: &Json) -> (r: Result<MessageTopic, DecodeError>)
        ensures
            match message_topic_decoding(*j) {
                Ok(s) => r matches Ok(v) && v@ == s,
                Err(e) => r matches Err(e2) && e2 == e,
            },
    {
        match j {
            Json::Str(s) => match MessageTopic::try_from(s.clone()) {
                Ok(v) => Ok(v),
                Err(_) => Err(DecodeError::InvalidText),
            },
            _ => Err(DecodeError::UnexpectedKind),
        }
    }
}

/// Decodes the text of a message topic from a string, checking length and
/// characters.
pub fn deserialize_message_topic_type(j: &Json) -> (r: Result<String, DecodeError>)
    ensures
        match message_topic_decoding(*j) {
            Ok(s) => r matches Ok(v) && v@ == s,
            Err(e) => r == Err::<String, DecodeError>(e),
        },
{
    match MessageTopic::from_json(j) {
        Ok(v) => Ok(v.into_string()),
        Err(e) => Err(e),
    }
}

/// Decoding the encoding of a message topic built from any valid text gives it
/// back: every text `s` that construction accepts is written as a string
/// that decodes to a value of text `s`.
pub proof fn lemma_message_topic_round_trip(s: Seq<char>, j: Json)
    requires
        message_topic_check(s) is None,
        j matches Json::Str(t) && t@ == s,
    ensures
        message_topic_decoding(j) == Ok::<Seq<char>, DecodeError>(s),
{
}

/// Decodes a string whose characters are all admitted in text values.
pub fn deserialize_normalized_text(j: &Json) -> (r: Result<String, DecodeError>)
    ensures
        match *j {
            Json::Str(s) => if is_text(s@) {
                r matches Ok(v) && v@ == s@
            } else {
                r == Err::<String, DecodeError>(DecodeError::InvalidText)
            },
            _ => r == Err::<String, DecodeError>(DecodeError::UnexpectedKind),
        },
{
    match j {
        Json::Str(s) => if validate_text(s.as_str()) {
            Ok(s.clone())
        } else {
            Err(DecodeError::InvalidText)
        },
        _ => Err(DecodeError::UnexpectedKind),
    }
}

/// Construction refuses the empty text, accepts any valid text of exactly
/// the largest length, and refuses one character more.
pub proof fn lemma_length_bounds(s: Seq<char>, c: char)
    requires
        is_text(s),
        is_text_char(c),
    ensures
        s.len() == 0 ==> identifier_check(s) == Some(IdentifierError::TooShort)
            && label_check(s) == Some(LabelError::TooShort) && message_topic_check(s) == Some(
            MessageTopicError::TooShort,
        ),
        s.len() == IDENTIFIER_MAX ==> identifier_check(s) is None && identifier_check(s.push(c))
            == Some(IdentifierError::TooLong),
        s.len() == LABEL_MAX ==> label_check(s) is None && label_check(s.push(c)) == Some(
            LabelError::TooLong,
        ),
        s.len() == MESSAGE_TOPIC_MAX ==> message_topic_check(s) is None && message_topic_check(
            s.push(c),
        ) == Some(MessageTopicError::TooLong),
{
}

/// A text holding a character not admitted in text values is refused with
/// an invalid character, whatever valid characters surround it, as long as
/// the length is within bounds.
pub proof fn lemma_invalid_character(pre: Seq<char>, c: char, post: Seq<char>)
    requires
        !is_text_char(c),
    ensures
        (pre + seq![c] + post).len() <= IDENTIFIER_MAX ==> identifier_check(pre + seq![c] + post)
            == Some(IdentifierError::InvalidCharacter),
        (pre + seq![c] + post).len() <= LABEL_MAX ==> label_check(pre + seq![c] + post) == Some(
            LabelError::InvalidCharacter,
        ),
        (pre + seq![c] + post).len() <= MESSAGE_TOPIC_MAX ==> message_topic_check(
            pre + seq![c] + post,
        ) == Some(MessageTopicError::InvalidCharacter),
{
    let s = pre + seq![c] + post;
    assert(s[pre.len() as int] == c);
}

impl JsonCodec for Identifier {
    open spec fn wf(&self) -> bool {
        identifier_check(self@) is None
    }

    open spec fn encoded(&self, j: Json) -> bool {
        j matches Json::Str(s) && s@ == self@
    }

    open spec fn rel(&self, j: Json) -> bool {
        identifier_decoding(j) == Ok::<Seq<char>, DecodeError>(self@)
    }

    open spec fn decode_error(j: Json) -> Option<DecodeError> {
        match identifier_decoding(j) {
            Ok(_) => None,
            Err(e) => Some(e),
        }
    }

    open spec fn equiv(&self, o: &Self) -> bool {
        self@ == o@
    }

    fn encode(&self) -> (r: Json) {
        self.to_json()
    }

    fn decode(j: &Json) -> (r: Result<Self, DecodeError>) {
        Identifier::from_json(j)
    }

    proof fn lemma_round_trip(&self, j: Json) {
    }

    proof fn lemma_unique(&self, o: &Self, j: Json) {
    }
}

impl JsonCodec for Label {
    open spec fn wf(&self) -> bool {
        label_check(self@) is None
    }

    open spec fn encoded(&self, j: Json) -> bool {
        j matches Json::Str(s) && s@ == self@
    }

    open spec fn rel(&self, j: Json) -> bool {
        label_decoding(j) == Ok::<Seq<char>, DecodeError>(self@)
    }

    open spec fn decode_error(j: Json) -> Option<DecodeError> {
        match label_decoding(j) {
            Ok(_) => None,
            Err(e) => Some(e),
        }
    }

    open spec fn equiv(&self, o: &Self) -> bool {
        self@ == o@
    }

    fn encode(&self) -> (r: Json) {
        self.to_json()
    }

    fn decode(j: &Json) -> (r: Result<Self, DecodeError>) {
        Label::from_json(j)
    }

    proof fn lemma_round_trip(&self, j: Json) {
    }

    proof fn lemma_unique(&self, o: &Self, j: Json) {
    }
}

impl JsonCodec for MessageTopic {
    open spec fn wf(&self) -> bool {
        message_topic_check(self@) is None
    }

    open spec fn encoded(&self, j: Json) -> bool {
        j matches Json::Str(s) && s@ == self@
    }

    open spec fn rel(&self, j: Json) -> bool {
        message_topic_decoding(j) == Ok::<Seq<char>, DecodeError>(self@)
    }

    open spec fn decode_error(j: Json) -> Option<DecodeError> {
        match message_topic_decoding(j) {
            Ok(_) => None,
            Err(e) => Some(e),
        }
    }

    open spec fn equiv(&self, o: &Self) -> bool {
        self@ == o@
    }

    fn encode(&self) -> (r: Json) {
        self.to_json()
    }

    fn decode(j: &Json) -> (r: Result<Self, DecodeError>) {
        MessageTopic::from_json(j)
    }

    proof fn lemma_round_trip(&self, j: Json) {
    }

    proof fn lemma_unique(&self, o: &Self, j: Json) {
    }
}

} // verus!
