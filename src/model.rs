use vstd::prelude::*;
use crate::json::{
    Json,
    DecodeError,
    lookup,
    member,
    get_member,
    field,
    lemma_lookup_first,
    lemma_lookup_skip,
};
use crate::codec::{names_within, lemma_lookup_push};
use crate::text::str_eq;
use crate::data_xsd::{
    DataTypeXSDef,
    DataXsd,
    xsd_name,
    xsd_from_name,
    payload_error,
    lemma_xsd_name_inverse,
    lemma_encoded_payload_decodes,
    lemma_payload_rel_unique,
};
use crate::reference::Reference;
use crate::primitives::{Identifier};
use crate::attributes::{HasDataSpecification, HasSemantics, Qualifiable, Referable, ModellingKind};
use crate::annotated::AnnotatedRelationshipElement;
use crate::elements::{
    Blob,
    Capability,
    File,
    MultiLanguageProperty,
    Property,
    ReferenceElement,
    RelationshipElement,
    BasicEventElement,
    SpecificAssetId,
};
use crate::codec::JsonCodec;

verus! {

broadcast use vstd::string::group_string_axioms;

/// The lower and upper bound of a range; a missing bound is unbounded.
#[derive(Clone, Debug, PartialEq, Default)]
pub struct RangeInner<T> {
    pub min: Option<T>,
    pub max: Option<T>,
}

/// A range of values of one value type. Floating kinds hold the literal
/// text of the numbers, the unbounded integer and decimal kinds their
/// decimal text, the date and time kinds their lexical form.
#[derive(Clone, Debug, PartialEq)]
pub enum Range {
    Int(RangeInner<i32>),
    Long(RangeInner<i64>),
    Integer(RangeInner<String>),
    NegativeInteger(RangeInner<String>),
    NonNegativeInteger(RangeInner<String>),
    NonPositiveInteger(RangeInner<String>),
    PositiveInteger(RangeInner<String>),
    Short(RangeInner<u16>),
    String(RangeInner<String>),
    Boolean(RangeInner<bool>),
    Byte(RangeInner<i8>),
    UnsignedByte(RangeInner<u8>),
    UnsignedInt(RangeInner<u32>),
    UnsignedLong(RangeInner<u64>),
    UnsignedShort(RangeInner<u16>),
    Decimal(RangeInner<String>),
    Float(RangeInner<String>),
    Double(RangeInner<String>),
    Time(RangeInner<String>),
    Date(RangeInner<String>),
    DateTime(RangeInner<String>),
    Duration(RangeInner<String>),
    GDay(RangeInner<String>),
    GMonth(RangeInner<String>),
    GMonthDay(RangeInner<String>),
    GYear(RangeInner<String>),
    GYearMonth(RangeInner<String>),
    Base64Binary(RangeInner<Vec<u8>>),
    HexBinary(RangeInner<Vec<u8>>),
    AnyURI(RangeInner<String>),
}

impl Range {
    /// The value type of the bounds.
    pub fn value_type(&self) -> (r: DataTypeXSDef)
        ensures
            r == range_value_type(*self),
    {
        match self {
            Range::Int(_) => DataTypeXSDef::Int,
            Range::Long(_) => DataTypeXSDef::Long,
            Range::Integer(_) => DataTypeXSDef::Integer,
            Range::NegativeInteger(_) => DataTypeXSDef::NegativeInteger,
            Range::NonNegativeInteger(_) => DataTypeXSDef::NonNegativeInteger,
            Range::NonPositiveInteger(_) => DataTypeXSDef::NonPositiveInteger,
            Range::PositiveInteger(_) => DataTypeXSDef::PositiveInteger,
            Range::Short(_) => DataTypeXSDef::Short,
            Range::String(_) => DataTypeXSDef::String,
            Range::Boolean(_) => DataTypeXSDef::Boolean,
            Range::Byte(_) => DataTypeXSDef::Byte,
            Range::UnsignedByte(_) => DataTypeXSDef::UnsignedByte,
            Range::UnsignedInt(_) => DataTypeXSDef::UnsignedInt,
            Range::UnsignedLong(_) => DataTypeXSDef::UnsignedLong,
            Range::UnsignedShort(_) => DataTypeXSDef::UnsignedShort,
            Range::Decimal(_) => DataTypeXSDef::Decimal,
            Range::Float(_) => DataTypeXSDef::Float,
            Range::Double(_) => DataTypeXSDef::Double,
            Range::Time(_) => DataTypeXSDef::Time,
            Range::Date(_) => DataTypeXSDef::Date,
            Range::DateTime(_) => DataTypeXSDef::DateTime,
            Range::Duration(_) => DataTypeXSDef::Duration,
            Range::GDay(_) => DataTypeXSDef::GDay,
            Range::GMonth(_) => DataTypeXSDef::GMonth,
            Range::GMonthDay(_) => DataTypeXSDef::GMonthDay,
            Range::GYear(_) => DataTypeXSDef::GYear,
            Range::GYearMonth(_) => DataTypeXSDef::GYearMonth,
            Range::Base64Binary(_) => DataTypeXSDef::Base64Binary,
            Range::HexBinary(_) => DataTypeXSDef::HexBinary,
            Range::AnyURI(_) => DataTypeXSDef::AnyURI,
        }
    }
}

/// The value type of the bounds of a range.
pub open spec fn range_value_type(r: Range) -> DataTypeXSDef {
    match r {
        Range::Int(_) => DataTypeXSDef::Int,
        Range::Long(_) => DataTypeXSDef::Long,
        Range::Integer(_) => DataTypeXSDef::Integer,
        Range::NegativeInteger(_) => DataTypeXSDef::NegativeInteger,
        Range::NonNegativeInteger(_) => DataTypeXSDef::NonNegativeInteger,
        Range::NonPositiveInteger(_) => DataTypeXSDef::NonPositiveInteger,
        Range::PositiveInteger(_) => DataTypeXSDef::PositiveInteger,
        Range::Short(_) => DataTypeXSDef::Short,
        Range::String(_) => DataTypeXSDef::String,
        Range::Boolean(_) => DataTypeXSDef::Boolean,
        Range::Byte(_) => DataTypeXSDef::Byte,
        Range::UnsignedByte(_) => DataTypeXSDef::UnsignedByte,
        Range::UnsignedInt(_) => DataTypeXSDef::UnsignedInt,
        Range::UnsignedLong(_) => DataTypeXSDef::UnsignedLong,
        Range::UnsignedShort(_) => DataTypeXSDef::UnsignedShort,
        Range::Decimal(_) => DataTypeXSDef::Decimal,
        Range::Float(_) => DataTypeXSDef::Float,
        Range::Double(_) => DataTypeXSDef::Double,
        Range::Time(_) => DataTypeXSDef::Time,
        Range::Date(_) => DataTypeXSDef::Date,
        Range::DateTime(_) => DataTypeXSDef::DateTime,
        Range::Duration(_) => DataTypeXSDef::Duration,
        Range::GDay(_) => DataTypeXSDef::GDay,
        Range::GMonth(_) => DataTypeXSDef::GMonth,
        Range::GMonthDay(_) => DataTypeXSDef::GMonthDay,
        Range::GYear(_) => DataTypeXSDef::GYear,
        Range::GYearMonth(_) => DataTypeXSDef::GYearMonth,
        Range::Base64Binary(_) => DataTypeXSDef::Base64Binary,
        Range::HexBinary(_) => DataTypeXSDef::HexBinary,
        Range::AnyURI(_) => DataTypeXSDef::AnyURI,
    }
}

/// The bound `min` (when `lower`) or `max` of a range, as a value of its
/// value type.
pub open spec fn range_bound(r: Range, lower: bool) -> DataXsd {
    match r {
        Range::Int(i) => DataXsd::Int(if lower { i.min } else { i.max }),
        Range::Long(i) => DataXsd::Long(if lower { i.min } else { i.max }),
        Range::Integer(i) => DataXsd::Integer(if lower { i.min } else { i.max }),
        Range::NegativeInteger(i) => DataXsd::NegativeInteger(if lower { i.min } else { i.max }),
        Range::NonNegativeInteger(i) => DataXsd::NonNegativeInteger(if lower { i.min } else { i.max }),
        Range::NonPositiveInteger(i) => DataXsd::NonPositiveInteger(if lower { i.min } else { i.max }),
        Range::PositiveInteger(i) => DataXsd::PositiveInteger(if lower { i.min } else { i.max }),
        Range::Short(i) => DataXsd::Short(if lower { i.min } else { i.max }),
        Range::String(i) => DataXsd::String(if lower { i.min } else { i.max }),
        Range::Boolean(i) => DataXsd::Boolean(if lower { i.min } else { i.max }),
        Range::Byte(i) => DataXsd::Byte(if lower { i.min } else { i.max }),
        Range::UnsignedByte(i) => DataXsd::UnsignedByte(if lower { i.min } else { i.max }),
        Range::UnsignedInt(i) => DataXsd::UnsignedInt(if lower { i.min } else { i.max }),
        Range::UnsignedLong(i) => DataXsd::UnsignedLong(if lower { i.min } else { i.max }),
        Range::UnsignedShort(i) => DataXsd::UnsignedShort(if lower { i.min } else { i.max }),
        Range::Decimal(i) => DataXsd::Decimal(if lower { i.min } else { i.max }),
        Range::Float(i) => DataXsd::Float(if lower { i.min } else { i.max }),
        Range::Double(i) => DataXsd::Double(if lower { i.min } else { i.max }),
        Range::Time(i) => DataXsd::Time(if lower { i.min } else { i.max }),
        Range::Date(i) => DataXsd::Date(if lower { i.min } else { i.max }),
        Range::DateTime(i) => DataXsd::DateTime(if lower { i.min } else { i.max }),
        Range::Duration(i) => DataXsd::Duration(if lower { i.min } else { i.max }),
        Range::GDay(i) => DataXsd::GDay(if lower { i.min } else { i.max }),
        Range::GMonth(i) => DataXsd::GMonth(if lower { i.min } else { i.max }),
        Range::GMonthDay(i) => DataXsd::GMonthDay(if lower { i.min } else { i.max }),
        Range::GYear(i) => DataXsd::GYear(if lower { i.min } else { i.max }),
        Range::GYearMonth(i) => DataXsd::GYearMonth(if lower { i.min } else { i.max }),
        Range::Base64Binary(i) => DataXsd::Base64Binary(if lower { i.min } else { i.max }),
        Range::HexBinary(i) => DataXsd::HexBinary(if lower { i.min } else { i.max }),
        Range::AnyURI(i) => DataXsd::AnyURI(if lower { i.min } else { i.max }),
    }
}

/// A name of the members of a range.
pub open spec fn range_name(n: Seq<char>) -> bool {
    n == "valueType"@ || n == "modelType"@ || n == "min"@ || n == "max"@
}

/// Looking up the member `k` finds what encoding writes for the bound `b`.
pub open spec fn bound_lookup(b: DataXsd, fs: Seq<(String, Json)>, k: Seq<char>) -> bool {
    if b.has_value() {
        lookup(fs, k) matches Some(j) && b.encoded_payload(j)
    } else {
        lookup(fs, k) is None
    }
}

/// `fs` are the members that encoding writes for the range `r`.
pub open spec fn range_encoded(r: Range, fs: Seq<(String, Json)>) -> bool {
    &&& names_within(fs, |n: Seq<char>| range_name(n))
    &&& lookup(fs, "valueType"@) matches Some(Json::Str(s)) && s@ == xsd_name(range_value_type(r))
    &&& lookup(fs, "modelType"@) matches Some(Json::Str(s)) && s@ == "Range"@
    &&& bound_lookup(range_bound(r, true), fs, "min"@)
    &&& bound_lookup(range_bound(r, false), fs, "max"@)
}

/// The members `fs` decode to the range `r`.
pub open spec fn range_rel(r: Range, fs: Seq<(String, Json)>) -> bool {
    &&& member(fs, "valueType"@) matches Some(Json::Str(s)) && s@ == xsd_name(range_value_type(r))
    &&& member(fs, "modelType"@) matches Some(Json::Str(s)) && s@ == "Range"@
    &&& range_bound(r, true).payload_rel(member(fs, "min"@))
    &&& range_bound(r, false).payload_rel(member(fs, "max"@))
}

/// The error, if any, of decoding the members `fs` as a range.
pub open spec fn range_error(fs: Seq<(String, Json)>) -> Option<DecodeError> {
    match member(fs, "valueType"@) {
        None => Some(DecodeError::MissingField),
        Some(Json::Str(s)) => match xsd_from_name(s@) {
            None => Some(DecodeError::UnknownDiscriminator),
            Some(t) => match member(fs, "modelType"@) {
                None => Some(DecodeError::MissingField),
                Some(Json::Str(m)) => if m@ != "Range"@ {
                    Some(DecodeError::UnknownDiscriminator)
                } else {
                    match payload_error(t, member(fs, "min"@)) {
                        Some(e) => Some(e),
                        None => payload_error(t, member(fs, "max"@)),
                    }
                },
                Some(_) => Some(DecodeError::UnexpectedKind),
            },
        },
        Some(_) => Some(DecodeError::UnexpectedKind),
    }
}

/// The bound of a range holds a text in the lexical space of its type.
pub open spec fn range_wf(r: Range) -> bool {
    range_bound(r, true).wf() && range_bound(r, false).wf()
}

/// Ranges of the same value type with equivalent bounds.
pub open spec fn range_equiv(a: Range, b: Range) -> bool {
    range_bound(a, true).equiv(range_bound(b, true)) && range_bound(a, false).equiv(range_bound(b, false))
}

/// The member written for the bound `b` of the class of its value type.
fn bound_json(b: &DataXsd) -> (r: Option<Json>)
    ensures
        match r {
            None => !b.has_value(),
            Some(j) => b.has_value() && b.encoded_payload(j),
        },
{
    b.encode_payload()
}

impl Range {
    /// The bounds of the range as values of its value type.
    fn bounds(&self) -> (r: (DataXsd, DataXsd))
        ensures
            r.0.value_type() == range_value_type(*self),
            r.0.has_value() == range_bound(*self, true).has_value(),
            r.0.has_value() ==> forall|j: Json| r.0.encoded_payload(j) == range_bound(*self, true).encoded_payload(j),
            r.1.has_value() == range_bound(*self, false).has_value(),
            r.1.has_value() ==> forall|j: Json| r.1.encoded_payload(j) == range_bound(*self, false).encoded_payload(j),
    {
        match self {
            Range::Int(i) => (DataXsd::Int(i.min), DataXsd::Int(i.max)),
            Range::Long(i) => (DataXsd::Long(i.min), DataXsd::Long(i.max)),
            Range::Integer(i) => (DataXsd::Integer(copy_text(&i.min)), DataXsd::Integer(copy_text(&i.max))),
            Range::NegativeInteger(i) => (DataXsd::NegativeInteger(copy_text(&i.min)), DataXsd::NegativeInteger(copy_text(&i.max))),
            Range::NonNegativeInteger(i) => (DataXsd::NonNegativeInteger(copy_text(&i.min)), DataXsd::NonNegativeInteger(copy_text(&i.max))),
            Range::NonPositiveInteger(i) => (DataXsd::NonPositiveInteger(copy_text(&i.min)), DataXsd::NonPositiveInteger(copy_text(&i.max))),
            Range::PositiveInteger(i) => (DataXsd::PositiveInteger(copy_text(&i.min)), DataXsd::PositiveInteger(copy_text(&i.max))),
            Range::Short(i) => (DataXsd::Short(i.min), DataXsd::Short(i.max)),
            Range::String(i) => (DataXsd::String(copy_text(&i.min)), DataXsd::String(copy_text(&i.max))),
            Range::Boolean(i) => (DataXsd::Boolean(i.min), DataXsd::Boolean(i.max)),
            Range::Byte(i) => (DataXsd::Byte(i.min), DataXsd::Byte(i.max)),
            Range::UnsignedByte(i) => (DataXsd::UnsignedByte(i.min), DataXsd::UnsignedByte(i.max)),
            Range::UnsignedInt(i) => (DataXsd::UnsignedInt(i.min), DataXsd::UnsignedInt(i.max)),
            Range::UnsignedLong(i) => (DataXsd::UnsignedLong(i.min), DataXsd::UnsignedLong(i.max)),
            Range::UnsignedShort(i) => (DataXsd::UnsignedShort(i.min), DataXsd::UnsignedShort(i.max)),
            Range::Decimal(i) => (DataXsd::Decimal(copy_text(&i.min)), DataXsd::Decimal(copy_text(&i.max))),
            Range::Float(i) => (DataXsd::Float(copy_text(&i.min)), DataXsd::Float(copy_text(&i.max))),
            Range::Double(i) => (DataXsd::Double(copy_text(&i.min)), DataXsd::Double(copy_text(&i.max))),
            Range::Time(i) => (DataXsd::Time(copy_text(&i.min)), DataXsd::Time(copy_text(&i.max))),
            Range::Date(i) => (DataXsd::Date(copy_text(&i.min)), DataXsd::Date(copy_text(&i.max))),
            Range::DateTime(i) => (DataXsd::DateTime(copy_text(&i.min)), DataXsd::DateTime(copy_text(&i.max))),
            Range::Duration(i) => (DataXsd::Duration(copy_text(&i.min)), DataXsd::Duration(copy_text(&i.max))),
            Range::GDay(i) => (DataXsd::GDay(copy_text(&i.min)), DataXsd::GDay(copy_text(&i.max))),
            Range::GMonth(i) => (DataXsd::GMonth(copy_text(&i.min)), DataXsd::GMonth(copy_text(&i.max))),
            Range::GMonthDay(i) => (DataXsd::GMonthDay(copy_text(&i.min)), DataXsd::GMonthDay(copy_text(&i.max))),
            Range::GYear(i) => (DataXsd::GYear(copy_text(&i.min)), DataXsd::GYear(copy_text(&i.max))),
            Range::GYearMonth(i) => (DataXsd::GYearMonth(copy_text(&i.min)), DataXsd::GYearMonth(copy_text(&i.max))),
            Range::Base64Binary(i) => (DataXsd::Base64Binary(copy_bytes(&i.min)), DataXsd::Base64Binary(copy_bytes(&i.max))),
            Range::HexBinary(i) => (DataXsd::HexBinary(copy_bytes(&i.min)), DataXsd::HexBinary(copy_bytes(&i.max))),
            Range::AnyURI(i) => (DataXsd::AnyURI(copy_text(&i.min)), DataXsd::AnyURI(copy_text(&i.max))),
        }
    }

    /// Writes `valueType`, `modelType` and the bounds that are present.
    pub fn encode_members(&self) -> (r: Vec<(String, Json)>)
        ensures
            range_encoded(*self, r@),
    {
        proof {
            reveal_strlit("valueType");
            reveal_strlit("modelType");
            reveal_strlit("min");
            reveal_strlit("max");
            assert("valueType"@[0] != "modelType"@[0]);
            assert("min"@[1] != "max"@[1]);
            assert("valueType"@.len() == 9 && "min"@.len() == 3);
        }
        let (lo, hi) = self.bounds();
        let mut fs: Vec<(String, Json)> = Vec::new();
        fs.push(field("valueType", Json::Str(self.value_type().name().to_string())));
        fs.push(field("modelType", Json::Str("Range".to_string())));
        let ghost base = fs@;
        assert(base =~= seq![base[0]] + seq![base[1]]);
        proof {
            lemma_lookup_first(seq![base[1]], base[0]);
            lemma_lookup_skip(seq![base[1]], base[0], "modelType"@);
            lemma_lookup_first(Seq::<(String, Json)>::empty(), base[1]);
            assert(seq![base[1]] =~= seq![base[1]] + Seq::<(String, Json)>::empty());
        }
        let ghost p0 = fs@;
        match bound_json(&lo) {
            Some(j) => {
                fs.push(field("min", j));
                proof {
                    lemma_lookup_push(p0, fs@.last(), "valueType"@);
                    lemma_lookup_push(p0, fs@.last(), "modelType"@);
                    lemma_lookup_push(p0, fs@.last(), "min"@);
                    lemma_lookup_push(p0, fs@.last(), "max"@);
                    assert(fs@ == p0.push(fs@.last()));
                }
            },
            None => {},
        }
        let ghost p1 = fs@;
        match bound_json(&hi) {
            Some(j) => {
                fs.push(field("max", j));
                proof {
                    lemma_lookup_push(p1, fs@.last(), "valueType"@);
                    lemma_lookup_push(p1, fs@.last(), "modelType"@);
                    lemma_lookup_push(p1, fs@.last(), "min"@);
                    lemma_lookup_push(p1, fs@.last(), "max"@);
                    assert(fs@ == p1.push(fs@.last()));
                }
            },
            None => {},
        }
        proof {
            assert(lookup(base, "min"@) is None) by {
                lemma_lookup_skip(seq![base[1]], base[0], "min"@);
                lemma_lookup_skip(Seq::<(String, Json)>::empty(), base[1], "min"@);
            }
            assert(lookup(base, "max"@) is None) by {
                lemma_lookup_skip(seq![base[1]], base[0], "max"@);
                lemma_lookup_skip(Seq::<(String, Json)>::empty(), base[1], "max"@);
            }
            assert forall|i: int| 0 <= i < fs@.len() implies range_name((#[trigger] fs@[i]).0@) by {
                if i >= 2 && i < p1.len() {
                    assert(fs@[i] == p1[i]);
                }
                if i < 2 {
                    assert(fs@[i] == base[i]);
                }
            }
        }
        fs
    }

    /// Reads a range from its members.
    pub fn decode_members(fs: &Vec<(String, Json)>) -> (r: Result<Range, DecodeError>)
        ensures
            match range_error(fs@) {
                Some(e) => r == Err::<Range, DecodeError>(e),
                None => r matches Ok(x) && range_rel(x, fs@),
            },
    {
        let t = match get_member(fs, "valueType") {
            None => return Err(DecodeError::MissingField),
            Some(Json::Str(s)) => match DataTypeXSDef::from_name(s.as_str()) {
                None => return Err(DecodeError::UnknownDiscriminator),
                Some(t) => t,
            },
            Some(_) => return Err(DecodeError::UnexpectedKind),
        };
        match get_member(fs, "modelType") {
            None => return Err(DecodeError::MissingField),
            Some(Json::Str(m)) => if !str_eq(m.as_str(), "Range") {
                return Err(DecodeError::UnknownDiscriminator);
            },
            Some(_) => return Err(DecodeError::UnexpectedKind),
        }
        let lo = match DataXsd::decode_payload(t, get_member(fs, "min")) {
            Ok(x) => x,
            Err(e) => return Err(e),
        };
        let hi = match DataXsd::decode_payload(t, get_member(fs, "max")) {
            Ok(x) => x,
            Err(e) => return Err(e),
        };
        match (lo, hi) {
            (DataXsd::Int(a), DataXsd::Int(b)) => Ok(Range::Int(RangeInner { min: a, max: b })),
            (DataXsd::Long(a), DataXsd::Long(b)) => Ok(Range::Long(RangeInner { min: a, max: b })),
            (DataXsd::Integer(a), DataXsd::Integer(b)) => Ok(Range::Integer(RangeInner { min: a, max: b })),
            (DataXsd::NegativeInteger(a), DataXsd::NegativeInteger(b)) => Ok(Range::NegativeInteger(RangeInner { min: a, max: b })),
            (DataXsd::NonNegativeInteger(a), DataXsd::NonNegativeInteger(b)) => Ok(Range::NonNegativeInteger(RangeInner { min: a, max: b })),
            (DataXsd::NonPositiveInteger(a), DataXsd::NonPositiveInteger(b)) => Ok(Range::NonPositiveInteger(RangeInner { min: a, max: b })),
            (DataXsd::PositiveInteger(a), DataXsd::PositiveInteger(b)) => Ok(Range::PositiveInteger(RangeInner { min: a, max: b })),
            (DataXsd::Short(a), DataXsd::Short(b)) => Ok(Range::Short(RangeInner { min: a, max: b })),
            (DataXsd::String(a), DataXsd::String(b)) => Ok(Range::String(RangeInner { min: a, max: b })),
            (DataXsd::Boolean(a), DataXsd::Boolean(b)) => Ok(Range::Boolean(RangeInner { min: a, max: b })),
            (DataXsd::Byte(a), DataXsd::Byte(b)) => Ok(Range::Byte(RangeInner { min: a, max: b })),
            (DataXsd::UnsignedByte(a), DataXsd::UnsignedByte(b)) => Ok(Range::UnsignedByte(RangeInner { min: a, max: b })),
            (DataXsd::UnsignedInt(a), DataXsd::UnsignedInt(b)) => Ok(Range::UnsignedInt(RangeInner { min: a, max: b })),
            (DataXsd::UnsignedLong(a), DataXsd::UnsignedLong(b)) => Ok(Range::UnsignedLong(RangeInner { min: a, max: b })),
            (DataXsd::UnsignedShort(a), DataXsd::UnsignedShort(b)) => Ok(Range::UnsignedShort(RangeInner { min: a, max: b })),
            (DataXsd::Decimal(a), DataXsd::Decimal(b)) => Ok(Range::Decimal(RangeInner { min: a, max: b })),
            (DataXsd::Float(a), DataXsd::Float(b)) => Ok(Range::Float(RangeInner { min: a, max: b })),
            (DataXsd::Double(a), DataXsd::Double(b)) => Ok(Range::Double(RangeInner { min: a, max: b })),
            (DataXsd::Time(a), DataXsd::Time(b)) => Ok(Range::Time(RangeInner { min: a, max: b })),
            (DataXsd::Date(a), DataXsd::Date(b)) => Ok(Range::Date(RangeInner { min: a, max: b })),
            (DataXsd::DateTime(a), DataXsd::DateTime(b)) => Ok(Range::DateTime(RangeInner { min: a, max: b })),
            (DataXsd::Duration(a), DataXsd::Duration(b)) => Ok(Range::Duration(RangeInner { min: a, max: b })),
            (DataXsd::GDay(a), DataXsd::GDay(b)) => Ok(Range::GDay(RangeInner { min: a, max: b })),
            (DataXsd::GMonth(a), DataXsd::GMonth(b)) => Ok(Range::GMonth(RangeInner { min: a, max: b })),
            (DataXsd::GMonthDay(a), DataXsd::GMonthDay(b)) => Ok(Range::GMonthDay(RangeInner { min: a, max: b })),
            (DataXsd::GYear(a), DataXsd::GYear(b)) => Ok(Range::GYear(RangeInner { min: a, max: b })),
            (DataXsd::GYearMonth(a), DataXsd::GYearMonth(b)) => Ok(Range::GYearMonth(RangeInner { min: a, max: b })),
            (DataXsd::Base64Binary(a), DataXsd::Base64Binary(b)) => Ok(Range::Base64Binary(RangeInner { min: a, max: b })),
            (DataXsd::HexBinary(a), DataXsd::HexBinary(b)) => Ok(Range::HexBinary(RangeInner { min: a, max: b })),
            (DataXsd::AnyURI(a), DataXsd::AnyURI(b)) => Ok(Range::AnyURI(RangeInner { min: a, max: b })),
            _ => Err(DecodeError::UnexpectedKind),
        }
    }
}

/// A copy of an optional text.
fn copy_text(o: &Option<String>) -> (r: Option<String>)
    ensures
        match (*o, r) {
            (None, None) => true,
            (Some(a), Some(b)) => a@ == b@,
            _ => false,
        },
{
    match o {
        Some(s) => Some(s.clone()),
        None => None,
    }
}

/// A copy of optional bytes.
fn copy_bytes(o: &Option<Vec<u8>>) -> (r: Option<Vec<u8>>)
    ensures
        match (*o, r) {
            (None, None) => true,
            (Some(a), Some(b)) => a@ == b@,
            _ => false,
        },
{
    match o {
        Some(v) => {
            let mut c: Vec<u8> = Vec::new();
            let mut i: usize = 0;
            while i < v.len()
                invariant
                    i <= v@.len(),
                    c@ == v@.subrange(0, i as int),
                decreases v@.len() - i,
            {
                c.push(v[i]);
                i += 1;
                assert(c@ =~= v@.subrange(0, i as int));
            }
            assert(c@ =~= v@);
            Some(c)
        },
        None => None,
    }
}

impl JsonCodec for Range {
    open spec fn wf(&self) -> bool {
        range_wf(*self)
    }

    open spec fn encoded(&self, j: Json) -> bool {
        j matches Json::Object(fs) && range_encoded(*self, fs@)
    }

    open spec fn rel(&self, j: Json) -> bool {
        j matches Json::Object(fs) && range_rel(*self, fs@)
    }

    open spec fn decode_error(j: Json) -> Option<DecodeError> {
        match j {
            Json::Object(fs) => range_error(fs@),
            _ => Some(DecodeError::UnexpectedKind),
        }
    }

    open spec fn equiv(&self, o: &Self) -> bool {
        range_equiv(*self, *o)
    }

    fn encode(&self) -> (r: Json) {
        Json::Object(self.encode_members())
    }

    fn decode(j: &Json) -> (r: Result<Self, DecodeError>) {
        match j {
            Json::Object(fs) => Range::decode_members(fs),
            _ => Err(DecodeError::UnexpectedKind),
        }
    }

    proof fn lemma_round_trip(&self, j: Json) {
        let fs = j->Object_0@;
        let t = range_value_type(*self);
        lemma_xsd_name_inverse(t);
        reveal_strlit("Range");
        let lo = range_bound(*self, true);
        let hi = range_bound(*self, false);
        assert(lo.value_type() == t && hi.value_type() == t);
        if lo.has_value() {
            lemma_encoded_payload_decodes(lo, lookup(fs, "min"@)->Some_0);
        }
        if hi.has_value() {
            lemma_encoded_payload_decodes(hi, lookup(fs, "max"@)->Some_0);
        }
    }

    proof fn lemma_unique(&self, o: &Self, j: Json) {
        let fs = j->Object_0@;
        lemma_xsd_name_inverse(range_value_type(*self));
        lemma_xsd_name_inverse(range_value_type(*o));
        lemma_payload_rel_unique(range_bound(*self, true), range_bound(*o, true), member(fs, "min"@));
        lemma_payload_rel_unique(range_bound(*self, false), range_bound(*o, false), member(fs, "max"@));
    }
}

/// The data elements: elements that hold a value.
#[derive(Clone, Debug, PartialEq)]
pub enum DataElement {
    Blob(Blob),
    File(File),
    MultiLanguageProperty(MultiLanguageProperty),
    Property(Property),
    Range(Range),
    ReferenceElement(ReferenceElement),
}

/// A set or list of submodel elements, of any kinds.
#[derive(Debug, PartialEq)]
pub struct SubmodelElementCollection {
    pub value: Option<Vec<SubmodelElement>>,
}

impl Default for SubmodelElementCollection {
    /// A collection without elements.
    fn default() -> (r: SubmodelElementCollection)
        ensures
            r.value is None,
    {
        SubmodelElementCollection { value: None }
    }
}

/// Whether the order of the elements of a list is relevant, when not said:
/// it is.
pub fn ordering_default() -> (r: bool)
    ensures
        r == true,
{
    true
}

/// An ordered list of submodel elements that all have the declared element
/// type and value type.
#[derive(Debug, PartialEq)]
pub struct SubmodelElementList {
    /// Whether the order of the elements is relevant; when not, the list is
    /// a set or a bag.
    pub is_order_relevant: bool,
    /// The elements of the list.
    pub value: Option<Vec<SubmodelElement>>,
    /// The semantic id that the elements of the list match.
    pub semantic_id_list_element: Option<Reference>,
    /// The element type of the elements of the list.
    pub type_value_list_element: Box<SubmodelElement>,
    /// The value type of the elements of the list.
    pub value_type_list_element: DataTypeXSDef,
}

/// The metamodel view of a list: its declarations without the elements.
#[derive(Debug, PartialEq)]
pub struct SubmodelElementListMeta {
    pub is_order_relevant: bool,
    pub semantic_id_list_element: Option<Reference>,
    pub type_value_list_element: Box<SubmodelElement>,
    pub value_type_list_element: DataTypeXSDef,
}

impl SubmodelElementListMeta {
    /// The declarations of a list, without its elements.
    pub fn from(full: SubmodelElementList) -> (r: SubmodelElementListMeta)
        ensures
            r.is_order_relevant == full.is_order_relevant,
            r.semantic_id_list_element == full.semantic_id_list_element,
            r.type_value_list_element == full.type_value_list_element,
            r.value_type_list_element == full.value_type_list_element,
    {
        SubmodelElementListMeta {
            is_order_relevant: full.is_order_relevant,
            semantic_id_list_element: full.semantic_id_list_element,
            type_value_list_element: full.type_value_list_element,
            value_type_list_element: full.value_type_list_element,
        }
    }
}

/// An operation with at most one input, output and in/out variable, each a
/// submodel element.
#[derive(Debug, PartialEq)]
pub struct Operation {
    pub referable: Referable,
    pub semantics: HasSemantics,
    pub qualifiable: Qualifiable,
    pub embedded_data_specifications: HasDataSpecification,
    pub input_variable: Option<Box<SubmodelElement>>,
    pub output_variable: Option<Box<SubmodelElement>>,
    pub inoutput_variable: Option<Box<SubmodelElement>>,
}

impl Default for Operation {
    /// An operation without attributes or variables.
    fn default() -> (r: Operation)
        ensures
            r.input_variable is None,
            r.output_variable is None,
            r.inoutput_variable is None,
    {
        Operation {
            referable: Referable::default(),
            semantics: HasSemantics::default(),
            qualifiable: Qualifiable::default(),
            embedded_data_specifications: HasDataSpecification::default(),
            input_variable: None,
            output_variable: None,
            inoutput_variable: None,
        }
    }
}

/// The statements and asset ids of an entity.
#[derive(Debug, PartialEq)]
pub struct EntityInner {
    /// Statements about the entity, each a submodel element.
    pub statement: Option<Vec<SubmodelElement>>,
    pub global_asset_id: Option<Identifier>,
    pub specific_asset_id: Option<Vec<SpecificAssetId>>,
}

/// A part of a composite asset: co-managed (no shell of its own) or
/// self-managed (with a shell of its own).
#[derive(Debug, PartialEq)]
pub enum Entity {
    CoManagedEntity(EntityInner),
    SelfManagedEntity(EntityInner),
}

/// The kinds of submodel element.
#[derive(Debug, PartialEq)]
pub enum SubmodelElement {
    RelationshipElement(RelationshipElement),
    AnnotatedRelationshipElement(AnnotatedRelationshipElement),
    BasicEventElement(BasicEventElement),
    Blob(Blob),
    Capability(Capability),
    DataElement(DataElement),
    Entity(Entity),
    File(File),
    MultiLanguageProperty(MultiLanguageProperty),
    Operation(Operation),
    Property(Property),
    Range(Range),
    ReferenceElement(ReferenceElement),
    SubmodelElementCollection(SubmodelElementCollection),
    SubmodelElementList(SubmodelElementList),
}

/// The `modelType` that a submodel element is written with.
pub open spec fn element_model_type(e: SubmodelElement) -> Seq<char> {
    match e {
        SubmodelElement::RelationshipElement(_) => "RelationshipElement"@,
        SubmodelElement::AnnotatedRelationshipElement(_) => "AnnotatedRelationshipElement"@,
        SubmodelElement::BasicEventElement(_) => "BasicEventElement"@,
        SubmodelElement::Blob(_) => "Blob"@,
        SubmodelElement::Capability(_) => "Capability"@,
        SubmodelElement::DataElement(_) => "DataElement"@,
        SubmodelElement::Entity(_) => "Entity"@,
        SubmodelElement::File(_) => "File"@,
        SubmodelElement::MultiLanguageProperty(_) => "MultiLanguageProperty"@,
        SubmodelElement::Operation(_) => "Operation"@,
        SubmodelElement::Property(_) => "Property"@,
        SubmodelElement::Range(_) => "Range"@,
        SubmodelElement::ReferenceElement(_) => "ReferenceElement"@,
        SubmodelElement::SubmodelElementCollection(_) => "SubmodelElementCollection"@,
        SubmodelElement::SubmodelElementList(_) => "SubmodelElementList"@,
    }
}

impl SubmodelElement {
    /// The `modelType` that the element is written with.
    pub fn model_type(&self) -> (r: &'static str)
        ensures
            r@ == element_model_type(*self),
    {
        match self {
            SubmodelElement::RelationshipElement(_) => "RelationshipElement",
            SubmodelElement::AnnotatedRelationshipElement(_) => "AnnotatedRelationshipElement",
            SubmodelElement::BasicEventElement(_) => "BasicEventElement",
            SubmodelElement::Blob(_) => "Blob",
            SubmodelElement::Capability(_) => "Capability",
            SubmodelElement::DataElement(_) => "DataElement",
            SubmodelElement::Entity(_) => "Entity",
            SubmodelElement::File(_) => "File",
            SubmodelElement::MultiLanguageProperty(_) => "MultiLanguageProperty",
            SubmodelElement::Operation(_) => "Operation",
            SubmodelElement::Property(_) => "Property",
            SubmodelElement::Range(_) => "Range",
            SubmodelElement::ReferenceElement(_) => "ReferenceElement",
            SubmodelElement::SubmodelElementCollection(_) => "SubmodelElementCollection",
            SubmodelElement::SubmodelElementList(_) => "SubmodelElementList",
        }
    }
}

/// Whether an element is a template or an instance.
#[derive(Clone, Debug, PartialEq)]
pub struct HasKind {
    pub kind: ModellingKind,
}

/// Errors of reading a modelling kind.
#[derive(Debug, PartialEq, Eq, Clone, Copy, Structural)]
pub enum ModellingKindError {
    UnknownValue,
}

impl ModellingKind {
    /// Reads `Instance` or `Template`.
    pub fn from_str(s: &str) -> (r: Result<ModellingKind, ModellingKindError>)
        ensures
            s@ == "Instance"@ ==> r == Ok::<ModellingKind, ModellingKindError>(ModellingKind::Instance),
            s@ == "Template"@ ==> r == Ok::<ModellingKind, ModellingKindError>(ModellingKind::Template),
            s@ != "Instance"@ && s@ != "Template"@ ==> r == Err::<ModellingKind, ModellingKindError>(
                ModellingKindError::UnknownValue,
            ),
    {
        proof {
            reveal_strlit("Instance");
            reveal_strlit("Template");
            assert("Instance"@[0] != "Template"@[0]);
        }
        match ModellingKind::from_wire(s) {
            Some(k) => Ok(k),
            None => Err(ModellingKindError::UnknownValue),
        }
    }
}

} // verus!
