use vstd::prelude::*;
use crate::json::{Json, DecodeError, opt_val, member, get_member, field, lookup, lemma_lookup_skip, lemma_lookup_first};
use crate::lexical::{int_text, decimal_parses, time_parses, date_parses, date_time_parses, iri_parses, int_to_text, decimal_accepts, base64_text, base64_bytes, hex_text, hex_bytes, base64_encode, base64_decode, encode_hex, decode_hex, lemma_hex_round_trip, time_accepts, date_accepts, date_time_accepts, iri_accepts};
use crate::text::str_eq;

verus! {

broadcast use vstd::string::group_string_axioms;

/// The value types of the XML Schema that values in the model can have.
#[derive(Debug, PartialEq, Eq, Clone, Copy, Structural)]
pub enum DataTypeXSDef {
    Int,
    Long,
    Integer,
    NegativeInteger,
    NonNegativeInteger,
    NonPositiveInteger,
    PositiveInteger,
    Short,
    String,
    Boolean,
    Byte,
    UnsignedByte,
    UnsignedInt,
    UnsignedLong,
    UnsignedShort,
    Decimal,
    Float,
    Double,
    Time,
    Date,
    DateTime,
    Duration,
    GDay,
    GMonth,
    GMonthDay,
    GYear,
    GYearMonth,
    Base64Binary,
    HexBinary,
    AnyURI,
}

/// The name of a value type on the wire.
pub open spec fn xsd_name(t: DataTypeXSDef) -> Seq<char> {
    match t {
        DataTypeXSDef::Int => "xs:int"@,
        DataTypeXSDef::Long => "xs:long"@,
        DataTypeXSDef::Integer => "xs:integer"@,
        DataTypeXSDef::NegativeInteger => "xs:negativeInteger"@,
        DataTypeXSDef::NonNegativeInteger => "xs:nonNegativeInteger"@,
        DataTypeXSDef::NonPositiveInteger => "xs:nonPositiveInteger"@,
        DataTypeXSDef::PositiveInteger => "xs:positiveInteger"@,
        DataTypeXSDef::Short => "xs:short"@,
        DataTypeXSDef::String => "xs:string"@,
        DataTypeXSDef::Boolean => "xs:boolean"@,
        DataTypeXSDef::Byte => "xs:byte"@,
        DataTypeXSDef::UnsignedByte => "xs:unsignedByte"@,
        DataTypeXSDef::UnsignedInt => "xs:unsignedInt"@,
        DataTypeXSDef::UnsignedLong => "xs:unsignedLong"@,
        DataTypeXSDef::UnsignedShort => "xs:unsignedShort"@,
        DataTypeXSDef::Decimal => "xs:decimal"@,
        DataTypeXSDef::Float => "xs:float"@,
        DataTypeXSDef::Double => "xs:double"@,
        DataTypeXSDef::Time => "xs:time"@,
        DataTypeXSDef::Date => "xs:date"@,
        DataTypeXSDef::DateTime => "xs:dateTime"@,
        DataTypeXSDef::Duration => "xs:duration"@,
        DataTypeXSDef::GDay => "xs:gDay"@,
        DataTypeXSDef::GMonth => "xs:gMonth"@,
        DataTypeXSDef::GMonthDay => "xs:gMonthDay"@,
        DataTypeXSDef::GYear => "xs:gYear"@,
        DataTypeXSDef::GYearMonth => "xs:gYearMonth"@,
        DataTypeXSDef::Base64Binary => "xs:base64Binary"@,
        DataTypeXSDef::HexBinary => "xs:hexBinary"@,
        DataTypeXSDef::AnyURI => "xs:anyURI"@,
    }
}

/// The value type that a wire name denotes, if any.
pub open spec fn xsd_from_name(s: Seq<char>) -> Option<DataTypeXSDef> {
    if s == "xs:int"@ {
        Some(DataTypeXSDef::Int)
    }
    else if s == "xs:long"@ {
        Some(DataTypeXSDef::Long)
    }
    else if s == "xs:integer"@ {
        Some(DataTypeXSDef::Integer)
    }
    else if s == "xs:negativeInteger"@ {
        Some(DataTypeXSDef::NegativeInteger)
    }
    else if s == "xs:nonNegativeInteger"@ {
        Some(DataTypeXSDef::NonNegativeInteger)
    }
    else if s == "xs:nonPositiveInteger"@ {
        Some(DataTypeXSDef::NonPositiveInteger)
    }
    else if s == "xs:positiveInteger"@ {
        Some(DataTypeXSDef::PositiveInteger)
    }
    else if s == "xs:short"@ {
        Some(DataTypeXSDef::Short)
    }
    else if s == "xs:string"@ {
        Some(DataTypeXSDef::String)
    }
    else if s == "xs:boolean"@ {
        Some(DataTypeXSDef::Boolean)
    }
    else if s == "xs:byte"@ {
        Some(DataTypeXSDef::Byte)
    }
    else if s == "xs:unsignedByte"@ {
        Some(DataTypeXSDef::UnsignedByte)
    }
    else if s == "xs:unsignedInt"@ {
        Some(DataTypeXSDef::UnsignedInt)
    }
    else if s == "xs:unsignedLong"@ {
        Some(DataTypeXSDef::UnsignedLong)
    }
    else if s == "xs:unsignedShort"@ {
        Some(DataTypeXSDef::UnsignedShort)
    }
    else if s == "xs:decimal"@ {
        Some(DataTypeXSDef::Decimal)
    }
    else if s == "xs:float"@ {
        Some(DataTypeXSDef::Float)
    }
    else if s == "xs:double"@ {
        Some(DataTypeXSDef::Double)
    }
    else if s == "xs:time"@ {
        Some(DataTypeXSDef::Time)
    }
    else if s == "xs:date"@ {
        Some(DataTypeXSDef::Date)
    }
    else if s == "xs:dateTime"@ {
        Some(DataTypeXSDef::DateTime)
    }
    else if s == "xs:duration"@ {
        Some(DataTypeXSDef::Duration)
    }
    else if s == "xs:gDay"@ {
        Some(DataTypeXSDef::GDay)
    }
    else if s == "xs:gMonth"@ {
        Some(DataTypeXSDef::GMonth)
    }
    else if s == "xs:gMonthDay"@ {
        Some(DataTypeXSDef::GMonthDay)
    }
    else if s == "xs:gYear"@ {
        Some(DataTypeXSDef::GYear)
    }
    else if s == "xs:gYearMonth"@ {
        Some(DataTypeXSDef::GYearMonth)
    }
    else if s == "xs:base64Binary"@ {
        Some(DataTypeXSDef::Base64Binary)
    }
    else if s == "xs:hexBinary"@ {
        Some(DataTypeXSDef::HexBinary)
    }
    else if s == "xs:anyURI"@ {
        Some(DataTypeXSDef::AnyURI)
    }
 else {
        None
    }
}

/// Each value type is found again from its wire name.
pub proof fn lemma_xsd_name_inverse(t: DataTypeXSDef)
    ensures
        xsd_from_name(xsd_name(t)) == Some(t),
{
    match t {
        DataTypeXSDef::Int => {
            reveal_strlit("xs:int");
            assert("xs:int"@.len() == 6);
        },
        DataTypeXSDef::Long => {
            reveal_strlit("xs:long");
            assert("xs:long"@.len() == 7);
            reveal_strlit("xs:int");
            assert("xs:int"@.len() == 6);
        },
        DataTypeXSDef::Integer => {
            reveal_strlit("xs:integer");
            assert("xs:integer"@.len() == 10);
            reveal_strlit("xs:int");
            assert("xs:int"@.len() == 6);
            reveal_strlit("xs:long");
            assert("xs:long"@.len() == 7);
        },
        DataTypeXSDef::NegativeInteger => {
            reveal_strlit("xs:negativeInteger");
            assert("xs:negativeInteger"@.len() == 18);
            reveal_strlit("xs:int");
            assert("xs:int"@.len() == 6);
            reveal_strlit("xs:long");
            assert("xs:long"@.len() == 7);
            reveal_strlit("xs:integer");
            assert("xs:integer"@.len() == 10);
        },
        DataTypeXSDef::NonNegativeInteger => {
            reveal_strlit("xs:nonNegativeInteger");
            assert("xs:nonNegativeInteger"@.len() == 21);
            reveal_strlit("xs:int");
            assert("xs:int"@.len() == 6);
            reveal_strlit("xs:long");
            assert("xs:long"@.len() == 7);
            reveal_strlit("xs:integer");
            assert("xs:integer"@.len() == 10);
            reveal_strlit("xs:negativeInteger");
            assert("xs:negativeInteger"@.len() == 18);
        },
        DataTypeXSDef::NonPositiveInteger => {
            reveal_strlit("xs:nonPositiveInteger");
            assert("xs:nonPositiveInteger"@.len() == 21);
            reveal_strlit("xs:int");
            assert("xs:int"@.len() == 6);
            reveal_strlit("xs:long");
            assert("xs:long"@.len() == 7);
            reveal_strlit("xs:integer");
            assert("xs:integer"@.len() == 10);
            reveal_strlit("xs:negativeInteger");
            assert("xs:negativeInteger"@.len() == 18);
            reveal_strlit("xs:nonNegativeInteger");
            assert("xs:nonPositiveInteger"@[6] != "xs:nonNegativeInteger"@[6]);
        },
        DataTypeXSDef::PositiveInteger => {
            reveal_strlit("xs:positiveInteger");
            assert("xs:positiveInteger"@.len() == 18);
            reveal_strlit("xs:int");
            assert("xs:int"@.len() == 6);
            reveal_strlit("xs:long");
            assert("xs:long"@.len() == 7);
            reveal_strlit("xs:integer");
            assert("xs:integer"@.len() == 10);
            reveal_strlit("xs:negativeInteger");
            assert("xs:positiveInteger"@[3] != "xs:negativeInteger"@[3]);
            reveal_strlit("xs:nonNegativeInteger");
            assert("xs:nonNegativeInteger"@.len() == 21);
            reveal_strlit("xs:nonPositiveInteger");
            assert("xs:nonPositiveInteger"@.len() == 21);
        },
        DataTypeXSDef::Short => {
            reveal_strlit("xs:short");
            assert("xs:short"@.len() == 8);
            reveal_strlit("xs:int");
            assert("xs:int"@.len() == 6);
            reveal_strlit("xs:long");
            assert("xs:long"@.len() == 7);
            reveal_strlit("xs:integer");
            assert("xs:integer"@.len() == 10);
            reveal_strlit("xs:negativeInteger");
            assert("xs:negativeInteger"@.len() == 18);
            reveal_strlit("xs:nonNegativeInteger");
            assert("xs:nonNegativeInteger"@.len() == 21);
            reveal_strlit("xs:nonPositiveInteger");
            assert("xs:nonPositiveInteger"@.len() == 21);
            reveal_strlit("xs:positiveInteger");
            assert("xs:positiveInteger"@.len() == 18);
        },
        DataTypeXSDef::String => {
            reveal_strlit("xs:string");
            assert("xs:string"@.len() == 9);
            reveal_strlit("xs:int");
            assert("xs:int"@.len() == 6);
            reveal_strlit("xs:long");
            assert("xs:long"@.len() == 7);
            reveal_strlit("xs:integer");
            assert("xs:integer"@.len() == 10);
            reveal_strlit("xs:negativeInteger");
            assert("xs:negativeInteger"@.len() == 18);
            reveal_strlit("xs:nonNegativeInteger");
            assert("xs:nonNegativeInteger"@.len() == 21);
            reveal_strlit("xs:nonPositiveInteger");
            assert("xs:nonPositiveInteger"@.len() == 21);
            reveal_strlit("xs:positiveInteger");
            assert("xs:positiveInteger"@.len() == 18);
            reveal_strlit("xs:short");
            assert("xs:short"@.len() == 8);
        },
        DataTypeXSDef::Boolean => {
            reveal_strlit("xs:boolean");
            assert("xs:boolean"@.len() == 10);
            reveal_strlit("xs:int");
            assert("xs:int"@.len() == 6);
            reveal_strlit("xs:long");
            assert("xs:long"@.len() == 7);
            reveal_strlit("xs:integer");
            assert("xs:boolean"@[3] != "xs:integer"@[3]);
            reveal_strlit("xs:negativeInteger");
            assert("xs:negativeInteger"@.len() == 18);
            reveal_strlit("xs:nonNegativeInteger");
            assert("xs:nonNegativeInteger"@.len() == 21);
            reveal_strlit("xs:nonPositiveInteger");
            assert("xs:nonPositiveInteger"@.len() == 21);
            reveal_strlit("xs:positiveInteger");
            assert("xs:positiveInteger"@.len() == 18);
            reveal_strlit("xs:short");
            assert("xs:short"@.len() == 8);
            reveal_strlit("xs:string");
            assert("xs:string"@.len() == 9);
        },
        DataTypeXSDef::Byte => {
            reveal_strlit("xs:byte");
            assert("xs:byte"@.len() == 7);
            reveal_strlit("xs:int");
            assert("xs:int"@.len() == 6);
            reveal_strlit("xs:long");
            assert("xs:byte"@[3] != "xs:long"@[3]);
            reveal_strlit("xs:integer");
            assert("xs:integer"@.len() == 10);
            reveal_strlit("xs:negativeInteger");
            assert("xs:negativeInteger"@.len() == 18);
            reveal_strlit("xs:nonNegativeInteger");
            assert("xs:nonNegativeInteger"@.len() == 21);
            reveal_strlit("xs:nonPositiveInteger");
            assert("xs:nonPositiveInteger"@.len() == 21);
            reveal_strlit("xs:positiveInteger");
            assert("xs:positiveInteger"@.len() == 18);
            reveal_strlit("xs:short");
            assert("xs:short"@.len() == 8);
            reveal_strlit("xs:string");
            assert("xs:string"@.len() == 9);
            reveal_strlit("xs:boolean");
            assert("xs:boolean"@.len() == 10);
        },
        DataTypeXSDef::UnsignedByte => {
            reveal_strlit("xs:unsignedByte");
            assert("xs:unsignedByte"@.len() == 15);
            reveal_strlit("xs:int");
            assert("xs:int"@.len() == 6);
            reveal_strlit("xs:long");
            assert("xs:long"@.len() == 7);
            reveal_strlit("xs:integer");
            assert("xs:integer"@.len() == 10);
            reveal_strlit("xs:negativeInteger");
            assert("xs:negativeInteger"@.len() == 18);
            reveal_strlit("xs:nonNegativeInteger");
            assert("xs:nonNegativeInteger"@.len() == 21);
            reveal_strlit("xs:nonPositiveInteger");
            assert("xs:nonPositiveInteger"@.len() == 21);
            reveal_strlit("xs:positiveInteger");
            assert("xs:positiveInteger"@.len() == 18);
            reveal_strlit("xs:short");
            assert("xs:short"@.len() == 8);
            reveal_strlit("xs:string");
            assert("xs:string"@.len() == 9);
            reveal_strlit("xs:boolean");
            assert("xs:boolean"@.len() == 10);
            reveal_strlit("xs:byte");
            assert("xs:byte"@.len() == 7);
        },
        DataTypeXSDef::UnsignedInt => {
            reveal_strlit("xs:unsignedInt");
            assert("xs:unsignedInt"@.len() == 14);
            reveal_strlit("xs:int");
            assert("xs:int"@.len() == 6);
            reveal_strlit("xs:long");
            assert("xs:long"@.len() == 7);
            reveal_strlit("xs:integer");
            assert("xs:integer"@.len() == 10);
            reveal_strlit("xs:negativeInteger");
            assert("xs:negativeInteger"@.len() == 18);
            reveal_strlit("xs:nonNegativeInteger");
            assert("xs:nonNegativeInteger"@.len() == 21);
            reveal_strlit("xs:nonPositiveInteger");
            assert("xs:nonPositiveInteger"@.len() == 21);
            reveal_strlit("xs:positiveInteger");
            assert("xs:positiveInteger"@.len() == 18);
            reveal_strlit("xs:short");
            assert("xs:short"@.len() == 8);
            reveal_strlit("xs:string");
            assert("xs:string"@.len() == 9);
            reveal_strlit("xs:boolean");
            assert("xs:boolean"@.len() == 10);
            reveal_strlit("xs:byte");
            assert("xs:byte"@.len() == 7);
            reveal_strlit("xs:unsignedByte");
            assert("xs:unsignedByte"@.len() == 15);
        },
        DataTypeXSDef::UnsignedLong => {
            reveal_strlit("xs:unsignedLong");
            assert("xs:unsignedLong"@.len() == 15);
            reveal_strlit("xs:int");
            assert("xs:int"@.len() == 6);
            reveal_strlit("xs:long");
            assert("xs:long"@.len() == 7);
            reveal_strlit("xs:integer");
            assert("xs:integer"@.len() == 10);
            reveal_strlit("xs:negativeInteger");
            assert("xs:negativeInteger"@.len() == 18);
            reveal_strlit("xs:nonNegativeInteger");
            assert("xs:nonNegativeInteger"@.len() == 21);
            reveal_strlit("xs:nonPositiveInteger");
            assert("xs:nonPositiveInteger"@.len() == 21);
            reveal_strlit("xs:positiveInteger");
            assert("xs:positiveInteger"@.len() == 18);
            reveal_strlit("xs:short");
            assert("xs:short"@.len() == 8);
            reveal_strlit("xs:string");
            assert("xs:string"@.len() == 9);
            reveal_strlit("xs:boolean");
            assert("xs:boolean"@.len() == 10);
            reveal_strlit("xs:byte");
            assert("xs:byte"@.len() == 7);
            reveal_strlit("xs:unsignedByte");
            assert("xs:unsignedLong"@[11] != "xs:unsignedByte"@[11]);
            reveal_strlit("xs:unsignedInt");
            assert("xs:unsignedInt"@.len() == 14);
        },
        DataTypeXSDef::UnsignedShort => {
            reveal_strlit("xs:unsignedShort");
            assert("xs:unsignedShort"@.len() == 16);
            reveal_strlit("xs:int");
            assert("xs:int"@.len() == 6);
            reveal_strlit("xs:long");
            assert("xs:long"@.len() == 7);
            reveal_strlit("xs:integer");
            assert("xs:integer"@.len() == 10);
            reveal_strlit("xs:negativeInteger");
            assert("xs:negativeInteger"@.len() == 18);
            reveal_strlit("xs:nonNegativeInteger");
            assert("xs:nonNegativeInteger"@.len() == 21);
            reveal_strlit("xs:nonPositiveInteger");
            assert("xs:nonPositiveInteger"@.len() == 21);
            reveal_strlit("xs:positiveInteger");
            assert("xs:positiveInteger"@.len() == 18);
            reveal_strlit("xs:short");
            assert("xs:short"@.len() == 8);
            reveal_strlit("xs:string");
            assert("xs:string"@.len() == 9);
            reveal_strlit("xs:boolean");
            assert("xs:boolean"@.len() == 10);
            reveal_strlit("xs:byte");
            assert("xs:byte"@.len() == 7);
            reveal_strlit("xs:unsignedByte");
            assert("xs:unsignedByte"@.len() == 15);
            reveal_strlit("xs:unsignedInt");
            assert("xs:unsignedInt"@.len() == 14);
            reveal_strlit("xs:unsignedLong");
            assert("xs:unsignedLong"@.len() == 15);
        },
        DataTypeXSDef::Decimal => {
            reveal_strlit("xs:decimal");
            assert("xs:decimal"@.len() == 10);
            reveal_strlit("xs:int");
            assert("xs:int"@.len() == 6);
            reveal_strlit("xs:long");
            assert("xs:long"@.len() == 7);
            reveal_strlit("xs:integer");
            assert("xs:decimal"@[3] != "xs:integer"@[3]);
            reveal_strlit("xs:negativeInteger");
            assert("xs:negativeInteger"@.len() == 18);
            reveal_strlit("xs:nonNegativeInteger");
            assert("xs:nonNegativeInteger"@.len() == 21);
            reveal_strlit("xs:nonPositiveInteger");
            assert("xs:nonPositiveInteger"@.len() == 21);
            reveal_strlit("xs:positiveInteger");
            assert("xs:positiveInteger"@.len() == 18);
            reveal_strlit("xs:short");
            assert("xs:short"@.len() == 8);
            reveal_strlit("xs:string");
            assert("xs:string"@.len() == 9);
            reveal_strlit("xs:boolean");
            assert("xs:decimal"@[3] != "xs:boolean"@[3]);
            reveal_strlit("xs:byte");
            assert("xs:byte"@.len() == 7);
            reveal_strlit("xs:unsignedByte");
            assert("xs:unsignedByte"@.len() == 15);
            reveal_strlit("xs:unsignedInt");
            assert("xs:unsignedInt"@.len() == 14);
            reveal_strlit("xs:unsignedLong");
            assert("xs:unsignedLong"@.len() == 15);
            reveal_strlit("xs:unsignedShort");
            assert("xs:unsignedShort"@.len() == 16);
        },
        DataTypeXSDef::Float => {
            reveal_strlit("xs:float");
            assert("xs:float"@.len() == 8);
            reveal_strlit("xs:int");
            assert("xs:int"@.len() == 6);
            reveal_strlit("xs:long");
            assert("xs:long"@.len() == 7);
            reveal_strlit("xs:integer");
            assert("xs:integer"@.len() == 10);
            reveal_strlit("xs:negativeInteger");
            assert("xs:negativeInteger"@.len() == 18);
            reveal_strlit("xs:nonNegativeInteger");
            assert("xs:nonNegativeInteger"@.len() == 21);
            reveal_strlit("xs:nonPositiveInteger");
            assert("xs:nonPositiveInteger"@.len() == 21);
            reveal_strlit("xs:positiveInteger");
            assert("xs:positiveInteger"@.len() == 18);
            reveal_strlit("xs:short");
            assert("xs:float"@[3] != "xs:short"@[3]);
            reveal_strlit("xs:string");
            assert("xs:string"@.len() == 9);
            reveal_strlit("xs:boolean");
            assert("xs:boolean"@.len() == 10);
            reveal_strlit("xs:byte");
            assert("xs:byte"@.len() == 7);
            reveal_strlit("xs:unsignedByte");
            assert("xs:unsignedByte"@.len() == 15);
            reveal_strlit("xs:unsignedInt");
            assert("xs:unsignedInt"@.len() == 14);
            reveal_strlit("xs:unsignedLong");
            assert("xs:unsignedLong"@.len() == 15);
            reveal_strlit("xs:unsignedShort");
            assert("xs:unsignedShort"@.len() == 16);
            reveal_strlit("xs:decimal");
            assert("xs:decimal"@.len() == 10);
        },
        DataTypeXSDef::Double => {
            reveal_strlit("xs:double");
            assert("xs:double"@.len() == 9);
            reveal_strlit("xs:int");
            assert("xs:int"@.len() == 6);
            reveal_strlit("xs:long");
            assert("xs:long"@.len() == 7);
            reveal_strlit("xs:integer");
            assert("xs:integer"@.len() == 10);
            reveal_strlit("xs:negativeInteger");
            assert("xs:negativeInteger"@.len() == 18);
            reveal_strlit("xs:nonNegativeInteger");
            assert("xs:nonNegativeInteger"@.len() == 21);
            reveal_strlit("xs:nonPositiveInteger");
            assert("xs:nonPositiveInteger"@.len() == 21);
            reveal_strlit("xs:positiveInteger");
            assert("xs:positiveInteger"@.len() == 18);
            reveal_strlit("xs:short");
            assert("xs:short"@.len() == 8);
            reveal_strlit("xs:string");
            assert("xs:double"@[3] != "xs:string"@[3]);
            reveal_strlit("xs:boolean");
            assert("xs:boolean"@.len() == 10);
            reveal_strlit("xs:byte");
            assert("xs:byte"@.len() == 7);
            reveal_strlit("xs:unsignedByte");
            assert("xs:unsignedByte"@.len() == 15);
            reveal_strlit("xs:unsignedInt");
            assert("xs:unsignedInt"@.len() == 14);
            reveal_strlit("xs:unsignedLong");
            assert("xs:unsignedLong"@.len() == 15);
            reveal_strlit("xs:unsignedShort");
            assert("xs:unsignedShort"@.len() == 16);
            reveal_strlit("xs:decimal");
            assert("xs:decimal"@.len() == 10);
            reveal_strlit("xs:float");
            assert("xs:float"@.len() == 8);
        },
        DataTypeXSDef::Time => {
            reveal_strlit("xs:time");
            assert("xs:time"@.len() == 7);
            reveal_strlit("xs:int");
            assert("xs:int"@.len() == 6);
            reveal_strlit("xs:long");
            assert("xs:time"@[3] != "xs:long"@[3]);
            reveal_strlit("xs:integer");
            assert("xs:integer"@.len() == 10);
            reveal_strlit("xs:negativeInteger");
            assert("xs:negativeInteger"@.len() == 18);
            reveal_strlit("xs:nonNegativeInteger");
            assert("xs:nonNegativeInteger"@.len() == 21);
            reveal_strlit("xs:nonPositiveInteger");
            assert("xs:nonPositiveInteger"@.len() == 21);
            reveal_strlit("xs:positiveInteger");
            assert("xs:positiveInteger"@.len() == 18);
            reveal_strlit("xs:short");
            assert("xs:short"@.len() == 8);
            reveal_strlit("xs:string");
            assert("xs:string"@.len() == 9);
            reveal_strlit("xs:boolean");
            assert("xs:boolean"@.len() == 10);
            reveal_strlit("xs:byte");
            assert("xs:time"@[3] != "xs:byte"@[3]);
            reveal_strlit("xs:unsignedByte");
            assert("xs:unsignedByte"@.len() == 15);
            reveal_strlit("xs:unsignedInt");
            assert("xs:unsignedInt"@.len() == 14);
            reveal_strlit("xs:unsignedLong");
            assert("xs:unsignedLong"@.len() == 15);
            reveal_strlit("xs:unsignedShort");
            assert("xs:unsignedShort"@.len() == 16);
            reveal_strlit("xs:decimal");
            assert("xs:decimal"@.len() == 10);
            reveal_strlit("xs:float");
            assert("xs:float"@.len() == 8);
            reveal_strlit("xs:double");
            assert("xs:double"@.len() == 9);
        },
        DataTypeXSDef::Date => {
            reveal_strlit("xs:date");
            assert("xs:date"@.len() == 7);
            reveal_strlit("xs:int");
            assert("xs:int"@.len() == 6);
            reveal_strlit("xs:long");
            assert("xs:date"@[3] != "xs:long"@[3]);
            reveal_strlit("xs:integer");
            assert("xs:integer"@.len() == 10);
            reveal_strlit("xs:negativeInteger");
            assert("xs:negativeInteger"@.len() == 18);
            reveal_strlit("xs:nonNegativeInteger");
            assert("xs:nonNegativeInteger"@.len() == 21);
            reveal_strlit("xs:nonPositiveInteger");
            assert("xs:nonPositiveInteger"@.len() == 21);
            reveal_strlit("xs:positiveInteger");
            assert("xs:positiveInteger"@.len() == 18);
            reveal_strlit("xs:short");
            assert("xs:short"@.len() == 8);
            reveal_strlit("xs:string");
            assert("xs:string"@.len() == 9);
            reveal_strlit("xs:boolean");
            assert("xs:boolean"@.len() == 10);
            reveal_strlit("xs:byte");
            assert("xs:date"@[3] != "xs:byte"@[3]);
            reveal_strlit("xs:unsignedByte");
            assert("xs:unsignedByte"@.len() == 15);
            reveal_strlit("xs:unsignedInt");
            assert("xs:unsignedInt"@.len() == 14);
            reveal_strlit("xs:unsignedLong");
            assert("xs:unsignedLong"@.len() == 15);
            reveal_strlit("xs:unsignedShort");
            assert("xs:unsignedShort"@.len() == 16);
            reveal_strlit("xs:decimal");
            assert("xs:decimal"@.len() == 10);
            reveal_strlit("xs:float");
            assert("xs:float"@.len() == 8);
            reveal_strlit("xs:double");
            assert("xs:double"@.len() == 9);
            reveal_strlit("xs:time");
            assert("xs:date"@[3] != "xs:time"@[3]);
        },
        DataTypeXSDef::DateTime => {
            reveal_strlit("xs:dateTime");
            assert("xs:dateTime"@.len() == 11);
            reveal_strlit("xs:int");
            assert("xs:int"@.len() == 6);
            reveal_strlit("xs:long");
            assert("xs:long"@.len() == 7);
            reveal_strlit("xs:integer");
            assert("xs:integer"@.len() == 10);
            reveal_strlit("xs:negativeInteger");
            assert("xs:negativeInteger"@.len() == 18);
            reveal_strlit("xs:nonNegativeInteger");
            assert("xs:nonNegativeInteger"@.len() == 21);
            reveal_strlit("xs:nonPositiveInteger");
            assert("xs:nonPositiveInteger"@.len() == 21);
            reveal_strlit("xs:positiveInteger");
            assert("xs:positiveInteger"@.len() == 18);
            reveal_strlit("xs:short");
            assert("xs:short"@.len() == 8);
            reveal_strlit("xs:string");
            assert("xs:string"@.len() == 9);
            reveal_strlit("xs:boolean");
            assert("xs:boolean"@.len() == 10);
            reveal_strlit("xs:byte");
            assert("xs:byte"@.len() == 7);
            reveal_strlit("xs:unsignedByte");
            assert("xs:unsignedByte"@.len() == 15);
            reveal_strlit("xs:unsignedInt");
            assert("xs:unsignedInt"@.len() == 14);
            reveal_strlit("xs:unsignedLong");
            assert("xs:unsignedLong"@.len() == 15);
            reveal_strlit("xs:unsignedShort");
            assert("xs:unsignedShort"@.len() == 16);
            reveal_strlit("xs:decimal");
            assert("xs:decimal"@.len() == 10);
            reveal_strlit("xs:float");
            assert("xs:float"@.len() == 8);
            reveal_strlit("xs:double");
            assert("xs:double"@.len() == 9);
            reveal_strlit("xs:time");
            assert("xs:time"@.len() == 7);
            reveal_strlit("xs:date");
            assert("xs:date"@.len() == 7);
        },
        DataTypeXSDef::Duration => {
            reveal_strlit("xs:duration");
            assert("xs:duration"@.len() == 11);
            reveal_strlit("xs:int");
            assert("xs:int"@.len() == 6);
            reveal_strlit("xs:long");
            assert("xs:long"@.len() == 7);
            reveal_strlit("xs:integer");
            assert("xs:integer"@.len() == 10);
            reveal_strlit("xs:negativeInteger");
            assert("xs:negativeInteger"@.len() == 18);
            reveal_strlit("xs:nonNegativeInteger");
            assert("xs:nonNegativeInteger"@.len() == 21);
            reveal_strlit("xs:nonPositiveInteger");
            assert("xs:nonPositiveInteger"@.len() == 21);
            reveal_strlit("xs:positiveInteger");
            assert("xs:positiveInteger"@.len() == 18);
            reveal_strlit("xs:short");
            assert("xs:short"@.len() == 8);
            reveal_strlit("xs:string");
            assert("xs:string"@.len() == 9);
            reveal_strlit("xs:boolean");
            assert("xs:boolean"@.len() == 10);
            reveal_strlit("xs:byte");
            assert("xs:byte"@.len() == 7);
            reveal_strlit("xs:unsignedByte");
            assert("xs:unsignedByte"@.len() == 15);
            reveal_strlit("xs:unsignedInt");
            assert("xs:unsignedInt"@.len() == 14);
            reveal_strlit("xs:unsignedLong");
            assert("xs:unsignedLong"@.len() == 15);
            reveal_strlit("xs:unsignedShort");
            assert("xs:unsignedShort"@.len() == 16);
            reveal_strlit("xs:decimal");
            assert("xs:decimal"@.len() == 10);
            reveal_strlit("xs:float");
            assert("xs:float"@.len() == 8);
            reveal_strlit("xs:double");
            assert("xs:double"@.len() == 9);
            reveal_strlit("xs:time");
            assert("xs:time"@.len() == 7);
            reveal_strlit("xs:date");
            assert("xs:date"@.len() == 7);
            reveal_strlit("xs:dateTime");
            assert("xs:duration"@[4] != "xs:dateTime"@[4]);
        },
        DataTypeXSDef::GDay => {
            reveal_strlit("xs:gDay");
            assert("xs:gDay"@.len() == 7);
            reveal_strlit("xs:int");
            assert("xs:int"@.len() == 6);
            reveal_strlit("xs:long");
            assert("xs:gDay"@[3] != "xs:long"@[3]);
            reveal_strlit("xs:integer");
            assert("xs:integer"@.len() == 10);
            reveal_strlit("xs:negativeInteger");
            assert("xs:negativeInteger"@.len() == 18);
            reveal_strlit("xs:nonNegativeInteger");
            assert("xs:nonNegativeInteger"@.len() == 21);
            reveal_strlit("xs:nonPositiveInteger");
            assert("xs:nonPositiveInteger"@.len() == 21);
            reveal_strlit("xs:positiveInteger");
            assert("xs:positiveInteger"@.len() == 18);
            reveal_strlit("xs:short");
            assert("xs:short"@.len() == 8);
            reveal_strlit("xs:string");
            assert("xs:string"@.len() == 9);
            reveal_strlit("xs:boolean");
            assert("xs:boolean"@.len() == 10);
            reveal_strlit("xs:byte");
            assert("xs:gDay"@[3] != "xs:byte"@[3]);
            reveal_strlit("xs:unsignedByte");
            assert("xs:unsignedByte"@.len() == 15);
            reveal_strlit("xs:unsignedInt");
            assert("xs:unsignedInt"@.len() == 14);
            reveal_strlit("xs:unsignedLong");
            assert("xs:unsignedLong"@.len() == 15);
            reveal_strlit("xs:unsignedShort");
            assert("xs:unsignedShort"@.len() == 16);
            reveal_strlit("xs:decimal");
            assert("xs:decimal"@.len() == 10);
            reveal_strlit("xs:float");
            assert("xs:float"@.len() == 8);
            reveal_strlit("xs:double");
            assert("xs:double"@.len() == 9);
            reveal_strlit("xs:time");
            assert("xs:gDay"@[3] != "xs:time"@[3]);
            reveal_strlit("xs:date");
            assert("xs:gDay"@[3] != "xs:date"@[3]);
            reveal_strlit("xs:dateTime");
            assert("xs:dateTime"@.len() == 11);
            reveal_strlit("xs:duration");
            assert("xs:duration"@.len() == 11);
        },
        DataTypeXSDef::GMonth => {
            reveal_strlit("xs:gMonth");
            assert("xs:gMonth"@.len() == 9);
            reveal_strlit("xs:int");
            assert("xs:int"@.len() == 6);
            reveal_strlit("xs:long");
            assert("xs:long"@.len() == 7);
            reveal_strlit("xs:integer");
            assert("xs:integer"@.len() == 10);
            reveal_strlit("xs:negativeInteger");
            assert("xs:negativeInteger"@.len() == 18);
            reveal_strlit("xs:nonNegativeInteger");
            assert("xs:nonNegativeInteger"@.len() == 21);
            reveal_strlit("xs:nonPositiveInteger");
            assert("xs:nonPositiveInteger"@.len() == 21);
            reveal_strlit("xs:positiveInteger");
            assert("xs:positiveInteger"@.len() == 18);
            reveal_strlit("xs:short");
            assert("xs:short"@.len() == 8);
            reveal_strlit("xs:string");
            assert("xs:gMonth"@[3] != "xs:string"@[3]);
            reveal_strlit("xs:boolean");
            assert("xs:boolean"@.len() == 10);
            reveal_strlit("xs:byte");
            assert("xs:byte"@.len() == 7);
            reveal_strlit("xs:unsignedByte");
            assert("xs:unsignedByte"@.len() == 15);
            reveal_strlit("xs:unsignedInt");
            assert("xs:unsignedInt"@.len() == 14);
            reveal_strlit("xs:unsignedLong");
            assert("xs:unsignedLong"@.len() == 15);
            reveal_strlit("xs:unsignedShort");
            assert("xs:unsignedShort"@.len() == 16);
            reveal_strlit("xs:decimal");
            assert("xs:decimal"@.len() == 10);
            reveal_strlit("xs:float");
            assert("xs:float"@.len() == 8);
            reveal_strlit("xs:double");
            assert("xs:gMonth"@[3] != "xs:double"@[3]);
            reveal_strlit("xs:time");
            assert("xs:time"@.len() == 7);
            reveal_strlit("xs:date");
            assert("xs:date"@.len() == 7);
            reveal_strlit("xs:dateTime");
            assert("xs:dateTime"@.len() == 11);
            reveal_strlit("xs:duration");
            assert("xs:duration"@.len() == 11);
            reveal_strlit("xs:gDay");
            assert("xs:gDay"@.len() == 7);
        },
        DataTypeXSDef::GMonthDay => {
            reveal_strlit("xs:gMonthDay");
            assert("xs:gMonthDay"@.len() == 12);
            reveal_strlit("xs:int");
            assert("xs:int"@.len() == 6);
            reveal_strlit("xs:long");
            assert("xs:long"@.len() == 7);
            reveal_strlit("xs:integer");
            assert("xs:integer"@.len() == 10);
            reveal_strlit("xs:negativeInteger");
            assert("xs:negativeInteger"@.len() == 18);
            reveal_strlit("xs:nonNegativeInteger");
            assert("xs:nonNegativeInteger"@.len() == 21);
            reveal_strlit("xs:nonPositiveInteger");
            assert("xs:nonPositiveInteger"@.len() == 21);
            reveal_strlit("xs:positiveInteger");
            assert("xs:positiveInteger"@.len() == 18);
            reveal_strlit("xs:short");
            assert("xs:short"@.len() == 8);
            reveal_strlit("xs:string");
            assert("xs:string"@.len() == 9);
            reveal_strlit("xs:boolean");
            assert("xs:boolean"@.len() == 10);
            reveal_strlit("xs:byte");
            assert("xs:byte"@.len() == 7);
            reveal_strlit("xs:unsignedByte");
            assert("xs:unsignedByte"@.len() == 15);
            reveal_strlit("xs:unsignedInt");
            assert("xs:unsignedInt"@.len() == 14);
            reveal_strlit("xs:unsignedLong");
            assert("xs:unsignedLong"@.len() == 15);
            reveal_strlit("xs:unsignedShort");
            assert("xs:unsignedShort"@.len() == 16);
            reveal_strlit("xs:decimal");
            assert("xs:decimal"@.len() == 10);
            reveal_strlit("xs:float");
            assert("xs:float"@.len() == 8);
            reveal_strlit("xs:double");
            assert("xs:double"@.len() == 9);
            reveal_strlit("xs:time");
            assert("xs:time"@.len() == 7);
            reveal_strlit("xs:date");
            assert("xs:date"@.len() == 7);
            reveal_strlit("xs:dateTime");
            assert("xs:dateTime"@.len() == 11);
            reveal_strlit("xs:duration");
            assert("xs:duration"@.len() == 11);
            reveal_strlit("xs:gDay");
            assert("xs:gDay"@.len() == 7);
            reveal_strlit("xs:gMonth");
            assert("xs:gMonth"@.len() == 9);
        },
        DataTypeXSDef::GYear => {
            reveal_strlit("xs:gYear");
            assert("xs:gYear"@.len() == 8);
            reveal_strlit("xs:int");
            assert("xs:int"@.len() == 6);
            reveal_strlit("xs:long");
            assert("xs:long"@.len() == 7);
            reveal_strlit("xs:integer");
            assert("xs:integer"@.len() == 10);
            reveal_strlit("xs:negativeInteger");
            assert("xs:negativeInteger"@.len() == 18);
            reveal_strlit("xs:nonNegativeInteger");
            assert("xs:nonNegativeInteger"@.len() == 21);
            reveal_strlit("xs:nonPositiveInteger");
            assert("xs:nonPositiveInteger"@.len() == 21);
            reveal_strlit("xs:positiveInteger");
            assert("xs:positiveInteger"@.len() == 18);
            reveal_strlit("xs:short");
            assert("xs:gYear"@[3] != "xs:short"@[3]);
            reveal_strlit("xs:string");
            assert("xs:string"@.len() == 9);
            reveal_strlit("xs:boolean");
            assert("xs:boolean"@.len() == 10);
            reveal_strlit("xs:byte");
            assert("xs:byte"@.len() == 7);
            reveal_strlit("xs:unsignedByte");
            assert("xs:unsignedByte"@.len() == 15);
            reveal_strlit("xs:unsignedInt");
            assert("xs:unsignedInt"@.len() == 14);
            reveal_strlit("xs:unsignedLong");
            assert("xs:unsignedLong"@.len() == 15);
            reveal_strlit("xs:unsignedShort");
            assert("xs:unsignedShort"@.len() == 16);
            reveal_strlit("xs:decimal");
            assert("xs:decimal"@.len() == 10);
            reveal_strlit("xs:float");
            assert("xs:gYear"@[3] != "xs:float"@[3]);
            reveal_strlit("xs:double");
            assert("xs:double"@.len() == 9);
            reveal_strlit("xs:time");
            assert("xs:time"@.len() == 7);
            reveal_strlit("xs:date");
            assert("xs:date"@.len() == 7);
            reveal_strlit("xs:dateTime");
            assert("xs:dateTime"@.len() == 11);
            reveal_strlit("xs:duration");
            assert("xs:duration"@.len() == 11);
            reveal_strlit("xs:gDay");
            assert("xs:gDay"@.len() == 7);
            reveal_strlit("xs:gMonth");
            assert("xs:gMonth"@.len() == 9);
            reveal_strlit("xs:gMonthDay");
            assert("xs:gMonthDay"@.len() == 12);
        },
        DataTypeXSDef::GYearMonth => {
            reveal_strlit("xs:gYearMonth");
            assert("xs:gYearMonth"@.len() == 13);
            reveal_strlit("xs:int");
            assert("xs:int"@.len() == 6);
            reveal_strlit("xs:long");
            assert("xs:long"@.len() == 7);
            reveal_strlit("xs:integer");
            assert("xs:integer"@.len() == 10);
            reveal_strlit("xs:negativeInteger");
            assert("xs:negativeInteger"@.len() == 18);
            reveal_strlit("xs:nonNegativeInteger");
            assert("xs:nonNegativeInteger"@.len() == 21);
            reveal_strlit("xs:nonPositiveInteger");
            assert("xs:nonPositiveInteger"@.len() == 21);
            reveal_strlit("xs:positiveInteger");
            assert("xs:positiveInteger"@.len() == 18);
            reveal_strlit("xs:short");
            assert("xs:short"@.len() == 8);
            reveal_strlit("xs:string");
            assert("xs:string"@.len() == 9);
            reveal_strlit("xs:boolean");
            assert("xs:boolean"@.len() == 10);
            reveal_strlit("xs:byte");
            assert("xs:byte"@.len() == 7);
            reveal_strlit("xs:unsignedByte");
            assert("xs:unsignedByte"@.len() == 15);
            reveal_strlit("xs:unsignedInt");
            assert("xs:unsignedInt"@.len() == 14);
            reveal_strlit("xs:unsignedLong");
            assert("xs:unsignedLong"@.len() == 15);
            reveal_strlit("xs:unsignedShort");
            assert("xs:unsignedShort"@.len() == 16);
            reveal_strlit("xs:decimal");
            assert("xs:decimal"@.len() == 10);
            reveal_strlit("xs:float");
            assert("xs:float"@.len() == 8);
            reveal_strlit("xs:double");
            assert("xs:double"@.len() == 9);
            reveal_strlit("xs:time");
            assert("xs:time"@.len() == 7);
            reveal_strlit("xs:date");
            assert("xs:date"@.len() == 7);
            reveal_strlit("xs:dateTime");
            assert("xs:dateTime"@.len() == 11);
            reveal_strlit("xs:duration");
            assert("xs:duration"@.len() == 11);
            reveal_strlit("xs:gDay");
            assert("xs:gDay"@.len() == 7);
            reveal_strlit("xs:gMonth");
            assert("xs:gMonth"@.len() == 9);
            reveal_strlit("xs:gMonthDay");
            assert("xs:gMonthDay"@.len() == 12);
            reveal_strlit("xs:gYear");
            assert("xs:gYear"@.len() == 8);
        },
        DataTypeXSDef::Base64Binary => {
            reveal_strlit("xs:base64Binary");
            assert("xs:base64Binary"@.len() == 15);
            reveal_strlit("xs:int");
            assert("xs:int"@.len() == 6);
            reveal_strlit("xs:long");
            assert("xs:long"@.len() == 7);
            reveal_strlit("xs:integer");
            assert("xs:integer"@.len() == 10);
            reveal_strlit("xs:negativeInteger");
            assert("xs:negativeInteger"@.len() == 18);
            reveal_strlit("xs:nonNegativeInteger");
            assert("xs:nonNegativeInteger"@.len() == 21);
            reveal_strlit("xs:nonPositiveInteger");
            assert("xs:nonPositiveInteger"@.len() == 21);
            reveal_strlit("xs:positiveInteger");
            assert("xs:positiveInteger"@.len() == 18);
            reveal_strlit("xs:short");
            assert("xs:short"@.len() == 8);
            reveal_strlit("xs:string");
            assert("xs:string"@.len() == 9);
            reveal_strlit("xs:boolean");
            assert("xs:boolean"@.len() == 10);
            reveal_strlit("xs:byte");
            assert("xs:byte"@.len() == 7);
            reveal_strlit("xs:unsignedByte");
            assert("xs:base64Binary"@[3] != "xs:unsignedByte"@[3]);
            reveal_strlit("xs:unsignedInt");
            assert("xs:unsignedInt"@.len() == 14);
            reveal_strlit("xs:unsignedLong");
            assert("xs:base64Binary"@[3] != "xs:unsignedLong"@[3]);
            reveal_strlit("xs:unsignedShort");
            assert("xs:unsignedShort"@.len() == 16);
            reveal_strlit("xs:decimal");
            assert("xs:decimal"@.len() == 10);
            reveal_strlit("xs:float");
            assert("xs:float"@.len() == 8);
            reveal_strlit("xs:double");
            assert("xs:double"@.len() == 9);
            reveal_strlit("xs:time");
            assert("xs:time"@.len() == 7);
            reveal_strlit("xs:date");
            assert("xs:date"@.len() == 7);
            reveal_strlit("xs:dateTime");
            assert("xs:dateTime"@.len() == 11);
            reveal_strlit("xs:duration");
            assert("xs:duration"@.len() == 11);
            reveal_strlit("xs:gDay");
            assert("xs:gDay"@.len() == 7);
            reveal_strlit("xs:gMonth");
            assert("xs:gMonth"@.len() == 9);
            reveal_strlit("xs:gMonthDay");
            assert("xs:gMonthDay"@.len() == 12);
            reveal_strlit("xs:gYear");
            assert("xs:gYear"@.len() == 8);
            reveal_strlit("xs:gYearMonth");
            assert("xs:gYearMonth"@.len() == 13);
        },
        DataTypeXSDef::HexBinary => {
            reveal_strlit("xs:hexBinary");
            assert("xs:hexBinary"@.len() == 12);
            reveal_strlit("xs:int");
            assert("xs:int"@.len() == 6);
            reveal_strlit("xs:long");
            assert("xs:long"@.len() == 7);
            reveal_strlit("xs:integer");
            assert("xs:integer"@.len() == 10);
            reveal_strlit("xs:negativeInteger");
            assert("xs:negativeInteger"@.len() == 18);
            reveal_strlit("xs:nonNegativeInteger");
            assert("xs:nonNegativeInteger"@.len() == 21);
            reveal_strlit("xs:nonPositiveInteger");
            assert("xs:nonPositiveInteger"@.len() == 21);
            reveal_strlit("xs:positiveInteger");
            assert("xs:positiveInteger"@.len() == 18);
            reveal_strlit("xs:short");
            assert("xs:short"@.len() == 8);
            reveal_strlit("xs:string");
            assert("xs:string"@.len() == 9);
            reveal_strlit("xs:boolean");
            assert("xs:boolean"@.len() == 10);
            reveal_strlit("xs:byte");
            assert("xs:byte"@.len() == 7);
            reveal_strlit("xs:unsignedByte");
            assert("xs:unsignedByte"@.len() == 15);
            reveal_strlit("xs:unsignedInt");
            assert("xs:unsignedInt"@.len() == 14);
            reveal_strlit("xs:unsignedLong");
            assert("xs:unsignedLong"@.len() == 15);
            reveal_strlit("xs:unsignedShort");
            assert("xs:unsignedShort"@.len() == 16);
            reveal_strlit("xs:decimal");
            assert("xs:decimal"@.len() == 10);
            reveal_strlit("xs:float");
            assert("xs:float"@.len() == 8);
            reveal_strlit("xs:double");
            assert("xs:double"@.len() == 9);
            reveal_strlit("xs:time");
            assert("xs:time"@.len() == 7);
            reveal_strlit("xs:date");
            assert("xs:date"@.len() == 7);
            reveal_strlit("xs:dateTime");
            assert("xs:dateTime"@.len() == 11);
            reveal_strlit("xs:duration");
            assert("xs:duration"@.len() == 11);
            reveal_strlit("xs:gDay");
            assert("xs:gDay"@.len() == 7);
            reveal_strlit("xs:gMonth");
            assert("xs:gMonth"@.len() == 9);
            reveal_strlit("xs:gMonthDay");
            assert("xs:hexBinary"@[3] != "xs:gMonthDay"@[3]);
            reveal_strlit("xs:gYear");
            assert("xs:gYear"@.len() == 8);
            reveal_strlit("xs:gYearMonth");
            assert("xs:gYearMonth"@.len() == 13);
            reveal_strlit("xs:base64Binary");
            assert("xs:base64Binary"@.len() == 15);
        },
        DataTypeXSDef::AnyURI => {
            reveal_strlit("xs:anyURI");
            assert("xs:anyURI"@.len() == 9);
            reveal_strlit("xs:int");
            assert("xs:int"@.len() == 6);
            reveal_strlit("xs:long");
            assert("xs:long"@.len() == 7);
            reveal_strlit("xs:integer");
            assert("xs:integer"@.len() == 10);
            reveal_strlit("xs:negativeInteger");
            assert("xs:negativeInteger"@.len() == 18);
            reveal_strlit("xs:nonNegativeInteger");
            assert("xs:nonNegativeInteger"@.len() == 21);
            reveal_strlit("xs:nonPositiveInteger");
            assert("xs:nonPositiveInteger"@.len() == 21);
            reveal_strlit("xs:positiveInteger");
            assert("xs:positiveInteger"@.len() == 18);
            reveal_strlit("xs:short");
            assert("xs:short"@.len() == 8);
            reveal_strlit("xs:string");
            assert("xs:anyURI"@[3] != "xs:string"@[3]);
            reveal_strlit("xs:boolean");
            assert("xs:boolean"@.len() == 10);
            reveal_strlit("xs:byte");
            assert("xs:byte"@.len() == 7);
            reveal_strlit("xs:unsignedByte");
            assert("xs:unsignedByte"@.len() == 15);
            reveal_strlit("xs:unsignedInt");
            assert("xs:unsignedInt"@.len() == 14);
            reveal_strlit("xs:unsignedLong");
            assert("xs:unsignedLong"@.len() == 15);
            reveal_strlit("xs:unsignedShort");
            assert("xs:unsignedShort"@.len() == 16);
            reveal_strlit("xs:decimal");
            assert("xs:decimal"@.len() == 10);
            reveal_strlit("xs:float");
            assert("xs:float"@.len() == 8);
            reveal_strlit("xs:double");
            assert("xs:anyURI"@[3] != "xs:double"@[3]);
            reveal_strlit("xs:time");
            assert("xs:time"@.len() == 7);
            reveal_strlit("xs:date");
            assert("xs:date"@.len() == 7);
            reveal_strlit("xs:dateTime");
            assert("xs:dateTime"@.len() == 11);
            reveal_strlit("xs:duration");
            assert("xs:duration"@.len() == 11);
            reveal_strlit("xs:gDay");
            assert("xs:gDay"@.len() == 7);
            reveal_strlit("xs:gMonth");
            assert("xs:anyURI"@[3] != "xs:gMonth"@[3]);
            reveal_strlit("xs:gMonthDay");
            assert("xs:gMonthDay"@.len() == 12);
            reveal_strlit("xs:gYear");
            assert("xs:gYear"@.len() == 8);
            reveal_strlit("xs:gYearMonth");
            assert("xs:gYearMonth"@.len() == 13);
            reveal_strlit("xs:base64Binary");
            assert("xs:base64Binary"@.len() == 15);
            reveal_strlit("xs:hexBinary");
            assert("xs:hexBinary"@.len() == 12);
        },
    }
}

impl DataTypeXSDef {
    /// The wire name of the value type.
    pub fn name(&self) -> (r: &'static str)
        ensures
            r@ == xsd_name(*self),
    {
        match self {
            DataTypeXSDef::Int => "xs:int",
            DataTypeXSDef::Long => "xs:long",
            DataTypeXSDef::Integer => "xs:integer",
            DataTypeXSDef::NegativeInteger => "xs:negativeInteger",
            DataTypeXSDef::NonNegativeInteger => "xs:nonNegativeInteger",
            DataTypeXSDef::NonPositiveInteger => "xs:nonPositiveInteger",
            DataTypeXSDef::PositiveInteger => "xs:positiveInteger",
            DataTypeXSDef::Short => "xs:short",
            DataTypeXSDef::String => "xs:string",
            DataTypeXSDef::Boolean => "xs:boolean",
            DataTypeXSDef::Byte => "xs:byte",
            DataTypeXSDef::UnsignedByte => "xs:unsignedByte",
            DataTypeXSDef::UnsignedInt => "xs:unsignedInt",
            DataTypeXSDef::UnsignedLong => "xs:unsignedLong",
            DataTypeXSDef::UnsignedShort => "xs:unsignedShort",
            DataTypeXSDef::Decimal => "xs:decimal",
            DataTypeXSDef::Float => "xs:float",
            DataTypeXSDef::Double => "xs:double",
            DataTypeXSDef::Time => "xs:time",
            DataTypeXSDef::Date => "xs:date",
            DataTypeXSDef::DateTime => "xs:dateTime",
            DataTypeXSDef::Duration => "xs:duration",
            DataTypeXSDef::GDay => "xs:gDay",
            DataTypeXSDef::GMonth => "xs:gMonth",
            DataTypeXSDef::GMonthDay => "xs:gMonthDay",
            DataTypeXSDef::GYear => "xs:gYear",
            DataTypeXSDef::GYearMonth => "xs:gYearMonth",
            DataTypeXSDef::Base64Binary => "xs:base64Binary",
            DataTypeXSDef::HexBinary => "xs:hexBinary",
            DataTypeXSDef::AnyURI => "xs:anyURI",
        }
    }

    /// The value type that a wire name denotes, if any.
    pub fn from_name(s: &str) -> (r: Option<DataTypeXSDef>)
        ensures
            r == xsd_from_name(s@),
    {
        if str_eq(s, "xs:int") {
            Some(DataTypeXSDef::Int)
        }
        else if str_eq(s, "xs:long") {
            Some(DataTypeXSDef::Long)
        }
        else if str_eq(s, "xs:integer") {
            Some(DataTypeXSDef::Integer)
        }
        else if str_eq(s, "xs:negativeInteger") {
            Some(DataTypeXSDef::NegativeInteger)
        }
        else if str_eq(s, "xs:nonNegativeInteger") {
            Some(DataTypeXSDef::NonNegativeInteger)
        }
        else if str_eq(s, "xs:nonPositiveInteger") {
            Some(DataTypeXSDef::NonPositiveInteger)
        }
        else if str_eq(s, "xs:positiveInteger") {
            Some(DataTypeXSDef::PositiveInteger)
        }
        else if str_eq(s, "xs:short") {
            Some(DataTypeXSDef::Short)
        }
        else if str_eq(s, "xs:string") {
            Some(DataTypeXSDef::String)
        }
        else if str_eq(s, "xs:boolean") {
            Some(DataTypeXSDef::Boolean)
        }
        else if str_eq(s, "xs:byte") {
            Some(DataTypeXSDef::Byte)
        }
        else if str_eq(s, "xs:unsignedByte") {
            Some(DataTypeXSDef::UnsignedByte)
        }
        else if str_eq(s, "xs:unsignedInt") {
            Some(DataTypeXSDef::UnsignedInt)
        }
        else if str_eq(s, "xs:unsignedLong") {
            Some(DataTypeXSDef::UnsignedLong)
        }
        else if str_eq(s, "xs:unsignedShort") {
            Some(DataTypeXSDef::UnsignedShort)
        }
        else if str_eq(s, "xs:decimal") {
            Some(DataTypeXSDef::Decimal)
        }
        else if str_eq(s, "xs:float") {
            Some(DataTypeXSDef::Float)
        }
        else if str_eq(s, "xs:double") {
            Some(DataTypeXSDef::Double)
        }
        else if str_eq(s, "xs:time") {
            Some(DataTypeXSDef::Time)
        }
        else if str_eq(s, "xs:date") {
            Some(DataTypeXSDef::Date)
        }
        else if str_eq(s, "xs:dateTime") {
            Some(DataTypeXSDef::DateTime)
        }
        else if str_eq(s, "xs:duration") {
            Some(DataTypeXSDef::Duration)
        }
        else if str_eq(s, "xs:gDay") {
            Some(DataTypeXSDef::GDay)
        }
        else if str_eq(s, "xs:gMonth") {
            Some(DataTypeXSDef::GMonth)
        }
        else if str_eq(s, "xs:gMonthDay") {
            Some(DataTypeXSDef::GMonthDay)
        }
        else if str_eq(s, "xs:gYear") {
            Some(DataTypeXSDef::GYear)
        }
        else if str_eq(s, "xs:gYearMonth") {
            Some(DataTypeXSDef::GYearMonth)
        }
        else if str_eq(s, "xs:base64Binary") {
            Some(DataTypeXSDef::Base64Binary)
        }
        else if str_eq(s, "xs:hexBinary") {
            Some(DataTypeXSDef::HexBinary)
        }
        else if str_eq(s, "xs:anyURI") {
            Some(DataTypeXSDef::AnyURI)
        }
 else {
            None
        }
    }
}

/// A value together with its value type. The value type is always present;
/// the value may be absent. Decimal and integer kinds of unbounded size hold
/// their decimal text; floating kinds hold the literal text of the number;
/// the date and time kinds and URIs hold their lexical form.
#[derive(Clone, Debug, PartialEq)]
pub enum DataXsd {
    Int(Option<i32>),
    Long(Option<i64>),
    Integer(Option<String>),
    NegativeInteger(Option<String>),
    NonNegativeInteger(Option<String>),
    NonPositiveInteger(Option<String>),
    PositiveInteger(Option<String>),
    Short(Option<u16>),
    String(Option<String>),
    Boolean(Option<bool>),
    Byte(Option<i8>),
    UnsignedByte(Option<u8>),
    UnsignedInt(Option<u32>),
    UnsignedLong(Option<u64>),
    UnsignedShort(Option<u16>),
    Decimal(Option<String>),
    Float(Option<String>),
    Double(Option<String>),
    Time(Option<String>),
    Date(Option<String>),
    DateTime(Option<String>),
    Duration(Option<String>),
    GDay(Option<String>),
    GMonth(Option<String>),
    GMonthDay(Option<String>),
    GYear(Option<String>),
    GYearMonth(Option<String>),
    Base64Binary(Option<Vec<u8>>),
    HexBinary(Option<Vec<u8>>),
    AnyURI(Option<String>),
}

/// The payload of `r`, or its error.
pub open spec fn error_of<T>(r: Result<T, DecodeError>) -> Option<DecodeError> {
    match r {
        Ok(_) => None,
        Err(e) => Some(e),
    }
}

/// An integer member within `lo..=hi`.
pub open spec fn int_check(j: Json, lo: int, hi: int) -> Result<int, DecodeError> {
    match j {
        Json::Int(n) => if lo <= n && n <= hi {
            Ok(n as int)
        } else {
            Err(DecodeError::OutOfRange)
        },
        _ => Err(DecodeError::UnexpectedKind),
    }
}

/// A string member.
pub open spec fn str_check(j: Json) -> Result<Seq<char>, DecodeError> {
    match j {
        Json::Str(s) => Ok(s@),
        _ => Err(DecodeError::UnexpectedKind),
    }
}

/// A boolean member.
pub open spec fn bool_check(j: Json) -> Result<bool, DecodeError> {
    match j {
        Json::Bool(b) => Ok(b),
        _ => Err(DecodeError::UnexpectedKind),
    }
}

/// The text of a number member.
pub open spec fn number_check(j: Json) -> Result<Seq<char>, DecodeError> {
    match j {
        Json::Int(n) => Ok(int_text(n as int)),
        Json::Number(t) => Ok(t@),
        _ => Err(DecodeError::UnexpectedKind),
    }
}

/// A decimal character.
pub open spec fn is_digit(c: char) -> bool {
    0x30 <= (c as u32) && (c as u32) <= 0x39
}

/// `s` starts with a sign.
pub open spec fn has_sign(s: Seq<char>) -> bool {
    s.len() > 0 && (s[0] == '+' || s[0] == '-')
}

/// `s` without its sign.
pub open spec fn magnitude(s: Seq<char>) -> Seq<char> {
    if has_sign(s) {
        s.drop_first()
    } else {
        s
    }
}

/// `s` is a non-empty run of decimal digits.
pub open spec fn all_digits(s: Seq<char>) -> bool {
    s.len() > 0 && forall|i: int| 0 <= i < s.len() ==> is_digit(#[trigger] s[i])
}

/// Every character of `s` is `0`.
pub open spec fn all_zero(s: Seq<char>) -> bool {
    forall|i: int| 0 <= i < s.len() ==> #[trigger] s[i] == '0'
}

/// `s` is an optional sign followed by decimal digits, and its value has
/// the sign that the kind `t` demands. Kinds other than the integer ones
/// demand nothing.
pub open spec fn integer_kind_ok(t: DataTypeXSDef, s: Seq<char>) -> bool {
    let digits = all_digits(magnitude(s));
    let neg = s.len() > 0 && s[0] == '-';
    let zero = all_zero(magnitude(s));
    match t {
        DataTypeXSDef::Integer => digits,
        DataTypeXSDef::NegativeInteger => digits && neg && !zero,
        DataTypeXSDef::NonNegativeInteger => digits && (!neg || zero),
        DataTypeXSDef::NonPositiveInteger => digits && (neg || zero),
        DataTypeXSDef::PositiveInteger => digits && !neg && !zero,
        _ => true,
    }
}

/// The text of a decimal value of kind `t`.
pub open spec fn decimal_text_ok(t: DataTypeXSDef, s: Seq<char>) -> bool {
    decimal_parses(s) && integer_kind_ok(t, s)
}

/// A decimal of kind `t` given as a string or a number, kept as its text.
pub open spec fn decimal_check(t: DataTypeXSDef, j: Json) -> Result<Seq<char>, DecodeError> {
    match j {
        Json::Str(s) => if decimal_text_ok(t, s@) {
            Ok(s@)
        } else {
            Err(DecodeError::InvalidLexical)
        },
        Json::Int(n) => if decimal_text_ok(t, int_text(n as int)) {
            Ok(int_text(n as int))
        } else {
            Err(DecodeError::InvalidLexical)
        },
        Json::Number(x) => if decimal_text_ok(t, x@) {
            Ok(x@)
        } else {
            Err(DecodeError::InvalidLexical)
        },
        _ => Err(DecodeError::UnexpectedKind),
    }
}

/// `s` is in the lexical space that the outside parsers give to `t`.
pub open spec fn lexical_valid(t: DataTypeXSDef, s: Seq<char>) -> bool {
    match t {
        DataTypeXSDef::Time => time_parses(s),
        DataTypeXSDef::Date => date_parses(s),
        DataTypeXSDef::DateTime => date_time_parses(s),
        DataTypeXSDef::AnyURI => iri_parses(s),
        _ => true,
    }
}

/// A string member in the lexical space of `t`.
pub open spec fn lexical_check(t: DataTypeXSDef, j: Json) -> Result<Seq<char>, DecodeError> {
    match j {
        Json::Str(s) => if lexical_valid(t, s@) {
            Ok(s@)
        } else {
            Err(DecodeError::InvalidLexical)
        },
        _ => Err(DecodeError::UnexpectedKind),
    }
}

/// A string of standard base64, as the bytes it encodes.
pub open spec fn base64_check(j: Json) -> Result<Seq<u8>, DecodeError> {
    match j {
        Json::Str(s) => match base64_bytes(s@) {
            Some(b) => Ok(b),
            None => Err(DecodeError::InvalidLexical),
        },
        _ => Err(DecodeError::UnexpectedKind),
    }
}

/// A string of hexadecimal digits, as the bytes it denotes.
pub open spec fn hex_check(j: Json) -> Result<Seq<u8>, DecodeError> {
    match j {
        Json::Str(s) => match hex_bytes(s@) {
            Some(b) => Ok(b),
            None => Err(DecodeError::InvalidLexical),
        },
        _ => Err(DecodeError::UnexpectedKind),
    }
}

/// The error, if any, of decoding the member `v` as a payload of type `t`.
pub open spec fn payload_error(t: DataTypeXSDef, v: Option<Json>) -> Option<DecodeError> {
    match v {
        None => None,
        Some(j) => match t {
            DataTypeXSDef::Int => error_of(int_check(j, -2147483648, 2147483647)),
            DataTypeXSDef::Long => error_of(int_check(j, -9223372036854775808, 9223372036854775807)),
            DataTypeXSDef::Integer => error_of(decimal_check(DataTypeXSDef::Integer, j)),
            DataTypeXSDef::NegativeInteger => error_of(decimal_check(DataTypeXSDef::NegativeInteger, j)),
            DataTypeXSDef::NonNegativeInteger => error_of(decimal_check(DataTypeXSDef::NonNegativeInteger, j)),
            DataTypeXSDef::NonPositiveInteger => error_of(decimal_check(DataTypeXSDef::NonPositiveInteger, j)),
            DataTypeXSDef::PositiveInteger => error_of(decimal_check(DataTypeXSDef::PositiveInteger, j)),
            DataTypeXSDef::Short => error_of(int_check(j, 0, 65535)),
            DataTypeXSDef::String => error_of(str_check(j)),
            DataTypeXSDef::Boolean => error_of(bool_check(j)),
            DataTypeXSDef::Byte => error_of(int_check(j, -128, 127)),
            DataTypeXSDef::UnsignedByte => error_of(int_check(j, 0, 255)),
            DataTypeXSDef::UnsignedInt => error_of(int_check(j, 0, 4294967295)),
            DataTypeXSDef::UnsignedLong => error_of(int_check(j, 0, 18446744073709551615)),
            DataTypeXSDef::UnsignedShort => error_of(int_check(j, 0, 65535)),
            DataTypeXSDef::Decimal => error_of(decimal_check(DataTypeXSDef::Decimal, j)),
            DataTypeXSDef::Float => error_of(number_check(j)),
            DataTypeXSDef::Double => error_of(number_check(j)),
            DataTypeXSDef::Time => error_of(lexical_check(DataTypeXSDef::Time, j)),
            DataTypeXSDef::Date => error_of(lexical_check(DataTypeXSDef::Date, j)),
            DataTypeXSDef::DateTime => error_of(lexical_check(DataTypeXSDef::DateTime, j)),
            DataTypeXSDef::Duration => error_of(str_check(j)),
            DataTypeXSDef::GDay => error_of(str_check(j)),
            DataTypeXSDef::GMonth => error_of(str_check(j)),
            DataTypeXSDef::GMonthDay => error_of(str_check(j)),
            DataTypeXSDef::GYear => error_of(str_check(j)),
            DataTypeXSDef::GYearMonth => error_of(str_check(j)),
            DataTypeXSDef::Base64Binary => error_of(base64_check(j)),
            DataTypeXSDef::HexBinary => error_of(hex_check(j)),
            DataTypeXSDef::AnyURI => error_of(lexical_check(DataTypeXSDef::AnyURI, j)),
        },
    }
}

/// The error, if any, of decoding the members `fs` as a value.
pub open spec fn xsd_decode_error(fs: Seq<(String, Json)>) -> Option<DecodeError> {
    match member(fs, "valueType"@) {
        None => Some(DecodeError::MissingField),
        Some(Json::Str(s)) => match xsd_from_name(s@) {
            None => Some(DecodeError::UnknownDiscriminator),
            Some(t) => payload_error(t, member(fs, "value"@)),
        },
        Some(_) => Some(DecodeError::UnexpectedKind),
    }
}

impl DataXsd {
    /// The value type of the value.
    pub open spec fn value_type(self) -> DataTypeXSDef {
        match self {
            DataXsd::Int(_) => DataTypeXSDef::Int,
            DataXsd::Long(_) => DataTypeXSDef::Long,
            DataXsd::Integer(_) => DataTypeXSDef::Integer,
            DataXsd::NegativeInteger(_) => DataTypeXSDef::NegativeInteger,
            DataXsd::NonNegativeInteger(_) => DataTypeXSDef::NonNegativeInteger,
            DataXsd::NonPositiveInteger(_) => DataTypeXSDef::NonPositiveInteger,
            DataXsd::PositiveInteger(_) => DataTypeXSDef::PositiveInteger,
            DataXsd::Short(_) => DataTypeXSDef::Short,
            DataXsd::String(_) => DataTypeXSDef::String,
            DataXsd::Boolean(_) => DataTypeXSDef::Boolean,
            DataXsd::Byte(_) => DataTypeXSDef::Byte,
            DataXsd::UnsignedByte(_) => DataTypeXSDef::UnsignedByte,
            DataXsd::UnsignedInt(_) => DataTypeXSDef::UnsignedInt,
            DataXsd::UnsignedLong(_) => DataTypeXSDef::UnsignedLong,
            DataXsd::UnsignedShort(_) => DataTypeXSDef::UnsignedShort,
            DataXsd::Decimal(_) => DataTypeXSDef::Decimal,
            DataXsd::Float(_) => DataTypeXSDef::Float,
            DataXsd::Double(_) => DataTypeXSDef::Double,
            DataXsd::Time(_) => DataTypeXSDef::Time,
            DataXsd::Date(_) => DataTypeXSDef::Date,
            DataXsd::DateTime(_) => DataTypeXSDef::DateTime,
            DataXsd::Duration(_) => DataTypeXSDef::Duration,
            DataXsd::GDay(_) => DataTypeXSDef::GDay,
            DataXsd::GMonth(_) => DataTypeXSDef::GMonth,
            DataXsd::GMonthDay(_) => DataTypeXSDef::GMonthDay,
            DataXsd::GYear(_) => DataTypeXSDef::GYear,
            DataXsd::GYearMonth(_) => DataTypeXSDef::GYearMonth,
            DataXsd::Base64Binary(_) => DataTypeXSDef::Base64Binary,
            DataXsd::HexBinary(_) => DataTypeXSDef::HexBinary,
            DataXsd::AnyURI(_) => DataTypeXSDef::AnyURI,
        }
    }

    /// Whether a value is present.
    pub open spec fn has_value(self) -> bool {
        match self {
            DataXsd::Int(p) => p is Some,
            DataXsd::Long(p) => p is Some,
            DataXsd::Integer(p) => p is Some,
            DataXsd::NegativeInteger(p) => p is Some,
            DataXsd::NonNegativeInteger(p) => p is Some,
            DataXsd::NonPositiveInteger(p) => p is Some,
            DataXsd::PositiveInteger(p) => p is Some,
            DataXsd::Short(p) => p is Some,
            DataXsd::String(p) => p is Some,
            DataXsd::Boolean(p) => p is Some,
            DataXsd::Byte(p) => p is Some,
            DataXsd::UnsignedByte(p) => p is Some,
            DataXsd::UnsignedInt(p) => p is Some,
            DataXsd::UnsignedLong(p) => p is Some,
            DataXsd::UnsignedShort(p) => p is Some,
            DataXsd::Decimal(p) => p is Some,
            DataXsd::Float(p) => p is Some,
            DataXsd::Double(p) => p is Some,
            DataXsd::Time(p) => p is Some,
            DataXsd::Date(p) => p is Some,
            DataXsd::DateTime(p) => p is Some,
            DataXsd::Duration(p) => p is Some,
            DataXsd::GDay(p) => p is Some,
            DataXsd::GMonth(p) => p is Some,
            DataXsd::GMonthDay(p) => p is Some,
            DataXsd::GYear(p) => p is Some,
            DataXsd::GYearMonth(p) => p is Some,
            DataXsd::Base64Binary(p) => p is Some,
            DataXsd::HexBinary(p) => p is Some,
            DataXsd::AnyURI(p) => p is Some,
        }
    }

    /// The held texts are in the lexical space of their value type.
    pub open spec fn wf(self) -> bool {
        match self {
            DataXsd::Integer(Some(s)) => decimal_text_ok(DataTypeXSDef::Integer, s@),
            DataXsd::NegativeInteger(Some(s)) => decimal_text_ok(DataTypeXSDef::NegativeInteger, s@),
            DataXsd::NonNegativeInteger(Some(s)) => decimal_text_ok(DataTypeXSDef::NonNegativeInteger, s@),
            DataXsd::NonPositiveInteger(Some(s)) => decimal_text_ok(DataTypeXSDef::NonPositiveInteger, s@),
            DataXsd::PositiveInteger(Some(s)) => decimal_text_ok(DataTypeXSDef::PositiveInteger, s@),
            DataXsd::Decimal(Some(s)) => decimal_text_ok(DataTypeXSDef::Decimal, s@),
            DataXsd::Time(Some(s)) => lexical_valid(DataTypeXSDef::Time, s@),
            DataXsd::Date(Some(s)) => lexical_valid(DataTypeXSDef::Date, s@),
            DataXsd::DateTime(Some(s)) => lexical_valid(DataTypeXSDef::DateTime, s@),
            DataXsd::AnyURI(Some(s)) => lexical_valid(DataTypeXSDef::AnyURI, s@),
            _ => true,
        }
    }

    /// Same value type and the same value, texts and bytes compared by content.
    pub open spec fn equiv(self, o: DataXsd) -> bool {
        match (self, o) {
            (DataXsd::Int(a), DataXsd::Int(b)) => a == b,
            (DataXsd::Long(a), DataXsd::Long(b)) => a == b,
            (DataXsd::Integer(a), DataXsd::Integer(b)) => match (a, b) {
                (Some(x), Some(y)) => x@ == y@,
                (None, None) => true,
                _ => false,
            },
            (DataXsd::NegativeInteger(a), DataXsd::NegativeInteger(b)) => match (a, b) {
                (Some(x), Some(y)) => x@ == y@,
                (None, None) => true,
                _ => false,
            },
            (DataXsd::NonNegativeInteger(a), DataXsd::NonNegativeInteger(b)) => match (a, b) {
                (Some(x), Some(y)) => x@ == y@,
                (None, None) => true,
                _ => false,
            },
            (DataXsd::NonPositiveInteger(a), DataXsd::NonPositiveInteger(b)) => match (a, b) {
                (Some(x), Some(y)) => x@ == y@,
                (None, None) => true,
                _ => false,
            },
            (DataXsd::PositiveInteger(a), DataXsd::PositiveInteger(b)) => match (a, b) {
                (Some(x), Some(y)) => x@ == y@,
                (None, None) => true,
                _ => false,
            },
            (DataXsd::Short(a), DataXsd::Short(b)) => a == b,
            (DataXsd::String(a), DataXsd::String(b)) => match (a, b) {
                (Some(x), Some(y)) => x@ == y@,
                (None, None) => true,
                _ => false,
            },
            (DataXsd::Boolean(a), DataXsd::Boolean(b)) => a == b,
            (DataXsd::Byte(a), DataXsd::Byte(b)) => a == b,
            (DataXsd::UnsignedByte(a), DataXsd::UnsignedByte(b)) => a == b,
            (DataXsd::UnsignedInt(a), DataXsd::UnsignedInt(b)) => a == b,
            (DataXsd::UnsignedLong(a), DataXsd::UnsignedLong(b)) => a == b,
            (DataXsd::UnsignedShort(a), DataXsd::UnsignedShort(b)) => a == b,
            (DataXsd::Decimal(a), DataXsd::Decimal(b)) => match (a, b) {
                (Some(x), Some(y)) => x@ == y@,
                (None, None) => true,
                _ => false,
            },
            (DataXsd::Float(a), DataXsd::Float(b)) => match (a, b) {
                (Some(x), Some(y)) => x@ == y@,
                (None, None) => true,
                _ => false,
            },
            (DataXsd::Double(a), DataXsd::Double(b)) => match (a, b) {
                (Some(x), Some(y)) => x@ == y@,
                (None, None) => true,
                _ => false,
            },
            (DataXsd::Time(a), DataXsd::Time(b)) => match (a, b) {
                (Some(x), Some(y)) => x@ == y@,
                (None, None) => true,
                _ => false,
            },
            (DataXsd::Date(a), DataXsd::Date(b)) => match (a, b) {
                (Some(x), Some(y)) => x@ == y@,
                (None, None) => true,
                _ => false,
            },
            (DataXsd::DateTime(a), DataXsd::DateTime(b)) => match (a, b) {
                (Some(x), Some(y)) => x@ == y@,
                (None, None) => true,
                _ => false,
            },
            (DataXsd::Duration(a), DataXsd::Duration(b)) => match (a, b) {
                (Some(x), Some(y)) => x@ == y@,
                (None, None) => true,
                _ => false,
            },
            (DataXsd::GDay(a), DataXsd::GDay(b)) => match (a, b) {
                (Some(x), Some(y)) => x@ == y@,
                (None, None) => true,
                _ => false,
            },
            (DataXsd::GMonth(a), DataXsd::GMonth(b)) => match (a, b) {
                (Some(x), Some(y)) => x@ == y@,
                (None, None) => true,
                _ => false,
            },
            (DataXsd::GMonthDay(a), DataXsd::GMonthDay(b)) => match (a, b) {
                (Some(x), Some(y)) => x@ == y@,
                (None, None) => true,
                _ => false,
            },
            (DataXsd::GYear(a), DataXsd::GYear(b)) => match (a, b) {
                (Some(x), Some(y)) => x@ == y@,
                (None, None) => true,
                _ => false,
            },
            (DataXsd::GYearMonth(a), DataXsd::GYearMonth(b)) => match (a, b) {
                (Some(x), Some(y)) => x@ == y@,
                (None, None) => true,
                _ => false,
            },
            (DataXsd::Base64Binary(a), DataXsd::Base64Binary(b)) => match (a, b) {
                (Some(x), Some(y)) => x@ == y@,
                (None, None) => true,
                _ => false,
            },
            (DataXsd::HexBinary(a), DataXsd::HexBinary(b)) => match (a, b) {
                (Some(x), Some(y)) => x@ == y@,
                (None, None) => true,
                _ => false,
            },
            (DataXsd::AnyURI(a), DataXsd::AnyURI(b)) => match (a, b) {
                (Some(x), Some(y)) => x@ == y@,
                (None, None) => true,
                _ => false,
            },
            _ => false,
        }
    }

    /// The member `v` decodes to the value of `self`.
    pub open spec fn payload_rel(self, v: Option<Json>) -> bool {
        match self {
            DataXsd::Int(p) => match p {
                None => v is None,
                Some(i) => v matches Some(j) && int_check(j, -2147483648, 2147483647) == Ok::<_, DecodeError>(i as int),
            },
            DataXsd::Long(p) => match p {
                None => v is None,
                Some(i) => v matches Some(j) && int_check(j, -9223372036854775808, 9223372036854775807) == Ok::<_, DecodeError>(i as int),
            },
            DataXsd::Integer(p) => match p {
                None => v is None,
                Some(i) => v matches Some(j) && decimal_check(DataTypeXSDef::Integer, j) == Ok::<_, DecodeError>(i@),
            },
            DataXsd::NegativeInteger(p) => match p {
                None => v is None,
                Some(i) => v matches Some(j) && decimal_check(DataTypeXSDef::NegativeInteger, j) == Ok::<_, DecodeError>(i@),
            },
            DataXsd::NonNegativeInteger(p) => match p {
                None => v is None,
                Some(i) => v matches Some(j) && decimal_check(DataTypeXSDef::NonNegativeInteger, j) == Ok::<_, DecodeError>(i@),
            },
            DataXsd::NonPositiveInteger(p) => match p {
                None => v is None,
                Some(i) => v matches Some(j) && decimal_check(DataTypeXSDef::NonPositiveInteger, j) == Ok::<_, DecodeError>(i@),
            },
            DataXsd::PositiveInteger(p) => match p {
                None => v is None,
                Some(i) => v matches Some(j) && decimal_check(DataTypeXSDef::PositiveInteger, j) == Ok::<_, DecodeError>(i@),
            },
            DataXsd::Short(p) => match p {
                None => v is None,
                Some(i) => v matches Some(j) && int_check(j, 0, 65535) == Ok::<_, DecodeError>(i as int),
            },
            DataXsd::String(p) => match p {
                None => v is None,
                Some(i) => v matches Some(j) && str_check(j) == Ok::<_, DecodeError>(i@),
            },
            DataXsd::Boolean(p) => match p {
                None => v is None,
                Some(i) => v matches Some(j) && bool_check(j) == Ok::<_, DecodeError>(i),
            },
            DataXsd::Byte(p) => match p {
                None => v is None,
                Some(i) => v matches Some(j) && int_check(j, -128, 127) == Ok::<_, DecodeError>(i as int),
            },
            DataXsd::UnsignedByte(p) => match p {
                None => v is None,
                Some(i) => v matches Some(j) && int_check(j, 0, 255) == Ok::<_, DecodeError>(i as int),
            },
            DataXsd::UnsignedInt(p) => match p {
                None => v is None,
                Some(i) => v matches Some(j) && int_check(j, 0, 4294967295) == Ok::<_, DecodeError>(i as int),
            },
            DataXsd::UnsignedLong(p) => match p {
                None => v is None,
                Some(i) => v matches Some(j) && int_check(j, 0, 18446744073709551615) == Ok::<_, DecodeError>(i as int),
            },
            DataXsd::UnsignedShort(p) => match p {
                None => v is None,
                Some(i) => v matches Some(j) && int_check(j, 0, 65535) == Ok::<_, DecodeError>(i as int),
            },
            DataXsd::Decimal(p) => match p {
                None => v is None,
                Some(i) => v matches Some(j) && decimal_check(DataTypeXSDef::Decimal, j) == Ok::<_, DecodeError>(i@),
            },
            DataXsd::Float(p) => match p {
                None => v is None,
                Some(i) => v matches Some(j) && number_check(j) == Ok::<_, DecodeError>(i@),
            },
            DataXsd::Double(p) => match p {
                None => v is None,
                Some(i) => v matches Some(j) && number_check(j) == Ok::<_, DecodeError>(i@),
            },
            DataXsd::Time(p) => match p {
                None => v is None,
                Some(i) => v matches Some(j) && lexical_check(DataTypeXSDef::Time, j) == Ok::<_, DecodeError>(i@),
            },
            DataXsd::Date(p) => match p {
                None => v is None,
                Some(i) => v matches Some(j) && lexical_check(DataTypeXSDef::Date, j) == Ok::<_, DecodeError>(i@),
            },
            DataXsd::DateTime(p) => match p {
                None => v is None,
                Some(i) => v matches Some(j) && lexical_check(DataTypeXSDef::DateTime, j) == Ok::<_, DecodeError>(i@),
            },
            DataXsd::Duration(p) => match p {
                None => v is None,
                Some(i) => v matches Some(j) && str_check(j) == Ok::<_, DecodeError>(i@),
            },
            DataXsd::GDay(p) => match p {
                None => v is None,
                Some(i) => v matches Some(j) && str_check(j) == Ok::<_, DecodeError>(i@),
            },
            DataXsd::GMonth(p) => match p {
                None => v is None,
                Some(i) => v matches Some(j) && str_check(j) == Ok::<_, DecodeError>(i@),
            },
            DataXsd::GMonthDay(p) => match p {
                None => v is None,
                Some(i) => v matches Some(j) && str_check(j) == Ok::<_, DecodeError>(i@),
            },
            DataXsd::GYear(p) => match p {
                None => v is None,
                Some(i) => v matches Some(j) && str_check(j) == Ok::<_, DecodeError>(i@),
            },
            DataXsd::GYearMonth(p) => match p {
                None => v is None,
                Some(i) => v matches Some(j) && str_check(j) == Ok::<_, DecodeError>(i@),
            },
            DataXsd::Base64Binary(p) => match p {
                None => v is None,
                Some(i) => v matches Some(j) && base64_check(j) == Ok::<_, DecodeError>(i@),
            },
            DataXsd::HexBinary(p) => match p {
                None => v is None,
                Some(i) => v matches Some(j) && hex_check(j) == Ok::<_, DecodeError>(i@),
            },
            DataXsd::AnyURI(p) => match p {
                None => v is None,
                Some(i) => v matches Some(j) && lexical_check(DataTypeXSDef::AnyURI, j) == Ok::<_, DecodeError>(i@),
            },
        }
    }

    /// The members `fs` decode to `self`.
    pub open spec fn rel_fields(self, fs: Seq<(String, Json)>) -> bool {
        &&& member(fs, "valueType"@) matches Some(Json::Str(s)) && s@ == xsd_name(self.value_type())
        &&& self.payload_rel(member(fs, "value"@))
    }

    /// `j` is the member that encoding writes for the value of `self`.
    pub open spec fn encoded_payload(self, j: Json) -> bool {
        match self {
            DataXsd::Int(Some(i)) => j == Json::Int(i as i128),
            DataXsd::Long(Some(i)) => j == Json::Int(i as i128),
            DataXsd::Integer(Some(i)) => j matches Json::Str(s) && s@ == i@,
            DataXsd::NegativeInteger(Some(i)) => j matches Json::Str(s) && s@ == i@,
            DataXsd::NonNegativeInteger(Some(i)) => j matches Json::Str(s) && s@ == i@,
            DataXsd::NonPositiveInteger(Some(i)) => j matches Json::Str(s) && s@ == i@,
            DataXsd::PositiveInteger(Some(i)) => j matches Json::Str(s) && s@ == i@,
            DataXsd::Short(Some(i)) => j == Json::Int(i as i128),
            DataXsd::String(Some(i)) => j matches Json::Str(s) && s@ == i@,
            DataXsd::Boolean(Some(i)) => j == Json::Bool(i),
            DataXsd::Byte(Some(i)) => j == Json::Int(i as i128),
            DataXsd::UnsignedByte(Some(i)) => j == Json::Int(i as i128),
            DataXsd::UnsignedInt(Some(i)) => j == Json::Int(i as i128),
            DataXsd::UnsignedLong(Some(i)) => j == Json::Int(i as i128),
            DataXsd::UnsignedShort(Some(i)) => j == Json::Int(i as i128),
            DataXsd::Decimal(Some(i)) => j matches Json::Str(s) && s@ == i@,
            DataXsd::Float(Some(i)) => j matches Json::Number(s) && s@ == i@,
            DataXsd::Double(Some(i)) => j matches Json::Number(s) && s@ == i@,
            DataXsd::Time(Some(i)) => j matches Json::Str(s) && s@ == i@,
            DataXsd::Date(Some(i)) => j matches Json::Str(s) && s@ == i@,
            DataXsd::DateTime(Some(i)) => j matches Json::Str(s) && s@ == i@,
            DataXsd::Duration(Some(i)) => j matches Json::Str(s) && s@ == i@,
            DataXsd::GDay(Some(i)) => j matches Json::Str(s) && s@ == i@,
            DataXsd::GMonth(Some(i)) => j matches Json::Str(s) && s@ == i@,
            DataXsd::GMonthDay(Some(i)) => j matches Json::Str(s) && s@ == i@,
            DataXsd::GYear(Some(i)) => j matches Json::Str(s) && s@ == i@,
            DataXsd::GYearMonth(Some(i)) => j matches Json::Str(s) && s@ == i@,
            DataXsd::Base64Binary(Some(i)) => j matches Json::Str(s) && s@ == base64_text(i@) && base64_bytes(s@) == Some(i@),
            DataXsd::HexBinary(Some(i)) => j matches Json::Str(s) && s@ == hex_text(i@),
            DataXsd::AnyURI(Some(i)) => j matches Json::Str(s) && s@ == i@,
            _ => false,
        }
    }

    /// `fs` are the members that encoding writes for `self`.
    pub open spec fn encoded_fields(self, fs: Seq<(String, Json)>) -> bool {
        &&& fs.len() == if self.has_value() { 2int } else { 1int }
        &&& fs[0].0@ == "valueType"@
        &&& fs[0].1 matches Json::Str(s) && s@ == xsd_name(self.value_type())
        &&& self.has_value() ==> fs[1].0@ == "value"@ && self.encoded_payload(fs[1].1)
    }

    /// The value type of the value.
    pub fn data_type(&self) -> (r: DataTypeXSDef)
        ensures
            r == self.value_type(),
    {
        match self {
            DataXsd::Int(_) => DataTypeXSDef::Int,
            DataXsd::Long(_) => DataTypeXSDef::Long,
            DataXsd::Integer(_) => DataTypeXSDef::Integer,
            DataXsd::NegativeInteger(_) => DataTypeXSDef::NegativeInteger,
            DataXsd::NonNegativeInteger(_) => DataTypeXSDef::NonNegativeInteger,
            DataXsd::NonPositiveInteger(_) => DataTypeXSDef::NonPositiveInteger,
            DataXsd::PositiveInteger(_) => DataTypeXSDef::PositiveInteger,
            DataXsd::Short(_) => DataTypeXSDef::Short,
            DataXsd::String(_) => DataTypeXSDef::String,
            DataXsd::Boolean(_) => DataTypeXSDef::Boolean,
            DataXsd::Byte(_) => DataTypeXSDef::Byte,
            DataXsd::UnsignedByte(_) => DataTypeXSDef::UnsignedByte,
            DataXsd::UnsignedInt(_) => DataTypeXSDef::UnsignedInt,
            DataXsd::UnsignedLong(_) => DataTypeXSDef::UnsignedLong,
            DataXsd::UnsignedShort(_) => DataTypeXSDef::UnsignedShort,
            DataXsd::Decimal(_) => DataTypeXSDef::Decimal,
            DataXsd::Float(_) => DataTypeXSDef::Float,
            DataXsd::Double(_) => DataTypeXSDef::Double,
            DataXsd::Time(_) => DataTypeXSDef::Time,
            DataXsd::Date(_) => DataTypeXSDef::Date,
            DataXsd::DateTime(_) => DataTypeXSDef::DateTime,
            DataXsd::Duration(_) => DataTypeXSDef::Duration,
            DataXsd::GDay(_) => DataTypeXSDef::GDay,
            DataXsd::GMonth(_) => DataTypeXSDef::GMonth,
            DataXsd::GMonthDay(_) => DataTypeXSDef::GMonthDay,
            DataXsd::GYear(_) => DataTypeXSDef::GYear,
            DataXsd::GYearMonth(_) => DataTypeXSDef::GYearMonth,
            DataXsd::Base64Binary(_) => DataTypeXSDef::Base64Binary,
            DataXsd::HexBinary(_) => DataTypeXSDef::HexBinary,
            DataXsd::AnyURI(_) => DataTypeXSDef::AnyURI,
        }
    }

    /// The member that encoding writes for the value, if one is present.
    pub fn encode_payload(&self) -> (r: Option<Json>)
        ensures
            match r {
                None => !self.has_value(),
                Some(j) => self.has_value() && self.encoded_payload(j),
            },
    {
        match self {
            DataXsd::Int(Some(i)) => Some(Json::Int(*i as i128)),
            DataXsd::Long(Some(i)) => Some(Json::Int(*i as i128)),
            DataXsd::Integer(Some(i)) => Some(Json::Str(i.clone())),
            DataXsd::NegativeInteger(Some(i)) => Some(Json::Str(i.clone())),
            DataXsd::NonNegativeInteger(Some(i)) => Some(Json::Str(i.clone())),
            DataXsd::NonPositiveInteger(Some(i)) => Some(Json::Str(i.clone())),
            DataXsd::PositiveInteger(Some(i)) => Some(Json::Str(i.clone())),
            DataXsd::Short(Some(i)) => Some(Json::Int(*i as i128)),
            DataXsd::String(Some(i)) => Some(Json::Str(i.clone())),
            DataXsd::Boolean(Some(i)) => Some(Json::Bool(*i)),
            DataXsd::Byte(Some(i)) => Some(Json::Int(*i as i128)),
            DataXsd::UnsignedByte(Some(i)) => Some(Json::Int(*i as i128)),
            DataXsd::UnsignedInt(Some(i)) => Some(Json::Int(*i as i128)),
            DataXsd::UnsignedLong(Some(i)) => Some(Json::Int(*i as i128)),
            DataXsd::UnsignedShort(Some(i)) => Some(Json::Int(*i as i128)),
            DataXsd::Decimal(Some(i)) => Some(Json::Str(i.clone())),
            DataXsd::Float(Some(i)) => Some(Json::Number(i.clone())),
            DataXsd::Double(Some(i)) => Some(Json::Number(i.clone())),
            DataXsd::Time(Some(i)) => Some(Json::Str(i.clone())),
            DataXsd::Date(Some(i)) => Some(Json::Str(i.clone())),
            DataXsd::DateTime(Some(i)) => Some(Json::Str(i.clone())),
            DataXsd::Duration(Some(i)) => Some(Json::Str(i.clone())),
            DataXsd::GDay(Some(i)) => Some(Json::Str(i.clone())),
            DataXsd::GMonth(Some(i)) => Some(Json::Str(i.clone())),
            DataXsd::GMonthDay(Some(i)) => Some(Json::Str(i.clone())),
            DataXsd::GYear(Some(i)) => Some(Json::Str(i.clone())),
            DataXsd::GYearMonth(Some(i)) => Some(Json::Str(i.clone())),
            DataXsd::Base64Binary(Some(i)) => Some(Json::Str(base64_encode(i))),
            DataXsd::HexBinary(Some(i)) => Some(Json::Str(encode_hex(i))),
            DataXsd::AnyURI(Some(i)) => Some(Json::Str(i.clone())),
            _ => None,
        }
    }

    /// The members `valueType` and, when a value is present, `value`.
    pub fn encode_fields(&self) -> (r: Vec<(String, Json)>)
        ensures
            self.encoded_fields(r@),
    {
        let mut r: Vec<(String, Json)> = Vec::new();
        let t = self.data_type();
        r.push(field("valueType", Json::Str(t.name().to_string())));
        match self.encode_payload() {
            Some(j) => r.push(field("value", j)),
            None => {},
        }
        r
    }

    /// Decodes the value of type `t` from the member `v`.
    #[verifier::rlimit(100)]
    #[verifier::spinoff_prover]
    pub fn decode_payload(t: DataTypeXSDef, v: Option<&Json>) -> (r: Result<DataXsd, DecodeError>)
        ensures
            match payload_error(t, opt_val(v)) {
                Some(e) => r == Err::<DataXsd, DecodeError>(e),
                None => r matches Ok(x) && x.value_type() == t && x.payload_rel(opt_val(v)),
            },
    {
        match v {
            None => Ok(match t {
                DataTypeXSDef::Int => DataXsd::Int(None),
                DataTypeXSDef::Long => DataXsd::Long(None),
                DataTypeXSDef::Integer => DataXsd::Integer(None),
                DataTypeXSDef::NegativeInteger => DataXsd::NegativeInteger(None),
                DataTypeXSDef::NonNegativeInteger => DataXsd::NonNegativeInteger(None),
                DataTypeXSDef::NonPositiveInteger => DataXsd::NonPositiveInteger(None),
                DataTypeXSDef::PositiveInteger => DataXsd::PositiveInteger(None),
                DataTypeXSDef::Short => DataXsd::Short(None),
                DataTypeXSDef::String => DataXsd::String(None),
                DataTypeXSDef::Boolean => DataXsd::Boolean(None),
                DataTypeXSDef::Byte => DataXsd::Byte(None),
                DataTypeXSDef::UnsignedByte => DataXsd::UnsignedByte(None),
                DataTypeXSDef::UnsignedInt => DataXsd::UnsignedInt(None),
                DataTypeXSDef::UnsignedLong => DataXsd::UnsignedLong(None),
                DataTypeXSDef::UnsignedShort => DataXsd::UnsignedShort(None),
                DataTypeXSDef::Decimal => DataXsd::Decimal(None),
                DataTypeXSDef::Float => DataXsd::Float(None),
                DataTypeXSDef::Double => DataXsd::Double(None),
                DataTypeXSDef::Time => DataXsd::Time(None),
                DataTypeXSDef::Date => DataXsd::Date(None),
                DataTypeXSDef::DateTime => DataXsd::DateTime(None),
                DataTypeXSDef::Duration => DataXsd::Duration(None),
                DataTypeXSDef::GDay => DataXsd::GDay(None),
                DataTypeXSDef::GMonth => DataXsd::GMonth(None),
                DataTypeXSDef::GMonthDay => DataXsd::GMonthDay(None),
                DataTypeXSDef::GYear => DataXsd::GYear(None),
                DataTypeXSDef::GYearMonth => DataXsd::GYearMonth(None),
                DataTypeXSDef::Base64Binary => DataXsd::Base64Binary(None),
                DataTypeXSDef::HexBinary => DataXsd::HexBinary(None),
                DataTypeXSDef::AnyURI => DataXsd::AnyURI(None),
            }),
            Some(j) => match t {
                DataTypeXSDef::Int => decode_int(j),
                DataTypeXSDef::Long => decode_long(j),
                DataTypeXSDef::Integer => decode_integer(j),
                DataTypeXSDef::NegativeInteger => decode_negative_integer(j),
                DataTypeXSDef::NonNegativeInteger => decode_non_negative_integer(j),
                DataTypeXSDef::NonPositiveInteger => decode_non_positive_integer(j),
                DataTypeXSDef::PositiveInteger => decode_positive_integer(j),
                DataTypeXSDef::Short => decode_short(j),
                DataTypeXSDef::String => decode_string(j),
                DataTypeXSDef::Boolean => decode_boolean(j),
                DataTypeXSDef::Byte => decode_byte(j),
                DataTypeXSDef::UnsignedByte => decode_unsigned_byte(j),
                DataTypeXSDef::UnsignedInt => decode_unsigned_int(j),
                DataTypeXSDef::UnsignedLong => decode_unsigned_long(j),
                DataTypeXSDef::UnsignedShort => decode_unsigned_short(j),
                DataTypeXSDef::Decimal => decode_decimal(j),
                DataTypeXSDef::Float => decode_float(j),
                DataTypeXSDef::Double => decode_double(j),
                DataTypeXSDef::Time => decode_time(j),
                DataTypeXSDef::Date => decode_date(j),
                DataTypeXSDef::DateTime => decode_date_time(j),
                DataTypeXSDef::Duration => decode_duration(j),
                DataTypeXSDef::GDay => decode_g_day(j),
                DataTypeXSDef::GMonth => decode_g_month(j),
                DataTypeXSDef::GMonthDay => decode_g_month_day(j),
                DataTypeXSDef::GYear => decode_g_year(j),
                DataTypeXSDef::GYearMonth => decode_g_year_month(j),
                DataTypeXSDef::Base64Binary => decode_base64_binary(j),
                DataTypeXSDef::HexBinary => decode_hex_binary(j),
                DataTypeXSDef::AnyURI => decode_any_uri(j),
            },
        }
    }


    /// Decodes a value from the members `valueType` and `value` of `fs`.
    pub fn decode_fields(fs: &Vec<(String, Json)>) -> (r: Result<DataXsd, DecodeError>)
        ensures
            match xsd_decode_error(fs@) {
                Some(e) => r == Err::<DataXsd, DecodeError>(e),
                None => r matches Ok(x) && x.rel_fields(fs@),
            },
    {
        let t = match get_member(fs, "valueType") {
            None => return Err(DecodeError::MissingField),
            Some(Json::Str(s)) => match DataTypeXSDef::from_name(s.as_str()) {
                None => return Err(DecodeError::UnknownDiscriminator),
                Some(t) => t,
            },
            Some(_) => return Err(DecodeError::UnexpectedKind),
        };
        DataXsd::decode_payload(t, get_member(fs, "value"))
    }
}

/// Decodes a present value of type `xs:int`.
fn decode_int(j: &Json) -> (r: Result<DataXsd, DecodeError>)
    ensures
        match payload_error(DataTypeXSDef::Int, Some(*j)) {
            Some(e) => r == Err::<DataXsd, DecodeError>(e),
            None => r matches Ok(x) && x.value_type() == DataTypeXSDef::Int && x.payload_rel(Some(*j)),
        },
{
    match check_int(j, -2147483648, 2147483647) {
        Ok(x) => Ok(DataXsd::Int(Some(x as i32))),
        Err(e) => Err(e),
    }
}

/// Decodes a present value of type `xs:long`.
fn decode_long(j: &Json) -> (r: Result<DataXsd, DecodeError>)
    ensures
        match payload_error(DataTypeXSDef::Long, Some(*j)) {
            Some(e) => r == Err::<DataXsd, DecodeError>(e),
            None => r matches Ok(x) && x.value_type() == DataTypeXSDef::Long && x.payload_rel(Some(*j)),
        },
{
    match check_int(j, -9223372036854775808, 9223372036854775807) {
        Ok(x) => Ok(DataXsd::Long(Some(x as i64))),
        Err(e) => Err(e),
    }
}

/// Decodes a present value of type `xs:integer`.
fn decode_integer(j: &Json) -> (r: Result<DataXsd, DecodeError>)
    ensures
        match payload_error(DataTypeXSDef::Integer, Some(*j)) {
            Some(e) => r == Err::<DataXsd, DecodeError>(e),
            None => r matches Ok(x) && x.value_type() == DataTypeXSDef::Integer && x.payload_rel(Some(*j)),
        },
{
    match check_decimal(DataTypeXSDef::Integer, j) {
        Ok(x) => Ok(DataXsd::Integer(Some(x))),
        Err(e) => Err(e),
    }
}

/// Decodes a present value of type `xs:negativeInteger`.
fn decode_negative_integer(j: &Json) -> (r: Result<DataXsd, DecodeError>)
    ensures
        match payload_error(DataTypeXSDef::NegativeInteger, Some(*j)) {
            Some(e) => r == Err::<DataXsd, DecodeError>(e),
            None => r matches Ok(x) && x.value_type() == DataTypeXSDef::NegativeInteger && x.payload_rel(Some(*j)),
        },
{
    match check_decimal(DataTypeXSDef::NegativeInteger, j) {
        Ok(x) => Ok(DataXsd::NegativeInteger(Some(x))),
        Err(e) => Err(e),
    }
}

/// Decodes a present value of type `xs:nonNegativeInteger`.
fn decode_non_negative_integer(j: &Json) -> (r: Result<DataXsd, DecodeError>)
    ensures
        match payload_error(DataTypeXSDef::NonNegativeInteger, Some(*j)) {
            Some(e) => r == Err::<DataXsd, DecodeError>(e),
            None => r matches Ok(x) && x.value_type() == DataTypeXSDef::NonNegativeInteger && x.payload_rel(Some(*j)),
        },
{
    match check_decimal(DataTypeXSDef::NonNegativeInteger, j) {
        Ok(x) => Ok(DataXsd::NonNegativeInteger(Some(x))),
        Err(e) => Err(e),
    }
}

/// Decodes a present value of type `xs:nonPositiveInteger`.
fn decode_non_positive_integer(j: &Json) -> (r: Result<DataXsd, DecodeError>)
    ensures
        match payload_error(DataTypeXSDef::NonPositiveInteger, Some(*j)) {
            Some(e) => r == Err::<DataXsd, DecodeError>(e),
            None => r matches Ok(x) && x.value_type() == DataTypeXSDef::NonPositiveInteger && x.payload_rel(Some(*j)),
        },
{
    match check_decimal(DataTypeXSDef::NonPositiveInteger, j) {
        Ok(x) => Ok(DataXsd::NonPositiveInteger(Some(x))),
        Err(e) => Err(e),
    }
}

/// Decodes a present value of type `xs:positiveInteger`.
fn decode_positive_integer(j: &Json) -> (r: Result<DataXsd, DecodeError>)
    ensures
        match payload_error(DataTypeXSDef::PositiveInteger, Some(*j)) {
            Some(e) => r == Err::<DataXsd, DecodeError>(e),
            None => r matches Ok(x) && x.value_type() == DataTypeXSDef::PositiveInteger && x.payload_rel(Some(*j)),
        },
{
    match check_decimal(DataTypeXSDef::PositiveInteger, j) {
        Ok(x) => Ok(DataXsd::PositiveInteger(Some(x))),
        Err(e) => Err(e),
    }
}

/// Decodes a present value of type `xs:short`.
fn decode_short(j: &Json) -> (r: Result<DataXsd, DecodeError>)
    ensures
        match payload_error(DataTypeXSDef::Short, Some(*j)) {
            Some(e) => r == Err::<DataXsd, DecodeError>(e),
            None => r matches Ok(x) && x.value_type() == DataTypeXSDef::Short && x.payload_rel(Some(*j)),
        },
{
    match check_int(j, 0, 65535) {
        Ok(x) => Ok(DataXsd::Short(Some(x as u16))),
        Err(e) => Err(e),
    }
}

/// Decodes a present value of type `xs:string`.
fn decode_string(j: &Json) -> (r: Result<DataXsd, DecodeError>)
    ensures
        match payload_error(DataTypeXSDef::String, Some(*j)) {
            Some(e) => r == Err::<DataXsd, DecodeError>(e),
            None => r matches Ok(x) && x.value_type() == DataTypeXSDef::String && x.payload_rel(Some(*j)),
        },
{
    match check_str(j) {
        Ok(x) => Ok(DataXsd::String(Some(x))),
        Err(e) => Err(e),
    }
}

/// Decodes a present value of type `xs:boolean`.
fn decode_boolean(j: &Json) -> (r: Result<DataXsd, DecodeError>)
    ensures
        match payload_error(DataTypeXSDef::Boolean, Some(*j)) {
            Some(e) => r == Err::<DataXsd, DecodeError>(e),
            None => r matches Ok(x) && x.value_type() == DataTypeXSDef::Boolean && x.payload_rel(Some(*j)),
        },
{
    match check_bool(j) {
        Ok(x) => Ok(DataXsd::Boolean(Some(x))),
        Err(e) => Err(e),
    }
}

/// Decodes a present value of type `xs:byte`.
fn decode_byte(j: &Json) -> (r: Result<DataXsd, DecodeError>)
    ensures
        match payload_error(DataTypeXSDef::Byte, Some(*j)) {
            Some(e) => r == Err::<DataXsd, DecodeError>(e),
            None => r matches Ok(x) && x.value_type() == DataTypeXSDef::Byte && x.payload_rel(Some(*j)),
        },
{
    match check_int(j, -128, 127) {
        Ok(x) => Ok(DataXsd::Byte(Some(x as i8))),
        Err(e) => Err(e),
    }
}

/// Decodes a present value of type `xs:unsignedByte`.
fn decode_unsigned_byte(j: &Json) -> (r: Result<DataXsd, DecodeError>)
    ensures
        match payload_error(DataTypeXSDef::UnsignedByte, Some(*j)) {
            Some(e) => r == Err::<DataXsd, DecodeError>(e),
            None => r matches Ok(x) && x.value_type() == DataTypeXSDef::UnsignedByte && x.payload_rel(Some(*j)),
        },
{
    match check_int(j, 0, 255) {
        Ok(x) => Ok(DataXsd::UnsignedByte(Some(x as u8))),
        Err(e) => Err(e),
    }
}

/// Decodes a present value of type `xs:unsignedInt`.
fn decode_unsigned_int(j: &Json) -> (r: Result<DataXsd, DecodeError>)
    ensures
        match payload_error(DataTypeXSDef::UnsignedInt, Some(*j)) {
            Some(e) => r == Err::<DataXsd, DecodeError>(e),
            None => r matches Ok(x) && x.value_type() == DataTypeXSDef::UnsignedInt && x.payload_rel(Some(*j)),
        },
{
    match check_int(j, 0, 4294967295) {
        Ok(x) => Ok(DataXsd::UnsignedInt(Some(x as u32))),
        Err(e) => Err(e),
    }
}

/// Decodes a present value of type `xs:unsignedLong`.
fn decode_unsigned_long(j: &Json) -> (r: Result<DataXsd, DecodeError>)
    ensures
        match payload_error(DataTypeXSDef::UnsignedLong, Some(*j)) {
            Some(e) => r == Err::<DataXsd, DecodeError>(e),
            None => r matches Ok(x) && x.value_type() == DataTypeXSDef::UnsignedLong && x.payload_rel(Some(*j)),
        },
{
    match check_int(j, 0, 18446744073709551615) {
        Ok(x) => Ok(DataXsd::UnsignedLong(Some(x as u64))),
        Err(e) => Err(e),
    }
}

/// Decodes a present value of type `xs:unsignedShort`.
fn decode_unsigned_short(j: &Json) -> (r: Result<DataXsd, DecodeError>)
    ensures
        match payload_error(DataTypeXSDef::UnsignedShort, Some(*j)) {
            Some(e) => r == Err::<DataXsd, DecodeError>(e),
            None => r matches Ok(x) && x.value_type() == DataTypeXSDef::UnsignedShort && x.payload_rel(Some(*j)),
        },
{
    match check_int(j, 0, 65535) {
        Ok(x) => Ok(DataXsd::UnsignedShort(Some(x as u16))),
        Err(e) => Err(e),
    }
}

/// Decodes a present value of type `xs:decimal`.
fn decode_decimal(j: &Json) -> (r: Result<DataXsd, DecodeError>)
    ensures
        match payload_error(DataTypeXSDef::Decimal, Some(*j)) {
            Some(e) => r == Err::<DataXsd, DecodeError>(e),
            None => r matches Ok(x) && x.value_type() == DataTypeXSDef::Decimal && x.payload_rel(Some(*j)),
        },
{
    match check_decimal(DataTypeXSDef::Decimal, j) {
        Ok(x) => Ok(DataXsd::Decimal(Some(x))),
        Err(e) => Err(e),
    }
}

/// Decodes a present value of type `xs:float`.
fn decode_float(j: &Json) -> (r: Result<DataXsd, DecodeError>)
    ensures
        match payload_error(DataTypeXSDef::Float, Some(*j)) {
            Some(e) => r == Err::<DataXsd, DecodeError>(e),
            None => r matches Ok(x) && x.value_type() == DataTypeXSDef::Float && x.payload_rel(Some(*j)),
        },
{
    match check_number(j) {
        Ok(x) => Ok(DataXsd::Float(Some(x))),
        Err(e) => Err(e),
    }
}

/// Decodes a present value of type `xs:double`.
fn decode_double(j: &Json) -> (r: Result<DataXsd, DecodeError>)
    ensures
        match payload_error(DataTypeXSDef::Double, Some(*j)) {
            Some(e) => r == Err::<DataXsd, DecodeError>(e),
            None => r matches Ok(x) && x.value_type() == DataTypeXSDef::Double && x.payload_rel(Some(*j)),
        },
{
    match check_number(j) {
        Ok(x) => Ok(DataXsd::Double(Some(x))),
        Err(e) => Err(e),
    }
}

/// Decodes a present value of type `xs:time`.
fn decode_time(j: &Json) -> (r: Result<DataXsd, DecodeError>)
    ensures
        match payload_error(DataTypeXSDef::Time, Some(*j)) {
            Some(e) => r == Err::<DataXsd, DecodeError>(e),
            None => r matches Ok(x) && x.value_type() == DataTypeXSDef::Time && x.payload_rel(Some(*j)),
        },
{
    match check_lexical(DataTypeXSDef::Time, j) {
        Ok(x) => Ok(DataXsd::Time(Some(x))),
        Err(e) => Err(e),
    }
}

/// Decodes a present value of type `xs:date`.
fn decode_date(j: &Json) -> (r: Result<DataXsd, DecodeError>)
    ensures
        match payload_error(DataTypeXSDef::Date, Some(*j)) {
            Some(e) => r == Err::<DataXsd, DecodeError>(e),
            None => r matches Ok(x) && x.value_type() == DataTypeXSDef::Date && x.payload_rel(Some(*j)),
        },
{
    match check_lexical(DataTypeXSDef::Date, j) {
        Ok(x) => Ok(DataXsd::Date(Some(x))),
        Err(e) => Err(e),
    }
}

/// Decodes a present value of type `xs:dateTime`.
fn decode_date_time(j: &Json) -> (r: Result<DataXsd, DecodeError>)
    ensures
        match payload_error(DataTypeXSDef::DateTime, Some(*j)) {
            Some(e) => r == Err::<DataXsd, DecodeError>(e),
            None => r matches Ok(x) && x.value_type() == DataTypeXSDef::DateTime && x.payload_rel(Some(*j)),
        },
{
    match check_lexical(DataTypeXSDef::DateTime, j) {
        Ok(x) => Ok(DataXsd::DateTime(Some(x))),
        Err(e) => Err(e),
    }
}

/// Decodes a present value of type `xs:duration`.
fn decode_duration(j: &Json) -> (r: Result<DataXsd, DecodeError>)
    ensures
        match payload_error(DataTypeXSDef::Duration, Some(*j)) {
            Some(e) => r == Err::<DataXsd, DecodeError>(e),
            None => r matches Ok(x) && x.value_type() == DataTypeXSDef::Duration && x.payload_rel(Some(*j)),
        },
{
    match check_str(j) {
        Ok(x) => Ok(DataXsd::Duration(Some(x))),
        Err(e) => Err(e),
    }
}

/// Decodes a present value of type `xs:gDay`.
fn decode_g_day(j: &Json) -> (r: Result<DataXsd, DecodeError>)
    ensures
        match payload_error(DataTypeXSDef::GDay, Some(*j)) {
            Some(e) => r == Err::<DataXsd, DecodeError>(e),
            None => r matches Ok(x) && x.value_type() == DataTypeXSDef::GDay && x.payload_rel(Some(*j)),
        },
{
    match check_str(j) {
        Ok(x) => Ok(DataXsd::GDay(Some(x))),
        Err(e) => Err(e),
    }
}

/// Decodes a present value of type `xs:gMonth`.
fn decode_g_month(j: &Json) -> (r: Result<DataXsd, DecodeError>)
    ensures
        match payload_error(DataTypeXSDef::GMonth, Some(*j)) {
            Some(e) => r == Err::<DataXsd, DecodeError>(e),
            None => r matches Ok(x) && x.value_type() == DataTypeXSDef::GMonth && x.payload_rel(Some(*j)),
        },
{
    match check_str(j) {
        Ok(x) => Ok(DataXsd::GMonth(Some(x))),
        Err(e) => Err(e),
    }
}

/// Decodes a present value of type `xs:gMonthDay`.
fn decode_g_month_day(j: &Json) -> (r: Result<DataXsd, DecodeError>)
    ensures
        match payload_error(DataTypeXSDef::GMonthDay, Some(*j)) {
            Some(e) => r == Err::<DataXsd, DecodeError>(e),
            None => r matches Ok(x) && x.value_type() == DataTypeXSDef::GMonthDay && x.payload_rel(Some(*j)),
        },
{
    match check_str(j) {
        Ok(x) => Ok(DataXsd::GMonthDay(Some(x))),
        Err(e) => Err(e),
    }
}

/// Decodes a present value of type `xs:gYear`.
fn decode_g_year(j: &Json) -> (r: Result<DataXsd, DecodeError>)
    ensures
        match payload_error(DataTypeXSDef::GYear, Some(*j)) {
            Some(e) => r == Err::<DataXsd, DecodeError>(e),
            None => r matches Ok(x) && x.value_type() == DataTypeXSDef::GYear && x.payload_rel(Some(*j)),
        },
{
    match check_str(j) {
        Ok(x) => Ok(DataXsd::GYear(Some(x))),
        Err(e) => Err(e),
    }
}

/// Decodes a present value of type `xs:gYearMonth`.
fn decode_g_year_month(j: &Json) -> (r: Result<DataXsd, DecodeError>)
    ensures
        match payload_error(DataTypeXSDef::GYearMonth, Some(*j)) {
            Some(e) => r == Err::<DataXsd, DecodeError>(e),
            None => r matches Ok(x) && x.value_type() == DataTypeXSDef::GYearMonth && x.payload_rel(Some(*j)),
        },
{
    match check_str(j) {
        Ok(x) => Ok(DataXsd::GYearMonth(Some(x))),
        Err(e) => Err(e),
    }
}

/// Decodes a present value of type `xs:base64Binary`.
fn decode_base64_binary(j: &Json) -> (r: Result<DataXsd, DecodeError>)
    ensures
        match payload_error(DataTypeXSDef::Base64Binary, Some(*j)) {
            Some(e) => r == Err::<DataXsd, DecodeError>(e),
            None => r matches Ok(x) && x.value_type() == DataTypeXSDef::Base64Binary && x.payload_rel(Some(*j)),
        },
{
    match check_base64(j) {
        Ok(x) => Ok(DataXsd::Base64Binary(Some(x))),
        Err(e) => Err(e),
    }
}

/// Decodes a present value of type `xs:hexBinary`.
fn decode_hex_binary(j: &Json) -> (r: Result<DataXsd, DecodeError>)
    ensures
        match payload_error(DataTypeXSDef::HexBinary, Some(*j)) {
            Some(e) => r == Err::<DataXsd, DecodeError>(e),
            None => r matches Ok(x) && x.value_type() == DataTypeXSDef::HexBinary && x.payload_rel(Some(*j)),
        },
{
    match check_hex(j) {
        Ok(x) => Ok(DataXsd::HexBinary(Some(x))),
        Err(e) => Err(e),
    }
}

/// Decodes a present value of type `xs:anyURI`.
fn decode_any_uri(j: &Json) -> (r: Result<DataXsd, DecodeError>)
    ensures
        match payload_error(DataTypeXSDef::AnyURI, Some(*j)) {
            Some(e) => r == Err::<DataXsd, DecodeError>(e),
            None => r matches Ok(x) && x.value_type() == DataTypeXSDef::AnyURI && x.payload_rel(Some(*j)),
        },
{
    match check_lexical(DataTypeXSDef::AnyURI, j) {
        Ok(x) => Ok(DataXsd::AnyURI(Some(x))),
        Err(e) => Err(e),
    }
}

impl Default for DataXsd {
    /// A string with no value.
    fn default() -> (r: DataXsd)
        ensures
            r == DataXsd::String(None),
    {
        DataXsd::String(None)
    }
}

/// An integer member within `lo..=hi`.
fn check_int(j: &Json, lo: i128, hi: i128) -> (r: Result<i128, DecodeError>)
    ensures
        match int_check(*j, lo as int, hi as int) {
            Ok(n) => r == Ok::<i128, DecodeError>(n as i128) && lo <= n <= hi,
            Err(e) => r == Err::<i128, DecodeError>(e),
        },
{
    match j {
        Json::Int(n) => if lo <= *n && *n <= hi {
            Ok(*n)
        } else {
            Err(DecodeError::OutOfRange)
        },
        _ => Err(DecodeError::UnexpectedKind),
    }
}

/// A string member.
fn check_str(j: &Json) -> (r: Result<String, DecodeError>)
    ensures
        match str_check(*j) {
            Ok(s) => r matches Ok(x) && x@ == s,
            Err(e) => r == Err::<String, DecodeError>(e),
        },
{
    match j {
        Json::Str(s) => Ok(s.clone()),
        _ => Err(DecodeError::UnexpectedKind),
    }
}

/// A boolean member.
fn check_bool(j: &Json) -> (r: Result<bool, DecodeError>)
    ensures
        r == bool_check(*j),
{
    match j {
        Json::Bool(b) => Ok(*b),
        _ => Err(DecodeError::UnexpectedKind),
    }
}

/// The text of a number member.
fn check_number(j: &Json) -> (r: Result<String, DecodeError>)
    ensures
        match number_check(*j) {
            Ok(s) => r matches Ok(x) && x@ == s,
            Err(e) => r == Err::<String, DecodeError>(e),
        },
{
    match j {
        Json::Int(n) => Ok(int_to_text(*n)),
        Json::Number(t) => Ok(t.clone()),
        _ => Err(DecodeError::UnexpectedKind),
    }
}

/// Whether every character of `s` is a digit (when `digits`) or is `0`
/// (otherwise); `s` is non-empty when `digits`.
fn scan(s: &str, digits: bool) -> (r: bool)
    ensures
        r == if digits {
            all_digits(s@)
        } else {
            all_zero(s@)
        },
{
    let n = s.unicode_len();
    if digits && n == 0 {
        return false;
    }
    let mut i: usize = 0;
    while i < n
        invariant
            n == s@.len(),
            i <= n,
            digits ==> n > 0,
            forall|k: int| 0 <= k < i ==> if digits {
                is_digit(#[trigger] s@[k])
            } else {
                s@[k] == '0'
            },
        decreases n - i,
    {
        let c = s.get_char(i);
        let ok = if digits {
            0x30 <= (c as u32) && (c as u32) <= 0x39
        } else {
            c == '0'
        };
        if !ok {
            return false;
        }
        i += 1;
    }
    true
}

/// Whether `s` is an integer text with the sign that kind `t` demands.
fn integer_kind_accepts(t: DataTypeXSDef, s: &str) -> (r: bool)
    ensures
        r == integer_kind_ok(t, s@),
{
    let n = s.unicode_len();
    let first = if n > 0 { Some(s.get_char(0)) } else { None };
    let signed = match first {
        Some(c) => c == '+' || c == '-',
        None => false,
    };
    let neg = match first {
        Some(c) => c == '-',
        None => false,
    };
    let m = if signed { s.substring_char(1, n) } else { s };
    proof {
        if signed {
            assert(m@ =~= s@.drop_first());
        }
        assert(m@ == magnitude(s@));
    }
    let digits = scan(m, true);
    let zero = scan(m, false);
    match t {
        DataTypeXSDef::Integer => digits,
        DataTypeXSDef::NegativeInteger => digits && neg && !zero,
        DataTypeXSDef::NonNegativeInteger => digits && (!neg || zero),
        DataTypeXSDef::NonPositiveInteger => digits && (neg || zero),
        DataTypeXSDef::PositiveInteger => digits && !neg && !zero,
        _ => true,
    }
}

/// A decimal of kind `t` given as a string or a number, kept as its text.
fn check_decimal(t: DataTypeXSDef, j: &Json) -> (r: Result<String, DecodeError>)
    ensures
        match decimal_check(t, *j) {
            Ok(s) => r matches Ok(x) && x@ == s,
            Err(e) => r == Err::<String, DecodeError>(e),
        },
{
    let x = match j {
        Json::Str(s) => s.clone(),
        Json::Int(n) => int_to_text(*n),
        Json::Number(v) => v.clone(),
        _ => return Err(DecodeError::UnexpectedKind),
    };
    if decimal_accepts(x.as_str()) && integer_kind_accepts(t, x.as_str()) {
        Ok(x)
    } else {
        Err(DecodeError::InvalidLexical)
    }
}

/// Whether `s` is in the lexical space that the outside parsers give to `t`.
fn lexical_accepts(t: DataTypeXSDef, s: &str) -> (r: bool)
    ensures
        r == lexical_valid(t, s@),
{
    match t {
        DataTypeXSDef::Time => time_accepts(s),
        DataTypeXSDef::Date => date_accepts(s),
        DataTypeXSDef::DateTime => date_time_accepts(s),
        DataTypeXSDef::AnyURI => iri_accepts(s),
        _ => true,
    }
}

/// A string member in the lexical space of `t`.
fn check_lexical(t: DataTypeXSDef, j: &Json) -> (r: Result<String, DecodeError>)
    ensures
        match lexical_check(t, *j) {
            Ok(s) => r matches Ok(x) && x@ == s,
            Err(e) => r == Err::<String, DecodeError>(e),
        },
{
    match j {
        Json::Str(s) => if lexical_accepts(t, s.as_str()) {
            Ok(s.clone())
        } else {
            Err(DecodeError::InvalidLexical)
        },
        _ => Err(DecodeError::UnexpectedKind),
    }
}

/// A string of standard base64, as the bytes it encodes.
fn check_base64(j: &Json) -> (r: Result<Vec<u8>, DecodeError>)
    ensures
        match base64_check(*j) {
            Ok(s) => r matches Ok(x) && x@ == s,
            Err(e) => r == Err::<Vec<u8>, DecodeError>(e),
        },
{
    match j {
        Json::Str(s) => match base64_decode(s) {
            Some(b) => Ok(b),
            None => Err(DecodeError::InvalidLexical),
        },
        _ => Err(DecodeError::UnexpectedKind),
    }
}

/// A string of hexadecimal digits, as the bytes it denotes.
fn check_hex(j: &Json) -> (r: Result<Vec<u8>, DecodeError>)
    ensures
        match hex_check(*j) {
            Ok(s) => r matches Ok(x) && x@ == s,
            Err(e) => r == Err::<Vec<u8>, DecodeError>(e),
        },
{
    match j {
        Json::Str(s) => match decode_hex(s.as_str()) {
            Some(b) => Ok(b),
            None => Err(DecodeError::InvalidLexical),
        },
        _ => Err(DecodeError::UnexpectedKind),
    }
}

/// The encoded members of a well-formed value decode without error, to
/// that value.
pub proof fn lemma_encoded_payload_decodes(x: DataXsd, j: Json)
    requires
        x.wf(),
        x.encoded_payload(j),
    ensures
        payload_error(x.value_type(), Some(j)) is None,
        x.payload_rel(Some(j)),
{
    match x {
        DataXsd::HexBinary(Some(b)) => {
            lemma_hex_round_trip(b@);
        },
        _ => {},
    }
}

/// Two values that the same member decodes to are equivalent.
pub proof fn lemma_payload_rel_unique(x: DataXsd, y: DataXsd, v: Option<Json>)
    requires
        x.value_type() == y.value_type(),
        x.payload_rel(v),
        y.payload_rel(v),
    ensures
        x.equiv(y),
{
    match (x, y) {
        (DataXsd::Base64Binary(Some(a)), DataXsd::Base64Binary(Some(b))) => {
            assert(a@ =~= b@);
        },
        (DataXsd::HexBinary(Some(a)), DataXsd::HexBinary(Some(b))) => {
            assert(a@ =~= b@);
        },
        _ => {},
    }
}

/// Two values that the same members decode to are equivalent.
pub proof fn lemma_rel_fields_unique(x: DataXsd, y: DataXsd, fs: Seq<(String, Json)>)
    requires
        x.rel_fields(fs),
        y.rel_fields(fs),
    ensures
        x.equiv(y),
{
    lemma_xsd_name_inverse(x.value_type());
    lemma_xsd_name_inverse(y.value_type());
    lemma_payload_rel_unique(x, y, member(fs, "value"@));
}

/// The members that encoding writes for `x` decode to `x`.
pub proof fn lemma_encoded_fields_rel(x: DataXsd, fs: Seq<(String, Json)>)
    requires
        x.wf(),
        x.encoded_fields(fs),
    ensures
        xsd_decode_error(fs) is None,
        x.rel_fields(fs),
{
    reveal_strlit("valueType");
    reveal_strlit("value");
    assert("valueType"@.len() == 9);
    lemma_xsd_name_inverse(x.value_type());
    assert(fs =~= seq![fs[0]] + fs.drop_first());
    lemma_lookup_first(fs.drop_first(), fs[0]);
    assert(fs[0].1 != Json::Null);
    if x.has_value() {
        assert("valueType"@ != "value"@);
        lemma_lookup_skip(fs.drop_first(), fs[0], "value"@);
        assert(fs.drop_first() =~= seq![fs[1]] + fs.drop_first().drop_first());
        lemma_lookup_first(fs.drop_first().drop_first(), fs[1]);
        lemma_encoded_payload_decodes(x, fs[1].1);
        assert(fs[1].1 != Json::Null);
    } else {
        assert("valueType"@ != "value"@);
        lemma_lookup_skip(fs.drop_first(), fs[0], "value"@);
        assert(fs.drop_first() =~= Seq::<(String, Json)>::empty());
    }
}

/// Decoding what encoding writes for a well-formed value gives an
/// equivalent value back, for every value type and also when no value is
/// present: the members `fs` written by `encode_fields` decode without error,
/// and every value they decode to is equivalent to `x`.
pub proof fn lemma_value_round_trip(x: DataXsd, fs: Seq<(String, Json)>)
    requires
        x.wf(),
        x.encoded_fields(fs),
    ensures
        xsd_decode_error(fs) is None,
        forall|y: DataXsd| #[trigger] y.rel_fields(fs) ==> y.equiv(x),
{
    lemma_encoded_fields_rel(x, fs);
    assert forall|y: DataXsd| #[trigger] y.rel_fields(fs) implies y.equiv(x) by {
        lemma_rel_fields_unique(y, x, fs);
    }
}

/// A name of the members that hold a value and its type.
pub open spec fn xsd_member_name(n: Seq<char>) -> bool {
    n == "valueType"@ || n == "value"@
}

impl DataXsd {
    /// Looking up the members `valueType` and `value` in `fs` finds what
    /// encoding writes for `self`.
    pub open spec fn encoded_lookups(self, fs: Seq<(String, Json)>) -> bool {
        &&& lookup(fs, "valueType"@) matches Some(Json::Str(s)) && s@ == xsd_name(self.value_type())
        &&& if self.has_value() {
            lookup(fs, "value"@) matches Some(j) && self.encoded_payload(j)
        } else {
            lookup(fs, "value"@) is None
        }
    }
}

/// The members written by `encode_fields` are found by their names.
pub proof fn lemma_encoded_fields_lookups(x: DataXsd, fs: Seq<(String, Json)>)
    requires
        x.encoded_fields(fs),
    ensures
        x.encoded_lookups(fs),
        crate::codec::names_within(fs, |n: Seq<char>| xsd_member_name(n)),
{
    reveal_strlit("valueType");
    reveal_strlit("value");
    assert("valueType"@.len() == 9);
    assert(fs =~= seq![fs[0]] + fs.drop_first());
    lemma_lookup_first(fs.drop_first(), fs[0]);
    lemma_lookup_skip(fs.drop_first(), fs[0], "value"@);
    if x.has_value() {
        assert(fs.drop_first() =~= seq![fs[1]] + fs.drop_first().drop_first());
        lemma_lookup_first(fs.drop_first().drop_first(), fs[1]);
    } else {
        assert(fs.drop_first() =~= Seq::<(String, Json)>::empty());
    }
}

/// Members found as encoding writes them decode to an equivalent value,
/// whatever other members stand beside them.
pub proof fn lemma_encoded_lookups_rel(x: DataXsd, fs: Seq<(String, Json)>)
    requires
        x.wf(),
        x.encoded_lookups(fs),
    ensures
        xsd_decode_error(fs) is None,
        x.rel_fields(fs),
{
    lemma_xsd_name_inverse(x.value_type());
    if x.has_value() {
        let j = lookup(fs, "value"@)->Some_0;
        lemma_encoded_payload_decodes(x, j);
        assert(j != Json::Null) by {
            match x {
                DataXsd::Boolean(_) => {},
                _ => {},
            }
        }
    }
}

impl crate::codec::JsonCodec for DataTypeXSDef {
    open spec fn wf(&self) -> bool {
        true
    }

    open spec fn encoded(&self, j: Json) -> bool {
        j matches Json::Str(s) && s@ == xsd_name(*self)
    }

    open spec fn rel(&self, j: Json) -> bool {
        j matches Json::Str(s) && xsd_from_name(s@) == Some(*self)
    }

    open spec fn decode_error(j: Json) -> Option<DecodeError> {
        match j {
            Json::Str(s) => if xsd_from_name(s@) is Some {
                None
            } else {
                Some(DecodeError::UnknownDiscriminator)
            },
            _ => Some(DecodeError::UnexpectedKind),
        }
    }

    open spec fn equiv(&self, o: &Self) -> bool {
        *self == *o
    }

    fn encode(&self) -> (r: Json) {
        Json::Str(self.name().to_string())
    }

    fn decode(j: &Json) -> (r: Result<Self, DecodeError>) {
        match j {
            Json::Str(s) => match DataTypeXSDef::from_name(s.as_str()) {
                Some(t) => Ok(t),
                None => Err(DecodeError::UnknownDiscriminator),
            },
            _ => Err(DecodeError::UnexpectedKind),
        }
    }

    proof fn lemma_round_trip(&self, j: Json) {
        lemma_xsd_name_inverse(*self);
    }

    proof fn lemma_unique(&self, o: &Self, j: Json) {
    }
}

} // verus!
