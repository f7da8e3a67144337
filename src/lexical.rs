use vstd::prelude::*;
use serde_with::base64::{Base64, Standard};
use serde_with::formats::Padded;
use serde_with::{DeserializeAs, SerializeAs};

verus! {

/// The decimal digit character of `d`.
pub open spec fn digit_char(d: nat) -> char {
    if d == 0 {
        '0'
    } else if d == 1 {
        '1'
    } else if d == 2 {
        '2'
    } else if d == 3 {
        '3'
    } else if d == 4 {
        '4'
    } else if d == 5 {
        '5'
    } else if d == 6 {
        '6'
    } else if d == 7 {
        '7'
    } else if d == 8 {
        '8'
    } else {
        '9'
    }
}

/// The decimal digits of `n`, most significant first, without leading zeros.
pub open spec fn digits_of(n: nat) -> Seq<char>
    decreases n,
{
    if n < 10 {
        seq![digit_char(n)]
    } else {
        digits_of(n / 10).push(digit_char(n % 10))
    }
}

/// The decimal text of an integer: a minus sign for negatives, then digits.
pub open spec fn int_text(i: int) -> Seq<char> {
    if i < 0 {
        seq!['-'] + digits_of((-i) as nat)
    } else {
        digits_of(i as nat)
    }
}

/// `bigdecimal` accepts `s` as the text of a decimal number.
pub uninterp spec fn decimal_parses(s: Seq<char>) -> bool;

/// `chrono` accepts `s` as a time of day.
pub uninterp spec fn time_parses(s: Seq<char>) -> bool;

/// `chrono` accepts `s` as a calendar date.
pub uninterp spec fn date_parses(s: Seq<char>) -> bool;

/// `chrono` accepts `s` as a date and time with an offset.
pub uninterp spec fn date_time_parses(s: Seq<char>) -> bool;

/// `iref` accepts `s` as an IRI.
pub uninterp spec fn iri_parses(s: Seq<char>) -> bool;

/// The single-character text of the decimal digit of `d`.
fn digit_str(d: u128) -> (r: &'static str)
    requires
        d < 10,
    ensures
        r@ == seq![digit_char(d as nat)],
{
    if d == 0 {
        proof {
            reveal_strlit("0");
        }
        "0"
    }
    else if d == 1 {
        proof {
            reveal_strlit("1");
        }
        "1"
    }
    else if d == 2 {
        proof {
            reveal_strlit("2");
        }
        "2"
    }
    else if d == 3 {
        proof {
            reveal_strlit("3");
        }
        "3"
    }
    else if d == 4 {
        proof {
            reveal_strlit("4");
        }
        "4"
    }
    else if d == 5 {
        proof {
            reveal_strlit("5");
        }
        "5"
    }
    else if d == 6 {
        proof {
            reveal_strlit("6");
        }
        "6"
    }
    else if d == 7 {
        proof {
            reveal_strlit("7");
        }
        "7"
    }
    else if d == 8 {
        proof {
            reveal_strlit("8");
        }
        "8"
    }
    else {
        proof {
            reveal_strlit("9");
        }
        "9"
    }
}

/// The decimal digits of `n`, most significant first.
fn digits_text(n: u128) -> (r: String)
    ensures
        r@ == digits_of(n as nat),
    decreases n,
{
    if n < 10 {
        let mut r = String::new();
        r.append(digit_str(n));
        r
    } else {
        let mut r = digits_text(n / 10);
        r.append(digit_str(n % 10));
        r
    }
}

/// The decimal text of `i`: a minus sign for negatives, then the digits.
pub(crate) fn int_to_text(i: i128) -> (r: String)
    ensures
        r@ == int_text(i as int),
{
    if i < 0 {
        let m: u128 = (-(i + 1)) as u128 + 1;
        let mut r = String::new();
        proof {
            reveal_strlit("-");
        }
        r.append("-");
        let d = digits_text(m);
        r.append(d.as_str());
        r
    } else {
        digits_text(i as u128)
    }
}

/// Relies on `FromStr` of `bigdecimal::BigDecimal`: whether it parses `s`.
#[verifier::external_body]
pub(crate) fn decimal_accepts(s: &str) -> (r: bool)
    ensures
        r == decimal_parses(s@),
{
    s.parse::<bigdecimal::BigDecimal>().is_ok()
}

/// Relies on `FromStr` of `chrono::NaiveTime`: whether it parses `s`.
#[verifier::external_body]
pub(crate) fn time_accepts(s: &str) -> (r: bool)
    ensures
        r == time_parses(s@),
{
    s.parse::<chrono::NaiveTime>().is_ok()
}

/// Relies on `FromStr` of `chrono::NaiveDate`: whether it parses `s`.
#[verifier::external_body]
pub(crate) fn date_accepts(s: &str) -> (r: bool)
    ensures
        r == date_parses(s@),
{
    s.parse::<chrono::NaiveDate>().is_ok()
}

/// Relies on `FromStr` of `chrono::DateTime<chrono::Utc>`: whether it parses `s`.
#[verifier::external_body]
pub(crate) fn date_time_accepts(s: &str) -> (r: bool)
    ensures
        r == date_time_parses(s@),
{
    s.parse::<chrono::DateTime<chrono::Utc>>().is_ok()
}

/// Relies on `iref::IriBuf::new`: whether it accepts `s` as an IRI.
#[verifier::external_body]
pub(crate) fn iri_accepts(s: &str) -> (r: bool)
    ensures
        r == iri_parses(s@),
{
    iref::IriBuf::new(s.to_string()).is_ok()
}

/// The lower-case hexadecimal digit of `d`, for `d` in `0..16`.
pub open spec fn hex_digit(d: int) -> char {
    if d == 0 {
        '0'
    }
    else if d == 1 {
        '1'
    }
    else if d == 2 {
        '2'
    }
    else if d == 3 {
        '3'
    }
    else if d == 4 {
        '4'
    }
    else if d == 5 {
        '5'
    }
    else if d == 6 {
        '6'
    }
    else if d == 7 {
        '7'
    }
    else if d == 8 {
        '8'
    }
    else if d == 9 {
        '9'
    }
    else if d == 10 {
        'a'
    }
    else if d == 11 {
        'b'
    }
    else if d == 12 {
        'c'
    }
    else if d == 13 {
        'd'
    }
    else if d == 14 {
        'e'
    }
    else {
        'f'
    }
}

/// The value of a hexadecimal digit of either case, or -1.
pub open spec fn hex_value(c: char) -> int {
    if c == '0' {
        0
    }
    else if c == '1' {
        1
    }
    else if c == '2' {
        2
    }
    else if c == '3' {
        3
    }
    else if c == '4' {
        4
    }
    else if c == '5' {
        5
    }
    else if c == '6' {
        6
    }
    else if c == '7' {
        7
    }
    else if c == '8' {
        8
    }
    else if c == '9' {
        9
    }
    else if c == 'a' {
        10
    }
    else if c == 'b' {
        11
    }
    else if c == 'c' {
        12
    }
    else if c == 'd' {
        13
    }
    else if c == 'e' {
        14
    }
    else if c == 'f' {
        15
    }
    else if c == 'A' {
        10
    }
    else if c == 'B' {
        11
    }
    else if c == 'C' {
        12
    }
    else if c == 'D' {
        13
    }
    else if c == 'E' {
        14
    }
    else if c == 'F' {
        15
    }
    else {
        -1
    }
}

/// The hexadecimal text of bytes: two lower-case digits per byte.
pub open spec fn hex_text(b: Seq<u8>) -> Seq<char> {
    Seq::new(
        2 * b.len(),
        |i: int| hex_digit(if i % 2 == 0 { b[i / 2] as int / 16 } else { b[i / 2] as int % 16 }),
    )
}

/// The bytes that a hexadecimal text of either case denotes: two digits
/// per byte.
pub open spec fn hex_bytes(s: Seq<char>) -> Option<Seq<u8>> {
    if s.len() % 2 == 0 && forall|i: int| 0 <= i < s.len() ==> #[trigger] hex_value(s[i]) >= 0 {
        Some(Seq::new(s.len() / 2, |k: int| (hex_value(s[2 * k]) * 16 + hex_value(s[2 * k + 1])) as u8))
    } else {
        None
    }
}

/// A digit's value is found again from it.
proof fn lemma_hex_digit_value(d: int)
    requires
        0 <= d < 16,
    ensures
        hex_value(hex_digit(d)) == d,
{
}

/// Reading the hexadecimal text of bytes gives the bytes back.
pub proof fn lemma_hex_round_trip(b: Seq<u8>)
    ensures
        hex_bytes(hex_text(b)) == Some(b),
{
    let s = hex_text(b);
    assert forall|i: int| 0 <= i < s.len() implies #[trigger] hex_value(s[i]) >= 0 by {
        let x = b[i / 2] as int;
        lemma_hex_digit_value(x / 16);
        lemma_hex_digit_value(x % 16);
    }
    let r = Seq::new(s.len() / 2, |k: int| (hex_value(s[2 * k]) * 16 + hex_value(s[2 * k + 1])) as u8);
    assert forall|k: int| 0 <= k < r.len() implies r[k] == b[k] by {
        let x = b[k] as int;
        assert((2 * k) % 2 == 0 && (2 * k) / 2 == k);
        assert((2 * k + 1) % 2 == 1 && (2 * k + 1) / 2 == k);
        lemma_hex_digit_value(x / 16);
        lemma_hex_digit_value(x % 16);
        assert(x / 16 * 16 + x % 16 == x);
    }
    assert(r =~= b);
}

/// The single-character text of the hexadecimal digit of `d`.
fn hex_digit_str(d: u8) -> (r: &'static str)
    requires
        d < 16,
    ensures
        r@ == seq![hex_digit(d as int)],
{
    if d == 0 {
        proof {
            reveal_strlit("0");
        }
        "0"
    }
    else if d == 1 {
        proof {
            reveal_strlit("1");
        }
        "1"
    }
    else if d == 2 {
        proof {
            reveal_strlit("2");
        }
        "2"
    }
    else if d == 3 {
        proof {
            reveal_strlit("3");
        }
        "3"
    }
    else if d == 4 {
        proof {
            reveal_strlit("4");
        }
        "4"
    }
    else if d == 5 {
        proof {
            reveal_strlit("5");
        }
        "5"
    }
    else if d == 6 {
        proof {
            reveal_strlit("6");
        }
        "6"
    }
    else if d == 7 {
        proof {
            reveal_strlit("7");
        }
        "7"
    }
    else if d == 8 {
        proof {
            reveal_strlit("8");
        }
        "8"
    }
    else if d == 9 {
        proof {
            reveal_strlit("9");
        }
        "9"
    }
    else if d == 10 {
        proof {
            reveal_strlit("a");
        }
        "a"
    }
    else if d == 11 {
        proof {
            reveal_strlit("b");
        }
        "b"
    }
    else if d == 12 {
        proof {
            reveal_strlit("c");
        }
        "c"
    }
    else if d == 13 {
        proof {
            reveal_strlit("d");
        }
        "d"
    }
    else if d == 14 {
        proof {
            reveal_strlit("e");
        }
        "e"
    }
    else {
        proof {
            reveal_strlit("f");
        }
        "f"
    }
}

/// The value of a hexadecimal digit, if `c` is one.
fn hex_digit_value(c: char) -> (r: Option<u8>)
    ensures
        match r {
            Some(v) => hex_value(c) == v as int && v < 16,
            None => hex_value(c) == -1,
        },
{
    if c == '0' {
        Some(0)
    }
    else if c == '1' {
        Some(1)
    }
    else if c == '2' {
        Some(2)
    }
    else if c == '3' {
        Some(3)
    }
    else if c == '4' {
        Some(4)
    }
    else if c == '5' {
        Some(5)
    }
    else if c == '6' {
        Some(6)
    }
    else if c == '7' {
        Some(7)
    }
    else if c == '8' {
        Some(8)
    }
    else if c == '9' {
        Some(9)
    }
    else if c == 'a' {
        Some(10)
    }
    else if c == 'b' {
        Some(11)
    }
    else if c == 'c' {
        Some(12)
    }
    else if c == 'd' {
        Some(13)
    }
    else if c == 'e' {
        Some(14)
    }
    else if c == 'f' {
        Some(15)
    }
    else if c == 'A' {
        Some(10)
    }
    else if c == 'B' {
        Some(11)
    }
    else if c == 'C' {
        Some(12)
    }
    else if c == 'D' {
        Some(13)
    }
    else if c == 'E' {
        Some(14)
    }
    else if c == 'F' {
        Some(15)
    }
    else {
        None
    }
}

/// The hexadecimal text of bytes: two lower-case digits per byte.
pub fn encode_hex(b: &Vec<u8>) -> (r: String)
    ensures
        r@ == hex_text(b@),
{
    let mut r = String::new();
    let mut i: usize = 0;
    while i < b.len()
        invariant
            i <= b@.len(),
            r@ == hex_text(b@.subrange(0, i as int)),
        decreases b@.len() - i,
    {
        let x = b[i];
        r.append(hex_digit_str(x / 16));
        r.append(hex_digit_str(x % 16));
        proof {
            assert(hex_text(b@.subrange(0, i + 1)) =~= hex_text(b@.subrange(0, i as int)) + seq![
                hex_digit(x as int / 16),
                hex_digit(x as int % 16),
            ]);
        }
        i += 1;
    }
    assert(b@.subrange(0, b@.len() as int) =~= b@);
    r
}

/// The bytes that a hexadecimal text of either case denotes, if it is one.
pub fn decode_hex(s: &str) -> (r: Option<Vec<u8>>)
    ensures
        match hex_bytes(s@) {
            Some(b) => r matches Some(v) && v@ == b,
            None => r is None,
        },
{
    let n = s.unicode_len();
    if n % 2 != 0 {
        return None;
    }
    let mut out: Vec<u8> = Vec::new();
    let mut k: usize = 0;
    while k < n / 2
        invariant
            n == s@.len(),
            n % 2 == 0,
            k <= n / 2,
            out@.len() == k,
            forall|i: int| 0 <= i < 2 * k ==> #[trigger] hex_value(s@[i]) >= 0,
            forall|m: int| 0 <= m < k ==> #[trigger] out@[m] == (hex_value(s@[2 * m]) * 16 + hex_value(s@[2 * m + 1])) as u8,
        decreases n / 2 - k,
    {
        let hi = match hex_digit_value(s.get_char(2 * k)) {
            Some(v) => v,
            None => return None,
        };
        let lo = match hex_digit_value(s.get_char(2 * k + 1)) {
            Some(v) => v,
            None => return None,
        };
        out.push(hi * 16 + lo);
        k += 1;
    }
    proof {
        assert(hex_bytes(s@) is Some);
        assert(out@ =~= hex_bytes(s@)->Some_0);
    }
    Some(out)
}

/// The standard, padded base64 text of the bytes `b`.
pub uninterp spec fn base64_text(b: Seq<u8>) -> Seq<char>;

/// The bytes that `s` encodes in standard base64, if it is such an encoding.
pub uninterp spec fn base64_bytes(s: Seq<char>) -> Option<Seq<u8>>;

/// Relies on `serde_with::base64::Base64<Standard, Padded>` as
/// `SerializeAs<Vec<u8>>`, written to a `serde_json` value: the standard
/// padded base64 text of `b`. Decoding it, with the same alphabet and either
/// padding, gives `b` back.
#[verifier::external_body]
pub(crate) fn base64_encode(b: &Vec<u8>) -> (r: String)
    ensures
        r@ == base64_text(b@),
        base64_bytes(r@) == Some(b@),
{
    match <Base64<Standard, Padded> as SerializeAs<Vec<u8>>>::serialize_as(b, serde_json::value::Serializer) {
        Ok(serde_json::Value::String(t)) => t,
        _ => String::new(),
    }
}

/// Relies on `serde_with::base64::Base64<Standard, Padded>` as
/// `DeserializeAs<Vec<u8>>`, read from a `serde_json` string: the decoded
/// bytes, when `s` is standard base64.
#[verifier::external_body]
pub(crate) fn base64_decode(s: &String) -> (r: Option<Vec<u8>>)
    ensures
        match base64_bytes(s@) {
            Some(b) => r matches Some(v) && v@ == b,
            None => r is None,
        },
{
    <Base64<Standard, Padded> as DeserializeAs<Vec<u8>>>::deserialize_as(serde_json::Value::String(s.clone())).ok()
}

} // verus!
