use vstd::prelude::*;

verus! {

/// A character admitted in text values: tab, line feed, carriage return,
/// visible ASCII, the basic plane after the surrogates and private use
/// area, and the supplementary planes.
pub open spec fn is_text_char(c: char) -> bool {
    let u = c as u32;
    u == 0x09 || u == 0x0A || u == 0x0D || (0x20 <= u && u <= 0x7F) || (0xE000 <= u && u
        <= 0xFFFD) || (0x10000 <= u && u <= 0x10FFFF)
}

/// Every character of `s` is admitted in text values.
pub open spec fn is_text(s: Seq<char>) -> bool {
    forall|i: int| 0 <= i < s.len() ==> is_text_char(#[trigger] s[i])
}

/// Whether a single character is admitted in text values.
pub fn is_text_char_exec(c: char) -> (r: bool)
    ensures
        r == is_text_char(c),
{
    let u = c as u32;
    u == 0x09 || u == 0x0A || u == 0x0D || (0x20 <= u && u <= 0x7F) || (0xE000 <= u && u
        <= 0xFFFD) || (0x10000 <= u && u <= 0x10FFFF)
}

/// Checks that all characters of `txt` are admitted in text values.
pub fn validate_text(txt: &str) -> (r: bool)
    ensures
        r == is_text(txt@),
{
    let n = txt.unicode_len();
    let mut i: usize = 0;
    while i < n
        invariant
            n == txt@.len(),
            i <= n,
            forall|j: int| 0 <= j < i ==> is_text_char(#[trigger] txt@[j]),
        decreases n - i,
    {
        let c = txt.get_char(i);
        if !is_text_char_exec(c) {
            return false;
        }
        i += 1;
    }
    true
}

/// Character-wise equality of two strings.
pub fn str_eq(a: &str, b: &str) -> (r: bool)
    ensures
        r == (a@ == b@),
{
    let n = a.unicode_len();
    let m = b.unicode_len();
    if n != m {
        return false;
    }
    let mut i: usize = 0;
    while i < n
        invariant
            n == a@.len(),
            m == b@.len(),
            n == m,
            i <= n,
            forall|j: int| 0 <= j < i ==> a@[j] == b@[j],
        decreases n - i,
    {
        if a.get_char(i) != b.get_char(i) {
            return false;
        }
        i += 1;
    }
    assert(a@ =~= b@);
    true
}

} // verus!
