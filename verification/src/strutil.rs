//! Small text helpers shared by the token service and the validation engine:
//! trusted wrappers around the Unicode-aware std text functions, and a
//! verified decimal rendering of counts for failure messages.

use vstd::prelude::*;
use vstd::string::StrSliceExecFns;
use vstd::string::StringExecFns;

verus! {

/// What `str::trim` returns for a given character sequence.
pub uninterp spec fn trim_of(s: Seq<char>) -> Seq<char>;

/// What `str::to_lowercase` returns for a given character sequence.
pub uninterp spec fn lower_of(s: Seq<char>) -> Seq<char>;

/// A subject identifier as it is minted into a token: trimmed, then lower-cased.
pub open spec fn normalized_of(s: Seq<char>) -> Seq<char> {
    lower_of(trim_of(s))
}

/// Relies on `str::trim`: strips leading and trailing whitespace; the result
/// depends on the characters alone.
#[verifier::external_body]
pub(crate) fn trim_str<'a>(s: &'a str) -> (r: &'a str)
    ensures
        r@ == trim_of(s@),
{
    s.trim()
}

/// Relies on `str::to_lowercase`: Unicode lower-casing; the result depends on
/// the characters alone.
#[verifier::external_body]
pub(crate) fn lowercase_str(s: &str) -> (r: String)
    ensures
        r@ == lower_of(s@),
{
    s.to_lowercase()
}

/// Relies on `String::push`: appends the one character to the end.
#[verifier::external_body]
pub(crate) fn push_char(s: &mut String, c: char)
    ensures
        final(s)@ == old(s)@ + seq![c],
{
    s.push(c)
}

/// Relies on `char::is_alphanumeric`: whether the character is in the Unicode
/// categories the std documentation lists; a function of the character alone.
pub uninterp spec fn is_alphanumeric_char(c: char) -> bool;

#[verifier::external_body]
pub(crate) fn char_is_alphanumeric(c: char) -> (r: bool)
    ensures
        r == is_alphanumeric_char(c),
{
    c.is_alphanumeric()
}

/// Relies on `char::is_alphabetic`: whether the character is a Unicode letter;
/// a function of the character alone.
pub uninterp spec fn is_alphabetic_char(c: char) -> bool;

#[verifier::external_body]
pub(crate) fn char_is_alphabetic(c: char) -> (r: bool)
    ensures
        r == is_alphabetic_char(c),
{
    c.is_alphabetic()
}

/// Relies on `char::from_u32`: `Some` exactly for the valid Unicode scalar
/// values (below the surrogate range, or between its end and 0x10FFFF), and
/// the returned character casts back to the same number.
#[verifier::external_body]
pub(crate) fn char_from_u32(u: u32) -> (r: Option<char>)
    ensures
        r is Some <==> vstd::utf8::is_scalar(u),
        r matches Some(c) ==> c as u32 == u,
{
    char::from_u32(u)
}

/// The input trimmed of surrounding whitespace, as an owned string.
pub fn trimmed(s: &str) -> (r: String)
    ensures
        r@ == trim_of(s@),
{
    trim_str(s).to_owned()
}

/// The input trimmed and lower-cased: the normal form of subject identifiers.
pub fn normalized(s: &str) -> (r: String)
    ensures
        r@ == normalized_of(s@),
{
    lowercase_str(trim_str(s))
}

pub const DEC_DIGITS: [char; 10] = ['0', '1', '2', '3', '4', '5', '6', '7', '8', '9'];

/// The usual decimal rendering of a number, most significant digit first.
pub open spec fn spec_dec(n: nat) -> Seq<char>
    decreases n,
{
    if n < 10 {
        seq![DEC_DIGITS@[n as int]]
    } else {
        spec_dec(n / 10) + seq![DEC_DIGITS@[(n % 10) as int]]
    }
}

/// Renders a count in decimal, exactly as `spec_dec` describes it.
pub fn dec_string(n: usize) -> (r: String)
    ensures
        r@ == spec_dec(n as nat),
    decreases n,
{
    if n < 10 {
        let mut s = String::new();
        push_char(&mut s, DEC_DIGITS[n]);
        assert(s@ =~= spec_dec(n as nat));
        s
    } else {
        let mut s = dec_string(n / 10);
        push_char(&mut s, DEC_DIGITS[n % 10]);
        assert(s@ =~= spec_dec(n as nat));
        s
    }
}

/// Whether the character sequence contains the given character.
pub fn str_contains_char(s: &str, c: char) -> (r: bool)
    ensures
        r == s@.contains(c),
{
    let n: usize = s.unicode_len();
    let mut i: usize = 0;
    while i < n
        invariant
            n == s@.len(),
            i <= n,
            forall|j: int| 0 <= j < i ==> s@[j] != c,
        decreases n - i,
    {
        if s.get_char(i) == c {
            assert(s@[i as int] == c);
            return true;
        }
        i = i + 1;
    }
    false
}

} // verus!
