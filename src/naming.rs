//! Casing of generated identifiers.

use vstd::prelude::*;
use vstd::string::*;

verus! {

/// The upper-case mapping of a character, which may be several characters.
pub uninterp spec fn upper_of(c: char) -> Seq<char>;

/// `s` with its first character mapped to upper case.
pub open spec fn upper_first(s: Seq<char>) -> Seq<char> {
    if s.len() == 0 {
        s
    } else {
        upper_of(s[0]) + s.subrange(1, s.len() as int)
    }
}

/// Relies on `char::to_uppercase`: the Unicode upper-case mapping of `c`,
/// which depends on `c` alone.
#[verifier::external_body]
fn to_upper(c: char) -> (r: String)
    ensures
        r@ == upper_of(c),
{
    c.to_uppercase().collect()
}

/// `s` with its first character mapped to upper case; the empty string stays
/// empty.
pub fn first_letter_to_upper_case(s: &str) -> (r: String)
    ensures
        r@ == upper_first(s@),
{
    let n = s.unicode_len();
    if n == 0 {
        let r = String::new();
        assert(r@ =~= s@);
        return r;
    }
    let mut r = to_upper(s.get_char(0));
    r.append(s.substring_char(1, n));
    r
}

} // verus!
