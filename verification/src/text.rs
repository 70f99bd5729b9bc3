use vstd::prelude::*;

verus! {

/// The ASCII lower-case form of one character: `A`..`Z` become `a`..`z`,
/// every other character is left as it is.
pub open spec fn ascii_lower_char(c: char) -> char {
    if 65 <= c as u32 && c as u32 <= 90 {
        ((c as u32) + 32) as char
    } else {
        c
    }
}

/// The ASCII lower-case form of a string, character by character.
pub open spec fn ascii_lowercase(s: Seq<char>) -> Seq<char> {
    s.map_values(|c: char| ascii_lower_char(c))
}

/// Two strings are equal when ASCII letters are compared without regard to case.
pub open spec fn ascii_eq_ignore_case(a: Seq<char>, b: Seq<char>) -> bool {
    ascii_lowercase(a) == ascii_lowercase(b)
}

/// `str::to_ascii_lowercase` (std). Its documentation: each ASCII letter `A`..`Z`
/// is mapped to `a`..`z`, every other character is unchanged.
#[verifier::external_body]
pub(crate) fn to_ascii_lowercase(s: &str) -> (res: String)
    ensures
        res@ == ascii_lowercase(s@),
{
    s.to_ascii_lowercase()
}

/// `str::eq_ignore_ascii_case` (std). Its documentation: the same as
/// `to_ascii_lowercase(a) == to_ascii_lowercase(b)`.
#[verifier::external_body]
pub(crate) fn eq_ignore_ascii_case(a: &str, b: &str) -> (res: bool)
    ensures
        res == ascii_eq_ignore_case(a@, b@),
{
    a.eq_ignore_ascii_case(b)
}

/// Lower-casing twice is the same as lower-casing once.
pub proof fn lemma_ascii_lowercase_idempotent(s: Seq<char>)
    ensures
        ascii_lowercase(ascii_lowercase(s)) == ascii_lowercase(s),
{
    assert(ascii_lowercase(ascii_lowercase(s)) =~= ascii_lowercase(s));
}

} // verus!
