//! String operations of the standard library, with the contracts that the
//! rest of the library reasons from.

use vstd::prelude::*;
use crate::text::{is_prefix, occurs_in};

verus! {

/// The texts of a sequence of strings.
pub open spec fn texts(v: Seq<String>) -> Seq<Seq<char>> {
    v.map_values(|s: String| s@)
}

/// `hay` with every occurrence of `pat` taken out, found from the left and
/// without overlap. An empty pattern takes nothing out.
pub open spec fn without_occurrences(hay: Seq<char>, pat: Seq<char>) -> Seq<char>
    decreases hay.len(),
{
    if pat.len() == 0 || hay.len() < pat.len() {
        hay
    } else if is_prefix(pat, hay) {
        without_occurrences(hay.skip(pat.len() as int), pat)
    } else {
        seq![hay[0]] + without_occurrences(hay.skip(1), pat)
    }
}

/// An ASCII capital letter becomes its small letter; any other character stays.
pub open spec fn ascii_lower_char(c: char) -> char {
    if 'A' <= c && c <= 'Z' {
        ((c as u8) + 32) as char
    } else {
        c
    }
}

/// `s` with its ASCII capital letters made small.
pub open spec fn ascii_lowercase(s: Seq<char>) -> Seq<char> {
    s.map_values(|c: char| ascii_lower_char(c))
}

/// What `str::to_lowercase` makes of a text: its lowercase form by the
/// Unicode character tables.
pub uninterp spec fn unicode_lowercase(s: Seq<char>) -> Seq<char>;

/// What `str::trim_start` leaves of a text: the text without its leading
/// white space, as Unicode defines white space.
pub uninterp spec fn without_leading_space(s: Seq<char>) -> Seq<char>;

/// `str::eq`: two string slices are equal when they hold the same characters.
#[verifier::external_body]
pub(crate) fn str_eq(a: &str, b: &str) -> (r: bool)
    ensures
        r == (a@ == b@),
{
    a == b
}

/// `str::starts_with` for a string pattern: whether `prefix` stands at the
/// start of `s`.
#[verifier::external_body]
pub(crate) fn str_starts_with(s: &str, prefix: &str) -> (r: bool)
    ensures
        r == is_prefix(prefix@, s@),
{
    s.starts_with(prefix)
}

/// `str::contains` for a string pattern: whether `pat` occurs in `s`.
#[verifier::external_body]
pub(crate) fn str_contains(s: &str, pat: &str) -> (r: bool)
    ensures
        r == occurs_in(pat@, s@),
{
    s.contains(pat)
}

/// `str::replace` with an empty replacement: every match of `pat`, found
/// from the left and without overlap, is left out of the copy.
#[verifier::external_body]
pub(crate) fn remove_occurrences(hay: &str, pat: &str) -> (r: String)
    ensures
        r@ == without_occurrences(hay@, pat@),
{
    hay.replace(pat, "")
}

/// `str::to_lowercase`: the result is named, not computed here.
#[verifier::external_body]
pub(crate) fn to_lowercase(s: &str) -> (r: String)
    ensures
        r@ == unicode_lowercase(s@),
{
    s.to_lowercase()
}

/// `str::trim_start`: the result is named, not computed here.
#[verifier::external_body]
pub(crate) fn trim_start(s: &str) -> (r: &str)
    ensures
        r@ == without_leading_space(s@),
{
    s.trim_start()
}

/// The characters of `a` followed by those of `b`.
pub fn joined(a: &str, b: &str) -> (r: String)
    ensures
        r@ == a@ + b@,
{
    let mut r = a.to_owned();
    r.append(b);
    r
}

} // verus!
