//! Well-formedness of entry names.

use vstd::prelude::*;

verus! {

/// An ASCII letter.
pub open spec fn is_name_start(c: char) -> bool {
    ('a' <= c && c <= 'z') || ('A' <= c && c <= 'Z')
}

/// An ASCII letter, an ASCII digit or an underscore.
pub open spec fn is_name_char(c: char) -> bool {
    is_name_start(c) || ('0' <= c && c <= '9') || c == '_'
}

/// A well-formed name: non-empty, a letter first, then letters, digits
/// and underscores only.
pub open spec fn is_valid_name(s: Seq<char>) -> bool {
    &&& s.len() > 0
    &&& is_name_start(s[0])
    &&& forall|i: int| 0 <= i < s.len() ==> is_name_char(#[trigger] s[i])
}

/// The regular expression that well-formed names match.
pub open spec fn name_pattern() -> Seq<char> {
    "^[a-zA-Z][a-zA-Z0-9_]*$"@
}

/// `regex::Regex`, carried through as an opaque value.
#[verifier::external_type_specification]
#[verifier::external_body]
pub struct ExRegex(regex::Regex);

/// `regex::Error`, carried through as an opaque value.
#[verifier::external_type_specification]
#[verifier::external_body]
pub struct ExRegexError(regex::Error);

/// The pattern text that a compiled expression was built from, as
/// `regex::Regex::as_str` reports it.
pub uninterp spec fn regex_source(re: regex::Regex) -> Seq<char>;

/// Calls `regex::Regex::new`. Trusted: a compiled expression keeps the
/// pattern text it was given, and the name pattern, which is valid syntax
/// and far below the default size limit, compiles.
#[verifier::external_body]
fn compile(pattern: &str) -> (compiled: Result<regex::Regex, regex::Error>)
    ensures
        compiled matches Ok(re) ==> regex_source(re) == pattern@,
        pattern@ == name_pattern() ==> compiled is Ok,
{
    regex::Regex::new(pattern)
}

/// Calls `regex::Regex::is_match`. Trusted: for the name pattern, whose
/// anchors `^` and `$` bind the match to the whole text, whose first class
/// admits one ASCII letter and whose starred class admits any run of ASCII
/// letters, digits and underscores, a match exists exactly for the
/// well-formed names. Nothing is claimed of other patterns.
#[verifier::external_body]
fn is_match(re: &regex::Regex, text: &str) -> (found: bool)
    ensures
        regex_source(*re) == name_pattern() ==> found == is_valid_name(text@),
{
    re.is_match(text)
}

/// Whether `entry` is a well-formed name.
pub fn is_valid_entry(entry: &str) -> (valid: bool)
    ensures
        valid == is_valid_name(entry@),
{
    match compile("^[a-zA-Z][a-zA-Z0-9_]*$") {
        Ok(re) => is_match(&re, entry),
        Err(_) => false,
    }
}

} // verus!
