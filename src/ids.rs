//! Generated identities and the url-safe id rule.
use crate::error::{Cause, Error};
use vstd::prelude::*;

verus! {

/// A character of the Crockford base-32 alphabet, upper case.
pub open spec fn is_crockford_char(c: char) -> bool {
    ('0' <= c <= '9' || 'A' <= c <= 'Z') && c != 'I' && c != 'L' && c != 'O' && c != 'U'
}

/// Relies on ulid::Ulid::new and Ulid::to_string: a fresh identifier, written
/// as 26 characters of the Crockford base-32 alphabet.
#[verifier::external_body]
pub(crate) fn new_ulid() -> (r: String)
    ensures
        r@.len() == 26,
        forall|i: int| 0 <= i < 26 ==> is_crockford_char(#[trigger] r@[i]),
{
    ulid::Ulid::new().to_string()
}

/// Whether `pattern` is a valid regular expression.
pub uninterp spec fn regex_compiles(pattern: Seq<char>) -> bool;

/// Whether the compiled `pattern` matches somewhere in `text`.
pub uninterp spec fn regex_accepts(pattern: Seq<char>, text: Seq<char>) -> bool;

/// An ASCII letter, an ASCII digit or a dash.
pub open spec fn is_url_safe_char(c: char) -> bool {
    ('0' <= c <= '9') || ('a' <= c <= 'z') || ('A' <= c <= 'Z') || c == '-'
}

/// Only ASCII letters, digits and dashes, at least one of them.
pub open spec fn url_safe(id: Seq<char>) -> bool {
    id.len() > 0 && forall|i: int| 0 <= i < id.len() ==> is_url_safe_char(#[trigger] id[i])
}

/// Relies on regex::Regex::new, which fails exactly on an invalid pattern, and
/// on Regex::is_match. By the regex syntax that the crate documents,
/// `^[0-9a-zA-Z-]+$` compiles and matches exactly the non-empty texts made of
/// ASCII letters, digits and dashes.
#[verifier::external_body]
fn regex_is_match(pattern: &str, text: &str) -> (r: Option<bool>)
    ensures
        r is Some <==> regex_compiles(pattern@),
        r matches Some(b) ==> b == regex_accepts(pattern@, text@),
        pattern@ == URL_SAFE_ID_PATTERN@ ==> r == Some(url_safe(text@)),
{
    regex::Regex::new(pattern).ok().map(|re| re.is_match(text))
}

/// The pattern that url-safe ids match.
pub const URL_SAFE_ID_PATTERN: &'static str = "^[0-9a-zA-Z-]+$";

/// Accepts an id made only of alphanumeric characters and dashes.
pub fn validate_url_safe_id(id: &String) -> (r: Result<(), Error>)
    ensures
        r is Ok <==> url_safe(id@),
        r matches Err(e) ==> e matches Error::ValidationError(Cause::Input(_)),
{
    match regex_is_match(URL_SAFE_ID_PATTERN, id.as_str()) {
        Some(true) => Ok(()),
        _ => Err(
            Error::ValidationError(
                Cause::Input(
                    String::from_str("id should only contain alphanumeric characters and dashes"),
                ),
            ),
        ),
    }
}

} // verus!
