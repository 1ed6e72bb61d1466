//! Recognition of firmware object keys.
//!
//! A firmware image is stored under a key of the form
//! `charizhard.V<major>.<minor>.bin`; the version tag of a key is what the
//! pattern below captures in it. Matching is done by the `regex` crate.

use vstd::prelude::*;
use vstd::pervasive::unreached;

verus! {

/// The pattern applied to every object key of the firmware bucket. Its one
/// capture group is the version tag.
pub const FIRMWARE_PATTERN: &'static str = "charizhard\\.V(\\d+\\.\\d+)\\.bin";

/// The error of `regex::Regex::new`, carried through unopened.
#[verifier::external_type_specification]
#[verifier::external_body]
pub struct ExRegexError(regex::Error);

/// The text that capture group 1 of `pattern` holds in the first match that
/// `regex::Regex::captures` finds in `haystack`; `None` where nothing
/// matches or the group took no part in the match.
pub uninterp spec fn first_group(pattern: Seq<char>, haystack: Seq<char>) -> Option<Seq<char>>;

/// The view of an optional string.
pub open spec fn text_of(found: Option<String>) -> Option<Seq<char>> {
    match found {
        Some(s) => Some(s@),
        None => None,
    }
}

/// Compiles `pattern` with `regex::Regex::new` and searches `haystack` with
/// `Regex::captures`. Trusted: where the pattern compiles, the result is the
/// text of capture group 1 of the first match, if there is one; and the
/// firmware pattern compiles. The second claim rests on the syntax that the
/// crate documents: the pattern is made of literal letters, `\.` for a
/// literal dot, `\d` for a digit, `+` for one or more, and one numbered
/// group, and it is far below the size limit.
#[verifier::external_body]
fn capture_first_group(pattern: &str, haystack: &str) -> (r: Result<Option<String>, regex::Error>)
    ensures
        r matches Ok(found) ==> text_of(found) == first_group(pattern@, haystack@),
        pattern@ == FIRMWARE_PATTERN@ ==> r is Ok,
{
    let re = regex::Regex::new(pattern)?;
    Ok(re.captures(haystack).and_then(|caps| caps.get(1)).map(|m| m.as_str().to_string()))
}

/// The version tag of an object key, if the key names a firmware image.
pub open spec fn version_of(key: Seq<char>) -> Option<Seq<char>> {
    first_group(FIRMWARE_PATTERN@, key)
}

/// Extracts the version tag of `key`: what the firmware pattern captures in
/// it, or `None` for a key that the pattern does not match.
pub fn extract_version(key: &str) -> (r: Option<String>)
    ensures
        text_of(r) == version_of(key@),
{
    match capture_first_group(FIRMWARE_PATTERN, key) {
        Ok(found) => found,
        Err(_) => unreached(),
    }
}

} // verus!
