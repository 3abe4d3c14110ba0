//! URL slugs for post titles.

use crate::text::{chars_of, string_of};
use regex::{Error as RegexError, Regex};
use vstd::prelude::*;
use vstd::string::StringExecFns;
use vstd::utf8::encode_utf8;

verus! {

#[verifier::external_type_specification]
#[verifier::external_body]
pub struct ExRegexError(RegexError);

/// Whether a pattern compiles as a regular expression.
pub uninterp spec fn valid_pattern(pattern: Seq<char>) -> bool;

/// `text` with the first match of `pattern` replaced by `rep`.
pub uninterp spec fn first_replaced(pattern: Seq<char>, text: Seq<char>, rep: Seq<char>) -> Seq<
    char,
>;

/// `text` with every match of `pattern` replaced by `rep`.
pub uninterp spec fn all_replaced(pattern: Seq<char>, text: Seq<char>, rep: Seq<char>) -> Seq<
    char,
>;

/// What `str::to_lowercase` gives for a string.
pub uninterp spec fn lower_of(s: Seq<char>) -> Seq<char>;

/// Relies on `regex::Regex::new` and `Regex::replace`: compiling depends on
/// the pattern alone, and the replacement on the three strings alone.
#[verifier::external_body]
fn replace_first(pattern: &str, text: &str, rep: &str) -> (r: Result<String, RegexError>)
    ensures
        r is Ok == valid_pattern(pattern@),
        r is Ok ==> r.unwrap()@ == first_replaced(pattern@, text@, rep@),
{
    Regex::new(pattern).map(|re| re.replace(text, rep).into_owned())
}

/// Relies on `regex::Regex::new` and `Regex::replace_all`, as above.
#[verifier::external_body]
fn replace_all(pattern: &str, text: &str, rep: &str) -> (r: Result<String, RegexError>)
    ensures
        r is Ok == valid_pattern(pattern@),
        r is Ok ==> r.unwrap()@ == all_replaced(pattern@, text@, rep@),
{
    Regex::new(pattern).map(|re| re.replace_all(text, rep).into_owned())
}

/// Relies on `str::to_lowercase`: the result depends on the characters alone.
#[verifier::external_body]
fn lowercase(s: &str) -> (r: String)
    ensures
        r@ == lower_of(s@),
{
    s.to_lowercase()
}

/// Longest slug, in characters, kept when the slug is longer in bytes.
pub const SLUG_MAX: usize = 30;

/// Whether the four patterns a slug is made with compile.
pub open spec fn slug_patterns_valid() -> bool {
    &&& valid_pattern("^\\s+|\\s+$"@)
    &&& valid_pattern("[^a-z0-9 -]"@)
    &&& valid_pattern("\\s+"@)
    &&& valid_pattern("-+"@)
}

/// The slug of a title: surrounding white space trimmed, lower-cased, the
/// first character outside `[a-z0-9 -]` dropped, the first run of white space
/// made a hyphen, the first run of hyphens made one; then cut to `SLUG_MAX`
/// characters when longer than that in bytes and in characters.
pub open spec fn slug_of(value: Seq<char>) -> Seq<char> {
    let trimmed = all_replaced("^\\s+|\\s+$"@, value, ""@);
    let lowered = lower_of(trimmed);
    let cleaned = first_replaced("[^a-z0-9 -]"@, lowered, ""@);
    let hyphened = first_replaced("\\s+"@, cleaned, "-"@);
    let dashed = first_replaced("-+"@, hyphened, "-"@);
    if encode_utf8(dashed).len() as usize > SLUG_MAX && dashed.len() > SLUG_MAX {
        dashed.take(SLUG_MAX as int)
    } else {
        dashed
    }
}

/// Makes a URL slug from a title. Should a pattern fail to compile, the title
/// is given back unchanged.
pub fn slugify(value: &str) -> (r: String)
    ensures
        slug_patterns_valid() ==> r@ == slug_of(value@),
{
    let trimmed = match replace_all("^\\s+|\\s+$", value, "") {
        Ok(s) => s,
        Err(_) => {
            return String::from_str(value);
        },
    };
    let lowered = lowercase(trimmed.as_str());
    let cleaned = match replace_first("[^a-z0-9 -]", lowered.as_str(), "") {
        Ok(s) => s,
        Err(_) => {
            return String::from_str(value);
        },
    };
    let hyphened = match replace_first("\\s+", cleaned.as_str(), "-") {
        Ok(s) => s,
        Err(_) => {
            return String::from_str(value);
        },
    };
    let dashed = match replace_first("-+", hyphened.as_str(), "-") {
        Ok(s) => s,
        Err(_) => {
            return String::from_str(value);
        },
    };
    let byte_len = dashed.as_str().len();
    if byte_len > SLUG_MAX {
        let chars = chars_of(dashed.as_str());
        if chars.len() > SLUG_MAX {
            string_of(&chars, 0, SLUG_MAX)
        } else {
            dashed
        }
    } else {
        dashed
    }
}

} // verus!
