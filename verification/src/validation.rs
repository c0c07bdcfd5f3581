//! The two checks on what the user types: the account name and the
//! destination directory.

use vstd::prelude::*;

verus! {

/// The regular expression that an account name has to match as a whole.
pub const ACCOUNT_NAME_PATTERN: &'static str = "^[0-9A-Za-z_.-]+$";

/// Whether `c` may stand in an account name: an ASCII letter, an ASCII digit,
/// an underscore, a period or a hyphen.
pub open spec fn is_account_char(c: char) -> bool {
    ||| '0' <= c <= '9'
    ||| 'A' <= c <= 'Z'
    ||| 'a' <= c <= 'z'
    ||| c == '_'
    ||| c == '.'
    ||| c == '-'
}

/// Whether `name` is acceptable as an account name: it is not empty and every
/// character of it satisfies [`is_account_char`].
pub open spec fn is_account_name(name: Seq<char>) -> bool {
    &&& name.len() > 0
    &&& forall|i: int| 0 <= i < name.len() ==> is_account_char(#[trigger] name[i])
}

/// `regex::Error`: why a pattern could not be compiled. Nothing is read from
/// it here.
#[verifier::external_type_specification]
#[verifier::external_body]
pub struct ExRegexError(regex::Error);

/// Compiles `pattern` with `regex::Regex::new` and asks the compiled
/// expression, with `regex::Regex::is_match`, whether `haystack` holds a match.
///
/// Not proved, but taken from the documentation of the `regex` crate: for
/// [`ACCOUNT_NAME_PATTERN`] the pattern compiles, and a match exists exactly
/// when the haystack is an account name. In that pattern `^` and `$` stand
/// for the beginning and the end of the haystack, since the multi-line mode is
/// not switched on; `+` asks for one or more characters; and the class
/// between the brackets holds the ranges `0-9`, `A-Z` and `a-z` and the
/// characters `_`, `.` and `-`, the last two of which stand for themselves
/// inside a class. Nothing is claimed for other patterns. Neither function
/// panics.
#[verifier::external_body]
fn regex_is_match(pattern: &str, haystack: &str) -> (found: Result<bool, regex::Error>)
    ensures
        pattern@ == ACCOUNT_NAME_PATTERN@ ==> found is Ok && found->Ok_0 == is_account_name(
            haystack@,
        ),
{
    let re = regex::Regex::new(pattern)?;
    Ok(re.is_match(haystack))
}

/// Decides whether `username` is acceptable as an account name.
pub fn is_valid_username(username: &str) -> (valid: bool)
    ensures
        valid == is_account_name(username@),
{
    match regex_is_match(ACCOUNT_NAME_PATTERN, username) {
        Ok(found) => found,
        Err(_) => false,
    }
}

/// What a look at a path found: the part of the file system's metadata that
/// the check of a destination reads.
#[derive(Debug, Clone, Copy, PartialEq, Eq, Structural)]
pub struct PathMetadata {
    /// Whether the path names a directory.
    pub is_dir: bool,
}

/// Whether a look at a path found a directory. `None` stands for a look that
/// failed for whatever reason: nothing there, no permission, a broken link.
pub open spec fn is_directory(lookup: Option<PathMetadata>) -> bool {
    lookup matches Some(metadata) && metadata.is_dir
}

/// Decides whether a path can be cloned into, from what a look at it found.
pub fn is_valid_directory(lookup: Option<PathMetadata>) -> (valid: bool)
    ensures
        valid == is_directory(lookup),
{
    match lookup {
        None => false,
        Some(metadata) => metadata.is_dir,
    }
}

} // verus!
