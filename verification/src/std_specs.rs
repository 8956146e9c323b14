//! Contracts for the standard-library functions that the crate calls and
//! that `vstd` leaves unspecified. Each contract is believed, not proved.

use vstd::prelude::*;

verus! {

/// Whether `c` carries the Unicode property `White_Space`, which is what
/// `char::is_whitespace` reports.
pub uninterp spec fn is_white_space(c: char) -> bool;

/// `char::is_whitespace` depends on the character alone; its answer is
/// `is_white_space`.
pub assume_specification[ char::is_whitespace ](c: char) -> (r: bool)
    ensures
        r == is_white_space(c),
;

/// The lowercase form of `text` as `str::to_lowercase` computes it from the
/// Unicode case tables.
pub uninterp spec fn lowercase_of(text: Seq<char>) -> Seq<char>;

/// `str::to_lowercase` depends on the characters of the string alone; the
/// string it returns reads `lowercase_of` of them.
pub assume_specification[ str::to_lowercase ](s: &str) -> (r: String)
    ensures
        r@ == lowercase_of(s@),
;

/// The final component of the path written as `path`, as
/// `std::path::Path::file_name` finds it under the path syntax of the
/// platform the crate is built for; `None` where the path has none, as for a
/// path that ends in `..`.
pub uninterp spec fn final_component(path: Seq<char>) -> Option<Seq<char>>;

/// Calls `std::path::Path::file_name` on the path written as `path`. The
/// component it returns is a piece of `path` and therefore text; the contract
/// claims only that it is `final_component` of the path.
#[verifier::external_body]
pub(crate) fn file_name<'a>(path: &'a str) -> (r: Option<&'a str>)
    ensures
        match r {
            Some(name) => final_component(path@) == Some(name@),
            None => final_component(path@) is None,
        },
{
    std::path::Path::new(path).file_name().and_then(|name| name.to_str())
}

/// The path that `std::path::Path::join` builds from `base` and `part`, under
/// the path syntax of the platform the crate is built for.
pub uninterp spec fn joined_path(base: Seq<char>, part: Seq<char>) -> Seq<char>;

/// Calls `std::path::Path::join` on the path written as `base` with `part`.
/// Both are text, so the result is too; the contract claims only that it
/// reads `joined_path` of the two.
#[verifier::external_body]
pub(crate) fn join_path(base: &str, part: &str) -> (r: String)
    ensures
        r@ == joined_path(base@, part@),
{
    std::path::Path::new(base).join(part).to_string_lossy().into_owned()
}

/// `String::push` appends the character to the end of the string.
pub assume_specification[ String::push ](s: &mut String, c: char)
    ensures
        final(s)@ == old(s)@.push(c),
;

} // verus!
