//! What a writer needs to know besides the lines: how large the sheet is,
//! and under which name the drawing is stored.

use vstd::prelude::*;

use crate::common::drawing::DrawResult;
use crate::common::point::{Anchor, Point};
use crate::common::VIEWPORT_OFFSET;

verus! {

/// The upper-case form of a string as `str::to_uppercase` of the standard
/// library gives it: every character replaced by its upper-case mapping in
/// Unicode, which may be longer than one character.
pub uninterp spec fn uppercase_of(s: Seq<char>) -> Seq<char>;

/// Calls `str::to_uppercase`. The contract is not proved but taken from
/// the documentation of the standard library: the result is the upper-case
/// form of the argument. Which characters that form holds is not stated,
/// only that it depends on nothing but the argument.
#[verifier::external_body]
fn to_uppercase(s: &str) -> (r: String)
    ensures
        r@ == uppercase_of(s@),
{
    s.to_uppercase()
}

/// Calls `str::ends_with` with a string as the pattern. The contract is
/// not proved but taken from the documentation of the standard library:
/// the result tells whether the characters of `suffix` are the last
/// characters of `s`.
#[verifier::external_body]
fn ends_with(s: &str, suffix: &str) -> (b: bool)
    ensures
        b == suffix@.is_suffix_of(s@),
{
    s.ends_with(suffix)
}

/// A file name given by the user was refused.
#[derive(Debug, Clone, Copy, PartialEq, Eq, Structural)]
pub enum FileNameError {
    /// The name does not end in `.svg`, in whatever case.
    NotSvg,
}

/// Whether the upper-case form `upper` of a file name ends in `.SVG`.
pub open spec fn ends_in_svg(upper: Seq<char>) -> bool {
    ".SVG"@.is_suffix_of(upper)
}

/// The name under which a drawing is stored.
///
/// Without a name from the user it is the default name of the drawing. A
/// name from the user is taken as it is if it ends in `.svg`, in whatever
/// case, and refused otherwise.
pub open spec fn save_path_of(
    file: Option<Seq<char>>,
    default_file_name: Seq<char>,
) -> Result<Seq<char>, FileNameError> {
    match file {
        None => Ok(default_file_name),
        Some(name) => if ends_in_svg(uppercase_of(name)) {
            Ok(name)
        } else {
            Err(FileNameError::NotSvg)
        },
    }
}

/// The characters of a file name that may be missing.
pub open spec fn name_view(file: Option<String>) -> Option<Seq<char>> {
    match file {
        Some(name) => Some(name@),
        None => None,
    }
}

/// The characters of a path that was chosen, or why none was.
pub open spec fn path_view(r: Result<String, FileNameError>) -> Result<Seq<char>, FileNameError> {
    match r {
        Ok(path) => Ok(path@),
        Err(e) => Err(e),
    }
}

/// Accepts the file name `name` of the user, whose upper-case form is
/// `upper`, if that form ends in `.SVG`.
pub fn accept_file_name(name: String, upper: &str) -> (r: Result<String, FileNameError>)
    ensures
        path_view(r) == if ends_in_svg(upper@) {
            Ok::<Seq<char>, FileNameError>(name@)
        } else {
            Err::<Seq<char>, FileNameError>(FileNameError::NotSvg)
        },
{
    if ends_with(upper, ".SVG") {
        Ok(name)
    } else {
        Err(FileNameError::NotSvg)
    }
}

/// The name under which a drawing with the default name
/// `default_file_name` is stored when the user asked for `file`.
pub fn save_path(file: Option<String>, default_file_name: String) -> (r: Result<
    String,
    FileNameError,
>)
    ensures
        path_view(r) == save_path_of(name_view(file), default_file_name@),
{
    match file {
        None => Ok(default_file_name),
        Some(name) => {
            let upper = to_uppercase(name.as_str());
            accept_file_name(name, upper.as_str())
        },
    }
}

/// Size of the sheet that holds a drawing of extent `max`: the extent and
/// the margin of [`VIEWPORT_OFFSET`] beyond it.
pub open spec fn sheet_of(max: Anchor) -> Anchor {
    max.shift_xy(VIEWPORT_OFFSET as int, VIEWPORT_OFFSET as int)
}

/// Size of the sheet that holds `drawing` with its margin, or nothing if
/// a [`Point`] cannot hold it.
pub fn sheet_size(drawing: &DrawResult) -> (r: Option<Point>)
    ensures
        r is Some <==> sheet_of(drawing@.max).fits(),
        r matches Some(size) ==> size@ == sheet_of(drawing@.max),
{
    if drawing.max.x <= i64::MAX - VIEWPORT_OFFSET && drawing.max.y <= i64::MAX - VIEWPORT_OFFSET {
        Some(drawing.max.shift_xy(VIEWPORT_OFFSET, VIEWPORT_OFFSET))
    } else {
        None
    }
}

} // verus!
