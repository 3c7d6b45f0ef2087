//! Keeping paths inside the working directory.
//!
//! Every path that an action names is taken relative to the working
//! directory. A path that could lead out of it is refused outright: one that
//! starts at the root of the file system, and one with a `..` segment.

use vstd::prelude::*;
use vstd::string::*;

verus! {

/// Whether a character separates the segments of a path. Both slashes count,
/// whatever the platform.
pub open spec fn is_separator(character: char) -> bool {
    character == '/' || character == '\\'
}

/// Whether the segment `..` stands at a position of a path.
pub open spec fn parent_segment_at(path: Seq<char>, at: int) -> bool {
    &&& 0 <= at
    &&& at + 2 <= path.len()
    &&& path[at] == '.'
    &&& path[at + 1] == '.'
    &&& (at == 0 || is_separator(path[at - 1]))
    &&& (at + 2 == path.len() || is_separator(path[at + 2]))
}

/// Whether a path could lead out of the directory it is taken relative to.
pub open spec fn escapes(path: Seq<char>) -> bool {
    ||| path.len() > 0 && is_separator(path[0])
    ||| exists|at: int| parent_segment_at(path, at)
}

/// A relative path below a directory.
pub open spec fn within(directory: Seq<char>, path: Seq<char>) -> Seq<char> {
    if directory.len() == 0 {
        path
    } else if directory.last() == '/' {
        directory + path
    } else {
        directory + "/"@ + path
    }
}

fn separates(character: char) -> (separator: bool)
    ensures
        separator == is_separator(character),
{
    character == '/' || character == '\\'
}

/// Whether a path could lead out of the directory it is taken relative to.
pub fn path_escapes(path: &str) -> (escaping: bool)
    ensures
        escaping == escapes(path@),
{
    let length = path.unicode_len();
    if length > 0 && separates(path.get_char(0)) {
        return true;
    }
    if length < 2 {
        return false;
    }
    let mut at: usize = 0;
    while at < length - 1
        invariant
            2 <= length == path@.len(),
            at <= length - 1,
            forall|earlier: int| 0 <= earlier < at ==> !parent_segment_at(path@, earlier),
        decreases length - at,
    {
        if path.get_char(at) == '.' && path.get_char(at + 1) == '.' {
            let opens = at == 0 || separates(path.get_char(at - 1));
            let closes = at + 2 == length || separates(path.get_char(at + 2));
            if opens && closes {
                assert(parent_segment_at(path@, at as int));
                return true;
            }
        }
        at = at + 1;
    }
    false
}

/// Puts a relative path below a directory.
pub fn get_working_path(directory: &str, path: &str) -> (placed: String)
    ensures
        placed@ == within(directory@, path@),
{
    let length = directory.unicode_len();
    if length == 0 {
        String::from_str(path)
    } else {
        let mut placed = String::from_str(directory);
        if directory.get_char(length - 1) != '/' {
            placed.append("/");
        }
        placed.append(path);
        placed
    }
}

/// A path that does not escape stays below the directory: the result starts
/// with the directory, and what follows holds no `..` segment.
pub proof fn lemma_within_stays_below(directory: Seq<char>, path: Seq<char>)
    requires
        !escapes(path),
    ensures
        within(directory, path).subrange(0, directory.len() as int) == directory,
        within(directory, path).subrange(
            within(directory, path).len() - path.len(),
            within(directory, path).len() as int,
        ) == path,
        forall|at: int| !parent_segment_at(path, at),
{
}

} // verus!
