//! Paths as sequences of characters, with `/` between components.

use vstd::prelude::*;
use vstd::string::*;

verus! {

/// The character that separates the components of a path.
pub const SEPARATOR: char = '/';

/// Whether `path` starts at the root of the filesystem.
pub open spec fn is_absolute(path: Seq<char>) -> bool {
    path.len() > 0 && path[0] == SEPARATOR
}

/// Whether a separator has to be written after `base` before a relative
/// name can follow: `base` is not empty and does not end in one already.
pub open spec fn needs_separator(base: Seq<char>) -> bool {
    base.len() > 0 && base.last() != SEPARATOR
}

/// The path of the entry `name` below `base`.
///
/// An absolute `name` stands for itself. A relative one is appended to
/// `base`, after a separator where `base` does not end in one.
pub open spec fn join(base: Seq<char>, name: Seq<char>) -> Seq<char> {
    if is_absolute(name) {
        name
    } else if needs_separator(base) {
        base + seq![SEPARATOR] + name
    } else {
        base + name
    }
}

/// Joins `name` onto `base`.
pub fn join_path(base: &str, name: &str) -> (joined: String)
    ensures
        joined@ == join(base@, name@),
{
    if !name.is_empty() && name.get_char(0) == SEPARATOR {
        return name.to_owned();
    }
    let mut joined = base.to_owned();
    let len: usize = base.unicode_len();
    if len > 0 && base.get_char(len - 1) != SEPARATOR {
        proof {
            reveal_strlit("/");
        }
        joined.append("/");
        assert("/"@ =~= seq![SEPARATOR]);
    }
    joined.append(name);
    joined
}

} // verus!
