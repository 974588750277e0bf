//! Paths below the working directory. The workflow runs on hosts whose
//! separator is the backslash, and its paths are written with it on every
//! machine, so that what is recorded for the next boot does not depend on
//! where the path was computed.

use vstd::prelude::*;
use crate::constants::{DATA_FOLDER_NAME, PATH_SEPARATOR};
use crate::text::{ends_with, join_text};

verus! {

/// Whether a path already ends where a component can be attached: it is
/// empty, or its last character is a separator.
pub open spec fn accepts_component(base: Seq<char>) -> bool {
    base.len() == 0 || base.last() == '\\' || base.last() == '/'
}

/// The path of `name` directly below `base`.
pub open spec fn child_path_spec(base: Seq<char>, name: Seq<char>) -> Seq<char> {
    if accepts_component(base) {
        base + name
    } else {
        base + seq!['\\'] + name
    }
}

/// The path of `name` inside the data folder below `current_path`.
pub open spec fn data_path_spec(current_path: Seq<char>, name: Seq<char>) -> Seq<char> {
    child_path_spec(child_path_spec(current_path, DATA_FOLDER_NAME@), name)
}

/// The path of `name` directly below `base`: the two joined by one
/// separator, which is left out where `base` is empty or ends with one.
pub fn child_path(base: &str, name: &str) -> (r: String)
    ensures
        r@ == child_path_spec(base@, name@),
{
    proof {
        reveal_strlit("\\");
        reveal_strlit("/");
        lemma_ends_with_char(base@, '\\');
        lemma_ends_with_char(base@, '/');
    }
    if base.is_empty() || ends_with(base, PATH_SEPARATOR) || ends_with(base, "/") {
        join_text(base, name)
    } else {
        let mut r = join_text(base, PATH_SEPARATOR);
        r.append(name);
        r
    }
}

/// The path of `name` inside the data folder below `current_path`.
pub fn data_path(current_path: &str, name: &str) -> (r: String)
    ensures
        r@ == data_path_spec(current_path@, name@),
{
    let folder = child_path(current_path, DATA_FOLDER_NAME);
    child_path(folder.as_str(), name)
}

/// A component attached to a base keeps the base in front and the component
/// at the end.
pub proof fn lemma_child_path_shape(base: Seq<char>, name: Seq<char>)
    ensures
        base.is_prefix_of(child_path_spec(base, name)),
        name.is_suffix_of(child_path_spec(base, name)),
        child_path_spec(base, name).len() == base.len() + name.len() + (if accepts_component(
            base,
        ) {
            0int
        } else {
            1int
        }),
{
}

/// A text ends with a one-character suffix exactly when it is not empty and
/// that character is its last.
pub proof fn lemma_ends_with_char(text: Seq<char>, c: char)
    ensures
        seq![c].is_suffix_of(text) <==> text.len() > 0 && text.last() == c,
{
    if text.len() > 0 {
        let tail = text.subrange(text.len() - 1, text.len() as int);
        assert(tail[0] == text.last());
        if text.last() == c {
            assert(tail =~= seq![c]);
        }
    }
}

} // verus!
