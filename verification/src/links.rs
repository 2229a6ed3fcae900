//! Composing the name a new link gets inside the date hierarchy.

use vstd::prelude::*;
use vstd::string::*;
use crate::datefmt::{date_rewrite, date_substitute};
use crate::paths::{dash_spaces, dashed, file_name, file_name_spec};

verus! {

/// The part of `path` that names the file: its last component, or the
/// whole path when no component can be picked.
pub open spec fn name_of(path: Seq<char>) -> Seq<char> {
    match file_name_spec(path) {
        Some(n) => n,
        None => path,
    }
}

/// Where the link for a file goes, given the timestamp text found in its
/// metadata: the base directory, the timestamp rewritten into nested date
/// directories, and the file's own name with spaces dashed, all run
/// together.
pub open spec fn target_spec(datetime: Seq<char>, path: Seq<char>, base: Seq<char>) -> Seq<char> {
    base + seq!['/'] + date_rewrite(datetime) + dashed(name_of(path))
}

/// Builds the link's target path out of the timestamp text, the file's
/// path and the base directory, as `target_spec` states it.
pub fn compose_target(datetime: &str, path: &str, base: &str) -> (r: String)
    ensures
        r@ == target_spec(datetime@, path@, base@),
{
    let mut out = String::from_str(base);
    out.append("/");
    let rewritten_date = date_substitute(datetime);
    out.append(rewritten_date.as_str());
    let plain_name = match file_name(path) {
        Some(n) => dash_spaces(n.as_str()),
        None => dash_spaces(path),
    };
    out.append(plain_name.as_str());
    proof {
        reveal_strlit("/");
        assert(out@ =~= target_spec(datetime@, path@, base@));
    }
    out
}

} // verus!
