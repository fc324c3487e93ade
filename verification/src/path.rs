//! File paths as text.

use vstd::prelude::*;

verus! {

/// Whether a directory needs no separator before a name that follows it: an
/// empty directory, and one that ends in a separator or in the colon of a
/// drive.
pub open spec fn ends_open(dir: Seq<char>) -> bool {
    dir.len() == 0 || dir.last() == '/' || dir.last() == '\\' || dir.last() == ':'
}

/// Whether `path` is the text for the entry `name` directly below `dir`: the
/// directory, one separator, `/` or `\`, and the name; or the directory and
/// the name alone where the directory needs no separator.
pub open spec fn is_child_path(dir: Seq<char>, name: Seq<char>, path: Seq<char>) -> bool {
    ||| path == dir + "/"@ + name
    ||| path == dir + "\\"@ + name
    ||| ends_open(dir) && path == dir + name
}

/// `Path::join` on a directory and a name, as text. Trusted: nothing is said of
/// the result, since the separator depends on the platform.
#[verifier::external_body]
fn join_path(root: &str, name: &str) -> String {
    std::path::Path::new(root).join(name).to_string_lossy().into_owned()
}

/// The three texts one after the other.
fn glued(dir: &str, sep: &str, name: &str) -> (path: String)
    ensures
        path@ == dir@ + sep@ + name@,
{
    let mut path = dir.to_owned();
    path.append(sep);
    path.append(name);
    path
}

/// Whether a directory needs no separator before a name.
fn is_open(dir: &str) -> (open: bool)
    ensures
        open == ends_open(dir@),
{
    let length = dir.unicode_len();
    if length == 0 {
        true
    } else {
        let last = dir.get_char(length - 1);
        last == '/' || last == '\\' || last == ':'
    }
}

/// The path of the entry `name` directly below `dir`. It is the path that
/// `Path::join` gives, which has the separator of the platform, as long as
/// that is the directory followed by the name; a name that would lead out of
/// the directory is put below it with a `/` instead.
pub fn child_path(dir: &str, name: &str) -> (path: String)
    ensures
        is_child_path(dir@, name@, path@),
{
    let joined = join_path(dir, name);
    let slashed = glued(dir, "/", name);
    if joined == slashed {
        return joined;
    }
    if joined == glued(dir, "\\", name) {
        return joined;
    }
    if is_open(dir) {
        proof {
            reveal_strlit("");
            assert(dir@ + ""@ + name@ =~= dir@ + name@);
        }
        if joined == glued(dir, "", name) {
            return joined;
        }
    }
    slashed
}

} // verus!
