//! Paths held as strings: what the standard library makes of them, and the
//! extension of a file name.

use vstd::prelude::*;
use vstd::string::StrSliceExecFns;
use std::path::Path;

verus! {

/// The path that `Path::join` gives for `name` under `dir`.
pub uninterp spec fn path_join(dir: Seq<char>, name: Seq<char>) -> Seq<char>;

/// The final component of a path as `Path::file_name` gives it.
pub uninterp spec fn path_file_name(path: Seq<char>) -> Option<Seq<char>>;

/// The path without its final component, as `Path::parent` gives it.
pub uninterp spec fn path_parent(path: Seq<char>) -> Option<Seq<char>>;

/// The text of an optional string.
pub open spec fn text_of(found: Option<String>) -> Option<Seq<char>> {
    match found {
        Some(text) => Some(text@),
        None => None,
    }
}

/// The index of the last dot in `name`, or -1 where it has none.
pub open spec fn last_dot(name: Seq<char>) -> int
    decreases name.len(),
{
    if name.len() == 0 {
        -1
    } else if name.last() == '.' {
        name.len() - 1
    } else {
        last_dot(name.drop_last())
    }
}

/// The extension of a file name: what follows its last dot. A name without
/// a dot has none, nor has one whose only dot leads it.
pub open spec fn extension_in(name: Seq<char>) -> Option<Seq<char>> {
    let at = last_dot(name);
    if at <= 0 {
        None
    } else {
        Some(name.subrange(at + 1, name.len() as int))
    }
}

/// The extension of the final component of a path.
pub open spec fn path_extension(path: Seq<char>) -> Option<Seq<char>> {
    match path_file_name(path) {
        Some(name) => extension_in(name),
        None => None,
    }
}

/// `last_dot` is the index of a dot that no dot follows, or -1 for a name
/// without a dot.
pub proof fn lemma_last_dot(name: Seq<char>)
    ensures
        -1 <= last_dot(name) < name.len(),
        last_dot(name) >= 0 ==> name[last_dot(name)] == '.',
        forall|j: int| last_dot(name) < j < name.len() ==> name[j] != '.',
        last_dot(name) == -1 <==> !name.contains('.'),
    decreases name.len(),
{
    if name.len() > 0 && name.last() != '.' {
        let front = name.drop_last();
        lemma_last_dot(front);
        assert forall|j: int| last_dot(name) < j < name.len() implies name[j] != '.' by {
            if j < name.len() - 1 {
                assert(front[j] == name[j]);
            }
        }
        if front.contains('.') {
            let k = choose|k: int| 0 <= k < front.len() && front[k] == '.';
            assert(name[k] == '.');
        }
        if name.contains('.') {
            let k = choose|k: int| 0 <= k < name.len() && name[k] == '.';
            assert(front[k] == '.');
        }
    }
}

/// The extension of the file name `name`, as `extension_in` defines it.
pub fn extension(name: &str) -> (ext: Option<String>)
    ensures
        text_of(ext) == extension_in(name@),
{
    let n: usize = name.unicode_len();
    let mut i: usize = n;
    assert(name@.take(n as int) =~= name@);
    while i > 0
        invariant
            i <= n,
            n == name@.len(),
            last_dot(name@) == last_dot(name@.take(i as int)),
        decreases i,
    {
        if name.get_char(i - 1) == '.' {
            assert(name@.take(i as int).last() == '.');
            if i == 1 {
                return None;
            }
            return Some(name.substring_char(i, n).to_owned());
        }
        assert(name@.take(i as int).drop_last() =~= name@.take(i - 1));
        i -= 1;
    }
    None
}

/// `Path::join`: the result is the joined path of the two texts.
#[verifier::external_body]
pub(crate) fn join(dir: &str, name: &str) -> (joined: String)
    ensures
        joined@ == path_join(dir@, name@),
{
    Path::new(dir).join(name).to_string_lossy().into_owned()
}

/// `Path::file_name`: the result is the final component, where there is one.
#[verifier::external_body]
pub(crate) fn file_name(path: &str) -> (name: Option<String>)
    ensures
        text_of(name) == path_file_name(path@),
{
    match Path::new(path).file_name() {
        Some(name) => Some(name.to_string_lossy().into_owned()),
        None => None,
    }
}

/// `Path::parent`: the result is the path without its final component,
/// where it has a parent.
#[verifier::external_body]
pub(crate) fn parent(path: &str) -> (up: Option<String>)
    ensures
        text_of(up) == path_parent(path@),
{
    match Path::new(path).parent() {
        Some(up) => Some(up.to_string_lossy().into_owned()),
        None => None,
    }
}

} // verus!
