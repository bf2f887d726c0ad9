//! Adding the install directory to the user's `PATH` value (a Windows
//! registry string whose entries are separated by `;`).

use vstd::prelude::*;
use crate::text::{contains_seq, ends_with_seq, to_chars, contains_chars, ends_with_chars};

verus! {

/// The `PATH` value `full_path` with `new_path` appended, unless it already
/// lists it (as `;new_path;` somewhere, or as `;new_path` at its end).
pub open spec fn path_with_entry(full_path: Seq<char>, new_path: Seq<char>) -> Seq<char> {
    if !contains_seq(full_path, ";"@ + new_path + ";"@) && !ends_with_seq(full_path, ";"@ + new_path) {
        full_path + ";"@ + new_path
    } else {
        full_path
    }
}

/// The new `PATH` value once `new_path` is added to `full_path`.
pub fn append_to_path_var(full_path: &str, new_path: &str) -> (res: String)
    ensures
        res@ == path_with_entry(full_path@, new_path@),
{
    let hay = to_chars(full_path);
    let mut inner = String::from_str(";");
    inner.append(new_path);
    let tail = to_chars(inner.as_str());
    inner.append(";");
    let enclosed = to_chars(inner.as_str());
    let mut res = full_path.to_owned();
    if !contains_chars(&hay, &enclosed) && !ends_with_chars(&hay, &tail) {
        res.append(";");
        res.append(new_path);
    }
    res
}

/// Adding an entry a second time changes nothing: once appended, the value
/// ends with `;new_path`.
pub proof fn lemma_append_to_path_var_idempotent(full_path: Seq<char>, new_path: Seq<char>)
    ensures
        path_with_entry(path_with_entry(full_path, new_path), new_path) == path_with_entry(full_path, new_path),
{
    let once = path_with_entry(full_path, new_path);
    let tail = ";"@ + new_path;
    if once != full_path {
        assert(once == full_path + tail);
        assert(once.subrange(once.len() - tail.len(), once.len() as int) =~= tail);
        assert(ends_with_seq(once, tail));
    }
}

/// After adding, the value lists the entry: it holds `;new_path;` or ends
/// with `;new_path`.
pub proof fn lemma_append_to_path_var_lists_entry(full_path: Seq<char>, new_path: Seq<char>)
    ensures
        contains_seq(path_with_entry(full_path, new_path), ";"@ + new_path + ";"@)
            || ends_with_seq(path_with_entry(full_path, new_path), ";"@ + new_path),
{
    let once = path_with_entry(full_path, new_path);
    let tail = ";"@ + new_path;
    if !contains_seq(full_path, ";"@ + new_path + ";"@) && !ends_with_seq(full_path, tail) {
        assert(once == full_path + tail);
        assert(once.subrange(once.len() - tail.len(), once.len() as int) =~= tail);
    }
}

/// An existing entry is kept as it is, and a new one only ever extends the
/// value: the old value is always a prefix of the new one.
pub proof fn lemma_append_to_path_var_extends(full_path: Seq<char>, new_path: Seq<char>)
    ensures
        full_path.is_prefix_of(path_with_entry(full_path, new_path)),
{
    let once = path_with_entry(full_path, new_path);
    assert(once.subrange(0, full_path.len() as int) =~= full_path);
}

} // verus!
