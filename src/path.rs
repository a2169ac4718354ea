//! Joining a directory path and an entry name, as `/`-separated paths do.
use vstd::prelude::*;

verus! {

/// The path of entry `name` inside directory `dir`.
///
/// An absolute `name` stands for itself; otherwise a separator goes between
/// the two, unless `dir` is empty or already ends with one.
pub open spec fn joined(dir: Seq<char>, name: Seq<char>) -> Seq<char> {
    if name.len() > 0 && name[0] == '/' {
        name
    } else if dir.len() == 0 || dir.last() == '/' {
        dir + name
    } else {
        dir + seq!['/'] + name
    }
}

/// Returns the path of entry `name` inside directory `dir`.
pub fn join(dir: &str, name: &str) -> (r: String)
    ensures
        r@ == joined(dir@, name@),
{
    let name_len = name.unicode_len();
    if name_len > 0 && name.get_char(0) == '/' {
        return name.to_owned();
    }
    let dir_len = dir.unicode_len();
    let mut r = dir.to_owned();
    if dir_len > 0 && dir.get_char(dir_len - 1) != '/' {
        r.append("/");
    }
    r.append(name);
    proof {
        reveal_strlit("/");
    }
    r
}

} // verus!
