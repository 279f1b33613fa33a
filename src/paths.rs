//! Where the backup of a configuration file lives.

use vstd::prelude::*;

verus! {

/// The sidecar backup of the file at `p`: the same path with `-bak` appended
/// to its file name.
pub open spec fn backup_path_of(p: Seq<char>) -> Seq<char> {
    p + seq!['-', 'b', 'a', 'k']
}

/// The path of the backup that belongs to the file at `path`.
pub fn backup_path(path: &str) -> (r: String)
    ensures
        r@ == backup_path_of(path@),
{
    let suffix = "-bak";
    proof {
        reveal_strlit("-bak");
    }
    String::from_str(path).concat(suffix)
}

} // verus!
