//! Confinement of documents to the data directory.
//!
//! Paths are compared after they have been made canonical, component by
//! component: a document is confined when the components of the root are the
//! first components of its own path.

use crate::text::texts;
use vstd::prelude::*;

verus! {

/// Whether `path` lies in the directory `root`, both given by their components.
pub open spec fn is_within(root: Seq<Seq<char>>, path: Seq<Seq<char>>) -> bool {
    root.is_prefix_of(path)
}

/// Tells whether the canonical path `path` lies in the canonical directory
/// `root`. Only whole components match: `/data2/a.md` is not in `/data`.
pub fn is_confined(root: &Vec<String>, path: &Vec<String>) -> (confined: bool)
    ensures
        confined == is_within(texts(root@), texts(path@)),
{
    if root.len() > path.len() {
        return false;
    }
    let mut i: usize = 0;
    while i < root.len()
        invariant
            i <= root.len() <= path.len(),
            forall|j: int| 0 <= j < i ==> root@[j]@ == path@[j]@,
        decreases root.len() - i,
    {
        if root[i] != path[i] {
            assert(texts(root@)[i as int] == root@[i as int]@);
            return false;
        }
        i = i + 1;
    }
    true
}

} // verus!
