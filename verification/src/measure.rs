//! The size measurer, over a snapshot of a filesystem subtree.
//!
//! A node is a file or symlink with its own metadata length (symlink
//! targets are not followed), a directory with named children, or an
//! unreadable entry. The size of a directory is the sum of its
//! children's sizes; an unreadable child is recorded as a skip for that
//! child's path and excluded from the sum without failing the parent.
//! A missing path measures as zero with no error; an unreadable root is
//! the one failing case.

use vstd::prelude::*;

use crate::engine::{cap_u64, saturating_add_u64};
use crate::ignore::views_of;

verus! {

broadcast use vstd::std_specs::vec::axiom_vec_index_decreases;

/// One node of a filesystem snapshot.
pub enum FsTree {
    /// A regular file and its metadata length.
    File { size: u64 },
    /// A symbolic link and its own metadata length; the target is not
    /// followed.
    Symlink { size: u64 },
    /// A directory and its children.
    Dir { entries: Vec<FsEntry> },
    /// An entry whose metadata could not be read.
    Unreadable,
}

/// A named child of a directory node.
pub struct FsEntry {
    pub name: String,
    pub node: FsTree,
}

/// The measured size of a node: its own length for a file or symlink,
/// the sum over the children for a directory, and zero for an
/// unreadable entry, which is excluded from its parent's sum.
pub open spec fn tree_size(t: FsTree) -> nat
    decreases t,
{
    match t {
        FsTree::File { size } => size as nat,
        FsTree::Symlink { size } => size as nat,
        FsTree::Unreadable => 0,
        FsTree::Dir { entries } => entries_size(entries, entries.len() as int),
    }
}

/// The summed sizes of the first `upto` children.
pub open spec fn entries_size(entries: Vec<FsEntry>, upto: int) -> nat
    decreases entries, upto,
{
    if upto <= 0 || upto > entries.len() {
        0
    } else {
        entries_size(entries, upto - 1) + tree_size(entries[upto - 1].node)
    }
}

/// The paths under `prefix` recorded as skips: one per unreadable
/// child reachable through readable directories.
pub open spec fn tree_skips(prefix: Seq<char>, t: FsTree) -> Seq<Seq<char>>
    decreases t,
{
    match t {
        FsTree::Dir { entries } => entries_skips(prefix, entries, entries.len() as int),
        _ => Seq::empty(),
    }
}

/// The skip paths contributed by the first `upto` children.
pub open spec fn entries_skips(prefix: Seq<char>, entries: Vec<FsEntry>, upto: int) -> Seq<
    Seq<char>,
>
    decreases entries, upto, 1int,
{
    if upto <= 0 || upto > entries.len() {
        Seq::empty()
    } else {
        entries_skips(prefix, entries, upto - 1) + entry_skips(prefix, entries[upto - 1])
    }
}

/// The skip paths of one child: the child's own path if it is
/// unreadable, else whatever its subtree contributes.
pub open spec fn entry_skips(prefix: Seq<char>, e: FsEntry) -> Seq<Seq<char>>
    decreases e,
{
    if e.node is Unreadable {
        seq![prefix + "/"@ + e.name@]
    } else {
        tree_skips(prefix + "/"@ + e.name@, e.node)
    }
}

/// Measures the node at `path`. An unreadable root is the one failure;
/// otherwise the result is the node's size, capped at the largest
/// `u64`, with the skip paths of its unreadable descendants.
pub fn measure_tree(path: &str, tree: &FsTree) -> (r: Option<(u64, Vec<String>)>)
    ensures
        (r is None) == (*tree is Unreadable),
        r matches Some(p) ==> (p.0 as nat == cap_u64(tree_size(*tree)) && views_of(p.1@)
            == tree_skips(path@, *tree)),
    decreases *tree,
{
    match tree {
        FsTree::File { size } => Some((*size, Vec::new())),
        FsTree::Symlink { size } => Some((*size, Vec::new())),
        FsTree::Unreadable => None,
        FsTree::Dir { entries } => {
            let mut total: u64 = 0;
            let mut skips: Vec<String> = Vec::new();
            let mut i: usize = 0;
            while i < entries.len()
                invariant
                    0 <= i <= entries@.len(),
                    *tree == (FsTree::Dir { entries: *entries }),
                    total as nat == cap_u64(entries_size(*entries, i as int)),
                    views_of(skips@) == entries_skips(path@, *entries, i as int),
                decreases entries@.len() - i,
            {
                let child = &entries[i];
                let mut child_path = String::from_str(path);
                child_path.append("/");
                child_path.append(child.name.as_str());
                proof {
                    assert(child_path@ == path@ + "/"@ + child.name@);
                    assert(decreases_to!(*tree => tree->Dir_entries));
                    assert(tree->Dir_entries == *entries);
                    assert(decreases_to!(*entries => entries[i as int]));
                }
                match measure_tree(child_path.as_str(), &child.node) {
                    Some(pair) => {
                        let (s, mut cs) = pair;
                        total = saturating_add_u64(total, s);
                        proof {
                            assert(views_of(skips@ + cs@) =~= views_of(skips@) + views_of(cs@));
                            assert(entry_skips(path@, entries@[i as int]) == tree_skips(
                                child_path@,
                                child.node,
                            ));
                        }
                        skips.append(&mut cs);
                    },
                    None => {
                        proof {
                            assert(views_of(skips@.push(child_path)) =~= views_of(skips@) + seq![
                                child_path@,
                            ]);
                            assert(entry_skips(path@, entries@[i as int]) == seq![child_path@]);
                        }
                        skips.push(child_path);
                    },
                }
                proof {
                    assert(entries_skips(path@, *entries, i + 1) == entries_skips(
                        path@,
                        *entries,
                        i as int,
                    ) + entry_skips(path@, entries@[i as int]));
                    assert(entries_size(*entries, i + 1) == entries_size(*entries, i as int)
                        + tree_size(entries@[i as int].node));
                }
                i += 1;
            }
            Some((total, skips))
        },
    }
}

/// Measures a node and formats its size: the capped byte count together
/// with its human-readable form, or nothing for an unreadable root.
pub fn calculate_size(path: &str, tree: &FsTree) -> (r: Option<(u64, String)>)
    ensures
        (r is None) == (*tree is Unreadable),
        r matches Some(p) ==> (p.0 as nat == cap_u64(tree_size(*tree)) && p.1@
            == crate::format::human_size(p.0 as nat)),
{
    match measure_tree(path, tree) {
        Some(pair) => {
            let formatted = crate::format::bytes_to_human(pair.0);
            Some((pair.0, formatted))
        },
        None => None,
    }
}

/// Measures a path that may not exist: a missing path is zero bytes
/// with no error and no skips.
pub fn measure_path(path: &str, tree: &Option<FsTree>) -> (r: Option<(u64, Vec<String>)>)
    ensures
        tree matches Some(t) ==> ((r is None) == (t is Unreadable) && (r matches Some(p) ==> (p.0
            as nat == cap_u64(tree_size(*t)) && views_of(p.1@) == tree_skips(path@, *t)))),
        tree is None ==> (r matches Some(p) && p.0 == 0 && p.1@.len() == 0),
{
    match tree {
        Some(t) => measure_tree(path, t),
        None => Some((0, Vec::new())),
    }
}

} // verus!
