use vstd::prelude::*;
use crate::partition::Partition;
use crate::text::{same_text, trim, trimmed};

verus! {

/// The mount points that are never offered by default: unmounting one of them
/// would break the running system.
pub open spec fn protected_text(mount: Seq<char>) -> bool {
    mount == "/"@ || mount == "/boot"@ || mount == "/home"@
}

/// Whether a partition carries a protected mount point, white space around
/// the mount point aside.
pub open spec fn is_protected(p: Partition) -> bool {
    protected_text(trimmed(p.mountpoint@))
}

/// Whether a partition may be offered.
///
/// With `no_filter` every partition may. Otherwise a leaf may unless its
/// mount point is protected, and a partition with nested volumes may exactly
/// when one of them may.
pub open spec fn eligible(p: Partition, no_filter: bool) -> bool
    decreases p,
{
    no_filter || if p.is_leaf() {
        !is_protected(p)
    } else {
        exists|i: int| 0 <= i < p.child_seq().len() && eligible(#[trigger] p.child_seq()[i], no_filter)
    }
}

/// Decides whether an already trimmed mount point is protected.
pub fn protected_mount(mount: &str) -> (r: bool)
    ensures
        r == protected_text(mount@),
{
    same_text(mount, "/") || same_text(mount, "/boot") || same_text(mount, "/home")
}

/// Decides whether a partition may be offered.
pub fn filter(partition: &Partition, no_filter: bool) -> (r: bool)
    ensures
        r == eligible(*partition, no_filter),
    decreases *partition,
{
    if no_filter {
        return true;
    }
    if let Some(children) = &partition.children {
        if children.len() > 0 {
            let mut i: usize = 0;
            while i < children.len()
                invariant
                    i <= children.len(),
                    partition.children == Some(*children),
                    !no_filter,
                    forall|j: int| 0 <= j < i ==> !eligible(#[trigger] children@[j], no_filter),
                decreases children.len() - i,
            {
                proof {
                    // The child is a strict part of the partition, by way of
                    // the optional vector that holds it.
                    assert(partition.children->Some_0 == *children);
                    assert(decreases_to!(partition.children => partition.children->Some_0));
                    assert(decreases_to!(*children => children@));
                }
                if filter(&children[i], no_filter) {
                    assert(eligible(partition.child_seq()[i as int], no_filter));
                    return true;
                }
                i += 1;
            }
            return false;
        }
    }
    !protected_mount(trim(partition.mountpoint.as_str()))
}

/// Whether `indices` lists, in rising order, exactly the positions in `parts`
/// of the partitions that may be offered.
pub open spec fn is_offering(parts: Seq<Partition>, no_filter: bool, indices: Seq<usize>) -> bool {
    &&& forall|k: int| 0 <= k < indices.len() ==> (#[trigger] indices[k]) < parts.len()
    &&& forall|k: int|
        0 <= k < indices.len() ==> eligible(parts[(#[trigger] indices[k]) as int], no_filter)
    &&& forall|j: int, k: int| 0 <= j < k < indices.len() ==> indices[j] < indices[k]
    &&& forall|i: int|
        0 <= i < parts.len() && eligible(#[trigger] parts[i], no_filter) ==> exists|k: int|
            0 <= k < indices.len() && #[trigger] indices[k] == i
}

/// Collects the positions of the top-level partitions that may be offered.
/// Nested volumes decide whether their parent is offered; they are never
/// listed themselves.
pub fn offered_indices(parts: &Vec<Partition>, no_filter: bool) -> (r: Vec<usize>)
    ensures
        is_offering(parts@, no_filter, r@),
{
    let mut out: Vec<usize> = Vec::new();
    let mut i: usize = 0;
    while i < parts.len()
        invariant
            i <= parts.len(),
            is_offering(parts@.take(i as int), no_filter, out@),
        decreases parts.len() - i,
    {
        let ghost before = out@;
        if filter(&parts[i], no_filter) {
            out.push(i);
        }
        proof {
            let prev = parts@.take(i as int);
            let next = parts@.take(i + 1);
            assert forall|j: int| 0 <= j < next.len() && eligible(#[trigger] next[j], no_filter)
                implies exists|k: int| 0 <= k < out@.len() && #[trigger] out@[k] == j by {
                if j < i {
                    assert(eligible(prev[j], no_filter));
                    let k = choose|k: int| 0 <= k < before.len() && #[trigger] before[k] == j;
                    assert(out@[k] == j);
                } else {
                    assert(out@[out@.len() - 1] == j);
                }
            }
            assert forall|k: int| 0 <= k < out@.len() implies eligible(
                next[(#[trigger] out@[k]) as int],
                no_filter,
            ) by {
                if k < before.len() {
                    assert(next[before[k] as int] == prev[before[k] as int]);
                }
            }
        }
        i += 1;
    }
    assert(parts@.take(i as int) =~= parts@);
    out
}

/// With filtering switched off every partition may be offered, whatever its
/// mount point and whatever it holds.
pub proof fn lemma_unfiltered_all_eligible(p: Partition)
    ensures
        eligible(p, true),
{
}

/// With filtering on, a leaf may be offered exactly when its trimmed mount
/// point is none of the protected ones.
pub proof fn lemma_leaf_eligibility(p: Partition)
    requires
        p.is_leaf(),
    ensures
        eligible(p, false) == !protected_text(trimmed(p.mountpoint@)),
{
}

/// A partition that holds a nested volume which may be offered may be offered
/// itself, even where its own mount point is protected.
pub proof fn lemma_parent_of_eligible_child(p: Partition, i: int)
    requires
        0 <= i < p.child_seq().len(),
        eligible(p.child_seq()[i], false),
    ensures
        eligible(p, false),
{
}

} // verus!
