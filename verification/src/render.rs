use vstd::prelude::*;
use vstd::string::StringExecFns;
use crate::filter::is_offering;
use crate::partition::Partition;
use crate::text::same_text;

verus! {

/// The text between a label's name and its size.
pub open spec fn size_separator() -> Seq<char> {
    ", Size: "@
}

/// The one-line label of a partition: its name, its size, two spaces, and an
/// asterisk exactly when it is mounted.
pub open spec fn label_text(name: Seq<char>, size: Seq<char>, mounted: bool) -> Seq<char> {
    "Name: "@ + name + size_separator() + size + "  "@ + if mounted {
        "*"@
    } else {
        Seq::<char>::empty()
    }
}

/// The label under which a partition is offered.
pub open spec fn label_of(p: Partition) -> Seq<char> {
    label_text(p.name@, p.size@, p.is_mounted())
}

/// Whether `pattern` stands somewhere inside `text`.
pub open spec fn occurs_in(pattern: Seq<char>, text: Seq<char>) -> bool {
    exists|i: int|
        0 <= i && i + pattern.len() <= text.len() && #[trigger] text.subrange(
            i,
            i + pattern.len(),
        ) == pattern
}

/// Whether `labels` holds, in order, the labels of the partitions at
/// `indices`.
pub open spec fn labels_match(parts: Seq<Partition>, indices: Seq<usize>, labels: Seq<String>) -> bool {
    &&& labels.len() == indices.len()
    &&& forall|k: int|
        0 <= k < labels.len() ==> (#[trigger] labels[k])@ == label_of(parts[indices[k] as int])
}

/// Renders the label of one partition.
pub fn render_label(p: &Partition) -> (r: String)
    ensures
        r@ == label_of(*p),
{
    let mut label = String::from_str("Name: ");
    label.append(p.name.as_str());
    label.append(", Size: ");
    label.append(p.size.as_str());
    label.append("  ");
    if !same_text(p.mountpoint.as_str(), "N/A") {
        label.append("*");
    } else {
        assert(label@ + Seq::<char>::empty() =~= label@);
    }
    label
}

/// Renders the labels of the partitions at `indices`, in that order.
pub fn render_options(parts: &Vec<Partition>, indices: &Vec<usize>) -> (r: Vec<String>)
    requires
        forall|k: int| 0 <= k < indices@.len() ==> (#[trigger] indices@[k]) < parts@.len(),
    ensures
        labels_match(parts@, indices@, r@),
{
    let mut labels: Vec<String> = Vec::new();
    let mut k: usize = 0;
    while k < indices.len()
        invariant
            k <= indices.len(),
            forall|j: int| 0 <= j < indices@.len() ==> (#[trigger] indices@[j]) < parts@.len(),
            labels_match(parts@, indices@.take(k as int), labels@),
        decreases indices.len() - k,
    {
        let label = render_label(&parts[indices[k]]);
        labels.push(label);
        k += 1;
    }
    assert(indices@.take(k as int) =~= indices@);
    labels
}

/// Where the name and the separator stand inside a label.
proof fn lemma_label_layout(name: Seq<char>, size: Seq<char>, mounted: bool)
    ensures
        label_text(name, size, mounted).len() >= 6 + name.len() + 8,
        forall|i: int| 0 <= i < name.len() ==> label_text(name, size, mounted)[6 + i] == name[i],
        forall|t: int|
            0 <= t < 8 ==> label_text(name, size, mounted)[6 + name.len() + t] == size_separator()[t],
        size_separator().len() == 8,
        size_separator()[0] == ',',
        forall|t: int| 0 < t < 8 ==> size_separator()[t] != ',',
{
    reveal_strlit("Name: ");
    reveal_strlit(", Size: ");
}

/// Two equal labels cannot carry names of different lengths, unless the
/// longer name holds the separator.
proof fn lemma_shorter_name_conflict(
    n1: Seq<char>,
    s1: Seq<char>,
    m1: bool,
    n2: Seq<char>,
    s2: Seq<char>,
    m2: bool,
)
    requires
        label_text(n1, s1, m1) == label_text(n2, s2, m2),
        !occurs_in(size_separator(), n2),
    ensures
        n1.len() >= n2.len(),
{
    lemma_label_layout(n1, s1, m1);
    lemma_label_layout(n2, s2, m2);
    let a = n1.len() as int;
    let b = n2.len() as int;
    let label = label_text(n1, s1, m1);
    if a < b {
        if b - a >= 8 {
            assert forall|t: int| 0 <= t < 8 implies n2.subrange(a, a + 8)[t] == size_separator()[t] by {
                assert(label[6 + a + t] == size_separator()[t]);
                assert(label[6 + (a + t)] == n2[a + t]);
            }
            assert(n2.subrange(a, a + 8) =~= size_separator());
        } else {
            assert(label[6 + b + 0] == size_separator()[0]);
            assert(label[6 + a + (b - a)] == size_separator()[b - a]);
        }
    }
}

/// A label gives its partition's name back: two partitions with the same
/// label have the same name, as long as neither name holds the text that
/// separates name and size.
pub proof fn lemma_label_determines_name(p: Partition, q: Partition)
    requires
        !occurs_in(size_separator(), p.name@),
        !occurs_in(size_separator(), q.name@),
        label_of(p) == label_of(q),
    ensures
        p.name@ == q.name@,
{
    lemma_shorter_name_conflict(p.name@, p.size@, p.is_mounted(), q.name@, q.size@, q.is_mounted());
    lemma_shorter_name_conflict(q.name@, q.size@, q.is_mounted(), p.name@, p.size@, p.is_mounted());
    lemma_label_layout(p.name@, p.size@, p.is_mounted());
    lemma_label_layout(q.name@, q.size@, q.is_mounted());
    assert forall|i: int| 0 <= i < p.name@.len() implies p.name@[i] == q.name@[i] by {
        assert(label_of(p)[6 + i] == p.name@[i]);
        assert(label_of(q)[6 + i] == q.name@[i]);
    }
    assert(p.name@ =~= q.name@);
}

/// Whether the partitions of a list carry pairwise different names, none of
/// which holds the text that separates name and size in a label.
pub open spec fn names_distinguish(parts: Seq<Partition>) -> bool {
    &&& forall|i: int| 0 <= i < parts.len() ==> !occurs_in(size_separator(), (#[trigger] parts[i]).name@)
    &&& forall|i: int, j: int|
        0 <= i < j < parts.len() ==> (#[trigger] parts[i]).name@ != (#[trigger] parts[j]).name@
}

/// Rendering is injective on what is offered: where the names distinguish the
/// partitions, no two offered partitions get the same label.
pub proof fn lemma_offered_labels_distinct(
    parts: Seq<Partition>,
    no_filter: bool,
    indices: Seq<usize>,
    labels: Seq<String>,
    j: int,
    k: int,
)
    requires
        names_distinguish(parts),
        is_offering(parts, no_filter, indices),
        labels_match(parts, indices, labels),
        0 <= j < k < labels.len(),
    ensures
        labels[j]@ != labels[k]@,
{
    let p = parts[indices[j] as int];
    let q = parts[indices[k] as int];
    assert(indices[j] < indices[k]);
    if labels[j]@ == labels[k]@ {
        lemma_label_determines_name(p, q);
    }
}

} // verus!
