use vstd::prelude::*;

verus! {

/// A block device or volume, together with the volumes nested inside it.
#[derive(Debug, PartialEq, Eq)]
pub struct Partition {
    /// Short device name, such as `sda1`.
    pub name: String,
    /// Capacity as text; carried along and never interpreted.
    pub size: String,
    /// File system type, or `N/A` when it is not known.
    pub fstype: String,
    /// Where the partition is mounted, or `N/A` when it is not mounted.
    pub mountpoint: String,
    /// The nested volumes, in order; absent or empty for a leaf.
    pub children: Option<Vec<Partition>>,
}

/// The text that stands for "not mounted" and for "unknown".
pub open spec fn absent_text() -> Seq<char> {
    "N/A"@
}

impl Partition {
    /// The nested volumes as a sequence: empty where there are none.
    pub open spec fn child_seq(&self) -> Seq<Partition> {
        match self.children {
            Some(children) => children@,
            None => Seq::empty(),
        }
    }

    /// A leaf has no nested volumes.
    pub open spec fn is_leaf(&self) -> bool {
        self.child_seq().len() == 0
    }

    /// A partition is mounted exactly when its mount point is not the
    /// absent text.
    pub open spec fn is_mounted(&self) -> bool {
        self.mountpoint@ != absent_text()
    }
}

} // verus!
