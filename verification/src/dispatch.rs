use vstd::prelude::*;
use vstd::string::StringExecFns;
use crate::partition::Partition;
use crate::text::same_text;

verus! {

/// What one mount operation needs: made for the operation and dropped after
/// it.
#[derive(Debug, Clone, PartialEq, Eq)]
pub struct MountPoint {
    /// A name for the mount; empty for one made on the spot.
    pub name: String,
    /// The device file, `/dev/` followed by the partition's name.
    pub address: String,
    /// The directory to mount at.
    pub mount_location: String,
    /// Mount options; empty for none.
    pub flags: String,
    /// Whether to ask for a password first; absent where nothing was said.
    pub ask_for_password: Option<bool>,
}

/// The single thing to do with a chosen partition.
#[derive(Debug, Clone, PartialEq, Eq)]
pub enum Action {
    /// The partition is mounted: unmount it from `path`.
    Unmount { path: String },
    /// The partition is not mounted: mount `device` once a destination is
    /// known.
    Mount { device: String },
}

/// The device file of a partition with the given name.
pub open spec fn device_address(name: Seq<char>) -> Seq<char> {
    "/dev/"@ + name
}

/// The action that a partition's mount state calls for.
pub open spec fn action_for(p: Partition, action: Action) -> bool {
    if p.is_mounted() {
        action matches Action::Unmount { path } && path@ == p.mountpoint@
    } else {
        action matches Action::Mount { device } && device@ == device_address(p.name@)
    }
}

/// Whether a mount point describes mounting the named partition at
/// `destination`, with nothing else set.
pub open spec fn describes_mount(m: MountPoint, device: Seq<char>, destination: Seq<char>) -> bool {
    &&& m.name@ == Seq::<char>::empty()
    &&& m.address@ == device
    &&& m.mount_location@ == destination
    &&& m.flags@ == Seq::<char>::empty()
    &&& m.ask_for_password == None::<bool>
}

/// Decides what to do with the chosen partition: a mounted one is unmounted
/// from where it is mounted, one that is not mounted is mounted. Nothing but
/// the mount point decides.
pub fn dispatch(partition: &Partition) -> (r: Action)
    ensures
        action_for(*partition, r),
{
    if !same_text(partition.mountpoint.as_str(), "N/A") {
        Action::Unmount { path: partition.mountpoint.clone() }
    } else {
        let mut device = String::from_str("/dev/");
        device.append(partition.name.as_str());
        Action::Mount { device }
    }
}

/// Builds the mount point for mounting `device` at `destination`.
pub fn mount_point(device: String, destination: String) -> (r: MountPoint)
    ensures
        describes_mount(r, device@, destination@),
{
    MountPoint {
        name: String::new(),
        address: device,
        mount_location: destination,
        flags: String::new(),
        ask_for_password: None,
    }
}

/// The mount point alone decides the action: a partition that is not
/// mounted is always mounted and never unmounted, a mounted one is always
/// unmounted and never mounted.
pub proof fn lemma_action_follows_mount_state(p: Partition, action: Action)
    requires
        action_for(p, action),
    ensures
        p.mountpoint@ == "N/A"@ <==> action is Mount,
        p.mountpoint@ != "N/A"@ <==> action is Unmount,
{
}

} // verus!
