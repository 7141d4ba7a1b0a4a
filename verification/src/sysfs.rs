//! Sysfs/device primitives: pseudo-filesystem path construction, the
//! ownership-transfer decision, device-node locations and the bounded poll
//! used while waiting for a device node to appear.
//!
//! The privileged syscalls themselves (reading a file's owner, changing it,
//! statting a device node) happen outside the library; the functions here
//! decide, from the observed values, exactly what must be done.

use vstd::prelude::*;
use vstd::string::StringExecFns;

verus! {

/// A path under a pseudo-filesystem root: `<prefix>/<name>/<suffix>`.
///
/// `name` is not validated beyond what the filesystem enforces: it
/// originates from trusted configuration.
pub open spec fn spec_build_path(prefix: Seq<char>, name: Seq<char>, suffix: Seq<char>) -> Seq<
    char,
> {
    prefix + "/"@ + name + "/"@ + suffix
}

/// Construct a filesystem path under a pseudo-filesystem root, e.g.
/// `/sys/class/net/<if>/<suffix>` or `/sys/bus/pci/devices/<addr>/<suffix>`.
pub fn build_path(prefix: &str, name: &str, suffix: &str) -> (r: String)
    ensures
        r@ == spec_build_path(prefix@, name@, suffix@),
{
    let mut p = prefix.to_owned();
    p.append("/");
    p.append(name);
    p.append("/");
    p.append(suffix);
    proof {
        assert(p@ =~= spec_build_path(prefix@, name@, suffix@));
    }
    p
}

/// The ownership change that a device file with owner `cur_uid:cur_gid`
/// needs to be usable by `uid:gid`: none when it already matches.
pub open spec fn spec_transfer_action(cur_uid: u32, cur_gid: u32, uid: u32, gid: u32) -> Option<
    (u32, u32),
> {
    if cur_uid != uid || cur_gid != gid {
        Some((uid, gid))
    } else {
        None
    }
}

/// The owner a file has after the decided action is applied.
pub open spec fn spec_owner_after(cur_uid: u32, cur_gid: u32, uid: u32, gid: u32) -> (u32, u32) {
    match spec_transfer_action(cur_uid, cur_gid, uid, gid) {
        Some(c) => c,
        None => (cur_uid, cur_gid),
    }
}

/// Decide the ownership transfer for a device file: `None` (no privileged
/// call) when the current owner already matches the target, otherwise
/// exactly the one change to issue.
pub fn transfer_ownership(cur_uid: u32, cur_gid: u32, uid: u32, gid: u32) -> (r: Option<
    (u32, u32),
>)
    ensures
        r == spec_transfer_action(cur_uid, cur_gid, uid, gid),
        r is None <==> (cur_uid == uid && cur_gid == gid),
{
    if cur_uid != uid || cur_gid != gid {
        Some((uid, gid))
    } else {
        None
    }
}

/// Transferring ownership twice in a row with the same target never issues
/// more than one actual change: after the first decision is applied, the
/// second decides no change.
pub proof fn lemma_transfer_ownership_idempotent(cur_uid: u32, cur_gid: u32, uid: u32, gid: u32)
    ensures
        ({
            let owner = spec_owner_after(cur_uid, cur_gid, uid, gid);
            spec_transfer_action(owner.0, owner.1, uid, gid) is None
        }),
{
}

/// The companion character device of a tap interface with the given
/// (trimmed) ifindex.
pub fn tap_device_path(ifidx: &str) -> (r: String)
    ensures
        r@ == "/dev/tap"@ + ifidx@,
{
    let mut p = "/dev/tap".to_owned();
    p.append(ifidx);
    p
}

/// The VFIO group device file for the given IOMMU group number.
pub fn vfio_group_device_path(group: &str) -> (r: String)
    ensures
        r@ == "/dev/vfio/"@ + group@,
{
    let mut p = "/dev/vfio/".to_owned();
    p.append(group);
    p
}

/// One step of the bounded poll that waits for a freshly created device
/// node to appear: device-node creation is not synchronous with link
/// creation, so the caller stats the expected path on an interval until a
/// deadline.
#[derive(PartialEq, Eq, Structural, Debug)]
pub enum PollDecision {
    /// The node is there; go on.
    Ready,
    /// Not there yet and the deadline has not passed; wait one interval and
    /// look again.
    Wait,
    /// The deadline passed without the node appearing: a distinct timeout
    /// error, not a hang.
    TimedOut,
}

pub open spec fn spec_poll_step(node_exists: bool, elapsed_ms: u64, deadline_ms: u64) -> PollDecision {
    if node_exists {
        PollDecision::Ready
    } else if elapsed_ms >= deadline_ms {
        PollDecision::TimedOut
    } else {
        PollDecision::Wait
    }
}

pub fn poll_step(node_exists: bool, elapsed_ms: u64, deadline_ms: u64) -> (r: PollDecision)
    ensures
        r == spec_poll_step(node_exists, elapsed_ms, deadline_ms),
{
    if node_exists {
        PollDecision::Ready
    } else if elapsed_ms >= deadline_ms {
        PollDecision::TimedOut
    } else {
        PollDecision::Wait
    }
}

} // verus!
