//! Privileged-phase planning: tap state machine, driver rebinding,
//! ownership transfer and the device-node poll.

use vmman::modules::{BaseTapModule, BridgeTapModule, MacVTapModule, VfioModule};
use vmman::plans::LinkAction;
use vmman::sysfs::{poll_step, transfer_ownership, PollDecision};

fn base_tap() -> BaseTapModule {
    BaseTapModule {
        ifname: String::from("vtap0"),
        macaddress: String::from("52:54:00:12:34:56"),
        driver: String::from("virtio-net-pci"),
    }
}

#[test]
fn macvtap_plan_deletes_existing_interface_first() {
    let m = MacVTapModule { base: base_tap(), ifhost: String::from("eth0") };
    let plan = m.init_plan(true);
    assert_eq!(plan.len(), 4);
    assert!(matches!(&plan[0], LinkAction::DeleteLink { name } if name == "vtap0"));
    assert!(matches!(
        &plan[1],
        LinkAction::CreateMacVTap { name, host, mac }
            if name == "vtap0" && host == "eth0" && mac == "52:54:00:12:34:56"
    ));
    assert!(matches!(
        &plan[2],
        LinkAction::RequireAttr { name, attr } if name == "vtap0" && attr == "macvtap"
    ));
    assert!(matches!(&plan[3], LinkAction::SetUp { name } if name == "vtap0"));
}

#[test]
fn macvtap_plan_on_fresh_state_does_not_delete() {
    let m = MacVTapModule { base: base_tap(), ifhost: String::from("eth0") };
    let plan = m.init_plan(false);
    assert_eq!(plan.len(), 3);
    assert!(matches!(&plan[0], LinkAction::CreateMacVTap { .. }));
    assert!(matches!(&plan[1], LinkAction::RequireAttr { .. }));
    assert!(matches!(&plan[2], LinkAction::SetUp { .. }));
}

#[test]
fn bridge_tap_plan_attaches_master_last() {
    let m = BridgeTapModule { base: base_tap(), ifbr: String::from("br0") };
    let plan = m.init_plan(true);
    assert_eq!(plan.len(), 4);
    assert!(matches!(&plan[0], LinkAction::DeleteLink { name } if name == "vtap0"));
    assert!(matches!(&plan[1], LinkAction::CreateTap { name } if name == "vtap0"));
    assert!(matches!(&plan[2], LinkAction::SetUp { name } if name == "vtap0"));
    assert!(matches!(
        &plan[3],
        LinkAction::SetMaster { name, master } if name == "vtap0" && master == "br0"
    ));

    let fresh = m.init_plan(false);
    assert_eq!(fresh.len(), 3);
    assert!(matches!(&fresh[0], LinkAction::CreateTap { .. }));
}

#[test]
fn vfio_plan_skips_rebinding_when_already_bound() {
    let m = VfioModule { name: String::from("0000:01:00.0"), romfile: None };
    let plan = m.driver_plan(Some("vfio-pci"));
    assert!(plan.is_empty());
}

#[test]
fn vfio_plan_unbinds_foreign_driver() {
    let m = VfioModule { name: String::from("0000:01:00.0"), romfile: None };
    let plan = m.driver_plan(Some("nouveau"));
    assert_eq!(plan.len(), 3);
    assert_eq!(plan[0].path, "/sys/bus/pci/devices/0000:01:00.0/driver/unbind");
    assert_eq!(plan[0].data, "0000:01:00.0");
    assert_eq!(plan[1].path, "/sys/bus/pci/devices/0000:01:00.0/driver_override");
    assert_eq!(plan[1].data, "vfio-pci");
    assert_eq!(plan[2].path, "/sys/bus/pci/drivers_probe");
    assert_eq!(plan[2].data, "0000:01:00.0");
}

#[test]
fn vfio_plan_overrides_unbound_device() {
    let m = VfioModule { name: String::from("0000:02:00.0"), romfile: None };
    let plan = m.driver_plan(None);
    assert_eq!(plan.len(), 2);
    assert_eq!(plan[0].path, "/sys/bus/pci/devices/0000:02:00.0/driver_override");
    assert_eq!(plan[0].data, "vfio-pci");
    assert_eq!(plan[1].path, "/sys/bus/pci/drivers_probe");
    assert_eq!(plan[1].data, "0000:02:00.0");
}

#[test]
fn transfer_ownership_is_noop_when_owner_matches() {
    assert_eq!(transfer_ownership(1000, 100, 1000, 100), None);
}

#[test]
fn transfer_ownership_issues_one_change_otherwise() {
    assert_eq!(transfer_ownership(0, 0, 1000, 100), Some((1000, 100)));
    assert_eq!(transfer_ownership(1000, 0, 1000, 100), Some((1000, 100)));
}

#[test]
fn transfer_ownership_twice_changes_at_most_once() {
    let first = transfer_ownership(0, 0, 1000, 100);
    let owner = first.unwrap_or((0, 0));
    assert_eq!(transfer_ownership(owner.0, owner.1, 1000, 100), None);
}

#[test]
fn poll_step_decisions() {
    assert_eq!(poll_step(true, 0, 5000), PollDecision::Ready);
    assert_eq!(poll_step(true, 9000, 5000), PollDecision::Ready);
    assert_eq!(poll_step(false, 0, 5000), PollDecision::Wait);
    assert_eq!(poll_step(false, 4999, 5000), PollDecision::Wait);
    assert_eq!(poll_step(false, 5000, 5000), PollDecision::TimedOut);
}
