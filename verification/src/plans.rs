//! Plans for the privileged preparation phase.
//!
//! `init` is the only phase permitted to mutate host/kernel state, and the
//! mutations the modules need are fixed sequences of link-management and
//! sysfs-write actions decided by the observed kernel state. The library
//! computes those sequences as data; an unverified front end performs them
//! (running the link-management command, writing the control files) and
//! aborts the launch on the first failure.
//!
//! The link actions come with a model of the kernel's interface-name
//! namespace — which names exist — under which the tap plans are proved to
//! run without failure from any starting state and to leave exactly one
//! interface of the target name behind, however often they are re-run.
//! Whether the kernel can satisfy variant-specific linkage (a macvtap
//! attribute, a host interface or bridge master) is outside the model: those
//! checks fail only for a misconfigured host, never because of a stale
//! interface.

use vstd::prelude::*;

use crate::modules::BridgeTapModuleView;
use crate::modules::BaseTapModule;
use crate::modules::BridgeTapModule;
use crate::modules::MacVTapModule;
use crate::modules::MacVTapModuleView;
use crate::modules::VfioModule;
use crate::strutil::str_eq;
use crate::sysfs::build_path;
use crate::sysfs::spec_build_path;

verus! {

/// One link-management action, in the terms of the external link tool.
pub enum LinkAction {
    /// Delete the named interface (`link del`).
    DeleteLink { name: String },
    /// Create a macvtap sub-interface of `host` in bridge mode with the
    /// given MAC (`link add name .. link .. address .. type macvtap mode
    /// bridge`).
    CreateMacVTap { name: String, host: String, mac: String },
    /// Create a plain tap device (`tuntap add .. mode tap`).
    CreateTap { name: String },
    /// Require that the interface's sysfs node carries the named attribute;
    /// a missing attribute is a fatal configuration error, not a race.
    RequireAttr { name: String, attr: String },
    /// Bring the interface administratively up (`link set .. up`).
    SetUp { name: String },
    /// Attach the interface to the named bridge as its master
    /// (`link set .. master ..`).
    SetMaster { name: String, master: String },
}

pub ghost enum LinkActionView {
    DeleteLink { name: Seq<char> },
    CreateMacVTap { name: Seq<char>, host: Seq<char>, mac: Seq<char> },
    CreateTap { name: Seq<char> },
    RequireAttr { name: Seq<char>, attr: Seq<char> },
    SetUp { name: Seq<char> },
    SetMaster { name: Seq<char>, master: Seq<char> },
}

impl DeepView for LinkAction {
    type V = LinkActionView;

    open spec fn deep_view(&self) -> LinkActionView {
        match self {
            LinkAction::DeleteLink { name } => LinkActionView::DeleteLink { name: name@ },
            LinkAction::CreateMacVTap { name, host, mac } => LinkActionView::CreateMacVTap {
                name: name@,
                host: host@,
                mac: mac@,
            },
            LinkAction::CreateTap { name } => LinkActionView::CreateTap { name: name@ },
            LinkAction::RequireAttr { name, attr } => LinkActionView::RequireAttr {
                name: name@,
                attr: attr@,
            },
            LinkAction::SetUp { name } => LinkActionView::SetUp { name: name@ },
            LinkAction::SetMaster { name, master } => LinkActionView::SetMaster {
                name: name@,
                master: master@,
            },
        }
    }
}

// ---------------------------------------------------------------------------
// The interface-name model
// ---------------------------------------------------------------------------

/// Does the action succeed against the set of existing interface names?
/// Deleting a missing interface and creating an existing name fail; the
/// remaining actions need their interface to exist.
pub open spec fn link_action_ok(links: Set<Seq<char>>, a: LinkActionView) -> bool {
    match a {
        LinkActionView::DeleteLink { name } => links.contains(name),
        LinkActionView::CreateMacVTap { name, .. } => !links.contains(name),
        LinkActionView::CreateTap { name } => !links.contains(name),
        LinkActionView::RequireAttr { name, .. } => links.contains(name),
        LinkActionView::SetUp { name } => links.contains(name),
        LinkActionView::SetMaster { name, .. } => links.contains(name),
    }
}

/// The set of interface names after the action.
pub open spec fn apply_link_action(links: Set<Seq<char>>, a: LinkActionView) -> Set<Seq<char>> {
    match a {
        LinkActionView::DeleteLink { name } => links.remove(name),
        LinkActionView::CreateMacVTap { name, .. } => links.insert(name),
        LinkActionView::CreateTap { name } => links.insert(name),
        LinkActionView::RequireAttr { .. } => links,
        LinkActionView::SetUp { .. } => links,
        LinkActionView::SetMaster { .. } => links,
    }
}

pub open spec fn run_link_plan_from(
    links: Set<Seq<char>>,
    plan: Seq<LinkActionView>,
    i: nat,
) -> Option<Set<Seq<char>>>
    decreases plan.len() - i,
{
    if i >= plan.len() {
        Some(links)
    } else if link_action_ok(links, plan[i as int]) {
        run_link_plan_from(apply_link_action(links, plan[i as int]), plan, i + 1)
    } else {
        None
    }
}

/// The interface names left after running the whole plan, or `None` when
/// some action fails.
pub open spec fn run_link_plan(links: Set<Seq<char>>, plan: Seq<LinkActionView>) -> Option<
    Set<Seq<char>>,
> {
    run_link_plan_from(links, plan, 0)
}

// ---------------------------------------------------------------------------
// Tap plans
// ---------------------------------------------------------------------------

/// The state machine shared by both tap variants, as an action sequence:
/// delete the target name when an interface already carries it (the module
/// never reuses an existing interface — stale state is indistinguishable
/// from fresh state), create the interface, verify the required sysfs
/// attribute when the variant has one, and bring the interface up.
pub open spec fn spec_custom_init_plan(
    name: Seq<char>,
    link_exists: bool,
    create: LinkActionView,
    required_attr: Option<Seq<char>>,
) -> Seq<LinkActionView> {
    if link_exists {
        match required_attr {
            Some(attr) => seq![
                LinkActionView::DeleteLink { name },
                create,
                LinkActionView::RequireAttr { name, attr },
                LinkActionView::SetUp { name },
            ],
            None => seq![
                LinkActionView::DeleteLink { name },
                create,
                LinkActionView::SetUp { name },
            ],
        }
    } else {
        match required_attr {
            Some(attr) => seq![
                create,
                LinkActionView::RequireAttr { name, attr },
                LinkActionView::SetUp { name },
            ],
            None => seq![create, LinkActionView::SetUp { name }],
        }
    }
}

impl BaseTapModule {
    /// The shared tap preparation plan. `link_exists` is whether the target
    /// interface name currently exists (the caller stats its sysfs node);
    /// `create` is the variant-specific creation action.
    pub fn custom_init(&self, link_exists: bool, create: LinkAction, required_attr: Option<&str>)
        -> (r: Vec<LinkAction>)
        ensures
            r.deep_view() == spec_custom_init_plan(
                self.ifname@,
                link_exists,
                create.deep_view(),
                match required_attr {
                    Some(a) => Some(a@),
                    None => None,
                },
            ),
    {
        let mut r: Vec<LinkAction> = Vec::new();
        if link_exists {
            r.push(LinkAction::DeleteLink { name: self.ifname.clone() });
        }
        r.push(create);
        match required_attr {
            Some(attr) => {
                r.push(
                    LinkAction::RequireAttr { name: self.ifname.clone(), attr: attr.to_owned() },
                );
            },
            None => {},
        }
        r.push(LinkAction::SetUp { name: self.ifname.clone() });
        proof {
            assert(r.deep_view() =~= spec_custom_init_plan(
                self.ifname@,
                link_exists,
                create.deep_view(),
                match required_attr {
                    Some(a) => Some(a@),
                    None => None,
                },
            ));
        }
        r
    }
}

/// The macvtap preparation plan: the shared tap plan with the macvtap
/// creation action and the `macvtap` sysfs attribute requirement.
pub open spec fn spec_macvtap_init_plan(m: MacVTapModuleView, link_exists: bool) -> Seq<
    LinkActionView,
> {
    spec_custom_init_plan(
        m.base.ifname,
        link_exists,
        LinkActionView::CreateMacVTap { name: m.base.ifname, host: m.ifhost, mac: m.base.macaddress },
        Some("macvtap"@),
    )
}

impl MacVTapModule {
    /// The preparation plan, given whether the target interface name
    /// currently exists. After the plan runs, the caller resolves the
    /// interface's ifindex, waits for `/dev/tap<ifindex>` to appear and
    /// transfers its ownership to the resource owner.
    pub fn init_plan(&self, link_exists: bool) -> (r: Vec<LinkAction>)
        ensures
            r.deep_view() == spec_macvtap_init_plan(self.deep_view(), link_exists),
    {
        self.base.custom_init(
            link_exists,
            LinkAction::CreateMacVTap {
                name: self.base.ifname.clone(),
                host: self.ifhost.clone(),
                mac: self.base.macaddress.clone(),
            },
            Some("macvtap"),
        )
    }
}

/// The bridge-tap preparation plan: the shared tap plan with the plain tap
/// creation action, then attachment to the bridge as its master.
pub open spec fn spec_bridge_tap_init_plan(m: BridgeTapModuleView, link_exists: bool) -> Seq<
    LinkActionView,
> {
    spec_custom_init_plan(
        m.base.ifname,
        link_exists,
        LinkActionView::CreateTap { name: m.base.ifname },
        None,
    ).push(LinkActionView::SetMaster { name: m.base.ifname, master: m.ifbr })
}

impl BridgeTapModule {
    pub fn init_plan(&self, link_exists: bool) -> (r: Vec<LinkAction>)
        ensures
            r.deep_view() == spec_bridge_tap_init_plan(self.deep_view(), link_exists),
    {
        let mut r = self.base.custom_init(
            link_exists,
            LinkAction::CreateTap { name: self.base.ifname.clone() },
            None,
        );
        r.push(
            LinkAction::SetMaster { name: self.base.ifname.clone(), master: self.ifbr.clone() },
        );
        proof {
            assert(r.deep_view() =~= spec_bridge_tap_init_plan(self.deep_view(), link_exists));
        }
        r
    }
}

/// Does the action create the named interface?
pub open spec fn creates_link(a: LinkActionView, name: Seq<char>) -> bool {
    (a matches LinkActionView::CreateMacVTap { name: n, .. } && n == name) || (
    a matches LinkActionView::CreateTap { name: n } && n == name)
}

/// The shared tap plan, decided from the actual state of the name, runs
/// without failure from any starting state and leaves exactly the starting
/// names plus the target: the unconditional delete-before-create step makes
/// a single interface of the target name, never two, whatever was there
/// before.
pub proof fn lemma_custom_init_plan_runs(
    links: Set<Seq<char>>,
    name: Seq<char>,
    create: LinkActionView,
    required_attr: Option<Seq<char>>,
)
    requires
        creates_link(create, name),
    ensures
        run_link_plan(links, spec_custom_init_plan(name, links.contains(name), create, required_attr))
            == Some(links.insert(name)),
{
    let plan = spec_custom_init_plan(name, links.contains(name), create, required_attr);
    if links.contains(name) {
        let s1 = links.remove(name);
        let s2 = s1.insert(name);
        assert(run_link_plan_from(links, plan, 0) == run_link_plan_from(s1, plan, 1));
        assert(run_link_plan_from(s1, plan, 1) == run_link_plan_from(s2, plan, 2));
        match required_attr {
            Some(attr) => {
                assert(run_link_plan_from(s2, plan, 2) == run_link_plan_from(s2, plan, 3));
                assert(run_link_plan_from(s2, plan, 3) == run_link_plan_from(s2, plan, 4));
                assert(run_link_plan_from(s2, plan, 4) == Some(s2));
            },
            None => {
                assert(run_link_plan_from(s2, plan, 2) == run_link_plan_from(s2, plan, 3));
                assert(run_link_plan_from(s2, plan, 3) == Some(s2));
            },
        }
        assert(s2 =~= links.insert(name));
    } else {
        let s1 = links.insert(name);
        assert(run_link_plan_from(links, plan, 0) == run_link_plan_from(s1, plan, 1));
        match required_attr {
            Some(attr) => {
                assert(run_link_plan_from(s1, plan, 1) == run_link_plan_from(s1, plan, 2));
                assert(run_link_plan_from(s1, plan, 2) == run_link_plan_from(s1, plan, 3));
                assert(run_link_plan_from(s1, plan, 3) == Some(s1));
            },
            None => {
                assert(run_link_plan_from(s1, plan, 1) == run_link_plan_from(s1, plan, 2));
                assert(run_link_plan_from(s1, plan, 2) == Some(s1));
            },
        }
    }
}

/// Re-running the macvtap preparation against a previously created
/// interface of the same name always yields a single interface: from any
/// state the plan results in the state plus the target name, and a second
/// run from that state changes nothing.
pub proof fn lemma_macvtap_init_idempotent(m: MacVTapModuleView, links: Set<Seq<char>>)
    ensures
        run_link_plan(links, spec_macvtap_init_plan(m, links.contains(m.base.ifname))) == Some(
            links.insert(m.base.ifname),
        ),
        run_link_plan(links.insert(m.base.ifname), spec_macvtap_init_plan(m, true)) == Some(
            links.insert(m.base.ifname),
        ),
{
    let name = m.base.ifname;
    let create = LinkActionView::CreateMacVTap { name, host: m.ifhost, mac: m.base.macaddress };
    lemma_custom_init_plan_runs(links, name, create, Some("macvtap"@));
    let after = links.insert(name);
    lemma_custom_init_plan_runs(after, name, create, Some("macvtap"@));
    assert(after.insert(name) =~= after);
}

/// The same idempotence for the bridge-attached tap: the master attachment
/// at the end does not change which interfaces exist.
pub proof fn lemma_bridge_tap_init_idempotent(m: BridgeTapModuleView, links: Set<Seq<char>>)
    ensures
        run_link_plan(links, spec_bridge_tap_init_plan(m, links.contains(m.base.ifname))) == Some(
            links.insert(m.base.ifname),
        ),
        run_link_plan(links.insert(m.base.ifname), spec_bridge_tap_init_plan(m, true)) == Some(
            links.insert(m.base.ifname),
        ),
{
    lemma_bridge_tap_init_runs(m, links, links.contains(m.base.ifname));
    let after = links.insert(m.base.ifname);
    lemma_bridge_tap_init_runs(m, after, true);
    assert(after.insert(m.base.ifname) =~= after);
}

proof fn lemma_bridge_tap_init_runs(m: BridgeTapModuleView, links: Set<Seq<char>>, link_exists: bool)
    requires
        link_exists == links.contains(m.base.ifname),
    ensures
        run_link_plan(links, spec_bridge_tap_init_plan(m, link_exists)) == Some(
            links.insert(m.base.ifname),
        ),
{
    let name = m.base.ifname;
    let create = LinkActionView::CreateTap { name };
    let head = spec_custom_init_plan(name, link_exists, create, None);
    let plan = spec_bridge_tap_init_plan(m, link_exists);
    let target = links.insert(name);
    let master = LinkActionView::SetMaster { name, master: m.ifbr };
    if link_exists {
        assert(plan =~= seq![
            LinkActionView::DeleteLink { name },
            create,
            LinkActionView::SetUp { name },
            master,
        ]);
        let s1 = links.remove(name);
        let s2 = s1.insert(name);
        assert(run_link_plan_from(links, plan, 0) == run_link_plan_from(s1, plan, 1));
        assert(run_link_plan_from(s1, plan, 1) == run_link_plan_from(s2, plan, 2));
        assert(run_link_plan_from(s2, plan, 2) == run_link_plan_from(s2, plan, 3));
        assert(run_link_plan_from(s2, plan, 3) == run_link_plan_from(s2, plan, 4));
        assert(run_link_plan_from(s2, plan, 4) == Some(s2));
        assert(s2 =~= target);
    } else {
        assert(plan =~= seq![create, LinkActionView::SetUp { name }, master]);
        let s1 = links.insert(name);
        assert(run_link_plan_from(links, plan, 0) == run_link_plan_from(s1, plan, 1));
        assert(run_link_plan_from(s1, plan, 1) == run_link_plan_from(s1, plan, 2));
        assert(run_link_plan_from(s1, plan, 2) == run_link_plan_from(s1, plan, 3));
        assert(run_link_plan_from(s1, plan, 3) == Some(s1));
    }
}

// ---------------------------------------------------------------------------
// PCI passthrough plan
// ---------------------------------------------------------------------------

/// One write of `data` into the sysfs control file at `path`.
pub struct SysfsWrite {
    pub path: String,
    pub data: String,
}

pub ghost struct SysfsWriteView {
    pub path: Seq<char>,
    pub data: Seq<char>,
}

impl DeepView for SysfsWrite {
    type V = SysfsWriteView;

    open spec fn deep_view(&self) -> SysfsWriteView {
        SysfsWriteView { path: self.path@, data: self.data@ }
    }
}

/// Unbind the device from its current driver: its PCI address into the
/// device's `driver/unbind` control file.
pub open spec fn spec_unbind_write(dev: Seq<char>) -> SysfsWriteView {
    SysfsWriteView {
        path: spec_build_path("/sys/bus/pci/devices"@, dev, "driver/unbind"@),
        data: dev,
    }
}

/// Force the passthrough driver for the device: the driver name into its
/// `driver_override` control file.
pub open spec fn spec_override_write(dev: Seq<char>) -> SysfsWriteView {
    SysfsWriteView {
        path: spec_build_path("/sys/bus/pci/devices"@, dev, "driver_override"@),
        data: "vfio-pci"@,
    }
}

/// Request a re-probe: the PCI address into the bus-wide `drivers_probe`
/// control file.
pub open spec fn spec_probe_write(dev: Seq<char>) -> SysfsWriteView {
    SysfsWriteView { path: "/sys/bus/pci/drivers_probe"@, data: dev }
}

/// The driver-rebinding writes for the device, decided from its current
/// driver (`None` when the `driver` symlink does not resolve). A device
/// already bound to the passthrough driver needs none; one bound elsewhere
/// is unbound, overridden and re-probed; an unbound one is overridden and
/// re-probed.
pub open spec fn spec_driver_plan(dev: Seq<char>, current_driver: Option<Seq<char>>) -> Seq<
    SysfsWriteView,
> {
    match current_driver {
        Some(d) => {
            if d == "vfio-pci"@ {
                seq![]
            } else {
                seq![spec_unbind_write(dev), spec_override_write(dev), spec_probe_write(dev)]
            }
        },
        None => seq![spec_override_write(dev), spec_probe_write(dev)],
    }
}

impl VfioModule {
    /// The driver-override and re-probe writes.
    fn override_driver(&self) -> (r: Vec<SysfsWrite>)
        ensures
            r.deep_view() =~= seq![spec_override_write(self.name@), spec_probe_write(self.name@)],
    {
        let mut r: Vec<SysfsWrite> = Vec::new();
        r.push(
            SysfsWrite {
                path: build_path("/sys/bus/pci/devices", self.name.as_str(), "driver_override"),
                data: "vfio-pci".to_owned(),
            },
        );
        r.push(
            SysfsWrite { path: "/sys/bus/pci/drivers_probe".to_owned(), data: self.name.clone() },
        );
        r
    }

    /// The sysfs writes that settle the device's driver, decided from the
    /// driver it is currently bound to. A device already bound to the
    /// passthrough driver gets no write at all. After the plan runs, the
    /// caller resolves the device's IOMMU group and transfers ownership of
    /// the group device file.
    pub fn driver_plan(&self, current_driver: Option<&str>) -> (r: Vec<SysfsWrite>)
        ensures
            r.deep_view() == spec_driver_plan(
                self.name@,
                match current_driver {
                    Some(d) => Some(d@),
                    None => None,
                },
            ),
            (current_driver matches Some(d) && d@ == "vfio-pci"@) ==> r@.len() == 0,
    {
        let r = match current_driver {
            Some(d) => {
                if str_eq(d, "vfio-pci") {
                    Vec::new()
                } else {
                    let mut w: Vec<SysfsWrite> = Vec::new();
                    w.push(
                        SysfsWrite {
                            path: build_path(
                                "/sys/bus/pci/devices",
                                self.name.as_str(),
                                "driver/unbind",
                            ),
                            data: self.name.clone(),
                        },
                    );
                    let mut rest = self.override_driver();
                    w.append(&mut rest);
                    w
                }
            },
            None => self.override_driver(),
        };
        proof {
            assert(r.deep_view() =~= spec_driver_plan(
                self.name@,
                match current_driver {
                    Some(d) => Some(d@),
                    None => None,
                },
            ));
        }
        r
    }
}

/// A device already bound to the passthrough driver needs no unbind, no
/// override and no probe: its preparation is idempotent on the
/// already-correct path.
pub proof fn lemma_vfio_already_bound(dev: Seq<char>)
    ensures
        spec_driver_plan(dev, Some("vfio-pci"@)) =~= Seq::<SysfsWriteView>::empty(),
{
}

} // verus!
